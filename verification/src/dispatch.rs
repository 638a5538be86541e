use vstd::prelude::*;
use crate::command::{command_of, Command, CommandType};
use crate::text::{split_message, string_views, words};
use crate::voice::VoiceState;

verus! {

/// One thing the bot does in answer to a message, in the order given.
#[derive(Debug, Clone, Copy, PartialEq, Eq, Structural)]
pub enum Step {
    /// Store the message, under the label of its command kind.
    LogMessage(CommandType),
    /// Store the guild's voice state.
    RecordVoiceState(VoiceState),
    /// Join the author's voice channel and play the requested link.
    StartVoiceSession,
    /// Answer with the help text.
    SendHelp,
    /// Leave the guild's voice channel.
    EndVoiceSession,
    /// Skip to the next track in the author's voice channel.
    SkipTrack,
    /// Note that the message is no command.
    NotACommand,
}

/// The help text sent in answer to `!help`.
pub const HELP_TEXT: &'static str = "!play https://someurl.com - Starts the bot replacing someurl with your link\n                        !leave - Bot leaves the voice channel";

/// The steps that answer a command.
pub open spec fn command_steps(c: CommandType, has_db: bool) -> Seq<Step> {
    match c {
        CommandType::Play => if has_db {
            seq![Step::RecordVoiceState(VoiceState::Occupied), Step::StartVoiceSession]
        } else {
            seq![Step::StartVoiceSession]
        },
        CommandType::Help => seq![Step::SendHelp],
        CommandType::Leave => seq![Step::EndVoiceSession],
        CommandType::Skip => seq![Step::SkipTrack],
        CommandType::NotCommand => seq![Step::NotACommand],
    }
}

/// The answer to a message: nothing when it holds no word; else, read from
/// its first word, the message is stored when a database is connected, and
/// then the command is carried out.
pub open spec fn message_plan(content: Seq<char>, has_db: bool) -> Seq<Step> {
    let ws = words(content);
    if ws.len() == 0 {
        seq![]
    } else {
        let c = command_of(ws[0]);
        (if has_db {
            seq![Step::LogMessage(c)]
        } else {
            seq![]
        }) + command_steps(c, has_db)
    }
}

/// Decides how to answer a message with text `content`; `has_db` tells
/// whether a database is connected.
pub fn plan_message(content: &str, has_db: bool) -> (res: Vec<Step>)
    ensures
        res@ == message_plan(content@, has_db),
{
    let ws = split_message(content);
    let mut steps: Vec<Step> = Vec::new();
    if ws.len() == 0 {
        assert(steps@ =~= message_plan(content@, has_db));
        return steps;
    }
    assert(ws@[0]@ == words(content@)[0]);
    let c = ws[0].as_str().command_type();
    if has_db {
        steps.push(Step::LogMessage(c));
    }
    match c {
        CommandType::Play => {
            if has_db {
                steps.push(Step::RecordVoiceState(VoiceState::Occupied));
            }
            steps.push(Step::StartVoiceSession);
        },
        CommandType::Help => steps.push(Step::SendHelp),
        CommandType::Leave => steps.push(Step::EndVoiceSession),
        CommandType::Skip => steps.push(Step::SkipTrack),
        CommandType::NotCommand => steps.push(Step::NotACommand),
    }
    assert(steps@ =~= message_plan(content@, has_db));
    steps
}

/// The link that a `!play` message asks for: its second word, if any.
pub fn requested_link(content: &str) -> (res: Option<String>)
    ensures
        words(content@).len() > 1 ==> (res matches Some(l) && l@ == words(content@)[1]),
        words(content@).len() <= 1 ==> res is None,
{
    let ws = split_message(content);
    if ws.len() > 1 {
        assert(ws@[1]@ == words(content@)[1]);
        Some(ws[1].clone())
    } else {
        None
    }
}

/// With a database connected, every message that holds a word is stored
/// first, and under the kind of its first word; without one, none is.
pub proof fn lemma_messages_are_logged(content: Seq<char>, has_db: bool)
    ensures
        (exists|i: int|
            0 <= i < message_plan(content, has_db).len()
                && #[trigger] message_plan(content, has_db)[i] is LogMessage) <==> (has_db
            && words(content).len() > 0),
        has_db && words(content).len() > 0 ==> message_plan(content, has_db)[0] == Step::LogMessage(
            command_of(words(content)[0]),
        ),
{
    let p = message_plan(content, has_db);
    if has_db && words(content).len() > 0 {
        assert(p[0] is LogMessage);
    }
    if !(has_db && words(content).len() > 0) {
        assert forall|i: int| 0 <= i < p.len() implies !(#[trigger] p[i] is LogMessage) by {
            if words(content).len() > 0 {
                assert(p == command_steps(command_of(words(content)[0]), has_db));
            }
        }
    }
}

/// The voice state is stored only for a `!play` message while a database
/// is connected, and then it is stored as occupied.
pub proof fn lemma_voice_state_recorded_only_for_play(content: Seq<char>, has_db: bool, s: VoiceState)
    requires
        message_plan(content, has_db).contains(Step::RecordVoiceState(s)),
    ensures
        has_db,
        words(content).len() > 0,
        command_of(words(content)[0]) == CommandType::Play,
        s == VoiceState::Occupied,
{
    let p = message_plan(content, has_db);
    let i = choose|i: int| 0 <= i < p.len() && p[i] == Step::RecordVoiceState(s);
    assert(words(content).len() > 0);
    let c = command_of(words(content)[0]);
    if has_db {
        assert(p[i] == command_steps(c, has_db)[i - 1]);
    } else {
        assert(p[i] == command_steps(c, has_db)[i]);
    }
}

/// A message whose first word is no command only gets stored and noted:
/// it never reaches the voice channel.
pub proof fn lemma_other_messages_touch_no_voice(content: Seq<char>, has_db: bool)
    requires
        words(content).len() > 0,
        command_of(words(content)[0]) == CommandType::NotCommand,
    ensures
        !message_plan(content, has_db).contains(Step::StartVoiceSession),
        !message_plan(content, has_db).contains(Step::EndVoiceSession),
        !message_plan(content, has_db).contains(Step::SkipTrack),
{
    let p = message_plan(content, has_db);
    if has_db {
        assert(p =~= seq![Step::LogMessage(CommandType::NotCommand), Step::NotACommand]);
    } else {
        assert(p =~= seq![Step::NotACommand]);
    }
}

/// Without a database, the answer depends only on the first word: nothing
/// for a message without words, one action for each command word, and a
/// note for any other word.
pub proof fn lemma_answer_without_database(content: Seq<char>)
    ensures
        words(content).len() == 0 ==> message_plan(content, false) == Seq::<Step>::empty(),
        words(content).len() > 0 && words(content)[0] == seq!['!', 'p', 'l', 'a', 'y']
            ==> message_plan(content, false) == seq![Step::StartVoiceSession],
        words(content).len() > 0 && words(content)[0] == seq!['!', 'h', 'e', 'l', 'p']
            ==> message_plan(content, false) == seq![Step::SendHelp],
        words(content).len() > 0 && words(content)[0] == seq!['!', 'l', 'e', 'a', 'v', 'e']
            ==> message_plan(content, false) == seq![Step::EndVoiceSession],
        words(content).len() > 0 && words(content)[0] == seq!['!', 's', 'k', 'i', 'p']
            ==> message_plan(content, false) == seq![Step::SkipTrack],
        words(content).len() > 0 && words(content)[0] != seq!['!', 'p', 'l', 'a', 'y']
            && words(content)[0] != seq!['!', 'h', 'e', 'l', 'p'] && words(content)[0] != seq![
            '!',
            'l',
            'e',
            'a',
            'v',
            'e',
        ] && words(content)[0] != seq!['!', 's', 'k', 'i', 'p'] ==> message_plan(content, false)
            == seq![Step::NotACommand],
{
    if words(content).len() > 0 {
        let w = words(content)[0];
        assert(message_plan(content, false) =~= command_steps(command_of(w), false));
    }
}

/// A database only adds records in front of the answer: the message is
/// stored first, then, for `!play`, the voice state as occupied; the
/// actions that follow are those given without a database.
pub proof fn lemma_database_adds_only_records(content: Seq<char>)
    ensures
        words(content).len() == 0 ==> message_plan(content, true) == Seq::<Step>::empty(),
        words(content).len() > 0 && words(content)[0] == seq!['!', 'p', 'l', 'a', 'y']
            ==> message_plan(content, true) == seq![
            Step::LogMessage(CommandType::Play),
            Step::RecordVoiceState(VoiceState::Occupied),
        ] + message_plan(content, false),
        words(content).len() > 0 && words(content)[0] != seq!['!', 'p', 'l', 'a', 'y']
            ==> message_plan(content, true) == seq![
            Step::LogMessage(command_of(words(content)[0])),
        ] + message_plan(content, false),
{
    if words(content).len() > 0 {
        let w = words(content)[0];
        let c = command_of(w);
        let t = message_plan(content, true);
        let f = message_plan(content, false);
        if w == seq!['!', 'p', 'l', 'a', 'y'] {
            assert(t =~= seq![
                Step::LogMessage(CommandType::Play),
                Step::RecordVoiceState(VoiceState::Occupied),
            ] + f);
        } else {
            assert(c != CommandType::Play);
            assert(t =~= seq![Step::LogMessage(c)] + f);
        }
    }
}

/// `!help` is answered with the help text whether or not a database is
/// connected.
pub proof fn lemma_help_is_always_sent(content: Seq<char>, has_db: bool)
    requires
        words(content).len() > 0,
        words(content)[0] == seq!['!', 'h', 'e', 'l', 'p'],
    ensures
        message_plan(content, has_db).contains(Step::SendHelp),
        message_plan(content, has_db).last() == Step::SendHelp,
{
    lemma_answer_without_database(content);
    lemma_database_adds_only_records(content);
    let p = message_plan(content, has_db);
    assert(p[p.len() - 1] == Step::SendHelp);
}

} // verus!
