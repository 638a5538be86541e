use vstd::prelude::*;
use crate::text::same_text;

verus! {

/// What a message asks of the bot, read from its first word.
#[derive(Debug, Clone, Copy, PartialEq, Eq, Structural)]
pub enum CommandType {
    Play,
    Leave,
    Skip,
    Help,
    NotCommand,
}

/// The command that a word names: `!play`, `!leave`, `!skip` and `!help`
/// are commands, every other word is none.
pub open spec fn command_of(word: Seq<char>) -> CommandType {
    if word == seq!['!', 'p', 'l', 'a', 'y'] {
        CommandType::Play
    } else if word == seq!['!', 'l', 'e', 'a', 'v', 'e'] {
        CommandType::Leave
    } else if word == seq!['!', 's', 'k', 'i', 'p'] {
        CommandType::Skip
    } else if word == seq!['!', 'h', 'e', 'l', 'p'] {
        CommandType::Help
    } else {
        CommandType::NotCommand
    }
}

/// The word that names a command (empty for `NotCommand`).
pub open spec fn command_word(c: CommandType) -> Seq<char> {
    match c {
        CommandType::Play => seq!['!', 'p', 'l', 'a', 'y'],
        CommandType::Leave => seq!['!', 'l', 'e', 'a', 'v', 'e'],
        CommandType::Skip => seq!['!', 's', 'k', 'i', 'p'],
        CommandType::Help => seq!['!', 'h', 'e', 'l', 'p'],
        CommandType::NotCommand => seq![],
    }
}

/// The name of a command kind as its derived `Debug` prints it.
pub open spec fn command_label(c: CommandType) -> Seq<char> {
    match c {
        CommandType::Play => seq!['P', 'l', 'a', 'y'],
        CommandType::Leave => seq!['L', 'e', 'a', 'v', 'e'],
        CommandType::Skip => seq!['S', 'k', 'i', 'p'],
        CommandType::Help => seq!['H', 'e', 'l', 'p'],
        CommandType::NotCommand => seq!['N', 'o', 't', 'C', 'o', 'm', 'm', 'a', 'n', 'd'],
    }
}

/// Reading a word as a command.
pub trait Command {
    fn command_type(&self) -> CommandType;
}

impl Command for str {
    fn command_type(&self) -> (res: CommandType)
        ensures
            res == command_of(self@),
    {
        proof {
            reveal_strlit("!play");
            reveal_strlit("!leave");
            reveal_strlit("!skip");
            reveal_strlit("!help");
            assert("!play"@ =~= command_word(CommandType::Play));
            assert("!leave"@ =~= command_word(CommandType::Leave));
            assert("!skip"@ =~= command_word(CommandType::Skip));
            assert("!help"@ =~= command_word(CommandType::Help));
        }
        if same_text(self, "!play") {
            CommandType::Play
        } else if same_text(self, "!leave") {
            CommandType::Leave
        } else if same_text(self, "!skip") {
            CommandType::Skip
        } else if same_text(self, "!help") {
            CommandType::Help
        } else {
            CommandType::NotCommand
        }
    }
}

impl CommandType {
    /// The label under which a message of this kind is stored: the variant's
    /// name, as `{:#?}` formats it.
    pub fn label(&self) -> (res: &'static str)
        ensures
            res@ == command_label(*self),
    {
        proof {
            reveal_strlit("Play");
            reveal_strlit("Leave");
            reveal_strlit("Skip");
            reveal_strlit("Help");
            reveal_strlit("NotCommand");
            assert("Play"@ =~= command_label(CommandType::Play));
            assert("Leave"@ =~= command_label(CommandType::Leave));
            assert("Skip"@ =~= command_label(CommandType::Skip));
            assert("Help"@ =~= command_label(CommandType::Help));
            assert("NotCommand"@ =~= command_label(CommandType::NotCommand));
        }
        match self {
            CommandType::Play => "Play",
            CommandType::Leave => "Leave",
            CommandType::Skip => "Skip",
            CommandType::Help => "Help",
            CommandType::NotCommand => "NotCommand",
        }
    }
}

/// Each command is recognised from its own word, and from no other: the
/// word of a command reads back as that command.
pub proof fn lemma_command_word_roundtrip(c: CommandType)
    requires
        c != CommandType::NotCommand,
    ensures
        command_of(command_word(c)) == c,
{
}

/// A word that names no command is read as `NotCommand`.
pub proof fn lemma_other_words_are_not_commands(word: Seq<char>)
    requires
        forall|c: CommandType| word != command_word(c),
    ensures
        command_of(word) == CommandType::NotCommand,
{
    assert(word != command_word(CommandType::Play));
    assert(word != command_word(CommandType::Leave));
    assert(word != command_word(CommandType::Skip));
    assert(word != command_word(CommandType::Help));
}

/// Distinct kinds of message are stored under distinct labels.
pub proof fn lemma_labels_distinct(a: CommandType, b: CommandType)
    requires
        a != b,
    ensures
        command_label(a) != command_label(b),
{
    let la = command_label(a);
    let lb = command_label(b);
    if la.len() == lb.len() {
        assert(la[0] != lb[0]);
    }
}

} // verus!
