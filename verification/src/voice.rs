use vstd::prelude::*;
use crate::text::same_text;

verus! {

/// Whether the bot is playing in a guild.
#[derive(Debug, Clone, Copy, PartialEq, Eq, Structural)]
pub enum VoiceState {
    Free,
    Occupied,
}

/// The code under which a voice state is stored.
pub open spec fn state_code(s: VoiceState) -> Seq<char> {
    match s {
        VoiceState::Free => seq!['F'],
        VoiceState::Occupied => seq!['O'],
    }
}

/// The voice state that a stored code stands for: `O` is occupied, any
/// other code free.
pub open spec fn state_of_code(code: Seq<char>) -> VoiceState {
    if code == seq!['O'] {
        VoiceState::Occupied
    } else {
        VoiceState::Free
    }
}

impl VoiceState {
    /// The code under which this state is stored.
    pub fn code(&self) -> (res: &'static str)
        ensures
            res@ == state_code(*self),
    {
        proof {
            reveal_strlit("F");
            reveal_strlit("O");
            assert("F"@ =~= seq!['F']);
            assert("O"@ =~= seq!['O']);
        }
        match self {
            VoiceState::Free => "F",
            VoiceState::Occupied => "O",
        }
    }

    /// Reads a stored code back.
    pub fn from_code(code: &str) -> (res: VoiceState)
        ensures
            res == state_of_code(code@),
    {
        proof {
            reveal_strlit("O");
            assert("O"@ =~= seq!['O']);
        }
        if same_text(code, "O") {
            VoiceState::Occupied
        } else {
            VoiceState::Free
        }
    }
}

/// Storing a voice state and reading its code back gives the same state.
pub proof fn lemma_state_code_roundtrip(s: VoiceState)
    ensures
        state_of_code(state_code(s)) == s,
{
    if s == VoiceState::Free {
        assert(seq!['F'] != seq!['O']) by {
            assert(seq!['F'][0] != seq!['O'][0]);
        }
    }
}

/// Only the code `O` reads as occupied; every other stored code, empty or
/// longer ones included, reads as free.
pub proof fn lemma_only_o_is_occupied(code: Seq<char>)
    ensures
        state_of_code(code) == VoiceState::Occupied <==> code == seq!['O'],
        state_code(VoiceState::Occupied) == seq!['O'],
        state_code(VoiceState::Free) == seq!['F'],
{
}

/// One member's voice state in a guild: who, and the voice channel they are
/// in, if any.
#[derive(Debug, Clone, Copy, PartialEq, Eq, Structural)]
pub struct VoiceEntry {
    pub user_id: u64,
    pub channel_id: Option<u64>,
}

/// What looking for the author's voice channel decides: whether to tell
/// the text channel that no one is in a voice channel, and the channel to
/// join.
#[derive(Debug, Clone, Copy, PartialEq, Eq, Structural)]
pub struct VoiceLookup {
    pub notify_empty: bool,
    pub channel: Option<u64>,
}

/// The notice sent when no member of the guild is in a voice channel.
pub const EMPTY_VOICE_NOTICE: &'static str = "Голосовые каналы пусты";

/// The channel of the first entry that belongs to `author` and names a
/// channel.
pub open spec fn author_channel(entries: Seq<VoiceEntry>, author: u64) -> Option<u64>
    decreases entries.len(),
{
    if entries.len() == 0 {
        None
    } else if entries[0].user_id == author && entries[0].channel_id is Some {
        entries[0].channel_id
    } else {
        author_channel(entries.drop_first(), author)
    }
}

/// Finds the voice channel that the author of a message is in, among the
/// guild's voice states, and whether the empty-channel notice is due (it is
/// when the guild has no voice states at all).
pub fn determine_if_is_voice(states: &Vec<VoiceEntry>, author: u64) -> (res: VoiceLookup)
    ensures
        res.notify_empty == (states@.len() == 0),
        res.channel == author_channel(states@, author),
{
    let notify_empty = states.len() == 0;
    let mut i: usize = 0;
    assert(states@.skip(0) =~= states@);
    while i < states.len()
        invariant
            i <= states@.len(),
            notify_empty == (states@.len() == 0),
            author_channel(states@, author) == author_channel(states@.skip(i as int), author),
        decreases states@.len() - i,
    {
        let e = states[i];
        assert(states@.skip(i as int)[0] == e);
        if e.user_id == author && e.channel_id.is_some() {
            return VoiceLookup { notify_empty, channel: e.channel_id };
        }
        assert(states@.skip(i as int).drop_first() =~= states@.skip(i + 1));
        i = i + 1;
    }
    assert(states@.skip(i as int) =~= seq![]);
    VoiceLookup { notify_empty, channel: None }
}

/// The channel found belongs to the author and is one they are in; none is
/// found only when the author is in no voice channel of the list.
pub proof fn lemma_author_channel_sound(entries: Seq<VoiceEntry>, author: u64)
    ensures
        author_channel(entries, author) matches Some(c) ==> exists|i: int|
            0 <= i < entries.len() && #[trigger] entries[i].user_id == author
                && entries[i].channel_id == Some(c),
        author_channel(entries, author) is None ==> forall|i: int|
            0 <= i < entries.len() && #[trigger] entries[i].user_id == author
                ==> entries[i].channel_id is None,
    decreases entries.len(),
{
    if entries.len() > 0 {
        let rest = entries.drop_first();
        lemma_author_channel_sound(rest, author);
        if !(entries[0].user_id == author && entries[0].channel_id is Some) {
            if let Some(c) = author_channel(entries, author) {
                let j = choose|j: int|
                    0 <= j < rest.len() && #[trigger] rest[j].user_id == author
                        && rest[j].channel_id == Some(c);
                assert(entries[j + 1] == rest[j]);
            } else {
                assert forall|i: int|
                    0 <= i < entries.len() && #[trigger] entries[i].user_id == author implies entries[i].channel_id is None by {
                    if i > 0 {
                        assert(entries[i] == rest[i - 1]);
                    }
                }
            }
        }
    }
}

/// Which videos of a playlist link are fetched (`--playlist-items`).
pub const PLAYLIST_ITEMS: u32 = 2;

/// What yt-dlp reports for a link: a single video, or a playlist whose
/// entries (when it lists them) each may carry a URL.
#[derive(Debug, Clone)]
pub enum YtOutput {
    SingleVideo,
    Playlist { entries: Option<Vec<Option<String>>> },
}

pub open spec fn entry_urls(entries: Seq<Option<String>>, link: Seq<char>) -> Seq<Seq<char>> {
    entries.map_values(
        |e: Option<String>|
            match e {
                Some(u) => u@,
                None => link,
            },
    )
}

/// The links to play for a requested link: each listed entry's URL (the
/// requested link itself for an entry without one), or the requested link
/// alone for a single video or a playlist that lists no entries.
pub open spec fn playlist_links_spec(link: Seq<char>, output: YtOutput) -> Seq<Seq<char>> {
    match output {
        YtOutput::Playlist { entries: Some(es) } => entry_urls(es@, link),
        _ => seq![link],
    }
}

/// Decides the links to play from yt-dlp's report on the requested link.
pub fn playlist_links(link: &str, output: &YtOutput) -> (res: Vec<String>)
    ensures
        crate::text::string_views(res@) == playlist_links_spec(link@, *output),
{
    match output {
        YtOutput::Playlist { entries: Some(es) } => {
            let mut out: Vec<String> = Vec::new();
            let mut i: usize = 0;
            while i < es.len()
                invariant
                    i <= es@.len(),
                    crate::text::string_views(out@) == entry_urls(es@.take(i as int), link@),
                decreases es@.len() - i,
            {
                let url = match &es[i] {
                    Some(u) => u.clone(),
                    None => link.to_owned(),
                };
                let ghost expected = match es@[i as int] {
                    Some(u) => u@,
                    None => link@,
                };
                assert(url@ == expected);
                let ghost before = out@;
                out.push(url);
                assert(es@.take(i + 1) =~= es@.take(i as int).push(es@[i as int]));
                assert(entry_urls(es@.take(i + 1), link@) =~= entry_urls(es@.take(i as int), link@).push(expected));
                assert(crate::text::string_views(out@) =~= crate::text::string_views(before).push(url@));
                i = i + 1;
            }
            assert(es@.take(i as int) =~= es@);
            out
        },
        _ => {
            let mut out: Vec<String> = Vec::new();
            out.push(link.to_owned());
            assert(crate::text::string_views(out@) =~= seq![link@]);
            out
        },
    }
}

/// For a playlist that lists its entries, there is one link per entry, in
/// order: the entry's own URL, or the requested link for an entry without
/// one. Anything else plays the requested link alone.
pub proof fn lemma_playlist_links_follow_entries(link: Seq<char>, output: YtOutput)
    ensures
        output matches YtOutput::Playlist { entries: Some(es) } ==> {
            &&& playlist_links_spec(link, output).len() == es@.len()
            &&& forall|i: int|
                0 <= i < es@.len() ==> #[trigger] playlist_links_spec(link, output)[i] == match es@[i] {
                    Some(u) => u@,
                    None => link,
                }
        },
        !(output matches YtOutput::Playlist { entries: Some(_) }) ==> playlist_links_spec(link, output)
            == seq![link],
{
}

/// The bitrate, in bits per second, that a voice call is set to.
pub const SESSION_BITRATE: i32 = 96_000;

/// A voice session starts only when both the author's channel and the
/// links to play are known; it then joins that channel and plays those
/// links.
pub fn session_target(channel: Option<u64>, links: Option<Vec<String>>) -> (res: Option<(u64, Vec<String>)>)
    ensures
        res is Some <==> (channel is Some && links is Some),
        res matches Some(t) ==> t.0 == channel->0 && t.1 == links->0,
{
    match (channel, links) {
        (Some(c), Some(l)) => Some((c, l)),
        _ => None,
    }
}

/// One track of a playback: the link, and whether a leave is scheduled for
/// when the track ends.
#[derive(Debug, Clone)]
pub struct PlaybackStep {
    pub url: String,
    pub leave_after: bool,
}

/// The tracks to play, in order; a track at position `index` of a list of
/// `length` schedules a leave when `length >= index`.
pub fn playback_plan(urls: &Vec<String>) -> (res: Vec<PlaybackStep>)
    ensures
        res@.len() == urls@.len(),
        forall|i: int|
            0 <= i < res@.len() ==> (#[trigger] res@[i]).url@ == urls@[i]@ && res@[i].leave_after
                == (urls@.len() >= i),
        forall|i: int| 0 <= i < res@.len() ==> (#[trigger] res@[i]).leave_after,
{
    let length = urls.len();
    let mut out: Vec<PlaybackStep> = Vec::new();
    let mut index: usize = 0;
    while index < length
        invariant
            length == urls@.len(),
            index <= length,
            out@.len() == index,
            forall|i: int|
                0 <= i < index ==> (#[trigger] out@[i]).url@ == urls@[i]@ && out@[i].leave_after
                    == (urls@.len() >= i),
        decreases length - index,
    {
        out.push(PlaybackStep { url: urls[index].clone(), leave_after: length >= index });
        index = index + 1;
    }
    out
}

} // verus!
