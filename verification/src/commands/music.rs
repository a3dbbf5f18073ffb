//! The music commands: how a track, its progress and the queue are shown.

use crate::audio::sources::{AuxMetadata, AuxMetadataView};
use crate::text::{
    decimal, decimal_string, joined, lemma_repeated_char, repeat, repeated, starts_with, str_or,
    text_or, two_digit_string, two_digits, wide_decimal_string,
};
use vstd::prelude::*;
use vstd::string::StringExecFns;

verus! {

/// Whether the queue replays the current track when it ends.
#[derive(Debug, Clone, Copy, PartialEq, Eq, Structural)]
pub enum LoopState {
    NoLoop,
    Loop,
}

/// A length of time as hours, minutes and seconds, each at least two digits wide and
/// separated by colons. Hours are not wrapped into days.
pub open spec fn hhmmss(secs: nat) -> Seq<char> {
    two_digits(secs / 3600) + seq![':'] + two_digits((secs / 60) % 60) + seq![':'] + two_digits(
        secs % 60,
    )
}

/// Writes a length of time, given in whole seconds, as `hh:mm:ss`.
pub fn duration_hhmmss(secs: u64) -> (s: String)
    ensures
        s@ == hhmmss(secs as nat),
{
    let seconds = secs % 60;
    let minutes = (secs / 60) % 60;
    let hours = (secs / 60) / 60;
    proof {
        reveal_strlit(":");
        assert((secs / 60) / 60 == secs / 3600) by (nonlinear_arith);
    }
    let mut s = two_digit_string(hours);
    s.append(":");
    s.append(two_digit_string(minutes).as_str());
    s.append(":");
    s.append(two_digit_string(seconds).as_str());
    s
}

/// A bar of `bar_length` cells between `**[` and `]**`, of which the first `filled`
/// are `#` and the rest `-`.
pub open spec fn progress_bar_text(filled: nat, bar_length: nat) -> Seq<char> {
    seq!['*', '*', '['] + repeated(seq!['#'], filled) + repeated(
        seq!['-'],
        (bar_length - filled) as nat,
    ) + seq![']', '*', '*']
}

/// A bar has as many cells as asked for, between its three opening and three closing
/// characters: first the filled cells, then the empty ones.
pub proof fn lemma_progress_bar_cells(filled: nat, bar_length: nat)
    requires
        filled <= bar_length,
    ensures
        progress_bar_text(filled, bar_length).len() == bar_length + 6,
        forall|i: int|
            0 <= i < bar_length ==> #[trigger] progress_bar_text(filled, bar_length)[i + 3] == if i
                < filled {
                '#'
            } else {
                '-'
            },
{
    lemma_repeated_char('#', filled);
    lemma_repeated_char('-', (bar_length - filled) as nat);
}

/// Draws a progress bar of `bar_length` cells, `filled` of them filled.
pub fn progress_bar(filled: usize, bar_length: usize) -> (s: String)
    requires
        filled <= bar_length,
    ensures
        s@ == progress_bar_text(filled as nat, bar_length as nat),
{
    proof {
        reveal_strlit("**[");
        reveal_strlit("]**");
        reveal_strlit("#");
        reveal_strlit("-");
    }
    let mut s = String::from_str("**[");
    s.append(repeat("#", filled).as_str());
    s.append(repeat("-", bar_length - filled).as_str());
    s.append("]**");
    assert("**["@ =~= seq!['*', '*', '[']);
    assert("]**"@ =~= seq![']', '*', '*']);
    assert("#"@ =~= seq!['#']);
    assert("-"@ =~= seq!['-']);
    s
}

/// How many tracks a page of the queue lists.
pub const PAGE_SIZE: usize = 10;

/// What the queue shows for a track without a title.
pub const UNTITLED: &'static str = "~~~~";

/// The line of the queue listing for the track at `index`: the index, a full stop, a
/// space and the title.
pub open spec fn queue_line(index: nat, title: Option<Seq<char>>) -> Seq<char> {
    decimal(index) + seq!['.', ' '] + text_or(title, UNTITLED@)
}

/// The lines for the tracks from `from` up to `to`, separated by line breaks.
pub open spec fn page_text(titles: Seq<Option<Seq<char>>>, from: int, to: int) -> Seq<char>
    decreases to - from,
{
    if to <= from {
        Seq::empty()
    } else if to == from + 1 {
        queue_line(from as nat, titles[from])
    } else {
        page_text(titles, from, to - 1) + seq!['\n'] + queue_line((to - 1) as nat, titles[to - 1])
    }
}

/// Where the page numbered `page` ends in a queue of `len` tracks.
pub open spec fn page_end(page: int, len: int) -> int {
    if PAGE_SIZE * page + PAGE_SIZE <= len {
        PAGE_SIZE * page + PAGE_SIZE
    } else {
        len
    }
}

/// The pages of the queue listing: ten tracks to a page, in queue order, the last page
/// holding what is left.
pub open spec fn queue_pages_text(titles: Seq<Option<Seq<char>>>) -> Seq<Seq<char>> {
    Seq::new(
        ((titles.len() + PAGE_SIZE - 1) / (PAGE_SIZE as int)) as nat,
        |page: int| page_text(titles, PAGE_SIZE * page, page_end(page, titles.len() as int)),
    )
}

/// Lays out the titles of the queued tracks in pages.
pub fn queue_pages(titles: &Vec<Option<String>>) -> (pages: Vec<String>)
    ensures
        pages.deep_view() == queue_pages_text(titles.deep_view()),
{
    let ghost all = titles.deep_view();
    let n = titles.len();
    let mut pages: Vec<String> = Vec::new();
    let mut page = String::new();
    let mut i: usize = 0;
    proof {
        reveal_strlit("\n");
        reveal_strlit(". ");
    }
    while i < n
        invariant
            i <= n,
            n == titles.len(),
            all == titles.deep_view(),
            pages.len() == i / PAGE_SIZE,
            forall|p: int|
                0 <= p < pages.len() ==> (#[trigger] pages[p])@ == page_text(
                    all,
                    PAGE_SIZE * p,
                    PAGE_SIZE * p + PAGE_SIZE,
                ),
            page@ == page_text(all, (PAGE_SIZE * (i / PAGE_SIZE)) as int, i as int),
            "\n"@ == seq!['\n'],
            ". "@ == seq!['.', ' '],
        decreases n - i,
    {
        let ghost start = (PAGE_SIZE * (i / PAGE_SIZE)) as int;
        if i % PAGE_SIZE != 0 {
            page.append("\n");
        }
        page.append(decimal_string(i as u64).as_str());
        page.append(". ");
        page.append(str_or(&titles[i], UNTITLED));
        proof {
            assert(all[i as int] == titles[i as int].deep_view());
            if i % PAGE_SIZE == 0 {
                assert(page@ =~= queue_line(i as nat, all[i as int]));
            } else {
                assert(page@ =~= page_text(all, start, i as int) + seq!['\n'] + queue_line(
                    i as nat,
                    all[i as int],
                ));
            }
            assert(page@ == page_text(all, start, i + 1));
        }
        i = i + 1;
        if i % PAGE_SIZE == 0 {
            pages.push(page);
            page = String::new();
        }
    }
    if i % PAGE_SIZE != 0 {
        pages.push(page);
    }
    proof {
        let expected = queue_pages_text(all);
        assert(pages.deep_view().len() == expected.len());
        assert forall|p: int| 0 <= p < expected.len() implies pages.deep_view()[p] == expected[p] by {
            assert(pages.deep_view()[p] == pages[p]@);
        }
        assert(pages.deep_view() =~= expected);
    }
    pages
}

/// A run of lines can be cut anywhere into two runs with a line break between them.
pub proof fn lemma_page_text_split(titles: Seq<Option<Seq<char>>>, from: int, mid: int, to: int)
    requires
        from < mid < to,
    ensures
        page_text(titles, from, to) == page_text(titles, from, mid) + seq!['\n'] + page_text(
            titles,
            mid,
            to,
        ),
    decreases to - mid,
{
    let last = queue_line((to - 1) as nat, titles[to - 1]);
    if to > mid + 1 {
        lemma_page_text_split(titles, from, mid, to - 1);
        assert(page_text(titles, from, to) =~= page_text(titles, from, mid) + seq!['\n'] + (
        page_text(titles, mid, to - 1) + seq!['\n'] + last));
    }
}

/// The pages of a queue, read one after the other, list every track once and in queue
/// order: joined by line breaks they are the lines of the whole queue.
pub proof fn lemma_pages_list_every_track(titles: Seq<Option<Seq<char>>>)
    ensures
        joined(queue_pages_text(titles), seq!['\n']) == page_text(
            titles,
            0,
            titles.len() as int,
        ),
{
    let pages = queue_pages_text(titles);
    lemma_first_pages(titles, pages.len() as int);
    assert(pages.take(pages.len() as int) =~= pages);
}

/// The first `count` pages list the tracks before the page that follows them.
proof fn lemma_first_pages(titles: Seq<Option<Seq<char>>>, count: int)
    requires
        0 <= count <= queue_pages_text(titles).len(),
    ensures
        joined(queue_pages_text(titles).take(count), seq!['\n']) == page_text(
            titles,
            0,
            if count == 0 {
                0
            } else {
                page_end(count - 1, titles.len() as int)
            },
        ),
    decreases count,
{
    let pages = queue_pages_text(titles);
    let first = pages.take(count);
    if count == 1 {
        assert(first[0] == pages[0]);
    } else if count > 1 {
        lemma_first_pages(titles, count - 1);
        assert(first.drop_last() =~= pages.take(count - 1));
        assert(first.last() == pages[count - 1]);
        lemma_page_text_split(
            titles,
            0,
            PAGE_SIZE * (count - 1),
            page_end(count - 1, titles.len() as int),
        );
    }
}

/// A queued track: what is known about it, and who asked for it.
pub struct TrackData {
    pub metadata: AuxMetadata,
    pub requester: String,
}

pub struct TrackDataView {
    pub metadata: AuxMetadataView,
    pub requester: Seq<char>,
}

impl View for TrackData {
    type V = TrackDataView;

    open spec fn view(&self) -> TrackDataView {
        TrackDataView { metadata: self.metadata@, requester: self.requester@ }
    }
}

/// The card that presents a track, field by field.
pub struct TrackCard {
    pub title: String,
    pub description: String,
    pub link: String,
    pub channel: String,
    pub requester: String,
    pub footer: String,
}

pub struct TrackCardView {
    pub title: Seq<char>,
    pub description: Seq<char>,
    pub link: Seq<char>,
    pub channel: Seq<char>,
    pub requester: Seq<char>,
    pub footer: Seq<char>,
}

impl View for TrackCard {
    type V = TrackCardView;

    open spec fn view(&self) -> TrackCardView {
        TrackCardView {
            title: self.title@,
            description: self.description@,
            link: self.link@,
            channel: self.channel@,
            requester: self.requester@,
            footer: self.footer@,
        }
    }
}

/// What a card shows for a track without a title.
pub const NO_TITLE: &'static str = "No Title";

/// What a card shows for a track without a channel.
pub const NO_CHANNEL: &'static str = "No Channel";

/// The length of a track whose length is not known.
pub open spec fn duration_or_zero(duration: Option<u64>) -> nat {
    match duration {
        Some(secs) => secs as nat,
        None => 0,
    }
}

/// The card for a track under a header: the title as a third-level heading, the source
/// as a link labelled `click me`, the channel, the requester, and the length in the
/// footer. What is unknown is shown as `No Title`, `No Channel`, an empty link and a
/// length of zero.
pub open spec fn track_card(header: Seq<char>, data: TrackDataView) -> TrackCardView {
    TrackCardView {
        title: header,
        description: "### "@ + text_or(data.metadata.title, NO_TITLE@),
        link: "[click me]("@ + text_or(data.metadata.source_url, Seq::empty()) + ")"@,
        channel: text_or(data.metadata.channel, NO_CHANNEL@),
        requester: data.requester,
        footer: "Duration: "@ + hhmmss(duration_or_zero(data.metadata.duration)),
    }
}

/// Builds the card that presents a track.
pub fn track_embed(header: &str, data: &TrackData) -> (card: TrackCard)
    ensures
        card@ == track_card(header@, data@),
{
    proof {
        reveal_strlit("");
    }
    let metadata = &data.metadata;
    let duration: u64 = match metadata.duration {
        Some(secs) => secs,
        None => 0,
    };
    let mut description = String::from_str("### ");
    description.append(str_or(&metadata.title, NO_TITLE));
    let mut link = String::from_str("[click me](");
    link.append(str_or(&metadata.source_url, ""));
    link.append(")");
    assert(""@ =~= Seq::<char>::empty());
    let mut footer = String::from_str("Duration: ");
    footer.append(duration_hhmmss(duration).as_str());
    TrackCard {
        title: String::from_str(header),
        description,
        link,
        channel: String::from_str(str_or(&metadata.channel, NO_CHANNEL)),
        requester: data.requester.clone(),
        footer,
    }
}

/// The width of the progress bar of the track that is playing.
pub const NOW_PLAYING_BAR: usize = 18;

/// The progress of the playing track: position and length in brackets, and on the
/// line below a bar of which `filled` cells are filled.
pub open spec fn progress_text(position: nat, duration: nat, filled: nat) -> Seq<char> {
    seq!['['] + hhmmss(position) + seq!['/'] + hhmmss(duration) + seq![']', '\n']
        + progress_bar_text(filled, NOW_PLAYING_BAR as nat)
}

/// Writes the progress of a track that is `position` seconds into its `duration`
/// seconds, with `filled` cells of the bar filled.
pub fn now_playing_progress(position: u64, duration: u64, filled: usize) -> (s: String)
    requires
        filled <= NOW_PLAYING_BAR,
    ensures
        s@ == progress_text(position as nat, duration as nat, filled as nat),
{
    proof {
        reveal_strlit("[");
        reveal_strlit("/");
        reveal_strlit("]\n");
    }
    let mut s = String::from_str("[");
    s.append(duration_hhmmss(position).as_str());
    s.append("/");
    s.append(duration_hhmmss(duration).as_str());
    s.append("]\n");
    s.append(progress_bar(filled, NOW_PLAYING_BAR).as_str());
    assert("["@ =~= seq!['[']);
    assert("/"@ =~= seq!['/']);
    assert("]\n"@ =~= seq![']', '\n']);
    s
}

/// Writes how much of the playing track is left, given in whole seconds.
pub fn time_left_footer(left: u64) -> (s: String)
    ensures
        s@ == hhmmss(left as nat) + " left in track"@,
{
    let mut s = duration_hhmmss(left);
    s.append(" left in track");
    s
}

/// How a song named to the play command is found.
#[derive(Debug, Clone, Copy, PartialEq, Eq, Structural)]
pub enum QueryKind {
    /// The song is the address of a video.
    Url,
    /// The song is a term to search for; the first result is played.
    SearchTerm,
}

/// What every address of a video begins with.
pub const URL_PREFIX: &'static str = "https";

/// Tells an address from a search term.
pub fn query_kind(song: &str) -> (kind: QueryKind)
    ensures
        kind == if URL_PREFIX@.is_prefix_of(song@) {
            QueryKind::Url
        } else {
            QueryKind::SearchTerm
        },
{
    if starts_with(song, URL_PREFIX) {
        QueryKind::Url
    } else {
        QueryKind::SearchTerm
    }
}

/// Whether a member may add a track to the queue, by the voice channels they and the
/// bot are in.
#[derive(Debug, Clone, Copy, PartialEq, Eq, Structural)]
pub enum Admission {
    /// The member is in no voice channel.
    NoVoiceChannel,
    /// The bot is in no voice channel yet and joins the member's, announcing from now
    /// on each track that starts.
    Join { channel: u64 },
    /// The bot is in another voice channel than the member.
    OtherChannel,
    /// The bot is in the member's voice channel.
    Admitted,
}

/// Decides whether a member in `user_channel` may play a track while the bot is in
/// `bot_channel`.
pub fn admission(user_channel: Option<u64>, bot_channel: Option<u64>) -> (decision: Admission)
    ensures
        decision == match (user_channel, bot_channel) {
            (None, _) => Admission::NoVoiceChannel,
            (Some(user), None) => Admission::Join { channel: user },
            (Some(user), Some(bot)) => if user == bot {
                Admission::Admitted
            } else {
                Admission::OtherChannel
            },
        },
{
    match user_channel {
        None => Admission::NoVoiceChannel,
        Some(user) => match bot_channel {
            None => Admission::Join { channel: user },
            Some(bot) => if user == bot {
                Admission::Admitted
            } else {
                Admission::OtherChannel
            },
        },
    }
}

/// Where a new track lands in a queue that holds `len` tracks, as the play command
/// reports it. A track that starts at once has no position to report.
pub open spec fn position_text(len: nat) -> Option<Seq<char>> {
    if len == 0 {
        None
    } else {
        Some(seq!['#'] + decimal(len + 1) + " in queue"@)
    }
}

/// Words the position of a track added to a queue of `len` tracks.
pub fn enqueue_position(len: usize) -> (text: Option<String>)
    ensures
        text.deep_view() == position_text(len as nat),
{
    if len == 0 {
        None
    } else {
        proof {
            reveal_strlit("#");
        }
        let mut s = String::from_str("#");
        s.append(wide_decimal_string(len as u128 + 1).as_str());
        s.append(" in queue");
        assert("#"@ =~= seq!['#']);
        Some(s)
    }
}

/// What the bot answers to a command.
pub struct Reply {
    pub text: &'static str,
    /// Whether only the member who gave the command sees the answer.
    pub ephemeral: bool,
}

impl Reply {
    /// This reply has the given wording and visibility.
    pub open spec fn says(self, text: &str, ephemeral: bool) -> bool {
        self.text@ == text@ && self.ephemeral == ephemeral
    }
}

/// `reply` is a refusal with the given wording, shown to the member alone.
pub open spec fn refuses_with(reply: Option<Reply>, text: &str) -> bool {
    reply matches Some(r) && r.says(text, true)
}

pub const NOT_CONNECTED: &'static str = "Not in a voice channel";

pub const NO_VOICE_CHANNEL: &'static str = "You are not in a voice channel";

pub const OTHER_CHANNEL: &'static str = "You are not in my voice channel";

pub const TRACK_ADDED: &'static str = "Track added";

pub const NOTHING_PLAYING: &'static str = "Nothing is playing";

pub const NOTHING_PLAYING_NOW: &'static str = "Nothing is playing right now";

pub const NOTHING_QUEUED: &'static str = "Nothing is in the queue";

pub const STATE_UNKNOWN: &'static str = "Oops something went wrong...";

pub const LOOP_ENABLED: &'static str = "Enabled loop";

pub const LOOP_DISABLED: &'static str = "Disabled loop";

/// A command that acts on the whole queue or on the voice connection.
#[derive(Debug, Clone, Copy, PartialEq, Eq, Structural)]
pub enum Control {
    Leave,
    Clear,
    Skip,
    Pause,
    Resume,
}

impl Control {
    /// What the bot says once it has done as told.
    pub open spec fn confirmation(self) -> Seq<char> {
        match self {
            Control::Leave => "Leaving the channel"@,
            Control::Clear => "Cleared queue"@,
            Control::Skip => "Skipped track"@,
            Control::Pause => "Paused queue"@,
            Control::Resume => "Resumed queue"@,
        }
    }
}

/// The answer to a queue command. The command is carried out exactly when the bot has
/// a voice connection, which is when the answer is public.
pub fn control_reply(control: Control, connected: bool) -> (reply: Reply)
    ensures
        reply.ephemeral == !connected,
        reply.text@ == if connected {
            control.confirmation()
        } else {
            NOT_CONNECTED@
        },
{
    if !connected {
        return Reply { text: NOT_CONNECTED, ephemeral: true };
    }
    let text = match control {
        Control::Leave => "Leaving the channel",
        Control::Clear => "Cleared queue",
        Control::Skip => "Skipped track",
        Control::Pause => "Paused queue",
        Control::Resume => "Resumed queue",
    };
    Reply { text, ephemeral: false }
}

/// The answer to a request to loop the playing track or to stop looping it. The
/// request is carried out exactly when the answer is public.
pub fn loop_reply(state: LoopState, connected: bool, playing: bool) -> (reply: Reply)
    ensures
        !connected ==> reply.says(NOT_CONNECTED, true),
        connected && !playing ==> reply.says(NOTHING_PLAYING, true),
        connected && playing && state == LoopState::Loop ==> reply.says(LOOP_ENABLED, false),
        connected && playing && state == LoopState::NoLoop ==> reply.says(LOOP_DISABLED, false),
{
    if !connected {
        Reply { text: NOT_CONNECTED, ephemeral: true }
    } else if !playing {
        Reply { text: NOTHING_PLAYING, ephemeral: true }
    } else {
        match state {
            LoopState::Loop => Reply { text: LOOP_ENABLED, ephemeral: false },
            LoopState::NoLoop => Reply { text: LOOP_DISABLED, ephemeral: false },
        }
    }
}

/// Why the playing track cannot be shown, if it cannot: `state_known` tells whether
/// the player reported the track's position. `None` means that the card is shown.
pub fn now_playing_refusal(connected: bool, playing: bool, state_known: bool) -> (reply: Option<Reply>)
    ensures
        connected && playing && state_known <==> reply is None,
        !connected ==> refuses_with(reply, NOT_CONNECTED),
        connected && !playing ==> refuses_with(reply, NOTHING_PLAYING_NOW),
        connected && playing && !state_known ==> refuses_with(reply, STATE_UNKNOWN),
{
    if !connected {
        Some(Reply { text: NOT_CONNECTED, ephemeral: true })
    } else if !playing {
        Some(Reply { text: NOTHING_PLAYING_NOW, ephemeral: true })
    } else if !state_known {
        Some(Reply { text: STATE_UNKNOWN, ephemeral: true })
    } else {
        None
    }
}

/// Why the queue cannot be listed, if it cannot. `None` means that its pages are shown.
pub fn queue_refusal(connected: bool, len: usize) -> (reply: Option<Reply>)
    ensures
        connected && len > 0 <==> reply is None,
        !connected ==> refuses_with(reply, NOT_CONNECTED),
        connected && len == 0 ==> refuses_with(reply, NOTHING_QUEUED),
{
    if !connected {
        Some(Reply { text: NOT_CONNECTED, ephemeral: true })
    } else if len == 0 {
        Some(Reply { text: NOTHING_QUEUED, ephemeral: true })
    } else {
        None
    }
}

/// Why a member may not play a track, if they may not.
pub fn play_refusal(decision: Admission) -> (reply: Option<Reply>)
    ensures
        decision == Admission::NoVoiceChannel ==> refuses_with(reply, NO_VOICE_CHANNEL),
        decision == Admission::OtherChannel ==> refuses_with(reply, OTHER_CHANNEL),
        decision is Join || decision == Admission::Admitted <==> reply is None,
{
    match decision {
        Admission::NoVoiceChannel => Some(Reply { text: NO_VOICE_CHANNEL, ephemeral: true }),
        Admission::OtherChannel => Some(Reply { text: OTHER_CHANNEL, ephemeral: true }),
        _ => None,
    }
}

} // verus!
