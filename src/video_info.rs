//! The metadata panel: whether a file has a video stream, the per-stream
//! report, and the report's scroll offset. Running the probe and reading
//! its structured output are left to the caller.
use vstd::prelude::*;
use crate::events::{AppEvent, Key};
use crate::state::AppState;

verus! {

/// A field of a stream record, as found in the extractor's output.
pub enum FieldValue {
    Absent,
    Text(String),
    Unsigned(u64),
    /// Present, but neither a string nor an unsigned integer.
    Other,
}

/// The fields of one stream that the report shows.
pub struct StreamInfo {
    pub index: FieldValue,
    pub codec_type: FieldValue,
    pub codec_name: FieldValue,
    pub codec_long_name: FieldValue,
    pub width: FieldValue,
    pub height: FieldValue,
    pub channel_layout: FieldValue,
    pub language: FieldValue,
    pub title: FieldValue,
}

pub open spec fn digit(d: nat) -> char {
    seq!['0', '1', '2', '3', '4', '5', '6', '7', '8', '9'][d as int]
}

/// Decimal digits of `n`, most significant first, without padding.
pub open spec fn decimal(n: nat) -> Seq<char>
    decreases n,
{
    if n < 10 {
        seq![digit(n)]
    } else {
        decimal(n / 10).push(digit(n % 10))
    }
}

/// The one-character text of digit `d`.
fn digit_text(d: u64) -> (r: &'static str)
    requires
        d < 10,
    ensures
        r@ == seq![digit(d as nat)],
{
    proof {
        reveal_strlit("0");
        reveal_strlit("1");
        reveal_strlit("2");
        reveal_strlit("3");
        reveal_strlit("4");
        reveal_strlit("5");
        reveal_strlit("6");
        reveal_strlit("7");
        reveal_strlit("8");
        reveal_strlit("9");
    }
    let r = if d == 0 {
        "0"
    } else if d == 1 {
        "1"
    } else if d == 2 {
        "2"
    } else if d == 3 {
        "3"
    } else if d == 4 {
        "4"
    } else if d == 5 {
        "5"
    } else if d == 6 {
        "6"
    } else if d == 7 {
        "7"
    } else if d == 8 {
        "8"
    } else {
        "9"
    };
    assert(r@ =~= seq![digit(d as nat)]);
    r
}

/// The decimal digits of `n`.
fn decimal_text(n: u64) -> (r: String)
    ensures
        r@ == decimal(n as nat),
    decreases n,
{
    if n < 10 {
        String::from_str(digit_text(n))
    } else {
        let mut s = decimal_text(n / 10);
        s.append(digit_text(n % 10));
        assert(s@ =~= decimal((n / 10) as nat).push(digit((n % 10) as nat)));
        s
    }
}

pub open spec fn opt_view(o: Option<String>) -> Option<Seq<char>> {
    match o {
        Some(s) => Some(s@),
        None => None,
    }
}

/// A text field: its string, "Unknown" when it is not one.
pub open spec fn text_field(f: FieldValue) -> Option<Seq<char>> {
    match f {
        FieldValue::Absent => None,
        FieldValue::Text(s) => Some(s@),
        _ => Some("Unknown"@),
    }
}

/// A numeric field: its digits, 0 when it is not an unsigned integer.
pub open spec fn number_field(f: FieldValue) -> Option<Seq<char>> {
    match f {
        FieldValue::Absent => None,
        FieldValue::Unsigned(n) => Some(decimal(n as nat)),
        _ => Some(decimal(0)),
    }
}

/// A tag: shown only when it is a non-empty string.
pub open spec fn tag_field(f: FieldValue) -> Option<Seq<char>> {
    match f {
        FieldValue::Text(s) => if s@.len() > 0 {
            Some(s@)
        } else {
            None
        },
        _ => None,
    }
}

/// The line for a field, if it has one.
pub open spec fn field_lines(label: Seq<char>, value: Option<Seq<char>>) -> Seq<Seq<char>> {
    match value {
        Some(v) => seq![label + v + seq!['\n']],
        None => seq![],
    }
}

/// The block of one stream: a line per field present, then a blank line.
pub open spec fn stream_block(s: StreamInfo) -> Seq<Seq<char>> {
    field_lines("Stream Index: "@, number_field(s.index)) + field_lines(
        "Codec Type: "@,
        text_field(s.codec_type),
    ) + field_lines("Codec Name: "@, text_field(s.codec_name)) + field_lines(
        "Long Codec Name: "@,
        text_field(s.codec_long_name),
    ) + field_lines("Width: "@, number_field(s.width)) + field_lines(
        "Height: "@,
        number_field(s.height),
    ) + field_lines("Channel Layout: "@, text_field(s.channel_layout)) + field_lines(
        "Language: "@,
        tag_field(s.language),
    ) + field_lines("Title: "@, tag_field(s.title)) + seq![Seq::<char>::empty()]
}

/// The report on a file's streams: their blocks, in order.
pub open spec fn report(streams: Seq<StreamInfo>) -> Seq<Seq<char>>
    decreases streams.len(),
{
    if streams.len() == 0 {
        seq![]
    } else {
        report(streams.drop_last()) + stream_block(streams.last())
    }
}

pub open spec fn lines_view(v: Seq<String>) -> Seq<Seq<char>> {
    v.map_values(|s: String| s@)
}

/// `needle` occurs in `hay`.
pub open spec fn has_infix(hay: Seq<char>, needle: Seq<char>) -> bool {
    exists|i: int| 0 <= i <= hay.len() - needle.len() && #[trigger] hay.subrange(i, i + needle.len()) == needle
}

/// The single line shown for a file without a video stream.
pub open spec fn not_video_line() -> Seq<char> {
    "value: false"@
}

fn text_value(f: &FieldValue) -> (r: Option<String>)
    ensures
        opt_view(r) == text_field(*f),
{
    match f {
        FieldValue::Absent => None,
        FieldValue::Text(s) => Some(s.clone()),
        _ => Some(String::from_str("Unknown")),
    }
}

fn number_value(f: &FieldValue) -> (r: Option<String>)
    ensures
        opt_view(r) == number_field(*f),
{
    match f {
        FieldValue::Absent => None,
        FieldValue::Unsigned(n) => Some(decimal_text(*n)),
        _ => Some(decimal_text(0)),
    }
}

fn tag_value(f: &FieldValue) -> (r: Option<String>)
    ensures
        opt_view(r) == tag_field(*f),
{
    match f {
        FieldValue::Text(s) => {
            if s.as_str().unicode_len() > 0 {
                Some(s.clone())
            } else {
                None
            }
        },
        _ => None,
    }
}

fn push_field(lines: &mut Vec<String>, label: &str, value: Option<String>)
    ensures
        lines_view(final(lines)@) == lines_view(old(lines)@) + field_lines(label@, opt_view(value)),
{
    match value {
        Some(v) => {
            let ghost vv = v@;
            let mut s = String::from_str(label);
            s.append(v.as_str());
            proof {
                reveal_strlit("\n");
            }
            s.append("\n");
            assert("\n"@ =~= seq!['\n']);
            assert(s@ == label@ + vv + seq!['\n']);
            let ghost before = lines@;
            lines.push(s);
            assert(lines_view(lines@) =~= lines_view(before) + field_lines(
                label@,
                opt_view(Some(v)),
            ));
        },
        None => {
            assert(lines_view(lines@) =~= lines_view(lines@) + field_lines(label@, None));
        },
    }
}

fn push_block(lines: &mut Vec<String>, s: &StreamInfo)
    ensures
        lines_view(final(lines)@) == lines_view(old(lines)@) + stream_block(*s),
{
    let ghost start = lines_view(lines@);
    push_field(lines, "Stream Index: ", number_value(&s.index));
    push_field(lines, "Codec Type: ", text_value(&s.codec_type));
    push_field(lines, "Codec Name: ", text_value(&s.codec_name));
    push_field(lines, "Long Codec Name: ", text_value(&s.codec_long_name));
    push_field(lines, "Width: ", number_value(&s.width));
    push_field(lines, "Height: ", number_value(&s.height));
    push_field(lines, "Channel Layout: ", text_value(&s.channel_layout));
    push_field(lines, "Language: ", tag_value(&s.language));
    push_field(lines, "Title: ", tag_value(&s.title));
    let ghost before = lines@;
    lines.push(String::new());
    assert(lines_view(lines@) =~= lines_view(before) + seq![Seq::<char>::empty()]);
    assert(lines_view(lines@) =~= start + stream_block(*s));
}

/// The lines of the report on `streams`: one block per stream.
pub fn stream_lines(streams: &Vec<StreamInfo>) -> (r: Vec<String>)
    ensures
        lines_view(r@) == report(streams@),
{
    let mut lines: Vec<String> = Vec::new();
    let mut i: usize = 0;
    while i < streams.len()
        invariant
            i <= streams@.len(),
            lines_view(lines@) == report(streams@.take(i as int)),
        decreases streams@.len() - i,
    {
        push_block(&mut lines, &streams[i]);
        assert(streams@.take(i + 1).drop_last() =~= streams@.take(i as int));
        i = i + 1;
    }
    assert(streams@.take(i as int) =~= streams@);
    lines
}

/// What the panel shows: the stream report for a video file, one
/// informational line otherwise.
pub fn panel_lines(is_video: bool, streams: &Vec<StreamInfo>) -> (r: Vec<String>)
    ensures
        is_video ==> lines_view(r@) == report(streams@),
        !is_video ==> lines_view(r@) == seq![not_video_line()],
{
    if is_video {
        stream_lines(streams)
    } else {
        let mut r: Vec<String> = Vec::new();
        r.push(String::from_str("value: false"));
        assert(lines_view(r@) =~= seq![not_video_line()]);
        r
    }
}

/// Whether `needle` occurs in `hay`.
pub fn contains_text(hay: &str, needle: &str) -> (r: bool)
    ensures
        r == has_infix(hay@, needle@),
{
    let hl = hay.unicode_len();
    let nl = needle.unicode_len();
    if nl > hl {
        return false;
    }
    let mut i: usize = 0;
    while i <= hl - nl
        invariant
            hl == hay@.len(),
            nl == needle@.len(),
            nl <= hl,
            forall|p: int| 0 <= p < i ==> #[trigger] hay@.subrange(p, p + nl) != needle@,
        decreases hl - nl + 1 - i,
    {
        let mut j: usize = 0;
        let mut same = true;
        while j < nl && same
            invariant
                hl == hay@.len(),
                nl == needle@.len(),
                i + nl <= hl,
                j <= nl,
                same ==> forall|q: int| 0 <= q < j ==> hay@[i + q] == needle@[q],
                !same ==> hay@.subrange(i as int, i + nl) != needle@,
            decreases nl - j + (if same { 1int } else { 0 }),
        {
            if hay.get_char(i + j) != needle.get_char(j) {
                same = false;
                assert(hay@.subrange(i as int, i + nl)[j as int] != needle@[j as int]);
            } else {
                j = j + 1;
            }
        }
        if same {
            assert(hay@.subrange(i as int, i + nl) =~= needle@);
            return true;
        }
        if i == hl - nl {
            return false;
        }
        i = i + 1;
    }
    false
}

/// A probe run says video when it succeeded and its output names a video
/// stream.
pub fn probe_says_video(success: bool, output: &str) -> (r: bool)
    ensures
        r == (success && has_infix(output@, "video"@)),
{
    success && contains_text(output, "video")
}

/// Scroll state of the metadata panel.
pub struct VideoInfo {
    vertical_scroll: usize,
    content_length: usize,
    focused: bool,
}

/// The scroll offset after key `k`: Down adds 3 and Up takes 3 away, both
/// saturating; other keys leave it.
pub open spec fn scroll_after(offset: int, k: Key) -> int {
    if k == Key::Down {
        if offset + 3 > usize::MAX {
            usize::MAX as int
        } else {
            offset + 3
        }
    } else if k == Key::Up {
        if offset < 3 {
            0
        } else {
            offset - 3
        }
    } else {
        offset
    }
}

impl VideoInfo {
    pub closed spec fn scroll(&self) -> nat {
        self.vertical_scroll as nat
    }

    pub closed spec fn length(&self) -> nat {
        self.content_length as nat
    }

    pub closed spec fn focus(&self) -> bool {
        self.focused
    }

    /// A panel is all its scroll offset, recorded length and focus flag: so
    /// recording the same length again, as a second render of unchanged
    /// state does, leaves the panel as it was.
    pub proof fn lemma_same_views_same_panel(a: VideoInfo, b: VideoInfo)
        requires
            a.scroll() == b.scroll(),
            a.length() == b.length(),
            a.focus() == b.focus(),
        ensures
            a == b,
    {
    }

    pub fn new() -> (r: Self)
        ensures
            r.scroll() == 0,
            r.length() == 0,
            !r.focus(),
    {
        VideoInfo { vertical_scroll: 0, content_length: 0, focused: false }
    }

    pub fn vertical_scroll(&self) -> (r: usize)
        ensures
            r == self.scroll(),
    {
        self.vertical_scroll
    }

    pub fn content_length(&self) -> (r: usize)
        ensures
            r == self.length(),
    {
        self.content_length
    }

    pub fn has_focus(&self) -> (r: bool)
        ensures
            r == self.focus(),
    {
        self.focused
    }

    pub fn set_focus(&mut self, focused: bool)
        ensures
            final(self).focus() == focused,
            final(self).scroll() == old(self).scroll(),
            final(self).length() == old(self).length(),
    {
        self.focused = focused;
    }

    /// Records how many lines the report rendered has.
    pub fn record_content(&mut self, lines: usize)
        ensures
            final(self).length() == lines,
            final(self).scroll() == old(self).scroll(),
            final(self).focus() == old(self).focus(),
    {
        self.content_length = lines;
    }

    /// Scrolls the report, when this panel has focus; shared state is
    /// left as it is.
    pub fn handle_event(&mut self, event: &AppEvent, app_state: &mut AppState)
        ensures
            *final(app_state) == *old(app_state),
            final(self).length() == old(self).length(),
            final(self).focus() == old(self).focus(),
            final(self).scroll() == match *event {
                AppEvent::Input(k) => if old(self).focus() {
                    scroll_after(old(self).scroll() as int, k)
                } else {
                    old(self).scroll() as int
                },
                _ => old(self).scroll() as int,
            },
    {
        if !self.focused {
            return;
        }
        if let AppEvent::Input(key) = event {
            match key {
                Key::Down => {
                    self.vertical_scroll = self.vertical_scroll.saturating_add(3);
                },
                Key::Up => {
                    self.vertical_scroll = self.vertical_scroll.saturating_sub(3);
                },
                _ => {},
            }
        }
    }
}

} // verus!
