//! The decoder of the power module's serial protocol.
//!
//! The module sends one line per sample, closed by a line feed: the number of
//! the node, then for each of the three phases its real power, apparent
//! power, RMS current, RMS voltage and power factor. That makes sixteen words,
//! parted by whitespace. A line with fewer or more words, or with a word that
//! is not a decimal number, is dropped, and the decoder goes on with the next
//! line.
//!
//! A measured value is kept as the text that came over the wire, which is a
//! number by the grammar of [`crate::text::literal`].
use vstd::prelude::*;

use crate::clock::Timestamp;
use crate::driver::error::CommError;
use crate::driver::error::ParseError;
use crate::text::chars_of;
use crate::text::decimal::is_digit;
use crate::text::decimal::is_unsigned;
use crate::text::decimal::parse_unsigned;
use crate::text::decimal::unsigned_digits;
use crate::text::decimal::unsigned_value;
use crate::text::literal::is_literal;
use crate::text::literal::is_literal_text;
use crate::text::literal::lemma_literal_has_a_digit;
use crate::text::string_of;
use crate::text::words::is_word;
use crate::text::words::lemma_words_of_spaced;
use crate::text::words::spaced;
use crate::text::words::split_words;
use crate::text::words::words;

verus! {

/// How many words a line holds: the node and fifteen measured values.
pub const WORDS: usize = 16;

/// One sample of the power module.
#[derive(Clone, Debug, PartialEq)]
pub struct RpictFrame {
    /// The number of the node that measured.
    pub node_id: u8,
    /// Phase 1: real power, in watts.
    pub l1_real_power: String,
    /// Phase 1: apparent power, in volt-amperes.
    pub l1_apparent_power: String,
    /// Phase 1: RMS current, in amperes.
    pub l1_irms: String,
    /// Phase 1: RMS voltage, in volts.
    pub l1_vrms: String,
    /// Phase 1: power factor.
    pub l1_power_factor: String,
    /// Phase 2: real power, in watts.
    pub l2_real_power: String,
    /// Phase 2: apparent power, in volt-amperes.
    pub l2_apparent_power: String,
    /// Phase 2: RMS current, in amperes.
    pub l2_irms: String,
    /// Phase 2: RMS voltage, in volts.
    pub l2_vrms: String,
    /// Phase 2: power factor.
    pub l2_power_factor: String,
    /// Phase 3: real power, in watts.
    pub l3_real_power: String,
    /// Phase 3: apparent power, in volt-amperes.
    pub l3_apparent_power: String,
    /// Phase 3: RMS current, in amperes.
    pub l3_irms: String,
    /// Phase 3: RMS voltage, in volts.
    pub l3_vrms: String,
    /// Phase 3: power factor.
    pub l3_power_factor: String,
    /// When the line was read.
    pub timestamp: Timestamp,
}

/// What an [`RpictFrame`] holds, as mathematical values.
pub struct RpictFrameView {
    pub node_id: u8,
    /// The fifteen measured values, in the order of the line.
    pub values: Seq<Seq<char>>,
    pub timestamp: Timestamp,
}

impl View for RpictFrame {
    type V = RpictFrameView;

    open spec fn view(&self) -> RpictFrameView {
        RpictFrameView {
            node_id: self.node_id,
            values: seq![
                self.l1_real_power@,
                self.l1_apparent_power@,
                self.l1_irms@,
                self.l1_vrms@,
                self.l1_power_factor@,
                self.l2_real_power@,
                self.l2_apparent_power@,
                self.l2_irms@,
                self.l2_vrms@,
                self.l2_power_factor@,
                self.l3_real_power@,
                self.l3_apparent_power@,
                self.l3_irms@,
                self.l3_vrms@,
                self.l3_power_factor@,
            ],
            timestamp: self.timestamp,
        }
    }
}

/// The views of a vector of frames, in order.
pub open spec fn frame_views(frames: Seq<RpictFrame>) -> Seq<RpictFrameView> {
    frames.map_values(|f: RpictFrame| f@)
}

/// Whether `text` is the number of a node: an unsigned decimal number of
/// eight bits.
pub open spec fn is_node_id(text: Seq<char>) -> bool {
    is_unsigned(text) && unsigned_value(text) <= u8::MAX
}

/// Whether the words of a line make a sample: sixteen words, the first the
/// number of a node, the others measured values.
pub open spec fn is_sample(w: Seq<Seq<char>>) -> bool {
    &&& w.len() == WORDS
    &&& is_node_id(w[0])
    &&& forall|i: int| 1 <= i < WORDS ==> is_literal(#[trigger] w[i])
}

/// The frame that the line `line` makes, read at `timestamp`, if it makes
/// one: its values are the words behind the first, in their order.
pub open spec fn frame_of(line: Seq<char>, timestamp: Timestamp) -> Option<RpictFrameView> {
    let w = words(line);
    if is_sample(w) {
        Some(
            RpictFrameView {
                node_id: unsigned_value(w[0]) as u8,
                values: w.subrange(1, WORDS as int),
                timestamp,
            },
        )
    } else {
        None
    }
}

/// The line after the character `c`: a line feed empties it, any other
/// character joins it.
pub open spec fn next_line(line: Seq<char>, c: char) -> Seq<char> {
    if c == '\n' {
        Seq::empty()
    } else {
        line.push(c)
    }
}

/// The frame that the character `c` completes, read at `timestamp`: only a
/// line feed completes one, and only if the line makes a frame.
pub open spec fn emitted(line: Seq<char>, c: char, timestamp: Timestamp) -> Option<
    RpictFrameView,
> {
    if c == '\n' {
        frame_of(line, timestamp)
    } else {
        None
    }
}

/// The line that is open after the characters of `input`, starting with the
/// open line `line`.
pub open spec fn line_after(line: Seq<char>, input: Seq<char>) -> Seq<char>
    decreases input.len(),
{
    if input.len() == 0 {
        line
    } else {
        next_line(line_after(line, input.drop_last()), input.last())
    }
}

/// The frames that the characters of `input` complete, in order, starting
/// with the open line `line`, all read at `timestamp`.
pub open spec fn frames_from(line: Seq<char>, input: Seq<char>, timestamp: Timestamp) -> Seq<
    RpictFrameView,
>
    decreases input.len(),
{
    if input.len() == 0 {
        Seq::empty()
    } else {
        let before = frames_from(line, input.drop_last(), timestamp);
        match emitted(line_after(line, input.drop_last()), input.last(), timestamp) {
            Some(frame) => before.push(frame),
            None => before,
        }
    }
}

/// The frames that a stream of characters holds.
pub open spec fn decoded(input: Seq<char>, timestamp: Timestamp) -> Seq<RpictFrameView> {
    frames_from(Seq::empty(), input, timestamp)
}

impl RpictFrame {
    /// Makes a frame of the words of a line.
    fn of_words(w: &Vec<Vec<char>>, timestamp: Timestamp) -> (r: Result<RpictFrame, ParseError>)
        ensures
            match r {
                Ok(frame) => is_sample(w@.map_values(|x: Vec<char>| x@)) && frame@ == (
                RpictFrameView {
                    node_id: unsigned_value(w@[0]@) as u8,
                    values: w@.map_values(|x: Vec<char>| x@).subrange(1, WORDS as int),
                    timestamp,
                }),
                Err(_) => !is_sample(w@.map_values(|x: Vec<char>| x@)),
            },
    {
        let ghost ws = w@.map_values(|x: Vec<char>| x@);
        if w.len() != WORDS {
            return Err(ParseError);
        }
        assert(ws[0] == w@[0]@);
        let node_id = match parse_unsigned(&w[0], 255) {
            Some(n) => n as u8,
            None => {
                return Err(ParseError);
            },
        };
        let mut i: usize = 1;
        while i < WORDS
            invariant
                1 <= i <= WORDS,
                w.len() == WORDS,
                ws == w@.map_values(|x: Vec<char>| x@),
                forall|j: int| 1 <= j < i ==> is_literal(#[trigger] ws[j]),
            decreases WORDS - i,
        {
            assert(ws[i as int] == w@[i as int]@);
            if !is_literal_text(&w[i]) {
                return Err(ParseError);
            }
            i += 1;
        }
        let frame = RpictFrame {
            node_id,
            l1_real_power: string_of(&w[1]),
            l1_apparent_power: string_of(&w[2]),
            l1_irms: string_of(&w[3]),
            l1_vrms: string_of(&w[4]),
            l1_power_factor: string_of(&w[5]),
            l2_real_power: string_of(&w[6]),
            l2_apparent_power: string_of(&w[7]),
            l2_irms: string_of(&w[8]),
            l2_vrms: string_of(&w[9]),
            l2_power_factor: string_of(&w[10]),
            l3_real_power: string_of(&w[11]),
            l3_apparent_power: string_of(&w[12]),
            l3_irms: string_of(&w[13]),
            l3_vrms: string_of(&w[14]),
            l3_power_factor: string_of(&w[15]),
            timestamp,
        };
        assert(frame@.values =~= ws.subrange(1, WORDS as int));
        Ok(frame)
    }

    /// Reads a frame from a line.
    ///
    /// Fails unless the line holds exactly sixteen words, the first of them
    /// the number of a node and each of the others a measured value.
    pub fn parse(input: &str, timestamp: Timestamp) -> (r: Result<RpictFrame, ParseError>)
        ensures
            match r {
                Ok(frame) => frame_of(input@, timestamp) == Some(frame@),
                Err(_) => frame_of(input@, timestamp) is None,
            },
    {
        let line = chars_of(input);
        RpictFrame::parse_line(&line, timestamp)
    }

    /// Reads a frame from the characters of a line.
    pub fn parse_line(line: &Vec<char>, timestamp: Timestamp) -> (r: Result<
        RpictFrame,
        ParseError,
    >)
        ensures
            match r {
                Ok(frame) => frame_of(line@, timestamp) == Some(frame@),
                Err(_) => frame_of(line@, timestamp) is None,
            },
    {
        let w = split_words(line);
        RpictFrame::of_words(&w, timestamp)
    }
}

/// The decoder: it takes the stream one character at a time.
pub struct RpictDecoder {
    line: Vec<char>,
}

impl View for RpictDecoder {
    type V = Seq<char>;

    /// The characters of the line that is being read.
    closed spec fn view(&self) -> Seq<char> {
        self.line@
    }
}

impl RpictDecoder {
    /// A decoder that has read nothing.
    pub fn new() -> (decoder: RpictDecoder)
        ensures
            decoder@ == Seq::<char>::empty(),
    {
        RpictDecoder { line: Vec::new() }
    }

    /// Takes the next character of the stream, read at `timestamp`, and hands
    /// out the frame that it completes, if it completes one.
    pub fn push(&mut self, c: char, timestamp: Timestamp) -> (frame: Option<RpictFrame>)
        ensures
            final(self)@ == next_line(old(self)@, c),
            match frame {
                Some(f) => emitted(old(self)@, c, timestamp) == Some(f@),
                None => emitted(old(self)@, c, timestamp) is None,
            },
    {
        if c == '\n' {
            let r = RpictFrame::parse_line(&self.line, timestamp);
            self.line.clear();
            match r {
                Ok(frame) => Some(frame),
                Err(_) => None,
            }
        } else {
            self.line.push(c);
            None
        }
    }

    /// Takes the characters of `input`, all read at `timestamp`, and hands out
    /// the frames that they complete, in order.
    pub fn push_all(&mut self, input: &Vec<char>, timestamp: Timestamp) -> (frames: Vec<
        RpictFrame,
    >)
        ensures
            final(self)@ == line_after(old(self)@, input@),
            frame_views(frames@) == frames_from(old(self)@, input@, timestamp),
    {
        let mut frames: Vec<RpictFrame> = Vec::new();
        let mut i: usize = 0;
        assert(frame_views(frames@) == Seq::<RpictFrameView>::empty());
        while i < input.len()
            invariant
                i <= input.len(),
                self@ == line_after(old(self)@, input@.take(i as int)),
                frame_views(frames@) == frames_from(old(self)@, input@.take(i as int), timestamp),
            decreases input.len() - i,
        {
            proof {
                assert(input@.take(i + 1).drop_last() == input@.take(i as int));
                assert(input@.take(i + 1).last() == input@[i as int]);
            }
            let ghost before = frame_views(frames@);
            match self.push(input[i], timestamp) {
                Some(frame) => {
                    let ghost view = frame@;
                    frames.push(frame);
                    assert(frame_views(frames@) == before.push(view));
                },
                None => {},
            }
            i += 1;
        }
        assert(input@.take(input.len() as int) == input@);
        frames
    }
}

/// How to set up the decoding of a power module: where the characters come
/// from, and the instant that the frames are stamped with.
pub struct Rpict {
    /// The path of the serial port that the module is wired to.
    pub port_path: Option<String>,
    /// The characters to decode, where they do not come from a port.
    pub source_iter: Option<Vec<char>>,
    /// The instant that the decoded frames are stamped with.
    pub dt_gen: Timestamp,
}

impl Rpict {
    /// A set-up without a port and without characters, stamping with the
    /// epoch.
    pub fn builder() -> (rpict: Rpict)
        ensures
            rpict.port_path is None,
            rpict.source_iter is None,
            rpict.dt_gen.spec_secs() == 0,
            rpict.dt_gen.spec_nanos() == 0,
    {
        Rpict { port_path: None, source_iter: None, dt_gen: Timestamp::epoch() }
    }

    /// The same set-up, with the serial port at `port_path`.
    pub fn with_port_path(self, port_path: String) -> (rpict: Rpict)
        ensures
            rpict.port_path == Some(port_path),
            rpict.source_iter == self.source_iter,
            rpict.dt_gen == self.dt_gen,
    {
        Rpict { port_path: Some(port_path), source_iter: self.source_iter, dt_gen: self.dt_gen }
    }

    /// The same set-up, with `source_iter` as the characters to decode.
    pub fn with_source_iter(self, source_iter: Vec<char>) -> (rpict: Rpict)
        ensures
            rpict.port_path == self.port_path,
            rpict.source_iter == Some(source_iter),
            rpict.dt_gen == self.dt_gen,
    {
        Rpict { port_path: self.port_path, source_iter: Some(source_iter), dt_gen: self.dt_gen }
    }

    /// The same set-up, stamping the frames with `dt_gen`.
    pub fn with_dt_gen(self, dt_gen: Timestamp) -> (rpict: Rpict)
        ensures
            rpict.port_path == self.port_path,
            rpict.source_iter == self.source_iter,
            rpict.dt_gen == dt_gen,
    {
        Rpict { port_path: self.port_path, source_iter: self.source_iter, dt_gen }
    }

    /// Decodes the characters of the set-up.
    ///
    /// With characters to decode, the result is the frames that they hold,
    /// in order. Without them there is only a port, which is not the
    /// library's to open: the result is the error.
    pub fn build(self) -> (r: Result<Vec<RpictFrame>, CommError>)
        ensures
            match r {
                Ok(frames) => self.source_iter matches Some(chars) && frame_views(frames@)
                    == decoded(chars@, self.dt_gen),
                Err(_) => self.source_iter is None,
            },
    {
        match self.source_iter {
            Some(chars) => {
                let mut decoder = RpictDecoder::new();
                Ok(decoder.push_all(&chars, self.dt_gen))
            },
            None => Err(CommError),
        }
    }
}

/// Text that holds no line feed: what a line is made of.
pub open spec fn is_line(text: Seq<char>) -> bool {
    forall|i: int| 0 <= i < text.len() ==> (#[trigger] text[i]) != '\n'
}

/// A line on the wire: its text, closed by a line feed.
pub open spec fn line_text(text: Seq<char>) -> Seq<char> {
    text + seq!['\n']
}

/// The frames of a sequence that holds at most one.
pub open spec fn one_or_none(frame: Option<RpictFrameView>) -> Seq<RpictFrameView> {
    match frame {
        Some(f) => seq![f],
        None => Seq::empty(),
    }
}

/// Decoding goes on where it stopped: the characters of `a` followed by
/// those of `b` leave the line, and give the frames, that `b` leaves and
/// gives after `a`.
pub proof fn lemma_decoding_goes_on(
    line: Seq<char>,
    a: Seq<char>,
    b: Seq<char>,
    timestamp: Timestamp,
)
    ensures
        line_after(line, a + b) == line_after(line_after(line, a), b),
        frames_from(line, a + b, timestamp) == frames_from(line, a, timestamp) + frames_from(
            line_after(line, a),
            b,
            timestamp,
        ),
    decreases b.len(),
{
    if b.len() == 0 {
        assert(a + b == a);
        assert(frames_from(line, a, timestamp) + Seq::<RpictFrameView>::empty() == frames_from(
            line,
            a,
            timestamp,
        ));
    } else {
        lemma_decoding_goes_on(line, a, b.drop_last(), timestamp);
        assert((a + b).drop_last() == a + b.drop_last());
        assert((a + b).last() == b.last());
        let mid = line_after(line, a);
        let head = frames_from(line, a, timestamp);
        let rest = frames_from(mid, b.drop_last(), timestamp);
        match emitted(line_after(mid, b.drop_last()), b.last(), timestamp) {
            Some(frame) => {
                assert((head + rest).push(frame) == head + rest.push(frame));
            },
            None => {},
        }
    }
}

/// Text without a line feed joins the open line and completes no frame.
pub proof fn lemma_open_line(line: Seq<char>, text: Seq<char>, timestamp: Timestamp)
    requires
        is_line(text),
    ensures
        line_after(line, text) == line + text,
        frames_from(line, text, timestamp) == Seq::<RpictFrameView>::empty(),
    decreases text.len(),
{
    if text.len() == 0 {
        assert(line + text == line);
    } else {
        lemma_open_line(line, text.drop_last(), timestamp);
        assert(text.last() == text[text.len() - 1]);
        assert((line + text.drop_last()).push(text.last()) == line + text);
    }
}

/// A line on the wire gives the frame that it makes, together with what was
/// open before it, if that makes one, and nothing else; after it no line is
/// open.
pub proof fn lemma_closed_line(line: Seq<char>, text: Seq<char>, timestamp: Timestamp)
    requires
        is_line(text),
    ensures
        line_after(line, line_text(text)) == Seq::<char>::empty(),
        frames_from(line, line_text(text), timestamp) == one_or_none(
            frame_of(line + text, timestamp),
        ),
{
    lemma_open_line(line, text, timestamp);
    let full = line_text(text);
    assert(full.drop_last() == text);
    assert(full.last() == '\n');
    match frame_of(line + text, timestamp) {
        Some(frame) => {
            assert(Seq::<RpictFrameView>::empty().push(frame) == seq![frame]);
        },
        None => {},
    }
}

/// A line that does not hold sixteen words gives no frame.
pub proof fn lemma_wrong_count(text: Seq<char>, timestamp: Timestamp)
    requires
        is_line(text),
        words(text).len() != WORDS,
    ensures
        decoded(line_text(text), timestamp) == Seq::<RpictFrameView>::empty(),
{
    lemma_closed_line(Seq::empty(), text, timestamp);
    assert(Seq::<char>::empty() + text == text);
}

/// A line of sixteen words, the first the number of a node and the others
/// measured values, gives exactly one frame: the node is the first word read
/// as a number, and the values are the other words, in their order.
pub proof fn lemma_sample(text: Seq<char>, timestamp: Timestamp)
    requires
        is_line(text),
        is_sample(words(text)),
    ensures
        decoded(line_text(text), timestamp) == seq![
            RpictFrameView {
                node_id: unsigned_value(words(text)[0]) as u8,
                values: words(text).subrange(1, WORDS as int),
                timestamp,
            },
        ],
{
    lemma_closed_line(Seq::empty(), text, timestamp);
    assert(Seq::<char>::empty() + text == text);
}

/// Sixteen words in a row, the first the number of a node and the others
/// measured values, closed by a line feed, give exactly one frame, which
/// holds the node and the values in their order.
pub proof fn lemma_spaced_sample(ws: Seq<Seq<char>>, timestamp: Timestamp)
    requires
        forall|i: int| 0 <= i < ws.len() ==> is_word(#[trigger] ws[i]),
        is_sample(ws),
    ensures
        is_line(spaced(ws)),
        decoded(line_text(spaced(ws)), timestamp) == seq![
            RpictFrameView {
                node_id: unsigned_value(ws[0]) as u8,
                values: ws.subrange(1, WORDS as int),
                timestamp,
            },
        ],
{
    lemma_words_of_spaced(ws);
    lemma_spaced_is_line(ws);
    lemma_sample(spaced(ws), timestamp);
}

/// Words in a row hold no line feed.
pub proof fn lemma_spaced_is_line(ws: Seq<Seq<char>>)
    requires
        forall|i: int| 0 <= i < ws.len() ==> is_word(#[trigger] ws[i]),
    ensures
        is_line(spaced(ws)),
    decreases ws.len(),
{
    if ws.len() == 1 {
        assert(is_word(ws[0]));
    } else if ws.len() > 1 {
        let before = ws.drop_last();
        assert forall|i: int| 0 <= i < before.len() implies is_word(#[trigger] before[i]) by {
            assert(before[i] == ws[i]);
        }
        lemma_spaced_is_line(before);
        assert(is_word(ws[ws.len() - 1]));
        let row = spaced(ws);
        let head = spaced(before) + seq![' '];
        assert forall|i: int| 0 <= i < row.len() implies (#[trigger] row[i]) != '\n' by {
            if i < spaced(before).len() {
                assert(row[i] == spaced(before)[i]);
            } else if i == spaced(before).len() {
                assert(row[i] == ' ');
            } else {
                assert(row[i] == ws.last()[i - head.len()]);
            }
        }
    }
}

/// A line with a word that holds no digit gives no frame: a measured value
/// is a decimal number, and neither infinite nor undefined.
pub proof fn lemma_word_without_digit(text: Seq<char>, timestamp: Timestamp, at: int)
    requires
        is_line(text),
        0 <= at < words(text).len(),
        forall|i: int| 0 <= i < words(text)[at].len() ==> !is_digit(#[trigger] words(text)[at][i]),
    ensures
        decoded(line_text(text), timestamp) == Seq::<RpictFrameView>::empty(),
{
    let w = words(text)[at];
    if is_literal(w) {
        lemma_literal_has_a_digit(w);
    }
    if at == 0 && is_node_id(w) {
        let d = unsigned_digits(w);
        assert(is_digit(d[0]));
        if d.len() == w.len() {
            assert(is_digit(w[0]));
        } else {
            assert(d[0] == w[1]);
            assert(is_digit(w[1]));
        }
    }
    lemma_not_a_number(text, timestamp, at);
}

/// A line with a word that is no number gives no frame.
pub proof fn lemma_not_a_number(text: Seq<char>, timestamp: Timestamp, at: int)
    requires
        is_line(text),
        0 <= at < words(text).len(),
        at == 0 ==> !is_node_id(words(text)[at]),
        at > 0 ==> !is_literal(words(text)[at]),
    ensures
        decoded(line_text(text), timestamp) == Seq::<RpictFrameView>::empty(),
{
    lemma_closed_line(Seq::empty(), text, timestamp);
    assert(Seq::<char>::empty() + text == text);
}

/// Two lines on the wire, one right behind the other, give what the first
/// gives and then what the second gives.
pub proof fn lemma_two_lines(first: Seq<char>, second: Seq<char>, timestamp: Timestamp)
    requires
        is_line(first),
        is_line(second),
    ensures
        decoded(line_text(first) + line_text(second), timestamp) == one_or_none(
            frame_of(first, timestamp),
        ) + one_or_none(frame_of(second, timestamp)),
{
    let none = Seq::<char>::empty();
    lemma_closed_line(none, first, timestamp);
    lemma_closed_line(none, second, timestamp);
    lemma_decoding_goes_on(none, line_text(first), line_text(second), timestamp);
    assert(none + first == first);
    assert(none + second == second);
}

} // verus!
