//! The decoder of the utility meter's serial protocol.
//!
//! The meter sends frames. A frame opens with STX and closes with ETX; between
//! them stand groups, each opened by a line feed and closed by a carriage
//! return, of the form `label value checksum`. The decoder keeps the value of
//! the four labels it needs and, when the frame closes, hands out a
//! [`LinkyFrame`] if all four were seen and the two indices are numbers.
//!
//! The decoder never fails: what it cannot read it drops, and it goes on with
//! the next character. A frame whose opening was missed is dropped as a
//! whole: the decoder hands out at most one frame for each pair of STX and
//! ETX, and none without.
use vstd::prelude::*;
use vstd::hash_map::StringHashMap;
use vstd::string::*;

use crate::clock::Timestamp;
use crate::driver::error::CommError;
use crate::driver::error::ParseError;
use crate::text::chars_of;
use crate::text::decimal::is_unsigned;
use crate::text::decimal::parse_unsigned;
use crate::text::decimal::unsigned_value;
use crate::text::spells;
use crate::text::string_of;
use crate::text::words::split_words;
use crate::text::words::words;

verus! {

/// Opens a frame.
pub const STX: char = '\u{02}';

/// Closes a frame.
pub const ETX: char = '\u{03}';

/// Opens a group.
pub const LF: char = '\u{0A}';

/// Closes a group.
pub const CR: char = '\u{0D}';

/// The pricing window that the meter is in.
#[derive(Clone, Copy, Debug, PartialEq, Eq)]
pub enum TariffPeriod {
    /// Off-peak hours.
    HC,
    /// Peak hours.
    HP,
    /// Any code but the two above.
    Unknown,
}

/// One reading of the meter.
#[derive(Clone, Debug, PartialEq)]
pub struct LinkyFrame {
    /// The address of the meter.
    pub adco: String,
    /// The code of the current tariff period, two characters.
    pub ptec: String,
    /// The off-peak index, in watt-hours.
    pub hchc: u32,
    /// The peak index, in watt-hours.
    pub hchp: u32,
    /// When the frame was read.
    pub timestamp: Timestamp,
}

/// What a [`LinkyFrame`] holds, as mathematical values.
pub struct LinkyFrameView {
    pub adco: Seq<char>,
    pub ptec: Seq<char>,
    pub hchc: u32,
    pub hchp: u32,
    pub timestamp: Timestamp,
}

impl View for LinkyFrame {
    type V = LinkyFrameView;

    open spec fn view(&self) -> LinkyFrameView {
        LinkyFrameView {
            adco: self.adco@,
            ptec: self.ptec@,
            hchc: self.hchc,
            hchp: self.hchp,
            timestamp: self.timestamp,
        }
    }
}

/// The views of a vector of frames, in order.
pub open spec fn frame_views(frames: Seq<LinkyFrame>) -> Seq<LinkyFrameView> {
    frames.map_values(|f: LinkyFrame| f@)
}

/// The tariff period that a code stands for.
pub open spec fn tariff_period(code: Seq<char>) -> TariffPeriod {
    if code == "HC"@ {
        TariffPeriod::HC
    } else if code == "HP"@ {
        TariffPeriod::HP
    } else {
        TariffPeriod::Unknown
    }
}

/// The values seen in a frame so far, by label.
pub struct FieldMap {
    entries: StringHashMap<String>,
}

impl View for FieldMap {
    type V = Map<Seq<char>, Seq<char>>;

    closed spec fn view(&self) -> Map<Seq<char>, Seq<char>> {
        self.entries@.map_values(|v: String| v@)
    }
}

impl FieldMap {
    /// A map without entries.
    pub fn new() -> (m: FieldMap)
        ensures
            m@ == Map::<Seq<char>, Seq<char>>::empty(),
    {
        let m = FieldMap { entries: StringHashMap::new() };
        assert(m@ =~= Map::<Seq<char>, Seq<char>>::empty());
        m
    }

    /// Stores `value` under `key`, in place of what was there.
    pub fn insert(&mut self, key: String, value: String)
        ensures
            final(self)@ == old(self)@.insert(key@, value@),
    {
        self.entries.insert(key, value);
        assert(self@ =~= old(self)@.insert(key@, value@));
    }

    /// The value under `key`, if there is one.
    pub fn get(&self, key: &str) -> (r: Option<&String>)
        ensures
            match r {
                Some(v) => self@.contains_key(key@) && v@ == self@[key@],
                None => !self@.contains_key(key@),
            },
    {
        self.entries.get(key)
    }

    /// Whether there is a value under `key`.
    pub fn contains_key(&self, key: &str) -> (r: bool)
        ensures
            r == self@.contains_key(key@),
    {
        self.entries.contains_key(key)
    }

    /// Removes every entry.
    pub fn clear(&mut self)
        ensures
            final(self)@ == Map::<Seq<char>, Seq<char>>::empty(),
    {
        self.entries.clear();
        assert(self@ =~= Map::<Seq<char>, Seq<char>>::empty());
    }
}

/// Whether `label` is one of the four labels that a frame must hold.
pub open spec fn is_key(label: Seq<char>) -> bool {
    label == "ADCO"@ || label == "PTEC"@ || label == "HCHC"@ || label == "HCHP"@
}

/// Whether `fields` holds all four labels.
pub open spec fn is_complete(fields: Map<Seq<char>, Seq<char>>) -> bool {
    &&& fields.contains_key("ADCO"@)
    &&& fields.contains_key("PTEC"@)
    &&& fields.contains_key("HCHC"@)
    &&& fields.contains_key("HCHP"@)
}

/// Whether `text` is an index: an unsigned decimal number of 32 bits.
pub open spec fn is_index(text: Seq<char>) -> bool {
    is_unsigned(text) && unsigned_value(text) <= u32::MAX
}

/// The frame that `fields` make, read at `timestamp`: there is one where all
/// four labels are present and both indices are numbers.
pub open spec fn frame_of(fields: Map<Seq<char>, Seq<char>>, timestamp: Timestamp) -> Option<
    LinkyFrameView,
> {
    if is_complete(fields) && is_index(fields["HCHC"@]) && is_index(fields["HCHP"@]) {
        Some(
            LinkyFrameView {
                adco: fields["ADCO"@],
                ptec: fields["PTEC"@],
                hchc: unsigned_value(fields["HCHC"@]) as u32,
                hchp: unsigned_value(fields["HCHP"@]) as u32,
                timestamp,
            },
        )
    } else {
        None
    }
}

/// What is kept of the value `value` of the label `label`: of the tariff
/// period its first two characters, which leaves out the checksum that
/// follows its dots; of any other label all of it.
pub open spec fn kept_value(label: Seq<char>, value: Seq<char>) -> Seq<char> {
    if label == "PTEC"@ && value.len() > 2 {
        value.take(2)
    } else {
        value
    }
}

/// `fields` after the group `line` has closed: where the group has two words
/// or more and the first is one of the four labels, the second is kept under
/// it.
pub open spec fn with_group(fields: Map<Seq<char>, Seq<char>>, line: Seq<char>) -> Map<
    Seq<char>,
    Seq<char>,
> {
    let w = words(line);
    if w.len() >= 2 && is_key(w[0]) {
        fields.insert(w[0], kept_value(w[0], w[1]))
    } else {
        fields
    }
}

/// The state of the decoder between two characters.
pub struct DecoderState {
    /// Whether a frame is open: STX was read, and no ETX since.
    pub open: bool,
    /// The characters of the group that is being read.
    pub line: Seq<char>,
    /// The values kept since the frame opened.
    pub fields: Map<Seq<char>, Seq<char>>,
}

/// The state before the first character.
pub open spec fn initial_state() -> DecoderState {
    DecoderState { open: false, line: Seq::empty(), fields: Map::empty() }
}

/// The state after the character `c`.
///
/// STX opens a frame and empties the fields, ETX closes the frame, a line
/// feed empties the line, a carriage return closes the group that the line
/// holds, and any other character joins the line.
pub open spec fn next_state(st: DecoderState, c: char) -> DecoderState {
    if c == STX {
        DecoderState { open: true, line: st.line, fields: Map::empty() }
    } else if c == ETX {
        DecoderState { open: false, line: st.line, fields: st.fields }
    } else if c == LF {
        DecoderState { open: st.open, line: Seq::empty(), fields: st.fields }
    } else if c == CR {
        DecoderState { open: st.open, line: st.line, fields: with_group(st.fields, st.line) }
    } else {
        DecoderState { open: st.open, line: st.line.push(c), fields: st.fields }
    }
}

/// The frame that the character `c` completes, read at `timestamp`: only ETX
/// completes one, only where a frame is open, and only if the fields make a
/// frame.
pub open spec fn emitted(st: DecoderState, c: char, timestamp: Timestamp) -> Option<
    LinkyFrameView,
> {
    if c == ETX && st.open {
        frame_of(st.fields, timestamp)
    } else {
        None
    }
}

/// The state after the characters of `input`, starting from `st`.
pub open spec fn state_after(st: DecoderState, input: Seq<char>) -> DecoderState
    decreases input.len(),
{
    if input.len() == 0 {
        st
    } else {
        next_state(state_after(st, input.drop_last()), input.last())
    }
}

/// The frames that the characters of `input` complete, in order, starting
/// from `st`, all read at `timestamp`.
pub open spec fn frames_from(st: DecoderState, input: Seq<char>, timestamp: Timestamp) -> Seq<
    LinkyFrameView,
>
    decreases input.len(),
{
    if input.len() == 0 {
        Seq::empty()
    } else {
        let before = frames_from(st, input.drop_last(), timestamp);
        match emitted(state_after(st, input.drop_last()), input.last(), timestamp) {
            Some(frame) => before.push(frame),
            None => before,
        }
    }
}

/// The frames that a stream of characters holds.
pub open spec fn decoded(input: Seq<char>, timestamp: Timestamp) -> Seq<LinkyFrameView> {
    frames_from(initial_state(), input, timestamp)
}

impl LinkyFrame {
    /// Makes a frame of the values kept under the four labels.
    ///
    /// Fails where a label is missing or an index is not an unsigned decimal
    /// number of 32 bits. Labels besides the four are ignored.
    pub fn parse(map: &FieldMap, timestamp: Timestamp) -> (r: Result<LinkyFrame, ParseError>)
        ensures
            match r {
                Ok(frame) => frame_of(map@, timestamp) == Some(frame@),
                Err(_) => frame_of(map@, timestamp) is None,
            },
    {
        let adco = match map.get("ADCO") {
            Some(v) => v.clone(),
            None => {
                return Err(ParseError);
            },
        };
        let ptec = match map.get("PTEC") {
            Some(v) => v.clone(),
            None => {
                return Err(ParseError);
            },
        };
        let hchc = match map.get("HCHC") {
            Some(v) => match parse_unsigned(&chars_of(v.as_str()), 0xffff_ffff) {
                Some(n) => n as u32,
                None => {
                    return Err(ParseError);
                },
            },
            None => {
                return Err(ParseError);
            },
        };
        let hchp = match map.get("HCHP") {
            Some(v) => match parse_unsigned(&chars_of(v.as_str()), 0xffff_ffff) {
                Some(n) => n as u32,
                None => {
                    return Err(ParseError);
                },
            },
            None => {
                return Err(ParseError);
            },
        };
        Ok(LinkyFrame { adco, ptec, hchc, hchp, timestamp })
    }

    /// The tariff period that the frame's code stands for.
    pub fn ptec(&self) -> (period: TariffPeriod)
        ensures
            period == tariff_period(self.ptec@),
    {
        let code = chars_of(self.ptec.as_str());
        if spells(&code, "HC") {
            TariffPeriod::HC
        } else if spells(&code, "HP") {
            TariffPeriod::HP
        } else {
            TariffPeriod::Unknown
        }
    }
}

/// The decoder: it takes the stream one character at a time.
pub struct LinkyDecoder {
    open: bool,
    line: Vec<char>,
    fields: FieldMap,
}

impl View for LinkyDecoder {
    type V = DecoderState;

    closed spec fn view(&self) -> DecoderState {
        DecoderState { open: self.open, line: self.line@, fields: self.fields@ }
    }
}

impl LinkyDecoder {
    /// A decoder that has read nothing.
    pub fn new() -> (decoder: LinkyDecoder)
        ensures
            decoder@ == initial_state(),
    {
        LinkyDecoder { open: false, line: Vec::new(), fields: FieldMap::new() }
    }

    /// Closes the group that the line holds.
    fn close_group(&mut self)
        ensures
            final(self)@ == (DecoderState {
                open: old(self)@.open,
                line: old(self)@.line,
                fields: with_group(old(self)@.fields, old(self)@.line),
            }),
    {
        let w = split_words(&self.line);
        assert(w@.map_values(|x: Vec<char>| x@) == words(self.line@));
        if w.len() < 2 {
            return ;
        }
        assert(w@.map_values(|x: Vec<char>| x@)[0] == w@[0]@);
        assert(w@.map_values(|x: Vec<char>| x@)[1] == w@[1]@);
        let label = &w[0];
        let value = &w[1];
        let is_ptec = spells(label, "PTEC");
        if !(is_ptec || spells(label, "ADCO") || spells(label, "HCHC") || spells(label, "HCHP")) {
            return ;
        }
        let kept = if is_ptec && value.len() > 2 {
            let mut short: Vec<char> = Vec::new();
            short.push(value[0]);
            short.push(value[1]);
            assert(short@ == value@.take(2));
            string_of(&short)
        } else {
            string_of(value)
        };
        self.fields.insert(string_of(label), kept);
    }

    /// Takes the next character of the stream, read at `timestamp`, and hands
    /// out the frame that it completes, if it completes one.
    pub fn push(&mut self, c: char, timestamp: Timestamp) -> (frame: Option<LinkyFrame>)
        ensures
            final(self)@ == next_state(old(self)@, c),
            match frame {
                Some(f) => emitted(old(self)@, c, timestamp) == Some(f@),
                None => emitted(old(self)@, c, timestamp) is None,
            },
    {
        if c == STX {
            self.open = true;
            self.fields.clear();
            None
        } else if c == ETX {
            if !self.open {
                return None;
            }
            self.open = false;
            match LinkyFrame::parse(&self.fields, timestamp) {
                Ok(frame) => Some(frame),
                Err(_) => None,
            }
        } else if c == LF {
            self.line.clear();
            None
        } else if c == CR {
            self.close_group();
            None
        } else {
            self.line.push(c);
            None
        }
    }

    /// Takes the characters of `input`, all read at `timestamp`, and hands out
    /// the frames that they complete, in order.
    pub fn push_all(&mut self, input: &Vec<char>, timestamp: Timestamp) -> (frames: Vec<
        LinkyFrame,
    >)
        ensures
            final(self)@ == state_after(old(self)@, input@),
            frame_views(frames@) == frames_from(old(self)@, input@, timestamp),
    {
        let mut frames: Vec<LinkyFrame> = Vec::new();
        let mut i: usize = 0;
        assert(frame_views(frames@) == Seq::<LinkyFrameView>::empty());
        while i < input.len()
            invariant
                i <= input.len(),
                self@ == state_after(old(self)@, input@.take(i as int)),
                frame_views(frames@) == frames_from(old(self)@, input@.take(i as int), timestamp),
            decreases input.len() - i,
        {
            proof {
                assert(input@.take(i + 1).drop_last() == input@.take(i as int));
                assert(input@.take(i + 1).last() == input@[i as int]);
            }
            let ghost before = frame_views(frames@);
            match self.push(input[i], timestamp) {
                Some(frame) => {
                    let ghost view = frame@;
                    frames.push(frame);
                    assert(frame_views(frames@) == before.push(view));
                },
                None => {},
            }
            i += 1;
        }
        assert(input@.take(input.len() as int) == input@);
        frames
    }
}

/// How to set up the decoding of a meter: where the characters come from, and
/// the instant that the frames are stamped with.
pub struct Linky {
    /// The path of the serial port that the meter is wired to.
    pub port_path: Option<String>,
    /// The characters to decode, where they do not come from a port.
    pub source_iter: Option<Vec<char>>,
    /// The instant that the decoded frames are stamped with.
    pub dt_gen: Timestamp,
}

impl Linky {
    /// A set-up without a port and without characters, stamping with the
    /// epoch.
    pub fn builder() -> (linky: Linky)
        ensures
            linky.port_path is None,
            linky.source_iter is None,
            linky.dt_gen.spec_secs() == 0,
            linky.dt_gen.spec_nanos() == 0,
    {
        Linky { port_path: None, source_iter: None, dt_gen: Timestamp::epoch() }
    }

    /// The same set-up, with the serial port at `port_path`.
    pub fn with_port_path(self, port_path: String) -> (linky: Linky)
        ensures
            linky.port_path == Some(port_path),
            linky.source_iter == self.source_iter,
            linky.dt_gen == self.dt_gen,
    {
        Linky { port_path: Some(port_path), source_iter: self.source_iter, dt_gen: self.dt_gen }
    }

    /// The same set-up, with `source_iter` as the characters to decode.
    pub fn with_source_iter(self, source_iter: Vec<char>) -> (linky: Linky)
        ensures
            linky.port_path == self.port_path,
            linky.source_iter == Some(source_iter),
            linky.dt_gen == self.dt_gen,
    {
        Linky { port_path: self.port_path, source_iter: Some(source_iter), dt_gen: self.dt_gen }
    }

    /// The same set-up, stamping the frames with `dt_gen`.
    pub fn with_dt_gen(self, dt_gen: Timestamp) -> (linky: Linky)
        ensures
            linky.port_path == self.port_path,
            linky.source_iter == self.source_iter,
            linky.dt_gen == dt_gen,
    {
        Linky { port_path: self.port_path, source_iter: self.source_iter, dt_gen }
    }

    /// Decodes the characters of the set-up.
    ///
    /// With characters to decode, the result is the frames that they hold,
    /// in order. Without them there is only a port, which is not the
    /// library's to open: the result is the error.
    pub fn build(self) -> (r: Result<Vec<LinkyFrame>, CommError>)
        ensures
            match r {
                Ok(frames) => self.source_iter matches Some(chars) && frame_views(frames@)
                    == decoded(chars@, self.dt_gen),
                Err(_) => self.source_iter is None,
            },
    {
        match self.source_iter {
            Some(chars) => {
                let mut decoder = LinkyDecoder::new();
                Ok(decoder.push_all(&chars, self.dt_gen))
            },
            None => Err(CommError),
        }
    }
}

/// One of the four characters that part frames and groups.
pub open spec fn is_mark(c: char) -> bool {
    c == STX || c == ETX || c == LF || c == CR
}

/// Text that holds none of the four marks: what a group is made of.
pub open spec fn is_plain(text: Seq<char>) -> bool {
    forall|i: int| 0 <= i < text.len() ==> !is_mark(#[trigger] text[i])
}

/// Text that opens no frame and closes neither frame nor group: what may
/// stand between the groups of a frame without changing what the frame
/// holds.
pub open spec fn is_idle(text: Seq<char>) -> bool {
    forall|i: int|
        0 <= i < text.len() ==> (#[trigger] text[i]) != STX && text[i] != ETX && text[i] != CR
}

/// A group on the wire: a line feed, the line of the group, a carriage
/// return.
pub open spec fn group_text(line: Seq<char>) -> Seq<char> {
    seq![LF] + line + seq![CR]
}

/// The groups of `lines` on the wire, one after the other.
pub open spec fn groups_text(lines: Seq<Seq<char>>) -> Seq<char>
    decreases lines.len(),
{
    if lines.len() == 0 {
        Seq::empty()
    } else {
        groups_text(lines.drop_last()) + group_text(lines.last())
    }
}

/// A frame on the wire: STX, the groups, whatever idles behind the last of
/// them, ETX.
pub open spec fn frame_text(lines: Seq<Seq<char>>, tail: Seq<char>) -> Seq<char> {
    seq![STX] + groups_text(lines) + tail + seq![ETX]
}

/// `fields` after the groups of `lines` have closed, in order.
pub open spec fn with_groups(fields: Map<Seq<char>, Seq<char>>, lines: Seq<Seq<char>>) -> Map<
    Seq<char>,
    Seq<char>,
>
    decreases lines.len(),
{
    if lines.len() == 0 {
        fields
    } else {
        with_group(with_groups(fields, lines.drop_last()), lines.last())
    }
}

/// What a frame holds: the fields that its groups leave in an empty map.
pub open spec fn fields_of(lines: Seq<Seq<char>>) -> Map<Seq<char>, Seq<char>> {
    with_groups(Map::empty(), lines)
}

/// Whether the group `line` bears the label `label`: it has two words or
/// more, and the first is the label.
pub open spec fn is_labelled(line: Seq<char>, label: Seq<char>) -> bool {
    words(line).len() >= 2 && words(line)[0] == label
}

/// The frames of a sequence that holds at most one.
pub open spec fn one_or_none(frame: Option<LinkyFrameView>) -> Seq<LinkyFrameView> {
    match frame {
        Some(f) => seq![f],
        None => Seq::empty(),
    }
}

/// Decoding goes on where it stopped: the characters of `a` followed by
/// those of `b` leave the state, and give the frames, that `b` leaves and
/// gives after `a`.
pub proof fn lemma_decoding_goes_on(
    st: DecoderState,
    a: Seq<char>,
    b: Seq<char>,
    timestamp: Timestamp,
)
    ensures
        state_after(st, a + b) == state_after(state_after(st, a), b),
        frames_from(st, a + b, timestamp) == frames_from(st, a, timestamp) + frames_from(
            state_after(st, a),
            b,
            timestamp,
        ),
    decreases b.len(),
{
    if b.len() == 0 {
        assert(a + b == a);
        assert(frames_from(st, a, timestamp) + Seq::<LinkyFrameView>::empty() == frames_from(
            st,
            a,
            timestamp,
        ));
    } else {
        lemma_decoding_goes_on(st, a, b.drop_last(), timestamp);
        assert((a + b).drop_last() == a + b.drop_last());
        assert((a + b).last() == b.last());
        let mid = state_after(st, a);
        let head = frames_from(st, a, timestamp);
        let rest = frames_from(mid, b.drop_last(), timestamp);
        match emitted(state_after(mid, b.drop_last()), b.last(), timestamp) {
            Some(frame) => {
                assert((head + rest).push(frame) == head + rest.push(frame));
            },
            None => {},
        }
    }
}

/// One character leaves the state and gives the frame that the decoder's
/// step says.
pub proof fn lemma_one_character(st: DecoderState, c: char, timestamp: Timestamp)
    ensures
        state_after(st, seq![c]) == next_state(st, c),
        frames_from(st, seq![c], timestamp) == one_or_none(emitted(st, c, timestamp)),
{
    let s = seq![c];
    assert(s.drop_last() == Seq::<char>::empty());
    assert(s.last() == c);
    assert(state_after(st, s.drop_last()) == st);
    assert(frames_from(st, s.drop_last(), timestamp) == Seq::<LinkyFrameView>::empty());
    match emitted(st, c, timestamp) {
        Some(frame) => {
            assert(Seq::<LinkyFrameView>::empty().push(frame) == seq![frame]);
        },
        None => {},
    }
}

/// Idle text opens and closes no frame, changes no field and completes no
/// frame.
pub proof fn lemma_idle(st: DecoderState, text: Seq<char>, timestamp: Timestamp)
    requires
        is_idle(text),
    ensures
        state_after(st, text).open == st.open,
        state_after(st, text).fields == st.fields,
        frames_from(st, text, timestamp) == Seq::<LinkyFrameView>::empty(),
    decreases text.len(),
{
    if text.len() > 0 {
        lemma_idle(st, text.drop_last(), timestamp);
        assert(text.last() == text[text.len() - 1]);
    }
}

/// Plain text joins the line.
pub proof fn lemma_plain(st: DecoderState, text: Seq<char>)
    requires
        is_plain(text),
    ensures
        state_after(st, text) == (DecoderState {
            open: st.open,
            line: st.line + text,
            fields: st.fields,
        }),
    decreases text.len(),
{
    if text.len() == 0 {
        assert(st.line + text == st.line);
    } else {
        lemma_plain(st, text.drop_last());
        assert(text.last() == text[text.len() - 1]);
        assert((st.line + text.drop_last()).push(text.last()) == st.line + text);
    }
}

/// A group on the wire closes as the group of its line, whatever line was
/// open before it, and completes no frame.
pub proof fn lemma_group(st: DecoderState, line: Seq<char>, timestamp: Timestamp)
    requires
        is_plain(line),
    ensures
        state_after(st, group_text(line)) == (DecoderState {
            open: st.open,
            line,
            fields: with_group(st.fields, line),
        }),
        frames_from(st, group_text(line), timestamp) == Seq::<LinkyFrameView>::empty(),
{
    let opened = next_state(st, LF);
    lemma_one_character(st, LF, timestamp);
    lemma_decoding_goes_on(st, seq![LF], line, timestamp);
    lemma_plain(opened, line);
    assert(Seq::<char>::empty() + line == line);
    assert(is_idle(line));
    lemma_idle(opened, line, timestamp);
    let read = state_after(opened, line);
    lemma_one_character(read, CR, timestamp);
    lemma_decoding_goes_on(st, seq![LF] + line, seq![CR], timestamp);
}

/// The groups of a frame close one after the other, and complete no frame.
pub proof fn lemma_groups(st: DecoderState, lines: Seq<Seq<char>>, timestamp: Timestamp)
    requires
        forall|i: int| 0 <= i < lines.len() ==> is_plain(#[trigger] lines[i]),
    ensures
        state_after(st, groups_text(lines)).open == st.open,
        state_after(st, groups_text(lines)).fields == with_groups(st.fields, lines),
        frames_from(st, groups_text(lines), timestamp) == Seq::<LinkyFrameView>::empty(),
    decreases lines.len(),
{
    if lines.len() > 0 {
        let before = lines.drop_last();
        assert forall|i: int| 0 <= i < before.len() implies is_plain(#[trigger] before[i]) by {
            assert(before[i] == lines[i]);
        }
        lemma_groups(st, before, timestamp);
        let mid = state_after(st, groups_text(before));
        assert(is_plain(lines.last()));
        lemma_group(mid, lines.last(), timestamp);
        lemma_decoding_goes_on(st, groups_text(before), group_text(lines.last()), timestamp);
    }
}

/// A frame on the wire gives the frame that its groups make, if they make
/// one, and nothing else, whatever was read before it.
///
/// So a frame whose groups hold the four labels, with indices that are
/// numbers, gives exactly one frame; a frame that lacks a label, or whose
/// index is no number, gives none; and what came before the frame, such as
/// the end of a frame whose beginning was missed, does not count.
pub proof fn lemma_frame(
    st: DecoderState,
    lines: Seq<Seq<char>>,
    tail: Seq<char>,
    timestamp: Timestamp,
)
    requires
        forall|i: int| 0 <= i < lines.len() ==> is_plain(#[trigger] lines[i]),
        is_idle(tail),
    ensures
        !state_after(st, frame_text(lines, tail)).open,
        state_after(st, frame_text(lines, tail)).fields == fields_of(lines),
        frames_from(st, frame_text(lines, tail), timestamp) == one_or_none(
            frame_of(fields_of(lines), timestamp),
        ),
{
    let none = Seq::<LinkyFrameView>::empty();
    let s1 = next_state(st, STX);
    lemma_one_character(st, STX, timestamp);
    lemma_groups(s1, lines, timestamp);
    let s2 = state_after(s1, groups_text(lines));
    lemma_decoding_goes_on(st, seq![STX], groups_text(lines), timestamp);
    lemma_idle(s2, tail, timestamp);
    let s3 = state_after(s2, tail);
    lemma_decoding_goes_on(st, seq![STX] + groups_text(lines), tail, timestamp);
    lemma_one_character(s3, ETX, timestamp);
    lemma_decoding_goes_on(st, seq![STX] + groups_text(lines) + tail, seq![ETX], timestamp);
    assert(none + none == none);
    assert(none + one_or_none(frame_of(fields_of(lines), timestamp)) == one_or_none(
        frame_of(fields_of(lines), timestamp),
    ));
}

/// Two frames on the wire, one right behind the other, give what the first
/// gives and then what the second gives.
pub proof fn lemma_two_frames(
    st: DecoderState,
    first: Seq<Seq<char>>,
    first_tail: Seq<char>,
    second: Seq<Seq<char>>,
    second_tail: Seq<char>,
    timestamp: Timestamp,
)
    requires
        forall|i: int| 0 <= i < first.len() ==> is_plain(#[trigger] first[i]),
        forall|i: int| 0 <= i < second.len() ==> is_plain(#[trigger] second[i]),
        is_idle(first_tail),
        is_idle(second_tail),
    ensures
        frames_from(
            st,
            frame_text(first, first_tail) + frame_text(second, second_tail),
            timestamp,
        ) == one_or_none(frame_of(fields_of(first), timestamp)) + one_or_none(
            frame_of(fields_of(second), timestamp),
        ),
        frame_of(fields_of(first), timestamp) is Some && frame_of(fields_of(second), timestamp)
            is Some ==> frames_from(
            st,
            frame_text(first, first_tail) + frame_text(second, second_tail),
            timestamp,
        ) == seq![
            frame_of(fields_of(first), timestamp)->0,
            frame_of(fields_of(second), timestamp)->0,
        ],
{
    lemma_frame(st, first, first_tail, timestamp);
    let mid = state_after(st, frame_text(first, first_tail));
    lemma_frame(mid, second, second_tail, timestamp);
    lemma_decoding_goes_on(
        st,
        frame_text(first, first_tail),
        frame_text(second, second_tail),
        timestamp,
    );
    if frame_of(fields_of(first), timestamp) is Some && frame_of(fields_of(second), timestamp)
        is Some {
        let a = frame_of(fields_of(first), timestamp)->0;
        let b = frame_of(fields_of(second), timestamp)->0;
        assert(seq![a] + seq![b] == seq![a, b]);
    }
}

/// How many frames the characters of `input` open.
pub open spec fn openings(input: Seq<char>) -> nat
    decreases input.len(),
{
    if input.len() == 0 {
        0
    } else if input.last() == STX {
        openings(input.drop_last()) + 1
    } else {
        openings(input.drop_last())
    }
}

/// One if a frame is open, nought if not.
pub open spec fn open_frames(st: DecoderState) -> nat {
    if st.open {
        1
    } else {
        0
    }
}

/// The decoder hands out at most one frame for each frame that was opened:
/// whatever the characters, the frames they complete are no more than the
/// frames they open, and the one that was open before them.
pub proof fn lemma_one_frame_per_opening(st: DecoderState, input: Seq<char>, timestamp: Timestamp)
    ensures
        frames_from(st, input, timestamp).len() + open_frames(state_after(st, input)) <= openings(
            input,
        ) + open_frames(st),
    decreases input.len(),
{
    if input.len() > 0 {
        lemma_one_frame_per_opening(st, input.drop_last(), timestamp);
    }
}

/// How many frames the characters of `input` close.
pub open spec fn closings(input: Seq<char>) -> nat
    decreases input.len(),
{
    if input.len() == 0 {
        0
    } else if input.last() == ETX {
        closings(input.drop_last()) + 1
    } else {
        closings(input.drop_last())
    }
}

/// The decoder hands out at most one frame for each closing mark: whatever
/// the characters, the frames they complete are no more than the frames
/// they close. With [`lemma_one_frame_per_opening`]: at most one frame for
/// each pair of an opening and a closing mark.
pub proof fn lemma_one_frame_per_closing(st: DecoderState, input: Seq<char>, timestamp: Timestamp)
    ensures
        frames_from(st, input, timestamp).len() <= closings(input),
    decreases input.len(),
{
    if input.len() > 0 {
        lemma_one_frame_per_closing(st, input.drop_last(), timestamp);
    }
}

/// What comes before the first frame opens gives no frame: such as the end
/// of a frame whose opening was missed.
pub proof fn lemma_missed_opening(input: Seq<char>, timestamp: Timestamp)
    requires
        forall|i: int| 0 <= i < input.len() ==> (#[trigger] input[i]) != STX,
    ensures
        decoded(input, timestamp) == Seq::<LinkyFrameView>::empty(),
        !state_after(initial_state(), input).open,
    decreases input.len(),
{
    if input.len() > 0 {
        let before = input.drop_last();
        assert forall|i: int| 0 <= i < before.len() implies (#[trigger] before[i]) != STX by {
            assert(before[i] == input[i]);
        }
        lemma_missed_opening(before, timestamp);
        assert(input.last() == input[input.len() - 1]);
    }
}

/// Only the four labels are kept, and a label is kept if and only if it was
/// there before or a group bears it.
pub proof fn lemma_kept_labels(
    fields: Map<Seq<char>, Seq<char>>,
    lines: Seq<Seq<char>>,
    label: Seq<char>,
)
    ensures
        with_groups(fields, lines).contains_key(label) <==> fields.contains_key(label) || (
        is_key(label) && exists|i: int|
            0 <= i < lines.len() && is_labelled(#[trigger] lines[i], label)),
    decreases lines.len(),
{
    if lines.len() > 0 {
        let before = lines.drop_last();
        lemma_kept_labels(fields, before, label);
        let last = lines.len() - 1;
        if is_key(label) && exists|i: int|
            0 <= i < before.len() && is_labelled(#[trigger] before[i], label) {
            let i = choose|i: int|
                0 <= i < before.len() && is_labelled(#[trigger] before[i], label);
            assert(before[i] == lines[i]);
            assert(is_labelled(lines[i], label));
        }
        if is_key(label) && exists|i: int|
            0 <= i < lines.len() && is_labelled(#[trigger] lines[i], label) {
            let i = choose|i: int| 0 <= i < lines.len() && is_labelled(#[trigger] lines[i], label);
            if i < last {
                assert(before[i] == lines[i]);
                assert(is_labelled(before[i], label));
            }
        }
        if is_key(label) && is_labelled(lines.last(), label) {
            assert(is_labelled(lines[last], label));
        }
    }
}

/// Under a label stands what the last group that bears it says.
pub proof fn lemma_kept_value(
    fields: Map<Seq<char>, Seq<char>>,
    lines: Seq<Seq<char>>,
    label: Seq<char>,
    at: int,
)
    requires
        is_key(label),
        0 <= at < lines.len(),
        is_labelled(lines[at], label),
        forall|i: int| at < i < lines.len() ==> !is_labelled(#[trigger] lines[i], label),
    ensures
        with_groups(fields, lines).contains_key(label),
        with_groups(fields, lines)[label] == kept_value(label, words(lines[at])[1]),
    decreases lines.len(),
{
    let last = lines.len() - 1;
    if at < last {
        let before = lines.drop_last();
        assert(before[at] == lines[at]);
        assert forall|i: int| at < i < before.len() implies !is_labelled(
            #[trigger] before[i],
            label,
        ) by {
            assert(before[i] == lines[i]);
        }
        lemma_kept_value(fields, before, label, at);
        assert(!is_labelled(lines[last], label));
    }
}

/// A frame whose groups hold the four labels, with indices that are
/// numbers, gives exactly one frame. Its fields are what the last group of
/// each label says: the address and the indices as they stand, the indices
/// read as numbers, and of the tariff period the first two characters.
pub proof fn lemma_complete_frame(
    st: DecoderState,
    lines: Seq<Seq<char>>,
    tail: Seq<char>,
    timestamp: Timestamp,
    adco: int,
    ptec: int,
    hchc: int,
    hchp: int,
)
    requires
        forall|i: int| 0 <= i < lines.len() ==> is_plain(#[trigger] lines[i]),
        is_idle(tail),
        0 <= adco < lines.len() && is_labelled(lines[adco], "ADCO"@),
        0 <= ptec < lines.len() && is_labelled(lines[ptec], "PTEC"@),
        0 <= hchc < lines.len() && is_labelled(lines[hchc], "HCHC"@),
        0 <= hchp < lines.len() && is_labelled(lines[hchp], "HCHP"@),
        forall|i: int| adco < i < lines.len() ==> !is_labelled(#[trigger] lines[i], "ADCO"@),
        forall|i: int| ptec < i < lines.len() ==> !is_labelled(#[trigger] lines[i], "PTEC"@),
        forall|i: int| hchc < i < lines.len() ==> !is_labelled(#[trigger] lines[i], "HCHC"@),
        forall|i: int| hchp < i < lines.len() ==> !is_labelled(#[trigger] lines[i], "HCHP"@),
        is_index(words(lines[hchc])[1]),
        is_index(words(lines[hchp])[1]),
    ensures
        frames_from(st, frame_text(lines, tail), timestamp) == seq![
            LinkyFrameView {
                adco: words(lines[adco])[1],
                ptec: if words(lines[ptec])[1].len() > 2 {
                    words(lines[ptec])[1].take(2)
                } else {
                    words(lines[ptec])[1]
                },
                hchc: unsigned_value(words(lines[hchc])[1]) as u32,
                hchp: unsigned_value(words(lines[hchp])[1]) as u32,
                timestamp,
            },
        ],
{
    lemma_frame(st, lines, tail, timestamp);
    let none = Map::<Seq<char>, Seq<char>>::empty();
    lemma_kept_value(none, lines, "ADCO"@, adco);
    lemma_kept_value(none, lines, "PTEC"@, ptec);
    lemma_kept_value(none, lines, "HCHC"@, hchc);
    lemma_kept_value(none, lines, "HCHP"@, hchp);
    lemma_labels_differ();
}

/// A frame that lacks one of the four labels gives no frame.
pub proof fn lemma_incomplete_frame(
    st: DecoderState,
    lines: Seq<Seq<char>>,
    tail: Seq<char>,
    timestamp: Timestamp,
    label: Seq<char>,
)
    requires
        forall|i: int| 0 <= i < lines.len() ==> is_plain(#[trigger] lines[i]),
        is_idle(tail),
        is_key(label),
        forall|i: int| 0 <= i < lines.len() ==> !is_labelled(#[trigger] lines[i], label),
    ensures
        frames_from(st, frame_text(lines, tail), timestamp) == Seq::<LinkyFrameView>::empty(),
{
    lemma_frame(st, lines, tail, timestamp);
    lemma_kept_labels(Map::empty(), lines, label);
}

/// A frame with an index that is no number of 32 bits gives no frame.
pub proof fn lemma_index_no_number(
    st: DecoderState,
    lines: Seq<Seq<char>>,
    tail: Seq<char>,
    timestamp: Timestamp,
    label: Seq<char>,
    at: int,
)
    requires
        forall|i: int| 0 <= i < lines.len() ==> is_plain(#[trigger] lines[i]),
        is_idle(tail),
        label == "HCHC"@ || label == "HCHP"@,
        0 <= at < lines.len(),
        is_labelled(lines[at], label),
        forall|i: int| at < i < lines.len() ==> !is_labelled(#[trigger] lines[i], label),
        !is_index(words(lines[at])[1]),
    ensures
        frames_from(st, frame_text(lines, tail), timestamp) == Seq::<LinkyFrameView>::empty(),
{
    lemma_frame(st, lines, tail, timestamp);
    lemma_kept_value(Map::empty(), lines, label, at);
    lemma_labels_differ();
}

/// What one frame holds does not count for the next: two frames that hold
/// the four labels only between them, each lacking one, give no frame.
pub proof fn lemma_labels_do_not_carry_over(
    st: DecoderState,
    first: Seq<Seq<char>>,
    first_tail: Seq<char>,
    second: Seq<Seq<char>>,
    second_tail: Seq<char>,
    timestamp: Timestamp,
    first_lacks: Seq<char>,
    second_lacks: Seq<char>,
)
    requires
        forall|i: int| 0 <= i < first.len() ==> is_plain(#[trigger] first[i]),
        forall|i: int| 0 <= i < second.len() ==> is_plain(#[trigger] second[i]),
        is_idle(first_tail),
        is_idle(second_tail),
        is_key(first_lacks),
        is_key(second_lacks),
        forall|i: int| 0 <= i < first.len() ==> !is_labelled(#[trigger] first[i], first_lacks),
        forall|i: int| 0 <= i < second.len() ==> !is_labelled(#[trigger] second[i], second_lacks),
    ensures
        frames_from(
            st,
            frame_text(first, first_tail) + frame_text(second, second_tail),
            timestamp,
        ) == Seq::<LinkyFrameView>::empty(),
{
    lemma_two_frames(st, first, first_tail, second, second_tail, timestamp);
    lemma_kept_labels(Map::empty(), first, first_lacks);
    lemma_kept_labels(Map::empty(), second, second_lacks);
    let none = Seq::<LinkyFrameView>::empty();
    assert(none + none == none);
}

/// The four labels are four.
pub proof fn lemma_labels_differ()
    ensures
        "ADCO"@ != "PTEC"@,
        "ADCO"@ != "HCHC"@,
        "ADCO"@ != "HCHP"@,
        "PTEC"@ != "HCHC"@,
        "PTEC"@ != "HCHP"@,
        "HCHC"@ != "HCHP"@,
{
    reveal_strlit("ADCO");
    reveal_strlit("PTEC");
    reveal_strlit("HCHC");
    reveal_strlit("HCHP");
    assert("ADCO"@[0] == 'A');
    assert("PTEC"@[0] == 'P');
    assert("HCHC"@[0] == 'H');
    assert("HCHP"@[0] == 'H');
    assert("HCHC"@[3] == 'C');
    assert("HCHP"@[3] == 'P');
}

} // verus!
