//! The actor that publishes the samples of the power module.
use vstd::prelude::*;
use vstd::string::*;

use crate::actor::producer::ended;
use crate::actor::producer::ended_signal;
use crate::actor::producer::is_open;
use crate::actor::producer::opened;
use crate::actor::producer::opened_signal;
use crate::actor::producer::Producer;
use crate::actor::producer::published;
use crate::actor::producer::Signal;
use crate::actor::producer::Stage;
use crate::actor::producer::started;
use crate::clock::Timestamp;
use crate::driver::rpict::emitted;
use crate::driver::rpict::frames_from;
use crate::driver::rpict::line_after;
use crate::driver::rpict::next_line;
use crate::driver::rpict::RpictDecoder;
use crate::driver::rpict::RpictFrame;
use crate::driver::rpict::RpictFrameView;
use crate::driver::serial::Parity;
use crate::driver::serial::rpict_line;
use crate::driver::serial::SerialLine;

verus! {

/// What the actor tells its subscribers.
#[derive(Clone, Debug)]
pub enum RpictMessage {
    /// The source has opened.
    Connected,
    /// The source could not be opened, or has ended.
    Disconnected,
    /// The source has sent a frame.
    NewFrame(RpictFrame),
}

/// What a [`RpictMessage`] holds, as mathematical values.
pub enum RpictMessageView {
    Connected,
    Disconnected,
    NewFrame(RpictFrameView),
}

impl View for RpictMessage {
    type V = RpictMessageView;

    open spec fn view(&self) -> RpictMessageView {
        match self {
            RpictMessage::Connected => RpictMessageView::Connected,
            RpictMessage::Disconnected => RpictMessageView::Disconnected,
            RpictMessage::NewFrame(frame) => RpictMessageView::NewFrame(frame@),
        }
    }
}

/// The message that stands for a signal.
pub open spec fn message_of(signal: Option<Signal>) -> Option<RpictMessageView> {
    match signal {
        Some(Signal::Connected) => Some(RpictMessageView::Connected),
        Some(Signal::Disconnected) => Some(RpictMessageView::Disconnected),
        None => None,
    }
}

/// The view of an optional message.
pub open spec fn message_view(message: Option<RpictMessage>) -> Option<RpictMessageView> {
    match message {
        Some(m) => Some(m@),
        None => None,
    }
}

/// The message that carries a frame, if there is a frame.
pub open spec fn frame_message(frame: Option<RpictFrameView>) -> Option<RpictMessageView> {
    match frame {
        Some(f) => Some(RpictMessageView::NewFrame(f)),
        None => None,
    }
}

/// The actor of the power module: where it stands in its life, and its decoder.
pub struct RpictActor {
    serial_path: String,
    producer: Producer,
    decoder: RpictDecoder,
}

/// What an [`RpictActor`] holds, as mathematical values.
pub struct RpictActorView {
    pub serial_path: Seq<char>,
    pub stage: Stage,
    pub decoder: Seq<char>,
}

/// The actor after its port has delivered the character `c`, read at
/// `timestamp`: where the port is open the decoder takes the character, and
/// the actor is streaming once a frame is complete; where it is not, nothing
/// changes.
pub open spec fn after_received(actor: RpictActorView, c: char, timestamp: Timestamp) -> RpictActorView {
    if is_open(actor.stage) {
        RpictActorView {
            stage: if emitted(actor.decoder, c, timestamp) is Some {
                Stage::Streaming
            } else {
                actor.stage
            },
            decoder: next_line(actor.decoder, c),
            ..actor
        }
    } else {
        actor
    }
}

/// What the actor publishes when its port has delivered the character `c`,
/// read at `timestamp`: the frame that the character completes, where the
/// port is open and the character completes one.
pub open spec fn sent_at_received(actor: RpictActorView, c: char, timestamp: Timestamp) -> Option<
    RpictMessageView,
> {
    if is_open(actor.stage) {
        frame_message(emitted(actor.decoder, c, timestamp))
    } else {
        None
    }
}

/// The actor after its port has delivered the characters of `input`, in
/// order.
pub open spec fn after_received_all(
    actor: RpictActorView,
    input: Seq<char>,
    timestamp: Timestamp,
) -> RpictActorView
    decreases input.len(),
{
    if input.len() == 0 {
        actor
    } else {
        after_received(
            after_received_all(actor, input.drop_last(), timestamp),
            input.last(),
            timestamp,
        )
    }
}

/// What the actor publishes while its port delivers the characters of
/// `input`, in order.
pub open spec fn sent_during(actor: RpictActorView, input: Seq<char>, timestamp: Timestamp) -> Seq<
    RpictMessageView,
>
    decreases input.len(),
{
    if input.len() == 0 {
        Seq::empty()
    } else {
        let before = sent_during(actor, input.drop_last(), timestamp);
        match sent_at_received(
            after_received_all(actor, input.drop_last(), timestamp),
            input.last(),
            timestamp,
        ) {
            Some(message) => before.push(message),
            None => before,
        }
    }
}

/// An actor whose port is open publishes every frame that its decoder
/// completes, and nothing else, in the order in which the frames arrive.
pub proof fn lemma_frames_in_order(actor: RpictActorView, input: Seq<char>, timestamp: Timestamp)
    requires
        is_open(actor.stage),
    ensures
        is_open(after_received_all(actor, input, timestamp).stage),
        after_received_all(actor, input, timestamp).decoder == line_after(
            actor.decoder,
            input,
        ),
        sent_during(actor, input, timestamp) == frames_from(
            actor.decoder,
            input,
            timestamp,
        ).map_values(|f: RpictFrameView| RpictMessageView::NewFrame(f)),
    decreases input.len(),
{
    let wrap = |f: RpictFrameView| RpictMessageView::NewFrame(f);
    if input.len() == 0 {
        assert(sent_during(actor, input, timestamp) == frames_from(
            actor.decoder,
            input,
            timestamp,
        ).map_values(wrap));
    } else {
        lemma_frames_in_order(actor, input.drop_last(), timestamp);
        let frames = frames_from(actor.decoder, input.drop_last(), timestamp);
        match emitted(line_after(actor.decoder, input.drop_last()), input.last(), timestamp) {
            Some(frame) => {
                assert(frames.push(frame).map_values(wrap) == frames.map_values(wrap).push(
                    wrap(frame),
                ));
            },
            None => {},
        }
    }
}

/// An actor whose port is not open publishes nothing, whatever its port
/// delivers, and does not change.
pub proof fn lemma_closed_is_silent(actor: RpictActorView, input: Seq<char>, timestamp: Timestamp)
    requires
        !is_open(actor.stage),
    ensures
        after_received_all(actor, input, timestamp) == actor,
        sent_during(actor, input, timestamp) == Seq::<RpictMessageView>::empty(),
    decreases input.len(),
{
    if input.len() > 0 {
        lemma_closed_is_silent(actor, input.drop_last(), timestamp);
    }
}

impl View for RpictActor {
    type V = RpictActorView;

    closed spec fn view(&self) -> RpictActorView {
        RpictActorView {
            serial_path: self.serial_path@,
            stage: self.producer@,
            decoder: self.decoder@,
        }
    }
}

impl RpictActor {
    /// The actor for the power module at the port `serial_path`: idle, having read
    /// nothing.
    pub fn create(serial_path: &str) -> (actor: RpictActor)
        ensures
            actor@ == (RpictActorView {
                serial_path: serial_path@,
                stage: Stage::Idle,
                decoder: Seq::<char>::empty(),
            }),
    {
        RpictActor {
            serial_path: String::from_str(serial_path),
            producer: Producer::new(),
            decoder: RpictDecoder::new(),
        }
    }

    /// The path of the port that the actor reads.
    pub fn serial_path(&self) -> (path: &String)
        ensures
            path@ == self@.serial_path,
    {
        &self.serial_path
    }

    /// How the port is to be set.
    pub fn serial_line(&self) -> (line: SerialLine)
        ensures
            line == (SerialLine {
                baud_rate: 38400,
                parity: Parity::Off,
                data_bits: 8,
                stop_bits: 1,
            }),
    {
        rpict_line()
    }

    /// Whether the source is open, so that its characters are to be read.
    pub fn is_open(&self) -> (open: bool)
        ensures
            open == is_open(self@.stage),
    {
        self.producer.is_open()
    }

    /// The actor starts: it is about to open its port.
    pub fn start(&mut self)
        ensures
            final(self)@ == (RpictActorView { stage: started(old(self)@.stage), ..old(self)@ }),
    {
        self.producer.start();
    }

    /// The attempt to open the port has ended, well or not. The result is
    /// what the actor publishes: `Connected` or `Disconnected` where it was
    /// connecting, and nothing otherwise.
    pub fn opened(&mut self, ok: bool) -> (message: Option<RpictMessage>)
        ensures
            final(self)@ == (RpictActorView { stage: opened(old(self)@.stage, ok), ..old(self)@ }),
            message_view(message) == message_of(opened_signal(old(self)@.stage, ok)),
    {
        match self.producer.opened(ok) {
            Some(Signal::Connected) => Some(RpictMessage::Connected),
            Some(Signal::Disconnected) => Some(RpictMessage::Disconnected),
            None => None,
        }
    }

    /// The port has delivered the character `c`, read at `timestamp`. The
    /// result is what the actor publishes: the frame that the character
    /// completes, if it completes one. An actor whose port is not open
    /// ignores the character.
    pub fn received(&mut self, c: char, timestamp: Timestamp) -> (message: Option<RpictMessage>)
        ensures
            final(self)@ == after_received(old(self)@, c, timestamp),
            message_view(message) == sent_at_received(old(self)@, c, timestamp),
    {
        if !self.producer.is_open() {
            return None;
        }
        match self.decoder.push(c, timestamp) {
            Some(frame) => {
                self.producer.published();
                Some(RpictMessage::NewFrame(frame))
            },
            None => None,
        }
    }

    /// The port has ended or failed. The result is what the actor publishes:
    /// `Disconnected` where the port was open, and nothing otherwise.
    pub fn ended(&mut self) -> (message: Option<RpictMessage>)
        ensures
            final(self)@ == (RpictActorView { stage: ended(old(self)@.stage), ..old(self)@ }),
            message_view(message) == message_of(ended_signal(old(self)@.stage)),
    {
        match self.producer.ended() {
            Some(_) => Some(RpictMessage::Disconnected),
            None => None,
        }
    }
}

} // verus!
