//! The life of an actor that publishes the frames of a serial source.
//!
//! It is made idle, connects once, and streams for as long as the source
//! lasts. It says `Connected` once, when the source has opened, and
//! `Disconnected` once, when the source could not be opened or has ended.
//! Nothing else ends it: it goes on while nobody subscribes, for those who
//! subscribe later.
//! There is no second attempt: a source that does not open needs a person.
use vstd::prelude::*;

verus! {

/// How long the actor waits before it opens its source, in seconds.
pub const STARTUP_DELAY_SECS: u64 = 1;

/// How many messages the channel of a producer holds for a subscriber.
pub const CHANNEL_CAPACITY: usize = 5;

/// Where a producer stands in its life.
#[derive(Clone, Copy, Debug, PartialEq, Eq)]
pub enum Stage {
    /// Made, not started.
    Idle,
    /// Opening its source.
    Connecting,
    /// The source is open; no frame has been published yet.
    Connected,
    /// Frames are being published.
    Streaming,
    /// Ended, for good.
    Terminated,
}

/// What a producer says about its source.
#[derive(Clone, Copy, Debug, PartialEq, Eq)]
pub enum Signal {
    Connected,
    Disconnected,
}

/// Whether the source is open at `stage`.
pub open spec fn is_open(stage: Stage) -> bool {
    stage == Stage::Connected || stage == Stage::Streaming
}

/// The stage after the actor was started.
pub open spec fn started(stage: Stage) -> Stage {
    if stage == Stage::Idle {
        Stage::Connecting
    } else {
        stage
    }
}

/// The stage after the attempt to open the source ended, well or not.
pub open spec fn opened(stage: Stage, ok: bool) -> Stage {
    if stage == Stage::Connecting {
        if ok {
            Stage::Connected
        } else {
            Stage::Terminated
        }
    } else {
        stage
    }
}

/// What the actor says when the attempt to open the source ended.
pub open spec fn opened_signal(stage: Stage, ok: bool) -> Option<Signal> {
    if stage == Stage::Connecting {
        if ok {
            Some(Signal::Connected)
        } else {
            Some(Signal::Disconnected)
        }
    } else {
        None
    }
}

/// The stage after a frame was published.
pub open spec fn published(stage: Stage) -> Stage {
    if is_open(stage) {
        Stage::Streaming
    } else {
        stage
    }
}

/// The stage after the source ended or failed.
pub open spec fn ended(stage: Stage) -> Stage {
    if is_open(stage) {
        Stage::Terminated
    } else {
        stage
    }
}

/// What the actor says when the source ended or failed.
pub open spec fn ended_signal(stage: Stage) -> Option<Signal> {
    if is_open(stage) {
        Some(Signal::Disconnected)
    } else {
        None
    }
}

/// An event in the life of a producer.
pub enum Event {
    Start,
    Opened(bool),
    Frame,
    Ended,
}

/// The stage after `event`.
pub open spec fn next_stage(stage: Stage, event: Event) -> Stage {
    match event {
        Event::Start => started(stage),
        Event::Opened(ok) => opened(stage, ok),
        Event::Frame => published(stage),
        Event::Ended => ended(stage),
    }
}

/// What the actor says about its source at `event`.
pub open spec fn signal_at(stage: Stage, event: Event) -> Option<Signal> {
    match event {
        Event::Opened(ok) => opened_signal(stage, ok),
        Event::Ended => ended_signal(stage),
        _ => None,
    }
}

/// The stage after the events of `events`, in order.
pub open spec fn stage_after(stage: Stage, events: Seq<Event>) -> Stage
    decreases events.len(),
{
    if events.len() == 0 {
        stage
    } else {
        next_stage(stage_after(stage, events.drop_last()), events.last())
    }
}

/// How often the actor says `signal` during the events of `events`.
pub open spec fn count_signal(stage: Stage, events: Seq<Event>, signal: Signal) -> nat
    decreases events.len(),
{
    if events.len() == 0 {
        0
    } else {
        let before = count_signal(stage, events.drop_last(), signal);
        if signal_at(stage_after(stage, events.drop_last()), events.last()) == Some(signal) {
            before + 1
        } else {
            before
        }
    }
}

/// How far a stage is along the life of a producer.
pub open spec fn rank(stage: Stage) -> nat {
    match stage {
        Stage::Idle => 0,
        Stage::Connecting => 1,
        Stage::Connected => 2,
        Stage::Streaming => 3,
        Stage::Terminated => 4,
    }
}

/// A producer never goes back: no event leads to an earlier stage, and
/// nothing leads out of the last one.
pub proof fn lemma_stage_advances(stage: Stage, event: Event)
    ensures
        rank(stage) <= rank(next_stage(stage, event)),
        stage == Stage::Terminated ==> next_stage(stage, event) == Stage::Terminated,
        stage == Stage::Terminated ==> signal_at(stage, event) is None,
{
}

/// Whatever happens to a producer that was just made, it says `Connected` at
/// most once and `Disconnected` at most once, and it says `Disconnected`
/// when it ends and only then: no producer ends in silence.
pub proof fn lemma_signals_once(events: Seq<Event>)
    ensures
        count_signal(Stage::Idle, events, Signal::Connected) <= 1,
        count_signal(Stage::Idle, events, Signal::Disconnected) <= 1,
        count_signal(Stage::Idle, events, Signal::Connected) == 1 ==> rank(
            stage_after(Stage::Idle, events),
        ) >= 2,
        count_signal(Stage::Idle, events, Signal::Connected) == 0 ==> !is_open(
            stage_after(Stage::Idle, events),
        ),
        count_signal(Stage::Idle, events, Signal::Disconnected) == 1 ==> stage_after(
            Stage::Idle,
            events,
        ) == Stage::Terminated,
        rank(stage_after(Stage::Idle, events)) <= 1 ==> count_signal(
            Stage::Idle,
            events,
            Signal::Disconnected,
        ) == 0,
        stage_after(Stage::Idle, events) == Stage::Terminated ==> count_signal(
            Stage::Idle,
            events,
            Signal::Disconnected,
        ) == 1,
    decreases events.len(),
{
    if events.len() > 0 {
        lemma_signals_once(events.drop_last());
        lemma_stage_advances(stage_after(Stage::Idle, events.drop_last()), events.last());
    }
}

/// The life of a producer.
pub struct Producer {
    stage: Stage,
}

impl View for Producer {
    type V = Stage;

    closed spec fn view(&self) -> Stage {
        self.stage
    }
}

impl Producer {
    /// A producer that has not started.
    pub fn new() -> (producer: Producer)
        ensures
            producer@ == Stage::Idle,
    {
        Producer { stage: Stage::Idle }
    }

    /// Where the producer stands.
    pub fn stage(&self) -> (stage: Stage)
        ensures
            stage == self@,
    {
        self.stage
    }

    /// Whether the source is open, so that its characters are to be read.
    pub fn is_open(&self) -> (open: bool)
        ensures
            open == is_open(self@),
    {
        match self.stage {
            Stage::Connected => true,
            Stage::Streaming => true,
            _ => false,
        }
    }

    /// The actor starts: it is about to open its source.
    pub fn start(&mut self)
        ensures
            final(self)@ == started(old(self)@),
    {
        match self.stage {
            Stage::Idle => {
                self.stage = Stage::Connecting;
            },
            _ => {},
        }
    }

    /// The attempt to open the source has ended, well or not. The result is
    /// what the actor says about it.
    pub fn opened(&mut self, ok: bool) -> (signal: Option<Signal>)
        ensures
            final(self)@ == opened(old(self)@, ok),
            signal == opened_signal(old(self)@, ok),
    {
        match self.stage {
            Stage::Connecting => {
                if ok {
                    self.stage = Stage::Connected;
                    Some(Signal::Connected)
                } else {
                    self.stage = Stage::Terminated;
                    Some(Signal::Disconnected)
                }
            },
            _ => None,
        }
    }

    /// A frame is published.
    pub fn published(&mut self)
        ensures
            final(self)@ == published(old(self)@),
    {
        if self.is_open() {
            self.stage = Stage::Streaming;
        }
    }

    /// The source has ended or failed. The result is what the actor says
    /// about it.
    pub fn ended(&mut self) -> (signal: Option<Signal>)
        ensures
            final(self)@ == ended(old(self)@),
            signal == ended_signal(old(self)@),
    {
        if self.is_open() {
            self.stage = Stage::Terminated;
            Some(Signal::Disconnected)
        } else {
            None
        }
    }
}

} // verus!
