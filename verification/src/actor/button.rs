//! The actor of the push button.
//!
//! The input is pulled up: it rests high, and the button pulls it low. Every
//! falling edge of the input starts the inactivity timer anew and, once the
//! input has had its time to settle, counts as a press if the input is back
//! at rest. An input that is still low then, held down or bouncing, counts
//! for nothing. When the timer runs out the actor says so, once.
//!
//! At most one timer is live. Timers are told apart by a number: starting a
//! timer takes the next number and makes it the live one, so that a timer
//! which was started earlier and runs out later is known to be stale.
use vstd::prelude::*;

use crate::driver::gpio::Level;

verus! {

/// How many messages the channel of the button holds for a subscriber.
pub const CHANNEL_CAPACITY: usize = 1;

/// How many edges wait for the actor: a burst of edges counts as one edge.
pub const EDGE_QUEUE_CAPACITY: usize = 1;

/// What the actor tells its subscribers.
#[derive(Clone, Copy, Debug, PartialEq, Eq)]
pub enum ButtonMessage {
    /// The button was pressed.
    Press,
    /// Nothing has happened for the length of the inactivity timer.
    Inactivity,
}

/// A timer to start.
#[derive(Clone, Copy, Debug, PartialEq, Eq)]
pub struct Timer {
    /// The number by which the actor knows the timer when it runs out.
    pub id: u64,
    /// After how many seconds it runs out.
    pub timeout_secs: u64,
}

/// The input is active while the button pulls it low, and at rest while it
/// reads high.
pub open spec fn is_active(level: Level) -> bool {
    level == Level::Low
}

/// What the actor holds, as mathematical values.
pub struct ButtonView {
    pub button_bcm_pin: u8,
    pub button_debounce_ms: u64,
    pub sleep_timeout_secs: u64,
    /// How many timers have been started.
    pub started: nat,
    /// The number of the live timer, if one is live.
    pub live: Option<nat>,
}

/// The timers that have been started bear the numbers from one to how many
/// there are, and the live one is among them.
pub open spec fn is_consistent(button: ButtonView) -> bool {
    button.live matches Some(id) ==> 1 <= id <= button.started
}

/// Twice `secs`, or the largest number of seconds there is.
pub open spec fn doubled(secs: u64) -> u64 {
    if secs <= u64::MAX / 2 {
        (2 * secs) as u64
    } else {
        u64::MAX
    }
}

/// Whether another timer can be numbered.
pub open spec fn can_start(button: ButtonView) -> bool {
    button.started < u64::MAX
}

/// The actor after it has started a timer in place of the live one. Where no
/// number is left, the live timer is cancelled and none is started.
pub open spec fn restarted(button: ButtonView) -> ButtonView {
    if can_start(button) {
        ButtonView { started: button.started + 1, live: Some(button.started + 1), ..button }
    } else {
        ButtonView { live: None, ..button }
    }
}

/// The timer that is started in place of the live one, to run for
/// `timeout_secs`.
pub open spec fn restarted_timer(button: ButtonView, timeout_secs: u64) -> Option<Timer> {
    if can_start(button) {
        Some(Timer { id: (button.started + 1) as u64, timeout_secs })
    } else {
        None
    }
}

/// The actor after the timer `id` has run out: the live timer is spent,
/// any other changes nothing.
pub open spec fn elapsed(button: ButtonView, id: u64) -> ButtonView {
    if button.live == Some(id as nat) {
        ButtonView { live: None, ..button }
    } else {
        button
    }
}

/// What the actor says when the timer `id` has run out: of the live timer
/// `Inactivity`, of any other nothing.
pub open spec fn elapsed_message(button: ButtonView, id: u64) -> Option<ButtonMessage> {
    if button.live == Some(id as nat) {
        Some(ButtonMessage::Inactivity)
    } else {
        None
    }
}

/// What the actor says when the input has settled at `level`: `Press` where
/// the input is at rest, nothing where it is still active.
pub open spec fn settled_message(level: Level) -> Option<ButtonMessage> {
    if is_active(level) {
        None
    } else {
        Some(ButtonMessage::Press)
    }
}

/// When a second timer is started before the first has run out, only the
/// second can make the actor say `Inactivity`, and it does so once.
pub proof fn lemma_only_the_last_timer_fires(button: ButtonView, first: u64, second: u64)
    requires
        is_consistent(button),
        can_start(button),
        can_start(restarted(button)),
    ensures
        ({
            let once = restarted(button);
            let twice = restarted(once);
            let a = restarted_timer(button, first)->0;
            let b = restarted_timer(once, second)->0;
            &&& a.id != b.id
            &&& elapsed_message(twice, a.id) is None
            &&& elapsed(twice, a.id) == twice
            &&& elapsed_message(twice, b.id) == Some(ButtonMessage::Inactivity)
            &&& elapsed_message(elapsed(twice, b.id), b.id) is None
            &&& elapsed_message(elapsed(twice, b.id), a.id) is None
        }),
{
}

/// A timer that is not the live one never makes the actor speak, and the
/// live one is spent by running out: whatever number runs out next, the
/// actor is silent.
pub proof fn lemma_inactivity_is_said_once(button: ButtonView, id: u64, next: u64)
    requires
        is_consistent(button),
    ensures
        elapsed_message(button, id) is Some ==> elapsed_message(elapsed(button, id), next) is None,
        elapsed_message(button, id) is Some <==> button.live == Some(id as nat),
        is_consistent(elapsed(button, id)),
        is_consistent(restarted(button)),
{
}

/// What happens to the timers of the actor.
pub enum TimerEvent {
    /// The input has changed: a timer is started in place of the live one.
    Edge,
    /// The timer of this number has run out.
    TimedOut(u64),
}

/// The actor after `event`.
pub open spec fn after_event(button: ButtonView, event: TimerEvent) -> ButtonView {
    match event {
        TimerEvent::Edge => restarted(button),
        TimerEvent::TimedOut(id) => elapsed(button, id),
    }
}

/// The actor after the events of `events`, in order.
pub open spec fn after_events(button: ButtonView, events: Seq<TimerEvent>) -> ButtonView
    decreases events.len(),
{
    if events.len() == 0 {
        button
    } else {
        after_event(after_events(button, events.drop_last()), events.last())
    }
}

/// How often the actor says `Inactivity` during the events of `events` after
/// the last edge among them, or during all of them if there is no edge.
pub open spec fn inactivity_since_edge(button: ButtonView, events: Seq<TimerEvent>) -> nat
    decreases events.len(),
{
    if events.len() == 0 {
        0
    } else {
        match events.last() {
            TimerEvent::Edge => 0,
            TimerEvent::TimedOut(id) => {
                let before = inactivity_since_edge(button, events.drop_last());
                if elapsed_message(after_events(button, events.drop_last()), id) is Some {
                    before + 1
                } else {
                    before
                }
            },
        }
    }
}

/// Whatever timers run out, and however often, the actor says `Inactivity`
/// at most once between two edges; and once it has said so, no timer is live
/// until the next edge.
pub proof fn lemma_one_inactivity_per_idle_period(button: ButtonView, events: Seq<TimerEvent>)
    requires
        is_consistent(button),
    ensures
        inactivity_since_edge(button, events) <= 1,
        inactivity_since_edge(button, events) == 1 ==> after_events(button, events).live is None,
        is_consistent(after_events(button, events)),
    decreases events.len(),
{
    if events.len() > 0 {
        lemma_one_inactivity_per_idle_period(button, events.drop_last());
    }
}

/// The actor of the push button.
pub struct ButtonActor {
    button_bcm_pin: u8,
    button_debounce_ms: u64,
    sleep_timeout_secs: u64,
    started: u64,
    live: Option<u64>,
}

impl View for ButtonActor {
    type V = ButtonView;

    closed spec fn view(&self) -> ButtonView {
        ButtonView {
            button_bcm_pin: self.button_bcm_pin,
            button_debounce_ms: self.button_debounce_ms,
            sleep_timeout_secs: self.sleep_timeout_secs,
            started: self.started as nat,
            live: match self.live {
                Some(id) => Some(id as nat),
                None => None,
            },
        }
    }
}

impl ButtonActor {
    /// The actor of the button at the pin `button_bcm_pin`, which waits
    /// `button_debounce_ms` for the input to settle and
    /// `sleep_timeout_secs` for something to happen. No timer is live.
    pub fn new(button_bcm_pin: u8, button_debounce_ms: u64, sleep_timeout_secs: u64) -> (actor:
        ButtonActor)
        ensures
            actor@ == (ButtonView {
                button_bcm_pin,
                button_debounce_ms,
                sleep_timeout_secs,
                started: 0,
                live: None,
            }),
    {
        ButtonActor {
            button_bcm_pin,
            button_debounce_ms,
            sleep_timeout_secs,
            started: 0,
            live: None,
        }
    }

    /// The pin of the button.
    pub fn pin(&self) -> (pin: u8)
        ensures
            pin == self@.button_bcm_pin,
    {
        self.button_bcm_pin
    }

    /// How long the input is given to settle after an edge, in milliseconds.
    pub fn debounce_ms(&self) -> (ms: u64)
        ensures
            ms == self@.button_debounce_ms,
    {
        self.button_debounce_ms
    }

    /// Starts a timer of `timeout_secs` in place of the live one.
    fn restart(&mut self, timeout_secs: u64) -> (timer: Option<Timer>)
        ensures
            final(self)@ == restarted(old(self)@),
            timer == restarted_timer(old(self)@, timeout_secs),
    {
        if self.started < u64::MAX {
            self.started = self.started + 1;
            self.live = Some(self.started);
            Some(Timer { id: self.started, timeout_secs })
        } else {
            self.live = None;
            None
        }
    }

    /// The actor starts: the result is the first inactivity timer, which
    /// runs for twice the usual time, so that the display does not go to
    /// sleep right after the first look at it.
    pub fn run(&mut self) -> (timer: Option<Timer>)
        ensures
            final(self)@ == restarted(old(self)@),
            timer == restarted_timer(old(self)@, doubled(old(self)@.sleep_timeout_secs)),
    {
        let timeout = if self.sleep_timeout_secs <= u64::MAX / 2 {
            2 * self.sleep_timeout_secs
        } else {
            u64::MAX
        };
        self.restart(timeout)
    }

    /// The input has changed. The live timer is cancelled, and the result is
    /// the timer to start in its place, which runs for the usual time. The
    /// input is then given time to settle: see [`ButtonActor::settled`].
    pub fn edge(&mut self) -> (timer: Option<Timer>)
        ensures
            final(self)@ == restarted(old(self)@),
            timer == restarted_timer(old(self)@, old(self)@.sleep_timeout_secs),
    {
        let timeout = self.sleep_timeout_secs;
        self.restart(timeout)
    }

    /// The input has had its time to settle after an edge, and reads
    /// `level`. The result is what the actor publishes: `Press` where the
    /// input is at rest, nothing where it is still active.
    pub fn settled(&self, level: Level) -> (message: Option<ButtonMessage>)
        ensures
            message == settled_message(level),
    {
        match level {
            Level::High => Some(ButtonMessage::Press),
            Level::Low => None,
        }
    }

    /// The timer `id` has run out. The result is what the actor publishes:
    /// `Inactivity` for the live timer, which is then spent, and nothing for
    /// any other.
    pub fn timed_out(&mut self, id: u64) -> (message: Option<ButtonMessage>)
        ensures
            final(self)@ == elapsed(old(self)@, id),
            message == elapsed_message(old(self)@, id),
    {
        match self.live {
            Some(live) => {
                if live == id {
                    self.live = None;
                    Some(ButtonMessage::Inactivity)
                } else {
                    None
                }
            },
            None => None,
        }
    }
}

} // verus!
