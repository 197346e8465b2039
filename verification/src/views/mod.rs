//! The three screens of the timer and the machine that moves between them.

use crate::keys::Key;
use crate::time::{Duration, Instant};
use crate::views::ringing::{RingingView, RING_SECONDS};
use crate::views::running::{countdown_millis, RunningView};
use crate::views::setup::{key_message, SetupMessage, SetupView};
use vstd::prelude::*;

pub mod ringing;
pub mod running;
pub mod setup;

verus! {

/// Milliseconds between two ticks while a countdown or the alarm runs.
pub const TICK_MILLIS: u64 = 100;

#[derive(Debug, Clone, Copy, PartialEq, Eq)]
pub enum AppMessage {
    Setup(SetupMessage),
    Tick(Instant),
    Reset,
}

#[derive(Debug, Clone, Copy, PartialEq, Eq)]
pub enum AppView {
    Setup(SetupView),
    Running(RunningView),
    Ringing(RingingView),
}

/// What a screen shows.
#[derive(Debug, Clone, Copy, PartialEq, Eq)]
pub enum Screen {
    /// Minutes and seconds, each to be written with two digits.
    Time { minutes: u64, seconds: u64 },
    /// The word that announces the alarm.
    Alarm,
}

/// The inputs that the host keeps open for a screen.
#[derive(Debug, Clone, Copy, PartialEq, Eq)]
pub struct Subscription {
    /// The time between two ticks, where the screen wants ticks.
    pub tick: Option<Duration>,
    /// Whether key presses go through the key mapping of the setup screen.
    pub setup_keys: bool,
    /// Whether key presses go through the mapping that knows the reset key.
    pub reset_key: bool,
}

impl AppMessage {
    pub open spec fn wf(self) -> bool {
        self matches AppMessage::Setup(m) ==> m.wf()
    }

    /// Decides `wf` at run time.
    pub fn is_valid(&self) -> (valid: bool)
        ensures
            valid == self.wf(),
    {
        match self {
            AppMessage::Setup(m) => m.is_valid(),
            _ => true,
        }
    }
}

impl AppView {
    /// The machine holds a valid setup screen, or one of the other two.
    pub open spec fn wf(self) -> bool {
        self matches AppView::Setup(s) ==> s.wf()
    }

    /// Where the machine starts, and where `Reset` takes it.
    pub open spec fn initial() -> AppView {
        AppView::Setup(SetupView::initial())
    }

    /// Whether the deadline that `message` sets, if it sets one, is a time
    /// that the clock can show. The setup screen that finishes sets the end
    /// of the countdown, counted from `now`; the tick that finishes the
    /// countdown sets the end of the alarm, counted from the tick. Nothing
    /// else sets a deadline.
    pub open spec fn deadline_fits(self, message: AppMessage, now: Instant) -> bool {
        match (self, message) {
            (AppView::Setup(s), AppMessage::Setup(m)) => s.spec_update(m).finished ==> now@
                + countdown_millis(s) <= u64::MAX,
            (AppView::Running(r), AppMessage::Tick(i)) => r.spec_update(i).finished ==> i@
                + RING_SECONDS * 1_000 <= u64::MAX,
            _ => true,
        }
    }

    /// The machine after `message`, where the clock reads `now` as the
    /// message is taken. Only the start of a countdown looks at `now`: a
    /// tick brings its own time.
    pub open spec fn spec_update(self, message: AppMessage, now: Instant) -> AppView {
        match (self, message) {
            (AppView::Setup(s), AppMessage::Setup(m)) => if s.spec_update(m).finished {
                AppView::Running(RunningView::spec_init(s, now))
            } else {
                AppView::Setup(s.spec_update(m))
            },
            (AppView::Running(r), AppMessage::Tick(i)) => if r.spec_update(i).finished {
                AppView::Ringing(RingingView::spec_init(i))
            } else {
                AppView::Running(r.spec_update(i))
            },
            (AppView::Ringing(r), AppMessage::Tick(i)) => if r.spec_update(i).finished {
                Self::initial()
            } else {
                AppView::Ringing(r.spec_update(i))
            },
            (_, AppMessage::Reset) => Self::initial(),
            _ => self,
        }
    }

    /// The inputs that the machine listens to in this state.
    pub open spec fn spec_subscription(self) -> Subscription {
        match self {
            AppView::Setup(_) => Subscription { tick: None, setup_keys: true, reset_key: true },
            _ => Subscription {
                tick: Some(Duration { millis: TICK_MILLIS }),
                setup_keys: false,
                reset_key: true,
            },
        }
    }

    /// Decides `wf` at run time.
    pub fn is_valid(&self) -> (valid: bool)
        ensures
            valid == self.wf(),
    {
        match self {
            AppView::Setup(s) => s.is_valid(),
            _ => true,
        }
    }

    /// Decides at run time whether `update` can take `message` at `now`:
    /// the machine and the message are valid, and a deadline that the
    /// message sets does not lie beyond the last value of the clock.
    pub fn accepts(&self, message: &AppMessage, now: Instant) -> (ok: bool)
        ensures
            ok == (self.wf() && message.wf() && self.deadline_fits(*message, now)),
    {
        if !self.is_valid() || !message.is_valid() {
            return false;
        }
        match (*self, *message) {
            (AppView::Setup(s), AppMessage::Setup(m)) => {
                let countdown: u64 = (s.minutes as u64) * 60_000 + (s.seconds as u64) * 1_000;
                !s.update(m).finished || now.millis <= u64::MAX - countdown
            },
            (AppView::Running(r), AppMessage::Tick(i)) => {
                !r.update(i).finished || i.millis <= u64::MAX - RingingView::ring_time().millis
            },
            _ => true,
        }
    }

    /// Takes `message`, with `now` the reading of the clock at that moment.
    /// A setup message goes to the setup screen, and once that is finished
    /// the countdown starts at `now`. A tick goes to the countdown or to the
    /// alarm; the finished countdown gives way to the alarm, which starts at
    /// the time of that tick, and the finished alarm to a fresh setup
    /// screen. `Reset` leads to a fresh setup screen from everywhere. A
    /// message that the present screen does not take changes nothing.
    pub fn update(&mut self, message: AppMessage, now: Instant)
        requires
            old(self).wf(),
            message.wf(),
            old(self).deadline_fits(message, now),
        ensures
            *final(self) == old(self).spec_update(message, now),
            final(self).wf(),
            message is Reset ==> *final(self) == Self::initial(),
    {
        let next_state = match (*self, message) {
            (AppView::Setup(s), AppMessage::Setup(m)) => {
                let updated = s.update(m);
                if updated.finished {
                    Some(AppView::Running(RunningView::init(s, now)))
                } else {
                    Some(AppView::Setup(updated))
                }
            },
            (AppView::Running(r), AppMessage::Tick(i)) => {
                let updated = r.update(i);
                if updated.finished {
                    Some(AppView::Ringing(RingingView::init(i)))
                } else {
                    Some(AppView::Running(updated))
                }
            },
            (AppView::Ringing(r), AppMessage::Tick(i)) => {
                let updated = r.update(i);
                if updated.finished {
                    Some(AppView::default())
                } else {
                    Some(AppView::Ringing(updated))
                }
            },
            (_, AppMessage::Reset) => Some(AppView::default()),
            _ => None,
        };
        if let Some(s) = next_state {
            *self = s;
        }
    }

    /// A tick before the end of the countdown leaves it running, with the
    /// time of the tick and the same end and length, and sets no deadline;
    /// a tick at the end or later starts the alarm, which ends
    /// `RING_SECONDS` after that tick. The reading of the clock plays no
    /// part in either.
    pub proof fn lemma_tick_while_running(running: RunningView, tick: Instant, now: Instant)
        ensures
            tick@ < running.instant_finish@ ==> {
                &&& AppView::Running(running).deadline_fits(AppMessage::Tick(tick), now)
                &&& AppView::Running(running).spec_update(AppMessage::Tick(tick), now)
                    == AppView::Running(
                    RunningView { instant: tick, finished: false, ..running },
                )
            },
            running.instant_finish@ <= tick@ ==> AppView::Running(running).spec_update(
                AppMessage::Tick(tick),
                now,
            ) == AppView::Ringing(
                RingingView {
                    instant_finish: Instant { millis: (tick@ + RING_SECONDS * 1_000) as u64 },
                    finished: false,
                },
            ),
    {
    }

    /// `Reset` and every message that the present screen does not take set
    /// no deadline: they can be taken whatever the clock reads.
    pub proof fn lemma_no_deadline(self, message: AppMessage, now: Instant)
        requires
            message is Reset || (self is Setup && message is Tick) || (!(self is Setup)
                && message is Setup) || self is Ringing,
        ensures
            self.deadline_fits(message, now),
    {
    }

    /// What the present screen shows.
    pub fn view(&self) -> (screen: Screen)
        ensures
            screen == (match *self {
                AppView::Setup(s) => Screen::Time {
                    minutes: s.minutes as u64,
                    seconds: s.seconds as u64,
                },
                AppView::Running(r) => Screen::Time {
                    minutes: (r.shown_seconds() / 60) as u64,
                    seconds: (r.shown_seconds() % 60) as u64,
                },
                AppView::Ringing(_) => Screen::Alarm,
            }),
    {
        match self {
            AppView::Setup(s) => s.view(),
            AppView::Running(r) => r.view(),
            AppView::Ringing(r) => r.view(),
        }
    }

    /// The inputs to keep open: ticks every `TICK_MILLIS` milliseconds
    /// while the countdown or the alarm runs, the keys of the setup screen
    /// while that shows, and the reset key always.
    pub fn subscription(&self) -> (sub: Subscription)
        ensures
            sub == self.spec_subscription(),
            sub.reset_key,
            sub.tick is Some <==> !(*self is Setup),
            sub.setup_keys <==> *self is Setup,
    {
        match self {
            AppView::Running(_) | AppView::Ringing(_) => Subscription {
                tick: Some(Duration::from_millis(TICK_MILLIS)),
                setup_keys: false,
                reset_key: true,
            },
            AppView::Setup(_) => Subscription { tick: None, setup_keys: true, reset_key: true },
        }
    }

    /// The message of a tick at `instant`.
    pub fn tick(instant: Instant) -> (message: AppMessage)
        ensures
            message == AppMessage::Tick(instant),
    {
        AppMessage::Tick(instant)
    }

    /// The message that `key`, pressed at `now`, sends while the setup
    /// screen shows.
    pub fn setup_keypress(key: Key, now: Instant) -> (message: Option<AppMessage>)
        ensures
            message == (match key_message(key, now) {
                Some(m) => Some(AppMessage::Setup(m)),
                None => None,
            }),
            message matches Some(m) ==> m.wf(),
    {
        match SetupView::key_board_subscription(key, now) {
            Some(m) => Some(AppMessage::Setup(m)),
            None => None,
        }
    }

    /// The message that `key` sends on every screen: the letter r resets
    /// the timer, and no other key sends anything.
    pub fn default_keypress(key: Key) -> (message: Option<AppMessage>)
        ensures
            message == (if key == Key::Character('r') {
                Some(AppMessage::Reset)
            } else {
                None
            }),
    {
        match key {
            Key::Character(c) => if c == 'r' {
                Some(AppMessage::Reset)
            } else {
                None
            },
            _ => None,
        }
    }
}

impl Default for AppView {
    fn default() -> (view: AppView)
        ensures
            view == AppView::initial(),
    {
        AppView::Setup(SetupView::default())
    }
}

} // verus!
