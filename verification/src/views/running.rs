//! The running screen: a countdown towards a fixed instant.

use crate::time::{Duration, Instant};
use crate::views::setup::SetupView;
use crate::views::Screen;
use vstd::prelude::*;

verus! {

#[derive(Clone, Debug, Copy, PartialEq, Eq)]
pub struct RunningView {
    /// The time of the latest tick, and of the start before the first.
    pub instant: Instant,
    /// When the countdown ends.
    pub instant_finish: Instant,
    /// The whole length of the countdown.
    pub duration_start: Duration,
    pub finished: bool,
}

/// The length of the countdown that a setup screen asks for.
pub open spec fn countdown_millis(setup: SetupView) -> nat {
    (setup.minutes * 60_000 + setup.seconds * 1_000) as nat
}

impl RunningView {
    /// The countdown that starts at `instant` with the time set on `setup`.
    pub open spec fn spec_init(setup: SetupView, instant: Instant) -> RunningView {
        RunningView {
            instant,
            instant_finish: Instant { millis: (instant@ + countdown_millis(setup)) as u64 },
            duration_start: Duration { millis: countdown_millis(setup) as u64 },
            finished: false,
        }
    }

    /// The countdown after a tick at `instant`.
    pub open spec fn spec_update(self, instant: Instant) -> RunningView {
        RunningView { instant, finished: self.instant_finish@ <= instant@, ..self }
    }

    /// The time that was left at the latest tick; zero once the end is past.
    pub open spec fn remaining_millis(self) -> nat {
        if self.instant@ <= self.instant_finish@ {
            (self.instant_finish@ - self.instant@) as nat
        } else {
            0
        }
    }

    /// The seconds on the display: the whole seconds left and one more, so
    /// that a started second shows in full.
    pub open spec fn shown_seconds(self) -> nat {
        self.remaining_millis() / 1_000 + 1
    }

    /// Starts the countdown at `instant`: it ends the minutes and seconds of
    /// `setup` later.
    pub fn init(setup: SetupView, instant: Instant) -> (view: RunningView)
        requires
            instant@ + countdown_millis(setup) <= u64::MAX,
        ensures
            view == Self::spec_init(setup, instant),
            view.instant_finish@ == instant@ + setup.minutes * 60_000 + setup.seconds * 1_000,
            !view.finished,
    {
        let minutes = Duration::try_minutes(setup.minutes as i64).unwrap();
        let seconds = Duration::try_seconds(setup.seconds as i64).unwrap();
        let duration_start = minutes.checked_add(seconds).unwrap();
        let instant_finish = instant.plus(duration_start);
        RunningView { duration_start, instant_finish, instant, finished: false }
    }

    /// Takes a tick at `instant`: the countdown has finished exactly when
    /// `instant` is not before its end.
    pub fn update(self, instant: Instant) -> (view: RunningView)
        ensures
            view == self.spec_update(instant),
            view.finished <==> self.instant_finish@ <= instant@,
    {
        let finished = self.instant_finish.millis <= instant.millis;
        RunningView { instant, finished, ..self }
    }

    /// The time left, in minutes and seconds below sixty, rounded up to the
    /// next whole second.
    pub fn view(&self) -> (screen: Screen)
        ensures
            screen == (Screen::Time {
                minutes: (self.shown_seconds() / 60) as u64,
                seconds: (self.shown_seconds() % 60) as u64,
            }),
    {
        let remaining = self.instant_finish.saturating_duration_since(self.instant);
        let shown: u64 = remaining.as_secs() + 1;
        Screen::Time { minutes: shown / 60, seconds: shown % 60 }
    }

    /// The display never reads zero: while time is left, and at the end
    /// itself, it shows at least one second.
    pub proof fn lemma_display_is_positive(self)
        ensures
            self.shown_seconds() >= 1,
            (self.shown_seconds() / 60) * 60 + self.shown_seconds() % 60 == self.shown_seconds(),
            self.shown_seconds() / 60 != 0 || self.shown_seconds() % 60 != 0,
    {
    }

    /// A tick one millisecond before the end leaves the countdown running
    /// with one second on the display; a tick at the end or later finishes
    /// it.
    pub proof fn lemma_last_millisecond(self, instant: Instant)
        requires
            instant@ + 1 == self.instant_finish@,
        ensures
            !self.spec_update(instant).finished,
            self.spec_update(instant).shown_seconds() == 1,
            forall|later: Instant|
                self.instant_finish@ <= later@ ==> #[trigger] self.spec_update(later).finished,
    {
    }
}

} // verus!
