//! The ringing screen: the alarm shows for a fixed time.

use crate::time::{Duration, Instant};
use crate::views::Screen;
use vstd::prelude::*;

verus! {

/// Seconds for which the alarm shows.
pub const RING_SECONDS: i64 = 10;

#[derive(Debug, Clone, Copy, PartialEq, Eq)]
pub struct RingingView {
    /// When the alarm stops showing.
    pub instant_finish: Instant,
    pub finished: bool,
}

impl RingingView {
    /// The alarm that starts to show at `instant`.
    pub open spec fn spec_init(instant: Instant) -> RingingView {
        RingingView {
            instant_finish: Instant { millis: (instant@ + RING_SECONDS * 1_000) as u64 },
            finished: false,
        }
    }

    /// The alarm after a tick at `instant`.
    pub open spec fn spec_update(self, instant: Instant) -> RingingView {
        RingingView { finished: self.instant_finish@ <= instant@, ..self }
    }

    /// How long the alarm shows.
    pub fn ring_time() -> (span: Duration)
        ensures
            span@ == RING_SECONDS * 1_000,
    {
        Duration::try_seconds(RING_SECONDS).unwrap()
    }

    /// Starts to show the alarm at `instant`, for `RING_SECONDS` seconds.
    pub fn init(instant: Instant) -> (view: RingingView)
        requires
            instant@ + RING_SECONDS * 1_000 <= u64::MAX,
        ensures
            view == Self::spec_init(instant),
            view.instant_finish@ == instant@ + RING_SECONDS * 1_000,
            !view.finished,
    {
        RingingView { instant_finish: instant.plus(Self::ring_time()), finished: false }
    }

    /// Takes a tick at `instant`: the alarm has finished exactly when
    /// `instant` is not before its end.
    pub fn update(self, instant: Instant) -> (view: RingingView)
        ensures
            view == self.spec_update(instant),
            view.finished <==> self.instant_finish@ <= instant@,
    {
        let finished = self.instant_finish.millis <= instant.millis;
        RingingView { finished, ..self }
    }

    /// The alarm screen.
    pub fn view(&self) -> (screen: Screen)
        ensures
            screen == Screen::Alarm,
    {
        Screen::Alarm
    }
}

} // verus!
