//! The setup screen: minutes and seconds are chosen here, by single keys and
//! by two digits typed shortly after one another.

use crate::keys::{decimal_digit, digit_value, is_digit, Key};
use crate::time::{Duration, Instant};
use crate::views::Screen;
use vstd::prelude::*;

verus! {

/// Seconds after the first digit within which a second digit still joins it.
pub const COMBO_TIMER_SECONDS: i64 = 1;

/// Minutes set with the plus and minus keys run from 0 to one below this.
pub const MINUTES_WRAP: u32 = 21;

/// The largest number of minutes that two typed digits can give.
pub const MAX_MINUTES: u32 = 99;

#[derive(Copy, Clone, Debug, PartialEq, Eq)]
pub enum SetupMessage {
    /// Start the countdown.
    Okay,
    /// A digit key was pressed at `instant`.
    Combo { digit: u8, instant: Instant },
    SwitchSeconds,
    IncrementMinutes,
    DecrementMinutes,
}

/// A first digit that may still be joined by a second.
#[derive(Debug, Clone, Copy, PartialEq, Eq)]
pub struct Combo {
    /// How many digits have been typed: always 1 while the combo is open.
    pub position: u32,
    /// When the first digit was typed.
    pub instant_start: Instant,
}

#[derive(Debug, Clone, Copy, PartialEq, Eq)]
pub struct SetupView {
    pub combo: Option<Combo>,
    pub minutes: u32,
    pub seconds: u32,
    pub finished: bool,
}

impl SetupMessage {
    /// A digit key carries a decimal digit.
    pub open spec fn wf(self) -> bool {
        self matches SetupMessage::Combo { digit, .. } ==> digit <= 9
    }

    /// Decides `wf` at run time.
    pub fn is_valid(&self) -> (valid: bool)
        ensures
            valid == self.wf(),
    {
        match self {
            SetupMessage::Combo { digit, .. } => *digit <= 9,
            _ => true,
        }
    }
}

/// Where the seconds go on `SwitchSeconds`: round the ring 0, 30, 15, 45.
/// A value between two stops moves as the stop below it does.
pub open spec fn next_seconds(seconds: u32) -> u32 {
    if seconds < 15 {
        30
    } else if seconds < 30 {
        45
    } else if seconds < 45 {
        15
    } else {
        0
    }
}

/// The message that a key pressed at `now` sends to the setup screen: enter
/// starts the countdown, minus and plus change the minutes, the full stop
/// switches the seconds, a digit is typed into the minutes, and every other
/// key sends nothing.
pub open spec fn key_message(key: Key, now: Instant) -> Option<SetupMessage> {
    match key {
        Key::Enter => Some(SetupMessage::Okay),
        Key::Character(c) => if c == '-' {
            Some(SetupMessage::DecrementMinutes)
        } else if c == '+' {
            Some(SetupMessage::IncrementMinutes)
        } else if c == '.' {
            Some(SetupMessage::SwitchSeconds)
        } else if is_digit(c) {
            Some(SetupMessage::Combo { digit: digit_value(c) as u8, instant: now })
        } else {
            None
        },
        Key::Unidentified => None,
    }
}

/// Whether `seconds` is one of the four stops of the ring.
pub open spec fn is_quarter(seconds: u32) -> bool {
    seconds == 0 || seconds == 15 || seconds == 30 || seconds == 45
}

impl SetupView {
    /// What every setup screen that the machine produces satisfies: at most
    /// two digits of minutes, seconds on a quarter, and while a combo is
    /// open exactly one digit has been typed.
    pub open spec fn wf(self) -> bool {
        &&& self.minutes <= MAX_MINUTES
        &&& is_quarter(self.seconds)
        &&& self.combo matches Some(combo) ==> combo.position == 1 && self.minutes <= 9
    }

    /// The screen as it first appears: five minutes, no digit typed.
    pub open spec fn initial() -> SetupView {
        SetupView { combo: None, minutes: 5, seconds: 0, finished: false }
    }

    /// Whether a digit typed at `instant` is the second digit of the open
    /// combo: one is open, and its first digit is at most the combo window
    /// older than `instant`.
    pub open spec fn joins_combo(self, instant: Instant) -> bool {
        self.combo matches Some(combo) && instant@ <= combo.instant_start@ + COMBO_TIMER_SECONDS
            * 1_000
    }

    /// The screen after `message`.
    pub open spec fn spec_update(self, message: SetupMessage) -> SetupView {
        match message {
            SetupMessage::Okay => SetupView { finished: true, ..self },
            SetupMessage::Combo { digit, instant } => if self.joins_combo(instant) {
                SetupView { minutes: (self.minutes * 10 + digit) as u32, combo: None, ..self }
            } else {
                SetupView {
                    minutes: digit as u32,
                    combo: Some(Combo { position: 1, instant_start: instant }),
                    ..self
                }
            },
            SetupMessage::SwitchSeconds => SetupView {
                seconds: next_seconds(self.seconds),
                combo: None,
                ..self
            },
            SetupMessage::IncrementMinutes => SetupView {
                minutes: ((self.minutes + 1) % (MINUTES_WRAP as int)) as u32,
                combo: None,
                ..self
            },
            SetupMessage::DecrementMinutes => SetupView {
                minutes: ((self.minutes - 1) % (MINUTES_WRAP as int)) as u32,
                combo: None,
                ..self
            },
        }
    }

    /// Decides `wf` at run time.
    pub fn is_valid(&self) -> (valid: bool)
        ensures
            valid == self.wf(),
    {
        let quarter = self.seconds == 0 || self.seconds == 15 || self.seconds == 30
            || self.seconds == 45;
        let combo_ok = match self.combo {
            Some(combo) => combo.position == 1 && self.minutes <= 9,
            None => true,
        };
        self.minutes <= MAX_MINUTES && quarter && combo_ok
    }

    /// The span within which a second digit joins the first.
    pub fn combo_window() -> (window: Duration)
        ensures
            window@ == COMBO_TIMER_SECONDS * 1_000,
    {
        Duration::try_seconds(COMBO_TIMER_SECONDS).unwrap()
    }

    /// The screen after `message`. `Okay` marks it finished and changes
    /// nothing else. A digit either opens a combo and becomes the minutes,
    /// or closes the open one and becomes their second digit. Every other
    /// key drops an open combo; plus and minus then leave the minutes
    /// below `MINUTES_WRAP`.
    pub fn update(&self, message: SetupMessage) -> (next: SetupView)
        requires
            self.wf(),
            message.wf(),
        ensures
            next == self.spec_update(message),
            next.wf(),
            next.finished == (self.finished || message is Okay),
            (message is IncrementMinutes || message is DecrementMinutes) ==> next.minutes
                < MINUTES_WRAP,
    {
        match message {
            SetupMessage::Okay => SetupView { finished: true, ..*self },
            SetupMessage::Combo { digit, instant } => {
                let joins = match self.combo {
                    Some(combo) => !combo.instant_start.predates_by_more_than(
                        instant,
                        Self::combo_window(),
                    ),
                    None => false,
                };
                if joins {
                    SetupView { minutes: self.minutes * 10 + (digit as u32), combo: None, ..*self }
                } else {
                    SetupView {
                        minutes: digit as u32,
                        combo: Some(Combo { position: 1, instant_start: instant }),
                        ..*self
                    }
                }
            },
            SetupMessage::SwitchSeconds => {
                let seconds: u32 = if self.seconds < 15 {
                    30
                } else if self.seconds < 30 {
                    45
                } else if self.seconds < 45 {
                    15
                } else {
                    0
                };
                SetupView { seconds, combo: None, ..*self }
            },
            SetupMessage::IncrementMinutes => SetupView {
                minutes: (self.minutes + 1) % MINUTES_WRAP,
                combo: None,
                ..*self
            },
            SetupMessage::DecrementMinutes => SetupView {
                minutes: (self.minutes % MINUTES_WRAP + (MINUTES_WRAP - 1)) % MINUTES_WRAP,
                combo: None,
                ..*self
            },
        }
    }

    /// The message that `key`, pressed at `now`, sends to the setup screen.
    pub fn key_board_subscription(key: Key, now: Instant) -> (message: Option<SetupMessage>)
        ensures
            message == key_message(key, now),
            message matches Some(m) ==> m.wf(),
    {
        match key {
            Key::Enter => Some(SetupMessage::Okay),
            Key::Character(c) => {
                if c == '-' {
                    Some(SetupMessage::DecrementMinutes)
                } else if c == '+' {
                    Some(SetupMessage::IncrementMinutes)
                } else if c == '.' {
                    Some(SetupMessage::SwitchSeconds)
                } else {
                    match decimal_digit(c) {
                        Some(digit) => Some(SetupMessage::Combo { digit, instant: now }),
                        None => None,
                    }
                }
            },
            Key::Unidentified => None,
        }
    }

    /// The minutes and seconds as they are set.
    pub fn view(&self) -> (screen: Screen)
        ensures
            screen == (Screen::Time { minutes: self.minutes as u64, seconds: self.seconds as u64 }),
    {
        Screen::Time { minutes: self.minutes as u64, seconds: self.seconds as u64 }
    }

    /// Plus then minus, and minus then plus, give back the minutes they
    /// started from, wherever those lie below `MINUTES_WRAP`.
    pub proof fn lemma_increment_decrement_round_trip(self)
        requires
            self.minutes < MINUTES_WRAP,
        ensures
            self.spec_update(SetupMessage::IncrementMinutes).spec_update(
                SetupMessage::DecrementMinutes,
            ).minutes == self.minutes,
            self.spec_update(SetupMessage::DecrementMinutes).spec_update(
                SetupMessage::IncrementMinutes,
            ).minutes == self.minutes,
    {
    }

    /// Four times `SwitchSeconds` gives back the seconds it started from,
    /// and no fewer times do.
    pub proof fn lemma_switch_seconds_cycle(self)
        requires
            self.wf(),
        ensures
            self.spec_update(SetupMessage::SwitchSeconds).spec_update(
                SetupMessage::SwitchSeconds,
            ).spec_update(SetupMessage::SwitchSeconds).spec_update(
                SetupMessage::SwitchSeconds,
            ).seconds == self.seconds,
            self.spec_update(SetupMessage::SwitchSeconds).seconds != self.seconds,
            self.spec_update(SetupMessage::SwitchSeconds).spec_update(
                SetupMessage::SwitchSeconds,
            ).seconds != self.seconds,
            self.spec_update(SetupMessage::SwitchSeconds).spec_update(
                SetupMessage::SwitchSeconds,
            ).spec_update(SetupMessage::SwitchSeconds).seconds != self.seconds,
    {
    }
}

impl Default for SetupView {
    fn default() -> (view: SetupView)
        ensures
            view == SetupView::initial(),
    {
        SetupView { minutes: 5, seconds: 0, finished: false, combo: None }
    }
}

} // verus!
