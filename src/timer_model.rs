//! The countdown behind a uniform message interface.

use vstd::prelude::*;
use vstd::string::StringExecFns;
use crate::timer::{Timer, TimerState};

verus! {

/// Length of a pomodoro that nothing has configured: 25 minutes.
pub const DEFAULT_POMODORO_SECONDS: u32 = 1500;

/// A command for the countdown.
#[derive(Debug, Clone, Copy, PartialEq, Eq, Structural)]
pub enum TimerMsg {
    Start,
    Pause,
    Reset,
    Tick,
}

/// The decimal digits of `n`, most significant first, without leading zeros.
pub open spec fn decimal(n: nat) -> Seq<char>
    decreases n,
{
    if n < 10 {
        seq!["0123456789"@[n as int]]
    } else {
        decimal(n / 10) + seq!["0123456789"@[(n % 10) as int]]
    }
}

/// `n` in decimal, padded with a leading zero to at least two digits.
pub open spec fn two_digits(n: nat) -> Seq<char> {
    if n < 10 {
        seq!['0'] + decimal(n)
    } else {
        decimal(n)
    }
}

/// Seconds shown as minutes and seconds, `MM:SS`.
pub open spec fn clock_text(seconds: nat) -> Seq<char> {
    two_digits(seconds / 60) + seq![':'] + two_digits(seconds % 60)
}

/// The digit `d` as text.
fn digit_text(d: u32) -> (t: &'static str)
    requires
        d < 10,
    ensures
        t@ == seq!["0123456789"@[d as int]],
{
    proof {
        reveal_strlit("0123456789");
    }
    match d {
        0 => {
            proof {
                reveal_strlit("0");
            }
            "0"
        },
        1 => {
            proof {
                reveal_strlit("1");
            }
            "1"
        },
        2 => {
            proof {
                reveal_strlit("2");
            }
            "2"
        },
        3 => {
            proof {
                reveal_strlit("3");
            }
            "3"
        },
        4 => {
            proof {
                reveal_strlit("4");
            }
            "4"
        },
        5 => {
            proof {
                reveal_strlit("5");
            }
            "5"
        },
        6 => {
            proof {
                reveal_strlit("6");
            }
            "6"
        },
        7 => {
            proof {
                reveal_strlit("7");
            }
            "7"
        },
        8 => {
            proof {
                reveal_strlit("8");
            }
            "8"
        },
        _ => {
            proof {
                reveal_strlit("9");
            }
            "9"
        },
    }
}

/// Appends `n` in decimal.
fn append_decimal(out: &mut String, n: u32)
    ensures
        final(out)@ == old(out)@ + decimal(n as nat),
    decreases n,
{
    if n >= 10 {
        append_decimal(out, n / 10);
    }
    out.append(digit_text(n % 10));
}

/// Appends `n` in decimal, with a leading zero below ten.
fn append_two_digits(out: &mut String, n: u32)
    ensures
        final(out)@ == old(out)@ + two_digits(n as nat),
{
    if n < 10 {
        proof {
            reveal_strlit("0");
        }
        out.append("0");
    }
    append_decimal(out, n);
    assert(out@ =~= old(out)@ + two_digits(n as nat));
}

impl TimerMsg {
    /// What the message does to the countdown.
    pub open spec fn apply(self, s: TimerState) -> TimerState {
        match self {
            TimerMsg::Start => s.start(),
            TimerMsg::Pause => s.pause(),
            TimerMsg::Reset => s.reset(),
            TimerMsg::Tick => s.tick(),
        }
    }
}

/// Owns one countdown and dispatches messages onto it.
pub struct TimerModel {
    timer: Timer,
}

impl View for TimerModel {
    type V = TimerState;

    closed spec fn view(&self) -> TimerState {
        self.timer@
    }
}

impl TimerModel {
    /// A stopped countdown of one default pomodoro.
    pub fn init() -> (m: TimerModel)
        ensures
            m@ == TimerState::initial().set_duration(DEFAULT_POMODORO_SECONDS as nat),
    {
        let mut timer = Timer::new();
        timer.set_duration(DEFAULT_POMODORO_SECONDS);
        TimerModel { timer }
    }

    pub fn get_duration(&self) -> (d: u32)
        ensures
            d == self@.duration,
    {
        self.timer.get_total_duration()
    }

    pub fn get_remaining(&self) -> (r: u32)
        ensures
            r == self@.remaining,
            self@.inv(),
    {
        self.timer.get_remaining()
    }

    pub fn is_running(&self) -> (b: bool)
        ensures
            b == self@.running,
    {
        self.timer.is_running()
    }

    pub fn set_duration(&mut self, duration: u32)
        ensures
            final(self)@ == old(self)@.set_duration(duration as nat),
    {
        self.timer.set_duration(duration);
    }

    /// `seconds` as the display shows it: minutes, a colon, seconds, each
    /// with at least two digits.
    pub fn format_time(seconds: u32) -> (t: String)
        ensures
            t@ == clock_text(seconds as nat),
    {
        let mut text = String::new();
        append_two_digits(&mut text, seconds / 60);
        proof {
            reveal_strlit(":");
        }
        text.append(":");
        append_two_digits(&mut text, seconds % 60);
        assert(text@ =~= clock_text(seconds as nat));
        text
    }

    /// Applies one message to the countdown; no command ever comes back.
    pub fn update(&mut self, msg: TimerMsg) -> (r: Option<()>)
        ensures
            final(self)@ == msg.apply(old(self)@),
            r.is_none(),
    {
        match msg {
            TimerMsg::Start => {
                self.timer.start();
                None
            },
            TimerMsg::Pause => {
                self.timer.pause();
                None
            },
            TimerMsg::Reset => {
                self.timer.reset();
                None
            },
            TimerMsg::Tick => {
                self.timer.tick();
                None
            },
        }
    }
}

} // verus!
