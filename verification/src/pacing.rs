//! Timing of the frames and of the sound track.
//!
//! Each frame is shown for five seconds. The time that the bot could not
//! wait (because the work for a frame overran its five seconds) is owed,
//! and paid back by sleeping less on later frames.

use vstd::prelude::*;
use crate::decimal::{law_signed_decimal_reads_back, push_signed_decimal, signed_decimal, writes_integer};

verus! {

/// How long a frame stays on screen, in milliseconds.
pub const FRAME_MILLIS: u64 = 5000;

/// The time one `!sync` command adds, in milliseconds.
pub const SYNC_STEP_MILLIS: u64 = 100;

/// The larger of `x` and 0.
pub open spec fn at_least_zero(x: int) -> int {
    if x > 0 {
        x
    } else {
        0
    }
}

/// Pays owed time out of a sleep: returns the new sleep and the new owed
/// time. A negative sleep is added to the debt and kept as it is. Otherwise
/// a positive debt is set against the sleep: what is left of the sleep, and
/// what is left of the debt; a debt that is not positive is left alone.
pub open spec fn compensate(to_sleep: int, owed: int) -> (int, int) {
    if to_sleep < 0 {
        (to_sleep, owed - to_sleep)
    } else if owed > 0 {
        (at_least_zero(to_sleep - owed), at_least_zero(owed - to_sleep))
    } else {
        (to_sleep, owed)
    }
}

/// Executable `compensate`.
pub fn compensate_sleep(to_sleep: i128, to_compensate_for: i128) -> (res: (i128, i128))
    requires
        to_sleep < 0 ==> to_compensate_for - to_sleep <= i128::MAX,
    ensures
        (res.0 as int, res.1 as int) == compensate(to_sleep as int, to_compensate_for as int),
{
    let mut to_sleep = to_sleep;
    let mut to_compensate_for = to_compensate_for;
    if to_sleep < 0 {
        to_compensate_for = to_compensate_for - to_sleep;
    } else if to_compensate_for > 0 {
        if to_sleep - to_compensate_for >= 0 {
            to_sleep = to_sleep - to_compensate_for;
            to_compensate_for = 0;
        } else {
            to_compensate_for = to_compensate_for - to_sleep;
            to_sleep = 0;
        }
    }
    (to_sleep, to_compensate_for)
}

/// Paying owed time out of a sleep that is not negative keeps the balance
/// (sleep minus debt), leaves neither part negative when the debt was not
/// negative, and leaves at most one of them positive.
pub proof fn law_compensation_keeps_balance(to_sleep: int, owed: int)
    requires
        to_sleep >= 0,
    ensures
        compensate(to_sleep, owed).0 - compensate(to_sleep, owed).1 == to_sleep - owed,
        compensate(to_sleep, owed).0 >= 0,
        owed >= 0 ==> compensate(to_sleep, owed).1 >= 0,
        owed > 0 ==> compensate(to_sleep, owed).0 == 0 || compensate(to_sleep, owed).1 == 0,
{
}

/// A sleep that is negative (the frame overran) is added in full to the
/// debt, and the sleep itself is left as it is.
pub proof fn law_overrun_becomes_debt(to_sleep: int, owed: int)
    requires
        to_sleep < 0,
    ensures
        compensate(to_sleep, owed) == (to_sleep, owed - to_sleep),
        compensate(to_sleep, owed).1 > owed,
{
}

/// Time is never owed back to the bot: a debt that is not negative stays
/// not negative through a frame, whatever the frame's sleep and commands.
pub proof fn law_debt_never_negative(to_sleep: int, owed: i128, sync_video: bool)
    requires
        owed >= 0,
    ensures
        compensate(to_sleep, raw_debt(owed, sync_video)).1 >= 0,
{
}

/// The sleep planned for a frame before any debt is paid: what is left of
/// the frame's five seconds after `elapsed` milliseconds of work, plus what a
/// `!sync aud` adds, minus the time the commands took.
pub open spec fn raw_sleep(elapsed: u64, sync_audio: bool, command_time: u64) -> int {
    FRAME_MILLIS - elapsed + (if sync_audio { SYNC_STEP_MILLIS as int } else { 0 }) - command_time
}

/// The debt before it is paid: the old debt plus what a `!sync vid` adds.
pub open spec fn raw_debt(owed: i128, sync_video: bool) -> int {
    owed + (if sync_video { SYNC_STEP_MILLIS as int } else { 0 })
}

/// The status text with the numerals `owed` and `slept` filled in.
pub open spec fn status_line(owed: Seq<char>, slept: Seq<char>) -> Seq<char> {
    "<ProjBotV3 by TudbuT#2624> Image will appear below [to_compensate_for="@ + owed
        + ", free_time="@ + slept + "]"@
}

/// The bookkeeping of the frame timing.
pub struct Pacer {
    /// Time owed, in milliseconds.
    pub to_compensate_for: i128,
    /// The sleep chosen for the last frame, in milliseconds.
    pub free_time: i128,
}

impl Pacer {
    /// No debt and no sleep yet.
    pub fn new() -> (p: Pacer)
        ensures
            p.to_compensate_for == 0,
            p.free_time == 0,
    {
        Pacer { to_compensate_for: 0, free_time: 0 }
    }

    /// Chooses the sleep after a frame: `elapsed` is the time since the last
    /// frame was shown, `sync_video` and `sync_audio` tell which `!sync`
    /// commands came in, `command_time` is how long answering them took.
    /// Returns the sleep, which is also kept as `free_time`.
    pub fn plan(&mut self, elapsed: u64, sync_video: bool, sync_audio: bool, command_time: u64) -> (to_sleep: i128)
        requires
            raw_debt(old(self).to_compensate_for, sync_video) <= i128::MAX,
            raw_sleep(elapsed, sync_audio, command_time) < 0 ==> raw_debt(
                old(self).to_compensate_for,
                sync_video,
            ) - raw_sleep(elapsed, sync_audio, command_time) <= i128::MAX,
        ensures
            (to_sleep as int, final(self).to_compensate_for as int) == compensate(
                raw_sleep(elapsed, sync_audio, command_time),
                raw_debt(old(self).to_compensate_for, sync_video),
            ),
            final(self).free_time == to_sleep,
    {
        let mut to_sleep: i128 = 5000i128 - (elapsed as i128);
        if sync_video {
            self.to_compensate_for = self.to_compensate_for + 100;
        }
        if sync_audio {
            to_sleep = to_sleep + 100;
        }
        to_sleep = to_sleep - (command_time as i128);
        let (sleep, owed) = compensate_sleep(to_sleep, self.to_compensate_for);
        self.to_compensate_for = owed;
        self.free_time = sleep;
        sleep
    }

    /// The text shown on the message while the next frame uploads, which
    /// reports the debt and the last sleep.
    pub fn status_text(&self) -> (s: String)
        ensures
            s@ == "<ProjBotV3 by TudbuT#2624> Image will appear below [to_compensate_for="@
                + signed_decimal(self.to_compensate_for as int) + ", free_time="@ + signed_decimal(
                self.free_time as int,
            ) + "]"@,
            exists|owed: Seq<char>, slept: Seq<char>|
                writes_integer(owed, self.to_compensate_for as int) && writes_integer(
                    slept,
                    self.free_time as int,
                ) && s@ == #[trigger] status_line(owed, slept),
    {
        proof {
            law_signed_decimal_reads_back(self.to_compensate_for as int);
            law_signed_decimal_reads_back(self.free_time as int);
        }
        let mut s = String::new();
        s.append("<ProjBotV3 by TudbuT#2624> Image will appear below [to_compensate_for=");
        push_signed_decimal(&mut s, self.to_compensate_for);
        s.append(", free_time=");
        push_signed_decimal(&mut s, self.free_time);
        s.append("]");
        assert(s@ == status_line(
            signed_decimal(self.to_compensate_for as int),
            signed_decimal(self.free_time as int),
        ));
        s
    }
}

/// The planned sleep of a frame minus the time set aside for a large
/// upload, as the number of milliseconds to wait. The sleep is taken as a
/// `u64` the way a cast takes it (a negative sleep wraps around).
pub fn sleep_millis(to_sleep: i128, size_compensation: u64) -> (ms: u64)
    requires
        (to_sleep as u64) >= size_compensation,
    ensures
        ms == (to_sleep as u64) - size_compensation,
{
    (to_sleep as u64) - size_compensation
}

/// How long the sound track waits before it plays: the rest of the first
/// frame's five seconds after `elapsed` milliseconds, plus the time the
/// chat service took to create the voice channel (`api_time`) scaled by
/// `factor`.
pub fn audio_delay(elapsed: u64, api_time: u64, factor: i64) -> (ms: u64)
    requires
        elapsed <= FRAME_MILLIS,
        i64::MIN <= (api_time as i64) * factor <= i64::MAX,
        FRAME_MILLIS - elapsed + (((api_time as i64) * factor) as u64) <= u64::MAX,
    ensures
        ms == FRAME_MILLIS - elapsed + (((api_time as i64) * factor) as u64),
{
    let scaled: i64 = (api_time as i64) * factor;
    (5000 - elapsed) + (scaled as u64)
}

/// The value of a decimal digit character.
pub open spec fn digit_value(c: char) -> int {
    c as int - 48
}

/// Whether a character is an ASCII decimal digit.
pub open spec fn is_digit(c: char) -> bool {
    '0' <= c && c <= '9'
}

/// The number that a sequence of decimal digits writes.
pub open spec fn digits_value(digits: Seq<char>) -> int
    decreases digits.len(),
{
    if digits.len() == 0 {
        0
    } else {
        digits_value(digits.drop_last()) * 10 + digit_value(digits.last())
    }
}

/// The integer that a text reads as, following the grammar of `i64`'s
/// `FromStr`: an optional `+` or `-`, then one or more ASCII digits and
/// nothing else; `None` when the text does not follow it or the value does
/// not fit an `i64`.
pub open spec fn i64_from_text(s: Seq<char>) -> Option<i64> {
    let negative = s.len() > 0 && s[0] == '-';
    let digits = if s.len() > 0 && (s[0] == '-' || s[0] == '+') {
        s.drop_first()
    } else {
        s
    };
    let value = if negative {
        -digits_value(digits)
    } else {
        digits_value(digits)
    };
    if digits.len() > 0 && (forall|i: int| 0 <= i < digits.len() ==> is_digit(#[trigger] digits[i]))
        && i64::MIN <= value <= i64::MAX {
        Some(value as i64)
    } else {
        None
    }
}

/// Calls `str::parse::<i64>`. As its documentation says, it reads an
/// optional sign and then only digits, and fails on any other text or when
/// the value overflows.
#[verifier::external_body]
fn parse_i64(s: &str) -> (res: Option<i64>)
    ensures
        res == i64_from_text(s@),
{
    s.parse::<i64>().ok()
}

/// The factor by which the voice channel's creation time scales the sound
/// track's delay: the configured text read as an `i64`, or 5 when nothing is
/// configured. `None` when the configured text is not a number.
pub fn time_factor(setting: Option<&str>) -> (res: Option<i64>)
    ensures
        res == i64_from_text(
            match setting {
                Some(s) => s@,
                None => "5"@,
            },
        ),
{
    match setting {
        Some(s) => parse_i64(s),
        None => parse_i64("5"),
    }
}

} // verus!
