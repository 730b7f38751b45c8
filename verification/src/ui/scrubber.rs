//! The replay scrubber line: mode and state badges, speed, loop mark, the
//! progress track sized to the terminal, the frame counter with the time
//! elapsed since the first frame, and the keys when there is room. The
//! percentage itself is computed by the caller (in floating point): it
//! hands over how many track cells are filled and the printed percentage.
use vstd::prelude::*;
use crate::app::Replay;
use crate::navigation::speed_label;
use crate::text::{decimal, push_char, push_decimal, push_str};

verus! {

/// A number printed with at least two digits (`{:02}`).
pub open spec fn two_digits(n: nat) -> Seq<char> {
    if n < 10 {
        "0"@ + decimal(n)
    } else {
        decimal(n)
    }
}

/// Time since the first frame: `+mm:ss` from a minute on, else `+Ns`.
pub open spec fn elapsed_text(delta: nat) -> Seq<char> {
    if delta / 60 > 0 {
        "+"@ + two_digits(delta / 60) + ":"@ + two_digits(delta % 60)
    } else {
        "+"@ + decimal(delta % 60) + "s"@
    }
}

/// Seconds of server uptime between the first frame and the current one
/// (none when the current frame does not exist).
pub open spec fn frame_delta(r: Replay) -> Option<nat> {
    if r.current_idx < r.frames@.len() {
        let first = (*r.frames@[0]).uptime_secs;
        let curr = (*r.frames@[r.current_idx as int]).uptime_secs;
        Some(if curr >= first { (curr - first) as nat } else { 0 })
    } else {
        None
    }
}

/// Cells of the progress track: 24 from 120 columns, 16 from 90, else 8.
pub open spec fn track_width(width: int) -> nat {
    if width >= 120 {
        24
    } else if width >= 90 {
        16
    } else {
        8
    }
}

pub open spec fn repeat_char(c: char, n: nat) -> Seq<char> {
    Seq::new(n, |i: int| c)
}

/// The progress track with `filled` cells (at most the track) filled.
pub open spec fn track_text(width: int, filled: nat) -> Seq<char> {
    let w = track_width(width);
    let f = if filled < w { filled } else { w };
    "["@ + repeat_char('\u{2588}', f) + repeat_char('\u{2591}', (w - f) as nat) + "] "@
}

/// The whole scrubber line.
pub open spec fn scrubber_text(r: Replay, width: int, filled: nat, pct: Seq<char>) -> Seq<char> {
    " REPLAY "@ + (if r.is_paused { " PAUSED "@ } else { " PLAY "@ }) + " "@ + speed_label(r.speed_exp as int)
        + " "@ + (if r.loop_playback { "LOOP "@ } else { Seq::empty() }) + track_text(width, filled) + pct
        + "%"@ + " \u{2502} "@ + "Frame "@ + decimal(r.current_idx as nat + 1) + "/"@ + decimal(
        r.frames@.len(),
    ) + " ("@ + (match frame_delta(r) {
        Some(d) => elapsed_text(d),
        None => "+0s"@,
    }) + ")"@ + (if width >= 100 {
        " \u{2502} Space: play \u{2190}/\u{2192}: scrub"@
    } else {
        Seq::empty()
    }) + (if width >= 120 { " [/]: speed l: loop"@ } else { Seq::empty() })
}

fn push_two_digits(out: &mut String, n: u64)
    ensures
        final(out)@ == old(out)@ + two_digits(n as nat),
{
    if n < 10 {
        push_str(out, "0");
    }
    push_decimal(out, n as u128);
    assert(final(out)@ =~= old(out)@ + two_digits(n as nat));
}

fn push_elapsed(out: &mut String, delta: u64)
    ensures
        final(out)@ == old(out)@ + elapsed_text(delta as nat),
{
    let mm = delta / 60;
    let ss = delta % 60;
    push_str(out, "+");
    if mm > 0 {
        push_two_digits(out, mm);
        push_str(out, ":");
        push_two_digits(out, ss);
    } else {
        push_decimal(out, ss as u128);
        push_str(out, "s");
    }
    assert(final(out)@ =~= old(out)@ + elapsed_text(delta as nat));
}

fn push_repeat(out: &mut String, c: char, n: usize)
    ensures
        final(out)@ == old(out)@ + repeat_char(c, n as nat),
{
    let ghost start = out@;
    let mut i: usize = 0;
    while i < n
        invariant
            0 <= i <= n,
            out@ == start + repeat_char(c, i as nat),
        decreases n - i,
    {
        push_char(out, c);
        i = i + 1;
        assert(out@ =~= start + repeat_char(c, i as nat));
    }
}

fn push_speed(out: &mut String, e: i8)
    ensures
        final(out)@ == old(out)@ + speed_label(e as int),
{
    if e <= -2 {
        push_str(out, "0.25x");
    } else if e == -1 {
        push_str(out, "0.50x");
    } else if e == 0 {
        push_str(out, "1.00x");
    } else if e == 1 {
        push_str(out, "2.00x");
    } else if e == 2 {
        push_str(out, "4.00x");
    } else if e == 3 {
        push_str(out, "8.00x");
    } else {
        push_str(out, "16.00x");
    }
}

fn push_track(out: &mut String, width: u16, filled: usize)
    ensures
        final(out)@ == old(out)@ + track_text(width as int, filled as nat),
{
    let w: usize = if width >= 120 {
        24
    } else if width >= 90 {
        16
    } else {
        8
    };
    let f = if filled < w { filled } else { w };
    push_str(out, "[");
    push_repeat(out, '\u{2588}', f);
    push_repeat(out, '\u{2591}', w - f);
    push_str(out, "] ");
    assert(final(out)@ =~= old(out)@ + track_text(width as int, filled as nat));
}

fn push_counter(out: &mut String, r: &Replay)
    ensures
        final(out)@ == old(out)@ + "Frame "@ + decimal(r.current_idx as nat + 1) + "/"@ + decimal(r.frames@.len())
            + " ("@ + (match frame_delta(*r) {
            Some(d) => elapsed_text(d),
            None => "+0s"@,
        }) + ")"@,
{
    push_str(out, "Frame ");
    push_decimal(out, r.current_idx as u128 + 1);
    push_str(out, "/");
    push_decimal(out, r.frames.len() as u128);
    push_str(out, " (");
    if r.current_idx < r.frames.len() {
        let first = r.frames[0].uptime_secs;
        let curr = r.frames[r.current_idx].uptime_secs;
        let delta: u64 = if curr >= first { curr - first } else { 0 };
        push_elapsed(out, delta);
    } else {
        push_str(out, "+0s");
    }
    push_str(out, ")");
    assert(final(out)@ =~= old(out)@ + "Frame "@ + decimal(r.current_idx as nat + 1) + "/"@ + decimal(
        r.frames@.len(),
    ) + " ("@ + (match frame_delta(*r) {
        Some(d) => elapsed_text(d),
        None => "+0s"@,
    }) + ")"@);
}

/// The scrubber line for `replay` on a terminal `width` columns wide,
/// with `filled` track cells filled and `pct` the printed percentage.
pub fn scrubber_line(replay: &Replay, width: u16, filled: usize, pct: &str) -> (r: String)
    ensures
        r@ == scrubber_text(*replay, width as int, filled as nat, pct@),
{
    let mut out = String::new();
    push_str(&mut out, " REPLAY ");
    if replay.is_paused {
        push_str(&mut out, " PAUSED ");
    } else {
        push_str(&mut out, " PLAY ");
    }
    push_str(&mut out, " ");
    push_speed(&mut out, replay.speed_exp);
    push_str(&mut out, " ");
    if replay.loop_playback {
        push_str(&mut out, "LOOP ");
    }
    push_track(&mut out, width, filled);
    push_str(&mut out, pct);
    push_str(&mut out, "%");
    push_str(&mut out, " \u{2502} ");
    push_counter(&mut out, replay);
    if width >= 100 {
        push_str(&mut out, " \u{2502} Space: play \u{2190}/\u{2192}: scrub");
    }
    if width >= 120 {
        push_str(&mut out, " [/]: speed l: loop");
    }
    assert(out@ =~= scrubber_text(*replay, width as int, filled as nat, pct@));
    out
}

} // verus!
