//! When a torrent is scraped again. The schedule works on UNIX timestamps
//! with the arithmetic of `chrono`'s `DateTime<Utc>` and `TimeDelta`: a span
//! is whole seconds plus nanoseconds in `0..1_000_000_000`.

use vstd::prelude::*;

verus! {

/// The earliest second that a `DateTime<Utc>` can hold (1 January 262144 BCE).
pub const MIN_TIMESTAMP: i64 = -8334601315200;

/// The latest second that a `DateTime<Utc>` can hold (31 December 262142).
pub const MAX_TIMESTAMP: i64 = 8210266876799;

/// The longest wait between two scrapes: 365 days, in seconds.
pub const MAX_WAIT_SECS: i64 = 31536000;

/// Division that rounds toward zero, as Rust's integer division does.
pub open spec fn trunc_div(a: int, b: int) -> int {
    if a >= 0 {
        a / b
    } else {
        -((-a) / b)
    }
}

/// The whole minutes of a span, rounded toward zero (`TimeDelta::num_minutes`).
pub open spec fn span_minutes(secs: int, nanos: int) -> int {
    trunc_div(if secs < 0 && nanos > 0 { secs + 1 } else { secs }, 60)
}

/// The wait before clamping: the torrent's age when it is new, an hour when
/// it changed, else twice the last frequency (an hour when there was none).
pub open spec fn base_wait(
    new: bool,
    differs: bool,
    date: i64,
    update_frequency: Option<i32>,
    now_secs: i64,
    now_nanos: u32,
) -> (int, int) {
    if new {
        (now_secs - date, now_nanos as int)
    } else if differs {
        (3600, 0)
    } else {
        (
            (match update_frequency {
                Some(f) => f as int,
                None => 60,
            }) * 120,
            0,
        )
    }
}

/// The wait: the base wait, at most 365 days, and an hour where it is under
/// a minute in magnitude.
pub open spec fn wait_span(
    new: bool,
    differs: bool,
    date: i64,
    update_frequency: Option<i32>,
    now_secs: i64,
    now_nanos: u32,
) -> (int, int) {
    let b = base_wait(new, differs, date, update_frequency, now_secs, now_nanos);
    let c = if b.0 < MAX_WAIT_SECS {
        b
    } else {
        (MAX_WAIT_SECS as int, 0int)
    };
    if span_minutes(c.0, c.1) == 0 {
        (3600, 0)
    } else {
        c
    }
}

/// The second of the next scrape: now plus the wait.
pub open spec fn next_update_secs(
    new: bool,
    differs: bool,
    date: i64,
    update_frequency: Option<i32>,
    now_secs: i64,
    now_nanos: u32,
) -> int {
    let w = wait_span(new, differs, date, update_frequency, now_secs, now_nanos);
    now_secs + w.0 + (if now_nanos + w.1 >= 1_000_000_000 { 1int } else { 0int })
}

/// The wait is never longer than 365 days and never under a minute in
/// magnitude; it is positive unless the torrent's date lies in the future or
/// a stored frequency is negative.
pub proof fn lemma_wait_bounds(
    new: bool,
    differs: bool,
    date: i64,
    update_frequency: Option<i32>,
    now_secs: i64,
    now_nanos: u32,
)
    requires
        now_nanos < 1_000_000_000,
    ensures
        ({
            let w = wait_span(new, differs, date, update_frequency, now_secs, now_nanos);
            &&& w.0 <= MAX_WAIT_SECS
            &&& 0 <= w.1 < 1_000_000_000
            &&& span_minutes(w.0, w.1) != 0
            &&& (new ==> date <= now_secs) && (!new && !differs ==> (update_frequency matches Some(
                f,
            ) ==> f >= 0)) ==> w.0 >= 60
        }),
{
    let b = base_wait(new, differs, date, update_frequency, now_secs, now_nanos);
    let c = if b.0 < MAX_WAIT_SECS {
        b
    } else {
        (MAX_WAIT_SECS as int, 0int)
    };
    let whole = if c.0 < 0 && c.1 > 0 { c.0 + 1 } else { c.0 };
    if whole >= 0 && whole < 60 {
        assert(whole / 60 == 0);
    }
    if whole >= 60 {
        assert(whole / 60 >= 1);
    }
    if whole < 0 {
        assert((-whole) / 60 >= 0);
    }
}

/// The wait of an unchanged torrent that is not new, in seconds: twice its
/// stored frequency in minutes (an hour when none is stored), at most 365
/// days, and an hour where that comes to no whole minute.
pub open spec fn backoff_secs(update_frequency: Option<i32>) -> int {
    let f: int = match update_frequency {
        Some(f) => f as int,
        None => 60,
    };
    if 0 <= f && f < 1 {
        3600
    } else if 2 * f * 60 >= 31_536_000 {
        31_536_000
    } else {
        2 * f * 60
    }
}

/// The schedule in closed form. A torrent that changed waits an hour. An
/// unchanged torrent that is not new, with no stored frequency or one that is
/// not negative, waits twice its frequency (an hour without one), at most 365
/// days: the next scrape is now plus that, and the frequency stored next is
/// that wait in minutes. A new torrent waits its age, at most 365 days.
pub proof fn lemma_schedule_closed_form(
    new: bool,
    differs: bool,
    date: i64,
    update_frequency: Option<i32>,
    now_secs: i64,
    now_nanos: u32,
)
    requires
        now_nanos < 1_000_000_000,
    ensures
        !new && differs ==> next_update_secs(
            new,
            differs,
            date,
            update_frequency,
            now_secs,
            now_nanos,
        ) == now_secs + 3600 && ({
            let w = wait_span(new, differs, date, update_frequency, now_secs, now_nanos);
            span_minutes(w.0, w.1) == 60
        }),
        !new && !differs && (update_frequency matches Some(f) ==> f >= 0) ==> {
            &&& next_update_secs(new, differs, date, update_frequency, now_secs, now_nanos)
                == now_secs + backoff_secs(update_frequency)
            &&& ({
                let w = wait_span(new, differs, date, update_frequency, now_secs, now_nanos);
                span_minutes(w.0, w.1) == backoff_secs(update_frequency) / 60
            })
        },
        new && 60 <= now_secs - date < 31_536_000 ==> next_update_secs(
            new,
            differs,
            date,
            update_frequency,
            now_secs,
            now_nanos,
        ) == now_secs + (now_secs - date) + (if 2 * now_nanos >= 1_000_000_000 {
            1int
        } else {
            0int
        }),
        new && now_secs - date >= 31_536_000 ==> next_update_secs(
            new,
            differs,
            date,
            update_frequency,
            now_secs,
            now_nanos,
        ) == now_secs + 31_536_000,
{
    if !new && !differs {
        let f: int = match update_frequency {
            Some(f) => f as int,
            None => 60,
        };
        if f >= 1 && 2 * f * 60 < 31_536_000 {
            assert((2 * f * 60) / 60 == 2 * f) by (nonlinear_arith);
            assert(2 * f * 60 >= 60) by (nonlinear_arith)
                requires
                    f >= 1,
            ;
        }
    }
    if new && 60 <= now_secs - date < 31_536_000 {
        assert((now_secs - date) / 60 >= 1);
    }
}

/// The time inputs of the schedule lie where `chrono` can hold them: the
/// current time, and the torrent's date when the torrent is new.
pub open spec fn schedule_inputs_valid(new: bool, date: i64, now_secs: i64, now_nanos: u32) -> bool {
    &&& MIN_TIMESTAMP <= now_secs <= MAX_TIMESTAMP
    &&& now_nanos < 1_000_000_000
    &&& new ==> MIN_TIMESTAMP <= date <= MAX_TIMESTAMP
}

/// The wait (seconds, nanoseconds) and its whole minutes.
fn wait_of(
    new: bool,
    differs: bool,
    date: i64,
    update_frequency: Option<i32>,
    now_secs: i64,
    now_nanos: u32,
) -> (r: (i64, i64, i64))
    requires
        schedule_inputs_valid(new, date, now_secs, now_nanos),
    ensures
        (r.0 as int, r.1 as int) == wait_span(
            new,
            differs,
            date,
            update_frequency,
            now_secs,
            now_nanos,
        ),
        r.2 == span_minutes(r.0 as int, r.1 as int),
        MIN_TIMESTAMP - MAX_TIMESTAMP <= r.0 <= MAX_WAIT_SECS,
        0 <= r.1 < 1_000_000_000,
        -600_000_000_000 <= r.2 <= 525_600,
{
    proof {
        lemma_wait_bounds(new, differs, date, update_frequency, now_secs, now_nanos);
    }
    let (mut secs, mut nanos): (i64, i64) = if new {
        (now_secs - date, now_nanos as i64)
    } else if differs {
        (3600, 0)
    } else {
        let f: i64 = match update_frequency {
            Some(f) => f as i64,
            None => 60,
        };
        (f * 120, 0)
    };
    if secs >= MAX_WAIT_SECS {
        secs = MAX_WAIT_SECS;
        nanos = 0;
    }
    let whole: i64 = if secs < 0 && nanos > 0 {
        secs + 1
    } else {
        secs
    };
    let minutes: i64 = if whole >= 0 {
        whole / 60
    } else {
        -((-whole) / 60)
    };
    if minutes == 0 {
        (3600, 0, 60)
    } else {
        (secs, nanos, minutes)
    }
}

/// The next scrape of a torrent and the wait in minutes, given whether the
/// torrent is new to the archive, whether it changed, its date, its last
/// frequency, and the current time (seconds and nanoseconds).
pub fn next_update_algo(
    new: bool,
    differs: bool,
    date: i64,
    update_frequency: Option<i32>,
    now_secs: i64,
    now_nanos: u32,
) -> (r: (i64, i32))
    requires
        schedule_inputs_valid(new, date, now_secs, now_nanos),
        MIN_TIMESTAMP <= next_update_secs(new, differs, date, update_frequency, now_secs, now_nanos)
            <= MAX_TIMESTAMP,
    ensures
        r.0 == next_update_secs(new, differs, date, update_frequency, now_secs, now_nanos),
        ({
            let w = wait_span(new, differs, date, update_frequency, now_secs, now_nanos);
            r.1 == span_minutes(w.0, w.1) as i32
        }),
        r.0 <= now_secs + MAX_WAIT_SECS + 1,
        (new ==> date <= now_secs) && (!new && !differs ==> (update_frequency matches Some(f)
            ==> f >= 0)) ==> r.0 > now_secs,
{
    proof {
        lemma_wait_bounds(new, differs, date, update_frequency, now_secs, now_nanos);
    }
    let (secs, nanos, minutes) = wait_of(new, differs, date, update_frequency, now_secs, now_nanos);
    let carry: i64 = if now_nanos as i64 + nanos >= 1_000_000_000 {
        1
    } else {
        0
    };
    (now_secs + secs + carry, minutes as i32)
}

/// The schedule where `chrono` can compute it: `None` exactly where the
/// current time or a new torrent's date is out of its range, or the next
/// scrape would be; else what [`next_update_algo`] gives.
pub fn next_update_checked(
    new: bool,
    differs: bool,
    date: i64,
    update_frequency: Option<i32>,
    now_secs: i64,
    now_nanos: u32,
) -> (r: Option<(i64, i32)>)
    ensures
        r is Some <==> schedule_inputs_valid(new, date, now_secs, now_nanos) && MIN_TIMESTAMP
            <= next_update_secs(new, differs, date, update_frequency, now_secs, now_nanos)
            <= MAX_TIMESTAMP,
        r matches Some(p) ==> {
            let w = wait_span(new, differs, date, update_frequency, now_secs, now_nanos);
            &&& p.0 == next_update_secs(new, differs, date, update_frequency, now_secs, now_nanos)
            &&& p.1 == span_minutes(w.0, w.1) as i32
        },
{
    if !(MIN_TIMESTAMP <= now_secs && now_secs <= MAX_TIMESTAMP && now_nanos < 1_000_000_000) {
        return None;
    }
    if new && !(MIN_TIMESTAMP <= date && date <= MAX_TIMESTAMP) {
        return None;
    }
    let (secs, nanos, _minutes) = wait_of(new, differs, date, update_frequency, now_secs, now_nanos);
    let carry: i64 = if now_nanos as i64 + nanos >= 1_000_000_000 {
        1
    } else {
        0
    };
    let next: i64 = now_secs + secs + carry;
    if next < MIN_TIMESTAMP || next > MAX_TIMESTAMP {
        return None;
    }
    Some(next_update_algo(new, differs, date, update_frequency, now_secs, now_nanos))
}

} // verus!
