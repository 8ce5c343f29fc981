use vstd::prelude::*;

verus! {

/// Percentage of completion, floored. Progress beyond the target counts as
/// complete, and a zero target is the degenerate "nothing to do" case and
/// also counts as complete.
pub open spec fn percent_spec(progress: int, total: int) -> int {
    if total <= 0 {
        100
    } else if progress >= total {
        100
    } else {
        progress * 100 / total
    }
}

/// Number of filled track cells for a given percentage and track width.
pub open spec fn filled_spec(percent: int, width: int) -> int {
    percent * width / 100
}

/// Progress clamped to the target.
pub open spec fn clamp_spec(progress: int, total: int) -> int {
    if progress >= total {
        total
    } else {
        progress
    }
}

/// Mean throughput in units per second, measured over `elapsed_ms`
/// milliseconds. A zero elapsed time is lifted to one millisecond so the
/// very first tick never divides by zero, and the result saturates at
/// `u64::MAX`.
pub open spec fn speed_spec(progress: int, elapsed_ms: int) -> int {
    let ms = if elapsed_ms <= 0 { 1int } else { elapsed_ms };
    let raw = progress * 1000 / ms;
    if raw > u64::MAX { u64::MAX as int } else { raw }
}

/// Estimated seconds until completion: remaining work over mean throughput,
/// zero while no throughput has been measured.
pub open spec fn eta_spec(remaining: int, speed: int) -> int {
    if speed <= 0 {
        0
    } else {
        remaining / speed
    }
}

/// Unit in which a throughput value is displayed.
#[derive(Copy, Clone, Debug, PartialEq, Eq, Structural)]
pub enum ThroughputUnit {
    Bps,
    KBps,
    MBps,
}

/// Display unit for a speed in units per second: bytes below 1024,
/// kilobytes below 1024 * 1024, megabytes from there on.
pub open spec fn unit_spec(speed: int) -> ThroughputUnit {
    if speed < 1024 {
        ThroughputUnit::Bps
    } else if speed < 1024 * 1024 {
        ThroughputUnit::KBps
    } else {
        ThroughputUnit::MBps
    }
}

/// Displayed throughput value in hundredths of the display unit.
pub open spec fn disp_spec(speed: int) -> int {
    if speed < 1024 {
        speed * 100
    } else if speed < 1024 * 1024 {
        speed * 100 / 1024
    } else {
        speed * 100 / (1048576 as int)
    }
}

/// Completion percentage for `progress` of `total` units of work.
pub fn percent_of(progress: usize, total: usize) -> (p: u32)
    ensures
        p == percent_spec(progress as int, total as int),
        p <= 100,
{
    if total == 0 {
        100
    } else if progress >= total {
        100
    } else {
        let wide: u128 = (progress as u128) * 100 / (total as u128);
        proof {
            let p = progress as int;
            let t = total as int;
            assert(p * 100 / t < 100) by (nonlinear_arith)
                requires 0 < t, 0 <= p < t;
            assert(p * 100 / t >= 0) by (nonlinear_arith)
                requires 0 < t, 0 <= p;
        }
        wide as u32
    }
}

/// Number of filled track cells at `percent` of a `width`-cell track.
pub fn filled_of(percent: u32, width: usize) -> (f: usize)
    requires
        percent <= 100,
    ensures
        f == filled_spec(percent as int, width as int),
        f <= width,
{
    proof {
        assert((percent as int) * (width as int) <= 100 * usize::MAX) by (nonlinear_arith)
            requires 0 <= percent <= 100, 0 <= width <= usize::MAX;
    }
    let wide: u128 = (percent as u128) * (width as u128) / 100;
    proof {
        let p = percent as int;
        let w = width as int;
        assert(p * w / 100 <= w) by (nonlinear_arith)
            requires 0 <= p <= 100, 0 <= w;
        assert(p * w / 100 >= 0) by (nonlinear_arith)
            requires 0 <= p, 0 <= w;
    }
    wide as usize
}

/// Mean throughput in units per second over `elapsed_ms` milliseconds,
/// saturating at `u64::MAX`.
pub fn speed_of(progress: usize, elapsed_ms: u64) -> (s: u64)
    ensures
        s == speed_spec(progress as int, elapsed_ms as int),
{
    let ms: u64 = if elapsed_ms == 0 { 1 } else { elapsed_ms };
    let raw: u128 = (progress as u128) * 1000 / (ms as u128);
    proof {
        let p = progress as int;
        let m = ms as int;
        assert(p * 1000 / m >= 0) by (nonlinear_arith)
            requires 0 <= p, 0 < m;
        assert(p * 1000 / m <= p * 1000) by (nonlinear_arith)
            requires 0 <= p, 0 < m;
    }
    if raw > u64::MAX as u128 {
        u64::MAX
    } else {
        raw as u64
    }
}

/// Estimated seconds until completion.
pub fn eta_of(remaining: usize, speed: u64) -> (e: u64)
    requires
        remaining <= u64::MAX,
    ensures
        e == eta_spec(remaining as int, speed as int),
{
    if speed == 0 {
        0
    } else {
        let r: u64 = remaining as u64;
        r / speed
    }
}

/// Throughput display value (in hundredths of the unit) and unit for a
/// speed in units per second.
pub fn throughput_of(speed: u64) -> (d: (u128, ThroughputUnit))
    ensures
        d.0 == disp_spec(speed as int),
        d.1 == unit_spec(speed as int),
{
    if speed < 1024 {
        ((speed as u128) * 100, ThroughputUnit::Bps)
    } else if speed < 1024 * 1024 {
        ((speed as u128) * 100 / 1024, ThroughputUnit::KBps)
    } else {
        ((speed as u128) * 100 / (1024 * 1024), ThroughputUnit::MBps)
    }
}

impl ThroughputUnit {
    /// Label under which the unit is displayed.
    pub fn label(self) -> (s: &'static str)
        ensures
            s@ == unit_label_spec(self),
    {
        match self {
            ThroughputUnit::Bps => "B/s",
            ThroughputUnit::KBps => "KB/s",
            ThroughputUnit::MBps => "MB/s",
        }
    }
}

/// Label under which a throughput unit is displayed.
pub open spec fn unit_label_spec(u: ThroughputUnit) -> Seq<char> {
    match u {
        ThroughputUnit::Bps => "B/s"@,
        ThroughputUnit::KBps => "KB/s"@,
        ThroughputUnit::MBps => "MB/s"@,
    }
}

/// The percentage is always between 0 and 100, whatever the progress and
/// target.
pub proof fn lemma_percent_bounds(progress: int, total: int)
    requires
        0 <= progress,
    ensures
        0 <= percent_spec(progress, total) <= 100,
{
    if total > 0 && progress < total {
        assert(progress * 100 / total < 100) by (nonlinear_arith)
            requires 0 < total, 0 <= progress < total;
        assert(progress * 100 / total >= 0) by (nonlinear_arith)
            requires 0 < total, 0 <= progress;
    }
}

/// The percentage never decreases as progress increases.
pub proof fn lemma_percent_monotonic(p1: int, p2: int, total: int)
    requires
        0 <= p1 <= p2,
    ensures
        percent_spec(p1, total) <= percent_spec(p2, total),
{
    if total > 0 && p2 < total {
        assert(p1 * 100 / total <= p2 * 100 / total) by (nonlinear_arith)
            requires 0 < total, 0 <= p1 <= p2;
    } else if total > 0 && p1 < total {
        lemma_percent_bounds(p1, total);
    }
}

/// Progress that reaches the target always shows a full bar: the
/// percentage is 100 and every track cell is filled.
pub proof fn lemma_full_progress_fills_bar(total: int, width: int)
    requires
        0 <= width,
    ensures
        percent_spec(total, total) == 100,
        filled_spec(100, width) == width,
{
    assert(100 * width / 100 == width) by (nonlinear_arith)
        requires 0 <= width;
}

/// The filled and empty cell counts always partition the track: the filled
/// count never exceeds the width, so `filled + (width - filled) == width`.
pub proof fn lemma_cells_partition(percent: int, width: int)
    requires
        0 <= percent <= 100,
        0 <= width,
    ensures
        0 <= filled_spec(percent, width) <= width,
        filled_spec(percent, width) + (width - filled_spec(percent, width)) == width,
{
    assert(percent * width / 100 <= width) by (nonlinear_arith)
        requires 0 <= percent <= 100, 0 <= width;
    assert(percent * width / 100 >= 0) by (nonlinear_arith)
        requires 0 <= percent, 0 <= width;
}

} // verus!
