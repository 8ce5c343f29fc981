use vstd::prelude::*;
use crate::gradient::{grad_seg, grad_seg_spec, triple_spec};
use crate::metrics::{
    clamp_spec, disp_spec, eta_of, eta_spec, filled_of, filled_spec, percent_of, percent_spec,
    speed_of, speed_spec, throughput_of, unit_label_spec, unit_spec,
};
use crate::numfmt::{
    dec_u64, fixed2, fixed2_seq, dec_seq, mmss, mmss_seq, repeat_seq, repeat_str,
};
use crate::session::{TerminalSession, acquire_spec, cursor_to_row, released_spec, setup_screen};
use crate::style::{
    Color, EmptyStyle, FillStyle, color_code_spec, color_rgb_spec, empty_glyph_str_spec,
    fill_glyph_str_spec,
};
use crate::term::{TermError, TerminalMode, detect_mode, emit, now_millis};
use vstd::string::StringExecFns;

verus! {

/// A non-blocking query for a user-requested abort, invoked once at the
/// start of each tick. An implementation must return immediately: `true`
/// means an abort is pending and the tick is skipped.
pub trait CancelProbe {
    /// Whether an abort is pending right now.
    spec fn pending(&self) -> bool;

    /// Reports whether an abort was pending when the call was made.
    fn poll(&mut self) -> (r: bool)
        ensures
            r == old(self).pending(),
    ;
}

/// The probe used when no cancellation mechanism is wired up: nothing is
/// ever pending.
pub struct NullProbe {}

impl CancelProbe for NullProbe {
    open spec fn pending(&self) -> bool {
        false
    }

    fn poll(&mut self) -> (r: bool) {
        false
    }
}

/// A probe with a fixed answer, for hosts and tests that decide the abort
/// signal themselves.
pub struct FixedProbe {
    /// The answer every poll reports.
    pub flag: bool,
}

impl CancelProbe for FixedProbe {
    open spec fn pending(&self) -> bool {
        self.flag
    }

    fn poll(&mut self) -> (r: bool) {
        self.flag
    }
}

/// One in-place updating progress bar, owning a single display row.
pub struct ProgressBar {
    /// Display label, fixed at construction.
    pub desc: String,
    /// Width of the fill/empty track in character cells.
    pub len: usize,
    /// The progress value that counts as 100% complete.
    pub size: usize,
    /// Glyph drawn in each filled cell, as a one-character string.
    pub fill_style: &'static str,
    /// Glyph drawn in each unfilled cell, as a one-character string.
    pub empty_style: &'static str,
    /// Filled-cell count computed by the most recent tick.
    pub curr: usize,
    /// Construction timestamp in milliseconds; never reset.
    pub start_ms: u64,
    /// Flat color of the filled segment.
    pub fill_color: Color,
    /// Flat color of the unfilled segment.
    pub empty_color: Color,
    /// Gradient start color for the filled segment.
    pub grad_from: Color,
    /// Gradient end color for the filled segment.
    pub grad_to: Color,
    /// Whether the filled segment is drawn as a gradient.
    pub grad_on: bool,
    /// The display row this bar renders to, allocated at construction.
    pub row: u64,
    /// Whether a terminal is attached; decided once at construction.
    pub mode: TerminalMode,
    /// Whether the bar has not yet been closed.
    pub open: bool,
}

/// The filled segment of the track: a gradient ramp when the gradient is
/// on, otherwise the flat fill color followed by the fill glyphs.
pub open spec fn fill_seg_spec(b: ProgressBar, filled: int) -> Seq<char> {
    if b.grad_on {
        grad_seg_spec(
            color_rgb_spec(b.grad_from),
            color_rgb_spec(b.grad_to),
            b.fill_style@,
            filled,
            filled,
        )
    } else {
        color_code_spec(b.fill_color) + repeat_seq(b.fill_style@, filled)
    }
}

/// The complete frame a tick renders for progress `progress` after
/// `elapsed_ms` milliseconds: description, colored fill, colored empty
/// track, percentage, elapsed time, ETA and throughput, in fixed order.
pub open spec fn frame_spec(b: ProgressBar, progress: int, elapsed_ms: int) -> Seq<char> {
    let percent = percent_spec(progress, b.size as int);
    let filled = filled_spec(percent, b.len as int);
    let clamped = clamp_spec(progress, b.size as int);
    let speed = speed_spec(clamped, elapsed_ms);
    let eta = eta_spec(b.size as int - clamped, speed);
    b.desc@ + " "@ + fill_seg_spec(b, filled) + color_code_spec(b.empty_color) + repeat_seq(
        b.empty_style@,
        b.len as int - filled,
    ) + color_code_spec(Color::Reset) + " "@ + dec_seq(percent) + "%  elapsed "@ + mmss_seq(
        elapsed_ms / 1000,
    ) + "  <  ETA "@ + mmss_seq(eta) + "  @ "@ + fixed2_seq(disp_spec(speed)) + " "@
        + unit_label_spec(unit_spec(speed))
}

/// A freshly constructed bar: default hash/dash glyphs, green fill on gray
/// empty, no gradient, no progress, renders to `row` in `mode`.
pub open spec fn fresh_bar_spec(
    b: ProgressBar,
    desc: Seq<char>,
    len: int,
    size: int,
    row: int,
    mode: TerminalMode,
) -> bool {
    &&& b.desc@ == desc
    &&& b.len == len
    &&& b.size == size
    &&& b.fill_style@ == fill_glyph_str_spec(FillStyle::Hash)
    &&& b.empty_style@ == empty_glyph_str_spec(EmptyStyle::Dash)
    &&& b.curr == 0
    &&& b.fill_color == Color::Green
    &&& b.empty_color == Color::Gray
    &&& b.grad_from == Color::Green
    &&& b.grad_to == Color::Green
    &&& !b.grad_on
    &&& b.row == row
    &&& b.mode == mode
    &&& b.open
}

/// Two bars that agree on everything except the tick-computed fill count.
pub open spec fn same_but_curr(a: ProgressBar, b: ProgressBar) -> bool {
    &&& a.desc@ == b.desc@
    &&& a.len == b.len
    &&& a.size == b.size
    &&& a.fill_style@ == b.fill_style@
    &&& a.empty_style@ == b.empty_style@
    &&& a.start_ms == b.start_ms
    &&& a.fill_color == b.fill_color
    &&& a.empty_color == b.empty_color
    &&& a.grad_from == b.grad_from
    &&& a.grad_to == b.grad_to
    &&& a.grad_on == b.grad_on
    &&& a.row == b.row
    &&& a.mode == b.mode
    &&& a.open == b.open
}

/// The session/result relation of returning one bar's row: the live count
/// drops by one, and the restoration runs exactly when the last live bar
/// goes while the latch is set.
pub open spec fn finish_rel(
    s0: TerminalSession,
    s1: TerminalSession,
    r: Result<bool, TermError>,
) -> bool {
    let l2: u64 = if s0.live > 0 {
        (s0.live - 1) as u64
    } else {
        0u64
    };
    if l2 == 0 && s0.initialized {
        match r {
            Ok(b) => b && s1 == released_spec(s0),
            Err(e) => e == TermError::WriteFailed && s1 == TerminalSession { live: l2, ..s0 },
        }
    } else {
        r == Ok::<bool, TermError>(false) && s1 == TerminalSession { live: l2, ..s0 }
    }
}

impl ProgressBar {
    /// Constructs a bar in an explicitly chosen terminal mode.
    ///
    /// An interactive bar allocates the next display row from the session
    /// and, on the session's first allocation, clears the screen and hides
    /// the cursor; a failure of that setup aborts construction and hands
    /// the allocation back, leaving the session as it was. A headless bar
    /// touches neither the session nor the terminal.
    pub fn with_mode(
        session: &mut TerminalSession,
        mode: TerminalMode,
        desc: &str,
        len: usize,
        size: usize,
    ) -> (r: Result<ProgressBar, TermError>)
        requires
            len > 0,
            old(session).next_row < u64::MAX,
            old(session).live < u64::MAX,
        ensures
            mode == TerminalMode::Headless ==> {
                &&& *final(session) == *old(session)
                &&& match r {
                    Ok(b) => fresh_bar_spec(b, desc@, len as int, size as int, 0, mode),
                    Err(_) => false,
                }
            },
            mode == TerminalMode::Interactive ==> match r {
                Ok(b) => *final(session) == acquire_spec(*old(session)).0 && fresh_bar_spec(
                    b,
                    desc@,
                    len as int,
                    size as int,
                    old(session).next_row as int,
                    mode,
                ),
                Err(_) => !old(session).initialized && *final(session) == *old(session),
            },
    {
        let mut row: u64 = 0;
        if mode == TerminalMode::Interactive {
            let first = !session.initialized;
            row = session.acquire_row();
            if first {
                match setup_screen() {
                    Ok(_) => (),
                    Err(e) => {
                        session.rollback_first_acquire();
                        return Err(e);
                    },
                }
            }
        }
        Ok(
            ProgressBar {
                desc: String::from_str(desc),
                len,
                size,
                fill_style: FillStyle::Hash.glyph(),
                empty_style: EmptyStyle::Dash.glyph(),
                curr: 0,
                start_ms: now_millis(),
                fill_color: Color::Green,
                empty_color: Color::Gray,
                grad_from: Color::Green,
                grad_to: Color::Green,
                grad_on: false,
                row,
                mode,
                open: true,
            },
        )
    }

    /// Constructs a bar, deciding once whether a terminal is attached:
    /// interactive when standard output is a terminal device, headless when
    /// it is redirected.
    pub fn new(session: &mut TerminalSession, desc: &str, len: usize, size: usize) -> (r: Result<
        ProgressBar,
        TermError,
    >)
        requires
            len > 0,
            old(session).next_row < u64::MAX,
            old(session).live < u64::MAX,
        ensures
            *final(session) == *old(session) || *final(session) == acquire_spec(*old(session)).0,
            match r {
                Ok(b) => {
                    &&& fresh_bar_spec(
                        b,
                        desc@,
                        len as int,
                        size as int,
                        b.row as int,
                        b.mode,
                    )
                    &&& (b.mode == TerminalMode::Headless ==> b.row == 0 && *final(session)
                        == *old(session))
                    &&& (b.mode == TerminalMode::Interactive ==> b.row == old(session).next_row
                        && *final(session) == acquire_spec(*old(session)).0)
                },
                Err(_) => !old(session).initialized && *final(session) == *old(session),
            },
    {
        let mode = detect_mode();
        Self::with_mode(session, mode, desc, len, size)
    }

    /// Renders the frame for `progress` after `elapsed_ms` milliseconds,
    /// exactly as `frame_spec` lays it out. Pure with respect to the bar:
    /// nothing is written and no field changes.
    #[verifier::rlimit(100)]
    pub fn render_frame(&self, progress: usize, elapsed_ms: u64) -> (s: String)
        ensures
            s@ == frame_spec(*self, progress as int, elapsed_ms as int),
    {
        let percent = percent_of(progress, self.size);
        let filled = filled_of(percent, self.len);
        let clamped: usize = if progress >= self.size {
            self.size
        } else {
            progress
        };
        let speed = speed_of(clamped, elapsed_ms);
        let eta = eta_of(self.size - clamped, speed);
        let (disp, unit) = throughput_of(speed);

        let mut s = String::new();
        s.append(self.desc.as_str());
        s.append(" ");
        if self.grad_on {
            let seg = grad_seg(self.grad_from.rgb(), self.grad_to.rgb(), self.fill_style, filled);
            s.append(seg.as_str());
        } else {
            s.append(self.fill_color.ch());
            let seg = repeat_str(self.fill_style, filled);
            s.append(seg.as_str());
        }
        s.append(self.empty_color.ch());
        let seg = repeat_str(self.empty_style, self.len - filled);
        s.append(seg.as_str());
        s.append(Color::Reset.ch());
        s.append(" ");
        let num = dec_u64(percent as u64);
        s.append(num.as_str());
        s.append("%  elapsed ");
        let t = mmss(elapsed_ms / 1000);
        s.append(t.as_str());
        s.append("  <  ETA ");
        let t = mmss(eta);
        s.append(t.as_str());
        s.append("  @ ");
        let v = fixed2(disp);
        s.append(v.as_str());
        s.append(" ");
        s.append(unit.label());
        proof {
            assert(s@ =~= frame_spec(*self, progress as int, elapsed_ms as int));
        }
        s
    }

    /// The computing half of a tick: recomputes the fill count from
    /// `progress` alone and returns the frame for it. Everything here is
    /// pinned down: the new fill count and the returned text are functions
    /// of the bar, `progress` and `elapsed_ms`, nothing else.
    pub fn advance(&mut self, progress: usize, elapsed_ms: u64) -> (s: String)
        ensures
            s@ == frame_spec(*old(self), progress as int, elapsed_ms as int),
            same_but_curr(*old(self), *final(self)),
            final(self).curr == filled_spec(
                percent_spec(progress as int, old(self).size as int),
                old(self).len as int,
            ),
            final(self).curr <= final(self).len,
    {
        let percent = percent_of(progress, self.size);
        self.curr = filled_of(percent, self.len);
        self.render_frame(progress, elapsed_ms)
    }

    /// One redraw: polls the probe, and unless an abort is pending,
    /// recomputes the fill from `progress` alone and writes one frame —
    /// moved to this bar's row when interactive, appended as a fresh line
    /// when headless.
    ///
    /// `Ok(true)` reports a pending abort — exactly when the probe had one
    /// pending — and the bar is left untouched with nothing written.
    /// Otherwise the fill count is recomputed; `Err` reports that the
    /// frame could not be written out.
    pub fn tick<P: CancelProbe>(&mut self, progress: usize, probe: &mut P) -> (r: Result<
        bool,
        TermError,
    >)
        ensures
            (r == Ok::<bool, TermError>(true)) <==> old(probe).pending(),
            (r matches Err(e) ==> e == TermError::WriteFailed),
            r == Ok::<bool, TermError>(true) ==> *final(self) == *old(self),
            r != Ok::<bool, TermError>(true) ==> {
                &&& same_but_curr(*old(self), *final(self))
                &&& final(self).curr == filled_spec(
                    percent_spec(progress as int, old(self).size as int),
                    old(self).len as int,
                )
                &&& final(self).curr <= final(self).len
            },
    {
        if probe.poll() {
            return Ok(true);
        }
        let now = now_millis();
        let elapsed_ms: u64 = if now >= self.start_ms {
            now - self.start_ms
        } else {
            0
        };
        let frame = self.advance(progress, elapsed_ms);
        let mut out: String;
        if self.mode == TerminalMode::Interactive {
            out = cursor_to_row(self.row);
            out.append(frame.as_str());
        } else {
            out = frame;
            out.append("\n");
        }
        match emit(out.as_str()) {
            Ok(_) => Ok(false),
            Err(e) => Err(e),
        }
    }

    /// Sets the glyphs used for filled and unfilled cells; takes effect on
    /// the next tick.
    pub fn style(&mut self, fill: FillStyle, emp: EmptyStyle)
        ensures
            final(self).fill_style@ == fill_glyph_str_spec(fill),
            final(self).empty_style@ == empty_glyph_str_spec(emp),
            *final(self) == (ProgressBar {
                fill_style: final(self).fill_style,
                empty_style: final(self).empty_style,
                ..*old(self)
            }),
    {
        self.fill_style = fill.glyph();
        self.empty_style = emp.glyph();
    }

    /// Sets the flat colors of the filled and unfilled segments; takes
    /// effect on the next tick.
    pub fn color(&mut self, fill: Color, emp: Color)
        ensures
            *final(self) == (ProgressBar { fill_color: fill, empty_color: emp, ..*old(self) }),
    {
        self.fill_color = fill;
        self.empty_color = emp;
    }

    /// Configures the gradient endpoints of the filled segment. The
    /// gradient is on exactly when the endpoints differ, so passing the
    /// same color twice turns it off.
    pub fn gradient(&mut self, start: Color, end: Color)
        ensures
            *final(self) == (ProgressBar {
                grad_from: start,
                grad_to: end,
                grad_on: start != end,
                ..*old(self)
            }),
    {
        self.grad_from = start;
        self.grad_to = end;
        self.grad_on = start != end;
    }

    /// Tears the bar down. The first close of an interactive bar returns
    /// its row to the session, which restores the terminal when no bar is
    /// left; closing again, or closing a headless bar, changes nothing
    /// outside the bar. `Ok(true)` reports that the restoration was
    /// emitted.
    pub fn close(&mut self, session: &mut TerminalSession) -> (r: Result<bool, TermError>)
        ensures
            !old(self).open ==> r == Ok::<bool, TermError>(false) && *final(self) == *old(self)
                && *final(session) == *old(session),
            old(self).open ==> {
                &&& *final(self) == (ProgressBar { open: false, ..*old(self) })
                &&& (old(self).mode == TerminalMode::Headless ==> r == Ok::<bool, TermError>(false)
                    && *final(session) == *old(session))
                &&& (old(self).mode == TerminalMode::Interactive ==> finish_rel(
                    *old(session),
                    *final(session),
                    r,
                ))
            },
    {
        if !self.open {
            return Ok(false);
        }
        self.open = false;
        if self.mode == TerminalMode::Interactive {
            session.finish_bar()
        } else {
            Ok(false)
        }
    }
}

} // verus!
