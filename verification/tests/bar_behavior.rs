use rustybar::{
    Color, EmptyStyle, FillStyle, FixedProbe, NullProbe, ProgressBar, TerminalMode,
    TerminalSession, ThroughputUnit,
};
use rustybar::{cell_color, dec_u64, filled_of, fixed2, mmss, pad2_u64, percent_of, throughput_of};

#[test]
fn percent_of_midpoint() {
    assert_eq!(percent_of(50, 100), 50);
    assert_eq!(filled_of(50, 40), 20);
}

#[test]
fn percent_of_clamps_overshoot() {
    assert_eq!(percent_of(150, 100), 100);
    assert_eq!(percent_of(100, 100), 100);
    assert_eq!(percent_of(0, 100), 0);
}

#[test]
fn percent_of_zero_target_counts_as_complete() {
    assert_eq!(percent_of(0, 0), 100);
    assert_eq!(percent_of(7, 0), 100);
}

#[test]
fn percent_is_monotonic_over_a_sweep() {
    let mut last: u32 = 0;
    for p in 0..=1000usize {
        let pct = percent_of(p, 1000);
        assert!(pct >= last);
        assert!(pct <= 100);
        last = pct;
    }
    assert_eq!(last, 100);
}

#[test]
fn filled_and_empty_partition_the_track() {
    for pct in 0..=100u32 {
        let filled = filled_of(pct, 37);
        assert!(filled <= 37);
        let empty = 37 - filled;
        assert_eq!(filled + empty, 37);
    }
}

#[test]
fn demo_workload_reaches_full_bar() {
    let mut session = TerminalSession::new();
    let mut bar = ProgressBar::with_mode(&mut session, TerminalMode::Headless, "Downloading", 40, 50_000)
        .unwrap();
    let mut probe = NullProbe {};
    let mut downloaded: usize = 0;
    while downloaded < 50_000 {
        downloaded += 700;
        if downloaded > 50_000 {
            downloaded = 50_000;
        }
        let r = bar.tick(downloaded, &mut probe);
        assert_eq!(r, Ok(false));
    }
    assert_eq!(percent_of(downloaded, 50_000), 100);
    assert_eq!(bar.curr, 40);
    assert_eq!(bar.len, 40);
}

#[test]
fn throughput_units_scale_at_1024() {
    let (d, u) = throughput_of(512);
    assert_eq!(u, ThroughputUnit::Bps);
    assert_eq!(format!("{} {}", fixed2(d), u.label()), "512.00 B/s");

    let (d, u) = throughput_of(2048);
    assert_eq!(u, ThroughputUnit::KBps);
    assert_eq!(format!("{} {}", fixed2(d), u.label()), "2.00 KB/s");

    let (d, u) = throughput_of(2_097_152);
    assert_eq!(u, ThroughputUnit::MBps);
    assert_eq!(format!("{} {}", fixed2(d), u.label()), "2.00 MB/s");
}

#[test]
fn throughput_boundary_values() {
    let (d, u) = throughput_of(1023);
    assert_eq!(u, ThroughputUnit::Bps);
    assert_eq!(d, 102300);
    let (d, u) = throughput_of(1024);
    assert_eq!(u, ThroughputUnit::KBps);
    assert_eq!(format!("{} {}", fixed2(d), u.label()), "1.00 KB/s");
}

#[test]
fn single_cell_gradient_is_the_start_color() {
    let c = cell_color((255, 0, 0), (0, 0, 255), 0, 1);
    assert_eq!(c, (255, 0, 0));
}

#[test]
fn gradient_endpoints_are_exact() {
    let from = (10u8, 200u8, 77u8);
    let to = (240u8, 5u8, 77u8);
    assert_eq!(cell_color(from, to, 0, 6), from);
    assert_eq!(cell_color(from, to, 5, 6), to);
}

#[test]
fn rows_allocated_in_increasing_order() {
    let mut session = TerminalSession::new();
    let r0 = session.acquire_row();
    let r1 = session.acquire_row();
    let r2 = session.acquire_row();
    assert!(r0 < r1 && r1 < r2);
    assert_eq!((r0, r1, r2), (0, 1, 2));
    assert_eq!(session.live, 3);
}

#[test]
fn headless_bars_consume_no_rows_and_emit_no_cursor_moves() {
    let mut session = TerminalSession::new();
    let a = ProgressBar::with_mode(&mut session, TerminalMode::Headless, "a", 10, 100).unwrap();
    let b = ProgressBar::with_mode(&mut session, TerminalMode::Headless, "b", 10, 100).unwrap();
    let c = ProgressBar::with_mode(&mut session, TerminalMode::Headless, "c", 10, 100).unwrap();
    assert_eq!(session.next_row, 0);
    assert!(!session.initialized);
    assert_eq!((a.row, b.row, c.row), (0, 0, 0));
    let frame = a.render_frame(50, 1000);
    assert!(!frame.contains(";1H"));
    assert!(!frame.contains("\x1b[?25"));
}

#[test]
fn release_twice_is_a_noop_the_second_time() {
    let mut session = TerminalSession::new();
    session.acquire_row();
    assert!(session.initialized);
    assert_eq!(session.release(), Ok(true));
    assert!(!session.initialized);
    assert_eq!(session.release(), Ok(false));
    assert!(!session.initialized);
}

#[test]
fn release_before_any_acquire_is_a_noop() {
    let mut session = TerminalSession::new();
    assert_eq!(session.release(), Ok(false));
}

#[test]
fn closing_a_bar_twice_is_safe() {
    let mut session = TerminalSession::new();
    let mut bar = ProgressBar::with_mode(&mut session, TerminalMode::Headless, "x", 5, 10).unwrap();
    assert_eq!(bar.close(&mut session), Ok(false));
    assert!(!bar.open);
    assert_eq!(bar.close(&mut session), Ok(false));
}

#[test]
fn last_interactive_close_restores_the_terminal() {
    let mut session = TerminalSession::new();
    let mut a = ProgressBar::with_mode(&mut session, TerminalMode::Interactive, "a", 5, 10).unwrap();
    let mut b = ProgressBar::with_mode(&mut session, TerminalMode::Interactive, "b", 5, 10).unwrap();
    assert_eq!((a.row, b.row), (0, 1));
    assert!(session.initialized);
    assert_eq!(session.live, 2);
    assert_eq!(a.close(&mut session), Ok(false));
    assert_eq!(session.live, 1);
    assert!(session.initialized);
    assert_eq!(b.close(&mut session), Ok(true));
    assert!(!session.initialized);
    assert_eq!(session.live, 0);
    assert_eq!(b.close(&mut session), Ok(false));
}

#[test]
fn probe_with_nothing_pending_does_not_cancel() {
    let mut session = TerminalSession::new();
    let mut bar = ProgressBar::with_mode(&mut session, TerminalMode::Headless, "x", 5, 10).unwrap();
    let mut probe = NullProbe {};
    assert_eq!(bar.tick(3, &mut probe), Ok(false));
    assert_eq!(bar.curr, 1);
}

#[test]
fn pending_abort_skips_the_redraw() {
    let mut session = TerminalSession::new();
    let mut bar = ProgressBar::with_mode(&mut session, TerminalMode::Headless, "x", 5, 10).unwrap();
    let mut probe = NullProbe {};
    assert_eq!(bar.tick(10, &mut probe), Ok(false));
    assert_eq!(bar.curr, 5);
    let mut cancel = FixedProbe { flag: true };
    assert_eq!(bar.tick(3, &mut cancel), Ok(true));
    assert_eq!(bar.curr, 5);
    cancel.flag = false;
    assert_eq!(bar.tick(3, &mut cancel), Ok(false));
    assert_eq!(bar.curr, 1);
}

#[test]
fn time_formatting_pads_to_two_digits() {
    assert_eq!(mmss(0), "00:00");
    assert_eq!(mmss(125), "02:05");
    assert_eq!(mmss(3599), "59:59");
    assert_eq!(mmss(6000), "100:00");
    assert_eq!(pad2_u64(7), "07");
    assert_eq!(pad2_u64(42), "42");
    assert_eq!(dec_u64(0), "0");
    assert_eq!(dec_u64(90210), "90210");
    assert_eq!(fixed2(5), "0.05");
}

#[test]
fn frame_layout_is_exact() {
    let mut session = TerminalSession::new();
    let bar = ProgressBar::with_mode(&mut session, TerminalMode::Headless, "dl", 10, 100).unwrap();
    let frame = bar.render_frame(50, 2000);
    let expected = "dl \x1b[32m#####\x1b[90m-----\x1b[0m 50%  elapsed 00:02  <  ETA 00:02  @ 25.00 B/s";
    assert_eq!(frame, expected);
}

#[test]
fn styles_and_colors_take_effect_on_the_next_frame() {
    let mut session = TerminalSession::new();
    let mut bar = ProgressBar::with_mode(&mut session, TerminalMode::Headless, "dl", 4, 4).unwrap();
    bar.style(FillStyle::Equal, EmptyStyle::Space);
    bar.color(Color::Cyan, Color::Yellow);
    let frame = bar.render_frame(2, 1000);
    let expected = "dl \x1b[36m==\x1b[33m  \x1b[0m 50%  elapsed 00:01  <  ETA 00:01  @ 2.00 B/s";
    assert_eq!(frame, expected);
}

#[test]
fn gradient_frame_interpolates_per_cell() {
    let mut session = TerminalSession::new();
    let mut bar = ProgressBar::with_mode(&mut session, TerminalMode::Headless, "g", 2, 2).unwrap();
    bar.gradient(Color::Red, Color::Blue);
    assert!(bar.grad_on);
    let frame = bar.render_frame(2, 1000);
    assert!(frame.contains("\x1b[38;2;255;0;0m#"));
    assert!(frame.contains("\x1b[38;2;0;0;255m#"));
}

#[test]
fn same_gradient_endpoints_turn_the_gradient_off() {
    let mut session = TerminalSession::new();
    let mut bar = ProgressBar::with_mode(&mut session, TerminalMode::Headless, "g", 2, 2).unwrap();
    bar.gradient(Color::Red, Color::Blue);
    assert!(bar.grad_on);
    bar.gradient(Color::Pink, Color::Pink);
    assert!(!bar.grad_on);
}

#[test]
fn default_glyphs_match_the_styles() {
    assert_eq!(FillStyle::Hash.ch(), '#');
    assert_eq!(FillStyle::Solid.ch(), '\u{2588}');
    assert_eq!(EmptyStyle::Dash.ch(), '-');
    assert_eq!(EmptyStyle::Thin.ch(), '\u{2501}');
    assert_eq!(Color::Green.ch(), "\x1b[32m");
    assert_eq!(Color::Reset.ch(), "\x1b[0m");
    assert_eq!(Color::Pink.rgb(), (255, 105, 180));
}
