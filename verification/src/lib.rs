mod bar;
mod gradient;
mod metrics;
mod numfmt;
mod session;
mod style;
mod term;

pub use bar::{CancelProbe, FixedProbe, NullProbe, ProgressBar};
pub use bar::{fill_seg_spec, frame_spec, fresh_bar_spec, same_but_curr, finish_rel};
pub use gradient::{lerp, cell_color, rgb_code, grad_seg};
pub use gradient::{lerp_spec, denom_spec, rgb_code_spec, triple_spec, grad_seg_spec};
pub use metrics::{ThroughputUnit, percent_of, filled_of, speed_of, eta_of, throughput_of};
pub use metrics::{percent_spec, filled_spec, clamp_spec, speed_spec, eta_spec, unit_spec,
    disp_spec, unit_label_spec};
pub use metrics::{lemma_percent_bounds, lemma_percent_monotonic, lemma_cells_partition,
    lemma_full_progress_fills_bar};
pub use session::{TerminalSession, cursor_to_row, restore_sequence};
pub use session::{acquire_spec, released_spec, cursor_to_spec, restore_spec};
pub use session::{lemma_release_idempotent, lemma_rows_strictly_increase};
pub use term::{TermError, TerminalMode, detect_mode};
pub use numfmt::{dec_u128, dec_u64, pad2_u64, mmss, fixed2, repeat_str};
pub use numfmt::{digit_seq, dec_seq, pad2_seq, mmss_seq, fixed2_seq, repeat_seq};
pub use style::{Color, EmptyStyle, FillStyle};
pub use style::{color_code_spec, color_rgb_spec, empty_glyph_spec, empty_glyph_str_spec,
    fill_glyph_spec, fill_glyph_str_spec};
