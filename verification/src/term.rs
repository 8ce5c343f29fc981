use vstd::prelude::*;

verus! {

/// What went wrong while talking to the terminal.
#[derive(Copy, Clone, Debug, PartialEq, Eq, Structural)]
pub enum TermError {
    /// The screen could not be cleared during terminal setup.
    ClearFailed,
    /// A frame or an escape sequence could not be written to standard output.
    WriteFailed,
}

/// Whether a bar talks to a live terminal or to a redirected stream.
#[derive(Copy, Clone, Debug, PartialEq, Eq, Structural)]
pub enum TerminalMode {
    /// A real terminal is attached: frames are redrawn in place with
    /// cursor-positioning escape sequences.
    Interactive,
    /// Output is redirected: frames are appended as plain lines and no
    /// cursor-control sequences are ever emitted.
    Headless,
}

/// The declared error type of the screen-clearing crate; opaque here and
/// mapped to `TermError` right after each call.
#[verifier::external_type_specification]
#[verifier::external_body]
pub struct ExClearscreenError(clearscreen::Error);

/// Relies on clearscreen::clear: picks a clearing strategy for the attached
/// terminal and writes it out, reporting any failure in its result.
#[verifier::external_body]
pub(crate) fn clear_terminal() -> Result<(), clearscreen::Error> {
    clearscreen::clear()
}

/// Relies on std::io::IsTerminal::is_terminal: whether standard output is
/// attached to a terminal device. The answer depends on the environment, so
/// nothing is promised of it.
#[verifier::external_body]
pub(crate) fn stdout_is_tty() -> bool {
    std::io::IsTerminal::is_terminal(&std::io::stdout())
}

/// Relies on std::time::SystemTime::now: milliseconds since the Unix epoch,
/// truncated to `u64`, and 0 if the clock sits before the epoch. The answer
/// depends on the clock, so nothing is promised of it.
#[verifier::external_body]
pub(crate) fn now_millis() -> u64 {
    match std::time::SystemTime::now().duration_since(std::time::UNIX_EPOCH) {
        Ok(d) => d.as_millis() as u64,
        Err(_) => 0,
    }
}

/// Relies on std::io::Write::write_all on standard output: writes the whole
/// string or reports failure.
#[verifier::external_body]
pub(crate) fn write_stdout(s: &str) -> bool {
    std::io::Write::write_all(&mut std::io::stdout(), s.as_bytes()).is_ok()
}

/// Relies on std::io::Write::flush on standard output: pushes buffered
/// output through or reports failure.
#[verifier::external_body]
pub(crate) fn flush_stdout() -> bool {
    std::io::Write::flush(&mut std::io::stdout()).is_ok()
}

/// Writes `s` to standard output and flushes it, so a frame is fully
/// visible before the call returns. The only failure it reports is a
/// failed write.
pub(crate) fn emit(s: &str) -> (r: Result<(), TermError>)
    ensures
        (r matches Err(e) ==> e == TermError::WriteFailed),
{
    if write_stdout(s) && flush_stdout() {
        Ok(())
    } else {
        Err(TermError::WriteFailed)
    }
}

/// Queries once whether standard output is attached to a terminal device.
pub fn detect_mode() -> TerminalMode {
    if stdout_is_tty() {
        TerminalMode::Interactive
    } else {
        TerminalMode::Headless
    }
}

} // verus!
