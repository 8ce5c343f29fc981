use vstd::prelude::*;
use crate::numfmt::{dec_seq, dec_u128};
use crate::term::{TermError, clear_terminal, emit};
use vstd::string::StringExecFns;

verus! {

/// Process-wide terminal bookkeeping, shared by every bar the caller
/// constructs: the next free display row, the one-time latch that guards
/// screen setup, and the number of bars still alive. Callers reach it only
/// through an exclusive reference, so row allocation cannot race even when
/// the host program is threaded.
#[derive(Copy, Clone, Debug, PartialEq, Eq, Structural)]
pub struct TerminalSession {
    /// Next unused display row; rows are handed out in increasing order.
    pub next_row: u64,
    /// One-time latch: whether terminal setup has been performed and not
    /// yet undone.
    pub initialized: bool,
    /// Number of rows acquired and not yet returned.
    pub live: u64,
}

/// A session after one row allocation: the counter and the live count each
/// advance by one and the latch is set.
pub open spec fn acquire_spec(s: TerminalSession) -> (TerminalSession, int) {
    (
        TerminalSession {
            next_row: (s.next_row + 1) as u64,
            initialized: true,
            live: (s.live + 1) as u64,
        },
        s.next_row as int,
    )
}

/// A session after its terminal state has been restored: the latch is
/// cleared and no bar is live; the row history is kept.
pub open spec fn released_spec(s: TerminalSession) -> TerminalSession {
    TerminalSession { next_row: s.next_row, initialized: false, live: 0 }
}

/// Escape sequence moving the cursor to column 1 of display row `row`
/// (rows counted from 0, terminal lines from 1).
pub open spec fn cursor_to_spec(row: int) -> Seq<char> {
    "\x1b["@ + dec_seq(row + 1) + ";1H"@
}

/// Escape sequence restoring the terminal: cursor moved below the last
/// allocated row, cursor shown again, and a fresh line started.
pub open spec fn restore_spec(next_row: int) -> Seq<char> {
    cursor_to_spec(next_row) + "\x1b[?25h"@ + "\n"@
}

/// Escape sequence moving the cursor to column 1 of display row `row`.
pub fn cursor_to_row(row: u64) -> (s: String)
    ensures
        s@ == cursor_to_spec(row as int),
{
    let mut s = String::from_str("\x1b[");
    let n = dec_u128(row as u128 + 1);
    s.append(n.as_str());
    s.append(";1H");
    s
}

/// The restoration sequence for a session whose rows end before `next_row`.
pub fn restore_sequence(next_row: u64) -> (s: String)
    ensures
        s@ == restore_spec(next_row as int),
{
    let mut s = cursor_to_row(next_row);
    s.append("\x1b[?25h");
    s.append("\n");
    proof {
        assert(s@ =~= restore_spec(next_row as int));
    }
    s
}

/// Clears the screen and hides the cursor: the one-time setup performed
/// when the first interactive bar is constructed.
pub(crate) fn setup_screen() -> (r: Result<(), TermError>) {
    match clear_terminal() {
        Ok(_) => (),
        Err(_) => {
            return Err(TermError::ClearFailed);
        },
    }
    emit("\x1b[?25l")
}

impl TerminalSession {
    /// A fresh session: no row handed out, no terminal state entered.
    pub fn new() -> (s: Self)
        ensures
            s.next_row == 0,
            !s.initialized,
            s.live == 0,
    {
        TerminalSession { next_row: 0, initialized: false, live: 0 }
    }

    /// Hands out the next unused display row and sets the one-time latch.
    /// Successive calls return strictly increasing rows, so no two bars
    /// ever share one.
    pub fn acquire_row(&mut self) -> (row: u64)
        requires
            old(self).next_row < u64::MAX,
            old(self).live < u64::MAX,
        ensures
            (*final(self), row as int) == acquire_spec(*old(self)),
            row == old(self).next_row,
            final(self).next_row == old(self).next_row + 1,
            final(self).live == old(self).live + 1,
            final(self).initialized,
    {
        let row = self.next_row;
        self.next_row = self.next_row + 1;
        self.live = self.live + 1;
        self.initialized = true;
        row
    }

    /// Undoes a row allocation that was made while the latch was clear,
    /// when its bar could not be handed out: the counter and the live
    /// count step back and the latch clears, returning the session to its
    /// state before that allocation.
    pub(crate) fn rollback_first_acquire(&mut self)
        requires
            old(self).next_row >= 1,
            old(self).live >= 1,
        ensures
            *final(self) == (TerminalSession {
                next_row: (old(self).next_row - 1) as u64,
                initialized: false,
                live: (old(self).live - 1) as u64,
            }),
    {
        self.next_row = self.next_row - 1;
        self.live = self.live - 1;
        self.initialized = false;
    }

    /// Restores the terminal (cursor below the bars, cursor visible) if
    /// this session ever set it up, and clears the latch; a call on a
    /// session that holds no terminal state is a no-op, so releasing twice
    /// is safe. `Ok(true)` reports that a restoration was emitted.
    pub fn release(&mut self) -> (r: Result<bool, TermError>)
        ensures
            !old(self).initialized ==> r == Ok::<bool, TermError>(false) && *final(self) == *old(
                self,
            ),
            old(self).initialized ==> match r {
                Ok(b) => b && *final(self) == released_spec(*old(self)),
                Err(e) => e == TermError::WriteFailed && *final(self) == *old(self),
            },
    {
        if !self.initialized {
            return Ok(false);
        }
        let seq_out = restore_sequence(self.next_row);
        match emit(seq_out.as_str()) {
            Ok(_) => {
                self.initialized = false;
                self.live = 0;
                Ok(true)
            },
            Err(e) => Err(e),
        }
    }

    /// Returns one live bar's row keep and, when the last live bar goes and
    /// the latch is set, restores the terminal as `release` does.
    /// `Ok(true)` reports that a restoration was emitted.
    pub fn finish_bar(&mut self) -> (r: Result<bool, TermError>)
        ensures
            ({
                let l2: u64 = if old(self).live > 0 {
                    (old(self).live - 1) as u64
                } else {
                    0u64
                };
                if l2 == 0 && old(self).initialized {
                    match r {
                        Ok(b) => b && *final(self) == released_spec(*old(self)),
                        Err(e) => e == TermError::WriteFailed && *final(self) == TerminalSession {
                            live: l2,
                            ..*old(self)
                        },
                    }
                } else {
                    r == Ok::<bool, TermError>(false) && *final(self) == TerminalSession {
                        live: l2,
                        ..*old(self)
                    }
                }
            }),
    {
        if self.live > 0 {
            self.live = self.live - 1;
        }
        if self.live == 0 && self.initialized {
            self.release()
        } else {
            Ok(false)
        }
    }
}

/// Releasing a session twice is the same as releasing it once: the first
/// release clears the latch, so the second finds nothing to restore.
pub proof fn lemma_release_idempotent(s: TerminalSession)
    ensures
        released_spec(released_spec(s)) == released_spec(s),
        !released_spec(s).initialized,
{
}

/// Rows handed out by successive allocations strictly increase, so every
/// bar gets a row of its own.
pub proof fn lemma_rows_strictly_increase(s: TerminalSession)
    requires
        s.next_row < u64::MAX,
    ensures
        acquire_spec(s).1 < acquire_spec(acquire_spec(s).0).1,
{
}

} // verus!
