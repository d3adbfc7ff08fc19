use vstd::prelude::*;

verus! {

/// Startup configuration for a session: the `TERM` value presented to the
/// child, an optional column-count override, an optional hard-copy override,
/// and the command to run inside the pseudo-terminal.
pub struct Cli {
    pub term: String,
    pub cols: Option<u16>,
    pub hard_copy: Option<bool>,
    pub command: String,
}

/// Height of the pseudo-terminal. Page height is meaningless on a hard-copy
/// target, so it is fixed regardless of any width override.
pub const PTY_ROWS: u16 = 24;

/// Width used when neither the user, the real terminal, nor the capability
/// database offers one.
pub const FALLBACK_COLS: u16 = 80;

/// The width a session uses: an explicit request wins, then the measured
/// width of the real terminal, then the capability database's column count
/// when it fits in `u16`, then the fixed fallback.
pub open spec fn width_of(
    requested: Option<u16>,
    measured: Option<u16>,
    db_columns: Option<i32>,
) -> u16 {
    match requested {
        Some(w) => w,
        None => match measured {
            Some(w) => w,
            None => match db_columns {
                Some(c) => if 0 <= c <= 0xFFFF {
                    c as u16
                } else {
                    FALLBACK_COLS
                },
                None => FALLBACK_COLS,
            },
        },
    }
}

/// Whether the session treats the destination as a hard-copy terminal: an
/// explicit request wins, then the capability database's indicator, then
/// `false`.
pub open spec fn hard_copy_of(requested: Option<bool>, detected: Option<bool>) -> bool {
    match requested {
        Some(b) => b,
        None => match detected {
            Some(b) => b,
            None => false,
        },
    }
}

/// Picks the session width from the explicit request, the measured terminal
/// width, and the capability database's column count, in that order.
pub fn resolve_width(
    requested: Option<u16>,
    measured: Option<u16>,
    db_columns: Option<i32>,
) -> (w: u16)
    ensures
        w == width_of(requested, measured, db_columns),
{
    match requested {
        Some(w) => w,
        None => match measured {
            Some(w) => w,
            None => match db_columns {
                Some(c) => if 0 <= c && c <= 0xFFFF {
                    c as u16
                } else {
                    FALLBACK_COLS
                },
                None => FALLBACK_COLS,
            },
        },
    }
}

/// Decides whether hard-copy behaviour is on, from the explicit request and
/// the capability database's hard-copy indicator.
pub fn resolve_hard_copy(requested: Option<bool>, detected: Option<bool>) -> (b: bool)
    ensures
        b == hard_copy_of(requested, detected),
{
    match requested {
        Some(b) => b,
        None => match detected {
            Some(b) => b,
            None => false,
        },
    }
}

} // verus!
