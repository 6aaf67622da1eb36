//! The shared logger configuration and the level filter.

use vstd::prelude::*;
use vstd::string::StrSliceExecFns;
use vstd::string::StringExecFns;

use crate::record::dec_digits;
use crate::record::u64_string;

verus! {

/// Severity bit: trace.
pub const T_LEVEL: u8 = 1;

/// Severity bit: debug.
pub const D_LEVEL: u8 = 2;

/// Severity bit: info.
pub const I_LEVEL: u8 = 4;

/// Severity bit: warning.
pub const W_LEVEL: u8 = 8;

/// Severity bit: error.
pub const E_LEVEL: u8 = 16;

/// Severity bit: fatal.
pub const F_LEVEL: u8 = 32;

/// Empty enabled mask: no severity emits.
pub const N_LEVEL: u8 = 0;

/// Full enabled mask: every severity emits.
pub const A_LEVEL: u8 = 63;

/// The logger configuration.
///
/// `filepath` is the destination: the empty string routes records to
/// standard output, a non-empty string to that file. `level` is the
/// enabled-severity bitmask, combined with bitwise or, as in
/// `T_LEVEL | D_LEVEL`. `size` is the byte threshold past which a file
/// destination is truncated back to empty.
pub struct Logger {
    pub filepath: String,
    pub level: u8,
    pub size: u64,
}

impl Logger {
    /// A fresh configuration: standard output, every severity enabled,
    /// a 10 MiB rotation threshold.
    pub fn new() -> (lg: Logger)
        ensures
            lg.filepath@ == Seq::<char>::empty(),
            lg.level == A_LEVEL,
            lg.size == 10 * 1024 * 1024,
    {
        Logger { filepath: String::new(), level: A_LEVEL, size: 10 * 1024 * 1024 }
    }
}

/// The configuration `lg` with its enabled mask replaced by `level`.
pub open spec fn with_level(lg: Logger, level: u8) -> Logger {
    Logger { level, ..lg }
}

/// The configuration `lg` with its destination path replaced by `filepath`.
pub open spec fn with_filepath(lg: Logger, filepath: String) -> Logger {
    Logger { filepath, ..lg }
}

/// The configuration `lg` with its rotation threshold replaced by `size`.
pub open spec fn with_size(lg: Logger, size: u64) -> Logger {
    Logger { size, ..lg }
}

/// Set the destination path. The empty string routes back to standard
/// output; a non-empty string routes to that file.
pub fn set_filepath(lger: &mut Logger, filepath: String)
    ensures
        *final(lger) == with_filepath(*old(lger), filepath),
{
    lger.filepath = filepath;
}

/// Set the enabled-severity bitmask. Any value is accepted; bits outside
/// the six defined severities never match a severity and are harmless.
pub fn set_level(lger: &mut Logger, level: u8)
    ensures
        *final(lger) == with_level(*old(lger), level),
{
    lger.level = level;
}

/// Set the rotation threshold in bytes.
pub fn set_size(lger: &mut Logger, size: u64)
    ensures
        *final(lger) == with_size(*old(lger), size),
{
    lger.size = size;
}

/// Whether a record at severity `level` is emitted under this
/// configuration: exactly when the enabled mask includes a bit of `level`.
pub fn can_log(lger: &Logger, level: u8) -> (r: bool)
    ensures
        r == (lger.level & level != 0),
{
    lger.level & level != 0
}

/// Whether records are routed to standard output: exactly when the
/// destination path is empty.
pub fn is_stdout(lger: &Logger) -> (r: bool)
    ensures
        r == (lger.filepath@.len() == 0),
{
    lger.filepath.as_str().unicode_len() == 0
}

/// The one-line rendering of a configuration that `dump` returns: the
/// destination path in quotes, then the enabled mask and the rotation
/// threshold in decimal.
pub open spec fn dump_line(lg: Logger) -> Seq<char> {
    "Logger { filepath: \""@ + lg.filepath@ + "\", level: "@ + dec_digits(lg.level as nat)
        + ", size: "@ + dec_digits(lg.size as nat) + " }"@
}

/// Render the current configuration for diagnostics; the surrounding
/// program prints the returned line.
pub fn dump(lger: &Logger) -> (s: String)
    ensures
        s@ == dump_line(*lger),
{
    let mut s = String::new();
    s.append("Logger { filepath: \"");
    s.append(lger.filepath.as_str());
    s.append("\", level: ");
    let level = u64_string(lger.level as u64);
    s.append(level.as_str());
    s.append(", size: ");
    let size = u64_string(lger.size);
    s.append(size.as_str());
    s.append(" }");
    proof {
        assert(s@ =~= dump_line(*lger));
    }
    s
}

/// The tag character of a severity: 'T', 'D', 'I', 'W', 'E' or 'F' for the
/// six defined severity bits, and 'U' for every other value.
pub open spec fn level_flag_spec(level: u8) -> char {
    if level == T_LEVEL {
        'T'
    } else if level == D_LEVEL {
        'D'
    } else if level == I_LEVEL {
        'I'
    } else if level == W_LEVEL {
        'W'
    } else if level == E_LEVEL {
        'E'
    } else if level == F_LEVEL {
        'F'
    } else {
        'U'
    }
}

/// The tag character printed for a severity: one of 'T', 'D', 'I', 'W',
/// 'E', 'F'; any other bit pattern yields 'U'.
pub fn level_flag(level: u8) -> (r: char)
    ensures
        r == level_flag_spec(level),
{
    if level == T_LEVEL {
        'T'
    } else if level == D_LEVEL {
        'D'
    } else if level == I_LEVEL {
        'I'
    } else if level == W_LEVEL {
        'W'
    } else if level == E_LEVEL {
        'E'
    } else if level == F_LEVEL {
        'F'
    } else {
        'U'
    }
}

/// The tag of a severity as a one-character string, for building the
/// record prefix.
pub fn level_flag_str(level: u8) -> (r: &'static str)
    ensures
        r@ == seq![level_flag_spec(level)],
{
    proof {
        reveal_strlit("T");
        reveal_strlit("D");
        reveal_strlit("I");
        reveal_strlit("W");
        reveal_strlit("E");
        reveal_strlit("F");
        reveal_strlit("U");
    }
    let r: &'static str = if level == T_LEVEL {
        "T"
    } else if level == D_LEVEL {
        "D"
    } else if level == I_LEVEL {
        "I"
    } else if level == W_LEVEL {
        "W"
    } else if level == E_LEVEL {
        "E"
    } else if level == F_LEVEL {
        "F"
    } else {
        "U"
    };
    proof {
        assert(r@ =~= seq![level_flag_spec(level)]);
    }
    r
}

/// Setting the enabled mask twice with the same value leaves exactly the
/// state that setting it once leaves, so the enabled/disabled behaviour of
/// every later call is identical.
pub proof fn lemma_set_level_idempotent(lg: Logger, level: u8)
    ensures
        with_level(with_level(lg, level), level) == with_level(lg, level),
{
}

} // verus!
