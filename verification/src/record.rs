//! Formatting of a single log record line.
//!
//! A record line is `[<tag>] [<timestamp>] [<file>/<function>:<line>]: `
//! followed by the caller's message and a newline.

use vstd::prelude::*;
use vstd::string::StringExecFns;

use crate::log::level_flag_spec;
use crate::log::level_flag_str;

verus! {

/// The decimal digit character of a value below ten.
pub open spec fn digit_char(d: nat) -> char {
    if d == 0 {
        '0'
    } else if d == 1 {
        '1'
    } else if d == 2 {
        '2'
    } else if d == 3 {
        '3'
    } else if d == 4 {
        '4'
    } else if d == 5 {
        '5'
    } else if d == 6 {
        '6'
    } else if d == 7 {
        '7'
    } else if d == 8 {
        '8'
    } else {
        '9'
    }
}

/// The decimal rendering of `n`, most significant digit first, with no
/// leading zeros (a single '0' for zero itself).
pub open spec fn dec_digits(n: nat) -> Seq<char>
    decreases n,
{
    if n < 10 {
        seq![digit_char(n)]
    } else {
        dec_digits(n / 10).push(digit_char(n % 10))
    }
}

/// The decimal digit of a value below ten, as a one-character string.
fn digit_str(d: u64) -> (r: &'static str)
    requires
        d < 10,
    ensures
        r@ == seq![digit_char(d as nat)],
{
    proof {
        reveal_strlit("0");
        reveal_strlit("1");
        reveal_strlit("2");
        reveal_strlit("3");
        reveal_strlit("4");
        reveal_strlit("5");
        reveal_strlit("6");
        reveal_strlit("7");
        reveal_strlit("8");
        reveal_strlit("9");
    }
    let r: &'static str = if d == 0 {
        "0"
    } else if d == 1 {
        "1"
    } else if d == 2 {
        "2"
    } else if d == 3 {
        "3"
    } else if d == 4 {
        "4"
    } else if d == 5 {
        "5"
    } else if d == 6 {
        "6"
    } else if d == 7 {
        "7"
    } else if d == 8 {
        "8"
    } else {
        "9"
    };
    proof {
        assert(r@ =~= seq![digit_char(d as nat)]);
    }
    r
}

/// The decimal rendering of `n` as a string.
pub fn u64_string(n: u64) -> (s: String)
    ensures
        s@ == dec_digits(n as nat),
    decreases n,
{
    if n < 10 {
        digit_str(n).to_owned()
    } else {
        let mut s = u64_string(n / 10);
        s.append(digit_str(n % 10));
        proof {
            assert(s@ =~= dec_digits(n as nat));
        }
        s
    }
}

/// The full record line for severity `level`, timestamp `ts`, source file
/// `file`, enclosing function `func`, source line `line` and message `msg`:
/// the bracketed prefix, the message, and a trailing newline.
pub open spec fn record_line(
    level: u8,
    ts: Seq<char>,
    file: Seq<char>,
    func: Seq<char>,
    line: nat,
    msg: Seq<char>,
) -> Seq<char> {
    seq!['[', level_flag_spec(level), ']', ' ', '['] + ts + seq![']', ' ', '['] + file + seq!['/']
        + func + seq![':'] + dec_digits(line) + seq![']', ':', ' '] + msg + seq!['\n']
}

/// Every record line is one complete record: it is non-empty, it ends with
/// the newline, and the caller's whole message stands just before that
/// newline. A concurrent writer hands the destination such lines and
/// nothing else.
pub proof fn lemma_record_line_complete(
    level: u8,
    ts: Seq<char>,
    file: Seq<char>,
    func: Seq<char>,
    line: nat,
    msg: Seq<char>,
)
    ensures
        record_line(level, ts, file, func, line, msg).len() >= msg.len() + 1,
        record_line(level, ts, file, func, line, msg).last() == '\n',
        record_line(level, ts, file, func, line, msg).subrange(
            record_line(level, ts, file, func, line, msg).len() - 1 - msg.len() as int,
            record_line(level, ts, file, func, line, msg).len() - 1,
        ) == msg,
{
    let r = record_line(level, ts, file, func, line, msg);
    assert(r.subrange(r.len() - 1 - msg.len() as int, r.len() - 1) =~= msg);
}

/// Build the record line for one log call.
pub fn format_record(
    level: u8,
    ts: &str,
    file: &str,
    func: &str,
    line: u64,
    msg: &str,
) -> (s: String)
    ensures
        s@ == record_line(level, ts@, file@, func@, line as nat, msg@),
{
    let mut s = String::new();
    s.append("[");
    s.append(level_flag_str(level));
    s.append("] [");
    s.append(ts);
    s.append("] [");
    s.append(file);
    s.append("/");
    s.append(func);
    s.append(":");
    let num = u64_string(line);
    s.append(num.as_str());
    s.append("]: ");
    s.append(msg);
    s.append("\n");
    proof {
        reveal_strlit("[");
        reveal_strlit("] [");
        reveal_strlit("/");
        reveal_strlit(":");
        reveal_strlit("]: ");
        reveal_strlit("\n");
        assert(s@ =~= record_line(level, ts@, file@, func@, line as nat, msg@));
    }
    s
}

} // verus!
