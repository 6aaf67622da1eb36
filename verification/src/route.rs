//! Routing of one log call: decide whether to emit and where.

use vstd::prelude::*;

use crate::log::Logger;
use crate::log::can_log;
use crate::log::is_stdout;
use crate::record::format_record;
use crate::record::record_line;

verus! {

/// What one log call asks the surrounding program to do: nothing (the
/// severity is filtered out), write a line to standard output, or write a
/// line to the configured file after preparing it.
pub enum Route {
    Skip,
    Stdout { line: String },
    File { path: String, line: String },
}

/// Route one record, with the timestamp supplied by the caller.
///
/// The call is skipped exactly when the enabled mask has no bit of `level`;
/// otherwise the line goes to standard output exactly when the destination
/// path is empty, and to the destination file exactly when it is not.
pub fn route_record(
    lger: &Logger,
    level: u8,
    ts: &str,
    file: &str,
    func: &str,
    line_no: u64,
    msg: &str,
) -> (r: Route)
    ensures
        (r is Skip) == (lger.level & level == 0),
        (r is Stdout) == (lger.level & level != 0 && lger.filepath@.len() == 0),
        (r is File) == (lger.level & level != 0 && lger.filepath@.len() != 0),
        (r matches Route::Stdout { line } ==> line@ == record_line(
            level,
            ts@,
            file@,
            func@,
            line_no as nat,
            msg@,
        )),
        (r matches Route::File { path, line } ==> path@ == lger.filepath@ && line@ == record_line(
            level,
            ts@,
            file@,
            func@,
            line_no as nat,
            msg@,
        )),
{
    if !can_log(lger, level) {
        Route::Skip
    } else {
        let line = format_record(level, ts, file, func, line_no, msg);
        if is_stdout(lger) {
            Route::Stdout { line }
        } else {
            Route::File { path: lger.filepath.clone(), line }
        }
    }
}

/// Relies on `chrono::offset::Local::now` and `chrono`'s `format` with the
/// `%F-%X` specifiers: the current local time, rendered to the second as
/// `YYYY-MM-DD-HH:MM:SS`. The result depends on the clock, so nothing is
/// promised of it.
#[verifier::external_body]
fn local_timestamp() -> String {
    chrono::Local::now().format("%F-%X").to_string()
}

/// Route one record, stamping it with the current local time.
///
/// Same routing as `route_record`; the line is the record line for some
/// timestamp, since the clock's value is not known ahead.
pub fn log_record(lger: &Logger, level: u8, file: &str, func: &str, line_no: u64, msg: &str) -> (r:
    Route)
    ensures
        (r is Skip) == (lger.level & level == 0),
        (r is Stdout) == (lger.level & level != 0 && lger.filepath@.len() == 0),
        (r is File) == (lger.level & level != 0 && lger.filepath@.len() != 0),
        (r matches Route::Stdout { line } ==> exists|ts: Seq<char>|
            line@ == record_line(level, ts, file@, func@, line_no as nat, msg@)),
        (r matches Route::File { path, line } ==> path@ == lger.filepath@ && exists|ts: Seq<char>|
            line@ == record_line(level, ts, file@, func@, line_no as nat, msg@)),
{
    let ts = local_timestamp();
    route_record(lger, level, ts.as_str(), file, func, line_no, msg)
}

} // verus!
