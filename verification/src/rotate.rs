//! File preparation before a file write: the rotation policy.
//!
//! Before each write to a file destination the surrounding program
//! observes the file system (does the path have a parent directory, does
//! that directory exist, does the file exist, how long is it) and asks
//! this module what to do. The whole rotation policy is the single rule:
//! once the file grows past the configured threshold, truncate it back to
//! empty.

use vstd::prelude::*;

use crate::log::Logger;

verus! {

/// The file-preparation steps owed before one file write, in order:
/// reject the call (the path has no parent component, an unrecoverable
/// configuration error), create the parent directory recursively, create
/// the file empty, truncate the file back to empty.
pub struct PreparePlan {
    pub reject: bool,
    pub create_dir: bool,
    pub create_file: bool,
    pub truncate: bool,
}

/// Decide the file preparation owed before one write to the destination of
/// `lger`, given what the file system shows: whether the destination path
/// has a parent component, whether that parent directory exists, whether
/// the destination file exists, and its current length in bytes.
///
/// The call is rejected exactly when the path has no parent; the directory
/// is created exactly when it is missing; the file is created exactly when
/// it is missing; and the file is truncated exactly when it exists and its
/// length exceeds the configured threshold.
pub fn before_log_plan(
    lger: &Logger,
    has_parent: bool,
    dir_exists: bool,
    file_exists: bool,
    file_len: u64,
) -> (p: PreparePlan)
    ensures
        p.reject == !has_parent,
        p.create_dir == (has_parent && !dir_exists),
        p.create_file == (has_parent && !file_exists),
        p.truncate == (has_parent && file_exists && file_len > lger.size),
{
    if !has_parent {
        PreparePlan { reject: true, create_dir: false, create_file: false, truncate: false }
    } else {
        PreparePlan {
            reject: false,
            create_dir: !dir_exists,
            create_file: !file_exists,
            truncate: file_exists && file_len > lger.size,
        }
    }
}

} // verus!
