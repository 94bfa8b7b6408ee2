//! Validation of the source and destination names handed in on the
//! command line: the sentinel `-` for standard input, a readable file, or
//! an existing directory.

use vstd::prelude::*;

use crate::strutil::str_eq;

verus! {

/// Relies on `std::path::Path::exists`: whether the named path can be
/// reached on disk right now. The result depends on the file system, so
/// nothing is promised of it.
#[verifier::external_body]
fn path_exists(name: &str) -> bool {
    std::path::Path::new(name).exists()
}

/// Relies on `std::path::Path::is_dir`: whether the named path is a
/// directory on disk right now. The result depends on the file system, so
/// nothing is promised of it.
#[verifier::external_body]
fn path_is_dir(name: &str) -> bool {
    std::path::Path::new(name).is_dir()
}

/// Accept an input name: the sentinel `-` (standard input) always, any
/// other name only if it exists on disk.
pub fn verify_file(file_name: &str) -> (r: Result<String, &'static str>)
    ensures
        r matches Ok(v) ==> v@ == file_name@,
        file_name@ == "-"@ ==> r is Ok,
        r matches Err(e) ==> e@ == "Input file does not exist."@ && file_name@ != "-"@,
{
    if str_eq(file_name, "-") || path_exists(file_name) {
        Result::Ok(file_name.to_owned())
    } else {
        Result::Err("Input file does not exist.")
    }
}

/// Accept an output location: a name that exists on disk and is a
/// directory.
pub fn verify_path(path: &str) -> (r: Result<String, &'static str>)
    ensures
        r matches Ok(v) ==> v@ == path@,
        r matches Err(e) ==> e@ == "Path does not exist or is not a directory."@,
{
    if path_exists(path) && path_is_dir(path) {
        Result::Ok(path.to_owned())
    } else {
        Result::Err("Path does not exist or is not a directory.")
    }
}

/// Accept an input name only if it exists on disk; no sentinel here.
pub fn verify_input_file(file_name: &str) -> (r: Result<String, String>)
    ensures
        r matches Ok(v) ==> v@ == file_name@,
        r matches Err(e) ==> e@ == "Input file does not exist."@,
{
    if path_exists(file_name) {
        Result::Ok(file_name.to_owned())
    } else {
        Result::Err("Input file does not exist.".to_owned())
    }
}

} // verus!
