use vstd::prelude::*;

verus! {

/// Asks the file system whether `path` names an existing file or directory,
/// through `std::path::Path::exists`.  The answer depends on the disk at the
/// moment of the call, so nothing is promised about it.
#[verifier::external_body]
pub(crate) fn path_exists(path: &str) -> (found: bool) {
    std::path::Path::new(path).exists()
}

/// Asks the file system whether `path` names an existing directory, through
/// `std::path::Path::is_dir`.  The answer depends on the disk at the moment
/// of the call, so nothing is promised about it.
#[verifier::external_body]
pub(crate) fn path_is_dir(path: &str) -> (found: bool) {
    std::path::Path::new(path).is_dir()
}

} // verus!
