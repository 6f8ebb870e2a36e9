//! The system calls that the library makes through nix, and the outside
//! types that its error values carry.

use vstd::prelude::*;

verus! {

/// nix's error value: the errno that a failed call reported.
#[verifier::external_type_specification]
#[verifier::external_body]
pub struct ExErrno(nix::errno::Errno);

/// The error that std's file operations report.
#[verifier::external_type_specification]
#[verifier::external_body]
pub struct ExIoError(std::io::Error);

/// Relies on nix::unistd::sysconf with `PAGE_SIZE`: the machine's page size,
/// `Ok(None)` where the system has no such limit, or the errno. What comes
/// back depends on the machine, so nothing is promised of it.
#[verifier::external_body]
pub(crate) fn sysconf_page_size() -> (r: Result<Option<i64>, nix::errno::Errno>) {
    nix::unistd::sysconf(nix::unistd::SysconfVar::PAGE_SIZE)
}

/// Relies on nix::fcntl::posix_fadvise with `POSIX_FADV_DONTNEED`: asks the
/// kernel to drop the cached pages of `len` bytes of the file from `offset`
/// (`len == 0`: to its end); `Ok` where the kernel accepted, else its errno.
#[verifier::external_body]
pub(crate) fn advise_dont_need(fd: i32, offset: i64, len: i64) -> (r: Result<(), nix::errno::Errno>) {
    nix::fcntl::posix_fadvise(fd, offset, len, nix::fcntl::PosixFadviseAdvice::POSIX_FADV_DONTNEED)
}

} // verus!
