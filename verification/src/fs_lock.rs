//! OS-level advisory byte-range locks, bound to an open file description.

use crate::errors::IOError;
use crate::luxor_file::LuxorFile;
use crate::serial::errno_to_io_error;
use nix::fcntl::FcntlArg;
use nix::libc;
use vstd::prelude::*;

verus! {

/// How many times a blocking lock request is repeated after the calling
/// thread was interrupted by a signal while waiting. The wait is meant to be
/// retried for as long as it takes, but every loop here must show a bound;
/// this budget is large enough that it never runs out in practice.
pub const LOCK_RETRY_LIMIT: u64 = 0xffffffffffffffff;

/// Relies on nix::fcntl::fcntl with the open-file-description lock commands:
/// requests a shared or exclusive advisory lock over the byte range
/// `start..start + length` of the description behind `fd`, waiting for it
/// exactly when `blocking` is set. Returns `Ok(true)` when the lock is held,
/// `Ok(false)` when a non-blocking request found the range locked by another
/// description (never for a blocking request, which waits instead), and the
/// classified OS error otherwise -- [`IOError::Interrupted`] where a signal
/// cut a blocking wait short.
#[verifier::external_body]
fn ofd_lock_request(fd: i32, exclusive: bool, blocking: bool, start: i64, length: i64) -> (r:
    Result<bool, IOError>)
    ensures
        blocking ==> !(r matches Ok(held) && !held),
{
    let kind = (if exclusive { libc::F_WRLCK } else { libc::F_RDLCK }) as libc::c_short;
    let whence = libc::SEEK_SET as libc::c_short;
    // l_pid is required to be 0 for OFD locks.
    let description =
        libc::flock { l_type: kind, l_whence: whence, l_start: start, l_len: length, l_pid: 0 };
    let request = if blocking {
        FcntlArg::F_OFD_SETLKW(&description)
    } else {
        FcntlArg::F_OFD_SETLK(&description)
    };
    match nix::fcntl::fcntl(fd, request) {
        Ok(_) => Ok(true),
        Err(nix::errno::Errno::EAGAIN) => Ok(false),
        Err(e) => Err(errno_to_io_error(e)),
    }
}

/// The [`OpenFileDescriptorLock`] is a Linux-specific advisory lock that is
/// associated with the open file description on which it is acquired. Locks
/// placed through the same file descriptor are always compatible (they do not
/// conflict). When overlapping locks are requested through different file
/// descriptors, they conflict according to the usual shared/exclusive rules.
/// This enables users to synchronize access to a file by having different
/// threads use their own file descriptor to acquire such locks.
///
/// Note: in contrast with traditional lock records, the kernel performs no
/// deadlock detection on open-file-description locks.
pub struct OpenFileDescriptorLock {
    fd: i32,
    start: i64,
    length: i64,
}

/// The [`OFDLockGuard`] is an RAII guard that releases the owning thread's
/// (read or write) lock when dropped.
///
/// Note: an error while releasing is suppressed when the guard drops, since a
/// destructor cannot report it; the lock is then lost. A lost shared lock
/// prevents all future exclusive locks from being obtained, whereas a lost
/// exclusive lock prevents all future locks (of any type) from being
/// obtained. Callers must plan for application-level shutdown or retry
/// policy; no automatic recovery is attempted.
pub struct OFDLockGuard {
    fd: i32,
    start: i64,
    length: i64,
}

impl OFDLockGuard {
    /// The descriptor the held lock belongs to, for use in contracts.
    pub closed spec fn spec_fd(&self) -> i32 {
        self.fd
    }

    /// The first byte of the held range, for use in contracts.
    pub closed spec fn spec_start(&self) -> i64 {
        self.start
    }

    /// The length of the held range, for use in contracts.
    pub closed spec fn spec_length(&self) -> i64 {
        self.length
    }
}

impl Drop for OFDLockGuard {
    /// Releases the lock. Relies on nix::fcntl::fcntl with the unlock
    /// command; an error cannot propagate from a destructor and is swallowed,
    /// leaving the lock lost.
    #[verifier::external_body]
    fn drop(&mut self)
        opens_invariants none
        no_unwind
    {
        let description = libc::flock {
            l_type: libc::F_UNLCK as libc::c_short,
            l_whence: libc::SEEK_SET as libc::c_short,
            l_start: self.start,
            l_len: self.length,
            l_pid: 0,
        };
        let _ = nix::fcntl::fcntl(self.fd, FcntlArg::F_OFD_SETLK(&description));
    }
}

impl OpenFileDescriptorLock {
    /// The descriptor this lock requests ranges on, for use in contracts.
    pub closed spec fn spec_fd(&self) -> i32 {
        self.fd
    }

    /// The first byte of the described range, for use in contracts.
    pub closed spec fn spec_start(&self) -> i64 {
        self.start
    }

    /// The length of the described range, for use in contracts.
    pub closed spec fn spec_length(&self) -> i64 {
        self.length
    }

    /// The guard holds the same descriptor and range as this lock describes.
    pub open spec fn describes(&self, guard: OFDLockGuard) -> bool {
        guard.spec_fd() == self.spec_fd() && guard.spec_start() == self.spec_start()
            && guard.spec_length() == self.spec_length()
    }

    /// Builds the description of a byte-range lock over `offset..offset +
    /// length` of the description behind `fd`. The range need not exist in
    /// the file yet.
    pub(crate) fn describe(fd: i32, offset: i64, length: i64) -> (r: Self)
        ensures
            r.spec_fd() == fd,
            r.spec_start() == offset,
            r.spec_length() == length,
    {
        OpenFileDescriptorLock { fd, start: offset, length }
    }

    /// Obtains the requested lock type, blocking until either the lock has
    /// been obtained or an error occurs.
    ///
    /// Note: if the current thread is interrupted by a signal while waiting
    /// to acquire the lock, the wait is retried until the lock is obtained or
    /// a different error occurs; callers never observe the interruption.
    fn lock(&self, exclusive: bool) -> (r: Result<OFDLockGuard, IOError>)
        ensures
            r matches Ok(guard) ==> self.describes(guard),
            r matches Err(e) ==> e != IOError::Interrupted,
    {
        let mut attempts: u64 = 0;
        while attempts < LOCK_RETRY_LIMIT
            invariant
                true,
            decreases LOCK_RETRY_LIMIT - attempts,
        {
            match ofd_lock_request(self.fd, exclusive, true, self.start, self.length) {
                Ok(_) => {
                    return Ok(OFDLockGuard { fd: self.fd, start: self.start, length: self.length });
                },
                Err(IOError::Interrupted) => {
                    // Interrupted while waiting: retry the request.
                    attempts = attempts + 1;
                },
                Err(e) => {
                    return Err(e);
                },
            }
        }
        Err(IOError::Generic)
    }

    /// Tries to obtain the requested lock type, returning immediately.
    /// `Ok(None)` means the range was locked through another description:
    /// contention, not failure.
    fn try_lock(&self, exclusive: bool) -> (r: Result<Option<OFDLockGuard>, IOError>)
        ensures
            r matches Ok(Some(guard)) ==> self.describes(guard),
    {
        match ofd_lock_request(self.fd, exclusive, false, self.start, self.length) {
            Ok(true) => Ok(
                Some(OFDLockGuard { fd: self.fd, start: self.start, length: self.length }),
            ),
            Ok(false) => Ok(None),
            Err(e) => Err(e),
        }
    }
}

/// An advisory reader/writer lock over a region of a file. Whether this lock
/// is associated with a process or with one open file description is
/// implementation-dependent.
pub trait FileRwLock {
    /// The scope-bound token that holds the lock until it is dropped.
    type Guard;

    /// The guard was produced by this lock and covers its range.
    spec fn guard_for(&self, guard: Self::Guard) -> bool;

    /// Obtains a shared lock on the resource described by this lock, and
    /// blocks until either the lock is obtained or an error occurs.
    ///
    /// Note: if the current thread is interrupted while waiting to acquire
    /// the lock, the wait is retried until the lock is obtained or an error
    /// occurs.
    fn read(&self) -> (r: Result<Self::Guard, IOError>)
        ensures
            r matches Ok(guard) ==> self.guard_for(guard),
    ;

    /// Obtains an exclusive lock on the resource described by this lock, and
    /// blocks until either the lock is obtained or an error occurs.
    ///
    /// Note: if the current thread is interrupted while waiting to acquire
    /// the lock, the wait is retried until the lock is obtained or an error
    /// occurs.
    fn write(&self) -> (r: Result<Self::Guard, IOError>)
        ensures
            r matches Ok(guard) ==> self.guard_for(guard),
    ;

    /// Tries to obtain a shared lock on the resource described by this lock.
    /// `Ok(None)` means the lock was held elsewhere: contention, not failure.
    fn try_read(&self) -> (r: Result<Option<Self::Guard>, IOError>)
        ensures
            r matches Ok(Some(guard)) ==> self.guard_for(guard),
    ;

    /// Tries to obtain an exclusive lock on the resource described by this
    /// lock. `Ok(None)` means the lock was held elsewhere: contention, not
    /// failure.
    fn try_write(&self) -> (r: Result<Option<Self::Guard>, IOError>)
        ensures
            r matches Ok(Some(guard)) ==> self.guard_for(guard),
    ;
}

impl FileRwLock for OpenFileDescriptorLock {
    type Guard = OFDLockGuard;

    /// The guard covers exactly the descriptor and range this lock describes.
    open spec fn guard_for(&self, guard: OFDLockGuard) -> bool {
        self.describes(guard)
    }

    /// Obtains a shared lock, waiting for it.
    fn read(&self) -> (r: Result<OFDLockGuard, IOError>) {
        self.lock(false)
    }

    /// Obtains an exclusive lock, waiting for it.
    fn write(&self) -> (r: Result<OFDLockGuard, IOError>) {
        self.lock(true)
    }

    /// Tries to obtain a shared lock without waiting.
    fn try_read(&self) -> (r: Result<Option<OFDLockGuard>, IOError>) {
        self.try_lock(false)
    }

    /// Tries to obtain an exclusive lock without waiting.
    fn try_write(&self) -> (r: Result<Option<OFDLockGuard>, IOError>) {
        self.try_lock(true)
    }
}

/// A [`FileRwLockGuard`] is an RAII token: implementations release the held
/// lock when dropped, and must suppress (merely diagnose) any error doing so,
/// since a destructor cannot report one.
pub trait FileRwLockGuard {
}

impl FileRwLockGuard for OFDLockGuard {
}

/// A [`LockableFile`] is a file whose accesses can be synchronized between
/// threads and processes by locking the file regions one operates on.
pub trait LockableFile {
    /// The lock type this file hands out.
    type Lock;

    /// The lock describes the given range of this file.
    spec fn lock_matches(&self, lock: Self::Lock, offset: i64, length: i64) -> bool;

    /// Returns a [`FileRwLock`] with which to lock the file region specified
    /// by `offset` and `length`. The region need not exist in the file yet.
    fn file_lock(&self, offset: i64, length: i64) -> (r: Self::Lock)
        ensures
            self.lock_matches(r, offset, length),
    ;
}

impl LockableFile for LuxorFile {
    type Lock = OpenFileDescriptorLock;

    /// The lock requests ranges on this handle's own descriptor.
    open spec fn lock_matches(
        &self,
        lock: OpenFileDescriptorLock,
        offset: i64,
        length: i64,
    ) -> bool {
        lock.spec_fd() == self.spec_fd() && lock.spec_start() == offset && lock.spec_length()
            == length
    }

    /// Returns an open-file-description lock that allows for shared and
    /// exclusive access to data within this file.
    fn file_lock(&self, offset: i64, length: i64) -> (r: OpenFileDescriptorLock) {
        OpenFileDescriptorLock::describe(self.raw_fd(), offset, length)
    }
}

} // verus!
