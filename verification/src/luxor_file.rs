//! Random-access file handles bound to a shared file identity.

use crate::errors::IOError;
use crate::serial::{arc_as_ref, errno_to_io_error, FileRegistry, FileSerial, Locker};
use nix::fcntl::OFlag;
use std::sync::{Arc, Mutex, RwLock};
use vstd::prelude::*;

verus! {

/// The options a file is opened with: which accesses the descriptor allows,
/// and whether the file is created or truncated on the way.
#[derive(Debug, Clone, Copy, PartialEq, Eq, Structural)]
pub struct OpenOptions {
    /// Open for reading.
    pub read: bool,
    /// Open for writing.
    pub write: bool,
    /// Create the file if it does not exist yet.
    pub create: bool,
    /// Truncate the file to zero length if it exists.
    pub truncate: bool,
}

impl OpenOptions {
    /// Options with every flag off.
    pub fn new() -> (r: Self)
        ensures
            !r.read && !r.write && !r.create && !r.truncate,
    {
        OpenOptions { read: false, write: false, create: false, truncate: false }
    }

    /// Sets whether the file is opened for reading.
    pub fn read(self, read: bool) -> (r: Self)
        ensures
            r.read == read && r.write == self.write && r.create == self.create && r.truncate
                == self.truncate,
    {
        OpenOptions { read, ..self }
    }

    /// Sets whether the file is opened for writing.
    pub fn write(self, write: bool) -> (r: Self)
        ensures
            r.read == self.read && r.write == write && r.create == self.create && r.truncate
                == self.truncate,
    {
        OpenOptions { write, ..self }
    }

    /// Sets whether the file is created if missing.
    pub fn create(self, create: bool) -> (r: Self)
        ensures
            r.read == self.read && r.write == self.write && r.create == create && r.truncate
                == self.truncate,
    {
        OpenOptions { create, ..self }
    }

    /// Sets whether the file is truncated to zero length.
    pub fn truncate(self, truncate: bool) -> (r: Self)
        ensures
            r.read == self.read && r.write == self.write && r.create == self.create && r.truncate
                == truncate,
    {
        OpenOptions { truncate, ..self }
    }
}

/// Relies on std::path::absolute: the absolute form of `path`, resolved
/// against the current working directory without touching the filesystem. A
/// path that cannot be resolved (it is empty) or is not valid text is
/// rejected as invalid input.
#[verifier::external_body]
fn absolute_path(path: &str) -> (r: Result<String, IOError>)
    ensures
        r matches Err(e) ==> e == IOError::InvalidInput,
{
    match std::path::absolute(path) {
        Ok(resolved) => match resolved.into_os_string().into_string() {
            Ok(text) => Ok(text),
            Err(_) => Err(IOError::InvalidInput),
        },
        Err(_) => Err(IOError::InvalidInput),
    }
}

/// Relies on nix::fcntl::open: opens the file at `path` per the given
/// options, returning a fresh, non-negative file descriptor.
#[verifier::external_body]
fn sys_open(path: &str, options: &OpenOptions) -> (r: Result<i32, IOError>)
    ensures
        r matches Ok(fd) ==> fd >= 0,
{
    let mut flags = match (options.read, options.write) {
        (true, true) => OFlag::O_RDWR,
        (_, true) => OFlag::O_WRONLY,
        _ => OFlag::O_RDONLY,
    };
    flags.set(OFlag::O_CREAT, options.create);
    flags.set(OFlag::O_TRUNC, options.truncate);
    let mode = nix::sys::stat::Mode::from_bits_truncate(0o666);
    nix::fcntl::open(path, flags, mode).map_err(errno_to_io_error)
}

/// Relies on nix::unistd::close: releases the descriptor. A failed close is
/// swallowed; the descriptor counts as gone either way.
#[verifier::external_body]
fn sys_close(fd: i32) {
    let _ = nix::unistd::close(fd);
}

/// Relies on nix::sys::uio::pread: reads up to `buf.len()` bytes from the
/// file at `offset` into the front of `buf` and returns how many were read;
/// short reads are not errors, and the bytes past the count read are left as
/// they were. On error, no bytes were read into `buf`.
#[verifier::external_body]
fn pread_at(fd: i32, buf: &mut Vec<u8>, offset: i64) -> (r: Result<usize, IOError>)
    ensures
        final(buf)@.len() == old(buf)@.len(),
        r matches Ok(n) ==> n <= old(buf)@.len() && final(buf)@.skip(n as int) == old(
            buf,
        )@.skip(n as int),
        r is Err ==> final(buf)@ == old(buf)@,
{
    nix::sys::uio::pread(fd, buf.as_mut_slice(), offset).map_err(errno_to_io_error)
}

/// Relies on nix::sys::uio::pwrite: writes up to `buf.len()` bytes to the
/// file at `offset` and returns how many were written; short writes are not
/// errors. Writing past end-of-file extends the file, zero-filling the gap.
/// On error, nothing was written.
#[verifier::external_body]
fn pwrite_at(fd: i32, buf: &[u8], offset: i64) -> (r: Result<usize, IOError>)
    ensures
        r matches Ok(n) ==> n <= buf@.len(),
{
    nix::sys::uio::pwrite(fd, buf, offset).map_err(errno_to_io_error)
}

/// Relies on nix::sys::stat::stat: the current length in bytes of the file at
/// `path`, from its metadata.
#[verifier::external_body]
fn stat_size(path: &str) -> Result<u64, IOError> {
    match nix::sys::stat::stat(path) {
        Ok(meta) => Ok(meta.st_size as u64),
        Err(e) => Err(errno_to_io_error(e)),
    }
}

/// Relies on nix::unistd::fdatasync: blocks until the OS has flushed the
/// file's data (not necessarily all of its metadata) to the physical device.
#[verifier::external_body]
fn fdatasync_fd(fd: i32) -> Result<(), IOError> {
    nix::unistd::fdatasync(fd).map_err(errno_to_io_error)
}

/// Relies on nix::unistd::ftruncate: sets the file's length, zero-filling
/// when it grows.
#[verifier::external_body]
fn ftruncate_fd(fd: i32, size: i64) -> Result<(), IOError> {
    nix::unistd::ftruncate(fd, size).map_err(errno_to_io_error)
}

/// A [`LuxorFile`] is used to operate on B+Tree and WAL files.
///
/// # Synchronization
///
/// Instances of [`LuxorFile`] delegate their inter-thread synchronization to
/// a unique [`FileSerial`], keyed by the file's inode number. Files opened
/// through different paths to the same physical file therefore share their
/// lock objects. It is strongly recommended that every thread uses its own
/// [`LuxorFile`] instance: each then has its own descriptor, which the
/// OS-level byte-range locks need in order to conflict at all.
///
/// # Locking
/// A [`LuxorFile`] supports three disjoint locking features:
/// * In-process read/write locking through [`LuxorFile::memory_rw_lock`].
/// * In-process exclusive locking through [`LuxorFile::memory_exclusive_lock`].
/// * OS-level byte-range locks through the lock returned by `file_lock`.
pub struct LuxorFile {
    /// The full, absolute path to this file.
    path: String,

    /// The unique file serial used for inter-thread synchronization.
    serial: Arc<FileSerial>,

    /// The open descriptor of this handle.
    fd: i32,
}

impl LuxorFile {
    /// The absolute path, for use in contracts.
    pub closed spec fn spec_path(&self) -> Seq<char> {
        self.path@
    }

    /// The descriptor, for use in contracts.
    pub closed spec fn spec_fd(&self) -> i32 {
        self.fd
    }

    /// The key of the file identity this handle shares, for use in contracts.
    pub closed spec fn spec_key(&self) -> u64 {
        (*self.serial).spec_key()
    }

    /// Using `options`, opens a new [`LuxorFile`] that will reside at `path`.
    ///
    /// The file is opened before its identity is resolved, so that creating a
    /// missing file per `options` takes effect before the identity lookup,
    /// which requires the file to exist.
    ///
    /// Options that request no access at all, or ask to create or truncate a
    /// file opened without write access, are rejected as invalid input before
    /// the operating system is asked anything.
    ///
    /// # Parameters
    /// * `registry` - The registry deduplicating file identities.
    /// * `path` - The path to the file, which may be relative.
    /// * `options` - The options to use when opening the file.
    ///
    /// # Return
    /// On success, returns an owned [`LuxorFile`] whose identity is
    /// registered. On failure, returns an [`IOError`] and leaves the registry
    /// unchanged.
    pub fn open(registry: &mut FileRegistry, path: &str, options: &OpenOptions) -> (r: Result<
        LuxorFile,
        IOError,
    >)
        requires
            old(registry).wf(),
        ensures
            final(registry).wf(),
            (r matches Ok(file) ==> final(registry)@.contains(file.spec_key()) && file.spec_fd()
                >= 0),
            forall|k: u64| old(registry)@.contains(k) ==> final(registry)@.contains(k),
            forall|k: u64|
                final(registry)@.contains(k) ==> old(registry)@.contains(k) || (r matches Ok(file)
                    && file.spec_key() == k),
            (!options.read && !options.write) ==> r == Err::<LuxorFile, IOError>(
                IOError::InvalidInput,
            ),
            ((options.create || options.truncate) && !options.write) ==> r == Err::<
                LuxorFile,
                IOError,
            >(IOError::InvalidInput),
            r is Err ==> final(registry)@ == old(registry)@,
    {
        let abs_path = match absolute_path(path) {
            Ok(resolved) => resolved,
            Err(e) => {
                return Err(e);
            },
        };

        // An open must ask for some access, and may only create or truncate
        // what it can write.
        if !options.read && !options.write {
            return Err(IOError::InvalidInput);
        }
        if (options.create || options.truncate) && !options.write {
            return Err(IOError::InvalidInput);
        }

        // Open the file first, since this might also mandate the manner of
        // creating it.
        let fd = match sys_open(abs_path.as_str(), options) {
            Ok(fd) => fd,
            Err(e) => {
                return Err(e);
            },
        };

        // Then resolve the file serial. This fails, as it should, if the
        // caller forgot to ask for the file to be created, for example.
        match FileSerial::find(registry, abs_path.as_str()) {
            Ok(serial) => Ok(LuxorFile { path: abs_path, serial, fd }),
            Err(e) => {
                sys_close(fd);
                Err(e)
            },
        }
    }

    /// Returns the absolute path of this file.
    pub fn path(&self) -> (r: &str)
        ensures
            r@ == self.spec_path(),
    {
        self.path.as_str()
    }

    /// Returns the raw descriptor of this handle. Every handle owns its own
    /// descriptor; the descriptor stays valid for the handle's lifetime.
    pub fn raw_fd(&self) -> (r: i32)
        ensures
            r == self.spec_fd(),
    {
        self.fd
    }

    /// Returns the shared identity record of this file. All handles whose
    /// paths resolve to the same file share one record.
    pub fn serial(&self) -> (r: &Arc<FileSerial>)
        ensures
            (**r).spec_key() == self.spec_key(),
    {
        &self.serial
    }

    /// Returns the size of this file, in bytes.
    ///
    /// Note: if the file is heavily altered concurrently, the returned value
    /// may be outdated at the time the caller retrieves it.
    pub fn size(&self) -> Result<u64, IOError> {
        stat_size(self.path.as_str())
    }

    /// Attempts to flush all OS caches of this file's data to disk. This
    /// operation blocks until the data (though not necessarily all metadata)
    /// has been written to the physical device.
    pub fn sync(&self) -> Result<(), IOError> {
        fdatasync_fd(self.fd)
    }

    /// Sets the length of this file. Growing the file fills the new bytes
    /// with zeroes.
    pub fn set_len(&self, size: u64) -> Result<(), IOError>
        requires
            size <= 0x7fffffffffffffff,
    {
        ftruncate_fd(self.fd, size as i64)
    }

    /// Returns a read/write lock that allows for shared and exclusive access
    /// to data within this file. Use this lock when both readers and writers
    /// contend for the protected resource.
    ///
    /// Note: this lock is disjoint from (does not conflict with) locks
    /// obtained through [`LuxorFile::memory_exclusive_lock`] or the OS-level
    /// byte-range locks.
    pub fn memory_rw_lock(&self) -> &RwLock<Locker> {
        arc_as_ref(&self.serial).rw_lock()
    }

    /// Returns a mutex that allows for exclusive access to data within this
    /// file. Use this lock when only writers contend for the protected
    /// resource.
    ///
    /// Note: this lock is disjoint from (does not conflict with) locks
    /// obtained through [`LuxorFile::memory_rw_lock`] or the OS-level
    /// byte-range locks.
    pub fn memory_exclusive_lock(&self) -> &Mutex<Locker> {
        arc_as_ref(&self.serial).exclusive_lock()
    }
}

impl Drop for LuxorFile {
    /// Closes the descriptor. Relies on nix::unistd::close; a failed close is
    /// swallowed, as a destructor cannot report it.
    #[verifier::external_body]
    fn drop(&mut self)
        opens_invariants none
        no_unwind
    {
        let _ = nix::unistd::close(self.fd);
    }
}

/// The [`ReadableFile`] allows for various (OS-) independent implementations
/// to read data from random-access files.
pub trait ReadableFile {
    /// Reads up to `buf.len()` bytes from this file into the front of `buf`,
    /// starting at `offset` in this file, and returns the number of bytes
    /// read; the bytes of `buf` past the count read are left as they were.
    /// It is not an error to return with a short read.
    ///
    /// # Errors
    /// * If an error occurs while reading data, this method returns an error
    ///   variant, and no bytes were read into `buf`.
    /// * An [`IOError::Interrupted`] is non-fatal, and the read should be
    ///   retried if there is nothing else to do.
    fn read(&self, buf: &mut Vec<u8>, offset: u64) -> (r: Result<usize, IOError>)
        requires
            offset <= 0x7fffffffffffffff,
        ensures
            final(buf)@.len() == old(buf)@.len(),
            r matches Ok(n) ==> n <= old(buf)@.len() && final(buf)@.skip(n as int) == old(
                buf,
            )@.skip(n as int),
            r is Err ==> final(buf)@ == old(buf)@,
    ;
}

/// The [`WritableFile`] allows for various (OS-) independent implementations
/// to write data to random-access files.
pub trait WritableFile {
    /// Writes up to `buf.len()` bytes to this file, starting at `offset` in
    /// this file, and returns the number of bytes written. A result of `0`
    /// means `buf` was empty or end-of-file was reached. Writing beyond the
    /// end of the file extends the file, and the bytes between the old end
    /// and the write's start are initialized with the value 0. It is not an
    /// error to return with a short write.
    ///
    /// # Errors
    /// * An [`IOError`] indicates the operation could not be completed; no
    ///   bytes from `buf` were written.
    /// * An [`IOError::Interrupted`] is non-fatal, and the write should be
    ///   retried if there is nothing else to do.
    fn write(&self, buf: &[u8], offset: u64) -> (r: Result<usize, IOError>)
        requires
            offset <= 0x7fffffffffffffff,
        ensures
            r matches Ok(n) ==> n <= buf@.len(),
    ;
}

impl ReadableFile for LuxorFile {
    /// Positioned read over this handle's descriptor.
    fn read(&self, buf: &mut Vec<u8>, offset: u64) -> (r: Result<usize, IOError>) {
        pread_at(self.fd, buf, offset as i64)
    }
}

impl WritableFile for LuxorFile {
    /// Positioned write over this handle's descriptor.
    fn write(&self, buf: &[u8], offset: u64) -> (r: Result<usize, IOError>) {
        pwrite_at(self.fd, buf, offset as i64)
    }
}

} // verus!
