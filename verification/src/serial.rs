//! Process-wide file identities.
//!
//! A [`FileSerial`] is the shared synchronization anchor for one physical
//! file, keyed by the filesystem's stable identifier (the inode number). A
//! [`FileRegistry`] deduplicates serials: every handle opened on paths that
//! resolve to the same key shares one serial, so all of them contend on the
//! same lock objects. The registry holds only non-owning references; a serial
//! lives exactly as long as its longest-lived owner.

use crate::errors::IOError;
use std::sync::{Arc, Mutex, RwLock, Weak};
use vstd::prelude::*;

verus! {

/// Tagging struct to enable disjoint locks on a [`FileSerial`].
#[derive(Debug)]
pub struct Locker;

#[verifier::external_type_specification]
#[verifier::external_body]
#[verifier::reject_recursive_types(T)]
pub struct ExRwLock<T: ?Sized>(RwLock<T>);

#[verifier::external_type_specification]
#[verifier::external_body]
#[verifier::reject_recursive_types(T)]
pub struct ExMutex<T: ?Sized>(Mutex<T>);

/// A non-owning reference to a [`FileSerial`], held opaquely because the
/// reference type itself cannot be declared to the verifier.
#[verifier::external_body]
struct WeakSerial {
    weak: Weak<FileSerial>,
}

#[verifier::external_type_specification]
#[verifier::external_body]
pub struct ExErrno(nix::errno::Errno);

/// Relies on nix's errno values: classifies an OS error code into this
/// library's error kinds, as the standard library classifies the same codes.
#[verifier::external_body]
pub(crate) fn errno_to_io_error(errno: nix::errno::Errno) -> IOError {
    match errno {
        nix::errno::Errno::EACCES | nix::errno::Errno::EPERM => IOError::AccessDeniedError,
        nix::errno::Errno::ENOENT => IOError::FileNotFoundError,
        nix::errno::Errno::EINTR => IOError::Interrupted,
        nix::errno::Errno::EINVAL => IOError::InvalidInput,
        _ => IOError::Generic,
    }
}

/// Relies on std::sync::RwLock::new.
#[verifier::external_body]
fn rw_lock_new<T>(value: T) -> RwLock<T> {
    RwLock::new(value)
}

/// Relies on std::sync::Mutex::new.
#[verifier::external_body]
fn mutex_new<T>(value: T) -> Mutex<T> {
    Mutex::new(value)
}

/// Relies on std::sync::Arc::as_ref: borrows the shared value.
#[verifier::external_body]
pub(crate) fn arc_as_ref<T>(strong: &Arc<T>) -> (r: &T)
    ensures
        *r == **strong,
{
    strong.as_ref()
}

/// Relies on std::sync::Arc::downgrade: a non-owning reference to the same
/// allocation, which does not keep the value alive.
#[verifier::external_body]
fn serial_downgrade(strong: &Arc<FileSerial>) -> WeakSerial {
    WeakSerial { weak: Arc::downgrade(strong) }
}

/// Relies on std::sync::Weak::upgrade: an owning handle to the allocation
/// this reference points to, or `None` if no owning handle was left. Whether
/// an upgrade succeeds depends on what other threads dropped meanwhile, so
/// nothing is promised of the outcome.
#[verifier::external_body]
fn serial_upgrade(weak: &WeakSerial) -> Option<Arc<FileSerial>> {
    weak.weak.upgrade()
}

/// Relies on std::sync::Weak::strong_count: the number of owning handles at
/// some moment; it may change concurrently, so nothing is promised of it.
#[verifier::external_body]
fn serial_strong_count(weak: &WeakSerial) -> usize {
    weak.weak.strong_count()
}

/// Relies on nix::sys::stat::stat: the inode number of the file or directory
/// at `path`, which identifies it uniquely and stably within its filesystem.
#[verifier::external_body]
fn stat_inode(path: &str) -> Result<u64, IOError> {
    match nix::sys::stat::stat(path) {
        Ok(meta) => Ok(meta.st_ino),
        Err(e) => Err(errno_to_io_error(e)),
    }
}

/// A [`FileSerial`] is a unique identification of a given file or directory
/// within its filesystem, and should be used to synchronize access between
/// threads to the underlying resource.
///
/// # Locking
/// The [`FileSerial`] contains two disjoint locking mechanisms:
/// * A [`RwLock`] to coordinate exclusive access with shared access to the
///   associated file.
/// * A [`Mutex`] to coordinate exclusive access to the associated file.
#[derive(Debug)]
pub struct FileSerial {
    /// The unique identifying key of this [`FileSerial`].
    key: u64,

    /// The lock object for read/write locks.
    rw: RwLock<Locker>,

    /// The lock object for exclusive locks.
    mutex: Mutex<Locker>,
}

impl FileSerial {
    /// The unique key, for use in contracts.
    pub closed spec fn spec_key(&self) -> u64 {
        self.key
    }

    /// Returns the unique key identifying the underlying file.
    pub fn key(&self) -> (r: u64)
        ensures
            r == self.spec_key(),
    {
        self.key
    }

    /// Returns the lock object for read/write locks.
    pub fn rw_lock(&self) -> &RwLock<Locker> {
        &self.rw
    }

    /// Returns the lock object for exclusive locks.
    pub fn exclusive_lock(&self) -> &Mutex<Locker> {
        &self.mutex
    }

    /// Builds a fresh serial for `key` with unlocked lock objects.
    fn with_key(key: u64) -> (r: Self)
        ensures
            r.spec_key() == key,
    {
        FileSerial { key, rw: rw_lock_new(Locker), mutex: mutex_new(Locker) }
    }
}

/// Resolution of a path to the platform's stable file key.
pub trait FileKeyResolver {
    /// Resolves the unique, stable key of the file or directory at `path`.
    fn resolve_file_key(path: &str) -> Result<u64, IOError>;
}

impl FileKeyResolver for FileSerial {
    /// Resolves a path to the inode number of the file behind it.
    fn resolve_file_key(path: &str) -> Result<u64, IOError> {
        stat_inode(path)
    }
}

/// One registry slot: the key a serial was registered under, beside a
/// non-owning reference to it.
struct RegistryEntry {
    key: u64,
    serial: WeakSerial,
}

/// The set of [`FileSerial`] instances in use, kept sorted by key.
///
/// The registry owns none of its serials: each entry holds a weak reference,
/// so a serial disappears once its last owner drops it. An entry whose serial
/// is gone stays behind until [`FileRegistry::prune_one`] removes it or a new
/// serial for the same key replaces it.
pub struct FileRegistry {
    entries: Vec<RegistryEntry>,
}

impl View for FileRegistry {
    type V = Seq<u64>;

    /// A registry is abstractly the sequence of keys it holds.
    closed spec fn view(&self) -> Seq<u64> {
        Seq::new(self.entries@.len(), |i: int| self.entries@[i].key)
    }
}

impl FileRegistry {
    /// The keys are strictly increasing: sorted, with no key twice.
    pub open spec fn wf(&self) -> bool {
        forall|i: int, j: int| 0 <= i < j < self@.len() ==> self@[i] < self@[j]
    }

    /// Creates an empty registry.
    pub fn new() -> (r: Self)
        ensures
            r.wf(),
            r@ == Seq::<u64>::empty(),
    {
        FileRegistry { entries: Vec::new() }
    }

    /// The number of entries, live or expired.
    pub fn len(&self) -> (r: usize)
        ensures
            r == self@.len(),
    {
        self.entries.len()
    }

    /// Binary search over the stored keys: `Ok` with the position holding
    /// `key`, or `Err` with the position at which `key` would be inserted.
    fn locate(&self, key: u64) -> (r: Result<usize, usize>)
        requires
            self.wf(),
        ensures
            (r matches Ok(i) ==> i < self@.len() && self@[i as int] == key),
            (r matches Err(i) ==> i <= self@.len() && (forall|j: int|
                0 <= j < i ==> self@[j] < key) && (forall|j: int|
                i <= j < self@.len() ==> self@[j] > key)),
    {
        let mut low: usize = 0;
        let mut high: usize = self.entries.len();
        while low < high
            invariant
                self.wf(),
                low <= high <= self@.len(),
                forall|j: int| 0 <= j < low ==> self@[j] < key,
                forall|j: int| high <= j < self@.len() ==> self@[j] > key,
            decreases high - low,
        {
            let middle = low + (high - low) / 2;
            let middle_key = self.entries[middle].key;
            proof {
                assert(self@[middle as int] == middle_key);
            }
            if middle_key < key {
                proof {
                    assert forall|j: int| 0 <= j <= middle implies self@[j] < key by {
                        if j < middle {
                            assert(self@[j] < self@[middle as int]);
                        }
                    }
                }
                low = middle + 1;
            } else if middle_key > key {
                proof {
                    assert forall|j: int| middle <= j < self@.len() implies self@[j] > key by {
                        if middle < j {
                            assert(self@[middle as int] < self@[j]);
                        }
                    }
                }
                high = middle;
            } else {
                return Ok(middle);
            }
        }
        Err(low)
    }

    /// Looks up a live serial registered under `key`. Returns `None` where no
    /// entry has the key, and also where the entry's serial has expired.
    pub fn lookup(&self, key: u64) -> (r: Option<Arc<FileSerial>>)
        requires
            self.wf(),
        ensures
            (r matches Some(serial) ==> serial.spec_key() == key && self@.contains(key)),
            !self@.contains(key) ==> r is None,
    {
        match self.locate(key) {
            Ok(index) => {
                proof {
                    assert(self@[index as int] == key);
                }
                match serial_upgrade(&self.entries[index].serial) {
                    Some(serial) => {
                        if arc_as_ref(&serial).key() == key {
                            Some(serial)
                        } else {
                            None
                        }
                    },
                    None => None,
                }
            },
            Err(_) => None,
        }
    }

    /// Registers `serial` under its key: a fresh entry is inserted at its
    /// sorted position, or replaces the expired entry that held the key.
    fn insert_serial(&mut self, serial: &Arc<FileSerial>)
        requires
            old(self).wf(),
        ensures
            final(self).wf(),
            final(self)@.contains((**serial).spec_key()),
            forall|k: u64|
                k != (**serial).spec_key() ==> (final(self)@.contains(k) <==> old(
                    self,
                )@.contains(k)),
    {
        let key = arc_as_ref(serial).key();
        let weak = serial_downgrade(serial);
        let entry = RegistryEntry { key, serial: weak };
        match self.locate(key) {
            Ok(index) => {
                self.entries.remove(index);
                self.entries.insert(index, entry);
                proof {
                    assert(self@ =~= old(self)@);
                    assert(self@[index as int] == key);
                }
            },
            Err(index) => {
                self.entries.insert(index, entry);
                proof {
                    assert(self@ =~= old(self)@.insert(index as int, key));
                    assert(self@[index as int] == key);
                    assert forall|a: int, b: int| 0 <= a < b < self@.len() implies self@[a]
                        < self@[b] by {
                        if b < index {
                            assert(self@[a] == old(self)@[a] && self@[b] == old(self)@[b]);
                        } else if a > index {
                            assert(self@[a] == old(self)@[a - 1] && self@[b] == old(self)@[b - 1]);
                        } else if a < index && b > index {
                            assert(self@[a] == old(self)@[a] && self@[b] == old(self)@[b - 1]);
                        } else if a == index && b > index {
                            assert(self@[b] == old(self)@[b - 1]);
                        } else if a < index && b == index {
                            assert(self@[a] == old(self)@[a]);
                        }
                    }
                    assert forall|k: u64| k != key implies (self@.contains(k) <==> old(
                        self,
                    )@.contains(k)) by {
                        if old(self)@.contains(k) {
                            let j = choose|j: int|
                                0 <= j < old(self)@.len() && old(self)@[j] == k;
                            if j < index {
                                assert(self@[j] == k);
                            } else {
                                assert(self@[j + 1] == k);
                            }
                        }
                        if self@.contains(k) {
                            let j = choose|j: int| 0 <= j < self@.len() && self@[j] == k;
                            if j < index {
                                assert(old(self)@[j] == k);
                            } else if j > index {
                                assert(old(self)@[j - 1] == k);
                            }
                        }
                    }
                }
            },
        }
    }

    /// Removes the last entry whose serial has no owner left; logs nothing
    /// and does nothing where every entry is live. Returns the index that was
    /// removed.
    ///
    /// This is the registry's explicit pruning rule: it may be called from
    /// any thread, at any time, and removes exactly one expired entry per
    /// call.
    pub fn prune_one(&mut self) -> (r: Option<usize>)
        requires
            old(self).wf(),
        ensures
            final(self).wf(),
            (r matches Some(i) ==> i < old(self)@.len() && final(self)@ == old(self)@.remove(
                i as int,
            )),
            r is None ==> final(self)@ == old(self)@,
    {
        let mut index: usize = self.entries.len();
        while index > 0
            invariant
                self.wf(),
                index <= self@.len(),
                self == old(self),
            decreases index,
        {
            index = index - 1;
            if serial_strong_count(&self.entries[index].serial) == 0 {
                self.entries.remove(index);
                proof {
                    assert(self@ =~= old(self)@.remove(index as int));
                }
                return Some(index);
            }
        }
        None
    }
}

impl FileSerial {
    /// Obtains a unique identification of the given path. Multiple paths
    /// leading to the same location will yield the same [`FileSerial`], as
    /// long as some holder keeps it alive in the registry.
    ///
    /// # Parameters
    /// * `registry` - The registry deduplicating the serials of this process.
    /// * `path` - The path to identify.
    ///
    /// # Errors
    /// This method will return an error in at least the following cases:
    /// * The user lacks permissions to retrieve the metadata of `path`.
    /// * The `path` does not exist.
    pub fn find(registry: &mut FileRegistry, path: &str) -> (r: Result<Arc<FileSerial>, IOError>)
        requires
            old(registry).wf(),
        ensures
            final(registry).wf(),
            (r matches Ok(serial) ==> final(registry)@.contains((*serial).spec_key())),
            forall|k: u64| old(registry)@.contains(k) ==> final(registry)@.contains(k),
            forall|k: u64|
                final(registry)@.contains(k) ==> old(registry)@.contains(k) || (r matches Ok(
                    serial,
                ) && (*serial).spec_key() == k),
            r is Err ==> final(registry)@ == old(registry)@,
    {
        let key = match Self::resolve_file_key(path) {
            Ok(key) => key,
            Err(e) => {
                return Err(e);
            },
        };
        match registry.lookup(key) {
            Some(serial) => Ok(serial),
            None => {
                // No live serial is registered for this key, so create a new
                // one and register it.
                let serial = Arc::new(FileSerial::with_key(key));
                registry.insert_serial(&serial);
                Ok(serial)
            },
        }
    }
}

} // verus!
