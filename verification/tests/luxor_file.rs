use luxor_fs::errors::IOError;
use luxor_fs::fs_lock::{FileRwLock, LockableFile};
use luxor_fs::luxor_file::{LuxorFile, OpenOptions, ReadableFile, WritableFile};
use luxor_fs::serial::{FileRegistry, FileSerial};
use std::sync::Arc;
use tempfile::NamedTempFile;

fn rw_options() -> OpenOptions {
    OpenOptions::new().read(true).write(true)
}

#[test]
fn find_serial_of_non_existing_path() {
    let mut registry = FileRegistry::new();
    let result = FileSerial::find(&mut registry, "/tmp/luxor_do_not_exist");
    assert!(
        matches!(result.err(), Some(IOError::FileNotFoundError)),
        "Finding the FileSerial of a non-existing path should always fail."
    );
}

#[test]
fn find_serial_of_existing_path() {
    let mut registry = FileRegistry::new();
    let path = NamedTempFile::new().unwrap().into_temp_path();
    let result = FileSerial::find(&mut registry, path.to_str().unwrap());
    assert_eq!(
        Arc::strong_count(result.as_ref().unwrap()),
        1,
        "A FileSerial should have exactly 1 strong reference if only a single thread uses it."
    );

    // Use `result` again to prevent early dropping.
    assert!(matches!(result, Ok(_)));
}

#[test]
fn find_serial_twice() {
    let mut registry = FileRegistry::new();
    let path = NamedTempFile::new().unwrap().into_temp_path();
    let first = FileSerial::find(&mut registry, path.to_str().unwrap());
    let second = FileSerial::find(&mut registry, path.to_str().unwrap());

    assert_eq!(
        Arc::strong_count(first.as_ref().unwrap()),
        2,
        "A FileSerial that is retrieved <x> times must have exactly <x> strong references."
    );

    // Use `first` and `second` again to prevent early dropping.
    assert!(matches!(first, Ok(_)));
    assert!(matches!(second, Ok(_)));
}

#[test]
fn find_serial_from_multiple() {
    let mut registry = FileRegistry::new();
    let path_one = NamedTempFile::new().unwrap().into_temp_path();
    let path_two = NamedTempFile::new().unwrap().into_temp_path();
    let path_three = NamedTempFile::new().unwrap().into_temp_path();

    // Ensure all three paths are referenced in the registry.
    let first = FileSerial::find(&mut registry, path_one.to_str().unwrap());
    let _second = FileSerial::find(&mut registry, path_two.to_str().unwrap());
    let _third = FileSerial::find(&mut registry, path_three.to_str().unwrap());

    // Find the first one, ensuring correct ordering.
    let serial = FileSerial::find(&mut registry, path_one.to_str().unwrap());
    assert!(matches!(serial, Ok(_)));
    assert_eq!(serial.unwrap().key(), first.unwrap().key());
}

#[test]
fn find_serial_replaces_expired_entry() {
    let mut registry = FileRegistry::new();
    let path = NamedTempFile::new().unwrap().into_temp_path();

    let first = FileSerial::find(&mut registry, path.to_str().unwrap()).unwrap();
    let key = first.key();
    drop(first);

    // The old serial expired with its last owner; a fresh one takes its slot.
    let second = FileSerial::find(&mut registry, path.to_str().unwrap()).unwrap();
    assert_eq!(second.key(), key);
    assert_eq!(Arc::strong_count(&second), 1);
    assert_eq!(registry.len(), 1);
}

#[test]
fn prune_removes_expired_entries() {
    let mut registry = FileRegistry::new();
    let path_one = NamedTempFile::new().unwrap().into_temp_path();
    let path_two = NamedTempFile::new().unwrap().into_temp_path();

    let keep = FileSerial::find(&mut registry, path_one.to_str().unwrap()).unwrap();
    let fleeting = FileSerial::find(&mut registry, path_two.to_str().unwrap()).unwrap();
    assert_eq!(registry.len(), 2);

    drop(fleeting);
    assert!(registry.prune_one().is_some());
    assert_eq!(registry.len(), 1);

    // Every remaining entry is live, so there is nothing left to prune.
    assert!(registry.prune_one().is_none());
    assert_eq!(keep.key(), keep.key());
}

#[test]
fn open_luxor_file() {
    let mut registry = FileRegistry::new();
    let path = NamedTempFile::new().unwrap().into_temp_path();
    let options = OpenOptions::new().read(true).write(true).create(false);
    let result = LuxorFile::open(&mut registry, path.to_str().unwrap(), &options);

    assert!(matches!(result, Ok(_)));
    let luxor_file = result.unwrap();
    assert_eq!(luxor_file.path(), path.to_str().unwrap());
}

#[test]
fn open_missing_file_without_create_fails() {
    let mut registry = FileRegistry::new();
    let result = LuxorFile::open(&mut registry, "/tmp/luxor_do_not_exist", &rw_options());
    assert!(matches!(result, Err(IOError::FileNotFoundError)));
}

#[test]
fn open_with_empty_path_is_invalid() {
    let mut registry = FileRegistry::new();
    let result = LuxorFile::open(&mut registry, "", &rw_options());
    assert!(matches!(
        result,
        Err(IOError::InvalidInput) | Err(IOError::FileNotFoundError)
    ));
}

#[test]
fn ensure_two_luxor_files_dont_share_fds() {
    let mut registry = FileRegistry::new();
    let path = NamedTempFile::new().unwrap().into_temp_path();
    let file_one = LuxorFile::open(
        &mut registry,
        path.to_str().unwrap(),
        &OpenOptions::new().read(true),
    )
    .unwrap();
    let file_two = LuxorFile::open(
        &mut registry,
        path.to_str().unwrap(),
        &OpenOptions::new().read(true),
    )
    .unwrap();

    assert_ne!(
        file_one.raw_fd(),
        file_two.raw_fd(),
        "Any LuxorFile opening the same path must obtain its own unique file descriptor"
    );
}

#[test]
fn two_handles_share_one_identity() {
    let mut registry = FileRegistry::new();
    let path = NamedTempFile::new().unwrap().into_temp_path();
    let file_one = LuxorFile::open(&mut registry, path.to_str().unwrap(), &rw_options()).unwrap();
    assert_eq!(Arc::strong_count(file_one.serial()), 1);

    let file_two = LuxorFile::open(&mut registry, path.to_str().unwrap(), &rw_options()).unwrap();
    assert_eq!(file_one.serial().key(), file_two.serial().key());
    assert_eq!(Arc::strong_count(file_one.serial()), 2);

    // Dropping one handle releases its share of the identity.
    drop(file_two);
    assert_eq!(Arc::strong_count(file_one.serial()), 1);
}

#[test]
fn memory_locks_are_usable_and_disjoint() {
    let mut registry = FileRegistry::new();
    let path = NamedTempFile::new().unwrap().into_temp_path();
    let file_one = LuxorFile::open(&mut registry, path.to_str().unwrap(), &rw_options()).unwrap();
    let file_two = LuxorFile::open(&mut registry, path.to_str().unwrap(), &rw_options()).unwrap();

    // Both in-process domains can be held at once: they are disjoint.
    let exclusive = file_one.memory_exclusive_lock().lock().unwrap();
    let shared = file_two.memory_rw_lock().read().unwrap();
    drop(shared);
    drop(exclusive);

    // Handles on the same file share the same lock objects: a second
    // non-blocking attempt on the other handle's mutex fails while it is held.
    let held = file_one.memory_exclusive_lock().lock().unwrap();
    assert!(file_two.memory_exclusive_lock().try_lock().is_err());
    drop(held);
}

#[test]
fn ofd_cannot_read_while_writing() {
    let mut registry = FileRegistry::new();
    let path = NamedTempFile::new().unwrap().into_temp_path();

    // Acquire a write lock through one handle.
    let file = LuxorFile::open(&mut registry, path.to_str().unwrap(), &rw_options()).unwrap();
    let _guard = file.file_lock(0, 1).write().unwrap();

    // A different handle has its own file description, so its non-blocking
    // read-lock attempt on the overlapping range finds the range taken.
    let reader = LuxorFile::open(
        &mut registry,
        path.to_str().unwrap(),
        &OpenOptions::new().read(true),
    )
    .unwrap();
    let lock = reader.file_lock(0, 1);

    assert!(
        matches!(lock.try_read(), Ok(None)),
        "When an OFD write lock is held, a read lock cannot be acquired."
    );
}

#[test]
fn ofd_cannot_write_while_reading() {
    let mut registry = FileRegistry::new();
    let path = NamedTempFile::new().unwrap().into_temp_path();

    // Acquire a read lock through one handle.
    let file = LuxorFile::open(
        &mut registry,
        path.to_str().unwrap(),
        &OpenOptions::new().read(true),
    )
    .unwrap();
    let _guard = file.file_lock(0, 1).read().unwrap();

    // A different handle's non-blocking write-lock attempt on the overlapping
    // range finds the range taken.
    let writer = LuxorFile::open(&mut registry, path.to_str().unwrap(), &rw_options()).unwrap();
    let lock = writer.file_lock(0, 1);

    assert!(
        matches!(lock.try_write(), Ok(None)),
        "When an OFD read lock is held, a write lock cannot be acquired."
    );
}

#[test]
fn ofd_locks_from_same_descriptor_are_compatible() {
    let mut registry = FileRegistry::new();
    let path = NamedTempFile::new().unwrap().into_temp_path();
    let file = LuxorFile::open(&mut registry, path.to_str().unwrap(), &rw_options()).unwrap();

    // Locks taken through the same open file description never conflict.
    let _write_guard = file.file_lock(0, 1).write().unwrap();
    assert!(matches!(file.file_lock(0, 1).try_read(), Ok(Some(_))));
}

#[test]
fn ofd_lock_released_on_drop() {
    let mut registry = FileRegistry::new();
    let path = NamedTempFile::new().unwrap().into_temp_path();
    let file = LuxorFile::open(&mut registry, path.to_str().unwrap(), &rw_options()).unwrap();
    let other = LuxorFile::open(
        &mut registry,
        path.to_str().unwrap(),
        &OpenOptions::new().read(true),
    )
    .unwrap();

    let guard = file.file_lock(0, 1).write().unwrap();
    assert!(matches!(other.file_lock(0, 1).try_read(), Ok(None)));

    // Dropping the guard releases the OS-level lock.
    drop(guard);
    assert!(matches!(other.file_lock(0, 1).try_read(), Ok(Some(_))));
}

#[test]
fn ofd_locks_on_disjoint_ranges_do_not_conflict() {
    let mut registry = FileRegistry::new();
    let path = NamedTempFile::new().unwrap().into_temp_path();
    let file = LuxorFile::open(&mut registry, path.to_str().unwrap(), &rw_options()).unwrap();
    let other = LuxorFile::open(&mut registry, path.to_str().unwrap(), &rw_options()).unwrap();

    let _guard = file.file_lock(0, 4).write().unwrap();
    assert!(matches!(other.file_lock(4, 4).try_write(), Ok(Some(_))));
}

#[test]
fn luxor_file_read_write_cycle() {
    let mut registry = FileRegistry::new();
    let path = NamedTempFile::new().unwrap().into_temp_path();
    let result = LuxorFile::open(
        &mut registry,
        path.to_str().unwrap(),
        &OpenOptions::new().read(true).write(true).create(true),
    );

    // Write the data.
    assert!(matches!(result, Ok(_)));
    let luxor_file = result.unwrap();
    let data = [1u8, 3, 3, 7];
    assert!(matches!(luxor_file.write(&data, 0), Ok(4usize)));

    // Ensure the data has reached the disk.
    assert!(matches!(luxor_file.sync(), Ok(_)));

    // And read it back.
    let mut retrieved = vec![0u8; 4];
    assert!(matches!(luxor_file.read(&mut retrieved, 0), Ok(4usize)));
    assert_eq!(
        &data[..],
        &retrieved[..],
        "The data read from the file must exactly equal the data written to it."
    );
}

#[test]
fn synced_bytes_read_back_through_any_handle() {
    let mut registry = FileRegistry::new();
    let path = NamedTempFile::new().unwrap().into_temp_path();

    let writer = LuxorFile::open(&mut registry, path.to_str().unwrap(), &rw_options()).unwrap();
    let data = [9u8, 8, 7, 6, 5];
    assert_eq!(writer.write(&data, 32).unwrap(), 5);
    writer.sync().unwrap();

    // An existing independent handle sees the same bytes at the same offset.
    let existing = LuxorFile::open(
        &mut registry,
        path.to_str().unwrap(),
        &OpenOptions::new().read(true),
    )
    .unwrap();
    let mut seen = vec![0u8; 5];
    assert_eq!(existing.read(&mut seen, 32).unwrap(), 5);
    assert_eq!(&seen[..], &data[..]);

    // A handle opened only now sees them too.
    drop(writer);
    let fresh = LuxorFile::open(
        &mut registry,
        path.to_str().unwrap(),
        &OpenOptions::new().read(true),
    )
    .unwrap();
    let mut seen_fresh = vec![0u8; 5];
    assert_eq!(fresh.read(&mut seen_fresh, 32).unwrap(), 5);
    assert_eq!(&seen_fresh[..], &data[..]);
}

#[test]
fn write_beyond_eof_extends_and_zero_fills() {
    let mut registry = FileRegistry::new();
    let path = NamedTempFile::new().unwrap().into_temp_path();
    let file = LuxorFile::open(&mut registry, path.to_str().unwrap(), &rw_options()).unwrap();

    // Lay down a prefix, then write past the end of the file.
    assert_eq!(file.write(&[0xaa, 0xbb], 0).unwrap(), 2);
    assert_eq!(file.write(&[0xcc], 100).unwrap(), 1);
    assert_eq!(file.size().unwrap(), 101);

    // Every byte strictly between the old end and the new write reads back 0.
    let mut contents = vec![1u8; 101];
    assert_eq!(file.read(&mut contents, 0).unwrap(), 101);
    assert_eq!(contents[0], 0xaa);
    assert_eq!(contents[1], 0xbb);
    for index in 2..100 {
        assert_eq!(contents[index], 0, "byte {} of the gap must be zero", index);
    }
    assert_eq!(contents[100], 0xcc);
}

#[test]
fn size_follows_set_len() {
    let mut registry = FileRegistry::new();
    let path = NamedTempFile::new().unwrap().into_temp_path();
    let file = LuxorFile::open(&mut registry, path.to_str().unwrap(), &rw_options()).unwrap();

    assert_eq!(file.size().unwrap(), 0);
    file.set_len(4096).unwrap();
    assert_eq!(file.size().unwrap(), 4096);

    // The extension is zero-filled.
    let mut tail = vec![7u8; 8];
    assert_eq!(file.read(&mut tail, 4088).unwrap(), 8);
    assert_eq!(&tail[..], &[0u8; 8]);
}

#[test]
fn short_read_at_end_of_file() {
    let mut registry = FileRegistry::new();
    let path = NamedTempFile::new().unwrap().into_temp_path();
    let file = LuxorFile::open(&mut registry, path.to_str().unwrap(), &rw_options()).unwrap();

    assert_eq!(file.write(&[1, 2, 3], 0).unwrap(), 3);
    let mut buffer = vec![9u8; 8];
    // Reading close to the end returns fewer bytes without failing, and
    // leaves the bytes past the count read as they were.
    assert_eq!(file.read(&mut buffer, 1).unwrap(), 2);
    assert_eq!(&buffer[..], &[2, 3, 9, 9, 9, 9, 9, 9]);
    // Reading at or past the end returns zero bytes.
    assert_eq!(file.read(&mut buffer, 3).unwrap(), 0);
    assert_eq!(&buffer[..], &[2, 3, 9, 9, 9, 9, 9, 9]);
}

#[test]
fn open_requires_an_access_mode() {
    let mut registry = FileRegistry::new();
    let path = NamedTempFile::new().unwrap().into_temp_path();

    // No access at all is refused before the OS is asked.
    let none = OpenOptions::new();
    assert!(matches!(
        LuxorFile::open(&mut registry, path.to_str().unwrap(), &none),
        Err(IOError::InvalidInput)
    ));

    // Creating or truncating needs write access.
    let create_only = OpenOptions::new().read(true).create(true);
    assert!(matches!(
        LuxorFile::open(&mut registry, path.to_str().unwrap(), &create_only),
        Err(IOError::InvalidInput)
    ));
    let truncate_only = OpenOptions::new().read(true).truncate(true);
    assert!(matches!(
        LuxorFile::open(&mut registry, path.to_str().unwrap(), &truncate_only),
        Err(IOError::InvalidInput)
    ));
}

#[test]
fn read_through_write_only_descriptor_fails() {
    let mut registry = FileRegistry::new();
    let path = NamedTempFile::new().unwrap().into_temp_path();
    let file = LuxorFile::open(
        &mut registry,
        path.to_str().unwrap(),
        &OpenOptions::new().write(true),
    )
    .unwrap();

    let mut buffer = vec![0u8; 4];
    assert!(matches!(file.read(&mut buffer, 0), Err(IOError::Generic)));
}
