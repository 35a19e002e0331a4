//! Page-aligned file regions and memory-mapped segments.

use crate::errors::{IOError, LuxorError};
use crate::os::{sys_page_size, FALLBACK_MEM_PAGE_SIZE};
use memmap2::MmapMut;
use vstd::arithmetic::div_mod::{lemma_add_mod_noop, lemma_mod_self_0, lemma_small_mod};
use vstd::prelude::*;

verus! {

/// The largest page size the rounding constructor is provisioned for: inputs
/// within one such page of the type maximum are excluded by its precondition,
/// so that rounding up cannot overflow on any machine whose pages are at most
/// this large.
pub const MAX_PAGE_SIZE: usize = 0x40000000;

/// Rounds `value` up to the next multiple of `page_size`; the result is
/// `value` itself exactly when `value` is already aligned.
pub fn round_up_to_page(value: u64, page_size: u64) -> (r: u64)
    requires
        0 < page_size,
        value + page_size - 1 <= u64::MAX,
    ensures
        r as int % page_size as int == 0,
        value <= r < value + page_size,
        (r == value) <==> (value as int % page_size as int == 0),
{
    let rem = value % page_size;
    if rem == 0 {
        value
    } else {
        let r = value + (page_size - rem);
        proof {
            lemma_add_mod_noop(value as int, page_size as int - rem as int, page_size as int);
            lemma_small_mod((page_size - rem) as nat, page_size as nat);
            lemma_mod_self_0(page_size as int);
            lemma_small_mod(0nat, page_size as nat);
        }
        r
    }
}

/// Helper struct to create memory-mapped file regions. The `offset` and
/// `length` values are always aligned with the system page size.
#[derive(Debug, Clone, Copy, PartialEq, Eq, Structural)]
pub struct AlignedFileRegion {
    /// The absolute offset in bytes at which the region begins.
    pub offset: u64,

    /// The length in bytes of the region.
    pub length: usize,
}

impl AlignedFileRegion {
    /// Creates a new [`AlignedFileRegion`] from values that must already be
    /// exact multiples of the given `page_size`.
    ///
    /// Succeeds, returning `offset` and `length` unchanged, exactly when both
    /// are multiples of `page_size`; fails naming the first non-conforming
    /// value and the required alignment otherwise.
    pub fn with_page_size(page_size: usize, offset: u64, length: usize) -> (r: Result<
        AlignedFileRegion,
        LuxorError,
    >)
        requires
            0 < page_size,
        ensures
            (offset as int % page_size as int == 0 && length as int % page_size as int == 0)
                <==> (r matches Ok(region) && region.offset == offset && region.length == length),
            offset as int % page_size as int != 0 ==> r == Err::<AlignedFileRegion, LuxorError>(
                LuxorError::AlignmentError { value: offset, alignment: page_size as u64 },
            ),
            (offset as int % page_size as int == 0 && length as int % page_size as int != 0)
                ==> r == Err::<AlignedFileRegion, LuxorError>(
                LuxorError::AlignmentError { value: length as u64, alignment: page_size as u64 },
            ),
    {
        if offset % (page_size as u64) != 0 {
            Err(LuxorError::AlignmentError { value: offset, alignment: page_size as u64 })
        } else if length % page_size != 0 {
            Err(LuxorError::AlignmentError { value: length as u64, alignment: page_size as u64 })
        } else {
            Ok(AlignedFileRegion { offset, length })
        }
    }

    /// Creates a new [`AlignedFileRegion`] using the given `offset` and
    /// `length`, checked against the page size the operating system reports.
    ///
    /// # Errors
    /// * Returns a [`LuxorError::AlignmentError`] naming `offset` if it is not
    ///   aligned to the OS page size.
    /// * Returns a [`LuxorError::AlignmentError`] naming `length` if it is not
    ///   aligned to the OS page size.
    pub fn new(offset: u64, length: usize) -> (r: Result<AlignedFileRegion, LuxorError>)
        ensures
            (r matches Ok(region) ==> region.offset == offset && region.length == length),
            (r matches Err(e) ==> e matches LuxorError::AlignmentError { value, alignment }
                && 0 < alignment && (value == offset || value == length as u64) && value as int
                % alignment as int != 0),
    {
        let page_size = sys_page_size();
        Self::with_page_size(page_size, offset, length)
    }

    /// Creates a new [`AlignedFileRegion`] whose bounds are the given minima,
    /// each rounded up to the next multiple of the given `page_size` if not
    /// already aligned.
    pub fn aligned_with_page_size(page_size: usize, min_offset: u64, min_length: usize) -> (r:
        AlignedFileRegion)
        requires
            0 < page_size,
            min_offset + page_size - 1 <= u64::MAX,
            min_length + page_size - 1 <= usize::MAX,
        ensures
            r.offset as int % page_size as int == 0,
            r.length as int % page_size as int == 0,
            min_offset <= r.offset < min_offset + page_size,
            min_length <= r.length < min_length + page_size,
            (r.offset == min_offset) <==> (min_offset as int % page_size as int == 0),
            (r.length == min_length) <==> (min_length as int % page_size as int == 0),
    {
        let aligned_offset = round_up_to_page(min_offset, page_size as u64);
        let aligned_length_wide = round_up_to_page(min_length as u64, page_size as u64);
        let aligned_length = aligned_length_wide as usize;
        AlignedFileRegion { offset: aligned_offset, length: aligned_length }
    }

    /// Creates a new [`AlignedFileRegion`] using the given `min_offset` and
    /// `min_length`. The given values are rounded up to the next multiple of
    /// the OS page size, if not already so.
    ///
    /// Should the OS report a page size so large that rounding these minima
    /// up to it cannot be represented, the minima are rounded to the fallback
    /// page size instead; with any page size up to [`MAX_PAGE_SIZE`] the
    /// reported value is used as it is.
    pub fn new_aligned(min_offset: u64, min_length: usize) -> (r: AlignedFileRegion)
        requires
            min_offset + MAX_PAGE_SIZE - 1 <= u64::MAX,
            min_length + MAX_PAGE_SIZE - 1 <= usize::MAX,
        ensures
            min_offset <= r.offset,
            min_length <= r.length,
            exists|p: int|
                0 < p && #[trigger] (r.offset as int % p) == 0 && r.length as int % p == 0
                    && r.offset < min_offset + p && r.length < min_length + p,
    {
        let page_size = sys_page_size();
        let fits_offset = page_size as u64 - 1 <= u64::MAX - min_offset;
        let fits_length = page_size - 1 <= usize::MAX - min_length;
        let usable = if fits_offset && fits_length {
            page_size
        } else {
            FALLBACK_MEM_PAGE_SIZE
        };
        let region = Self::aligned_with_page_size(usable, min_offset, min_length);
        proof {
            assert(0 < usable as int && region.offset as int % usable as int == 0
                && region.length as int % usable as int == 0 && region.offset < min_offset
                + usable as int && region.length < min_length + usable as int);
        }
        region
    }
}

#[verifier::external_type_specification]
#[verifier::external_body]
pub struct ExMmapMut(memmap2::MmapMut);

/// The length in bytes of a memory mapping, fixed when the mapping is made.
pub uninterp spec fn mapping_len(mapping: MmapMut) -> nat;

/// Relies on memmap2::MmapMut::len: the length of the mapped byte view.
#[verifier::external_body]
fn mmap_len(mapping: &MmapMut) -> (r: usize)
    ensures
        r == mapping_len(*mapping),
{
    mapping.len()
}

/// Relies on memmap2::MmapMut's byte-slice view: reads the byte at `index`.
/// Nothing is promised of the value: the mapped memory is shared, and other
/// threads or processes may change it at any time.
#[verifier::external_body]
fn mmap_read_byte(mapping: &MmapMut, index: usize) -> (r: u8)
    requires
        index < mapping_len(*mapping),
{
    mapping[index]
}

/// Relies on memmap2::MmapMut's mutable byte-slice view: writes the byte at
/// `index`. The length of the mapping does not change.
#[verifier::external_body]
fn mmap_write_byte(mapping: &mut MmapMut, index: usize, value: u8)
    requires
        index < mapping_len(*old(mapping)),
    ensures
        mapping_len(*final(mapping)) == mapping_len(*old(mapping)),
{
    mapping[index] = value;
}

/// Relies on memmap2::MmapOptions::map_anon: a writable mapping of fresh,
/// zero-filled memory of the given length, not backed by any file.
#[verifier::external_body]
fn mmap_anonymous(length: usize) -> (r: Result<MmapMut, IOError>)
    ensures
        r matches Ok(m) ==> mapping_len(m) == length,
{
    match memmap2::MmapOptions::new().len(length).map_anon() {
        Ok(m) => Ok(m),
        Err(e) => Err(match e.kind() {
            std::io::ErrorKind::PermissionDenied => IOError::AccessDeniedError,
            std::io::ErrorKind::NotFound => IOError::FileNotFoundError,
            std::io::ErrorKind::Interrupted => IOError::Interrupted,
            std::io::ErrorKind::InvalidInput => IOError::InvalidInput,
            _ => IOError::Generic,
        }),
    }
}

/// A [`MappedMemorySegment`] provides access to a contiguous region of
/// mutable memory obtained through a shared memory mapping.
///
/// The segment's memory is explicitly shared: other threads and processes
/// mapping the same file region see, and may race with, every write. The
/// mapping stays valid independently of the file handle it was created over.
pub struct MappedMemorySegment {
    data: MmapMut,
}

impl MappedMemorySegment {
    /// The length of this segment in bytes, for use in contracts.
    pub closed spec fn spec_len(&self) -> nat {
        mapping_len(self.data)
    }

    /// Takes ownership of a live mapping and exposes it as a segment.
    pub fn from_map(data: MmapMut) -> (r: Self)
        ensures
            r.spec_len() == mapping_len(data),
    {
        MappedMemorySegment { data }
    }

    /// Creates a segment over fresh, zero-filled anonymous memory that is not
    /// backed by any file. Such a segment shares the byte-level interface of
    /// a file-backed one without the hazards of an underlying file.
    pub fn anonymous(length: usize) -> (r: Result<Self, IOError>)
        ensures
            r matches Ok(segment) ==> segment.spec_len() == length,
    {
        match mmap_anonymous(length) {
            Ok(data) => Ok(MappedMemorySegment { data }),
            Err(e) => Err(e),
        }
    }

    /// Returns the length of this segment in bytes.
    pub fn len(&self) -> (r: usize)
        ensures
            r == self.spec_len(),
    {
        mmap_len(&self.data)
    }

    /// True exactly when the span `offset..offset + size` lies inside this
    /// segment, so that a value of `size` bytes may be read or written there.
    pub fn span_in_bounds(&self, offset: usize, size: usize) -> (r: bool)
        ensures
            r <==> offset + size <= self.spec_len(),
    {
        let len = self.len();
        offset <= len && size <= len - offset
    }

    /// Reads the byte at `index`. The mapped memory is shared, so nothing is
    /// known of the value that comes back.
    pub fn byte(&self, index: usize) -> u8
        requires
            index < self.spec_len(),
    {
        mmap_read_byte(&self.data, index)
    }

    /// Reads the byte at `index`, or returns `None` exactly when `index`
    /// lies past the end of the segment.
    pub fn get(&self, index: usize) -> (r: Option<u8>)
        ensures
            r is Some <==> index < self.spec_len(),
    {
        if self.span_in_bounds(index, 1) {
            Some(self.byte(index))
        } else {
            None
        }
    }

    /// Writes the byte at `index`; returns false, changing nothing, exactly
    /// when `index` lies past the end of the segment.
    pub fn try_set_byte(&mut self, index: usize, value: u8) -> (r: bool)
        ensures
            r <==> index < old(self).spec_len(),
            final(self).spec_len() == old(self).spec_len(),
    {
        if self.span_in_bounds(index, 1) {
            self.set_byte(index, value);
            true
        } else {
            false
        }
    }

    /// Writes the byte at `index`.
    pub fn set_byte(&mut self, index: usize, value: u8)
        requires
            index < old(self).spec_len(),
        ensures
            final(self).spec_len() == old(self).spec_len(),
    {
        mmap_write_byte(&mut self.data, index, value)
    }

    /// Overwrites every byte of the segment with `value`.
    pub fn fill(&mut self, value: u8)
        ensures
            final(self).spec_len() == old(self).spec_len(),
    {
        let length = self.len();
        let mut i: usize = 0;
        while i < length
            invariant
                self.spec_len() == old(self).spec_len(),
                length == self.spec_len(),
            decreases length - i,
        {
            self.set_byte(i, value);
            i = i + 1;
        }
    }

    /// Copies the `count` bytes at `offset..offset + count` out of the
    /// segment. The mapped memory is shared, so nothing is known of the
    /// values that come back.
    pub fn read_bytes(&self, offset: usize, count: usize) -> (r: Vec<u8>)
        requires
            offset + count <= self.spec_len(),
        ensures
            r@.len() == count,
    {
        let length = self.len();
        let mut out: Vec<u8> = Vec::new();
        let mut i: usize = 0;
        while i < count
            invariant
                out@.len() == i,
                i <= count,
                offset + count <= length == self.spec_len(),
            decreases count - i,
        {
            out.push(self.byte(offset + i));
            i = i + 1;
        }
        out
    }

    /// Writes all of `data` into the segment at `offset..offset +
    /// data.len()`.
    pub fn write_bytes(&mut self, offset: usize, data: &[u8])
        requires
            offset + data@.len() <= old(self).spec_len(),
        ensures
            final(self).spec_len() == old(self).spec_len(),
    {
        let length = self.len();
        let mut i: usize = 0;
        while i < data.len()
            invariant
                i <= data@.len(),
                offset + data@.len() <= length == self.spec_len(),
                self.spec_len() == old(self).spec_len(),
            decreases data@.len() - i,
        {
            self.set_byte(offset + i, data[i]);
            i = i + 1;
        }
    }

    /// Reads the eight bytes at `offset..offset + 8` as a little-endian
    /// 64-bit value.
    pub fn read_u64_le(&self, offset: usize) -> u64
        requires
            offset + 8 <= self.spec_len(),
    {
        let length = self.len();
        let mut value: u64 = 0;
        let mut i: usize = 8;
        while i > 0
            invariant
                i <= 8,
                offset + 8 <= length == self.spec_len(),
            decreases i,
        {
            i = i - 1;
            value = (value << 8) | (self.byte(offset + i) as u64);
        }
        value
    }

    /// Writes `value` as eight little-endian bytes at `offset..offset + 8`.
    pub fn write_u64_le(&mut self, offset: usize, value: u64)
        requires
            offset + 8 <= old(self).spec_len(),
        ensures
            final(self).spec_len() == old(self).spec_len(),
    {
        let length = self.len();
        let mut rest: u64 = value;
        let mut i: usize = 0;
        while i < 8
            invariant
                offset + 8 <= length == self.spec_len(),
                self.spec_len() == old(self).spec_len(),
            decreases 8 - i,
        {
            self.set_byte(offset + i, (rest % 0x100) as u8);
            rest = rest / 0x100;
            i = i + 1;
        }
    }

    /// Reads the eight bytes at `offset..offset + 8` as a little-endian
    /// 64-bit value, or returns `None` exactly when that span runs past the
    /// end of the segment.
    pub fn try_read_u64_le(&self, offset: usize) -> (r: Option<u64>)
        ensures
            r is Some <==> offset + 8 <= self.spec_len(),
    {
        if self.span_in_bounds(offset, 8) {
            Some(self.read_u64_le(offset))
        } else {
            None
        }
    }

    /// Writes `value` as eight little-endian bytes at `offset..offset + 8`;
    /// returns false, changing nothing, exactly when that span runs past the
    /// end of the segment.
    pub fn try_write_u64_le(&mut self, offset: usize, value: u64) -> (r: bool)
        ensures
            r <==> offset + 8 <= old(self).spec_len(),
            final(self).spec_len() == old(self).spec_len(),
    {
        if self.span_in_bounds(offset, 8) {
            self.write_u64_le(offset, value);
            true
        } else {
            false
        }
    }
}

} // verus!
