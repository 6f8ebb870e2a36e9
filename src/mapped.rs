//! The residency map of one memory-mapped file: the values that describe the
//! mapping, the per-page status buffer, and the decisions of opening,
//! querying, touching, evicting and releasing it.
//!
//! The mapping itself (its creation, the residency query and the page reads)
//! is made by the caller, which hands the outcomes to the functions here.

use vstd::prelude::*;
use crate::pages::{
    all_resident,
    count_resident,
    is_page_aligned,
    lemma_all_resident_count,
    lemma_pages_for_is_ceiling,
    page_count,
    pages_for,
    resident_count,
};
use crate::stat::MincoreStat;
use crate::sys::{advise_dont_need, sysconf_page_size};

verus! {

/// Why opening, querying or evicting a mapped file failed.
#[derive(Debug)]
pub enum Error {
    /// The file could not be opened or its metadata read.
    IO(std::io::Error),
    /// The mapping does not start on a page boundary.
    NotPageAligned,
    /// The status buffer could not be allocated.
    AllocFailed,
    /// A system call reported an errno.
    Nix(nix::errno::Errno),
    /// The platform offers no way to evict cached pages.
    Unsupported,
}

/// A read-only shared mapping of a whole file, described by plain values,
/// with one residency status byte per page.
pub struct MappedFile {
    fd: i32,
    len: usize,
    base: usize,
    page_size: usize,
    pages: usize,
    status: Vec<u8>,
    released: bool,
}

/// The page size of the machine from what `sysconf` reported: a positive
/// value that fits in a `usize`, or nothing.
pub fn page_size_from_sysconf(reported: Result<Option<i64>, nix::errno::Errno>) -> (r: Option<
    usize,
>)
    ensures
        r is Some <==> (reported is Ok && reported->Ok_0 is Some && 0 < reported->Ok_0->Some_0
            <= usize::MAX),
        r is Some ==> r->Some_0 == reported->Ok_0->Some_0,
{
    match reported {
        Ok(Some(v)) => {
            if 0 < v && v as u64 <= usize::MAX as u64 {
                Some(v as usize)
            } else {
                None
            }
        },
        _ => None,
    }
}

/// The machine's page size, where the system reports a usable one.
pub fn system_page_size() -> (r: Option<usize>)
    ensures
        r is Some ==> r->Some_0 > 0,
{
    page_size_from_sysconf(sysconf_page_size())
}

/// The outcome of an eviction advice as this library reports it.
pub fn eviction_result(advice: Result<(), nix::errno::Errno>) -> (r: Result<(), Error>)
    ensures
        r is Ok <==> advice is Ok,
        advice is Err ==> r == Err::<(), Error>(Error::Nix(advice->Err_0)),
{
    match advice {
        Ok(()) => Ok(()),
        Err(e) => Err(Error::Nix(e)),
    }
}

/// Once a live mapping has been touched, its residency summary reports every
/// page resident: the status that `touch` leaves, read by `resident_pages`.
pub proof fn lemma_touched_map_fully_resident(m: MappedFile)
    requires
        m.wf(),
        !m.spec_released(),
        m.spec_status() == all_resident(m.spec_page_count()),
    ensures
        resident_count(m.spec_status()) == m.spec_page_count(),
{
    lemma_all_resident_count(m.spec_page_count());
}

impl MappedFile {
    /// The mapping starts on a non-null page boundary, its page count is the ceiling
    /// of its length over the page size, and the status buffer holds one
    /// byte per page until it is released.
    pub closed spec fn wf(self) -> bool {
        &&& self.page_size > 0
        &&& self.pages == pages_for(self.len as nat, self.page_size as nat)
        &&& self.base != 0
        &&& self.base % self.page_size == 0
        &&& self.status@.len() == if self.released {
            0
        } else {
            self.pages as nat
        }
    }

    pub closed spec fn spec_fd(self) -> i32 {
        self.fd
    }

    pub closed spec fn spec_byte_length(self) -> nat {
        self.len as nat
    }

    pub closed spec fn spec_base(self) -> nat {
        self.base as nat
    }

    pub closed spec fn spec_page_size(self) -> nat {
        self.page_size as nat
    }

    pub closed spec fn spec_page_count(self) -> nat {
        self.pages as nat
    }

    /// The residency status bytes, one per page, as last recorded.
    pub closed spec fn spec_status(self) -> Seq<u8> {
        self.status@
    }

    pub closed spec fn spec_released(self) -> bool {
        self.released
    }

    /// The same mapping, whatever its status bytes.
    pub open spec fn same_mapping(self, other: MappedFile) -> bool {
        &&& self.spec_fd() == other.spec_fd()
        &&& self.spec_byte_length() == other.spec_byte_length()
        &&& self.spec_base() == other.spec_base()
        &&& self.spec_page_size() == other.spec_page_size()
        &&& self.spec_page_count() == other.spec_page_count()
    }

    /// Describes the mapping of `byte_length` bytes of the file open as `fd`,
    /// placed at `base`, and allocates its status buffer with every page not
    /// yet seen resident. A null mapping, or one off a page boundary, is
    /// refused; where the
    /// buffer cannot be allocated the allocation failure is reported.
    pub fn new(fd: i32, byte_length: usize, page_size: usize, base: usize) -> (r: Result<
        MappedFile,
        Error,
    >)
        requires
            page_size > 0,
        ensures
            (base == 0 || base % page_size != 0) <==> (r is Err && r->Err_0 is NotPageAligned),
            r is Err ==> (r->Err_0 is NotPageAligned || r->Err_0 is AllocFailed),
            r is Ok ==> {
                let m = r->Ok_0;
                &&& m.wf()
                &&& m.spec_fd() == fd
                &&& m.spec_byte_length() == byte_length
                &&& m.spec_base() == base
                &&& m.spec_page_size() == page_size
                &&& m.spec_page_count() == pages_for(byte_length as nat, page_size as nat)
                &&& m.spec_status() == Seq::new(m.spec_page_count(), |i: int| 0u8)
                &&& !m.spec_released()
            },
    {
        if base == 0 || !is_page_aligned(base, page_size) {
            return Err(Error::NotPageAligned);
        }
        let pages = page_count(byte_length, page_size);
        let mut status: Vec<u8> = Vec::new();
        if status.try_reserve(pages).is_err() {
            return Err(Error::AllocFailed);
        }
        let mut i: usize = 0;
        while i < pages
            invariant
                i <= pages,
                status@ == Seq::new(i as nat, |j: int| 0u8),
            decreases pages - i,
        {
            status.push(0);
            i = i + 1;
            assert(status@ =~= Seq::new(i as nat, |j: int| 0u8));
        }
        Ok(MappedFile { fd, len: byte_length, base, page_size, pages, status, released: false })
    }

    /// Records the outcome of a residency query over the whole mapping: one
    /// byte per page, the low bit set where the page is resident.
    pub fn record_snapshot(&mut self, snapshot: &[u8])
        requires
            old(self).wf(),
            !old(self).spec_released(),
            snapshot@.len() == old(self).spec_page_count(),
        ensures
            final(self).wf(),
            final(self).same_mapping(*old(self)),
            final(self).spec_released() == old(self).spec_released(),
            final(self).spec_status() == snapshot@,
    {
        let mut i: usize = 0;
        while i < snapshot.len()
            invariant
                i <= snapshot@.len(),
                snapshot@.len() == self.status@.len(),
                self.same_mapping(*old(self)),
                self.released == old(self).released,
                self.page_size > 0,
                self.pages == pages_for(self.len as nat, self.page_size as nat),
                self.base % self.page_size == 0,
                self.pages == self.status@.len(),
                !self.released,
                forall|j: int| 0 <= j < i ==> self.status@[j] == snapshot@[j],
            decreases snapshot@.len() - i,
        {
            self.status.set(i, snapshot[i]);
            i = i + 1;
        }
        assert(self.status@ =~= snapshot@);
    }

    /// The residency summary of the last recorded status buffer.
    pub fn resident_pages(&self) -> (r: MincoreStat)
        requires
            self.wf(),
        ensures
            r.spec_page_size() == self.spec_page_size(),
            r.spec_total_pages() == self.spec_page_count(),
            r.spec_resident_pages() == resident_count(self.spec_status()),
            r.spec_resident_pages() <= r.spec_total_pages(),
    {
        let resident = count_resident(self.status.as_slice());
        MincoreStat::from_counts(self.page_size, self.pages, resident)
    }

    /// The offset into the mapping of the first byte of page `index`.
    pub fn page_offset(&self, index: usize) -> (r: usize)
        requires
            self.wf(),
            index < self.spec_status().len(),
        ensures
            r == index * self.spec_page_size(),
            r < self.spec_byte_length(),
    {
        proof {
            lemma_pages_for_is_ceiling(self.len as nat, self.page_size as nat);
        }
        assert(index * self.page_size < self.len) by (nonlinear_arith)
            requires
                index < self.pages,
                self.len > 0,
                (self.pages - 1) * self.page_size < self.len,
                self.page_size > 0,
        ;
        index * self.page_size
    }

    /// Faults every page in, in order, by handing `page_offset(i)` of each
    /// page `i` to `read_page`, which reads the byte there, and marks each
    /// page resident without a new query. A released mapping has no pages
    /// left to touch.
    pub fn touch<F: Fn(usize)>(&mut self, read_page: F)
        requires
            old(self).wf(),
            forall|offset: usize|
                offset < old(self).spec_byte_length() ==> #[trigger] read_page.requires((offset,)),
        ensures
            final(self).wf(),
            final(self).same_mapping(*old(self)),
            final(self).spec_released() == old(self).spec_released(),
            final(self).spec_status() == all_resident(old(self).spec_status().len()),
            !old(self).spec_released() ==> final(self).spec_status() == all_resident(
                old(self).spec_page_count(),
            ),
    {
        let n = self.status.len();
        let mut i: usize = 0;
        while i < n
            invariant
                i <= n,
                n == self.status@.len(),
                n == old(self).status@.len(),
                n <= self.pages,
                self.same_mapping(*old(self)),
                self.released == old(self).released,
                self.wf(),
                forall|offset: usize|
                    offset < self.len ==> #[trigger] read_page.requires((offset,)),
                forall|j: int| 0 <= j < i ==> self.status@[j] == 1u8,
            decreases n - i,
        {
            let offset = self.page_offset(i);
            read_page(offset);
            self.status.set(i, 1);
            i = i + 1;
        }
        assert(self.status@ =~= all_resident(n as nat));
    }

    /// The byte range of the file that eviction covers, as an offset and a
    /// length: the whole file from its start. A length beyond what the
    /// kernel takes is given as zero, which means up to the end of the file.
    pub fn eviction_range(&self) -> (r: (i64, i64))
        ensures
            r.0 == 0,
            self.spec_byte_length() <= i64::MAX ==> r.1 == self.spec_byte_length(),
            self.spec_byte_length() > i64::MAX ==> r.1 == 0,
    {
        let len: i64 = if self.len as u64 <= i64::MAX as u64 {
            self.len as i64
        } else {
            0
        };
        (0, len)
    }

    /// Asks the kernel to drop the cached pages of the file descriptor over
    /// `eviction_range()`, and reports its answer through
    /// `eviction_result`; the mapping stays in place and the status buffer
    /// is left as it was.
    pub fn evict(&mut self) -> (r: Result<(), Error>)
        ensures
            *final(self) == *old(self),
            r is Err ==> r->Err_0 is Nix,
    {
        let (offset, len) = self.eviction_range();
        eviction_result(advise_dont_need(self.fd, offset, len))
    }

    /// Gives up the status buffer and marks the mapping released. Returns
    /// whether this call released it, so that the caller unmaps exactly
    /// once; a second call changes nothing.
    pub fn release(&mut self) -> (first: bool)
        requires
            old(self).wf(),
        ensures
            final(self).wf(),
            first == !old(self).spec_released(),
            final(self).same_mapping(*old(self)),
            final(self).spec_released(),
            final(self).spec_status() == Seq::<u8>::empty(),
            old(self).spec_released() ==> *final(self) == *old(self),
    {
        if self.released {
            return false;
        }
        self.status = Vec::new();
        self.released = true;
        true
    }

    /// The number of pages of the mapping.
    pub fn page_count(&self) -> (r: usize)
        requires
            self.wf(),
        ensures
            r == self.spec_page_count(),
            r == pages_for(self.spec_byte_length(), self.spec_page_size()),
    {
        self.pages
    }

    /// The length of the mapped file in bytes, as it was when mapped.
    pub fn byte_length(&self) -> (r: usize)
        ensures
            r == self.spec_byte_length(),
    {
        self.len
    }

    /// The page size of the mapping.
    pub fn page_size(&self) -> (r: usize)
        requires
            self.wf(),
        ensures
            r == self.spec_page_size(),
            r > 0,
    {
        self.page_size
    }

    /// Whether the mapping and its status buffer were released.
    pub fn is_released(&self) -> (r: bool)
        ensures
            r == self.spec_released(),
    {
        self.released
    }
}

} // verus!
