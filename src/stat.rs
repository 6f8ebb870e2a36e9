//! A snapshot of how many pages of a mapping are resident, and the byte
//! sizes and percentage derived from it.

use vstd::prelude::*;

verus! {

/// Page size, page count and resident page count of one residency query.
#[derive(Debug)]
pub struct MincoreStat {
    page_size: usize,
    total_pages: usize,
    resident_pages: usize,
}

/// A product of two machine words, which always fits in 128 bits.
proof fn lemma_word_product_fits(a: usize, b: usize)
    ensures
        a as nat * b as nat <= u128::MAX,
{
    assert(a as nat * b as nat <= u128::MAX) by (nonlinear_arith)
        requires
            a <= u64::MAX,
            b <= u64::MAX,
    ;
}

impl MincoreStat {
    #[verifier::type_invariant]
    spec fn inv(self) -> bool {
        self.resident_pages <= self.total_pages
    }

    pub closed spec fn spec_page_size(self) -> nat {
        self.page_size as nat
    }

    pub closed spec fn spec_total_pages(self) -> nat {
        self.total_pages as nat
    }

    pub closed spec fn spec_resident_pages(self) -> nat {
        self.resident_pages as nat
    }

    /// A snapshot of `resident_pages` resident pages out of `total_pages`.
    pub(crate) fn from_counts(page_size: usize, total_pages: usize, resident_pages: usize) -> (r:
        MincoreStat)
        requires
            resident_pages <= total_pages,
        ensures
            r.spec_page_size() == page_size,
            r.spec_total_pages() == total_pages,
            r.spec_resident_pages() == resident_pages,
    {
        MincoreStat { page_size, total_pages, resident_pages }
    }

    pub fn page_size(&self) -> (r: usize)
        ensures
            r == self.spec_page_size(),
    {
        self.page_size
    }

    pub fn total_pages(&self) -> (r: usize)
        ensures
            r == self.spec_total_pages(),
    {
        self.total_pages
    }

    /// The resident page count, which never exceeds the total.
    pub fn resident_pages(&self) -> (r: usize)
        ensures
            r == self.spec_resident_pages(),
            r <= self.spec_total_pages(),
    {
        proof {
            use_type_invariant(self);
        }
        self.resident_pages
    }

    /// Bytes held by the resident pages.
    pub fn resident_bytes(&self) -> (r: u128)
        ensures
            r == self.spec_resident_pages() * self.spec_page_size(),
    {
        proof {
            lemma_word_product_fits(self.resident_pages, self.page_size);
        }
        self.resident_pages as u128 * self.page_size as u128
    }

    /// Bytes covered by all pages of the mapping.
    pub fn total_bytes(&self) -> (r: u128)
        ensures
            r == self.spec_total_pages() * self.spec_page_size(),
    {
        proof {
            lemma_word_product_fits(self.total_pages, self.page_size);
        }
        self.total_pages as u128 * self.page_size as u128
    }

    /// The resident share in whole percent, rounded down; a mapping without
    /// pages reports zero.
    pub fn percentage(&self) -> (r: usize)
        ensures
            self.spec_total_pages() == 0 ==> r == 0,
            self.spec_total_pages() > 0 ==> r == self.spec_resident_pages() * 100
                / self.spec_total_pages(),
            r <= 100,
    {
        proof {
            use_type_invariant(self);
        }
        if self.total_pages == 0 {
            0
        } else {
            let resident = self.resident_pages as u128;
            let total = self.total_pages as u128;
            assert(resident * 100 <= total * 100);
            let p = resident * 100 / total;
            assert(p <= 100) by (nonlinear_arith)
                requires
                    p as int == (resident as int * 100) / total as int,
                    resident <= total,
                    total > 0,
            ;
            p as usize
        }
    }
}

} // verus!
