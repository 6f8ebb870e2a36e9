//! Page arithmetic: how many pages cover a byte range, page alignment, and
//! how many entries of a residency status buffer report a resident page.

use vstd::prelude::*;

verus! {

/// The number of pages of `page_size` bytes needed to cover `byte_length`
/// bytes: the ceiling of their quotient. A zero-length range has no pages.
pub open spec fn pages_for(byte_length: nat, page_size: nat) -> nat
    recommends
        page_size > 0,
{
    if byte_length % page_size == 0 {
        byte_length / page_size
    } else {
        byte_length / page_size + 1
    }
}

/// A status byte reports its page resident when its low bit is set.
pub open spec fn is_resident(flag: u8) -> bool {
    flag % 2 == 1
}

/// How many entries of a status buffer report a resident page.
pub open spec fn resident_count(status: Seq<u8>) -> nat
    decreases status.len(),
{
    if status.len() == 0 {
        0
    } else {
        resident_count(status.drop_last()) + if is_resident(status.last()) {
            1nat
        } else {
            0nat
        }
    }
}

/// The status buffer written after every page was faulted in.
pub open spec fn all_resident(pages: nat) -> Seq<u8> {
    Seq::new(pages, |i: int| 1u8)
}

/// Never more pages are reported resident than the buffer has entries.
pub proof fn lemma_resident_count_bounded(status: Seq<u8>)
    ensures
        resident_count(status) <= status.len(),
    decreases status.len(),
{
    if status.len() > 0 {
        lemma_resident_count_bounded(status.drop_last());
    }
}

/// A buffer in which every page was marked resident reports all of its
/// pages resident.
pub proof fn lemma_all_resident_count(pages: nat)
    ensures
        resident_count(all_resident(pages)) == pages,
    decreases pages,
{
    if pages > 0 {
        assert(all_resident(pages).drop_last() =~= all_resident((pages - 1) as nat));
        lemma_all_resident_count((pages - 1) as nat);
    }
}

/// The page count is the ceiling of the length over the page size: the
/// pages cover every byte, and one page fewer would not. An empty range has
/// no pages.
pub proof fn lemma_pages_for_is_ceiling(byte_length: nat, page_size: nat)
    requires
        page_size > 0,
    ensures
        pages_for(byte_length, page_size) * page_size >= byte_length,
        byte_length > 0 ==> (pages_for(byte_length, page_size) - 1) * page_size < byte_length,
        byte_length == 0 ==> pages_for(byte_length, page_size) == 0,
{
    let q = byte_length / page_size;
    let r = byte_length % page_size;
    vstd::arithmetic::div_mod::lemma_fundamental_div_mod(byte_length as int, page_size as int);
    assert(byte_length == page_size * q + r);
    assert(0 <= r < page_size);
    if r == 0 {
        assert(q * page_size == byte_length) by (nonlinear_arith)
            requires
                byte_length == page_size * q + r,
                r == 0,
        ;
        if byte_length > 0 {
            assert((q - 1) * page_size < byte_length) by (nonlinear_arith)
                requires
                    q * page_size == byte_length,
                    page_size > 0,
            ;
        }
    } else {
        assert((q + 1) * page_size >= byte_length) by (nonlinear_arith)
            requires
                byte_length == page_size * q + r,
                r < page_size,
        ;
        assert(q * page_size < byte_length) by (nonlinear_arith)
            requires
                byte_length == page_size * q + r,
                r > 0,
        ;
    }
}

/// A length of exactly `k` pages takes `k` pages, not one more.
pub proof fn lemma_pages_for_exact_multiple(k: nat, page_size: nat)
    requires
        page_size > 0,
    ensures
        pages_for(k * page_size, page_size) == k,
{
    vstd::arithmetic::div_mod::lemma_mod_multiples_basic(k as int, page_size as int);
    vstd::arithmetic::div_mod::lemma_div_multiples_vanish(k as int, page_size as int);
    assert(k * page_size == page_size * k) by (nonlinear_arith);
}

/// The number of pages of `page_size` bytes that cover `byte_length` bytes.
pub fn page_count(byte_length: usize, page_size: usize) -> (r: usize)
    requires
        page_size > 0,
    ensures
        r == pages_for(byte_length as nat, page_size as nat),
{
    let q = byte_length / page_size;
    if byte_length % page_size == 0 {
        q
    } else {
        assert(byte_length > 0 && page_size > 1) by {
            if byte_length == 0 {
                assert(0usize % page_size == 0);
            }
            if page_size == 1 {
                assert(byte_length % 1 == 0);
            }
        }
        assert(q < byte_length) by (nonlinear_arith)
            requires
                q == byte_length / page_size,
                page_size > 1,
                byte_length > 0,
        ;
        q + 1
    }
}

/// Whether `address` lies on a page boundary.
pub fn is_page_aligned(address: usize, page_size: usize) -> (r: bool)
    requires
        page_size > 0,
    ensures
        r == (address % page_size == 0),
{
    address % page_size == 0
}

/// How many entries of `status` report a resident page.
pub fn count_resident(status: &[u8]) -> (n: usize)
    ensures
        n == resident_count(status@),
        n <= status@.len(),
{
    let mut n: usize = 0;
    let mut i: usize = 0;
    while i < status.len()
        invariant
            i <= status@.len(),
            n == resident_count(status@.take(i as int)),
            n <= i,
        decreases status@.len() - i,
    {
        assert(status@.take(i + 1).drop_last() =~= status@.take(i as int));
        if status[i] % 2 == 1 {
            n = n + 1;
        }
        i = i + 1;
    }
    assert(status@.take(i as int) =~= status@);
    n
}

} // verus!
