//! Memory as the operating system hands it out: in whole pages, each with
//! a protection.

use vstd::prelude::*;

verus! {

/// Whether instructions can be run from a piece of memory.
#[derive(Clone, Copy, PartialEq, Eq, Structural, Debug)]
pub enum ProtType {
    Executable,
    NonExecutable,
}

/// `size` rounded up to whole pages of `page_size` bytes, or `None` if that
/// is beyond `usize`.
pub open spec fn spec_page_align(size: usize, page_size: usize) -> Option<usize> {
    if page_size == 0 {
        None
    } else {
        let pages = (size + page_size - 1) / (page_size as int);
        if pages * page_size <= usize::MAX {
            Some((pages * page_size) as usize)
        } else {
            None
        }
    }
}

/// The number of bytes to map for `size` bytes: memory is mapped in whole
/// pages. `None` if the page size is zero or the number is beyond `usize`.
pub fn page_align(size: usize, page_size: usize) -> (r: Option<usize>)
    ensures
        r == spec_page_align(size, page_size),
        r matches Some(n) ==> size <= n < size + page_size,
{
    if page_size == 0 {
        return None;
    }
    let rest = size % page_size;
    proof {
        lemma_page_align(size as int, page_size as int);
    }
    if rest == 0 {
        Some(size)
    } else if size - rest > usize::MAX - page_size {
        None
    } else {
        Some(size - rest + page_size)
    }
}

proof fn lemma_page_align(size: int, page: int)
    requires
        0 <= size,
        0 < page,
    ensures
        0 <= size % page < page,
        size % page <= size,
        size % page == 0 ==> ((size + page - 1) / page) * page == size,
        size % page != 0 ==> ((size + page - 1) / page) * page == size - size % page + page,
{
    let q = size / page;
    let r = size % page;
    vstd::arithmetic::div_mod::lemma_mod_bound(size, page);
    vstd::arithmetic::div_mod::lemma_div_pos_is_pos(size, page);
    assert(0 <= q * page) by (nonlinear_arith)
        requires
            0 <= q,
            0 < page,
    ;
    assert(size == q * page + r) by {
        vstd::arithmetic::div_mod::lemma_fundamental_div_mod(size, page);
        assert(page * q == q * page) by (nonlinear_arith);
    }
    if r == 0 {
        assert((q * page + page - 1) / page == q) by {
            vstd::arithmetic::div_mod::lemma_fundamental_div_mod_converse(
                q * page + page - 1,
                page,
                q,
                page - 1,
            );
        }
    } else {
        assert((q * page + r + page - 1) / page == q + 1) by {
            assert((q + 1) * page == q * page + page) by (nonlinear_arith);
            vstd::arithmetic::div_mod::lemma_fundamental_div_mod_converse(
                q * page + r + page - 1,
                page,
                q + 1,
                r - 1,
            );
        }
        assert((q + 1) * page == q * page + page) by (nonlinear_arith);
    }
}

} // verus!
