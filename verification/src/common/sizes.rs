//! Comparing lengths with products of sizes.

use vstd::prelude::*;

verus! {

/// Whether a length is the product of two sizes, however large that is.
pub fn is_product(len: usize, a: usize, b: usize) -> (r: bool)
    ensures
        r == (len == a * b),
{
    match a.checked_mul(b) {
        Some(p) => len == p,
        None => false,
    }
}

/// Whether a length is the product of three sizes, however large that is.
pub fn is_product_of_three(len: usize, a: usize, b: usize, c: usize) -> (r: bool)
    ensures
        r == (len == a * (b * c)),
{
    if a == 0 {
        assert(0 * (b * c) == 0) by (nonlinear_arith);
        return len == 0;
    }
    match b.checked_mul(c) {
        Some(p) => is_product(len, a, p),
        None => {
            assert(a * (b * c) > usize::MAX) by (nonlinear_arith)
                requires
                    a >= 1,
                    b * c > usize::MAX,
            ;
            false
        },
    }
}

/// Where row `i` of a matrix with rows of `width` begins, where a matrix of
/// `len` elements has all of that row.
pub open spec fn row_at(i: int, width: int, len: int) -> Option<usize> {
    if i * width + width <= len {
        Some((i * width) as usize)
    } else {
        None
    }
}

/// Where a row begins, where it is there.
pub fn row_start(i: usize, width: usize, len: usize) -> (r: Option<usize>)
    ensures
        r == row_at(i as int, width as int, len as int),
{
    match i.checked_mul(width) {
        Some(start) => {
            if start <= len && width <= len - start {
                Some(start)
            } else {
                None
            }
        },
        None => None,
    }
}

/// Where the rows of a matrix begin.
pub fn row_starts(rows: usize, width: usize, len: usize) -> (starts: Vec<usize>)
    requires
        rows * width <= len,
    ensures
        starts@.len() == rows,
        forall|i: int|
            0 <= i < starts@.len() ==> {
                &&& #[trigger] starts@[i] == i * width
                &&& starts@[i] + width <= len
            },
{
    let mut starts: Vec<usize> = Vec::new();
    let mut i: usize = 0;
    while i < rows
        invariant
            i <= rows,
            rows * width <= len,
            starts@.len() == i,
            forall|j: int|
                0 <= j < i ==> {
                    &&& #[trigger] starts@[j] == j * width
                    &&& starts@[j] + width <= len
                },
        decreases rows - i,
    {
        assert(i * width + width <= rows * width) by (nonlinear_arith)
            requires
                i + 1 <= rows,
        ;
        assert(i * width >= 0) by (nonlinear_arith);
        starts.push(i * width);
        i = i + 1;
    }
    starts
}

/// A vector of one value.
pub fn filled(value: u32, n: usize) -> (v: Vec<u32>)
    ensures
        v@ == Seq::new(n as nat, |i: int| value),
{
    let v: Vec<u32> = vec![value; n];
    assert(v@ =~= Seq::new(n as nat, |i: int| value));
    v
}

/// Copies a part of a vector.
pub fn copied(v: &Vec<u32>, start: usize, end: usize) -> (out: Vec<u32>)
    requires
        start <= end <= v@.len(),
    ensures
        out@ == v@.subrange(start as int, end as int),
{
    let mut out: Vec<u32> = Vec::new();
    let mut i: usize = start;
    while i < end
        invariant
            start <= i <= end <= v@.len(),
            out@ == v@.subrange(start as int, i as int),
        decreases end - i,
    {
        out.push(v[i]);
        assert(out@ =~= v@.subrange(start as int, i + 1));
        i = i + 1;
    }
    out
}

} // verus!
