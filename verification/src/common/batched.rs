//! Which parts of per-slot caches a batched attention step reads.

use crate::error::{follows, ArchError, ArchErrorView, ArchResult};
use crate::text::{decimal, decimal_string, joined};
use vstd::arithmetic::div_mod::lemma_fundamental_div_mod_converse;
use vstd::prelude::*;

verus! {

/// A part of a buffer, from `start` up to `end`.
#[derive(Debug, Clone, Copy, PartialEq, Eq)]
pub struct Span {
    /// The first element.
    pub start: usize,
    /// One past the last element.
    pub end: usize,
}

/// The caches of one slot: how long they are, and how many positions they hold.
#[derive(Debug, Clone, Copy, PartialEq, Eq)]
pub struct SlotShape {
    /// Length of the key cache.
    pub keys_len: usize,
    /// Length of the value cache.
    pub values_len: usize,
    /// Number of positions.
    pub position: usize,
}

/// What one head of one slot reads, position by position.
#[derive(Debug)]
pub struct SpanReads {
    /// The keys; positions past the last one score zero.
    pub keys: Vec<Span>,
    /// The values; positions past the last one add nothing.
    pub values: Vec<Span>,
}

/// The size of a cached head: what the cache's length gives, where the cache
/// divides evenly, and the query's head size otherwise.
pub open spec fn cached_head_dim(
    keys_len: int,
    position: int,
    num_heads: int,
    head_dim: int,
) -> int {
    if keys_len % (position * num_heads) == 0 {
        keys_len / (position * num_heads)
    } else {
        head_dim
    }
}

/// The cached head that query head `h` reads: its own, or the last that the
/// cache has.
pub open spec fn cached_head(keys_len: int, position: int, size: int, h: int) -> int {
    let n = keys_len / (position * size);
    let last = if n >= 1 {
        n - 1
    } else {
        0
    };
    if h <= last {
        h
    } else {
        last
    }
}

/// Where a cached head's vector begins at position `p`.
pub open spec fn span_base(p: int, row: int, head: int, size: int) -> int {
    p * row + head * size
}

impl Span {
    /// Whether this is a vector of `width` elements that begins at `base`
    /// inside a buffer of `len` elements, cut off where the buffer ends.
    pub open spec fn is_at(self, base: int, width: int, len: int) -> bool {
        &&& base < len
        &&& self.start == base
        &&& self.end == if base + width <= len {
            base + width
        } else {
            len
        }
    }
}

/// Whether spans are those of the leading positions whose vectors begin inside
/// a cache of `len` elements. A vector has `width` elements, cut off where the
/// cache ends.
pub open spec fn spans_of(
    spans: Seq<Span>,
    positions: int,
    len: int,
    row: int,
    head: int,
    size: int,
    width: int,
) -> bool {
    &&& spans.len() <= positions
    &&& forall|p: int|
        0 <= p < spans.len() ==> (#[trigger] spans[p]).is_at(
            span_base(p, row, head, size),
            width,
            len,
        )
    &&& spans.len() < positions ==> span_base(spans.len() as int, row, head, size) >= len
}

/// Whether reads are those of head `h` of a slot.
pub open spec fn are_slot_reads(
    r: SpanReads,
    s: SlotShape,
    num_heads: int,
    head_dim: int,
    h: int,
) -> bool {
    let size = cached_head_dim(s.keys_len as int, s.position as int, num_heads, head_dim);
    let head = cached_head(s.keys_len as int, s.position as int, size, h);
    let row = num_heads * size;
    &&& spans_of(r.keys@, s.position as int, s.keys_len as int, row, head, size, size)
    &&& spans_of(r.values@, s.position as int, s.values_len as int, row, head, size, head_dim)
}

fn collect_spans(
    positions: usize,
    len: usize,
    num_heads: usize,
    head: usize,
    size: usize,
    width: usize,
) -> (spans: Vec<Span>)
    ensures
        spans_of(
            spans@,
            positions as int,
            len as int,
            num_heads * size,
            head as int,
            size as int,
            width as int,
        ),
{
    let mut spans: Vec<Span> = Vec::new();
    let ghost row = num_heads * size;
    assert(row >= 0) by (nonlinear_arith)
        requires
            row == num_heads * size,
    ;
    assert(head * size >= 0) by (nonlinear_arith);
    assert(0 * row == 0) by (nonlinear_arith);
    let inside: usize = match head.checked_mul(size) {
        Some(x) => x,
        None => {
            return spans;
        },
    };
    let mut base: usize = inside;
    let mut p: usize = 0;
    while p < positions
        invariant
            p <= positions,
            row == num_heads * size,
            row >= 0,
            inside == head * size,
            base == span_base(p as int, row, head as int, size as int),
            spans@.len() == p,
            forall|j: int|
                0 <= j < p ==> (#[trigger] spans@[j]).is_at(
                    span_base(j, row, head as int, size as int),
                    width as int,
                    len as int,
                ),
        decreases positions - p,
    {
        if base >= len {
            return spans;
        }
        let end: usize = if width <= len - base {
            base + width
        } else {
            len
        };
        spans.push(Span { start: base, end });
        proof {
            assert((p + 1) * row == p * row + row) by (nonlinear_arith);
        }
        p = p + 1;
        if p == positions {
            return spans;
        }
        match num_heads.checked_mul(size) {
            Some(r) => match base.checked_add(r) {
                Some(next) => {
                    base = next;
                },
                None => {
                    return spans;
                },
            },
            None => {
                return spans;
            },
        }
    }
    spans
}

/// Plans what head `h` of a slot reads.
pub fn slot_reads(s: &SlotShape, num_heads: usize, head_dim: usize, h: usize) -> (r: SpanReads)
    requires
        num_heads > 0,
        head_dim > 0,
        s.position > 0,
        s.keys_len > 0,
    ensures
        are_slot_reads(r, *s, num_heads as int, head_dim as int, h as int),
{
    let size: usize = slot_head_dim(s.keys_len, s.position, num_heads, head_dim);
    let head: usize = slot_head(s.keys_len, s.position, size, h);
    SpanReads {
        keys: collect_spans(s.position, s.keys_len, num_heads, head, size, size),
        values: collect_spans(s.position, s.values_len, num_heads, head, size, head_dim),
    }
}

fn slot_head_dim(
    keys_len: usize,
    position: usize,
    num_heads: usize,
    head_dim: usize,
) -> (size: usize)
    requires
        num_heads > 0,
        head_dim > 0,
        position > 0,
        keys_len > 0,
    ensures
        size == cached_head_dim(
            keys_len as int,
            position as int,
            num_heads as int,
            head_dim as int,
        ),
        size > 0,
{
    match position.checked_mul(num_heads) {
        Some(rows) => {
            assert(rows > 0) by (nonlinear_arith)
                requires
                    rows == position * num_heads,
                    position > 0,
                    num_heads > 0,
            ;
            if keys_len % rows == 0 {
                assert(keys_len / rows > 0) by (nonlinear_arith)
                    requires
                        keys_len > 0,
                        keys_len % rows == 0,
                        rows > 0,
                ;
                keys_len / rows
            } else {
                head_dim
            }
        },
        None => {
            let ghost rows = position * num_heads;
            assert(keys_len as int % rows == keys_len) by (nonlinear_arith)
                requires
                    0 <= keys_len < rows,
            ;
            head_dim
        },
    }
}

fn slot_head(keys_len: usize, position: usize, size: usize, h: usize) -> (head: usize)
    requires
        position > 0,
        size > 0,
    ensures
        head == cached_head(keys_len as int, position as int, size as int, h as int),
{
    let n: usize = match position.checked_mul(size) {
        Some(d) => {
            assert(d > 0) by (nonlinear_arith)
                requires
                    d == position * size,
                    position > 0,
                    size > 0,
            ;
            keys_len / d
        },
        None => {
            let ghost d = position * size;
            assert(keys_len as int / d == 0) by (nonlinear_arith)
                requires
                    0 <= keys_len < d,
            ;
            0
        },
    };
    let last: usize = if n >= 1 {
        n - 1
    } else {
        0
    };
    if h <= last {
        h
    } else {
        last
    }
}

/// Why a batch of queries is refused, if it is: a query has no elements, or
/// there are not as many slots as queries.
pub open spec fn batch_failure(q_len: nat, stride: nat, slots: nat) -> Option<ArchErrorView> {
    if stride == 0 {
        Some(
            ArchErrorView::ForwardPassError {
                layer: 0,
                message: "num_heads and head_dim must be > 0"@,
            },
        )
    } else if q_len / stride != 0 && slots != q_len / stride {
        Some(
            ArchErrorView::ForwardPassError {
                layer: 0,
                message: "batch_size "@ + decimal(q_len / stride) + " != kv_view slot_count "@
                    + decimal(slots),
            },
        )
    } else {
        None
    }
}

/// Plans a batched attention step: for each slot, what every head reads, or
/// `None` where the slot has nothing cached and its output is zero. A batch of
/// no queries has an empty plan, whatever slots there are.
pub fn plan_batched(
    q_len: usize,
    num_heads: usize,
    head_dim: usize,
    slots: &Vec<SlotShape>,
) -> (r: ArchResult<Vec<Option<Vec<SpanReads>>>>)
    requires
        num_heads * head_dim <= usize::MAX,
    ensures
        follows(
            r,
            batch_failure(q_len as nat, (num_heads * head_dim) as nat, slots@.len()),
        ),
        r matches Ok(plan) ==> {
            &&& plan@.len() == q_len as nat / ((num_heads * head_dim) as nat)
            &&& forall|s: int|
                0 <= s < plan@.len() ==> is_slot_plan(
                    #[trigger] plan@[s],
                    slots@[s],
                    num_heads as int,
                    head_dim as int,
                )
        },
{
    assert(num_heads * head_dim >= 0) by (nonlinear_arith);
    let stride: usize = num_heads * head_dim;
    if stride == 0 {
        return Err(
            ArchError::ForwardPassError {
                layer: 0,
                message: String::from_str("num_heads and head_dim must be > 0"),
            },
        );
    }
    proof {
        assert(num_heads > 0 && head_dim > 0) by (nonlinear_arith)
            requires
                num_heads * head_dim > 0,
                num_heads >= 0,
                head_dim >= 0,
        ;
    }
    let batch: usize = q_len / stride;
    let mut plan: Vec<Option<Vec<SpanReads>>> = Vec::new();
    if batch == 0 {
        return Ok(plan);
    }
    if slots.len() != batch {
        let b = decimal_string(batch);
        let s = decimal_string(slots.len());
        return Err(
            ArchError::ForwardPassError {
                layer: 0,
                message: joined("batch_size ", b.as_str()).concat(
                    " != kv_view slot_count ",
                ).concat(s.as_str()),
            },
        );
    }
    let mut i: usize = 0;
    while i < batch
        invariant
            i <= batch,
            slots@.len() == batch,
            num_heads > 0,
            head_dim > 0,
            plan@.len() == i,
            forall|s: int|
                0 <= s < i ==> is_slot_plan(
                    #[trigger] plan@[s],
                    slots@[s],
                    num_heads as int,
                    head_dim as int,
                ),
        decreases batch - i,
    {
        let shape = slots[i];
        if shape.position == 0 || shape.keys_len == 0 {
            plan.push(None);
        } else {
            let mut heads: Vec<SpanReads> = Vec::new();
            let mut h: usize = 0;
            while h < num_heads
                invariant
                    h <= num_heads,
                    num_heads > 0,
                    head_dim > 0,
                    shape.position > 0,
                    shape.keys_len > 0,
                    heads@.len() == h,
                    forall|j: int|
                        0 <= j < h ==> are_slot_reads(
                            #[trigger] heads@[j],
                            shape,
                            num_heads as int,
                            head_dim as int,
                            j,
                        ),
                decreases num_heads - h,
            {
                heads.push(slot_reads(&shape, num_heads, head_dim, h));
                h = h + 1;
            }
            plan.push(Some(heads));
        }
        i = i + 1;
    }
    Ok(plan)
}

/// Whether a slot's plan lists what each of its heads reads, or nothing where
/// nothing is cached.
pub open spec fn is_slot_plan(
    plan: Option<Vec<SpanReads>>,
    s: SlotShape,
    num_heads: int,
    head_dim: int,
) -> bool {
    match plan {
        None => s.position == 0 || s.keys_len == 0,
        Some(heads) => {
            &&& s.position > 0
            &&& s.keys_len > 0
            &&& heads@.len() == num_heads
            &&& forall|h: int|
                0 <= h < heads@.len() ==> are_slot_reads(
                    #[trigger] heads@[h],
                    s,
                    num_heads,
                    head_dim,
                    h,
                )
        },
    }
}

/// A slot whose caches hold whole heads of the query's size at every position
/// is read in full: every head reads its own vector at every position.
pub proof fn law_full_slot_reads_own_heads(
    r: SpanReads,
    s: SlotShape,
    num_heads: int,
    head_dim: int,
    h: int,
    p: int,
)
    requires
        are_slot_reads(r, s, num_heads, head_dim, h),
        head_dim > 0,
        0 <= h < num_heads,
        0 <= p < s.position,
        s.keys_len == s.position * (num_heads * head_dim),
        s.values_len == s.keys_len,
    ensures
        r.keys@.len() == s.position,
        r.values@.len() == s.position,
        r.keys@[p].start == p * (num_heads * head_dim) + h * head_dim,
        r.keys@[p].end == r.keys@[p].start + head_dim,
        r.values@[p].start == r.keys@[p].start,
        r.values@[p].end == r.keys@[p].end,
{
    let n = s.position as int;
    let row = num_heads * head_dim;
    let k = s.keys_len as int;
    assert(n * num_heads > 0) by (nonlinear_arith)
        requires
            n > 0,
            num_heads > 0,
    ;
    assert(n * (num_heads * head_dim) == (n * num_heads) * head_dim) by (nonlinear_arith);
    assert(head_dim * (n * num_heads) == (n * num_heads) * head_dim) by (nonlinear_arith);
    lemma_fundamental_div_mod_converse(k, n * num_heads, head_dim, 0);
    assert(cached_head_dim(k, n, num_heads, head_dim) == head_dim);
    assert(n * head_dim > 0) by (nonlinear_arith)
        requires
            n > 0,
            head_dim > 0,
    ;
    assert(n * (num_heads * head_dim) == num_heads * (n * head_dim)) by (nonlinear_arith);
    lemma_fundamental_div_mod_converse(k, n * head_dim, num_heads, 0);
    assert(cached_head(k, n, head_dim, h) == h);
    assert forall|q: int| 0 <= q < n implies span_base(q, row, h, head_dim) + head_dim <= k
        && span_base(q, row, h, head_dim) >= 0 by {
        assert(h * head_dim + head_dim <= num_heads * head_dim) by (nonlinear_arith)
            requires
                h + 1 <= num_heads,
                head_dim > 0,
        ;
        assert(q * row + row <= n * row) by (nonlinear_arith)
            requires
                q + 1 <= n,
                row >= 0,
        ;
        assert(q * row >= 0) by (nonlinear_arith)
            requires
                q >= 0,
                row >= 0,
        ;
        assert(h * head_dim >= 0) by (nonlinear_arith)
            requires
                h >= 0,
                head_dim > 0,
        ;
    }
    if r.keys@.len() < n {
        assert(span_base(r.keys@.len() as int, row, h, head_dim) + head_dim <= k);
    }
    if r.values@.len() < n {
        assert(span_base(r.values@.len() as int, row, h, head_dim) + head_dim <= k);
    }
    assert(span_base(p, row, h, head_dim) + head_dim <= k);
    assert(r.keys@[p].is_at(span_base(p, row, h, head_dim), head_dim, k));
    assert(r.values@[p].is_at(span_base(p, row, h, head_dim), head_dim, k));
}

/// What a head of a slot reads, in numbers. A cached head has as many elements as
/// an even share of the key cache, or as a head of the query where the cache does
/// not divide evenly. The head is the query's own, or the last that the cache has.
/// Positions follow each other by whole rows; a vector that the cache cuts off is
/// read as far as it goes, and one that begins past the end is not read, nor any
/// after it.
pub proof fn law_slot_reads_in_numbers(
    r: SpanReads,
    s: SlotShape,
    num_heads: int,
    head_dim: int,
    h: int,
    size: int,
    kv: int,
    p: int,
)
    requires
        are_slot_reads(r, s, num_heads, head_dim, h),
        0 <= h < num_heads,
        s.keys_len as int % (s.position * num_heads) == 0 ==> size == s.keys_len as int / (
        s.position * num_heads),
        s.keys_len as int % (s.position * num_heads) != 0 ==> size == head_dim,
        h < s.keys_len as int / (s.position * size) ==> kv == h,
        h >= s.keys_len as int / (s.position * size) >= 1 ==> kv == s.keys_len as int / (s.position
            * size) - 1,
        s.keys_len as int / (s.position * size) < 1 ==> kv == 0,
        0 <= p,
    ensures
        r.keys@.len() <= s.position,
        r.values@.len() <= s.position,
        p < r.keys@.len() ==> {
            &&& r.keys@[p].start == p * (num_heads * size) + kv * size
            &&& r.keys@[p].start < s.keys_len
            &&& r.keys@[p].start + size <= s.keys_len ==> r.keys@[p].end == r.keys@[p].start + size
            &&& r.keys@[p].start + size > s.keys_len ==> r.keys@[p].end == s.keys_len
        },
        p < r.values@.len() ==> {
            &&& r.values@[p].start == p * (num_heads * size) + kv * size
            &&& r.values@[p].start < s.values_len
            &&& r.values@[p].start + head_dim <= s.values_len ==> r.values@[p].end
                == r.values@[p].start + head_dim
            &&& r.values@[p].start + head_dim > s.values_len ==> r.values@[p].end == s.values_len
        },
        r.keys@.len() < s.position ==> r.keys@.len() * (num_heads * size) + kv * size
            >= s.keys_len,
        r.values@.len() < s.position ==> r.values@.len() * (num_heads * size) + kv * size
            >= s.values_len,
{
    let row = num_heads * size;
    assert(size == cached_head_dim(s.keys_len as int, s.position as int, num_heads, head_dim));
    assert(kv == cached_head(s.keys_len as int, s.position as int, size, h));
    if p < r.keys@.len() {
        assert(r.keys@[p].is_at(span_base(p, row, kv, size), size, s.keys_len as int));
    }
    if p < r.values@.len() {
        assert(r.values@[p].is_at(span_base(p, row, kv, size), head_dim, s.values_len as int));
    }
}

/// A batch is refused where a query has no elements, and where there are queries
/// but not as many slots; in no other case.
pub proof fn law_batches_are_refused_by_count(q_len: nat, stride: nat, slots: nat)
    ensures
        stride == 0 ==> batch_failure(q_len, stride, slots) == Some(
            ArchErrorView::ForwardPassError {
                layer: 0,
                message: "num_heads and head_dim must be > 0"@,
            },
        ),
        stride > 0 && q_len / stride > 0 && slots != q_len / stride ==> batch_failure(
            q_len,
            stride,
            slots,
        ) == Some(
            ArchErrorView::ForwardPassError {
                layer: 0,
                message: "batch_size "@ + decimal(q_len / stride) + " != kv_view slot_count "@
                    + decimal(slots),
            },
        ),
        stride > 0 && (q_len / stride == 0 || slots == q_len / stride) ==> batch_failure(
            q_len,
            stride,
            slots,
        ) is None,
{
}

/// A slot has a plan exactly where something is cached in it, and the plan has an
/// entry for each head.
pub proof fn law_empty_slots_have_no_plan(
    plan: Option<Vec<SpanReads>>,
    s: SlotShape,
    num_heads: int,
    head_dim: int,
)
    requires
        is_slot_plan(plan, s, num_heads, head_dim),
    ensures
        plan is Some <==> s.position > 0 && s.keys_len > 0,
        plan matches Some(heads) ==> heads@.len() == num_heads,
{
}

} // verus!
