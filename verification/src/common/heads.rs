//! Which parts of a key-value cache an attention head reads.

use crate::common::sizes::copied;
use crate::config::{ModelConfig, ModelConfigView};
use vstd::arithmetic::div_mod::{
    lemma_fundamental_div_mod, lemma_fundamental_div_mod_converse,
};
use vstd::prelude::*;

verus! {

/// The heads of an attention layer. A cache holds one row for each position,
/// and a row holds the vector of each key or value head in turn.
#[derive(Debug, Clone, Copy, PartialEq, Eq)]
pub struct HeadLayout {
    /// Number of query heads.
    pub num_heads: usize,
    /// Number of key and value heads.
    pub num_kv_heads: usize,
    /// Size of one head.
    pub head_dim: usize,
}

/// Query heads that share one key and value head; 1 where there are no key and
/// value heads.
pub open spec fn group_of(num_heads: nat, num_kv_heads: nat) -> nat {
    if num_kv_heads == 0 {
        1
    } else {
        num_heads / num_kv_heads
    }
}

/// Query heads that share one key and value head.
pub fn heads_per_kv(num_heads: usize, num_kv_heads: usize) -> (g: usize)
    ensures
        g == group_of(num_heads as nat, num_kv_heads as nat),
{
    if num_kv_heads == 0 {
        1
    } else {
        num_heads / num_kv_heads
    }
}

/// Query heads that share one key and value head, and at least 1.
pub fn gqa_ratio(num_heads: usize, num_kv_heads: usize) -> (g: usize)
    ensures
        g >= 1,
        group_of(num_heads as nat, num_kv_heads as nat) >= 1 ==> g == group_of(
            num_heads as nat,
            num_kv_heads as nat,
        ),
        group_of(num_heads as nat, num_kv_heads as nat) == 0 ==> g == 1,
{
    let g: usize = heads_per_kv(num_heads, num_kv_heads);
    if g == 0 {
        1
    } else {
        g
    }
}

impl HeadLayout {
    /// The size of a cache row.
    pub open spec fn row(self) -> int {
        self.num_kv_heads * self.head_dim
    }

    /// The key and value head of query head `h`.
    pub open spec fn kv_head(self, h: int) -> int {
        h / group_of(self.num_heads as nat, self.num_kv_heads as nat) as int
    }

    /// Where the vector that query head `h` reads at a position begins.
    pub open spec fn offset(self, h: int, position: int) -> int {
        position * self.row() + self.kv_head(h) * self.head_dim
    }

    /// Whether query heads can be grouped at all: there are not more key and
    /// value heads than query heads.
    pub open spec fn grouped(self) -> bool {
        group_of(self.num_heads as nat, self.num_kv_heads as nat) > 0
    }

    /// Whether every query head reads a head that the cache has: the key and
    /// value heads divide the query heads.
    pub open spec fn even(self) -> bool {
        self.num_kv_heads > 0 && self.num_heads % self.num_kv_heads == 0
    }

    /// Where the vectors begin that query head `h` reads at the positions
    /// `from..to`.
    pub fn offsets(&self, h: usize, from: usize, to: usize) -> (out: Vec<usize>)
        requires
            self.grouped(),
            from <= to,
            to * self.row() + self.kv_head(h as int) * self.head_dim <= usize::MAX,
        ensures
            out@.len() == to - from,
            forall|p: int|
                0 <= p < out@.len() ==> #[trigger] out@[p] == self.offset(h as int, from + p),
    {
        let mut out: Vec<usize> = Vec::new();
        let g: usize = heads_per_kv(self.num_heads, self.num_kv_heads);
        let kv: usize = h / g;
        let mut p: usize = from;
        proof {
            self.lemma_offset_bounds(h as int, from as int, to as int);
        }
        if from == to {
            return out;
        }
        proof {
            self.lemma_row_fits(h as int, to as int);
        }
        let row: usize = self.num_kv_heads * self.head_dim;
        let inside: usize = kv * self.head_dim;
        while p < to
            invariant
                from <= p <= to,
                row == self.row(),
                inside == self.kv_head(h as int) * self.head_dim,
                to * row + inside <= usize::MAX,
                out@.len() == p - from,
                forall|j: int|
                    0 <= j < out@.len() ==> #[trigger] out@[j] == self.offset(h as int, from + j),
            decreases to - p,
        {
            assert(p * row <= to * row) by (nonlinear_arith)
                requires
                    p <= to,
            ;
            assert(p * row >= 0) by (nonlinear_arith);
            out.push(p * row + inside);
            p = p + 1;
        }
        out
    }

    proof fn lemma_offset_bounds(self, h: int, from: int, to: int)
        requires
            self.grouped(),
            0 <= h,
            0 <= from <= to,
        ensures
            self.row() >= 0,
            self.kv_head(h) >= 0,
            self.kv_head(h) * self.head_dim >= 0,
    {
        assert(self.row() >= 0) by (nonlinear_arith)
            requires
                self.row() == self.num_kv_heads * self.head_dim,
        ;
        let g = group_of(self.num_heads as nat, self.num_kv_heads as nat) as int;
        assert(h / g >= 0) by (nonlinear_arith)
            requires
                h >= 0,
                g > 0,
        ;
        let k = self.kv_head(h);
        assert(k * self.head_dim >= 0) by (nonlinear_arith)
            requires
                k >= 0,
        ;
    }

    proof fn lemma_row_fits(self, h: int, to: int)
        requires
            self.grouped(),
            0 <= h,
            to >= 1,
            to * self.row() + self.kv_head(h) * self.head_dim <= usize::MAX,
        ensures
            0 <= self.row() <= usize::MAX,
            0 <= self.kv_head(h) * self.head_dim <= usize::MAX,
    {
        self.lemma_offset_bounds(h, 0, to);
        let row = self.row();
        assert(to * row >= row) by (nonlinear_arith)
            requires
                to >= 1,
                row >= 0,
        ;
    }

    /// Where the vectors begin that query head `h` reads at the positions
    /// `0..n_tokens` of a cache of `cache_len` elements, or `None` where the
    /// cache does not reach.
    pub fn guarded_offsets(&self, h: usize, n_tokens: usize, cache_len: usize) -> (out: Vec<
        Option<usize>,
    >)
        requires
            self.grouped(),
        ensures
            out@.len() == n_tokens,
            forall|t: int|
                0 <= t < n_tokens ==> #[trigger] out@[t] == self.guarded(
                    h as int,
                    t,
                    cache_len as int,
                ),
    {
        let mut out: Vec<Option<usize>> = Vec::new();
        let g: usize = heads_per_kv(self.num_heads, self.num_kv_heads);
        let kv: usize = h / g;
        let mut t: usize = 0;
        while t < n_tokens
            invariant
                t <= n_tokens,
                self.grouped(),
                kv == self.kv_head(h as int),
                out@.len() == t,
                forall|j: int|
                    0 <= j < t ==> #[trigger] out@[j] == self.guarded(
                        h as int,
                        j,
                        cache_len as int,
                    ),
            decreases n_tokens - t,
        {
            let o = self.guard(kv, t, cache_len);
            assert(o == self.guarded(h as int, t as int, cache_len as int));
            out.push(o);
            t = t + 1;
        }
        out
    }

    /// Where the vector begins that query head `h` reads at a position, where
    /// the cache holds all of it.
    pub open spec fn guarded(self, h: int, position: int, cache_len: int) -> Option<usize> {
        if self.offset(h, position) + self.head_dim <= cache_len {
            Some(self.offset(h, position) as usize)
        } else {
            None
        }
    }

    fn guard(&self, kv: usize, t: usize, cache_len: usize) -> (r: Option<usize>)
        ensures
            r == (if t * self.row() + kv * self.head_dim + self.head_dim <= cache_len {
                Some((t * self.row() + kv * self.head_dim) as usize)
            } else {
                None
            }),
    {
        proof {
            let row = self.row();
            let d = self.head_dim;
            assert(row >= 0) by (nonlinear_arith)
                requires
                    row == self.num_kv_heads * self.head_dim,
            ;
            assert(t * row >= 0) by (nonlinear_arith)
                requires
                    row >= 0,
            ;
            assert(kv * d >= 0) by (nonlinear_arith);
            if t >= 1 {
                assert(t * row >= row) by (nonlinear_arith)
                    requires
                        t >= 1,
                        row >= 0,
                ;
            } else {
                assert(t * row == 0) by (nonlinear_arith)
                    requires
                        t == 0,
                ;
            }
        }
        let before: usize = if t == 0 {
            0
        } else {
            match self.num_kv_heads.checked_mul(self.head_dim) {
                Some(row) => match t.checked_mul(row) {
                    Some(b) => b,
                    None => {
                        return None;
                    },
                },
                None => {
                    return None;
                },
            }
        };
        match kv.checked_mul(self.head_dim) {
            Some(inside) => match before.checked_add(inside) {
                Some(start) => {
                    if start <= cache_len && self.head_dim <= cache_len - start {
                        Some(start)
                    } else {
                        None
                    }
                },
                None => None,
            },
            None => None,
        }
    }
}

/// What one query head reads: where its query begins, and where the key and the
/// value of each position begin, as far as the caches reach.
#[derive(Debug)]
pub struct HeadReads {
    /// Where the query begins; the head's output begins there too.
    pub query: usize,
    /// Where the keys begin. A position without a key gets no attention.
    pub keys: Vec<Option<usize>>,
    /// Where the values begin. A position without a value adds nothing.
    pub values: Vec<Option<usize>>,
}

/// The number of positions that a single-token step looks at: those cached
/// before it and its own, but not more than the context holds.
pub open spec fn visible_tokens(cached: nat, max_context: nat) -> nat {
    if cached + 1 <= max_context {
        cached + 1
    } else {
        max_context
    }
}

/// Plans the reads of every head of a single-token step.
pub fn plan_single_token(
    layout: &HeadLayout,
    cached: usize,
    max_context: usize,
    keys_len: usize,
    values_len: usize,
) -> (plan: Vec<HeadReads>)
    requires
        layout.num_heads == 0 || layout.grouped(),
        layout.num_heads * layout.head_dim <= usize::MAX,
    ensures
        plan@.len() == layout.num_heads,
        forall|h: int|
            0 <= h < plan@.len() ==> head_reads_as_planned(
                #[trigger] plan@[h],
                *layout,
                h,
                visible_tokens(cached as nat, max_context as nat),
                keys_len as int,
                values_len as int,
            ),
        forall|h: int|
            0 <= h < plan@.len() ==> (#[trigger] plan@[h]).keys@.len() == if cached < max_context {
                cached + 1
            } else {
                max_context as int
            },
{
    let n: usize = if cached < max_context {
        cached + 1
    } else {
        max_context
    };
    let mut plan: Vec<HeadReads> = Vec::new();
    let mut h: usize = 0;
    while h < layout.num_heads
        invariant
            h <= layout.num_heads,
            layout.num_heads == 0 || layout.grouped(),
            layout.num_heads * layout.head_dim <= usize::MAX,
            n == visible_tokens(cached as nat, max_context as nat),
            plan@.len() == h,
            forall|j: int|
                0 <= j < h ==> head_reads_as_planned(
                    #[trigger] plan@[j],
                    *layout,
                    j,
                    n as nat,
                    keys_len as int,
                    values_len as int,
                ),
        decreases layout.num_heads - h,
    {
        assert(h * layout.head_dim <= layout.num_heads * layout.head_dim) by (nonlinear_arith)
            requires
                h <= layout.num_heads,
        ;
        assert(h * layout.head_dim >= 0) by (nonlinear_arith);
        let reads = HeadReads {
            query: h * layout.head_dim,
            keys: layout.guarded_offsets(h, n, keys_len),
            values: layout.guarded_offsets(h, n, values_len),
        };
        proof {
            assert(reads.keys@ =~= Seq::new(
                n as nat,
                |t: int| layout.guarded(h as int, t, keys_len as int),
            ));
            assert(reads.values@ =~= Seq::new(
                n as nat,
                |t: int| layout.guarded(h as int, t, values_len as int),
            ));
        }
        plan.push(reads);
        h = h + 1;
    }
    plan
}

/// Whether the reads of query head `h` are those of `n` positions.
pub open spec fn head_reads_as_planned(
    r: HeadReads,
    layout: HeadLayout,
    h: int,
    n: nat,
    keys_len: int,
    values_len: int,
) -> bool {
    &&& r.query == h * layout.head_dim
    &&& r.keys@ == Seq::new(n, |t: int| layout.guarded(h, t, keys_len))
    &&& r.values@ == Seq::new(n, |t: int| layout.guarded(h, t, values_len))
}

/// What one query head reads when it attends to a range of positions.
#[derive(Debug)]
pub struct CausalReads {
    /// Where the query begins; the head's output begins there too.
    pub query: usize,
    /// Where the key of each position begins; its value begins there too.
    pub keys: Vec<usize>,
}

/// Whether the reads are those of query head `h` at the positions `from..to`.
pub open spec fn causal_as_planned(
    r: CausalReads,
    layout: HeadLayout,
    h: int,
    from: int,
    to: int,
) -> bool {
    &&& r.query == h * layout.head_dim
    &&& r.keys@.len() == to - from
    &&& forall|p: int|
        0 <= p < r.keys@.len() ==> #[trigger] r.keys@[p] == layout.offset(h, from + p)
}

/// Plans the reads of every head that attends to the positions `from..to`.
pub fn plan_causal(layout: &HeadLayout, from: usize, to: usize) -> (plan: Vec<CausalReads>)
    requires
        layout.num_heads == 0 || layout.grouped(),
        from <= to,
        layout.num_heads * layout.head_dim <= usize::MAX,
        to * layout.row() + layout.num_heads * layout.head_dim <= usize::MAX,
    ensures
        plan@.len() == layout.num_heads,
        forall|h: int|
            0 <= h < plan@.len() ==> causal_as_planned(
                #[trigger] plan@[h],
                *layout,
                h,
                from as int,
                to as int,
            ),
{
    let mut plan: Vec<CausalReads> = Vec::new();
    let mut h: usize = 0;
    while h < layout.num_heads
        invariant
            h <= layout.num_heads,
            layout.num_heads == 0 || layout.grouped(),
            from <= to,
            layout.num_heads * layout.head_dim <= usize::MAX,
            to * layout.row() + layout.num_heads * layout.head_dim <= usize::MAX,
            plan@.len() == h,
            forall|j: int|
                0 <= j < h ==> causal_as_planned(
                    #[trigger] plan@[j],
                    *layout,
                    j,
                    from as int,
                    to as int,
                ),
        decreases layout.num_heads - h,
    {
        proof {
            let d = layout.head_dim as int;
            let n = layout.num_heads as int;
            let g = group_of(layout.num_heads as nat, layout.num_kv_heads as nat) as int;
            let k = layout.kv_head(h as int);
            assert(h * d <= n * d) by (nonlinear_arith)
                requires
                    h <= n,
                    d >= 0,
            ;
            assert(h * d >= 0) by (nonlinear_arith)
                requires
                    d >= 0,
            ;
            assert(k <= h) by (nonlinear_arith)
                requires
                    k == h as int / g,
                    g >= 1,
            ;
            assert(k * d <= h * d) by (nonlinear_arith)
                requires
                    k <= h,
                    d >= 0,
            ;
        }
        let keys = layout.offsets(h, from, to);
        plan.push(CausalReads { query: h * layout.head_dim, keys });
        h = h + 1;
    }
    plan
}

/// Where the vector of a key and value head begins at a position of a cache
/// whose positions are `stride` apart.
pub open spec fn strided_offset(stride: int, head_dim: int, kv_head: int, position: int) -> int {
    position * stride + kv_head * head_dim
}

/// Whether the reads are those of query head `h`, with `group` query heads to a
/// key and value head, at the positions `0..to` of a cache whose positions are
/// `stride` apart.
pub open spec fn strided_as_planned(
    r: CausalReads,
    stride: int,
    head_dim: int,
    group: int,
    h: int,
    to: int,
) -> bool {
    &&& r.query == h * head_dim
    &&& r.keys@.len() == to
    &&& forall|p: int|
        0 <= p < r.keys@.len() ==> #[trigger] r.keys@[p] == strided_offset(
            stride,
            head_dim,
            h / group,
            p,
        )
}

/// Plans the reads of every head in a cache whose positions are `stride` apart.
pub fn plan_strided(
    num_heads: usize,
    group: usize,
    head_dim: usize,
    stride: usize,
    to: usize,
) -> (plan: Vec<CausalReads>)
    requires
        group > 0,
        to * stride + num_heads * head_dim <= usize::MAX,
    ensures
        plan@.len() == num_heads,
        forall|h: int|
            0 <= h < plan@.len() ==> strided_as_planned(
                #[trigger] plan@[h],
                stride as int,
                head_dim as int,
                group as int,
                h,
                to as int,
            ),
{
    let mut plan: Vec<CausalReads> = Vec::new();
    let mut h: usize = 0;
    while h < num_heads
        invariant
            h <= num_heads,
            group > 0,
            to * stride + num_heads * head_dim <= usize::MAX,
            plan@.len() == h,
            forall|j: int|
                0 <= j < h ==> strided_as_planned(
                    #[trigger] plan@[j],
                    stride as int,
                    head_dim as int,
                    group as int,
                    j,
                    to as int,
                ),
        decreases num_heads - h,
    {
        let kv: usize = h / group;
        proof {
            assert(kv <= h) by (nonlinear_arith)
                requires
                    kv == h / group,
                    group >= 1,
            ;
            assert(to * stride >= 0) by (nonlinear_arith);
            assert(kv * head_dim >= 0) by (nonlinear_arith);
            assert(kv * head_dim <= num_heads * head_dim) by (nonlinear_arith)
                requires
                    kv <= num_heads,
            ;
            assert(h * head_dim <= num_heads * head_dim) by (nonlinear_arith)
                requires
                    h <= num_heads,
            ;
            assert(h * head_dim >= 0) by (nonlinear_arith);
        }
        let inside: usize = kv * head_dim;
        let mut keys: Vec<usize> = Vec::new();
        let mut p: usize = 0;
        while p < to
            invariant
                p <= to,
                kv == h / group,
                inside == kv * head_dim,
                to * stride + inside <= usize::MAX,
                keys@.len() == p,
                forall|j: int|
                    0 <= j < p ==> #[trigger] keys@[j] == strided_offset(
                        stride as int,
                        head_dim as int,
                        (h / group) as int,
                        j,
                    ),
            decreases to - p,
        {
            assert(p * stride <= to * stride) by (nonlinear_arith)
                requires
                    p <= to,
            ;
            assert(p * stride >= 0) by (nonlinear_arith);
            keys.push(p * stride + inside);
            p = p + 1;
        }
        plan.push(CausalReads { query: h * head_dim, keys });
        h = h + 1;
    }
    plan
}

/// In a cache whose positions hold one vector for each key and value head, reads
/// at a stride are those of a grouped layout.
pub proof fn law_strides_of_rows_are_grouped(layout: HeadLayout, h: int, position: int)
    requires
        layout.grouped(),
    ensures
        strided_offset(
            layout.row(),
            layout.head_dim as int,
            h / group_of(layout.num_heads as nat, layout.num_kv_heads as nat) as int,
            position,
        ) == layout.offset(h, position),
{
}

/// The query, key and value of a token.
#[derive(Debug)]
pub struct Qkv {
    /// The query, one part for each query head.
    pub query: Vec<u32>,
    /// The key, one part for each key head.
    pub key: Vec<u32>,
    /// The value, one part for each value head.
    pub value: Vec<u32>,
}

impl HeadLayout {
    /// The size of a query.
    pub open spec fn query_size(self) -> int {
        self.num_heads * self.head_dim
    }

    /// Takes the query, the key and the value out of the output of a projection
    /// that gives all three, in this order.
    pub fn split_qkv(&self, fused: &Vec<u32>) -> (r: Qkv)
        requires
            self.query_size() + 2 * self.row() <= fused@.len(),
        ensures
            r.query@ == fused@.subrange(0, self.query_size()),
            r.key@ == fused@.subrange(self.query_size(), self.query_size() + self.row()),
            r.value@ == fused@.subrange(
                self.query_size() + self.row(),
                self.query_size() + 2 * self.row(),
            ),
    {
        let total: usize = fused.len();
        proof {
            assert(self.query_size() >= 0) by (nonlinear_arith)
                requires
                    self.query_size() == self.num_heads * self.head_dim,
            ;
            assert(self.row() >= 0) by (nonlinear_arith)
                requires
                    self.row() == self.num_kv_heads * self.head_dim,
            ;
        }
        let q: usize = self.num_heads * self.head_dim;
        let kv: usize = self.num_kv_heads * self.head_dim;
        Qkv {
            query: copied(fused, 0, q),
            key: copied(fused, q, q + kv),
            value: copied(fused, q + kv, q + kv + kv),
        }
    }
}

/// The heads that a configuration gives a layer.
pub open spec fn layout_of(c: ModelConfigView) -> HeadLayout {
    HeadLayout {
        num_heads: c.num_attention_heads,
        num_kv_heads: c.num_kv_heads,
        head_dim: c.head_dim,
    }
}

/// The heads that a configuration gives a layer.
pub fn head_layout(config: &ModelConfig) -> (l: HeadLayout)
    ensures
        l == layout_of(config@),
{
    HeadLayout {
        num_heads: config.num_attention_heads,
        num_kv_heads: config.num_kv_heads,
        head_dim: config.head_dim,
    }
}

/// Whether a layer with these heads can attend at a position: heads can be
/// grouped, and places in the cache fit a machine word.
pub open spec fn can_attend(layout: HeadLayout, position: int) -> bool {
    &&& layout.num_heads == 0 || layout.grouped()
    &&& layout.num_heads * layout.head_dim <= usize::MAX
    &&& (position + 1) * layout.row() + layout.num_heads * layout.head_dim <= usize::MAX
    &&& position < usize::MAX
}

/// Plans the reads of every head of a token at a position, with a window if
/// there is one.
pub fn plan_attention(layout: &HeadLayout, position: usize, window: Option<usize>) -> (plan: Vec<
    CausalReads,
>)
    requires
        can_attend(*layout, position as int),
    ensures
        attends(plan@, *layout, position as int, window),
{
    let from: usize = window_start(position + 1, window);
    plan_causal(layout, from, position + 1)
}

/// Whether a plan is that of a token at a position: every head reads the
/// positions that the window leaves in view, up to the token's own.
pub open spec fn attends(
    plan: Seq<CausalReads>,
    layout: HeadLayout,
    position: int,
    window: Option<usize>,
) -> bool {
    &&& plan.len() == layout.num_heads
    &&& forall|h: int|
        0 <= h < plan.len() ==> causal_as_planned(
            #[trigger] plan[h],
            layout,
            h,
            window_start_of((position + 1) as nat, window) as int,
            position + 1,
        )
}

/// The first position that a window leaves in view.
pub open spec fn window_start_of(seq_len: nat, window: Option<usize>) -> nat {
    match window {
        Some(w) => if w <= seq_len {
            (seq_len - w) as nat
        } else {
            0
        },
        None => 0,
    }
}

/// The first position that a window leaves in view.
pub fn window_start(seq_len: usize, window: Option<usize>) -> (s: usize)
    ensures
        s == window_start_of(seq_len as nat, window),
{
    match window {
        Some(w) => {
            if w <= seq_len {
                seq_len - w
            } else {
                0
            }
        },
        None => 0,
    }
}

/// A window leaves in view as many positions as it spans, or all if there are
/// fewer, and a window that is not empty always leaves the newest in view.
pub proof fn law_window_keeps_newest(seq_len: nat, w: usize)
    requires
        seq_len >= 1,
    ensures
        seq_len - window_start_of(seq_len, Some(w)) == if w <= seq_len {
            w as int
        } else {
            seq_len as int
        },
        w >= 1 ==> window_start_of(seq_len, Some(w)) < seq_len,
        window_start_of(seq_len, None) == 0,
{
}

/// Where the key and value heads divide the query heads, every query head
/// reads a head that the cache has, and the vector that it reads at a position
/// lies inside that position's row.
pub proof fn law_reads_stay_in_row(layout: HeadLayout, h: int, position: int)
    requires
        layout.even(),
        0 <= h < layout.num_heads,
        0 <= position,
    ensures
        0 <= layout.kv_head(h) < layout.num_kv_heads,
        position * layout.row() <= layout.offset(h, position),
        layout.offset(h, position) + layout.head_dim <= (position + 1) * layout.row(),
{
    let n = layout.num_heads as int;
    let k = layout.num_kv_heads as int;
    let d = layout.head_dim as int;
    let g = n / k;
    lemma_fundamental_div_mod(n, k);
    assert(n == k * g);
    assert(g > 0) by (nonlinear_arith)
        requires
            n == k * g,
            n > 0,
            k > 0,
    ;
    let q = h / g;
    lemma_fundamental_div_mod(h, g);
    assert(q >= 0) by (nonlinear_arith)
        requires
            h == g * q + h % g,
            0 <= h % g < g,
            h >= 0,
    ;
    assert(q < k) by (nonlinear_arith)
        requires
            h == g * q + h % g,
            0 <= h % g,
            h < k * g,
            g > 0,
    ;
    assert(q * d >= 0) by (nonlinear_arith)
        requires
            q >= 0,
            d >= 0,
    ;
    assert(q * d + d <= k * d) by (nonlinear_arith)
        requires
            q + 1 <= k,
            d >= 0,
    ;
    let row = layout.row();
    assert((position + 1) * row == position * row + row) by (nonlinear_arith);
}

/// Two query heads read the same vector at a position exactly when they share
/// a key and value head; vectors of different heads or positions do not
/// overlap.
pub proof fn law_reads_disjoint(layout: HeadLayout, h1: int, p1: int, h2: int, p2: int)
    requires
        layout.even(),
        layout.head_dim > 0,
        0 <= h1 < layout.num_heads,
        0 <= h2 < layout.num_heads,
        0 <= p1,
        0 <= p2,
    ensures
        layout.offset(h1, p1) == layout.offset(h2, p2) <==> p1 == p2 && layout.kv_head(h1)
            == layout.kv_head(h2),
        layout.offset(h1, p1) != layout.offset(h2, p2) ==> {
            ||| layout.offset(h1, p1) + layout.head_dim <= layout.offset(h2, p2)
            ||| layout.offset(h2, p2) + layout.head_dim <= layout.offset(h1, p1)
        },
{
    law_reads_stay_in_row(layout, h1, p1);
    law_reads_stay_in_row(layout, h2, p2);
    let row = layout.row();
    let d = layout.head_dim as int;
    let a = layout.kv_head(h1);
    let b = layout.kv_head(h2);
    assert(row >= 0) by (nonlinear_arith)
        requires
            row == layout.num_kv_heads * layout.head_dim,
    ;
    if p1 < p2 {
        assert((p1 + 1) * row <= p2 * row) by (nonlinear_arith)
            requires
                p1 + 1 <= p2,
                row >= 0,
        ;
    } else if p2 < p1 {
        assert((p2 + 1) * row <= p1 * row) by (nonlinear_arith)
            requires
                p2 + 1 <= p1,
                row >= 0,
        ;
    } else if a < b {
        assert(a * d + d <= b * d) by (nonlinear_arith)
            requires
                a + 1 <= b,
                d >= 0,
        ;
    } else if b < a {
        assert(b * d + d <= a * d) by (nonlinear_arith)
            requires
                b + 1 <= a,
                d >= 0,
        ;
    }
}

/// The query heads cut a query into parts: every element belongs to one head.
pub proof fn law_heads_partition_query(num_heads: nat, head_dim: nat, x: int)
    requires
        head_dim > 0,
        0 <= x < num_heads * head_dim,
    ensures
        0 <= x / head_dim as int,
        x / (head_dim as int) < num_heads,
        x / (head_dim as int) * head_dim <= x,
        x < (x / (head_dim as int) + 1) * head_dim,
{
    let d = head_dim as int;
    let q = x / d;
    lemma_fundamental_div_mod(x, d);
    assert(q >= 0) by (nonlinear_arith)
        requires
            x == d * q + x % d,
            0 <= x % d < d,
            x >= 0,
    ;
    assert(q < num_heads) by (nonlinear_arith)
        requires
            x == d * q + x % d,
            0 <= x % d,
            x < num_heads * d,
            d > 0,
    ;
    assert(q * d == d * q) by (nonlinear_arith);
    assert((q + 1) * d == q * d + d) by (nonlinear_arith);
}

/// A single-token step that fills a cache of whole rows reaches the key of
/// every position that it looks at.
pub proof fn law_full_cache_reaches_all(
    layout: HeadLayout,
    h: int,
    n: nat,
    t: int,
    keys_len: int,
)
    requires
        layout.even(),
        0 <= h < layout.num_heads,
        0 <= t < n,
        n * layout.row() <= keys_len <= usize::MAX,
    ensures
        layout.guarded(h, t, keys_len) == Some(layout.offset(h, t) as usize),
{
    law_reads_stay_in_row(layout, h, t);
    let row = layout.row();
    assert(row >= 0) by (nonlinear_arith)
        requires
            row == layout.num_kv_heads * layout.head_dim,
    ;
    assert((t + 1) * row <= n * row) by (nonlinear_arith)
        requires
            t + 1 <= n,
            row >= 0,
    ;
}

/// In a cache whose positions hold one vector for each key and value head, heads
/// that read at that stride read what grouped heads read without a window: query
/// head `h` uses its group's key and value head of every cached position.
pub proof fn law_strided_plans_are_grouped(
    plan: Seq<CausalReads>,
    layout: HeadLayout,
    position: int,
)
    requires
        layout.grouped(),
        plan.len() == layout.num_heads,
        forall|h: int|
            0 <= h < plan.len() ==> strided_as_planned(
                #[trigger] plan[h],
                layout.row(),
                layout.head_dim as int,
                group_of(layout.num_heads as nat, layout.num_kv_heads as nat) as int,
                h,
                position + 1,
            ),
    ensures
        attends(plan, layout, position, None),
{
    assert forall|h: int| 0 <= h < plan.len() implies causal_as_planned(
        #[trigger] plan[h],
        layout,
        h,
        0,
        position + 1,
    ) by {
        assert forall|p: int| 0 <= p < plan[h].keys@.len() implies #[trigger] plan[h].keys@[p]
            == layout.offset(h, p) by {
            law_strides_of_rows_are_grouped(layout, h, p);
        }
    }
}

/// Heads read nothing of a cache but the rows of the positions that the window
/// leaves in view: two caches that agree there give every head the same values.
pub proof fn law_only_rows_in_view_are_read(
    plan: Seq<CausalReads>,
    layout: HeadLayout,
    position: int,
    window: Option<usize>,
    a: Seq<u32>,
    b: Seq<u32>,
    h: int,
    p: int,
    d: int,
)
    requires
        layout.even(),
        0 <= position,
        attends(plan, layout, position, window),
        forall|i: int|
            #![trigger a[i]]
            window_start_of((position + 1) as nat, window) * layout.row() <= i < (position + 1)
                * layout.row() ==> a[i] == b[i],
        0 <= h < plan.len(),
        0 <= p < plan[h].keys@.len(),
        0 <= d < layout.head_dim,
    ensures
        a[plan[h].keys@[p] + d] == b[plan[h].keys@[p] + d],
{
    let from = window_start_of((position + 1) as nat, window) as int;
    let at = from + p;
    let row = layout.row();
    assert(causal_as_planned(plan[h], layout, h, from, position + 1));
    law_reads_stay_in_row(layout, h, at);
    assert(row >= 0) by (nonlinear_arith)
        requires
            row == layout.num_kv_heads * layout.head_dim,
    ;
    assert(from * row <= at * row) by (nonlinear_arith)
        requires
            from <= at,
            row >= 0,
    ;
    assert((at + 1) * row <= (position + 1) * row) by (nonlinear_arith)
        requires
            at + 1 <= position + 1,
            row >= 0,
    ;
}

/// Whether two plans read the same places.
pub open spec fn same_reads(a: Seq<CausalReads>, b: Seq<CausalReads>) -> bool {
    &&& a.len() == b.len()
    &&& forall|h: int|
        #![trigger a[h]]
        0 <= h < a.len() ==> a[h].query == b[h].query && a[h].keys@ == b[h].keys@
}

/// The heads, the position and the window fix what is read.
pub proof fn law_attention_plans_are_unique(
    a: Seq<CausalReads>,
    b: Seq<CausalReads>,
    layout: HeadLayout,
    position: int,
    window: Option<usize>,
)
    requires
        attends(a, layout, position, window),
        attends(b, layout, position, window),
    ensures
        same_reads(a, b),
{
    let from = window_start_of((position + 1) as nat, window) as int;
    assert forall|h: int| #![trigger a[h]] 0 <= h < a.len() implies a[h].query == b[h].query
        && a[h].keys@ == b[h].keys@ by {
        assert(causal_as_planned(a[h], layout, h, from, position + 1));
        assert(causal_as_planned(b[h], layout, h, from, position + 1));
        assert(a[h].keys@ =~= b[h].keys@);
    }
}

/// While the context is not full, a single-token step looks at the positions
/// cached before it and at its own, which is the last; once it is full, at as
/// many as the context holds. At position `t` a head reads the vector of the key
/// and value head that its group shares, in row `t`, exactly where the cache
/// holds all of it.
pub proof fn law_single_token_step_looks_at_every_position(
    r: HeadReads,
    layout: HeadLayout,
    h: int,
    cached: nat,
    max_context: nat,
    keys_len: usize,
    values_len: usize,
    t: int,
)
    requires
        head_reads_as_planned(
            r,
            layout,
            h,
            visible_tokens(cached, max_context),
            keys_len as int,
            values_len as int,
        ),
        0 < layout.num_kv_heads <= layout.num_heads,
        0 <= h < layout.num_heads,
        0 <= t < r.keys@.len(),
    ensures
        r.query == h * layout.head_dim,
        cached < max_context ==> r.keys@.len() == cached + 1,
        cached >= max_context ==> r.keys@.len() == max_context,
        r.values@.len() == r.keys@.len(),
        ({
            let at = t * (layout.num_kv_heads * layout.head_dim) + h / (layout.num_heads as int
                / layout.num_kv_heads as int) * layout.head_dim;
            &&& r.keys@[t] is Some <==> at + layout.head_dim <= keys_len
            &&& r.keys@[t] matches Some(k) ==> k == at
            &&& r.values@[t] is Some <==> at + layout.head_dim <= values_len
            &&& r.values@[t] matches Some(v) ==> v == at
        }),
{
    let n = layout.num_heads as int;
    let k = layout.num_kv_heads as int;
    let g = n / k;
    let d = layout.head_dim as int;
    assert(g >= 1) by (nonlinear_arith)
        requires
            g == n / k,
            0 < k <= n,
    ;
    let q = h / g;
    assert(q >= 0) by (nonlinear_arith)
        requires
            q == h / g,
            h >= 0,
            g >= 1,
    ;
    assert(t * (k * d) >= 0 && q * d >= 0) by (nonlinear_arith)
        requires
            t >= 0,
            k >= 0,
            d >= 0,
            q >= 0,
    ;
    assert(layout.guarded(h, t, keys_len as int) == r.keys@[t]);
    assert(layout.guarded(h, t, values_len as int) == r.values@[t]);
}

/// What a single-token step looks at grows by the newest position with every
/// token, until the context is full.
pub proof fn law_single_token_step_keeps_looking_back(
    before: HeadReads,
    after: HeadReads,
    layout: HeadLayout,
    h: int,
    cached: nat,
    max_context: nat,
    keys_len: int,
    values_len: int,
)
    requires
        cached + 1 < max_context,
        head_reads_as_planned(
            before,
            layout,
            h,
            visible_tokens(cached, max_context),
            keys_len,
            values_len,
        ),
        head_reads_as_planned(
            after,
            layout,
            h,
            visible_tokens(cached + 1, max_context),
            keys_len,
            values_len,
        ),
    ensures
        after.keys@.len() == before.keys@.len() + 1,
        after.keys@.drop_last() == before.keys@,
        after.values@.drop_last() == before.values@,
{
    assert(after.keys@.drop_last() =~= before.keys@);
    assert(after.values@.drop_last() =~= before.values@);
}

/// A token's heads read the rows of the positions in view, oldest first and its
/// own last: all up to its own, or as many of the newest as the window spans. In
/// each row a head reads the vector of the key and value head that its group
/// shares.
pub proof fn law_attention_reads_rows_in_order(
    plan: Seq<CausalReads>,
    layout: HeadLayout,
    position: int,
    window: Option<usize>,
    h: int,
)
    requires
        attends(plan, layout, position, window),
        0 < layout.num_kv_heads <= layout.num_heads,
        0 <= position,
        0 <= h < layout.num_heads,
    ensures
        plan.len() == layout.num_heads,
        plan[h].query == h * layout.head_dim,
        window is None ==> plan[h].keys@.len() == position + 1,
        window matches Some(w) ==> {
            &&& w <= position ==> plan[h].keys@.len() == w
            &&& w > position ==> plan[h].keys@.len() == position + 1
        },
        forall|p: int|
            0 <= p < plan[h].keys@.len() ==> #[trigger] plan[h].keys@[p] == (position + 1
                - plan[h].keys@.len() + p) * (layout.num_kv_heads * layout.head_dim) + h / (
            layout.num_heads as int / layout.num_kv_heads as int) * layout.head_dim,
{
    let from = window_start_of((position + 1) as nat, window) as int;
    assert(causal_as_planned(plan[h], layout, h, from, position + 1));
    assert forall|p: int| 0 <= p < plan[h].keys@.len() implies #[trigger] plan[h].keys@[p] == (
    position + 1 - plan[h].keys@.len() + p) * (layout.num_kv_heads * layout.head_dim) + h / (
    layout.num_heads as int / layout.num_kv_heads as int) * layout.head_dim by {
        assert(plan[h].keys@[p] == layout.offset(h, from + p));
    }
}

/// The reads of a head at a range of positions, in numbers: one vector for each
/// position, in order, at a place in the position's row that its group fixes.
pub proof fn law_causal_reads_in_order(
    r: CausalReads,
    layout: HeadLayout,
    h: int,
    from: int,
    to: int,
    p: int,
)
    requires
        causal_as_planned(r, layout, h, from, to),
        0 < layout.num_kv_heads <= layout.num_heads,
        0 <= p < to - from,
    ensures
        r.query == h * layout.head_dim,
        r.keys@.len() == to - from,
        r.keys@[p] == (from + p) * (layout.num_kv_heads * layout.head_dim) + h / (
        layout.num_heads as int / layout.num_kv_heads as int) * layout.head_dim,
{
    assert(r.keys@[p] == layout.offset(h, from + p));
}

/// The reads of a head at a stride, in numbers: positions lie `stride` apart,
/// and `group` query heads share a vector.
pub proof fn law_strided_reads_in_order(
    r: CausalReads,
    stride: int,
    head_dim: int,
    group: int,
    h: int,
    to: int,
    p: int,
)
    requires
        strided_as_planned(r, stride, head_dim, group, h, to),
        0 <= p < to,
    ensures
        r.query == h * head_dim,
        r.keys@.len() == to,
        r.keys@[p] == p * stride + h / group * head_dim,
{
    assert(r.keys@[p] == strided_offset(stride, head_dim, h / group, p));
}

/// A group has as many query heads as key and value heads divide them into, and
/// neighbours in a group read the same vectors.
pub proof fn law_groups_share_a_head(
    num_heads: nat,
    num_kv_heads: nat,
    group: nat,
    layout: HeadLayout,
    kv: int,
    j: int,
    position: int,
)
    requires
        group > 0,
        num_kv_heads > 0,
        num_heads == group * num_kv_heads,
        layout.num_heads == num_heads,
        layout.num_kv_heads == num_kv_heads,
        0 <= kv < num_kv_heads,
        0 <= j < group,
    ensures
        group_of(num_heads, num_kv_heads) == group,
        layout.kv_head(kv * group + j) == kv,
        layout.offset(kv * group + j, position) == (position * num_kv_heads + kv)
            * layout.head_dim,
{
    let g = group as int;
    let d = layout.head_dim as int;
    let k = num_kv_heads as int;
    lemma_fundamental_div_mod_converse(num_heads as int, k, g, 0);
    lemma_fundamental_div_mod_converse(kv * g + j, g, kv, j);
    assert(position * (k * d) + kv * d == (position * k + kv) * d) by (nonlinear_arith);
}

/// The query, the key and the value of a token, put in a row again, are what
/// the projection gave, and each has one part for each of its heads.
pub proof fn law_split_loses_nothing(layout: HeadLayout, fused: Seq<u32>, r: Qkv)
    requires
        fused.len() == layout.query_size() + 2 * layout.row(),
        r.query@ == fused.subrange(0, layout.query_size()),
        r.key@ == fused.subrange(layout.query_size(), layout.query_size() + layout.row()),
        r.value@ == fused.subrange(
            layout.query_size() + layout.row(),
            layout.query_size() + 2 * layout.row(),
        ),
    ensures
        r.query@.len() == layout.num_heads * layout.head_dim,
        r.key@.len() == layout.num_kv_heads * layout.head_dim,
        r.value@.len() == layout.num_kv_heads * layout.head_dim,
        r.query@ + r.key@ + r.value@ == fused,
{
    assert(layout.query_size() >= 0) by (nonlinear_arith)
        requires
            layout.query_size() == layout.num_heads * layout.head_dim,
    ;
    assert(layout.row() >= 0) by (nonlinear_arith)
        requires
            layout.row() == layout.num_kv_heads * layout.head_dim,
    ;
    assert(r.query@ + r.key@ + r.value@ =~= fused);
}

/// A configuration gives a layer its own numbers of heads and its head size.
pub proof fn law_layout_follows_configuration(c: ModelConfigView)
    ensures
        layout_of(c).num_heads == c.num_attention_heads,
        layout_of(c).num_kv_heads == c.num_kv_heads,
        layout_of(c).head_dim == c.head_dim,
{
}

} // verus!
