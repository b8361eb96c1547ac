//! Sparse mixtures of experts: shapes, and the choice of experts.

use crate::bits::{key_of, order_key};
use crate::common::sizes::{is_product, row_starts};
use crate::error::{follows, invalid_config, invalid_shape, ArchErrorView, ArchResult};
use vstd::prelude::*;

verus! {

/// One expert's feed-forward weights.
#[derive(Debug)]
pub struct Expert {
    /// Gate projection, `intermediate_size` rows of `hidden_size`.
    pub gate: Vec<u32>,
    /// Up projection, `intermediate_size` rows of `hidden_size`.
    pub up: Vec<u32>,
    /// Down projection, `hidden_size` rows of `intermediate_size`.
    pub down: Vec<u32>,
    /// Size of a hidden state.
    pub hidden_size: usize,
    /// Inner size.
    pub intermediate_size: usize,
}

impl Expert {
    /// What is wrong with the shape of the weights, if anything is.
    pub open spec fn failure(&self) -> Option<ArchErrorView> {
        let n = self.intermediate_size;
        let h = self.hidden_size;
        if self.gate@.len() != n * h {
            Some(
                ArchErrorView::InvalidShape {
                    name: "expert.gate"@,
                    expected: seq![n, h],
                    got: seq![self.gate@.len() as usize],
                },
            )
        } else if self.up@.len() != n * h {
            Some(
                ArchErrorView::InvalidShape {
                    name: "expert.up"@,
                    expected: seq![n, h],
                    got: seq![self.up@.len() as usize],
                },
            )
        } else if self.down@.len() != h * n {
            Some(
                ArchErrorView::InvalidShape {
                    name: "expert.down"@,
                    expected: seq![h, n],
                    got: seq![self.down@.len() as usize],
                },
            )
        } else {
            None
        }
    }

    /// Checks the shape of the weights.
    pub fn validate(&self) -> (r: ArchResult<()>)
        ensures
            follows(r, self.failure()),
    {
        let n: usize = self.intermediate_size;
        let h: usize = self.hidden_size;
        if !is_product(self.gate.len(), n, h) {
            return Err(invalid_shape("expert.gate", pair(n, h), self.gate.len()));
        }
        if !is_product(self.up.len(), n, h) {
            return Err(invalid_shape("expert.up", pair(n, h), self.up.len()));
        }
        if !is_product(self.down.len(), h, n) {
            return Err(invalid_shape("expert.down", pair(h, n), self.down.len()));
        }
        Ok(())
    }
}

/// What an expert reads: the places where rows of its projections begin.
#[derive(Debug)]
pub struct ExpertRows {
    /// Rows of the gating and the up projection, one for each inner element.
    pub inner: Vec<usize>,
    /// Rows of the down projection, one for each output.
    pub output: Vec<usize>,
}

/// Whether rows of a given width begin one after another.
pub open spec fn are_rows(starts: Seq<usize>, rows: int, width: int) -> bool {
    &&& starts.len() == rows
    &&& forall|i: int| 0 <= i < starts.len() ==> #[trigger] starts[i] == i * width
}

impl Expert {
    /// Checks the shape of the weights, and plans the expert: every inner element
    /// takes a row of the gating and the up projection, and every output a row of the
    /// down projection.
    pub fn forward(&self) -> (r: ArchResult<ExpertRows>)
        ensures
            follows(r, self.failure()),
            r matches Ok(x) ==> {
                &&& are_rows(x.inner@, self.intermediate_size as int, self.hidden_size as int)
                &&& are_rows(x.output@, self.hidden_size as int, self.intermediate_size as int)
            },
    {
        self.validate()?;
        let n: usize = self.intermediate_size;
        let h: usize = self.hidden_size;
        Ok(
            ExpertRows {
                inner: row_starts(n, h, self.gate.len()),
                output: row_starts(h, n, self.down.len()),
            },
        )
    }
}

/// A shape of two dimensions.
pub fn pair(a: usize, b: usize) -> (v: Vec<usize>)
    ensures
        v@ == seq![a, b],
{
    let v: Vec<usize> = vec![a, b];
    assert(v@ =~= seq![a, b]);
    v
}

/// A shape of three dimensions.
pub fn triple(a: usize, b: usize, c: usize) -> (v: Vec<usize>)
    ensures
        v@ == seq![a, b, c],
{
    let v: Vec<usize> = vec![a, b, c];
    assert(v@ =~= seq![a, b, c]);
    v
}

/// A layer of experts and the router that chooses among them.
#[derive(Debug)]
pub struct MoeFfn {
    /// The router, `num_experts` rows of `hidden_size`.
    pub router: Vec<u32>,
    /// The experts.
    pub experts: Vec<Expert>,
    /// Experts that one token passes.
    pub top_k: usize,
    /// Number of experts.
    pub num_experts: usize,
    /// Size of a hidden state.
    pub hidden_size: usize,
}

impl MoeFfn {
    /// What is wrong with the layer, if anything is.
    pub open spec fn failure(&self) -> Option<ArchErrorView> {
        if self.router@.len() != self.num_experts * self.hidden_size {
            Some(
                ArchErrorView::InvalidShape {
                    name: "moe.router"@,
                    expected: seq![self.num_experts, self.hidden_size],
                    got: seq![self.router@.len() as usize],
                },
            )
        } else if self.experts@.len() != self.num_experts {
            Some(
                ArchErrorView::InvalidShape {
                    name: "moe.experts"@,
                    expected: seq![self.num_experts],
                    got: seq![self.experts@.len() as usize],
                },
            )
        } else if self.top_k == 0 {
            Some(ArchErrorView::InvalidConfig { detail: "MoeFfn top_k must be >= 1"@ })
        } else {
            None
        }
    }

    /// Checks the layer.
    pub fn validate(&self) -> (r: ArchResult<()>)
        ensures
            follows(r, self.failure()),
    {
        if !is_product(self.router.len(), self.num_experts, self.hidden_size) {
            return Err(
                invalid_shape(
                    "moe.router",
                    pair(self.num_experts, self.hidden_size),
                    self.router.len(),
                ),
            );
        }
        if self.experts.len() != self.num_experts {
            let expected: Vec<usize> = vec![self.num_experts];
            assert(expected@ =~= seq![self.num_experts]);
            return Err(invalid_shape("moe.experts", expected, self.experts.len()));
        }
        if self.top_k == 0 {
            return Err(invalid_config("MoeFfn top_k must be >= 1"));
        }
        Ok(())
    }

    /// Where the rows of the router begin, one for each expert.
    pub fn router_rows(&self) -> (rows: Vec<usize>)
        requires
            self.failure() is None,
        ensures
            are_rows(rows@, self.num_experts as int, self.hidden_size as int),
    {
        row_starts(self.num_experts, self.hidden_size, self.router.len())
    }

    /// Chooses experts by their weights and checks the chosen ones: the
    /// experts that one token passes, in the order of their weights.
    pub fn route(&self, weights: &Vec<u32>) -> (r: ArchResult<Vec<usize>>)
        requires
            self.failure() is None,
            weights@.len() == self.num_experts,
        ensures
            match r {
                Ok(picked) => {
                    &&& is_top(weights@, self.top_k as nat, picked@)
                    &&& forall|j: int|
                        0 <= j < picked@.len() ==> self.experts@[(#[trigger] picked@[j])
                            as int].failure() is None
                },
                Err(e) => exists|picked: Seq<usize>, j: int|
                    {
                        &&& is_top(weights@, self.top_k as nat, picked)
                        &&& 0 <= j < picked.len()
                        &&& self.experts@[(#[trigger] picked[j]) as int].failure() == Some(e@)
                        &&& forall|i: int|
                            0 <= i < j ==> self.experts@[(#[trigger] picked[i]) as int].failure()
                                is None
                    },
            },
    {
        let picked = select_experts(weights, self.top_k);
        let mut j: usize = 0;
        while j < picked.len()
            invariant
                j <= picked@.len(),
                is_top(weights@, self.top_k as nat, picked@),
                weights@.len() == self.experts@.len(),
                forall|i: int|
                    0 <= i < j ==> self.experts@[(#[trigger] picked@[i]) as int].failure() is None,
            decreases picked@.len() - j,
        {
            match self.experts[picked[j]].validate() {
                Ok(_) => {},
                Err(e) => {
                    assert(self.experts@[picked@[j as int] as int].failure() == Some(e@));
                    return Err(e);
                },
            }
            j = j + 1;
        }
        Ok(picked)
    }
}

/// Whether `picked` are the `k` heaviest indices, or all of them if there are
/// fewer: each once, heaviest first, none lighter than an index left out.
pub open spec fn is_top(weights: Seq<u32>, k: nat, picked: Seq<usize>) -> bool {
    &&& picked.len() == if k <= weights.len() {
        k
    } else {
        weights.len()
    }
    &&& forall|i: int| 0 <= i < picked.len() ==> (#[trigger] picked[i]) < weights.len()
    &&& picked.no_duplicates()
    &&& forall|i: int, j: int|
        0 <= i < j < picked.len() ==> order_key(weights[(#[trigger] picked[i]) as int])
            >= order_key(weights[(#[trigger] picked[j]) as int])
    &&& forall|e: usize, i: int|
        0 <= e < weights.len() && !picked.contains(e) && 0 <= i < picked.len() ==> order_key(
            #[trigger] weights[e as int],
        ) <= order_key(weights[(#[trigger] picked[i]) as int])
}

/// Chooses the `top_k` heaviest indices.
pub fn select_experts(weights: &Vec<u32>, top_k: usize) -> (picked: Vec<usize>)
    ensures
        is_top(weights@, top_k as nat, picked@),
{
    let n: usize = weights.len();
    let k: usize = if top_k <= n {
        top_k
    } else {
        n
    };
    let mut used: Vec<bool> = vec![false; n];
    let mut picked: Vec<usize> = Vec::new();
    while picked.len() < k
        invariant
            n == weights@.len(),
            used@.len() == n,
            k <= n,
            picked@.len() <= k,
            picked@.no_duplicates(),
            forall|i: int| 0 <= i < picked@.len() ==> (#[trigger] picked@[i]) < n,
            forall|e: int|
                0 <= e < n ==> (#[trigger] used@[e] <==> picked@.contains(e as usize)),
            forall|i: int, j: int|
                0 <= i < j < picked@.len() ==> order_key(weights@[(#[trigger] picked@[i]) as int])
                    >= order_key(weights@[(#[trigger] picked@[j]) as int]),
            forall|e: int, i: int|
                0 <= e < n && !used@[e] && 0 <= i < picked@.len() ==> order_key(
                    #[trigger] weights@[e],
                ) <= order_key(weights@[(#[trigger] picked@[i]) as int]),
        decreases k - picked@.len(),
    {
        let best: usize = heaviest(weights, &used, &picked);
        let ghost before = picked@;
        picked.push(best);
        used.set(best, true);
        proof {
            assert(picked@ == before.push(best));
            assert forall|e: int| 0 <= e < n implies (#[trigger] used@[e] <==> picked@.contains(
                e as usize,
            )) by {
                if e == best {
                    assert(picked@[before.len() as int] == best);
                } else {
                    if before.contains(e as usize) {
                        let i = choose|i: int| 0 <= i < before.len() && before[i] == e as usize;
                        assert(picked@[i] == e as usize);
                    }
                    if picked@.contains(e as usize) {
                        let i = choose|i: int|
                            0 <= i < picked@.len() && picked@[i] == e as usize;
                        assert(before[i] == e as usize);
                    }
                }
            }
            assert(picked@.no_duplicates()) by {
                assert(!before.contains(best));
                assert forall|i: int, j: int|
                    0 <= i < picked@.len() && 0 <= j < picked@.len() && i != j implies picked@[i]
                    != picked@[j] by {
                    if i == before.len() {
                        assert(before.contains(before[j]));
                    } else if j == before.len() {
                        assert(before.contains(before[i]));
                    }
                }
            }
        }
    }
    proof {
        assert forall|e: usize, i: int|
            0 <= e < weights@.len() && !picked@.contains(e)
                && 0 <= i < picked@.len() implies order_key(
            #[trigger] weights@[e as int],
        ) <= order_key(weights@[(#[trigger] picked@[i]) as int]) by {
            assert(!used@[e as int]);
        }
    }
    picked
}

/// Finds the heaviest index that has not been used.
fn heaviest(weights: &Vec<u32>, used: &Vec<bool>, picked: &Vec<usize>) -> (best: usize)
    requires
        used@.len() == weights@.len(),
        picked@.len() < weights@.len(),
        picked@.no_duplicates(),
        forall|i: int| 0 <= i < picked@.len() ==> (#[trigger] picked@[i]) < weights@.len(),
        forall|e: int|
            0 <= e < weights@.len() ==> (#[trigger] used@[e] <==> picked@.contains(e as usize)),
    ensures
        best < weights@.len(),
        !used@[best as int],
        forall|e: int|
            0 <= e < weights@.len() && !used@[e] ==> order_key(#[trigger] weights@[e])
                <= order_key(weights@[best as int]),
{
    let mut best: Option<usize> = None;
    let mut i: usize = 0;
    while i < weights.len()
        invariant
            i <= weights@.len(),
            used@.len() == weights@.len(),
            best matches Some(b) ==> {
                &&& b < i
                &&& !used@[b as int]
                &&& forall|e: int|
                    0 <= e < i && !used@[e] ==> order_key(#[trigger] weights@[e]) <= order_key(
                        weights@[b as int],
                    )
            },
            best is None ==> forall|e: int| 0 <= e < i ==> #[trigger] used@[e],
        decreases weights@.len() - i,
    {
        if !used[i] {
            match best {
                Some(b) => {
                    if key_of(weights[i]) > key_of(weights[b]) {
                        best = Some(i);
                    }
                },
                None => {
                    best = Some(i);
                },
            }
        }
        i = i + 1;
    }
    match best {
        Some(b) => b,
        None => {
            proof {
                lemma_not_all_picked(weights@.len(), picked@);
                let e = choose|e: usize| e < weights@.len() && !#[trigger] picked@.contains(e);
                assert(used@[e as int]);
            }
            0
        },
    }
}

/// Fewer indices than there are leave one out.
proof fn lemma_not_all_picked(n: nat, picked: Seq<usize>)
    requires
        picked.len() < n,
        n <= usize::MAX,
        forall|i: int| 0 <= i < picked.len() ==> (#[trigger] picked[i]) < n,
    ensures
        exists|e: usize| e < n && !#[trigger] picked.contains(e),
{
    if forall|e: usize| e < n ==> #[trigger] picked.contains(e) {
        let all = Seq::new(n, |i: int| i as usize);
        assert(all.no_duplicates());
        vstd::seq_lib::seq_to_set_is_finite(picked);
        vstd::seq_lib::seq_to_set_is_finite(all);
        all.unique_seq_to_set();
        picked.lemma_cardinality_of_set();
        assert(all.to_set().subset_of(picked.to_set())) by {
            assert forall|x: usize| all.to_set().contains(x) implies picked.to_set().contains(
                x,
            ) by {
                let i = choose|i: int| 0 <= i < all.len() && all[i] == x;
                assert(picked.contains(i as usize));
            }
        }
        vstd::set_lib::lemma_len_subset(all.to_set(), picked.to_set());
    }
}

/// Asking for at least as many experts as there are chooses all of them.
pub proof fn law_large_k_takes_all(weights: Seq<u32>, k: nat, picked: Seq<usize>, e: usize)
    requires
        is_top(weights, k, picked),
        weights.len() <= k,
        weights.len() <= usize::MAX,
        e < weights.len(),
    ensures
        picked.len() == weights.len(),
        picked.contains(e),
{
    if !picked.contains(e) {
        let others = picked.push(e);
        assert(others.no_duplicates()) by {
            assert forall|i: int, j: int|
                0 <= i < others.len() && 0 <= j < others.len() && i != j implies others[i]
                != others[j] by {
                if i == picked.len() {
                    assert(picked.contains(picked[j]));
                } else if j == picked.len() {
                    assert(picked.contains(picked[i]));
                }
            }
        }
        let all = Seq::new(weights.len(), |i: int| i as usize);
        vstd::seq_lib::seq_to_set_is_finite(others);
        vstd::seq_lib::seq_to_set_is_finite(all);
        others.unique_seq_to_set();
        all.lemma_cardinality_of_set();
        assert(others.to_set().subset_of(all.to_set())) by {
            assert forall|x: usize| others.to_set().contains(x) implies all.to_set().contains(
                x,
            ) by {
                let i = choose|i: int| 0 <= i < others.len() && others[i] == x;
                assert(x < weights.len()) by {
                    if i < picked.len() {
                        assert(picked[i] == x);
                    }
                }
                assert(all[x as int] == x);
            }
        }
        vstd::set_lib::lemma_len_subset(others.to_set(), all.to_set());
    }
}

/// Experts are chosen by falling weight, and none that is left out is heavier than
/// one that is chosen: for weights that are not negative, whose patterns grow with
/// them, this shows in the patterns themselves.
pub proof fn law_chosen_experts_are_the_heaviest(
    weights: Seq<u32>,
    k: nat,
    picked: Seq<usize>,
    i: int,
    j: int,
    e: usize,
)
    requires
        is_top(weights, k, picked),
        forall|x: int| 0 <= x < weights.len() ==> (#[trigger] weights[x]) < 0x8000_0000,
        0 <= i < j < picked.len(),
        e < weights.len(),
        !picked.contains(e),
    ensures
        k <= weights.len() ==> picked.len() == k,
        picked[i] < weights.len(),
        picked[i] != picked[j],
        weights[picked[i] as int] >= weights[picked[j] as int],
        weights[picked[j] as int] >= weights[e as int],
{
    assert(weights[picked[i] as int] < 0x8000_0000);
    assert(weights[picked[j] as int] < 0x8000_0000);
    assert(weights[e as int] < 0x8000_0000);
}

/// A single chosen expert is one of the heaviest of all.
pub proof fn law_first_choice_is_the_heaviest(
    weights: Seq<u32>,
    k: nat,
    picked: Seq<usize>,
    e: usize,
)
    requires
        is_top(weights, k, picked),
        forall|x: int| 0 <= x < weights.len() ==> (#[trigger] weights[x]) < 0x8000_0000,
        k >= 1,
        e < weights.len(),
    ensures
        picked.len() >= 1,
        weights[picked[0] as int] >= weights[e as int],
{
    assert(weights[picked[0] as int] < 0x8000_0000);
    assert(weights[e as int] < 0x8000_0000);
    if picked.contains(e) {
        let i = choose|i: int| 0 <= i < picked.len() && picked[i] == e;
        if i > 0 {
            assert(order_key(weights[picked[0] as int]) >= order_key(weights[picked[i] as int]));
        }
    }
}

/// An expert is as it should be exactly where its gating and its up projection
/// have a row of the hidden size for each inner element, and its down projection
/// a row of the inner size for each output. The first projection that has not is
/// reported, with the shape that it should have.
pub proof fn law_expert_shapes_are_checked(x: Expert)
    ensures
        ({
            let n = x.intermediate_size;
            let h = x.hidden_size;
            &&& x.failure() is None <==> x.gate@.len() == n * h && x.up@.len() == n * h
                && x.down@.len() == h * n
            &&& x.gate@.len() != n * h ==> x.failure() == Some(
                ArchErrorView::InvalidShape {
                    name: "expert.gate"@,
                    expected: seq![n, h],
                    got: seq![x.gate@.len() as usize],
                },
            )
            &&& x.gate@.len() == n * h && x.up@.len() != n * h ==> x.failure() == Some(
                ArchErrorView::InvalidShape {
                    name: "expert.up"@,
                    expected: seq![n, h],
                    got: seq![x.up@.len() as usize],
                },
            )
            &&& x.gate@.len() == n * h && x.up@.len() == n * h && x.down@.len() != h * n
                ==> x.failure() == Some(
                ArchErrorView::InvalidShape {
                    name: "expert.down"@,
                    expected: seq![h, n],
                    got: seq![x.down@.len() as usize],
                },
            )
        }),
{
}

/// A layer of experts is as it should be exactly where the router has a row for
/// each expert, all experts are there, and a token passes at least one.
pub proof fn law_expert_layers_are_checked(f: MoeFfn)
    ensures
        f.failure() is None <==> f.router@.len() == f.num_experts * f.hidden_size
            && f.experts@.len() == f.num_experts && f.top_k >= 1,
        f.router@.len() != f.num_experts * f.hidden_size ==> f.failure() == Some(
            ArchErrorView::InvalidShape {
                name: "moe.router"@,
                expected: seq![f.num_experts, f.hidden_size],
                got: seq![f.router@.len() as usize],
            },
        ),
        f.router@.len() == f.num_experts * f.hidden_size && f.experts@.len() != f.num_experts
            ==> f.failure() == Some(
            ArchErrorView::InvalidShape {
                name: "moe.experts"@,
                expected: seq![f.num_experts],
                got: seq![f.experts@.len() as usize],
            },
        ),
        f.router@.len() == f.num_experts * f.hidden_size && f.experts@.len() == f.num_experts
            && f.top_k == 0 ==> f.failure() == Some(
            ArchErrorView::InvalidConfig { detail: "MoeFfn top_k must be >= 1"@ },
        ),
{
}

/// Rows of a matrix begin one width after another, from zero on.
pub proof fn law_rows_begin_one_after_another(starts: Seq<usize>, rows: int, width: int, i: int)
    requires
        are_rows(starts, rows, width),
        0 <= i,
        i + 1 < rows,
    ensures
        starts.len() == rows,
        starts[0] == 0,
        starts[i + 1] == starts[i] + width,
{
    assert(starts[0] == 0 * width);
    assert(0 * width == 0) by (nonlinear_arith);
    assert(starts[i] == i * width);
    assert(starts[i + 1] == (i + 1) * width);
    assert((i + 1) * width == i * width + width) by (nonlinear_arith);
}

} // verus!
