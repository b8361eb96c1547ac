//! Experts whose weights are stacked in one tensor for each projection.

use crate::common::load::{load_dequant_tensor, values_failure, values_of};
use crate::common::moe::{pair, triple, Expert};
use crate::common::sizes::{copied, is_product, is_product_of_three};
use crate::error::{
    first_of, follows, tensor_shape_mismatch, ArchErrorView, ArchResult,
};
use crate::gguf::{GgufModel, TensorMap};
use crate::text::{block_name, block_tensor, decimal};
use vstd::arithmetic::div_mod::lemma_fundamental_div_mod;
use vstd::prelude::*;

verus! {

/// A router and its experts.
#[derive(Debug)]
pub struct ExpertStack {
    /// The router, one row for each expert.
    pub router: Vec<u32>,
    /// The experts.
    pub experts: Vec<Expert>,
}

/// The name of a block's router.
pub open spec fn router_name(i: nat) -> Seq<char> {
    block_tensor(i, ".ffn_gate_inp.weight"@)
}

/// The name of a block's stacked gate projections.
pub open spec fn gate_stack_name(i: nat) -> Seq<char> {
    block_tensor(i, ".ffn_gate_exps.weight"@)
}

/// The name of a block's stacked up projections.
pub open spec fn up_stack_name(i: nat) -> Seq<char> {
    block_tensor(i, ".ffn_up_exps.weight"@)
}

/// The name of a block's stacked down projections.
pub open spec fn down_stack_name(i: nat) -> Seq<char> {
    block_tensor(i, ".ffn_down_exps.weight"@)
}

/// The failure of a tensor that has another number of elements than its shape
/// demands.
pub open spec fn length_failure(
    m: TensorMap,
    name: Seq<char>,
    length: int,
    expected: Seq<usize>,
) -> Option<ArchErrorView> {
    if values_of(m, name).len() == length {
        None
    } else {
        Some(
            ArchErrorView::TensorShapeMismatch {
                tensor: name,
                expected,
                got: seq![values_of(m, name).len() as usize],
            },
        )
    }
}

/// Why the experts of block `i` cannot be loaded, if they cannot: the first
/// tensor that is not there, or that has the wrong length. The router is
/// checked before the projections are loaded.
pub open spec fn stack_failure(
    m: TensorMap,
    i: nat,
    n: usize,
    inner: usize,
    hidden: usize,
) -> Option<ArchErrorView> {
    first_of(
        values_failure(m, router_name(i)),
        first_of(
            length_failure(m, router_name(i), n * hidden, seq![n, hidden]),
            first_of(
                values_failure(m, gate_stack_name(i)),
                first_of(
                    values_failure(m, up_stack_name(i)),
                    first_of(
                        values_failure(m, down_stack_name(i)),
                        first_of(
                            length_failure(
                                m,
                                gate_stack_name(i),
                                n * (inner * hidden),
                                seq![n, inner, hidden],
                            ),
                            first_of(
                                length_failure(
                                    m,
                                    up_stack_name(i),
                                    n * (inner * hidden),
                                    seq![n, inner, hidden],
                                ),
                                length_failure(
                                    m,
                                    down_stack_name(i),
                                    n * (hidden * inner),
                                    seq![n, hidden, inner],
                                ),
                            ),
                        ),
                    ),
                ),
            ),
        ),
    )
}

/// The part of a stack that belongs to expert `e`.
pub open spec fn expert_part(stack: Seq<u32>, e: int, stride: int) -> Seq<u32> {
    stack.subrange(e * stride, e * stride + stride)
}

/// Whether expert `e` holds its parts of three stacks.
pub open spec fn is_expert_of(
    x: Expert,
    e: int,
    gate: Seq<u32>,
    up: Seq<u32>,
    down: Seq<u32>,
    inner: usize,
    hidden: usize,
) -> bool {
    &&& x.gate@ == expert_part(gate, e, inner * hidden)
    &&& x.up@ == expert_part(up, e, inner * hidden)
    &&& x.down@ == expert_part(down, e, hidden * inner)
    &&& x.hidden_size == hidden
    &&& x.intermediate_size == inner
}

/// Whether a router and its experts are those of block `i`.
pub open spec fn is_stack_of(
    s: ExpertStack,
    m: TensorMap,
    i: nat,
    n: usize,
    inner: usize,
    hidden: usize,
) -> bool {
    &&& s.router@ == values_of(m, router_name(i))
    &&& s.experts@.len() == n
    &&& forall|e: int|
        0 <= e < n ==> is_expert_of(
            #[trigger] s.experts@[e],
            e,
            values_of(m, gate_stack_name(i)),
            values_of(m, up_stack_name(i)),
            values_of(m, down_stack_name(i)),
            inner,
            hidden,
        )
}

/// Cuts three stacks into experts.
fn split_stacks(
    gate: &Vec<u32>,
    up: &Vec<u32>,
    down: &Vec<u32>,
    n: usize,
    inner: usize,
    hidden: usize,
) -> (experts: Vec<Expert>)
    requires
        gate@.len() == n * (inner * hidden),
        up@.len() == n * (inner * hidden),
        down@.len() == n * (hidden * inner),
    ensures
        experts@.len() == n,
        forall|e: int|
            0 <= e < n ==> is_expert_of(
                #[trigger] experts@[e],
                e,
                gate@,
                up@,
                down@,
                inner,
                hidden,
            ),
{
    let mut experts: Vec<Expert> = Vec::new();
    if n == 0 {
        return experts;
    }
    let total: usize = gate.len();
    proof {
        assert(inner * hidden == hidden * inner) by (nonlinear_arith);
        assert(inner * hidden <= total) by (nonlinear_arith)
            requires
                total == n * (inner * hidden),
                n >= 1,
                inner * hidden >= 0,
        ;
        assert(inner * hidden >= 0) by (nonlinear_arith);
    }
    let stride: usize = inner * hidden;
    let mut e: usize = 0;
    while e < n
        invariant
            e <= n,
            stride == inner * hidden,
            stride == hidden * inner,
            total == n * stride,
            gate@.len() == total,
            up@.len() == total,
            down@.len() == total,
            experts@.len() == e,
            forall|j: int|
                0 <= j < e ==> is_expert_of(
                    #[trigger] experts@[j],
                    j,
                    gate@,
                    up@,
                    down@,
                    inner,
                    hidden,
                ),
        decreases n - e,
    {
        proof {
            assert(e * stride + stride <= n * stride) by (nonlinear_arith)
                requires
                    e + 1 <= n,
            ;
            assert(e * stride >= 0) by (nonlinear_arith);
        }
        let start: usize = e * stride;
        let x = Expert {
            gate: copied(gate, start, start + stride),
            up: copied(up, start, start + stride),
            down: copied(down, start, start + stride),
            hidden_size: hidden,
            intermediate_size: inner,
        };
        experts.push(x);
        e = e + 1;
    }
    experts
}

/// Loads the router and the experts of block `i`.
pub fn load_expert_stack(
    model: &GgufModel,
    i: usize,
    n: usize,
    inner: usize,
    hidden: usize,
) -> (r: ArchResult<ExpertStack>)
    ensures
        follows(r, stack_failure(model.tensors@, i as nat, n, inner, hidden)),
        r matches Ok(s) ==> is_stack_of(s, model.tensors@, i as nat, n, inner, hidden),
{
    let router_name = block_name(i, ".ffn_gate_inp.weight");
    let router = load_dequant_tensor(model, router_name.as_str())?;
    if !is_product(router.len(), n, hidden) {
        return Err(tensor_shape_mismatch(router_name.as_str(), pair(n, hidden), router.len()));
    }
    let gate_name = block_name(i, ".ffn_gate_exps.weight");
    let up_name = block_name(i, ".ffn_up_exps.weight");
    let down_name = block_name(i, ".ffn_down_exps.weight");
    let gate = load_dequant_tensor(model, gate_name.as_str())?;
    let up = load_dequant_tensor(model, up_name.as_str())?;
    let down = load_dequant_tensor(model, down_name.as_str())?;
    if !is_product_of_three(gate.len(), n, inner, hidden) {
        return Err(
            tensor_shape_mismatch(gate_name.as_str(), triple(n, inner, hidden), gate.len()),
        );
    }
    if !is_product_of_three(up.len(), n, inner, hidden) {
        return Err(tensor_shape_mismatch(up_name.as_str(), triple(n, inner, hidden), up.len()));
    }
    if !is_product_of_three(down.len(), n, hidden, inner) {
        return Err(
            tensor_shape_mismatch(down_name.as_str(), triple(n, hidden, inner), down.len()),
        );
    }
    let experts = split_stacks(&gate, &up, &down, n, inner, hidden);
    Ok(ExpertStack { router, experts })
}

/// The place in a stack of element `k` of expert `e`.
pub open spec fn stack_place(e: int, k: int, stride: int) -> int {
    e * stride + k
}

/// Every element of a stack belongs to one expert, at one place: nothing is
/// lost and nothing is shared when a stack is cut into experts.
pub proof fn law_experts_partition_stack(stack: Seq<u32>, n: nat, stride: nat, x: int)
    requires
        stride > 0,
        stack.len() == n * stride,
        0 <= x < stack.len(),
    ensures
        0 <= x / stride as int,
        x / (stride as int) < n,
        stack[x] == expert_part(stack, x / stride as int, stride as int)[x % stride as int],
        forall|e: int, k: int|
            0 <= e < n && 0 <= k < stride && #[trigger] stack_place(e, k, stride as int) == x ==> e
                == x / stride as int && k == x % stride as int,
{
    let q = x / stride as int;
    let r = x % stride as int;
    lemma_fundamental_div_mod(x, stride as int);
    assert(x == stride * q + r);
    assert(q >= 0) by (nonlinear_arith)
        requires
            x == stride * q + r,
            0 <= r < stride,
            x >= 0,
    ;
    assert(q < n) by (nonlinear_arith)
        requires
            x == stride * q + r,
            0 <= r,
            x < n * stride,
            stride > 0,
    ;
    assert(q * stride == stride * q) by (nonlinear_arith);
    assert(q * stride + stride <= n * stride) by (nonlinear_arith)
        requires
            q + 1 <= n,
    ;
    assert(q * stride >= 0) by (nonlinear_arith)
        requires
            q >= 0,
    ;
    assert forall|e: int, k: int|
        0 <= e < n && 0 <= k < stride && #[trigger] stack_place(e, k, stride as int) == x implies e
        == q && k == r by {
        vstd::arithmetic::div_mod::lemma_fundamental_div_mod_converse(x, stride as int, e, k);
    }
}

/// The experts of a block are cut out of the tensors of the block's stacks: of
/// expert `e`, element `k` of a projection stands at `e * inner * hidden + k` in
/// the stack of that projection. The router is the tensor of the block's router.
pub proof fn law_experts_are_cut_from_their_stacks(
    s: ExpertStack,
    m: TensorMap,
    i: nat,
    n: usize,
    inner: usize,
    hidden: usize,
    e: int,
    k: int,
)
    requires
        is_stack_of(s, m, i, n, inner, hidden),
        stack_failure(m, i, n, inner, hidden) is None,
        0 <= e < n,
        0 <= k < inner * hidden,
    ensures
        s.experts@.len() == n,
        s.router@ == m["blk."@ + decimal(i) + ".ffn_gate_inp.weight"@].decode()->Ok_0,
        s.router@.len() == n * hidden,
        s.experts@[e].gate@.len() == inner * hidden,
        s.experts@[e].up@.len() == inner * hidden,
        s.experts@[e].down@.len() == inner * hidden,
        s.experts@[e].gate@[k] == m["blk."@ + decimal(i)
            + ".ffn_gate_exps.weight"@].decode()->Ok_0[e * (inner * hidden) + k],
        s.experts@[e].up@[k] == m["blk."@ + decimal(i) + ".ffn_up_exps.weight"@].decode()->Ok_0[e
            * (inner * hidden) + k],
        s.experts@[e].down@[k] == m["blk."@ + decimal(i)
            + ".ffn_down_exps.weight"@].decode()->Ok_0[e * (inner * hidden) + k],
        s.experts@[e].hidden_size == hidden,
        s.experts@[e].intermediate_size == inner,
{
    let stride = inner * hidden;
    assert(hidden * inner == stride) by (nonlinear_arith)
        requires
            stride == inner * hidden,
    ;
    assert(is_expert_of(
        s.experts@[e],
        e,
        values_of(m, gate_stack_name(i)),
        values_of(m, up_stack_name(i)),
        values_of(m, down_stack_name(i)),
        inner,
        hidden,
    ));
    assert(e * stride >= 0 && e * stride + stride <= n * stride) by (nonlinear_arith)
        requires
            0 <= e,
            e + 1 <= n,
            stride >= 0,
    ;
}

/// Experts can be loaded exactly where the router and the three stacks can be
/// decoded and have as many elements as their shapes demand.
pub proof fn law_stacks_need_whole_tensors(
    m: TensorMap,
    i: nat,
    n: usize,
    inner: usize,
    hidden: usize,
)
    ensures
        stack_failure(m, i, n, inner, hidden) is None <==> {
            let router = "blk."@ + decimal(i) + ".ffn_gate_inp.weight"@;
            let gate = "blk."@ + decimal(i) + ".ffn_gate_exps.weight"@;
            let up = "blk."@ + decimal(i) + ".ffn_up_exps.weight"@;
            let down = "blk."@ + decimal(i) + ".ffn_down_exps.weight"@;
            &&& values_failure(m, router) is None
            &&& values_failure(m, gate) is None
            &&& values_failure(m, up) is None
            &&& values_failure(m, down) is None
            &&& m[router].decode()->Ok_0.len() == n * hidden
            &&& m[gate].decode()->Ok_0.len() == n * (inner * hidden)
            &&& m[up].decode()->Ok_0.len() == n * (inner * hidden)
            &&& m[down].decode()->Ok_0.len() == n * (hidden * inner)
        },
        ({
            let router = "blk."@ + decimal(i) + ".ffn_gate_inp.weight"@;
            values_failure(m, router) is None && m[router].decode()->Ok_0.len() != n * hidden
                ==> stack_failure(m, i, n, inner, hidden) == Some(
                ArchErrorView::TensorShapeMismatch {
                    tensor: router,
                    expected: seq![n, hidden],
                    got: seq![m[router].decode()->Ok_0.len() as usize],
                },
            )
        }),
{
}

} // verus!
