//! The vision encoder: checks, patches, and what each part of a layer reads.

use crate::bits::F32_ZERO;
use crate::common::linear::{linear_proj, row_read, RowRead};
use crate::common::sizes::{copied, filled, row_at, row_start};
use crate::error::{follows, invalid_config, invalid_shape, ArchErrorView, ArchResult};
use vstd::arithmetic::div_mod::{
    lemma_fundamental_div_mod, lemma_fundamental_div_mod_converse,
};
use vstd::prelude::*;

verus! {

/// The weights of one layer of the encoder. Weights that a file does not have
/// are empty.
#[derive(Debug)]
pub struct ClipEncoderLayer {
    /// Scale of the first norm.
    pub ln1_weight: Vec<u32>,
    /// Shift of the first norm.
    pub ln1_bias: Vec<u32>,
    /// Scale of the second norm.
    pub ln2_weight: Vec<u32>,
    /// Shift of the second norm.
    pub ln2_bias: Vec<u32>,
    /// Query projection.
    pub q_weight: Vec<u32>,
    /// Key projection.
    pub k_weight: Vec<u32>,
    /// Value projection.
    pub v_weight: Vec<u32>,
    /// Output projection.
    pub out_weight: Vec<u32>,
    /// Query bias.
    pub q_bias: Vec<u32>,
    /// Key bias.
    pub k_bias: Vec<u32>,
    /// Value bias.
    pub v_bias: Vec<u32>,
    /// Output bias.
    pub out_bias: Vec<u32>,
    /// Up projection.
    pub fc1_weight: Vec<u32>,
    /// Up bias.
    pub fc1_bias: Vec<u32>,
    /// Down projection.
    pub fc2_weight: Vec<u32>,
    /// Down bias.
    pub fc2_bias: Vec<u32>,
}

/// What the self-attention of a layer reads. Every state is projected to a
/// query, a key and a value; in each head every query meets every key; the heads
/// of a state, put in a row, are projected to its output.
#[derive(Debug)]
pub struct MhsaPlan {
    /// Rows of the query projection.
    pub query: Vec<RowRead>,
    /// Rows of the key projection.
    pub key: Vec<RowRead>,
    /// Rows of the value projection.
    pub value: Vec<RowRead>,
    /// Rows of the output projection.
    pub output: Vec<RowRead>,
    /// Where each head's part of a projected state begins.
    pub head_starts: Vec<usize>,
    /// Size of a head's part.
    pub head_dim: usize,
}

/// What the feed-forward network of a layer reads.
#[derive(Debug)]
pub struct FfnPlan {
    /// Rows of the up projection.
    pub up: Vec<RowRead>,
    /// Rows of the down projection.
    pub down: Vec<RowRead>,
}

/// A part of the work on the states of an image. A norm without weights leaves
/// states as they are.
#[derive(Debug, Clone, Copy, PartialEq, Eq)]
pub enum ClipPart {
    /// Norm all states, before the layers.
    PreNorm {
        /// Whether the norm has weights.
        present: bool,
    },
    /// Attend with all states at once, and add the outcome to them.
    Attend {
        /// The layer.
        layer: usize,
        /// Whether attention reads the states normed, by the layer's first norm.
        normed: bool,
    },
    /// Feed all states forward, and add the outcome to them.
    Feed {
        /// The layer.
        layer: usize,
        /// Whether the network reads the states normed, by the layer's second norm.
        normed: bool,
    },
    /// Norm all states, after the layers.
    PostNorm {
        /// Whether the norm has weights.
        present: bool,
    },
    /// Nothing is left to do.
    Done,
}

/// The rows of a dense projection with `n` outputs and `m` inputs.
pub open spec fn dense_rows(weight: Seq<u32>, bias: Seq<u32>, n: nat, m: nat) -> Seq<RowRead> {
    Seq::new(n, |i: int| row_read(weight.len() as int, bias, m as int, i))
}

/// The rows of a dense projection with as many outputs as inputs.
pub open spec fn square_rows(weight: Seq<u32>, bias: Seq<u32>, n: nat) -> Seq<RowRead> {
    dense_rows(weight, bias, n, n)
}

/// The inner size of a feed-forward network whose up projection has `len`
/// weights.
pub open spec fn inner_size(len: nat, hidden: nat) -> nat {
    if hidden == 0 {
        0
    } else {
        len / hidden
    }
}

impl ClipEncoderLayer {
    /// The inner size of the feed-forward network; a network of size 0 gives
    /// zeros.
    pub fn ffn_dim(&self, hidden_size: usize) -> (n: usize)
        ensures
            n == inner_size(self.fc1_weight@.len(), hidden_size as nat),
    {
        if hidden_size > 0 && !self.fc1_weight.is_empty() {
            self.fc1_weight.len() / hidden_size
        } else {
            0
        }
    }
}

/// The vision encoder.
#[derive(Debug)]
pub struct ClipEncoder {
    /// Projection of a patch.
    pub patch_embd_weight: Vec<u32>,
    /// Bias of that projection.
    pub patch_embd_bias: Vec<u32>,
    /// Position embeddings, one row for each position.
    pub position_embd: Vec<u32>,
    /// Scale of the norm before the layers.
    pub pre_ln_weight: Vec<u32>,
    /// Shift of the norm before the layers.
    pub pre_ln_bias: Vec<u32>,
    /// Scale of the norm after the layers.
    pub post_ln_weight: Vec<u32>,
    /// Shift of the norm after the layers.
    pub post_ln_bias: Vec<u32>,
    /// The layers.
    pub layers: Vec<ClipEncoderLayer>,
    /// Size of a hidden state.
    pub hidden_size: usize,
    /// Number of heads.
    pub num_heads: usize,
    /// Side of a patch, in pixels.
    pub patch_size: usize,
    /// Side of an image, in pixels.
    pub image_size: usize,
}

/// Number of patches along a side of an image.
pub open spec fn patches_per_side(image_size: nat, patch_size: nat) -> nat {
    if patch_size == 0 {
        0
    } else {
        image_size / patch_size
    }
}

/// Number of elements in a patch.
pub open spec fn patch_length(patch_size: nat) -> nat {
    patch_size * patch_size * 3
}

/// The place in an image of a pixel's channel `c`: an image holds all rows of
/// one channel before the next.
pub open spec fn pixel_place(image_size: int, c: int, y: int, x: int) -> int {
    c * (image_size * image_size) + y * image_size + x
}

/// The place in an image of element `d` of patch `k`. Patches come row by row,
/// and so do the pixels of a patch, with all channels of a pixel together.
pub open spec fn patch_source(image_size: int, patch_size: int, k: int, d: int) -> int {
    let side = image_size / patch_size;
    pixel_place(
        image_size,
        d % 3,
        (k / side) * patch_size + (d / 3) / patch_size,
        (k % side) * patch_size + (d / 3) % patch_size,
    )
}

/// The content of patch `k` of an image.
pub open spec fn patch_of(pixels: Seq<u32>, image_size: nat, patch_size: nat, k: int) -> Seq<u32> {
    Seq::new(
        patch_length(patch_size),
        |d: int| pixels[patch_source(image_size as int, patch_size as int, k, d)],
    )
}

/// An image that is ready for the encoder: its patches, and where the embedding
/// of each position begins. Position 0 belongs to the class token, whose state
/// is zero, and position `k + 1` to patch `k`.
#[derive(Debug)]
pub struct ClipInput {
    /// The patches.
    pub patches: Vec<Vec<u32>>,
    /// Where the embedding of each position begins, where there is one.
    pub positions: Vec<Option<usize>>,
}

impl ClipEncoder {
    /// Number of patches of an image.
    pub open spec fn patch_count(&self) -> nat {
        patches_per_side(self.image_size as nat, self.patch_size as nat) * patches_per_side(
            self.image_size as nat,
            self.patch_size as nat,
        )
    }

    /// Number of patches of an image; the class token is not among them.
    pub fn num_patches(&self) -> (n: usize)
        requires
            self.patch_count() <= usize::MAX,
        ensures
            n == self.patch_count(),
    {
        if self.patch_size == 0 {
            assert(0 * 0 == 0) by (nonlinear_arith);
            return 0;
        }
        let side: usize = self.image_size / self.patch_size;
        side * side
    }

    /// Why an image of `pixels` elements is refused, if it is.
    pub open spec fn encode_failure(&self, pixels: nat) -> Option<ArchErrorView> {
        if self.hidden_size == 0 || self.patch_size == 0 || self.image_size == 0 {
            Some(
                ArchErrorView::InvalidConfig {
                    detail:
                        "ClipEncoder: hidden_size, patch_size, and image_size must all be > 0"@,
                },
            )
        } else if pixels != 3 * self.image_size * self.image_size {
            Some(
                ArchErrorView::InvalidShape {
                    name: "clip pixels"@,
                    expected: seq![(3 * self.image_size * self.image_size) as usize],
                    got: seq![pixels as usize],
                },
            )
        } else if self.layers@.len() > 0 && self.num_heads == 0 {
            Some(
                ArchErrorView::InvalidConfig {
                    detail: "ClipEncoder layer 0: num_heads must be > 0"@,
                },
            )
        } else if self.layers@.len() > 0 && self.hidden_size / self.num_heads == 0 {
            Some(
                ArchErrorView::InvalidConfig {
                    detail: "ClipEncoder layer 0: head_dim = hidden_size / num_heads = 0"@,
                },
            )
        } else {
            None
        }
    }

    /// Checks an image and cuts it into patches.
    pub fn encode(&self, pixels: &Vec<u32>) -> (r: ArchResult<ClipInput>)
        requires
            3 * self.image_size * self.image_size <= usize::MAX,
        ensures
            follows(r, self.encode_failure(pixels@.len())),
            r matches Ok(x) ==> {
                &&& x.patches@.len() == self.patch_count()
                &&& forall|k: int|
                    0 <= k < x.patches@.len() ==> (#[trigger] x.patches@[k])@ == patch_of(
                        pixels@,
                        self.image_size as nat,
                        self.patch_size as nat,
                        k,
                    )
                &&& x.positions@ == Seq::new(
                    self.patch_count() + 1,
                    |p: int| self.position_start(p),
                )
            },
    {
        if self.hidden_size == 0 || self.patch_size == 0 || self.image_size == 0 {
            return Err(
                invalid_config(
                    "ClipEncoder: hidden_size, patch_size, and image_size must all be > 0",
                ),
            );
        }
        proof {
            let n = self.image_size;
            assert(3 * n >= 0 && 3 * n <= 3 * n * n) by (nonlinear_arith)
                requires
                    n >= 1,
            ;
        }
        let expected: usize = 3 * self.image_size * self.image_size;
        if pixels.len() != expected {
            let shape: Vec<usize> = vec![expected];
            assert(shape@ =~= seq![expected]);
            return Err(invalid_shape("clip pixels", shape, pixels.len()));
        }
        if self.layers.len() > 0 {
            if self.num_heads == 0 {
                return Err(invalid_config("ClipEncoder layer 0: num_heads must be > 0"));
            }
            if self.hidden_size / self.num_heads == 0 {
                return Err(
                    invalid_config("ClipEncoder layer 0: head_dim = hidden_size / num_heads = 0"),
                );
            }
        }
        proof {
            lemma_counts_fit(self.image_size as int, self.patch_size as int);
        }
        let n: usize = self.num_patches();
        let patches = cut_patches(pixels, self.image_size, self.patch_size, n);
        let positions = self.position_starts(n + 1);
        Ok(ClipInput { patches, positions })
    }

    /// Where the embedding of a position begins, where there is one.
    pub open spec fn position_start(&self, p: int) -> Option<usize> {
        if self.position_embd@.len() == 0 {
            None
        } else {
            row_at(p, self.hidden_size as int, self.position_embd@.len() as int)
        }
    }

    fn position_starts(&self, n: usize) -> (v: Vec<Option<usize>>)
        ensures
            v@ == Seq::new(n as nat, |p: int| self.position_start(p)),
    {
        let mut v: Vec<Option<usize>> = Vec::new();
        let mut p: usize = 0;
        while p < n
            invariant
                p <= n,
                v@ == Seq::new(p as nat, |q: int| self.position_start(q)),
            decreases n - p,
        {
            let s: Option<usize> = if self.position_embd.is_empty() {
                None
            } else {
                row_start(p, self.hidden_size, self.position_embd.len())
            };
            v.push(s);
            assert(v@ =~= Seq::new((p + 1) as nat, |q: int| self.position_start(q)));
            p = p + 1;
        }
        v
    }

    /// Where each head's part of a state begins. A head's part has
    /// `hidden_size / num_heads` elements.
    fn head_starts(&self) -> (starts: Vec<usize>)
        requires
            self.num_heads > 0,
        ensures
            starts@.len() == self.num_heads,
            forall|h: int|
                0 <= h < starts@.len() ==> {
                    &&& #[trigger] starts@[h] == h * (self.hidden_size / self.num_heads)
                    &&& starts@[h] + self.hidden_size / self.num_heads <= self.hidden_size
                },
    {
        let d: usize = self.hidden_size / self.num_heads;
        proof {
            lemma_fundamental_div_mod(self.hidden_size as int, self.num_heads as int);
        }
        let mut starts: Vec<usize> = Vec::new();
        let mut h: usize = 0;
        while h < self.num_heads
            invariant
                h <= self.num_heads,
                d == self.hidden_size / self.num_heads,
                self.num_heads * d <= self.hidden_size,
                starts@.len() == h,
                forall|j: int|
                    0 <= j < h ==> {
                        &&& #[trigger] starts@[j] == j * d
                        &&& starts@[j] + d <= self.hidden_size
                    },
            decreases self.num_heads - h,
        {
            assert(h * d + d <= self.num_heads * d) by (nonlinear_arith)
                requires
                    h + 1 <= self.num_heads,
            ;
            assert(h * d >= 0) by (nonlinear_arith);
            starts.push(h * d);
            h = h + 1;
        }
        starts
    }

    /// Plans the self-attention of a layer.
    pub fn mhsa(&self, layer: &ClipEncoderLayer) -> (plan: MhsaPlan)
        requires
            self.num_heads > 0,
        ensures
            plan.query@ == square_rows(layer.q_weight@, layer.q_bias@, self.hidden_size as nat),
            plan.key@ == square_rows(layer.k_weight@, layer.k_bias@, self.hidden_size as nat),
            plan.value@ == square_rows(layer.v_weight@, layer.v_bias@, self.hidden_size as nat),
            plan.output@ == square_rows(
                layer.out_weight@,
                layer.out_bias@,
                self.hidden_size as nat,
            ),
            plan.head_dim == self.hidden_size / self.num_heads,
            plan.head_starts@ == Seq::new(
                self.num_heads as nat,
                |h: int| (h * plan.head_dim) as usize,
            ),
            forall|h: int|
                0 <= h < plan.head_starts@.len() ==> (#[trigger] plan.head_starts@[h])
                    + plan.head_dim <= self.hidden_size,
    {
        let h: usize = self.hidden_size;
        let head_starts = self.head_starts();
        let plan = MhsaPlan {
            query: linear_proj(layer.q_weight.len(), &layer.q_bias, h, h),
            key: linear_proj(layer.k_weight.len(), &layer.k_bias, h, h),
            value: linear_proj(layer.v_weight.len(), &layer.v_bias, h, h),
            output: linear_proj(layer.out_weight.len(), &layer.out_bias, h, h),
            head_starts,
            head_dim: h / self.num_heads,
        };
        assert(plan.head_starts@ =~= Seq::new(
            self.num_heads as nat,
            |h: int| (h * plan.head_dim) as usize,
        ));
        plan
    }

    /// Plans the feed-forward network of a layer. Without a whole row of the up
    /// projection there is none, and its output is zero.
    pub fn ffn(&self, layer: &ClipEncoderLayer) -> (plan: Option<FfnPlan>)
        ensures
            ({
                let inner = inner_size(layer.fc1_weight@.len(), self.hidden_size as nat);
                match plan {
                    Some(p) => {
                        &&& inner > 0
                        &&& p.up@ == dense_rows(
                            layer.fc1_weight@,
                            layer.fc1_bias@,
                            inner,
                            self.hidden_size as nat,
                        )
                        &&& p.down@ == dense_rows(
                            layer.fc2_weight@,
                            layer.fc2_bias@,
                            self.hidden_size as nat,
                            inner,
                        )
                    },
                    None => inner == 0,
                }
            }),
    {
        let h: usize = self.hidden_size;
        let inner: usize = layer.ffn_dim(h);
        if inner == 0 {
            return None;
        }
        Some(
            FfnPlan {
                up: linear_proj(layer.fc1_weight.len(), &layer.fc1_bias, inner, h),
                down: linear_proj(layer.fc2_weight.len(), &layer.fc2_bias, h, inner),
            },
        )
    }

    /// The state of the class token before its position is added: zero. It comes
    /// before the states of the patches.
    pub fn class_state(&self) -> (state: Vec<u32>)
        ensures
            state@ == Seq::new(self.hidden_size as nat, |i: int| F32_ZERO),
    {
        filled(F32_ZERO, self.hidden_size)
    }

    /// Plans the projection of a patch to its state.
    pub fn patch_rows(&self) -> (plan: Vec<RowRead>)
        requires
            self.patch_size * self.patch_size * 3 <= usize::MAX,
        ensures
            plan@ == dense_rows(
                self.patch_embd_weight@,
                self.patch_embd_bias@,
                self.hidden_size as nat,
                (self.patch_size * self.patch_size * 3) as nat,
            ),
    {
        proof {
            let p = self.patch_size as int;
            assert(0 <= p * p && p * p <= p * p * 3) by (nonlinear_arith);
        }
        linear_proj(
            self.patch_embd_weight.len(),
            &self.patch_embd_bias,
            self.hidden_size,
            self.patch_size * self.patch_size * 3,
        )
    }

    /// The attention of a layer, or the end where there is no such layer.
    pub open spec fn enter_spec(&self, layer: int) -> ClipPart {
        if layer < self.layers@.len() {
            ClipPart::Attend {
                layer: layer as usize,
                normed: self.layers@[layer].ln1_weight@.len() > 0,
            }
        } else {
            ClipPart::PostNorm { present: self.post_ln_weight@.len() > 0 }
        }
    }

    /// The first part.
    pub open spec fn first_part_spec(&self) -> ClipPart {
        ClipPart::PreNorm { present: self.pre_ln_weight@.len() > 0 }
    }

    /// The part after a part.
    pub open spec fn next_part_spec(&self, p: ClipPart) -> ClipPart {
        match p {
            ClipPart::PreNorm { .. } => self.enter_spec(0),
            ClipPart::Attend { layer, .. } => ClipPart::Feed {
                layer,
                normed: self.layers@[layer as int].ln2_weight@.len() > 0,
            },
            ClipPart::Feed { layer, .. } => self.enter_spec(layer + 1),
            ClipPart::PostNorm { .. } => ClipPart::Done,
            ClipPart::Done => ClipPart::Done,
        }
    }

    /// Whether a part is of a layer that is there.
    pub open spec fn has_part(&self, p: ClipPart) -> bool {
        match p {
            ClipPart::Attend { layer, .. } => layer < self.layers@.len(),
            ClipPart::Feed { layer, .. } => layer < self.layers@.len(),
            _ => true,
        }
    }

    fn enter(&self, layer: usize) -> (p: ClipPart)
        ensures
            p == self.enter_spec(layer as int),
    {
        if layer < self.layers.len() {
            ClipPart::Attend { layer, normed: !self.layers[layer].ln1_weight.is_empty() }
        } else {
            ClipPart::PostNorm { present: !self.post_ln_weight.is_empty() }
        }
    }

    /// The first part of the work on the states of an image.
    pub fn first_part(&self) -> (p: ClipPart)
        ensures
            p == self.first_part_spec(),
            self.has_part(p),
    {
        ClipPart::PreNorm { present: !self.pre_ln_weight.is_empty() }
    }

    /// The part after a part.
    pub fn next_part(&self, p: ClipPart) -> (next: ClipPart)
        requires
            self.has_part(p),
        ensures
            next == self.next_part_spec(p),
            self.has_part(next),
    {
        match p {
            ClipPart::PreNorm { .. } => self.enter(0),
            ClipPart::Attend { layer, .. } => ClipPart::Feed {
                layer,
                normed: !self.layers[layer].ln2_weight.is_empty(),
            },
            ClipPart::Feed { layer, .. } => {
                let count: usize = self.layers.len();
                assert(layer < count);
                self.enter(layer + 1)
            },
            ClipPart::PostNorm { .. } => ClipPart::Done,
            ClipPart::Done => ClipPart::Done,
        }
    }

    /// The part that the work is at after `k` parts.
    pub open spec fn nth_part(&self, k: nat) -> ClipPart
        decreases k,
    {
        if k == 0 {
            self.first_part_spec()
        } else {
            self.next_part_spec(self.nth_part((k - 1) as nat))
        }
    }

    /// Puts the states of the patches in a row: all states but the first, which
    /// is the class token's.
    pub fn visual_tokens(&self, states: &Vec<Vec<u32>>) -> (out: Vec<u32>)
        ensures
            out@ == flattened(states@, 1, states@.len() as int),
    {
        let mut out: Vec<u32> = Vec::new();
        let mut t: usize = 1;
        while t < states.len()
            invariant
                1 <= t,
                t <= states@.len() || t == 1,
                out@ == flattened(states@, 1, t as int),
            decreases states@.len() - t,
        {
            let row: &Vec<u32> = &states[t];
            let mut copy = copied(row, 0, row.len());
            assert(copy@ =~= row@);
            out.append(&mut copy);
            t = t + 1;
        }
        out
    }
}

/// The rows from `from` up to `to`, put in a row.
pub open spec fn flattened(rows: Seq<Vec<u32>>, from: int, to: int) -> Seq<u32>
    decreases to - from,
{
    if to <= from {
        Seq::empty()
    } else {
        flattened(rows, from, to - 1) + rows[to - 1]@
    }
}

/// The counts of an image's patches fit where the image fits.
proof fn lemma_counts_fit(image_size: int, patch_size: int)
    requires
        image_size > 0,
        patch_size > 0,
    ensures
        0 <= image_size / patch_size <= image_size,
        (image_size / patch_size) * (image_size / patch_size) + 1 <= 3 * image_size * image_size,
{
    let side = image_size / patch_size;
    lemma_fundamental_div_mod(image_size, patch_size);
    assert(side >= 0) by (nonlinear_arith)
        requires
            image_size == patch_size * side + image_size % patch_size,
            0 <= image_size % patch_size < patch_size,
            image_size > 0,
    ;
    assert(side <= image_size) by (nonlinear_arith)
        requires
            image_size == patch_size * side + image_size % patch_size,
            0 <= image_size % patch_size,
            patch_size >= 1,
            side >= 0,
    ;
    assert(side * side + 1 <= 3 * image_size * image_size) by (nonlinear_arith)
        requires
            0 <= side <= image_size,
            image_size >= 1,
    ;
}

/// What a patch reads lies in the image.
proof fn lemma_source_in_image(image_size: int, patch_size: int, k: int, d: int)
    requires
        image_size > 0,
        patch_size > 0,
        0 <= k < (image_size / patch_size) * (image_size / patch_size),
        0 <= d < patch_size * patch_size * 3,
    ensures
        image_size / patch_size > 0,
        0 <= k / (image_size / patch_size) < image_size / patch_size,
        0 <= k % (image_size / patch_size) < image_size / patch_size,
        0 <= (d / 3) / patch_size < patch_size,
        0 <= (d / 3) % patch_size < patch_size,
        0 <= (k / (image_size / patch_size)) * patch_size + (d / 3) / patch_size < image_size,
        0 <= (k % (image_size / patch_size)) * patch_size + (d / 3) % patch_size < image_size,
        0 <= patch_source(image_size, patch_size, k, d) < 3 * image_size * image_size,
{
    let n = image_size;
    let p = patch_size;
    let side = n / p;
    lemma_counts_fit(n, p);
    lemma_fundamental_div_mod(n, p);
    assert(side > 0) by (nonlinear_arith)
        requires
            0 <= k < side * side,
            side >= 0,
    ;
    lemma_fundamental_div_mod(k, side);
    let row = k / side;
    let col = k % side;
    assert(0 <= row < side) by (nonlinear_arith)
        requires
            k == side * row + col,
            0 <= col < side,
            0 <= k < side * side,
    ;
    let e = d / 3;
    assert(0 <= e < p * p) by (nonlinear_arith)
        requires
            e == d / 3,
            0 <= d < p * p * 3,
    ;
    lemma_fundamental_div_mod(e, p);
    let pr = e / p;
    let pc = e % p;
    assert(0 <= pr < p) by (nonlinear_arith)
        requires
            e == p * pr + pc,
            0 <= pc < p,
            0 <= e < p * p,
    ;
    assert(0 <= row * p + pr < n) by (nonlinear_arith)
        requires
            0 <= row,
            row + 1 <= side,
            0 <= pr < p,
            p * side <= n,
    ;
    assert(0 <= col * p + pc < n) by (nonlinear_arith)
        requires
            0 <= col,
            col + 1 <= side,
            0 <= pc < p,
            p * side <= n,
    ;
    lemma_pixel_in_image(n, d % 3, row * p + pr, col * p + pc);
}

proof fn lemma_pixel_in_image(n: int, c: int, y: int, x: int)
    requires
        0 <= c < 3,
        0 <= y < n,
        0 <= x < n,
    ensures
        0 <= c * (n * n),
        0 <= y * n,
        c * (n * n) + y * n + x < 3 * n * n,
        c * (n * n) <= 3 * n * n,
        y * n <= 3 * n * n,
        c * (n * n) + y * n <= 3 * n * n,
{
    assert(y * n + x < n * n) by (nonlinear_arith)
        requires
            y + 1 <= n,
            0 <= x < n,
    ;
    assert(0 <= y * n) by (nonlinear_arith)
        requires
            0 <= y,
            0 <= n,
    ;
    let a = n * n;
    assert(c * a + a <= 3 * a) by (nonlinear_arith)
        requires
            c + 1 <= 3,
            a >= 0,
    ;
    assert(0 <= c * a) by (nonlinear_arith)
        requires
            c >= 0,
            a >= 0,
    ;
    assert(3 * n * n == 3 * a) by (nonlinear_arith)
        requires
            a == n * n,
    ;
}

/// Cuts an image into patches.
fn cut_patches(pixels: &Vec<u32>, image_size: usize, patch_size: usize, n: usize) -> (patches: Vec<
    Vec<u32>,
>)
    requires
        image_size > 0,
        patch_size > 0,
        pixels@.len() == 3 * image_size * image_size,
        n == (image_size / patch_size) * (image_size / patch_size),
    ensures
        patches@.len() == n,
        forall|k: int|
            0 <= k < n ==> (#[trigger] patches@[k])@ == patch_of(
                pixels@,
                image_size as nat,
                patch_size as nat,
                k,
            ),
{
    let mut patches: Vec<Vec<u32>> = Vec::new();
    let mut k: usize = 0;
    while k < n
        invariant
            k <= n,
            image_size > 0,
            patch_size > 0,
            pixels@.len() == 3 * image_size * image_size,
            n == (image_size / patch_size) * (image_size / patch_size),
            patches@.len() == k,
            forall|j: int|
                0 <= j < k ==> (#[trigger] patches@[j])@ == patch_of(
                    pixels@,
                    image_size as nat,
                    patch_size as nat,
                    j,
                ),
        decreases n - k,
    {
        let patch = cut_patch(pixels, image_size, patch_size, k);
        patches.push(patch);
        k = k + 1;
    }
    patches
}

/// Cuts one patch out of an image.
fn cut_patch(pixels: &Vec<u32>, image_size: usize, patch_size: usize, k: usize) -> (patch: Vec<u32>)
    requires
        image_size > 0,
        patch_size > 0,
        pixels@.len() == 3 * image_size * image_size,
        k < (image_size / patch_size) * (image_size / patch_size),
    ensures
        patch@ == patch_of(pixels@, image_size as nat, patch_size as nat, k as int),
{
    let total: usize = pixels.len();
    proof {
        let n = image_size as int;
        let p = patch_size as int;
        lemma_counts_fit(n, p);
        let side = n / p;
        assert(side >= 1) by (nonlinear_arith)
            requires
                side >= 0,
                k < side * side,
                k >= 0,
        ;
        lemma_fundamental_div_mod(n, p);
        assert(p <= n) by (nonlinear_arith)
            requires
                n == p * side + n % p,
                n % p >= 0,
                side >= 1,
                p >= 1,
        ;
        assert(p * p >= 0 && p * p * 3 >= 0 && p * p * 3 <= 3 * n * n && p * p <= 3 * n * n)
            by (nonlinear_arith)
            requires
                1 <= p <= n,
        ;
    }
    let side: usize = image_size / patch_size;
    let flat: usize = patch_size * patch_size * 3;
    let row: usize = k / side;
    let col: usize = k % side;
    let mut patch: Vec<u32> = Vec::new();
    let mut d: usize = 0;
    assert(patch@ =~= Seq::new(
        0,
        |j: int| pixels@[patch_source(image_size as int, patch_size as int, k as int, j)],
    ));
    while d < flat
        invariant
            d <= flat,
            flat == patch_size * patch_size * 3,
            image_size > 0,
            patch_size > 0,
            total == pixels@.len(),
            total == 3 * image_size * image_size,
            k < (image_size / patch_size) * (image_size / patch_size),
            side == image_size / patch_size,
            side > 0,
            row == k / side,
            col == k % side,
            patch@ == Seq::new(
                d as nat,
                |j: int| pixels@[patch_source(image_size as int, patch_size as int, k as int, j)],
            ),
        decreases flat - d,
    {
        proof {
            lemma_source_in_image(
                image_size as int,
                patch_size as int,
                k as int,
                d as int,
            );
            let y = row * patch_size + (d / 3) / patch_size;
            let x = col * patch_size + (d / 3) % patch_size;
            lemma_pixel_in_image(image_size as int, (d % 3) as int, y, x);
            assert(row * patch_size >= 0 && col * patch_size >= 0) by (nonlinear_arith);
            let n = image_size as int;
            assert(n * n >= 0 && n * n <= 3 * n * n) by (nonlinear_arith)
                requires
                    n >= 0,
            ;
        }
        let e: usize = d / 3;
        let y: usize = row * patch_size + e / patch_size;
        let x: usize = col * patch_size + e % patch_size;
        let source: usize = (d % 3) * (image_size * image_size) + y * image_size + x;
        patch.push(pixels[source]);
        assert(patch@ =~= Seq::new(
            (d + 1) as nat,
            |j: int| pixels@[patch_source(image_size as int, patch_size as int, k as int, j)],
        ));
        d = d + 1;
    }
    patch
}

/// The patch that a pixel belongs to.
pub open spec fn patch_with(image_size: int, patch_size: int, y: int, x: int) -> int {
    (y / patch_size) * (image_size / patch_size) + x / patch_size
}

/// The place in its patch of a pixel's channel.
pub open spec fn place_in_patch(patch_size: int, c: int, y: int, x: int) -> int {
    ((y % patch_size) * patch_size + x % patch_size) * 3 + c
}

/// Every pixel that the grid of patches covers is in one patch, at one place,
/// with all its channels: no pixel is lost and none is read twice. Where the
/// patch size divides the image size, the grid covers the image.
pub proof fn law_patches_partition_image(
    image_size: int,
    patch_size: int,
    c: int,
    y: int,
    x: int,
    k: int,
    d: int,
)
    requires
        image_size > 0,
        patch_size > 0,
        0 <= c < 3,
        0 <= y < (image_size / patch_size) * patch_size,
        0 <= x < (image_size / patch_size) * patch_size,
        0 <= k < (image_size / patch_size) * (image_size / patch_size),
        0 <= d < patch_size * patch_size * 3,
    ensures
        image_size % patch_size == 0 ==> (image_size / patch_size) * patch_size == image_size,
        0 <= patch_with(image_size, patch_size, y, x) < (image_size / patch_size) * (image_size
            / patch_size),
        0 <= place_in_patch(patch_size, c, y, x) < patch_size * patch_size * 3,
        patch_source(image_size, patch_size, k, d) == pixel_place(image_size, c, y, x) <==> k
            == patch_with(image_size, patch_size, y, x) && d == place_in_patch(patch_size, c, y, x),
{
    let n = image_size;
    let p = patch_size;
    let side = n / p;
    lemma_counts_fit(n, p);
    lemma_fundamental_div_mod(n, p);
    assert(side * p == p * side) by (nonlinear_arith);
    let row = y / p;
    let col = x / p;
    let pr = y % p;
    let pc = x % p;
    lemma_cell(p, side, y);
    lemma_cell(p, side, x);
    assert(y == row * p + pr);
    assert(x == col * p + pc);
    assert(0 <= row * side + col < side * side) by (nonlinear_arith)
        requires
            0 <= row,
            row + 1 <= side,
            0 <= col < side,
    ;
    lemma_fundamental_div_mod_converse(row * side + col, side, row, col);
    let e = pr * p + pc;
    assert(0 <= e < p * p) by (nonlinear_arith)
        requires
            e == pr * p + pc,
            0 <= pr,
            pr + 1 <= p,
            0 <= pc < p,
    ;
    lemma_fundamental_div_mod_converse(e, p, pr, pc);
    let place = e * 3 + c;
    lemma_fundamental_div_mod_converse(place, 3, e, c);
    assert(place < p * p * 3) by (nonlinear_arith)
        requires
            place == e * 3 + c,
            e + 1 <= p * p,
            c < 3,
    ;
    assert(place_in_patch(p, c, y, x) == place);
    if patch_source(n, p, k, d) == pixel_place(n, c, y, x) {
        lemma_source_in_image(n, p, k, d);
        let y2 = (k / side) * p + (d / 3) / p;
        let x2 = (k % side) * p + (d / 3) % p;
        assert(y < n && x < n);
        lemma_pixel_unique(n, c, y, x, d % 3, y2, x2);
        lemma_fundamental_div_mod_converse(y2, p, k / side, (d / 3) / p);
        lemma_fundamental_div_mod_converse(x2, p, k % side, (d / 3) % p);
        lemma_fundamental_div_mod(k, side);
        assert(side * (k / side) == (k / side) * side) by (nonlinear_arith);
        lemma_fundamental_div_mod(d / 3, p);
        assert(p * ((d / 3) / p) == ((d / 3) / p) * p) by (nonlinear_arith);
        lemma_fundamental_div_mod(d, 3);
    }
}

proof fn lemma_cell(p: int, side: int, y: int)
    requires
        p > 0,
        0 <= y < side * p,
    ensures
        y == (y / p) * p + y % p,
        0 <= y / p < side,
        0 <= y % p < p,
{
    lemma_fundamental_div_mod(y, p);
    let q = y / p;
    assert(p * q == q * p) by (nonlinear_arith);
    assert(q >= 0) by (nonlinear_arith)
        requires
            y == q * p + y % p,
            0 <= y % p < p,
            y >= 0,
    ;
    assert(q < side) by (nonlinear_arith)
        requires
            y == q * p + y % p,
            0 <= y % p,
            y < side * p,
            p > 0,
    ;
}

proof fn lemma_pixel_unique(n: int, c1: int, y1: int, x1: int, c2: int, y2: int, x2: int)
    requires
        0 <= y1 < n,
        0 <= x1 < n,
        0 <= y2 < n,
        0 <= x2 < n,
        c1 * (n * n) + y1 * n + x1 == c2 * (n * n) + y2 * n + x2,
    ensures
        c1 == c2,
        y1 == y2,
        x1 == x2,
{
    let a = n * n;
    let r1 = y1 * n + x1;
    let r2 = y2 * n + x2;
    assert(0 <= r1 < a) by (nonlinear_arith)
        requires
            r1 == y1 * n + x1,
            a == n * n,
            0 <= y1,
            y1 + 1 <= n,
            0 <= x1 < n,
    ;
    assert(0 <= r2 < a) by (nonlinear_arith)
        requires
            r2 == y2 * n + x2,
            a == n * n,
            0 <= y2,
            y2 + 1 <= n,
            0 <= x2 < n,
    ;
    lemma_fundamental_div_mod_converse(c1 * a + r1, a, c1, r1);
    lemma_fundamental_div_mod_converse(c2 * a + r2, a, c2, r2);
    lemma_fundamental_div_mod_converse(r1, n, y1, x1);
    lemma_fundamental_div_mod_converse(r2, n, y2, x2);
}

/// The work on an image goes through all layers in order, between the two norms: in
/// each layer attention comes first and the feed-forward network second, and a norm
/// is left out exactly where it has no weights.
pub proof fn law_layers_are_run_in_order(e: ClipEncoder, layer: int)
    requires
        0 <= layer < e.layers@.len(),
        e.layers@.len() <= usize::MAX,
    ensures
        e.nth_part((2 * layer + 1) as nat) == (ClipPart::Attend {
            layer: layer as usize,
            normed: e.layers@[layer].ln1_weight@.len() > 0,
        }),
        e.nth_part((2 * layer + 2) as nat) == (ClipPart::Feed {
            layer: layer as usize,
            normed: e.layers@[layer].ln2_weight@.len() > 0,
        }),
        e.nth_part(0) == (ClipPart::PreNorm { present: e.pre_ln_weight@.len() > 0 }),
    decreases layer,
{
    if layer > 0 {
        law_layers_are_run_in_order(e, layer - 1);
    }
    let k = (2 * layer + 1) as nat;
    assert(e.nth_part(k) == e.next_part_spec(e.nth_part((k - 1) as nat)));
    assert(e.nth_part(k + 1) == e.next_part_spec(e.nth_part(k)));
}

/// The work on an image ends with the last norm, after two parts for each layer.
pub proof fn law_work_on_image_ends(e: ClipEncoder)
    requires
        e.layers@.len() <= usize::MAX,
    ensures
        e.nth_part(2 * e.layers@.len() + 1) == (ClipPart::PostNorm {
            present: e.post_ln_weight@.len() > 0,
        }),
        e.nth_part(2 * e.layers@.len() + 2) == ClipPart::Done,
{
    let n = e.layers@.len();
    if n > 0 {
        law_layers_are_run_in_order(e, n - 1);
    }
    assert(e.nth_part(2 * n + 1) == e.next_part_spec(e.nth_part(2 * n)));
    assert(e.nth_part(2 * n + 2) == e.next_part_spec(e.nth_part(2 * n + 1)));
}

/// Patches are numbered row by row. In the patch of grid row `row` and column
/// `col`, the pixel of row `py` and column `px` stands at `py * p + px`, with its
/// three channels together; in the image each channel has all its pixels together,
/// row by row.
pub proof fn law_patches_hold_their_pixels(
    pixels: Seq<u32>,
    image_size: nat,
    patch_size: nat,
    row: int,
    col: int,
    py: int,
    px: int,
    c: int,
)
    requires
        patch_size > 0,
        0 <= row < image_size / patch_size,
        0 <= col < image_size / patch_size,
        0 <= py < patch_size,
        0 <= px < patch_size,
        0 <= c < 3,
    ensures
        ({
            let n = image_size as int;
            let p = patch_size as int;
            let patch = patch_of(pixels, image_size, patch_size, row * (n / p) + col);
            &&& patch.len() == p * p * 3
            &&& patch[(py * p + px) * 3 + c] == pixels[c * (n * n) + (row * p + py) * n + (col * p
                + px)]
        }),
{
    let n = image_size as int;
    let p = patch_size as int;
    let side = n / p;
    let e = py * p + px;
    let d = e * 3 + c;
    assert(0 <= e < p * p) by (nonlinear_arith)
        requires
            e == py * p + px,
            0 <= py,
            py + 1 <= p,
            0 <= px < p,
    ;
    assert(0 <= d < p * p * 3) by (nonlinear_arith)
        requires
            d == e * 3 + c,
            0 <= e,
            e + 1 <= p * p,
            0 <= c < 3,
    ;
    lemma_fundamental_div_mod_converse(d, 3, e, c);
    lemma_fundamental_div_mod_converse(e, p, py, px);
    lemma_fundamental_div_mod_converse(row * side + col, side, row, col);
    let patch = patch_of(pixels, image_size, patch_size, row * side + col);
    assert(patch[d] == pixels[patch_source(n, p, row * side + col, d)]);
}

/// A side of an image has as many patches as fit in it, and an image the square of
/// that; a patch has three channels for each of its pixels.
pub proof fn law_patches_fill_the_side(e: ClipEncoder)
    requires
        e.patch_size > 0,
    ensures
        ({
            let side = patches_per_side(e.image_size as nat, e.patch_size as nat) as int;
            &&& side * e.patch_size <= e.image_size
            &&& e.image_size < (side + 1) * e.patch_size
            &&& e.patch_count() == side * side
            &&& patch_length(e.patch_size as nat) == 3 * (e.patch_size * e.patch_size)
        }),
{
    let n = e.image_size as int;
    let p = e.patch_size as int;
    let side = n / p;
    lemma_fundamental_div_mod(n, p);
    assert(side * p == p * side) by (nonlinear_arith);
    assert((side + 1) * p == side * p + p) by (nonlinear_arith);
}

/// An encoder without a size takes no image, and any other takes images of three
/// channels of its own size alone, provided that its heads, where it has layers,
/// have at least one element each.
pub proof fn law_images_are_checked(e: ClipEncoder, pixels: nat)
    ensures
        e.encode_failure(pixels) is None <==> {
            &&& e.hidden_size > 0
            &&& e.patch_size > 0
            &&& e.image_size > 0
            &&& pixels == 3 * e.image_size * e.image_size
            &&& e.layers@.len() > 0 ==> e.num_heads > 0 && e.num_heads <= e.hidden_size
        },
        e.hidden_size > 0 && e.patch_size > 0 && e.image_size > 0 && pixels != 3 * e.image_size
            * e.image_size ==> e.encode_failure(pixels) == Some(
            ArchErrorView::InvalidShape {
                name: "clip pixels"@,
                expected: seq![(3 * e.image_size * e.image_size) as usize],
                got: seq![pixels as usize],
            },
        ),
{
    let h = e.hidden_size as int;
    let k = e.num_heads as int;
    if k > 0 {
        assert(h / k == 0 <==> h < k) by (nonlinear_arith)
            requires
                k > 0,
                h >= 0,
        ;
    }
}

/// The embedding of position `p` begins at `p * hidden_size`, where the embeddings
/// reach to its end.
pub proof fn law_positions_have_their_rows(e: ClipEncoder, p: int)
    requires
        0 <= p,
        e.position_embd@.len() <= usize::MAX,
        e.hidden_size > 0,
    ensures
        e.position_start(p) is Some <==> (p + 1) * e.hidden_size <= e.position_embd@.len(),
        e.position_start(p) matches Some(s) ==> s == p * e.hidden_size,
{
    let w = e.hidden_size as int;
    assert((p + 1) * w == p * w + w && p * w >= 0) by (nonlinear_arith)
        requires
            p >= 0,
            w >= 0,
    ;
}

/// Output `i` of a dense projection reads the weights from `i * m` on, where all of
/// them are there, and its own bias.
pub proof fn law_dense_outputs_read_their_rows(
    weight: Seq<u32>,
    bias: Seq<u32>,
    n: nat,
    m: nat,
    i: int,
)
    requires
        0 <= i < n,
        weight.len() <= usize::MAX,
    ensures
        dense_rows(weight, bias, n, m).len() == n,
        dense_rows(weight, bias, n, m)[i].start is Some <==> i * m + m <= weight.len(),
        dense_rows(weight, bias, n, m)[i].start matches Some(s) ==> s == i * m,
        i < bias.len() ==> dense_rows(weight, bias, n, m)[i].bias == bias[i],
        i >= bias.len() ==> dense_rows(weight, bias, n, m)[i].bias == 0,
        square_rows(weight, bias, n) == dense_rows(weight, bias, n, n),
{
    assert(i * m >= 0) by (nonlinear_arith)
        requires
            i >= 0,
    ;
}

/// A feed-forward network has as many inner elements as its up projection has whole
/// rows of the hidden size.
pub proof fn law_inner_size_counts_rows(len: nat, hidden: nat)
    ensures
        hidden > 0 ==> inner_size(len, hidden) * hidden <= len < (inner_size(len, hidden) + 1)
            * hidden,
        hidden == 0 ==> inner_size(len, hidden) == 0,
{
    if hidden > 0 {
        let q = len / hidden;
        lemma_fundamental_div_mod(len as int, hidden as int);
        assert(q * hidden == hidden * q) by (nonlinear_arith);
        assert((q + 1) * hidden == q * hidden + hidden) by (nonlinear_arith);
    }
}

/// The states of the patches, put in a row, leave out the class token's state,
/// which is the first, and keep all others in order.
pub proof fn law_visual_tokens_leave_out_the_class(
    states: Seq<Vec<u32>>,
    width: nat,
    n: int,
    t: int,
    j: int,
)
    requires
        1 <= t < n <= states.len(),
        forall|k: int| 0 <= k < states.len() ==> (#[trigger] states[k])@.len() == width,
        0 <= j < width,
    ensures
        flattened(states, 1, n).len() == (n - 1) * width,
        flattened(states, 1, n)[(t - 1) * width + j] == states[t]@[j],
    decreases n,
{
    let before = flattened(states, 1, n - 1);
    assert(states[n - 1]@.len() == width);
    lemma_flattened_length(states, width, n - 1);
    assert((n - 1) * width == (n - 2) * width + width) by (nonlinear_arith);
    if t < n - 1 {
        law_visual_tokens_leave_out_the_class(states, width, n - 1, t, j);
        assert(0 <= (t - 1) * width && (t - 1) * width + width <= (n - 2) * width)
            by (nonlinear_arith)
            requires
                1 <= t,
                t <= n - 2,
                width >= 0,
        ;
        assert(flattened(states, 1, n)[(t - 1) * width + j] == before[(t - 1) * width + j]);
    } else {
        assert((t - 1) * width == (n - 2) * width);
    }
}

proof fn lemma_flattened_length(states: Seq<Vec<u32>>, width: nat, n: int)
    requires
        1 <= n <= states.len(),
        forall|k: int| 0 <= k < states.len() ==> (#[trigger] states[k])@.len() == width,
    ensures
        flattened(states, 1, n).len() == (n - 1) * width,
    decreases n,
{
    if n > 1 {
        lemma_flattened_length(states, width, n - 1);
        assert(states[n - 1]@.len() == width);
        assert((n - 1) * width == (n - 2) * width + width) by (nonlinear_arith);
    } else {
        assert(0 * width == 0) by (nonlinear_arith);
    }
}

} // verus!
