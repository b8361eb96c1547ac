//! Mamba-2: a recurrent model with selective scans.

use crate::bits::{F32_1E_MINUS_5, F32_ZERO};
use crate::common::embedding::{
    all_have_rows, count_known, embedding_rows, known_count, lemma_known_count, out_of_range,
    out_of_range_text,
};
use crate::common::load::{bytes_failure, values_of};
use crate::common::norm::RmsNorm;
use crate::common::pass::{layer_failed, Order, PartialPass, Pass, PassShape};
use crate::common::sizes::{copied, filled, is_product, row_starts};
use crate::common::sparse::{constant, is_unit_norm, unit_norm};
use crate::config::ModelConfig;
use crate::error::{
    first_failure, first_of, follows, invalid_config, law_first_failing_part_is_reported,
    lemma_first_failure, missing_tensor,
    ArchError, ArchErrorView, ArchResult,
};
use crate::gguf::{dequant_to_f32, GgufModel, KernelOutcome, TensorMap, TensorRecord, TensorStore};
use crate::metadata::{meta_u32, MetadataMap, MetadataStore};
use crate::text::{block_name, block_tensor, decimal, decimal_string, joined};
use crate::traits::{
    add_pattern, no_patterns, pattern_views, tensor, ModelArchitecture, PatternView,
    TensorNamePattern,
};
use vstd::arithmetic::div_mod::{
    lemma_fundamental_div_mod, lemma_fundamental_div_mod_converse,
};
use vstd::prelude::*;

verus! {

/// The family of models with the identifier `mamba2`.
#[derive(Debug, Clone, Copy)]
pub struct Mamba2Architecture;

impl Mamba2Architecture {
    /// The family.
    pub fn new() -> (a: Self)
        ensures
            a == Mamba2Architecture,
    {
        Mamba2Architecture
    }

    /// Answers a request to build a model from its tensors' names: the tensors'
    /// data can only be had from a file, so every request is refused.
    pub fn build(&self, _config: &ModelConfig, _tensors: &TensorStore) -> (r: ArchResult<()>)
        ensures
            r matches Err(e) && e@ == (ArchErrorView::MissingTensor {
                name: "Mamba2Architecture::build() is not the loader entry point; call load_mamba2_from_gguf() instead"@,
            }),
    {
        Err(
            missing_tensor(
                "Mamba2Architecture::build() is not the loader entry point; call load_mamba2_from_gguf() instead",
            ),
        )
    }
}

impl Default for Mamba2Architecture {
    fn default() -> (a: Self)
        ensures
            a == Mamba2Architecture,
    {
        Mamba2Architecture
    }
}

/// The tensors of the family.
pub open spec fn mamba2_patterns() -> Seq<PatternView> {
    seq![
        tensor("token_embd.weight"@, "Token embedding table"@, true),
        tensor("output_norm.weight"@, "Final RMSNorm scale"@, true),
        tensor("output.weight"@, "LM head projection"@, true),
        tensor("blk.*.ssm_in.weight"@, "SSM combined gate+input projection"@, true),
        tensor("blk.*.ssm_conv1d.weight"@, "1-D depthwise conv kernel"@, true),
        tensor("blk.*.ssm_conv1d.bias"@, "1-D depthwise conv bias"@, false),
        tensor("blk.*.ssm_x.weight"@, "x \u{2192} B, C, \u{394} combined projection"@, true),
        tensor("blk.*.ssm_dt.weight"@, "\u{394} projection weight"@, true),
        tensor("blk.*.ssm_dt.bias"@, "\u{394} projection bias"@, false),
        tensor("blk.*.ssm_A"@, "Log-parameterised A matrix"@, true),
        tensor("blk.*.ssm_D"@, "Skip-connection D vector"@, true),
        tensor("blk.*.ssm_out.weight"@, "SSM output projection"@, true),
    ]
}

/// Lists the tensors of the family.
fn mamba2_tensors() -> (v: Vec<TensorNamePattern>)
    ensures
        pattern_views(v@) == mamba2_patterns(),
{
    let mut v = no_patterns();
    add_pattern(&mut v, "token_embd.weight", "Token embedding table", true);
    add_pattern(&mut v, "output_norm.weight", "Final RMSNorm scale", true);
    add_pattern(&mut v, "output.weight", "LM head projection", true);
    add_pattern(&mut v, "blk.*.ssm_in.weight", "SSM combined gate+input projection", true);
    add_pattern(&mut v, "blk.*.ssm_conv1d.weight", "1-D depthwise conv kernel", true);
    add_pattern(&mut v, "blk.*.ssm_conv1d.bias", "1-D depthwise conv bias", false);
    add_pattern(&mut v, "blk.*.ssm_x.weight", "x \u{2192} B, C, \u{394} combined projection", true);
    add_pattern(&mut v, "blk.*.ssm_dt.weight", "\u{394} projection weight", true);
    add_pattern(&mut v, "blk.*.ssm_dt.bias", "\u{394} projection bias", false);
    add_pattern(&mut v, "blk.*.ssm_A", "Log-parameterised A matrix", true);
    add_pattern(&mut v, "blk.*.ssm_D", "Skip-connection D vector", true);
    add_pattern(&mut v, "blk.*.ssm_out.weight", "SSM output projection", true);
    v
}

impl ModelArchitecture for Mamba2Architecture {
    open spec fn id(&self) -> Seq<char> {
        "mamba2"@
    }

    open spec fn tensors(&self) -> Seq<PatternView> {
        mamba2_patterns()
    }

    fn arch_id(&self) -> (r: &'static str) {
        "mamba2"
    }

    fn tensor_names(&self) -> (v: Vec<TensorNamePattern>) {
        mamba2_tensors()
    }
}

/// The hyperparameters of the family.
#[derive(Debug, Clone, Copy, PartialEq, Eq)]
pub struct Mamba2Config {
    /// Size of a hidden state.
    pub d_model: usize,
    /// Number of layers.
    pub n_layer: usize,
    /// Size of a channel's recurrent state.
    pub d_state: usize,
    /// Width of the convolution.
    pub d_conv: usize,
    /// Number of channels for each element of a hidden state.
    pub expand: usize,
    /// Number of tokens in the vocabulary.
    pub vocab_size: usize,
    /// Greatest number of tokens in a context.
    pub max_seq_len: usize,
}

/// The integer under the first of two keys that has one, or a default.
pub open spec fn either_or(m: MetadataMap, a: Seq<char>, b: Seq<char>, default: usize) -> usize {
    match meta_u32(m, a) {
        Some(v) => v as usize,
        None => match meta_u32(m, b) {
            Some(v) => v as usize,
            None => default,
        },
    }
}

/// The integer under the first of three keys that has one, or a default.
pub open spec fn any_or(
    m: MetadataMap,
    a: Seq<char>,
    b: Seq<char>,
    c: Seq<char>,
    default: usize,
) -> usize {
    match meta_u32(m, a) {
        Some(v) => v as usize,
        None => either_or(m, b, c, default),
    }
}

fn read_either(metadata: &MetadataStore, a: &str, b: &str, default: usize) -> (n: usize)
    ensures
        n == either_or(metadata@, a@, b@, default),
{
    match metadata.get_u32(a) {
        Some(v) => v as usize,
        None => match metadata.get_u32(b) {
            Some(v) => v as usize,
            None => default,
        },
    }
}

fn read_any(metadata: &MetadataStore, a: &str, b: &str, c: &str, default: usize) -> (n: usize)
    ensures
        n == any_or(metadata@, a@, b@, c@, default),
{
    match metadata.get_u32(a) {
        Some(v) => v as usize,
        None => read_either(metadata, b, c, default),
    }
}

/// The configuration that metadata describes. Keys of the family come before
/// those of its forerunner.
pub open spec fn mamba2_config_of(m: MetadataMap) -> Mamba2Config {
    Mamba2Config {
        d_model: either_or(m, "mamba2.d_model"@, "mamba.d_model"@, 128),
        n_layer: any_or(m, "mamba2.n_layer"@, "mamba.n_layer"@, "mamba2.block_count"@, 24),
        d_state: either_or(m, "mamba2.d_state"@, "mamba.d_state"@, 128),
        d_conv: either_or(m, "mamba2.d_conv"@, "mamba.d_conv"@, 4),
        expand: either_or(m, "mamba2.expand"@, "mamba.expand"@, 2),
        vocab_size: any_or(
            m,
            "mamba2.vocab_size"@,
            "mamba.vocab_size"@,
            "tokenizer.ggml.tokens.length"@,
            32000,
        ),
        max_seq_len: either_or(m, "mamba2.context_length"@, "mamba.context_length"@, 4096),
    }
}

impl Mamba2Config {
    /// Number of channels.
    pub open spec fn inner(self) -> int {
        self.d_model * self.expand
    }

    /// Number of channels.
    pub fn d_inner(&self) -> (n: usize)
        requires
            self.inner() <= usize::MAX,
        ensures
            n == self.inner(),
    {
        self.d_model * self.expand
    }

    /// Reads the configuration, with a default for every key that is missing.
    pub fn from_metadata(metadata: &MetadataStore) -> (c: Self)
        ensures
            c == mamba2_config_of(metadata@),
    {
        Mamba2Config {
            d_model: read_either(metadata, "mamba2.d_model", "mamba.d_model", 128),
            n_layer: read_any(
                metadata,
                "mamba2.n_layer",
                "mamba.n_layer",
                "mamba2.block_count",
                24,
            ),
            d_state: read_either(metadata, "mamba2.d_state", "mamba.d_state", 128),
            d_conv: read_either(metadata, "mamba2.d_conv", "mamba.d_conv", 4),
            expand: read_either(metadata, "mamba2.expand", "mamba.expand", 2),
            vocab_size: read_any(
                metadata,
                "mamba2.vocab_size",
                "mamba.vocab_size",
                "tokenizer.ggml.tokens.length",
                32000,
            ),
            max_seq_len: read_either(
                metadata,
                "mamba2.context_length",
                "mamba.context_length",
                4096,
            ),
        }
    }

    /// Whether the sizes of weights and states fit a machine word.
    pub open spec fn fits(self) -> bool {
        &&& self.inner() <= usize::MAX
        &&& 2 * self.inner() * self.d_model <= usize::MAX
        &&& self.inner() * self.d_conv <= usize::MAX
        &&& self.d_state * self.inner() <= usize::MAX
        &&& self.inner() * self.inner() <= usize::MAX
        &&& self.vocab_size * self.d_model <= usize::MAX
    }
}

/// The weights of one layer.
#[derive(Debug)]
pub struct Mamba2LayerWeights {
    /// Projection to gating values and inputs, `2 * d_inner` rows of `d_model`.
    pub w_in_z: Vec<u32>,
    /// Kernels of the convolution, one row of `d_conv` for each channel.
    pub w_conv: Vec<u32>,
    /// Bias of the convolution, one for each channel.
    pub b_conv: Vec<u32>,
    /// Projection to the input factors, `d_state` rows of `d_inner`.
    pub w_b: Vec<u32>,
    /// Projection to the output factors, `d_state` rows of `d_inner`.
    pub w_c: Vec<u32>,
    /// Projection to the time steps, `d_inner` rows of `d_inner`.
    pub w_delta: Vec<u32>,
    /// Bias of the time steps, one for each channel.
    pub b_delta: Vec<u32>,
    /// Logarithms of the decay rates, `d_state` rows of `d_inner`.
    pub log_a: Vec<u32>,
    /// Factor of the input in the output, one for each channel.
    pub d_skip: Vec<u32>,
    /// Output projection, `d_model` rows of `d_inner`.
    pub w_out: Vec<u32>,
    /// Norm before the layer.
    pub norm: RmsNorm,
}

/// The recurrent state of all layers, and the number of tokens behind it.
#[derive(Debug)]
pub struct Mamba2SequenceState {
    /// The state of each layer, `d_state` rows of `d_inner`.
    pub layers: Vec<Vec<u32>>,
    /// Number of tokens behind the state.
    pub position: usize,
    /// Greatest number of tokens in a context.
    pub max_seq_len: usize,
}

impl Mamba2SequenceState {
    /// Whether this is the state before the first token: zero everywhere.
    pub open spec fn is_fresh(&self, n_layer: nat, size: int) -> bool {
        &&& self.position == 0
        &&& self.layers@.len() == n_layer
        &&& forall|i: int|
            0 <= i < self.layers@.len() ==> (#[trigger] self.layers@[i])@ == constant(
                F32_ZERO,
                size,
            )
    }

    /// The state before the first token.
    pub fn new(n_layer: usize, d_state: usize, d_inner: usize, max_seq_len: usize) -> (s: Self)
        requires
            d_state * d_inner <= usize::MAX,
        ensures
            s.is_fresh(n_layer as nat, d_state * d_inner),
            s.max_seq_len == max_seq_len,
    {
        let size: usize = d_state * d_inner;
        let mut layers: Vec<Vec<u32>> = Vec::new();
        let mut i: usize = 0;
        while i < n_layer
            invariant
                i <= n_layer,
                layers@.len() == i,
                forall|j: int|
                    0 <= j < i ==> (#[trigger] layers@[j])@ == constant(F32_ZERO, size as int),
            decreases n_layer - i,
        {
            layers.push(filled(F32_ZERO, size));
            i = i + 1;
        }
        Mamba2SequenceState { layers, position: 0, max_seq_len }
    }

    /// Goes back to before the first token.
    pub fn reset(&mut self)
        ensures
            final(self).position == 0,
            final(self).max_seq_len == old(self).max_seq_len,
            final(self).layers@.len() == old(self).layers@.len(),
            forall|i: int|
                0 <= i < final(self).layers@.len() ==> (#[trigger] final(self).layers@[i])@
                    == constant(F32_ZERO, old(self).layers@[i]@.len() as int),
    {
        self.position = 0;
        let ghost before = self.layers@;
        let mut i: usize = 0;
        while i < self.layers.len()
            invariant
                i <= self.layers@.len(),
                before == old(self).layers@,
                self.position == 0,
                self.max_seq_len == old(self).max_seq_len,
                self.layers@.len() == before.len(),
                forall|j: int|
                    0 <= j < i ==> (#[trigger] self.layers@[j])@ == constant(
                        F32_ZERO,
                        before[j]@.len() as int,
                    ),
                forall|j: int| i <= j < before.len() ==> #[trigger] self.layers@[j] == before[j],
            decreases self.layers@.len() - i,
        {
            let size: usize = self.layers[i].len();
            self.layers.set(i, filled(F32_ZERO, size));
            i = i + 1;
        }
    }

    /// Counts one more token.
    pub fn advance(&mut self)
        requires
            old(self).position < usize::MAX,
        ensures
            final(self).position == old(self).position + 1,
            final(self).layers == old(self).layers,
            final(self).max_seq_len == old(self).max_seq_len,
    {
        self.position = self.position + 1;
    }

    /// Number of tokens behind the state.
    pub fn step_position(&self) -> (n: usize)
        ensures
            n == self.position,
    {
        self.position
    }
}

/// One term of a convolution: the entry of the kernel, and the token that it is
/// multiplied with.
#[derive(Debug, Clone, Copy, PartialEq, Eq)]
pub struct Tap {
    /// The entry of the kernel.
    pub entry: usize,
    /// The token.
    pub token: usize,
}

/// The number of kernel entries that reach before the first token, where the
/// convolution ends at token `t`.
pub open spec fn padded(t: nat, d_conv: nat) -> nat {
    if t + 1 < d_conv {
        (d_conv - 1 - t) as nat
    } else {
        0
    }
}

/// The terms of a causal convolution of width `d_conv` that ends at token `t`.
/// Entries of the kernel that reach before the first token have none.
pub fn conv1d_taps(t: usize, d_conv: usize) -> (taps: Vec<Tap>)
    requires
        t < usize::MAX,
    ensures
        taps@.len() == d_conv - padded(t as nat, d_conv as nat),
        forall|j: int|
            0 <= j < taps@.len() ==> {
                &&& (#[trigger] taps@[j]).entry == padded(t as nat, d_conv as nat) + j
                &&& taps@[j].token == t - (d_conv - 1) + taps@[j].entry
            },
{
    let mut taps: Vec<Tap> = Vec::new();
    let mut k: usize = if t + 1 < d_conv {
        d_conv - 1 - t
    } else {
        0
    };
    let ghost first = k;
    while k < d_conv
        invariant
            t < usize::MAX,
            first == padded(t as nat, d_conv as nat),
            first <= k <= d_conv,
            taps@.len() == k - first,
            forall|j: int|
                0 <= j < taps@.len() ==> {
                    &&& (#[trigger] taps@[j]).entry == first + j
                    &&& taps@[j].token == t - (d_conv - 1) + taps@[j].entry
                },
        decreases d_conv - k,
    {
        let back: usize = d_conv - 1 - k;
        taps.push(Tap { entry: k, token: t - back });
        k = k + 1;
    }
    taps
}

/// A convolution sees no token after its own, and the last entry of its kernel
/// always meets its own token.
pub proof fn law_convolution_is_causal(taps: Seq<Tap>, t: nat, d_conv: nat)
    requires
        d_conv > 0,
        taps.len() == d_conv - padded(t, d_conv),
        forall|j: int|
            0 <= j < taps.len() ==> {
                &&& (#[trigger] taps[j]).entry == padded(t, d_conv) + j
                &&& taps[j].token == t - (d_conv - 1) + taps[j].entry
            },
    ensures
        taps.len() > 0,
        taps.last().token == t,
        taps.last().entry == d_conv - 1,
        forall|j: int| 0 <= j < taps.len() ==> (#[trigger] taps[j]).token <= t,
{
    assert(taps.last() == taps[taps.len() - 1]);
}

/// Where the element of a channel at a token stands in a sequence of tokens with
/// `d_inner` channels each.
pub open spec fn channel_place(token: int, d_inner: int, i: int) -> int {
    token * d_inner + i
}

/// One term of a channel's convolution: the places of the kernel's entry and of
/// the input that it is multiplied with.
#[derive(Debug, Clone, Copy, PartialEq, Eq)]
pub struct ConvTerm {
    /// Where the entry stands among the kernels.
    pub weight: usize,
    /// Where the input stands.
    pub x: usize,
}

/// The convolution of one channel at one token.
#[derive(Debug)]
pub struct ChannelConv {
    /// Where the output stands.
    pub output: usize,
    /// The terms; the channel's bias is added to them.
    pub terms: Vec<ConvTerm>,
}

/// Whether a convolution is that of channel `i` at token `t`.
pub open spec fn convolves(c: ChannelConv, t: int, i: int, d_inner: int, d_conv: int) -> bool {
    let skipped = padded(t as nat, d_conv as nat);
    &&& c.output == channel_place(t, d_inner, i)
    &&& c.terms@.len() == d_conv - skipped
    &&& forall|j: int|
        0 <= j < c.terms@.len() ==> {
            &&& (#[trigger] c.terms@[j]).weight == i * d_conv + skipped + j
            &&& c.terms@[j].x == channel_place(t - (d_conv - 1) + skipped + j, d_inner, i)
        }
}

/// Whether inputs, kernels and biases have the lengths that a convolution of
/// `seq_len` tokens with `d_inner` channels demands.
pub fn conv1d_fits(
    x_len: usize,
    weight_len: usize,
    bias_len: usize,
    seq_len: usize,
    d_inner: usize,
    d_conv: usize,
) -> (r: bool)
    ensures
        r == (x_len == seq_len * d_inner && weight_len == d_inner * d_conv && bias_len == d_inner),
{
    is_product(x_len, seq_len, d_inner) && is_product(weight_len, d_inner, d_conv) && bias_len
        == d_inner
}

/// Plans the convolution of channel `i` at token `t`: which entries of the kernels
/// meet which inputs.
pub fn conv1d_channel(t: usize, i: usize, d_inner: usize, d_conv: usize) -> (c: ChannelConv)
    requires
        i < d_inner,
        (t + 1) * d_inner <= usize::MAX,
        d_inner * d_conv <= usize::MAX,
    ensures
        convolves(c, t as int, i as int, d_inner as int, d_conv as int),
{
    proof {
        lemma_channel_fits(t as int, d_inner as int);
        lemma_channel_fits(i as int, d_conv as int);
        assert((i + 1) * d_conv <= d_inner * d_conv) by (nonlinear_arith)
            requires
                i + 1 <= d_inner,
        ;
        assert(t + 1 <= (t + 1) * d_inner) by (nonlinear_arith)
            requires
                d_inner >= 1,
        ;
    }
    let taps = conv1d_taps(t, d_conv);
    let kernel: usize = i * d_conv;
    let ghost skipped = padded(t as nat, d_conv as nat);
    let mut terms: Vec<ConvTerm> = Vec::new();
    let mut j: usize = 0;
    while j < taps.len()
        invariant
            j <= taps@.len(),
            taps@.len() == d_conv - skipped,
            skipped == padded(t as nat, d_conv as nat),
            forall|k: int|
                0 <= k < taps@.len() ==> {
                    &&& (#[trigger] taps@[k]).entry == skipped + k
                    &&& taps@[k].token == t - (d_conv - 1) + taps@[k].entry
                },
            i < d_inner,
            kernel == i * d_conv,
            kernel + d_conv <= usize::MAX,
            (t + 1) * d_inner <= usize::MAX,
            terms@.len() == j,
            forall|k: int|
                0 <= k < terms@.len() ==> {
                    &&& (#[trigger] terms@[k]).weight == i * d_conv + skipped + k
                    &&& terms@[k].x == channel_place(
                        t - (d_conv - 1) + skipped + k,
                        d_inner as int,
                        i as int,
                    )
                },
        decreases taps@.len() - j,
    {
        let tap = taps[j];
        proof {
            assert(tap == taps@[j as int]);
            lemma_channel_fits(tap.token as int, d_inner as int);
            assert((tap.token + 1) * d_inner <= (t + 1) * d_inner) by (nonlinear_arith)
                requires
                    tap.token <= t,
            ;
        }
        terms.push(ConvTerm { weight: kernel + tap.entry, x: tap.token * d_inner + i });
        j = j + 1;
    }
    ChannelConv { output: t * d_inner + i, terms }
}

/// Elements of a token lie between its first and the next token's first.
proof fn lemma_channel_fits(token: int, d_inner: int)
    requires
        0 <= token,
        0 <= d_inner,
    ensures
        0 <= token * d_inner,
        (token + 1) * d_inner == token * d_inner + d_inner,
{
    assert(0 <= token * d_inner) by (nonlinear_arith)
        requires
            0 <= token,
            0 <= d_inner,
    ;
    assert((token + 1) * d_inner == token * d_inner + d_inner) by (nonlinear_arith);
}

/// A convolution is causal and depthwise: of the inputs it reads only its own
/// channel, at its own token and at most `d_conv - 1` tokens before, so that two
/// sequences that agree there have the same terms; of the kernels it reads only
/// its own channel's.
pub proof fn law_convolution_is_depthwise(
    c: ChannelConv,
    t: int,
    i: int,
    d_inner: int,
    d_conv: int,
    a: Seq<u32>,
    b: Seq<u32>,
    j: int,
)
    requires
        0 <= t,
        0 <= i < d_inner,
        0 <= d_conv,
        convolves(c, t, i, d_inner, d_conv),
        forall|token: int|
            0 <= token && t + 1 - d_conv <= token <= t ==> a[#[trigger] channel_place(
                token,
                d_inner,
                i,
            )] == b[channel_place(token, d_inner, i)],
        0 <= j < c.terms@.len(),
    ensures
        a[c.terms@[j].x as int] == b[c.terms@[j].x as int],
        c.terms@[j].x as int % d_inner == i,
        c.terms@[j].x <= c.output,
        i * d_conv <= c.terms@[j].weight < (i + 1) * d_conv,
{
    let skipped = padded(t as nat, d_conv as nat) as int;
    let token = t - (d_conv - 1) + skipped + j;
    assert(c.terms@[j].x == channel_place(token, d_inner, i));
    assert(token * d_inner <= t * d_inner) by (nonlinear_arith)
        requires
            token <= t,
            d_inner > 0,
    ;
    assert((i + 1) * d_conv == i * d_conv + d_conv) by (nonlinear_arith);
    assert(d_inner * token == token * d_inner) by (nonlinear_arith);
    lemma_fundamental_div_mod_converse(c.terms@[j].x as int, d_inner, token, i);
}

/// One term of a channel's scan at a token: the places of the state and of the
/// factors. The decay rate stands where the state stands.
#[derive(Debug, Clone, Copy, PartialEq, Eq)]
pub struct ScanTerm {
    /// Where the state stands, and its decay rate.
    pub state: usize,
    /// Where the input factor stands, and the output factor.
    pub factor: usize,
}

/// The scan of one channel at one token.
#[derive(Debug)]
pub struct ChannelScan {
    /// The channel, which is the place of its factor of the input in the output.
    pub channel: usize,
    /// Where the input stands, the time step, and the output.
    pub place: usize,
    /// The terms, one for each state of the channel.
    pub terms: Vec<ScanTerm>,
}

/// Whether a scan is that of channel `i` at token `t`.
pub open spec fn scans(c: ChannelScan, t: int, i: int, d_inner: int, d_state: int) -> bool {
    &&& c.channel == i
    &&& c.place == channel_place(t, d_inner, i)
    &&& c.terms@.len() == d_state
    &&& forall|s: int|
        0 <= s < c.terms@.len() ==> {
            &&& (#[trigger] c.terms@[s]).state == channel_place(s, d_inner, i)
            &&& c.terms@[s].factor == t * d_state + s
        }
}

/// Plans the scan of channel `i` at token `t`.
pub fn scan_channel(t: usize, i: usize, d_inner: usize, d_state: usize) -> (c: ChannelScan)
    requires
        i < d_inner,
        (t + 1) * d_inner <= usize::MAX,
        (t + 1) * d_state <= usize::MAX,
        d_state * d_inner <= usize::MAX,
    ensures
        scans(c, t as int, i as int, d_inner as int, d_state as int),
{
    proof {
        lemma_channel_fits(t as int, d_inner as int);
        lemma_channel_fits(t as int, d_state as int);
    }
    let first: usize = t * d_state;
    let mut terms: Vec<ScanTerm> = Vec::new();
    let mut s: usize = 0;
    while s < d_state
        invariant
            s <= d_state,
            i < d_inner,
            d_state * d_inner <= usize::MAX,
            first == t * d_state,
            first + d_state <= usize::MAX,
            terms@.len() == s,
            forall|k: int|
                0 <= k < terms@.len() ==> {
                    &&& (#[trigger] terms@[k]).state == channel_place(k, d_inner as int, i as int)
                    &&& terms@[k].factor == t * d_state + k
                },
        decreases d_state - s,
    {
        proof {
            lemma_channel_fits(s as int, d_inner as int);
            assert((s + 1) * d_inner <= d_state * d_inner) by (nonlinear_arith)
                requires
                    s + 1 <= d_state,
            ;
        }
        terms.push(ScanTerm { state: s * d_inner + i, factor: first + s });
        s = s + 1;
    }
    ChannelScan { channel: i, place: t * d_inner + i, terms }
}

/// Whether scans are those of a sequence: token by token, and at each token channel
/// by channel.
pub open spec fn scans_sequence(
    plan: Seq<ChannelScan>,
    seq_len: int,
    d_inner: int,
    d_state: int,
) -> bool {
    &&& plan.len() == seq_len * d_inner
    &&& forall|k: int|
        0 <= k < plan.len() ==> scans(
            #[trigger] plan[k],
            k / d_inner,
            k % d_inner,
            d_inner,
            d_state,
        )
}

/// Plans the scan of a sequence. Tokens are scanned in order, so that each finds the
/// states as the one before left them.
pub fn selective_scan_sequential(seq_len: usize, d_inner: usize, d_state: usize) -> (plan: Vec<
    ChannelScan,
>)
    requires
        seq_len * d_inner <= usize::MAX,
        seq_len * d_state <= usize::MAX,
        d_state * d_inner <= usize::MAX,
    ensures
        scans_sequence(plan@, seq_len as int, d_inner as int, d_state as int),
{
    let mut plan: Vec<ChannelScan> = Vec::new();
    if d_inner == 0 {
        assert(seq_len * 0 == 0) by (nonlinear_arith);
        return plan;
    }
    let mut t: usize = 0;
    assert(0 * d_inner == 0) by (nonlinear_arith);
    while t < seq_len
        invariant
            t <= seq_len,
            d_inner > 0,
            seq_len * d_inner <= usize::MAX,
            seq_len * d_state <= usize::MAX,
            d_state * d_inner <= usize::MAX,
            scans_sequence(plan@, t as int, d_inner as int, d_state as int),
        decreases seq_len - t,
    {
        proof {
            assert((t + 1) * d_inner <= seq_len * d_inner) by (nonlinear_arith)
                requires
                    t + 1 <= seq_len,
            ;
            assert((t + 1) * d_state <= seq_len * d_state) by (nonlinear_arith)
                requires
                    t + 1 <= seq_len,
            ;
            lemma_channel_fits(t as int, d_inner as int);
        }
        let mut i: usize = 0;
        while i < d_inner
            invariant
                i <= d_inner,
                d_inner > 0,
                t < seq_len,
                (t + 1) * d_inner <= usize::MAX,
                (t + 1) * d_state <= usize::MAX,
                d_state * d_inner <= usize::MAX,
                plan@.len() == t * d_inner + i,
                forall|k: int|
                    0 <= k < plan@.len() ==> scans(
                        #[trigger] plan@[k],
                        k / d_inner as int,
                        k % d_inner as int,
                        d_inner as int,
                        d_state as int,
                    ),
            decreases d_inner - i,
        {
            proof {
                lemma_fundamental_div_mod_converse(
                    t * d_inner + i,
                    d_inner as int,
                    t as int,
                    i as int,
                );
            }
            plan.push(scan_channel(t, i, d_inner, d_state));
            i = i + 1;
        }
        t = t + 1;
    }
    plan
}

/// A sequence that is cut in two is scanned as the parts in a row: first the scans of
/// the first part, then those of the second, each on the same states, with inputs and
/// factors that stand as many tokens later as the first part has.
pub proof fn law_cut_sequence_is_scanned_in_a_row(
    whole: Seq<ChannelScan>,
    first: Seq<ChannelScan>,
    second: Seq<ChannelScan>,
    m: int,
    n: int,
    d_inner: int,
    d_state: int,
    k: int,
    s: int,
)
    requires
        0 <= m,
        0 <= n,
        0 < d_inner,
        0 <= s < d_state,
        scans_sequence(whole, m + n, d_inner, d_state),
        scans_sequence(first, m, d_inner, d_state),
        scans_sequence(second, n, d_inner, d_state),
    ensures
        whole.len() == first.len() + second.len(),
        0 <= k < first.len() ==> {
            &&& whole[k].channel == first[k].channel
            &&& whole[k].place == first[k].place
            &&& whole[k].terms@.len() == first[k].terms@.len()
            &&& whole[k].terms@[s] == first[k].terms@[s]
        },
        0 <= k < second.len() ==> {
            &&& whole[first.len() + k].channel == second[k].channel
            &&& whole[first.len() + k].place == second[k].place + m * d_inner
            &&& whole[first.len() + k].terms@.len() == second[k].terms@.len()
            &&& whole[first.len() + k].terms@[s].state == second[k].terms@[s].state
            &&& whole[first.len() + k].terms@[s].factor == second[k].terms@[s].factor + m * d_state
        },
{
    assert((m + n) * d_inner == m * d_inner + n * d_inner) by (nonlinear_arith);
    if 0 <= k < first.len() {
        assert(n * d_inner >= 0) by (nonlinear_arith)
            requires
                n >= 0,
                d_inner > 0,
        ;
        assert(scans(whole[k], k / d_inner, k % d_inner, d_inner, d_state));
        assert(scans(first[k], k / d_inner, k % d_inner, d_inner, d_state));
        assert(whole[k].terms@[s].state == first[k].terms@[s].state);
        assert(whole[k].terms@[s].factor == first[k].terms@[s].factor);
    }
    if 0 <= k < second.len() {
        let t = k / d_inner;
        let i = k % d_inner;
        lemma_fundamental_div_mod(k, d_inner);
        assert(d_inner * t == t * d_inner) by (nonlinear_arith);
        assert((m + t) * d_inner == m * d_inner + t * d_inner) by (nonlinear_arith);
        assert((m + t) * d_state == m * d_state + t * d_state) by (nonlinear_arith);
        lemma_fundamental_div_mod_converse(first.len() + k, d_inner, m + t, i);
        assert(m * d_inner >= 0) by (nonlinear_arith)
            requires
                m >= 0,
                d_inner > 0,
        ;
        assert(scans(whole[first.len() + k], m + t, i, d_inner, d_state));
        assert(scans(second[k], t, i, d_inner, d_state));
        assert(whole[first.len() + k].terms@[s].state == second[k].terms@[s].state);
    }
}

/// Channels are scanned independently: no state belongs to two channels, and a
/// channel has as many states at every token, at the same places.
pub proof fn law_scan_channels_are_disjoint(
    a: ChannelScan,
    b: ChannelScan,
    t: int,
    u: int,
    i: int,
    k: int,
    d_inner: int,
    d_state: int,
    r: int,
    s: int,
)
    requires
        0 <= i < d_inner,
        0 <= k < d_inner,
        scans(a, t, i, d_inner, d_state),
        scans(b, u, k, d_inner, d_state),
        0 <= r < d_state,
        0 <= s < d_state,
    ensures
        a.terms@[r].state == b.terms@[s].state <==> i == k && r == s,
{
    assert(a.terms@[r].state == channel_place(r, d_inner, i));
    assert(b.terms@[s].state == channel_place(s, d_inner, k));
    assert(d_inner * r == r * d_inner && d_inner * s == s * d_inner) by (nonlinear_arith);
    lemma_fundamental_div_mod_converse(a.terms@[r].state as int, d_inner, r, i);
    lemma_fundamental_div_mod_converse(b.terms@[s].state as int, d_inner, s, k);
}

/// A loaded model and its recurrent state.
#[derive(Debug)]
pub struct Mamba2Model {
    /// The configuration.
    pub config: Mamba2Config,
    /// The embedding table, one row for each token.
    pub token_embd: Vec<u32>,
    /// The layers.
    pub layers: Vec<Mamba2LayerWeights>,
    /// Norm before the output projection.
    pub output_norm: RmsNorm,
    /// Output projection, one row for each token.
    pub lm_head: Vec<u32>,
    /// The recurrent state.
    pub state: Mamba2SequenceState,
}

impl Mamba2Model {
    /// Whether only the recurrent state may differ from another model.
    pub open spec fn same_weights(&self, other: &Mamba2Model) -> bool {
        &&& self.config == other.config
        &&& self.token_embd == other.token_embd
        &&& self.layers == other.layers
        &&& self.output_norm == other.output_norm
        &&& self.lm_head == other.lm_head
    }

    /// A model of given weights, before the first token.
    pub fn new(
        config: Mamba2Config,
        token_embd: Vec<u32>,
        layers: Vec<Mamba2LayerWeights>,
        output_norm: RmsNorm,
        lm_head: Vec<u32>,
    ) -> (m: Self)
        requires
            config.inner() <= usize::MAX,
            config.d_state * config.inner() <= usize::MAX,
        ensures
            m.config == config,
            m.token_embd == token_embd,
            m.layers == layers,
            m.output_norm == output_norm,
            m.lm_head == lm_head,
            m.state.is_fresh(config.n_layer as nat, config.d_state * config.inner()),
            m.state.max_seq_len == config.max_seq_len,
    {
        let d_inner: usize = config.d_inner();
        let state = Mamba2SequenceState::new(
            config.n_layer,
            config.d_state,
            d_inner,
            config.max_seq_len,
        );
        Mamba2Model { config, token_embd, layers, output_norm, lm_head, state }
    }

    /// Goes back to before the first token.
    pub fn reset_state(&mut self)
        ensures
            final(self).same_weights(old(self)),
            final(self).state.position == 0,
            final(self).state.max_seq_len == old(self).state.max_seq_len,
            final(self).state.layers@.len() == old(self).state.layers@.len(),
            forall|i: int|
                0 <= i < final(self).state.layers@.len() ==> (
                #[trigger] final(self).state.layers@[i])@ == constant(
                    F32_ZERO,
                    old(self).state.layers@[i]@.len() as int,
                ),
    {
        self.state.reset();
    }

    /// A state before the first token, for contexts of another length.
    pub fn allocate_sequence_state(&self, max_context_length: usize) -> (s: Mamba2SequenceState)
        requires
            self.config.inner() <= usize::MAX,
            self.config.d_state * self.config.inner() <= usize::MAX,
        ensures
            s.is_fresh(self.config.n_layer as nat, self.config.d_state * self.config.inner()),
            s.max_seq_len == max_context_length,
    {
        let d_inner: usize = self.config.d_inner();
        Mamba2SequenceState::new(
            self.config.n_layer,
            self.config.d_state,
            d_inner,
            max_context_length,
        )
    }

    /// Whether the embedding table has a row for every token that is run.
    pub open spec fn can_run(&self, tokens: Seq<u32>) -> bool {
        &&& all_have_rows(
            self.token_embd@,
            self.config.d_model as nat,
            tokens.take(known_count(tokens, self.config.vocab_size as nat) as int),
        )
        &&& self.state.position + tokens.len() <= usize::MAX
    }

    /// Whether a run is that of given tokens: it runs the tokens before the first
    /// that is not in the vocabulary, and is refused for that one.
    pub open spec fn runs(&self, run: PartialPass, tokens: Seq<u32>) -> bool {
        let n = known_count(tokens, self.config.vocab_size as nat);
        &&& run.pass.begins(
            Order::TokenByToken,
            self.config.n_layer as nat,
            self.state.position as nat,
            self.token_embd@,
            self.config.d_model as nat,
            tokens.take(n as int),
        )
        &&& match run.refusal {
            None => n == tokens.len(),
            Some(e) => n < tokens.len() && e@ == (ArchErrorView::InvalidConfig {
                detail: out_of_range_text(
                    tokens[n as int] as nat,
                    self.config.vocab_size as nat,
                ),
            }),
        }
    }

    fn begin(&self, tokens: &Vec<u32>, empty: &str) -> (r: ArchResult<PartialPass>)
        requires
            self.can_run(tokens@),
        ensures
            match r {
                Ok(run) => tokens@.len() > 0 && self.runs(run, tokens@),
                Err(e) => tokens@.len() == 0 && e@ == (ArchErrorView::InvalidConfig {
                    detail: empty@,
                }),
            },
    {
        if tokens.is_empty() {
            return Err(invalid_config(empty));
        }
        let vocab: usize = self.config.vocab_size;
        let n: usize = count_known(tokens, vocab);
        proof {
            lemma_known_count(tokens@, vocab as nat);
        }
        let known = copied(tokens, 0, n);
        assert(known@ =~= tokens@.take(n as int));
        let refusal: Option<ArchError> = if n < tokens.len() {
            Some(out_of_range(tokens[n], vocab))
        } else {
            None
        };
        let states: Vec<u32> = match embedding_rows(&self.token_embd, self.config.d_model, &known) {
            Some(v) => v,
            None => Vec::new(),
        };
        let shape = PassShape {
            order: Order::TokenByToken,
            layers: self.config.n_layer,
            tokens: n,
            start: self.state.position,
        };
        Ok(PartialPass { pass: Pass { shape, states }, refusal })
    }

    /// Begins a run for the logits after the last token.
    pub fn forward(&self, tokens: &Vec<u32>) -> (r: ArchResult<PartialPass>)
        requires
            self.can_run(tokens@),
        ensures
            match r {
                Ok(run) => tokens@.len() > 0 && self.runs(run, tokens@),
                Err(e) => tokens@.len() == 0 && e@ == (ArchErrorView::InvalidConfig {
                    detail: "forward: empty token sequence"@,
                }),
            },
    {
        self.begin(tokens, "forward: empty token sequence")
    }

    /// Begins a run for the embedding of the last token.
    pub fn embed(&self, tokens: &Vec<u32>) -> (r: ArchResult<PartialPass>)
        requires
            self.can_run(tokens@),
        ensures
            match r {
                Ok(run) => tokens@.len() > 0 && self.runs(run, tokens@),
                Err(e) => tokens@.len() == 0 && e@ == (ArchErrorView::InvalidConfig {
                    detail: "embed: empty token sequence"@,
                }),
            },
    {
        self.begin(tokens, "embed: empty token sequence")
    }

    /// Counts a token that has been run.
    pub fn advance(&mut self)
        requires
            old(self).state.position < usize::MAX,
        ensures
            final(self).same_weights(old(self)),
            final(self).state.layers == old(self).state.layers,
            final(self).state.position == old(self).state.position + 1,
            final(self).state.max_seq_len == old(self).state.max_seq_len,
    {
        self.state.advance();
    }

    /// Takes gating values and inputs out of the output of their projection.
    pub fn split_gate(&self, fused: &Vec<u32>) -> (r: (Vec<u32>, Vec<u32>))
        requires
            fused@.len() == 2 * self.config.inner(),
        ensures
            r.0@ == fused@.subrange(0, self.config.inner()),
            r.1@ == fused@.subrange(self.config.inner(), 2 * self.config.inner()),
            r.0@ + r.1@ == fused@,
    {
        let total: usize = fused.len();
        proof {
            assert(self.config.inner() >= 0) by (nonlinear_arith)
                requires
                    self.config.inner() == self.config.d_model * self.config.expand,
            ;
        }
        let d_inner: usize = self.config.d_inner();
        let gate = copied(fused, 0, d_inner);
        let input = copied(fused, d_inner, total);
        assert(gate@ + input@ =~= fused@);
        (gate, input)
    }

    /// Where the rows of the output projection begin, one for each logit.
    pub fn logit_rows(&self) -> (rows: Vec<usize>)
        requires
            self.config.vocab_size * self.config.d_model <= self.lm_head@.len(),
        ensures
            rows@.len() == self.config.vocab_size,
            forall|v: int|
                0 <= v < rows@.len() ==> {
                    &&& #[trigger] rows@[v] == v * self.config.d_model
                    &&& rows@[v] + self.config.d_model <= self.lm_head@.len()
                },
    {
        row_starts(self.config.vocab_size, self.config.d_model, self.lm_head.len())
    }

    /// Number of tokens in the vocabulary: the length of the logits.
    pub fn vocab_size(&self) -> (n: usize)
        ensures
            n == self.config.vocab_size,
    {
        self.config.vocab_size
    }

    /// Greatest number of tokens in a context.
    pub fn max_context_length(&self) -> (n: usize)
        ensures
            n == self.config.max_seq_len,
    {
        self.config.max_seq_len
    }

    /// Size of a hidden state: the length of an embedding.
    pub fn hidden_size(&self) -> (n: usize)
        ensures
            n == self.config.d_model,
    {
        self.config.d_model
    }
}

/// The failure of a layer in a run for logits.
pub fn block_failed(layer: usize, message: &str) -> (e: ArchError)
    ensures
        e@ == (ArchErrorView::ForwardPassError {
            layer,
            message: "Mamba-2 block"@ + ": "@ + message@,
        }),
{
    layer_failed(layer, "Mamba-2 block", message)
}

/// The failure of a layer in a run for an embedding.
pub fn embed_block_failed(layer: usize, message: &str) -> (e: ArchError)
    ensures
        e@ == (ArchErrorView::ForwardPassError {
            layer,
            message: "Mamba-2 block (embed)"@ + ": "@ + message@,
        }),
{
    layer_failed(layer, "Mamba-2 block (embed)", message)
}

/// A layer whose weights are zero and whose norm scales by one.
pub fn make_zero_mamba2_layer(cfg: &Mamba2Config) -> (l: Mamba2LayerWeights)
    requires
        cfg.fits(),
    ensures
        l.w_in_z@ == constant(F32_ZERO, 2 * cfg.inner() * cfg.d_model),
        l.w_conv@ == constant(F32_ZERO, cfg.inner() * cfg.d_conv),
        l.b_conv@ == constant(F32_ZERO, cfg.inner()),
        l.w_b@ == constant(F32_ZERO, cfg.d_state * cfg.inner()),
        l.w_c@ == constant(F32_ZERO, cfg.d_state * cfg.inner()),
        l.w_delta@ == constant(F32_ZERO, cfg.inner() * cfg.inner()),
        l.b_delta@ == constant(F32_ZERO, cfg.inner()),
        l.log_a@ == constant(F32_ZERO, cfg.d_state * cfg.inner()),
        l.d_skip@ == constant(F32_ZERO, cfg.inner()),
        l.w_out@ == constant(F32_ZERO, cfg.d_model * cfg.inner()),
        is_unit_norm(l.norm, cfg.d_model as int),
{
    let d_model: usize = cfg.d_model;
    let d_inner: usize = cfg.d_inner();
    let d_state: usize = cfg.d_state;
    let d_conv: usize = cfg.d_conv;
    proof {
        lemma_double_fits(d_inner as int, d_model as int, cfg.expand as int);
        assert(d_model * d_inner == d_inner * d_model && d_inner * d_model >= 0 && 2 * d_inner
            * d_model == 2 * (d_inner * d_model)) by (nonlinear_arith);
    }
    Mamba2LayerWeights {
        w_in_z: filled(F32_ZERO, 2 * d_inner * d_model),
        w_conv: filled(F32_ZERO, d_inner * d_conv),
        b_conv: filled(F32_ZERO, d_inner),
        w_b: filled(F32_ZERO, d_state * d_inner),
        w_c: filled(F32_ZERO, d_state * d_inner),
        w_delta: filled(F32_ZERO, d_inner * d_inner),
        b_delta: filled(F32_ZERO, d_inner),
        log_a: filled(F32_ZERO, d_state * d_inner),
        d_skip: filled(F32_ZERO, d_inner),
        w_out: filled(F32_ZERO, d_model * d_inner),
        norm: unit_norm(d_model),
    }
}

/// A model of given weights.
pub fn build_mamba2_model(
    config: Mamba2Config,
    token_embd: Vec<u32>,
    layers: Vec<Mamba2LayerWeights>,
    output_norm: RmsNorm,
    lm_head: Vec<u32>,
) -> (m: Mamba2Model)
    requires
        config.inner() <= usize::MAX,
        config.d_state * config.inner() <= usize::MAX,
    ensures
        m.config == config,
        m.token_embd == token_embd,
        m.layers == layers,
        m.output_norm == output_norm,
        m.lm_head == lm_head,
        m.state.is_fresh(config.n_layer as nat, config.d_state * config.inner()),
        m.state.max_seq_len == config.max_seq_len,
{
    Mamba2Model::new(config, token_embd, layers, output_norm, lm_head)
}

/// What is said of a tensor that cannot be decoded.
pub open spec fn decode_text(t: TensorRecord) -> Seq<char> {
    match t.outcome() {
        KernelOutcome::Unsupported { format, error } => "get_kernel("@ + format@ + "): "@ + error@,
        KernelOutcome::Blocks(blocks) => "dequant_block: "@ + blocks@.last()->Err_0@,
    }
}

/// Why the elements of a tensor cannot be had, if they cannot. A tensor without
/// bytes is a missing tensor, and the failure of a kernel is one of the
/// configuration.
pub open spec fn ssm_failure(m: TensorMap, name: Seq<char>) -> Option<ArchErrorView> {
    if bytes_failure(m, name) is Some {
        Some(ArchErrorView::MissingTensor { name })
    } else {
        match m[name].decode() {
            Ok(_) => None,
            Err(_) => Some(ArchErrorView::InvalidConfig { detail: decode_text(m[name]) }),
        }
    }
}

/// The first of two tensors whose elements can be had, or else the second.
pub open spec fn either_tensor(m: TensorMap, a: Seq<char>, b: Seq<char>) -> Seq<char> {
    if ssm_failure(m, a) is None {
        a
    } else {
        b
    }
}

/// The elements of a tensor, or zeros where they cannot be had.
pub open spec fn values_or_zeros(m: TensorMap, name: Seq<char>, n: int) -> Seq<u32> {
    if ssm_failure(m, name) is None {
        values_of(m, name)
    } else {
        constant(F32_ZERO, n)
    }
}

fn load_ssm(model: &GgufModel, name: &str) -> (r: ArchResult<Vec<u32>>)
    ensures
        follows(r, ssm_failure(model.tensors@, name@)),
        r matches Ok(v) ==> v@ == values_of(model.tensors@, name@),
{
    match model.tensors.get(name) {
        Ok(t) => {
            if t.data().is_none() {
                return Err(missing_tensor(name));
            }
            match dequant_to_f32(t) {
                Ok(v) => Ok(v),
                Err(e) => Err(decode_failed(t, e)),
            }
        },
        Err(_) => Err(missing_tensor(name)),
    }
}

fn decode_failed(t: &TensorRecord, error: ArchError) -> (e: ArchError)
    requires
        t.bytes() is Some,
        t.decode() == Err::<Seq<u32>, ArchErrorView>(error@),
    ensures
        e@ == (ArchErrorView::InvalidConfig { detail: decode_text(*t) }),
{
    match t.kernel() {
        KernelOutcome::Unsupported { format, error } => {
            let s = joined("get_kernel(", format.as_str()).concat("): ").concat(
                error.message.as_str(),
            );
            ArchError::InvalidConfig { detail: s }
        },
        KernelOutcome::Blocks(blocks) => match error {
            ArchError::Quant(q) => ArchError::InvalidConfig {
                detail: joined("dequant_block: ", q.message.as_str()),
            },
            other => other,
        },
    }
}

fn load_ssm_or(model: &GgufModel, a: &str, b: &str) -> (r: ArchResult<Vec<u32>>)
    ensures
        follows(r, ssm_failure(model.tensors@, either_tensor(model.tensors@, a@, b@))),
        r matches Ok(v) ==> v@ == values_of(
            model.tensors@,
            either_tensor(model.tensors@, a@, b@),
        ),
{
    match load_ssm(model, a) {
        Ok(v) => Ok(v),
        Err(_) => load_ssm(model, b),
    }
}

fn load_ssm_or_zeros(model: &GgufModel, name: &str, n: usize) -> (v: Vec<u32>)
    ensures
        v@ == values_or_zeros(model.tensors@, name@, n as int),
{
    match load_ssm(model, name) {
        Ok(v) => v,
        Err(_) => filled(F32_ZERO, n),
    }
}

/// The tensor of a block's input factors.
pub open spec fn b_name(m: TensorMap, i: nat) -> Seq<char> {
    either_tensor(m, block_tensor(i, ".ssm_B.weight"@), block_tensor(i, ".ssm_x.weight"@))
}

/// The tensor of a block's output factors.
pub open spec fn c_name(m: TensorMap, i: nat) -> Seq<char> {
    either_tensor(m, block_tensor(i, ".ssm_C.weight"@), block_tensor(i, ".ssm_x.weight"@))
}

/// The tensor of a block's decay rates.
pub open spec fn a_name(m: TensorMap, i: nat) -> Seq<char> {
    either_tensor(m, block_tensor(i, ".ssm_A_log"@), block_tensor(i, ".ssm_A"@))
}

/// The tensor of a block's norm.
pub open spec fn norm_name(m: TensorMap, i: nat) -> Seq<char> {
    either_tensor(m, block_tensor(i, ".attn_norm.weight"@), block_tensor(i, ".norm.weight"@))
}

/// What is said of a block whose first projection has another number of elements
/// than it should.
pub open spec fn in_text(i: nat, expected: nat, got: nat) -> Seq<char> {
    block_tensor(i, ".ssm_in.weight: expected "@) + decimal(expected) + " elements, got "@
        + decimal(got)
}

/// The failure of a block whose first projection has the wrong length.
pub open spec fn in_failure(m: TensorMap, c: Mamba2Config, i: nat) -> Option<ArchErrorView> {
    let got = values_of(m, block_tensor(i, ".ssm_in.weight"@)).len();
    let expected = 2 * c.inner() * c.d_model;
    if got == expected {
        None
    } else {
        Some(ArchErrorView::InvalidConfig { detail: in_text(i, expected as nat, got) })
    }
}

/// Why block `i` cannot be loaded, if it cannot.
pub open spec fn layer_failure(m: TensorMap, c: Mamba2Config, i: nat) -> Option<ArchErrorView> {
    first_of(
        ssm_failure(m, block_tensor(i, ".ssm_in.weight"@)),
        first_of(
            ssm_failure(m, block_tensor(i, ".ssm_conv1d.weight"@)),
            first_of(
                ssm_failure(m, b_name(m, i)),
                first_of(
                    ssm_failure(m, c_name(m, i)),
                    first_of(
                        ssm_failure(m, block_tensor(i, ".ssm_dt.weight"@)),
                        first_of(
                            ssm_failure(m, a_name(m, i)),
                            first_of(
                                ssm_failure(m, block_tensor(i, ".ssm_D"@)),
                                first_of(
                                    ssm_failure(m, block_tensor(i, ".ssm_out.weight"@)),
                                    first_of(
                                        ssm_failure(m, norm_name(m, i)),
                                        in_failure(m, c, i),
                                    ),
                                ),
                            ),
                        ),
                    ),
                ),
            ),
        ),
    )
}

/// The failures of the blocks.
pub open spec fn layer_failures(m: TensorMap, c: Mamba2Config) -> spec_fn(nat) -> Option<
    ArchErrorView,
> {
    |i: nat| layer_failure(m, c, i)
}

/// The elements of the output projection: those of the embedding table where it
/// has none of its own.
pub open spec fn head_values(m: TensorMap) -> Seq<u32> {
    if ssm_failure(m, "output.weight"@) is None {
        values_of(m, "output.weight"@)
    } else {
        values_of(m, "token_embd.weight"@)
    }
}

/// What is said of an output projection that has another number of elements than
/// it should.
pub open spec fn head_text(expected: nat, vocab: nat, d_model: nat, got: nat) -> Seq<char> {
    "output.weight: expected "@ + decimal(expected) + " elements (vocab="@ + decimal(vocab)
        + " \u{d7} d_model="@ + decimal(d_model) + "), got "@ + decimal(got)
}

/// The failure of an output projection of the wrong length.
pub open spec fn head_failure(m: TensorMap, c: Mamba2Config) -> Option<ArchErrorView> {
    if head_values(m).len() == c.vocab_size * c.d_model {
        None
    } else {
        Some(
            ArchErrorView::InvalidConfig {
                detail: head_text(
                    (c.vocab_size * c.d_model) as nat,
                    c.vocab_size as nat,
                    c.d_model as nat,
                    head_values(m).len(),
                ),
            },
        )
    }
}

/// Why a model cannot be loaded, if it cannot.
pub open spec fn mamba2_failure(m: TensorMap, c: Mamba2Config) -> Option<ArchErrorView> {
    first_of(
        ssm_failure(m, "token_embd.weight"@),
        first_of(
            first_failure(layer_failures(m, c), c.n_layer as nat),
            first_of(ssm_failure(m, "output_norm.weight"@), head_failure(m, c)),
        ),
    )
}

/// Whether a layer holds the tensors of block `i`.
pub open spec fn is_layer(l: Mamba2LayerWeights, m: TensorMap, c: Mamba2Config, i: nat) -> bool {
    &&& l.w_in_z@ == values_of(m, block_tensor(i, ".ssm_in.weight"@))
    &&& l.w_in_z@.len() == 2 * c.inner() * c.d_model
    &&& l.w_conv@ == values_of(m, block_tensor(i, ".ssm_conv1d.weight"@))
    &&& l.b_conv@ == values_or_zeros(m, block_tensor(i, ".ssm_conv1d.bias"@), c.inner())
    &&& l.w_b@ == values_of(m, b_name(m, i))
    &&& l.w_c@ == values_of(m, c_name(m, i))
    &&& l.w_delta@ == values_of(m, block_tensor(i, ".ssm_dt.weight"@))
    &&& l.b_delta@ == values_or_zeros(m, block_tensor(i, ".ssm_dt.bias"@), c.inner())
    &&& l.log_a@ == values_of(m, a_name(m, i))
    &&& l.d_skip@ == values_of(m, block_tensor(i, ".ssm_D"@))
    &&& l.w_out@ == values_of(m, block_tensor(i, ".ssm_out.weight"@))
    &&& l.norm.weight@ == values_of(m, norm_name(m, i))
    &&& l.norm.eps == F32_1E_MINUS_5
}

/// Whether a model holds the tensors of a file, before the first token.
pub open spec fn is_mamba2(model: Mamba2Model, m: TensorMap, c: Mamba2Config) -> bool {
    &&& model.config == c
    &&& model.token_embd@ == values_of(m, "token_embd.weight"@)
    &&& model.layers@.len() == c.n_layer
    &&& forall|i: int|
        0 <= i < model.layers@.len() ==> is_layer(#[trigger] model.layers@[i], m, c, i as nat)
    &&& model.output_norm.weight@ == values_of(m, "output_norm.weight"@)
    &&& model.output_norm.eps == F32_1E_MINUS_5
    &&& model.lm_head@ == head_values(m)
    &&& model.lm_head@.len() == c.vocab_size * c.d_model
    &&& model.state.is_fresh(c.n_layer as nat, c.d_state * c.inner())
    &&& model.state.max_seq_len == c.max_seq_len
}

fn in_failed(i: usize, expected: usize, got: usize) -> (e: ArchError)
    ensures
        e@ == (ArchErrorView::InvalidConfig {
            detail: in_text(i as nat, expected as nat, got as nat),
        }),
{
    let wanted = decimal_string(expected);
    let found = decimal_string(got);
    let s = block_name(i, ".ssm_in.weight: expected ").concat(wanted.as_str()).concat(
        " elements, got ",
    ).concat(found.as_str());
    ArchError::InvalidConfig { detail: s }
}

fn head_failed(expected: usize, vocab: usize, d_model: usize, got: usize) -> (e: ArchError)
    ensures
        e@ == (ArchErrorView::InvalidConfig {
            detail: head_text(expected as nat, vocab as nat, d_model as nat, got as nat),
        }),
{
    let wanted = decimal_string(expected);
    let rows = decimal_string(vocab);
    let width = decimal_string(d_model);
    let found = decimal_string(got);
    let s = joined("output.weight: expected ", wanted.as_str()).concat(
        " elements (vocab=",
    ).concat(rows.as_str()).concat(" \u{d7} d_model=").concat(width.as_str()).concat(
        "), got ",
    ).concat(found.as_str());
    ArchError::InvalidConfig { detail: s }
}

fn load_layer(model: &GgufModel, c: &Mamba2Config, i: usize) -> (r: ArchResult<Mamba2LayerWeights>)
    requires
        c.fits(),
    ensures
        follows(r, layer_failure(model.tensors@, *c, i as nat)),
        r matches Ok(l) ==> is_layer(l, model.tensors@, *c, i as nat),
{
    let d_inner: usize = c.d_inner();
    let w_in_z = load_ssm(model, block_name(i, ".ssm_in.weight").as_str())?;
    let w_conv = load_ssm(model, block_name(i, ".ssm_conv1d.weight").as_str())?;
    let b_conv = load_ssm_or_zeros(model, block_name(i, ".ssm_conv1d.bias").as_str(), d_inner);
    let w_b = load_ssm_or(
        model,
        block_name(i, ".ssm_B.weight").as_str(),
        block_name(i, ".ssm_x.weight").as_str(),
    )?;
    let w_c = load_ssm_or(
        model,
        block_name(i, ".ssm_C.weight").as_str(),
        block_name(i, ".ssm_x.weight").as_str(),
    )?;
    let w_delta = load_ssm(model, block_name(i, ".ssm_dt.weight").as_str())?;
    let b_delta = load_ssm_or_zeros(model, block_name(i, ".ssm_dt.bias").as_str(), d_inner);
    let log_a = load_ssm_or(
        model,
        block_name(i, ".ssm_A_log").as_str(),
        block_name(i, ".ssm_A").as_str(),
    )?;
    let d_skip = load_ssm(model, block_name(i, ".ssm_D").as_str())?;
    let w_out = load_ssm(model, block_name(i, ".ssm_out.weight").as_str())?;
    let norm_weight = load_ssm_or(
        model,
        block_name(i, ".attn_norm.weight").as_str(),
        block_name(i, ".norm.weight").as_str(),
    )?;
    let norm = RmsNorm::new(norm_weight, F32_1E_MINUS_5);
    proof {
        lemma_double_fits(d_inner as int, c.d_model as int, c.expand as int);
    }
    let expected: usize = 2 * d_inner * c.d_model;
    if w_in_z.len() != expected {
        return Err(in_failed(i, expected, w_in_z.len()));
    }
    Ok(
        Mamba2LayerWeights {
            w_in_z,
            w_conv,
            b_conv,
            w_b,
            w_c,
            w_delta,
            b_delta,
            log_a,
            d_skip,
            w_out,
            norm,
        },
    )
}

/// Twice the number of channels fits where the first projection does.
proof fn lemma_double_fits(n: int, m: int, e: int)
    requires
        n == m * e,
        0 <= m,
        0 <= e,
    ensures
        0 <= 2 * n <= 2 * n * m,
{
    assert(n >= 0) by (nonlinear_arith)
        requires
            n == m * e,
            0 <= m,
            0 <= e,
    ;
    if m == 0 {
        assert(n == 0) by (nonlinear_arith)
            requires
                n == m * e,
                m == 0,
        ;
        assert(2 * n * m == 0) by (nonlinear_arith)
            requires
                n == 0,
        ;
    } else {
        assert(2 * n <= 2 * n * m) by (nonlinear_arith)
            requires
                n >= 0,
                m >= 1,
        ;
    }
}

/// Loads a model: its configuration from the metadata, and every tensor by one
/// of its names.
pub fn load_mamba2_from_gguf(model: &GgufModel) -> (r: ArchResult<Mamba2Model>)
    requires
        mamba2_config_of(model.metadata@).fits(),
    ensures
        follows(r, mamba2_failure(model.tensors@, mamba2_config_of(model.metadata@))),
        r matches Ok(x) ==> is_mamba2(x, model.tensors@, mamba2_config_of(model.metadata@)),
{
    let c = Mamba2Config::from_metadata(&model.metadata);
    let token_embd = load_ssm(model, "token_embd.weight")?;
    let ghost failures = layer_failures(model.tensors@, c);
    let mut layers: Vec<Mamba2LayerWeights> = Vec::new();
    let mut i: usize = 0;
    while i < c.n_layer
        invariant
            i <= c.n_layer,
            c.fits(),
            c == mamba2_config_of(model.metadata@),
            failures == layer_failures(model.tensors@, c),
            ssm_failure(model.tensors@, "token_embd.weight"@) is None,
            first_failure(failures, i as nat) is None,
            layers@.len() == i,
            forall|j: int|
                0 <= j < i ==> is_layer(#[trigger] layers@[j], model.tensors@, c, j as nat),
        decreases c.n_layer - i,
    {
        match load_layer(model, &c, i) {
            Ok(l) => {
                layers.push(l);
            },
            Err(e) => {
                proof {
                    lemma_first_failure(failures, i as nat, c.n_layer as nat);
                }
                return Err(e);
            },
        }
        i = i + 1;
    }
    let output_norm_weight = load_ssm(model, "output_norm.weight")?;
    let output_norm = RmsNorm::new(output_norm_weight, F32_1E_MINUS_5);
    let lm_head: Vec<u32> = match load_ssm(model, "output.weight") {
        Ok(v) => v,
        Err(_) => {
            let copy = copied(&token_embd, 0, token_embd.len());
            assert(copy@ =~= token_embd@);
            copy
        },
    };
    let expected: usize = c.vocab_size * c.d_model;
    if lm_head.len() != expected {
        return Err(head_failed(expected, c.vocab_size, c.d_model, lm_head.len()));
    }
    Ok(build_mamba2_model(c, token_embd, layers, output_norm, lm_head))
}

/// A model that was reset is as it was when it was made, whatever it has run,
/// provided that running kept the sizes of its states.
pub proof fn law_reset_is_fresh(made: Mamba2Model, run: Mamba2Model, reset: Mamba2Model, size: int)
    requires
        size >= 0,
        made.state.is_fresh(made.config.n_layer as nat, size),
        run.state.layers@.len() == made.state.layers@.len(),
        forall|i: int|
            0 <= i < run.state.layers@.len() ==> (#[trigger] run.state.layers@[i])@.len() == size,
        reset.state.position == 0,
        reset.state.layers@.len() == run.state.layers@.len(),
        forall|i: int|
            0 <= i < reset.state.layers@.len() ==> (#[trigger] reset.state.layers@[i])@
                == constant(F32_ZERO, run.state.layers@[i]@.len() as int),
    ensures
        reset.state.is_fresh(made.config.n_layer as nat, size),
{
    assert forall|i: int| 0 <= i < reset.state.layers@.len() implies (
    #[trigger] reset.state.layers@[i])@ == constant(F32_ZERO, size) by {
        assert(run.state.layers@[i]@.len() == size);
    }
}

/// In a loaded model every weight is that of the tensor that is named after it:
/// `blk.{i}` and the name of the part for layer `i`, and the bare name for the
/// parts that the layers share. A part with two names is taken under the first
/// where it can be had there. A missing bias is zero, and a missing output
/// projection is the embedding table.
#[verifier::rlimit(40)]
pub proof fn law_tensors_are_where_their_names_say(
    model: Mamba2Model,
    m: TensorMap,
    c: Mamba2Config,
    i: int,
)
    requires
        is_mamba2(model, m, c),
        0 <= i < model.layers@.len(),
    ensures
        model.layers@[i].w_in_z@
            == m["blk."@ + decimal(i as nat) + ".ssm_in.weight"@].decode()->Ok_0,
        model.layers@[i].w_conv@
            == m["blk."@ + decimal(i as nat) + ".ssm_conv1d.weight"@].decode()->Ok_0,
        model.layers@[i].w_delta@
            == m["blk."@ + decimal(i as nat) + ".ssm_dt.weight"@].decode()->Ok_0,
        model.layers@[i].d_skip@ == m["blk."@ + decimal(i as nat) + ".ssm_D"@].decode()->Ok_0,
        model.layers@[i].w_out@
            == m["blk."@ + decimal(i as nat) + ".ssm_out.weight"@].decode()->Ok_0,
        m.contains_key("blk."@ + decimal(i as nat) + ".ssm_B.weight"@)
            && m["blk."@ + decimal(i as nat) + ".ssm_B.weight"@].bytes() is Some
            && m["blk."@ + decimal(i as nat) + ".ssm_B.weight"@].decode() is Ok
            ==> model.layers@[i].w_b@
            == m["blk."@ + decimal(i as nat) + ".ssm_B.weight"@].decode()->Ok_0,
        !(m.contains_key("blk."@ + decimal(i as nat) + ".ssm_B.weight"@)
            && m["blk."@ + decimal(i as nat) + ".ssm_B.weight"@].bytes() is Some
            && m["blk."@ + decimal(i as nat) + ".ssm_B.weight"@].decode() is Ok)
            ==> model.layers@[i].w_b@
            == m["blk."@ + decimal(i as nat) + ".ssm_x.weight"@].decode()->Ok_0,
        m.contains_key("blk."@ + decimal(i as nat) + ".ssm_C.weight"@)
            && m["blk."@ + decimal(i as nat) + ".ssm_C.weight"@].bytes() is Some
            && m["blk."@ + decimal(i as nat) + ".ssm_C.weight"@].decode() is Ok
            ==> model.layers@[i].w_c@
            == m["blk."@ + decimal(i as nat) + ".ssm_C.weight"@].decode()->Ok_0,
        !(m.contains_key("blk."@ + decimal(i as nat) + ".ssm_C.weight"@)
            && m["blk."@ + decimal(i as nat) + ".ssm_C.weight"@].bytes() is Some
            && m["blk."@ + decimal(i as nat) + ".ssm_C.weight"@].decode() is Ok)
            ==> model.layers@[i].w_c@
            == m["blk."@ + decimal(i as nat) + ".ssm_x.weight"@].decode()->Ok_0,
        m.contains_key("blk."@ + decimal(i as nat) + ".ssm_A_log"@)
            && m["blk."@ + decimal(i as nat) + ".ssm_A_log"@].bytes() is Some
            && m["blk."@ + decimal(i as nat) + ".ssm_A_log"@].decode() is Ok
            ==> model.layers@[i].log_a@
            == m["blk."@ + decimal(i as nat) + ".ssm_A_log"@].decode()->Ok_0,
        !(m.contains_key("blk."@ + decimal(i as nat) + ".ssm_A_log"@)
            && m["blk."@ + decimal(i as nat) + ".ssm_A_log"@].bytes() is Some
            && m["blk."@ + decimal(i as nat) + ".ssm_A_log"@].decode() is Ok)
            ==> model.layers@[i].log_a@
            == m["blk."@ + decimal(i as nat) + ".ssm_A"@].decode()->Ok_0,
        m.contains_key("blk."@ + decimal(i as nat) + ".attn_norm.weight"@)
            && m["blk."@ + decimal(i as nat) + ".attn_norm.weight"@].bytes() is Some
            && m["blk."@ + decimal(i as nat) + ".attn_norm.weight"@].decode() is Ok
            ==> model.layers@[i].norm.weight@
            == m["blk."@ + decimal(i as nat) + ".attn_norm.weight"@].decode()->Ok_0,
        !(m.contains_key("blk."@ + decimal(i as nat) + ".attn_norm.weight"@)
            && m["blk."@ + decimal(i as nat) + ".attn_norm.weight"@].bytes() is Some
            && m["blk."@ + decimal(i as nat) + ".attn_norm.weight"@].decode() is Ok)
            ==> model.layers@[i].norm.weight@
            == m["blk."@ + decimal(i as nat) + ".norm.weight"@].decode()->Ok_0,
        m.contains_key("blk."@ + decimal(i as nat) + ".ssm_conv1d.bias"@)
            && m["blk."@ + decimal(i as nat) + ".ssm_conv1d.bias"@].bytes() is Some
            && m["blk."@ + decimal(i as nat) + ".ssm_conv1d.bias"@].decode() is Ok
            ==> model.layers@[i].b_conv@
            == m["blk."@ + decimal(i as nat) + ".ssm_conv1d.bias"@].decode()->Ok_0,
        !(m.contains_key("blk."@ + decimal(i as nat) + ".ssm_conv1d.bias"@)
            && m["blk."@ + decimal(i as nat) + ".ssm_conv1d.bias"@].bytes() is Some
            && m["blk."@ + decimal(i as nat) + ".ssm_conv1d.bias"@].decode() is Ok)
            ==> model.layers@[i].b_conv@ == Seq::new((c.d_model * c.expand) as nat, |k: int| 0u32),
        m.contains_key("blk."@ + decimal(i as nat) + ".ssm_dt.bias"@)
            && m["blk."@ + decimal(i as nat) + ".ssm_dt.bias"@].bytes() is Some
            && m["blk."@ + decimal(i as nat) + ".ssm_dt.bias"@].decode() is Ok
            ==> model.layers@[i].b_delta@
            == m["blk."@ + decimal(i as nat) + ".ssm_dt.bias"@].decode()->Ok_0,
        !(m.contains_key("blk."@ + decimal(i as nat) + ".ssm_dt.bias"@)
            && m["blk."@ + decimal(i as nat) + ".ssm_dt.bias"@].bytes() is Some
            && m["blk."@ + decimal(i as nat) + ".ssm_dt.bias"@].decode() is Ok)
            ==> model.layers@[i].b_delta@ == Seq::new((c.d_model * c.expand) as nat, |k: int| 0u32),
        model.layers@[i].norm.eps == 0x3727_C5AC,
        model.layers@[i].w_in_z@.len() == 2 * (c.d_model * c.expand) * c.d_model,
        model.config == c,
        model.layers@.len() == c.n_layer,
        model.token_embd@ == m["token_embd.weight"@].decode()->Ok_0,
        model.output_norm.weight@ == m["output_norm.weight"@].decode()->Ok_0,
        model.output_norm.eps == 0x3727_C5AC,
        m.contains_key("output.weight"@) && m["output.weight"@].bytes() is Some
            && m["output.weight"@].decode() is Ok
            ==> model.lm_head@ == m["output.weight"@].decode()->Ok_0,
        !(m.contains_key("output.weight"@) && m["output.weight"@].bytes() is Some
            && m["output.weight"@].decode() is Ok)
            ==> model.lm_head@ == m["token_embd.weight"@].decode()->Ok_0,
        model.lm_head@.len() == c.vocab_size * c.d_model,
        model.state.position == 0,
        model.state.max_seq_len == c.max_seq_len,
{
    assert(is_layer(model.layers@[i], m, c, i as nat));
    assert(model.layers@[i].b_conv@ =~= Seq::new((c.d_model * c.expand) as nat, |k: int| 0u32)
        || ssm_failure(m, block_tensor(i as nat, ".ssm_conv1d.bias"@)) is None);
    assert(model.layers@[i].b_delta@ =~= Seq::new((c.d_model * c.expand) as nat, |k: int| 0u32)
        || ssm_failure(m, block_tensor(i as nat, ".ssm_dt.bias"@)) is None);
}

/// At token `t` the kernel's entry `k` meets the token `d_conv - 1 - k` before,
/// for all entries that do not reach before the first token, in order.
pub proof fn law_taps_reach_back_one_by_one(taps: Seq<Tap>, t: nat, d_conv: nat, j: int)
    requires
        d_conv > 0,
        taps.len() == d_conv - padded(t, d_conv),
        forall|j: int|
            0 <= j < taps.len() ==> {
                &&& (#[trigger] taps[j]).entry == padded(t, d_conv) + j
                &&& taps[j].token == t - (d_conv - 1) + taps[j].entry
            },
        0 <= j < taps.len(),
    ensures
        t + 1 >= d_conv ==> taps.len() == d_conv,
        t + 1 < d_conv ==> taps.len() == t + 1,
        taps[taps.len() - 1 - j].entry == d_conv - 1 - j,
        taps[taps.len() - 1 - j].token == t - j,
{
}

/// Channel `i` at token `t` is convolved in place `t * d_inner + i`, from its
/// own inputs of the tokens `t`, `t - 1` and so on, which meet the last entry of
/// its own kernel, the last but one and so on.
pub proof fn law_convolution_in_numbers(
    c: ChannelConv,
    t: int,
    i: int,
    d_inner: int,
    d_conv: int,
    j: int,
)
    requires
        0 <= t,
        0 < d_conv,
        convolves(c, t, i, d_inner, d_conv),
        0 <= j < c.terms@.len(),
    ensures
        c.output == t * d_inner + i,
        t + 1 >= d_conv ==> c.terms@.len() == d_conv,
        t + 1 < d_conv ==> c.terms@.len() == t + 1,
        c.terms@[c.terms@.len() - 1 - j].weight == i * d_conv + d_conv - 1 - j,
        c.terms@[c.terms@.len() - 1 - j].x == (t - j) * d_inner + i,
{
    let k = c.terms@.len() - 1 - j;
    let skipped = padded(t as nat, d_conv as nat);
    assert(c.terms@[k].x == channel_place(t - (d_conv - 1) + skipped + k, d_inner, i));
}

/// The scan of channel `i` at token `t` reads and writes place
/// `t * d_inner + i`; its state `s` stands at `s * d_inner + i`, and the factors
/// of that state at `t * d_state + s`.
pub proof fn law_scan_in_numbers(
    c: ChannelScan,
    t: int,
    i: int,
    d_inner: int,
    d_state: int,
    s: int,
)
    requires
        scans(c, t, i, d_inner, d_state),
        0 <= s < d_state,
    ensures
        c.channel == i,
        c.place == t * d_inner + i,
        c.terms@.len() == d_state,
        c.terms@[s].state == s * d_inner + i,
        c.terms@[s].factor == t * d_state + s,
{
    assert(c.terms@[s].state == channel_place(s, d_inner, i));
}

/// A sequence is scanned token by token, and at each token channel by channel:
/// the scan of channel `i` at token `t` is number `t * d_inner + i`.
pub proof fn law_scan_follows_tokens(
    plan: Seq<ChannelScan>,
    seq_len: int,
    d_inner: int,
    d_state: int,
    t: int,
    i: int,
)
    requires
        scans_sequence(plan, seq_len, d_inner, d_state),
        0 <= t < seq_len,
        0 <= i < d_inner,
    ensures
        plan.len() == seq_len * d_inner,
        t * d_inner + i < plan.len(),
        plan[t * d_inner + i].channel == i,
        plan[t * d_inner + i].place == t * d_inner + i,
        plan[t * d_inner + i].terms@.len() == d_state,
{
    assert(0 <= t * d_inner && t * d_inner + d_inner <= seq_len * d_inner) by (nonlinear_arith)
        requires
            0 <= t,
            t + 1 <= seq_len,
            0 < d_inner,
    ;
    lemma_fundamental_div_mod_converse(t * d_inner + i, d_inner, t, i);
    assert(scans(plan[t * d_inner + i], t, i, d_inner, d_state));
}

/// Every hyperparameter of the family is the value under its own key, or else
/// under that of its forerunner, or else its own default.
#[verifier::rlimit(30)]
pub proof fn law_hyperparameters_have_their_keys(m: MetadataMap)
    ensures
        (meta_u32(m, "mamba2.d_model"@) matches Some(v) ==> mamba2_config_of(m).d_model == v),
        meta_u32(m, "mamba2.d_model"@) is None
            ==> (meta_u32(m, "mamba.d_model"@) matches Some(v)
            ==> mamba2_config_of(m).d_model == v),
        meta_u32(m, "mamba2.d_model"@) is None && meta_u32(m, "mamba.d_model"@) is None
            ==> mamba2_config_of(m).d_model == 128,
        (meta_u32(m, "mamba2.d_state"@) matches Some(v) ==> mamba2_config_of(m).d_state == v),
        meta_u32(m, "mamba2.d_state"@) is None
            ==> (meta_u32(m, "mamba.d_state"@) matches Some(v)
            ==> mamba2_config_of(m).d_state == v),
        meta_u32(m, "mamba2.d_state"@) is None && meta_u32(m, "mamba.d_state"@) is None
            ==> mamba2_config_of(m).d_state == 128,
        (meta_u32(m, "mamba2.d_conv"@) matches Some(v) ==> mamba2_config_of(m).d_conv == v),
        meta_u32(m, "mamba2.d_conv"@) is None
            ==> (meta_u32(m, "mamba.d_conv"@) matches Some(v) ==> mamba2_config_of(m).d_conv == v),
        meta_u32(m, "mamba2.d_conv"@) is None && meta_u32(m, "mamba.d_conv"@) is None
            ==> mamba2_config_of(m).d_conv == 4,
        (meta_u32(m, "mamba2.expand"@) matches Some(v) ==> mamba2_config_of(m).expand == v),
        meta_u32(m, "mamba2.expand"@) is None
            ==> (meta_u32(m, "mamba.expand"@) matches Some(v) ==> mamba2_config_of(m).expand == v),
        meta_u32(m, "mamba2.expand"@) is None && meta_u32(m, "mamba.expand"@) is None
            ==> mamba2_config_of(m).expand == 2,
        (meta_u32(m, "mamba2.n_layer"@) matches Some(v) ==> mamba2_config_of(m).n_layer == v),
        meta_u32(m, "mamba2.n_layer"@) is None
            ==> (meta_u32(m, "mamba.n_layer"@) matches Some(v)
            ==> mamba2_config_of(m).n_layer == v),
        meta_u32(m, "mamba2.n_layer"@) is None && meta_u32(m, "mamba.n_layer"@) is None
            ==> (meta_u32(m, "mamba2.block_count"@) matches Some(v)
            ==> mamba2_config_of(m).n_layer == v),
        meta_u32(m, "mamba2.n_layer"@) is None && meta_u32(m, "mamba.n_layer"@) is None
            && meta_u32(m, "mamba2.block_count"@) is None ==> mamba2_config_of(m).n_layer == 24,
        (meta_u32(m, "mamba2.vocab_size"@) matches Some(v) ==> mamba2_config_of(m).vocab_size == v),
        meta_u32(m, "mamba2.vocab_size"@) is None
            ==> (meta_u32(m, "mamba.vocab_size"@) matches Some(v)
            ==> mamba2_config_of(m).vocab_size == v),
        meta_u32(m, "mamba2.vocab_size"@) is None && meta_u32(m, "mamba.vocab_size"@) is None
            ==> (meta_u32(m, "tokenizer.ggml.tokens.length"@) matches Some(v)
            ==> mamba2_config_of(m).vocab_size == v),
        meta_u32(m, "mamba2.vocab_size"@) is None && meta_u32(m, "mamba.vocab_size"@) is None
            && meta_u32(m, "tokenizer.ggml.tokens.length"@) is None
            ==> mamba2_config_of(m).vocab_size == 32000,
        (meta_u32(m, "mamba2.context_length"@) matches Some(v)
            ==> mamba2_config_of(m).max_seq_len == v),
        meta_u32(m, "mamba2.context_length"@) is None
            ==> (meta_u32(m, "mamba.context_length"@) matches Some(v)
            ==> mamba2_config_of(m).max_seq_len == v),
        meta_u32(m, "mamba2.context_length"@) is None
            && meta_u32(m, "mamba.context_length"@) is None
            ==> mamba2_config_of(m).max_seq_len == 4096,
        mamba2_config_of(m).inner() == mamba2_config_of(m).d_model * mamba2_config_of(m).expand,
{
}

/// The family names its tensors in this order, says which of them a model cannot do
/// without, and describes each.
pub proof fn law_tensors_are_named_in_order(a: Mamba2Architecture)
    ensures
        a.id() == "mamba2"@,
        a.tensors() == mamba2_patterns(),
        mamba2_patterns().len() == 12,
        mamba2_patterns()[0].pattern == "token_embd.weight"@ && mamba2_patterns()[0].required,
        mamba2_patterns()[1].pattern == "output_norm.weight"@ && mamba2_patterns()[1].required,
        mamba2_patterns()[2].pattern == "output.weight"@ && mamba2_patterns()[2].required,
        mamba2_patterns()[3].pattern == "blk.*.ssm_in.weight"@ && mamba2_patterns()[3].required,
        mamba2_patterns()[4].pattern == "blk.*.ssm_conv1d.weight"@ && mamba2_patterns()[4].required,
        mamba2_patterns()[5].pattern == "blk.*.ssm_conv1d.bias"@ && !mamba2_patterns()[5].required,
        mamba2_patterns()[6].pattern == "blk.*.ssm_x.weight"@ && mamba2_patterns()[6].required,
        mamba2_patterns()[7].pattern == "blk.*.ssm_dt.weight"@ && mamba2_patterns()[7].required,
        mamba2_patterns()[8].pattern == "blk.*.ssm_dt.bias"@ && !mamba2_patterns()[8].required,
        mamba2_patterns()[9].pattern == "blk.*.ssm_A"@ && mamba2_patterns()[9].required,
        mamba2_patterns()[10].pattern == "blk.*.ssm_D"@ && mamba2_patterns()[10].required,
        mamba2_patterns()[11].pattern == "blk.*.ssm_out.weight"@ && mamba2_patterns()[11].required,
        mamba2_patterns()[0].description == "Token embedding table"@,
        mamba2_patterns()[1].description == "Final RMSNorm scale"@,
        mamba2_patterns()[2].description == "LM head projection"@,
        mamba2_patterns()[3].description == "SSM combined gate+input projection"@,
        mamba2_patterns()[4].description == "1-D depthwise conv kernel"@,
        mamba2_patterns()[5].description == "1-D depthwise conv bias"@,
        mamba2_patterns()[6].description == "x \u{2192} B, C, \u{394} combined projection"@,
        mamba2_patterns()[7].description == "\u{394} projection weight"@,
        mamba2_patterns()[8].description == "\u{394} projection bias"@,
        mamba2_patterns()[9].description == "Log-parameterised A matrix"@,
        mamba2_patterns()[10].description == "Skip-connection D vector"@,
        mamba2_patterns()[11].description == "SSM output projection"@,
{
}

/// A model loads exactly where every tensor that it needs is there and can be had:
/// those that the layers share, and those of each of its layers.
#[verifier::rlimit(40)]
pub proof fn law_model_loads_where_its_tensors_are_there(m: TensorMap, c: Mamba2Config)
    ensures
        mamba2_failure(m, c) is None <==> {
            &&& ssm_failure(m, "token_embd.weight"@) is None
            &&& forall|i: nat|
                #![trigger decimal(i)]
                i < c.n_layer ==> {
                    &&& ssm_failure(m, "blk."@ + decimal(i) + ".ssm_in.weight"@) is None
                    &&& ssm_failure(m, "blk."@ + decimal(i) + ".ssm_conv1d.weight"@) is None
                    &&& ssm_failure(m, b_name(m, i)) is None
                    &&& ssm_failure(m, c_name(m, i)) is None
                    &&& ssm_failure(m, "blk."@ + decimal(i) + ".ssm_dt.weight"@) is None
                    &&& ssm_failure(m, a_name(m, i)) is None
                    &&& ssm_failure(m, "blk."@ + decimal(i) + ".ssm_D"@) is None
                    &&& ssm_failure(m, "blk."@ + decimal(i) + ".ssm_out.weight"@) is None
                    &&& ssm_failure(m, norm_name(m, i)) is None
                    &&& in_failure(m, c, i) is None
                }
            &&& ssm_failure(m, "output_norm.weight"@) is None
            &&& head_failure(m, c) is None
        },
{
    let f = layer_failures(m, c);
    let n = c.n_layer as nat;
    law_first_failing_part_is_reported(f, n);
    assert forall|i: nat|
        #![trigger decimal(i)]
        i < n && first_failure(f, n) is None implies {
        &&& ssm_failure(m, "blk."@ + decimal(i) + ".ssm_in.weight"@) is None
        &&& ssm_failure(m, "blk."@ + decimal(i) + ".ssm_conv1d.weight"@) is None
        &&& ssm_failure(m, b_name(m, i)) is None
        &&& ssm_failure(m, c_name(m, i)) is None
        &&& ssm_failure(m, "blk."@ + decimal(i) + ".ssm_dt.weight"@) is None
        &&& ssm_failure(m, a_name(m, i)) is None
        &&& ssm_failure(m, "blk."@ + decimal(i) + ".ssm_D"@) is None
        &&& ssm_failure(m, "blk."@ + decimal(i) + ".ssm_out.weight"@) is None
        &&& ssm_failure(m, norm_name(m, i)) is None
        &&& in_failure(m, c, i) is None
    } by {
        assert(f(i) is None);
        assert(layer_failure(m, c, i) is None);
    }
    if forall|i: nat|
        #![trigger decimal(i)]
        i < n ==> {
            &&& ssm_failure(m, "blk."@ + decimal(i) + ".ssm_in.weight"@) is None
            &&& ssm_failure(m, "blk."@ + decimal(i) + ".ssm_conv1d.weight"@) is None
            &&& ssm_failure(m, b_name(m, i)) is None
            &&& ssm_failure(m, c_name(m, i)) is None
            &&& ssm_failure(m, "blk."@ + decimal(i) + ".ssm_dt.weight"@) is None
            &&& ssm_failure(m, a_name(m, i)) is None
            &&& ssm_failure(m, "blk."@ + decimal(i) + ".ssm_D"@) is None
            &&& ssm_failure(m, "blk."@ + decimal(i) + ".ssm_out.weight"@) is None
            &&& ssm_failure(m, norm_name(m, i)) is None
            &&& in_failure(m, c, i) is None
        } {
        assert forall|i: nat| i < n implies (#[trigger] f(i)) is None by {
            let d = decimal(i);
            assert(layer_failure(m, c, i) is None);
        }
    }
}

/// Of the tensors of a block the first that cannot be had, in the order of loading,
/// is the one that is reported.
pub proof fn law_first_missing_part_of_a_block_is_reported(m: TensorMap, c: Mamba2Config, i: nat)
    ensures
        ssm_failure(m, "blk."@ + decimal(i) + ".ssm_in.weight"@) is Some
            ==> layer_failure(m, c, i) == ssm_failure(m, "blk."@ + decimal(i) + ".ssm_in.weight"@),
        ssm_failure(m, "blk."@ + decimal(i) + ".ssm_in.weight"@) is None
            && ssm_failure(m, "blk."@ + decimal(i) + ".ssm_conv1d.weight"@) is Some
            ==> layer_failure(m, c, i)
            == ssm_failure(m, "blk."@ + decimal(i) + ".ssm_conv1d.weight"@),
        ssm_failure(m, "blk."@ + decimal(i) + ".ssm_in.weight"@) is None
            && ssm_failure(m, "blk."@ + decimal(i) + ".ssm_conv1d.weight"@) is None
            && ssm_failure(m, b_name(m, i)) is Some
            ==> layer_failure(m, c, i) == ssm_failure(m, b_name(m, i)),
        ssm_failure(m, "blk."@ + decimal(i) + ".ssm_in.weight"@) is None
            && ssm_failure(m, "blk."@ + decimal(i) + ".ssm_conv1d.weight"@) is None
            && ssm_failure(m, b_name(m, i)) is None && ssm_failure(m, c_name(m, i)) is Some
            ==> layer_failure(m, c, i) == ssm_failure(m, c_name(m, i)),
        ssm_failure(m, "blk."@ + decimal(i) + ".ssm_in.weight"@) is None
            && ssm_failure(m, "blk."@ + decimal(i) + ".ssm_conv1d.weight"@) is None
            && ssm_failure(m, b_name(m, i)) is None && ssm_failure(m, c_name(m, i)) is None
            && ssm_failure(m, "blk."@ + decimal(i) + ".ssm_dt.weight"@) is Some
            ==> layer_failure(m, c, i) == ssm_failure(m, "blk."@ + decimal(i) + ".ssm_dt.weight"@),
        ssm_failure(m, "blk."@ + decimal(i) + ".ssm_in.weight"@) is None
            && ssm_failure(m, "blk."@ + decimal(i) + ".ssm_conv1d.weight"@) is None
            && ssm_failure(m, b_name(m, i)) is None && ssm_failure(m, c_name(m, i)) is None
            && ssm_failure(m, "blk."@ + decimal(i) + ".ssm_dt.weight"@) is None
            && ssm_failure(m, a_name(m, i)) is Some
            ==> layer_failure(m, c, i) == ssm_failure(m, a_name(m, i)),
        ssm_failure(m, "blk."@ + decimal(i) + ".ssm_in.weight"@) is None
            && ssm_failure(m, "blk."@ + decimal(i) + ".ssm_conv1d.weight"@) is None
            && ssm_failure(m, b_name(m, i)) is None && ssm_failure(m, c_name(m, i)) is None
            && ssm_failure(m, "blk."@ + decimal(i) + ".ssm_dt.weight"@) is None
            && ssm_failure(m, a_name(m, i)) is None
            && ssm_failure(m, "blk."@ + decimal(i) + ".ssm_D"@) is Some
            ==> layer_failure(m, c, i) == ssm_failure(m, "blk."@ + decimal(i) + ".ssm_D"@),
        ssm_failure(m, "blk."@ + decimal(i) + ".ssm_in.weight"@) is None
            && ssm_failure(m, "blk."@ + decimal(i) + ".ssm_conv1d.weight"@) is None
            && ssm_failure(m, b_name(m, i)) is None && ssm_failure(m, c_name(m, i)) is None
            && ssm_failure(m, "blk."@ + decimal(i) + ".ssm_dt.weight"@) is None
            && ssm_failure(m, a_name(m, i)) is None
            && ssm_failure(m, "blk."@ + decimal(i) + ".ssm_D"@) is None
            && ssm_failure(m, "blk."@ + decimal(i) + ".ssm_out.weight"@) is Some
            ==> layer_failure(m, c, i) == ssm_failure(m, "blk."@ + decimal(i) + ".ssm_out.weight"@),
        ssm_failure(m, "blk."@ + decimal(i) + ".ssm_in.weight"@) is None
            && ssm_failure(m, "blk."@ + decimal(i) + ".ssm_conv1d.weight"@) is None
            && ssm_failure(m, b_name(m, i)) is None && ssm_failure(m, c_name(m, i)) is None
            && ssm_failure(m, "blk."@ + decimal(i) + ".ssm_dt.weight"@) is None
            && ssm_failure(m, a_name(m, i)) is None
            && ssm_failure(m, "blk."@ + decimal(i) + ".ssm_D"@) is None
            && ssm_failure(m, "blk."@ + decimal(i) + ".ssm_out.weight"@) is None
            && ssm_failure(m, norm_name(m, i)) is Some
            ==> layer_failure(m, c, i) == ssm_failure(m, norm_name(m, i)),
        ssm_failure(m, "blk."@ + decimal(i) + ".ssm_in.weight"@) is None
            && ssm_failure(m, "blk."@ + decimal(i) + ".ssm_conv1d.weight"@) is None
            && ssm_failure(m, b_name(m, i)) is None && ssm_failure(m, c_name(m, i)) is None
            && ssm_failure(m, "blk."@ + decimal(i) + ".ssm_dt.weight"@) is None
            && ssm_failure(m, a_name(m, i)) is None
            && ssm_failure(m, "blk."@ + decimal(i) + ".ssm_D"@) is None
            && ssm_failure(m, "blk."@ + decimal(i) + ".ssm_out.weight"@) is None
            && ssm_failure(m, norm_name(m, i)) is None && in_failure(m, c, i) is Some
            ==> layer_failure(m, c, i) == in_failure(m, c, i),
{
}

/// What is reported of a model is the first failure in the order of loading: the
/// embedding table, then one block after another, then what follows the blocks.
pub proof fn law_blocks_are_loaded_in_order(m: TensorMap, c: Mamba2Config, k: nat)
    ensures
        ssm_failure(m, "token_embd.weight"@) is Some
            ==> mamba2_failure(m, c) == ssm_failure(m, "token_embd.weight"@),
        ssm_failure(m, "token_embd.weight"@) is None && k < c.n_layer
            && layer_failure(m, c, k) is Some && (forall|j: nat|
            #![trigger decimal(j)]
            j < k ==> layer_failure(m, c, j) is None)
                ==> mamba2_failure(m, c) == layer_failure(m, c, k),
{
    let f = layer_failures(m, c);
    law_first_failing_part_is_reported(f, c.n_layer as nat);
    if k < c.n_layer && layer_failure(m, c, k) is Some && (forall|j: nat|
        #![trigger decimal(j)]
        j < k ==> layer_failure(m, c, j) is None) {
        assert(f(k) is Some);
        assert forall|j: nat| j < k implies (#[trigger] f(j)) is None by {
            let d = decimal(j);
        }
    }
}

/// The elements of a tensor can be had exactly where the file has it with its bytes
/// and they can be decoded. A tensor without bytes counts as missing, and a kernel's
/// failure is told in its own words.
pub proof fn law_tensor_without_values_fails(m: TensorMap, name: Seq<char>)
    ensures
        ssm_failure(m, name) is None <==> m.contains_key(name) && m[name].bytes() is Some
            && m[name].decode() is Ok,
        !m.contains_key(name) || m[name].bytes() is None ==> ssm_failure(m, name) == Some(
            ArchErrorView::MissingTensor { name },
        ),
        m.contains_key(name) && m[name].bytes() is Some && m[name].decode() is Err ==> {
            &&& m[name].outcome() matches KernelOutcome::Unsupported { format, error }
                ==> ssm_failure(m, name) == Some(
                ArchErrorView::InvalidConfig {
                    detail: "get_kernel("@ + format@ + "): "@ + error@,
                },
            )
            &&& m[name].outcome() matches KernelOutcome::Blocks(blocks) ==> ssm_failure(m, name)
                == Some(
                ArchErrorView::InvalidConfig { detail: "dequant_block: "@
                    + blocks@.last()->Err_0@ },
            )
        },
{
}

/// A part with two names is taken under the first where it can be had there.
pub proof fn law_first_name_is_preferred(m: TensorMap, i: nat)
    ensures
        ssm_failure(m, "blk."@ + decimal(i) + ".ssm_B.weight"@) is None
            ==> b_name(m, i) == "blk."@ + decimal(i) + ".ssm_B.weight"@,
        ssm_failure(m, "blk."@ + decimal(i) + ".ssm_B.weight"@) is Some
            ==> b_name(m, i) == "blk."@ + decimal(i) + ".ssm_x.weight"@,
        ssm_failure(m, "blk."@ + decimal(i) + ".ssm_C.weight"@) is None
            ==> c_name(m, i) == "blk."@ + decimal(i) + ".ssm_C.weight"@,
        ssm_failure(m, "blk."@ + decimal(i) + ".ssm_C.weight"@) is Some
            ==> c_name(m, i) == "blk."@ + decimal(i) + ".ssm_x.weight"@,
        ssm_failure(m, "blk."@ + decimal(i) + ".ssm_A_log"@) is None
            ==> a_name(m, i) == "blk."@ + decimal(i) + ".ssm_A_log"@,
        ssm_failure(m, "blk."@ + decimal(i) + ".ssm_A_log"@) is Some
            ==> a_name(m, i) == "blk."@ + decimal(i) + ".ssm_A"@,
        ssm_failure(m, "blk."@ + decimal(i) + ".attn_norm.weight"@) is None
            ==> norm_name(m, i) == "blk."@ + decimal(i) + ".attn_norm.weight"@,
        ssm_failure(m, "blk."@ + decimal(i) + ".attn_norm.weight"@) is Some
            ==> norm_name(m, i) == "blk."@ + decimal(i) + ".norm.weight"@,
{
}

/// The first projection of a block needs two rows of the hidden size for each
/// channel, and the output projection one for each token of the vocabulary; a
/// wrong length is told in numbers.
pub proof fn law_lengths_are_checked(m: TensorMap, c: Mamba2Config, i: nat, n: nat, h: nat)
    requires
        n == m["blk."@ + decimal(i) + ".ssm_in.weight"@].decode()->Ok_0.len(),
        ssm_failure(m, "output.weight"@) is None ==> h == m["output.weight"@].decode()->Ok_0.len(),
        ssm_failure(m, "output.weight"@) is Some ==> h
            == m["token_embd.weight"@].decode()->Ok_0.len(),
    ensures
        in_failure(m, c, i) is None <==> n == 2 * (c.d_model * c.expand) * c.d_model,
        in_failure(m, c, i) matches Some(e) ==> e == (ArchErrorView::InvalidConfig {
            detail: "blk."@ + decimal(i) + ".ssm_in.weight: expected "@ + decimal(
                (2 * (c.d_model * c.expand) * c.d_model) as nat,
            ) + " elements, got "@ + decimal(n),
        }),
        head_failure(m, c) is None <==> h == c.vocab_size * c.d_model,
        head_failure(m, c) matches Some(e) ==> e == (ArchErrorView::InvalidConfig {
            detail: "output.weight: expected "@ + decimal((c.vocab_size * c.d_model) as nat)
                + " elements (vocab="@ + decimal(c.vocab_size as nat) + " \u{d7} d_model="@
                    + decimal(
                c.d_model as nat,
            ) + "), got "@ + decimal(h),
        }),
{
}

/// A state before the first token is zero in every layer.
pub proof fn law_fresh_state_is_zero(
    s: Mamba2SequenceState,
    n_layer: nat,
    size: int,
    i: int,
    k: int,
)
    requires
        s.is_fresh(n_layer, size),
        0 <= i < n_layer,
        0 <= k < size,
    ensures
        s.position == 0,
        s.layers@.len() == n_layer,
        s.layers@[i]@.len() == size,
        s.layers@[i]@[k] == 0,
{
    assert(s.layers@[i]@ == constant(F32_ZERO, size));
}

/// A run takes the tokens before the first that is not in the vocabulary, from the
/// position where the state stands, and is refused for that one by its number.
pub proof fn law_run_stops_at_unknown_token(
    model: Mamba2Model,
    run: PartialPass,
    tokens: Seq<u32>,
    k: int,
)
    requires
        model.runs(run, tokens),
        0 <= k < tokens.len(),
        tokens[k] >= model.config.vocab_size,
        forall|j: int| 0 <= j < k ==> (#[trigger] tokens[j]) < model.config.vocab_size,
    ensures
        run.pass.shape.tokens == k,
        run.pass.shape.layers == model.config.n_layer,
        run.pass.shape.start == model.state.position,
        run.pass.shape.order == Order::TokenByToken,
        run.refusal matches Some(e) && e@ == (ArchErrorView::InvalidConfig {
            detail: "token id "@ + decimal(tokens[k] as nat) + " out of range (vocab_size="@
                + decimal(model.config.vocab_size as nat) + ")"@,
        }),
{
    lemma_known_count(tokens, model.config.vocab_size as nat);
}

/// A run of known tokens takes all of them and is not refused.
pub proof fn law_known_tokens_are_all_run(model: Mamba2Model, run: PartialPass, tokens: Seq<u32>)
    requires
        model.runs(run, tokens),
        forall|j: int|
            0 <= j < tokens.len() ==> (#[trigger] tokens[j]) < model.config.vocab_size,
    ensures
        run.pass.shape.tokens == tokens.len(),
        run.refusal is None,
{
    lemma_known_count(tokens, model.config.vocab_size as nat);
}

/// A model that has run differs from what it was in nothing but its recurrent state.
pub proof fn law_only_the_state_changes(a: Mamba2Model, b: Mamba2Model)
    requires
        b.same_weights(&a),
    ensures
        b == (Mamba2Model { state: b.state, ..a }),
{
}

} // verus!
