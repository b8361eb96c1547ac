//! Model hyperparameters, read from metadata.

use crate::bits::{F32_1E_MINUS_5, F32_ONE, F32_TEN_THOUSAND};
use crate::common::rope::RopeScalingType;
use crate::error::{ArchError, ArchErrorView, ArchResult};
use crate::gguf::TensorType;
use crate::metadata::{
    bits_or, meta_f32, meta_text, meta_u32, size_or, MetadataMap, MetadataStore,
};
use crate::text::{joined, same_text, starts_with};
use vstd::prelude::*;

verus! {

/// The hyperparameters of latent attention and of sparse expert layers.
#[derive(Debug, Clone, Copy, PartialEq, Eq)]
pub struct DeepSeekConfig {
    /// Rank of the compressed query.
    pub q_lora_rank: usize,
    /// Rank of the compressed key and value.
    pub kv_lora_rank: usize,
    /// Head dimension of the part of queries and keys without positions.
    pub qk_nope_head_dim: usize,
    /// Head dimension of the part of queries and keys with positions.
    pub qk_rope_head_dim: usize,
    /// Head dimension of values.
    pub v_head_dim: usize,
    /// Experts that every token passes.
    pub n_shared_experts: usize,
    /// Experts that tokens are routed to.
    pub n_routed_experts: usize,
    /// Routed experts that one token passes.
    pub top_k_routed: usize,
    /// Intermediate size of a shared expert.
    pub shared_expert_intermediate_size: usize,
    /// Scale of the routed experts' weights, as a pattern.
    pub routed_scaling_factor: u32,
    /// Leading layers with a dense feed-forward network; later layers have
    /// experts.
    pub first_k_dense_replace: usize,
}

/// The configuration that a metadata store describes.
pub open spec fn deepseek_config_of(m: MetadataMap, hidden_size: usize) -> DeepSeekConfig {
    DeepSeekConfig {
        q_lora_rank: size_or(m, "deepseek2.attention.q_lora_rank"@, 1536),
        kv_lora_rank: size_or(m, "deepseek2.attention.kv_lora_rank"@, 512),
        qk_nope_head_dim: size_or(m, "deepseek2.attention.key_length"@, 128),
        qk_rope_head_dim: size_or(m, "deepseek2.attention.rope_head_dim"@, 64),
        v_head_dim: size_or(m, "deepseek2.attention.value_length"@, 128),
        n_shared_experts: size_or(m, "deepseek2.expert_shared_count"@, 1),
        n_routed_experts: size_or(m, "deepseek2.expert_count"@, 64),
        top_k_routed: size_or(m, "deepseek2.expert_used_count"@, 6),
        shared_expert_intermediate_size: size_or(
            m,
            "deepseek2.expert_shared_feed_forward_length"@,
            (hidden_size * 2) as usize,
        ),
        routed_scaling_factor: bits_or(m, "deepseek2.expert_weights_scale"@, F32_ONE),
        first_k_dense_replace: size_or(m, "deepseek2.leading_dense_block_count"@, 1),
    }
}

impl DeepSeekConfig {
    /// Reads the configuration, with a default for every key that is missing.
    pub fn from_metadata(metadata: &MetadataStore, hidden_size: usize) -> (c: Self)
        requires
            hidden_size * 2 <= usize::MAX,
        ensures
            c == deepseek_config_of(metadata@, hidden_size),
    {
        DeepSeekConfig {
            q_lora_rank: metadata.usize_or("deepseek2.attention.q_lora_rank", 1536),
            kv_lora_rank: metadata.usize_or("deepseek2.attention.kv_lora_rank", 512),
            qk_nope_head_dim: metadata.usize_or("deepseek2.attention.key_length", 128),
            qk_rope_head_dim: metadata.usize_or("deepseek2.attention.rope_head_dim", 64),
            v_head_dim: metadata.usize_or("deepseek2.attention.value_length", 128),
            n_shared_experts: metadata.usize_or("deepseek2.expert_shared_count", 1),
            n_routed_experts: metadata.usize_or("deepseek2.expert_count", 64),
            top_k_routed: metadata.usize_or("deepseek2.expert_used_count", 6),
            shared_expert_intermediate_size: metadata.usize_or(
                "deepseek2.expert_shared_feed_forward_length",
                hidden_size * 2,
            ),
            routed_scaling_factor: metadata.f32_or("deepseek2.expert_weights_scale", F32_ONE),
            first_k_dense_replace: metadata.usize_or("deepseek2.leading_dense_block_count", 1),
        }
    }
}

/// The hyperparameters that all families share. Numbers of type `f32` are
/// patterns.
#[derive(Debug, Clone)]
pub struct ModelConfig {
    /// The architecture's identifier.
    pub architecture: String,
    /// The model's name.
    pub model_name: String,
    /// Size of a hidden state.
    pub hidden_size: usize,
    /// Inner size of a feed-forward network.
    pub intermediate_size: usize,
    /// Number of layers.
    pub num_layers: usize,
    /// Number of query heads.
    pub num_attention_heads: usize,
    /// Number of key and value heads.
    pub num_kv_heads: usize,
    /// Size of one head.
    pub head_dim: usize,
    /// Number of tokens in the vocabulary.
    pub vocab_size: usize,
    /// Greatest number of tokens in a context.
    pub max_context_length: usize,
    /// Epsilon of the norms.
    pub rms_norm_eps: u32,
    /// Base frequency of the rotary embedding.
    pub rope_freq_base: u32,
    /// Predominant storage type of the weights.
    pub quant_type: Option<TensorType>,
    /// Whether attention projections have a bias.
    pub attention_bias: bool,
    /// Whether feed-forward projections have a bias.
    pub ffn_bias: bool,
    /// Name of the activation function.
    pub activation: String,
    /// Window of local attention.
    pub sliding_window: Option<usize>,
    /// Factor on the logits.
    pub logit_scale: u32,
    /// Number of experts; 0 in a dense model.
    pub num_experts: usize,
    /// Number of experts that one token passes; 0 in a dense model.
    pub num_experts_used: usize,
    /// Window of local attention, as the cache counts it.
    pub swa_window: Option<u32>,
    /// Whether windowed layers alternate with global ones.
    pub swa_interleaved: bool,
    /// How rotation frequencies are scaled.
    pub rope_scaling_type: RopeScalingType,
    /// Scaling factor of the rotary embedding.
    pub rope_scaling_factor: u32,
}

/// The content of a [`ModelConfig`].
pub struct ModelConfigView {
    pub architecture: Seq<char>,
    pub model_name: Seq<char>,
    pub hidden_size: usize,
    pub intermediate_size: usize,
    pub num_layers: usize,
    pub num_attention_heads: usize,
    pub num_kv_heads: usize,
    pub head_dim: usize,
    pub vocab_size: usize,
    pub max_context_length: usize,
    pub rms_norm_eps: u32,
    pub rope_freq_base: u32,
    pub quant_type: Option<TensorType>,
    pub attention_bias: bool,
    pub ffn_bias: bool,
    pub activation: Seq<char>,
    pub sliding_window: Option<usize>,
    pub logit_scale: u32,
    pub num_experts: usize,
    pub num_experts_used: usize,
    pub swa_window: Option<u32>,
    pub swa_interleaved: bool,
    pub rope_scaling_type: RopeScalingType,
    pub rope_scaling_factor: u32,
}

impl View for ModelConfig {
    type V = ModelConfigView;

    open spec fn view(&self) -> ModelConfigView {
        ModelConfigView {
            architecture: self.architecture@,
            model_name: self.model_name@,
            hidden_size: self.hidden_size,
            intermediate_size: self.intermediate_size,
            num_layers: self.num_layers,
            num_attention_heads: self.num_attention_heads,
            num_kv_heads: self.num_kv_heads,
            head_dim: self.head_dim,
            vocab_size: self.vocab_size,
            max_context_length: self.max_context_length,
            rms_norm_eps: self.rms_norm_eps,
            rope_freq_base: self.rope_freq_base,
            quant_type: self.quant_type,
            attention_bias: self.attention_bias,
            ffn_bias: self.ffn_bias,
            activation: self.activation@,
            sliding_window: self.sliding_window,
            logit_scale: self.logit_scale,
            num_experts: self.num_experts,
            num_experts_used: self.num_experts_used,
            swa_window: self.swa_window,
            swa_interleaved: self.swa_interleaved,
            rope_scaling_type: self.rope_scaling_type,
            rope_scaling_factor: self.rope_scaling_factor,
        }
    }
}

/// The quotient of two sizes, or a default where the divisor is zero.
pub open spec fn quotient_or(a: usize, b: usize, default: usize) -> usize {
    if b == 0 {
        default
    } else {
        a / b
    }
}

/// A number, or one in place of zero.
pub open spec fn at_least_one(n: usize) -> usize {
    if n == 0 {
        1
    } else {
        n
    }
}

/// A number, or one in place of zero.
pub fn or_one(n: usize) -> (r: usize)
    ensures
        r == at_least_one(n),
{
    if n == 0 {
        1
    } else {
        n
    }
}

/// The vocabulary size: under the family's own key, or the number of the
/// tokenizer's tokens, or a default.
pub open spec fn vocab_or(m: MetadataMap, key: Seq<char>, default: usize) -> usize {
    match meta_u32(m, key) {
        Some(v) => v as usize,
        None => size_or(m, "tokenizer.ggml.tokens.length"@, default),
    }
}

/// The scaling type of a name; names other than `linear` and `yarn`, and no
/// name, stand for no scaling.
pub open spec fn scaling_named(name: Option<Seq<char>>) -> RopeScalingType {
    match name {
        Some(s) => if s == "linear"@ {
            RopeScalingType::Linear
        } else if s == "yarn"@ {
            RopeScalingType::Yarn
        } else {
            RopeScalingType::Standard
        },
        None => RopeScalingType::Standard,
    }
}

/// The hidden size that metadata gives a model of an architecture.
pub open spec fn hidden_size_of(m: MetadataMap, arch: Seq<char>) -> usize {
    size_or(m, arch + ".embedding_length"@, 4096)
}

/// The configuration that metadata describes for a model of an architecture.
pub open spec fn model_config_of(m: MetadataMap, arch: Seq<char>) -> ModelConfigView {
    let hidden = hidden_size_of(m, arch);
    let heads = size_or(m, arch + ".attention.head_count"@, 32);
    let window = meta_u32(m, arch + ".attention.sliding_window"@);
    ModelConfigView {
        architecture: arch,
        model_name: match meta_text(m, "general.name"@) {
            Some(s) => s,
            None => "unknown"@,
        },
        hidden_size: hidden,
        intermediate_size: size_or(m, arch + ".feed_forward_length"@, (hidden * 4) as usize),
        num_layers: size_or(m, arch + ".block_count"@, 32),
        num_attention_heads: heads,
        num_kv_heads: size_or(m, arch + ".attention.head_count_kv"@, heads),
        head_dim: quotient_or(hidden, heads, 128),
        vocab_size: vocab_or(m, arch + ".vocab_size"@, 32000),
        max_context_length: size_or(m, arch + ".context_length"@, 4096),
        rms_norm_eps: bits_or(m, arch + ".attention.layer_norm_rms_epsilon"@, F32_1E_MINUS_5),
        rope_freq_base: bits_or(m, arch + ".rope.freq_base"@, F32_TEN_THOUSAND),
        quant_type: None,
        attention_bias: false,
        ffn_bias: false,
        activation: "silu"@,
        sliding_window: match window {
            Some(w) => Some(w as usize),
            None => None,
        },
        logit_scale: bits_or(m, arch + ".logit_scale"@, F32_ONE),
        num_experts: size_or(m, arch + ".expert_count"@, 0),
        num_experts_used: size_or(m, arch + ".expert_used_count"@, 0),
        swa_window: window,
        swa_interleaved: "gemma"@.is_prefix_of(arch),
        rope_scaling_type: scaling_named(meta_text(m, arch + ".rope.scaling.type"@)),
        rope_scaling_factor: bits_or(m, arch + ".rope.scaling.factor"@, F32_ONE),
    }
}

/// The configuration of no particular model.
pub open spec fn default_config() -> ModelConfigView {
    ModelConfigView {
        architecture: Seq::empty(),
        model_name: Seq::empty(),
        hidden_size: 4096,
        intermediate_size: 16384,
        num_layers: 32,
        num_attention_heads: 32,
        num_kv_heads: 32,
        head_dim: 128,
        vocab_size: 32000,
        max_context_length: 4096,
        rms_norm_eps: F32_1E_MINUS_5,
        rope_freq_base: F32_TEN_THOUSAND,
        quant_type: None,
        attention_bias: false,
        ffn_bias: false,
        activation: "silu"@,
        sliding_window: None,
        logit_scale: F32_ONE,
        num_experts: 0,
        num_experts_used: 0,
        swa_window: None,
        swa_interleaved: false,
        rope_scaling_type: RopeScalingType::Standard,
        rope_scaling_factor: F32_ONE,
    }
}

impl Default for ModelConfig {
    fn default() -> (c: Self)
        ensures
            c@ == default_config(),
    {
        ModelConfig {
            architecture: String::new(),
            model_name: String::new(),
            hidden_size: 4096,
            intermediate_size: 16384,
            num_layers: 32,
            num_attention_heads: 32,
            num_kv_heads: 32,
            head_dim: 128,
            vocab_size: 32000,
            max_context_length: 4096,
            rms_norm_eps: F32_1E_MINUS_5,
            rope_freq_base: F32_TEN_THOUSAND,
            quant_type: None,
            attention_bias: false,
            ffn_bias: false,
            activation: String::from_str("silu"),
            sliding_window: None,
            logit_scale: F32_ONE,
            num_experts: 0,
            num_experts_used: 0,
            swa_window: None,
            swa_interleaved: false,
            rope_scaling_type: RopeScalingType::Standard,
            rope_scaling_factor: F32_ONE,
        }
    }
}

/// Reads the vocabulary size.
pub fn vocab_size_or(metadata: &MetadataStore, key: &str, default: usize) -> (r: usize)
    ensures
        r == vocab_or(metadata@, key@, default),
{
    match metadata.get_u32(key) {
        Some(v) => v as usize,
        None => metadata.usize_or("tokenizer.ggml.tokens.length", default),
    }
}

/// The quotient of two sizes, or a default where the divisor is zero.
pub fn div_or(a: usize, b: usize, default: usize) -> (r: usize)
    ensures
        r == quotient_or(a, b, default),
{
    if b == 0 {
        default
    } else {
        a / b
    }
}

impl ModelConfig {
    /// Whether the sizes that are computed from metadata fit a machine word.
    /// They always do where a word has 64 bits.
    pub open spec fn metadata_fits(m: MetadataMap) -> bool {
        meta_text(m, "general.architecture"@) matches Some(arch) ==> hidden_size_of(m, arch) * 4
            <= usize::MAX
    }

    /// Reads the configuration, with a default for every key that is missing.
    /// Only the architecture has none: without it there is no configuration.
    pub fn from_metadata(metadata: &MetadataStore) -> (r: ArchResult<Self>)
        requires
            Self::metadata_fits(metadata@),
        ensures
            match meta_text(metadata@, "general.architecture"@) {
                Some(arch) => r matches Ok(c) && c@ == model_config_of(metadata@, arch),
                None => r matches Err(e) && e@ == (ArchErrorView::UnknownArchitecture {
                    arch_id: "<missing>"@,
                }),
            },
    {
        let arch: &str = match metadata.get_string("general.architecture") {
            Some(s) => s.as_str(),
            None => {
                return Err(
                    ArchError::UnknownArchitecture { arch_id: String::from_str("<missing>") },
                );
            },
        };
        let model_name: String = match metadata.get_string("general.name") {
            Some(s) => s.clone(),
            None => String::from_str("unknown"),
        };
        let hidden_size: usize = metadata.usize_or(
            joined(arch, ".embedding_length").as_str(),
            4096,
        );
        let num_attention_heads: usize = metadata.usize_or(
            joined(arch, ".attention.head_count").as_str(),
            32,
        );
        let window: Option<u32> = metadata.get_u32(
            joined(arch, ".attention.sliding_window").as_str(),
        );
        let sliding_window: Option<usize> = match window {
            Some(w) => Some(w as usize),
            None => None,
        };
        let scaling_key = joined(arch, ".rope.scaling.type");
        let rope_scaling_type = match metadata.get_string(scaling_key.as_str()) {
            Some(s) => {
                if same_text(s.as_str(), "linear") {
                    RopeScalingType::Linear
                } else if same_text(s.as_str(), "yarn") {
                    RopeScalingType::Yarn
                } else {
                    RopeScalingType::Standard
                }
            },
            None => RopeScalingType::Standard,
        };
        Ok(
            ModelConfig {
                architecture: String::from_str(arch),
                model_name,
                hidden_size,
                intermediate_size: metadata.usize_or(
                    joined(arch, ".feed_forward_length").as_str(),
                    hidden_size * 4,
                ),
                num_layers: metadata.usize_or(joined(arch, ".block_count").as_str(), 32),
                num_attention_heads,
                num_kv_heads: metadata.usize_or(
                    joined(arch, ".attention.head_count_kv").as_str(),
                    num_attention_heads,
                ),
                head_dim: div_or(hidden_size, num_attention_heads, 128),
                vocab_size: vocab_size_or(metadata, joined(arch, ".vocab_size").as_str(), 32000),
                max_context_length: metadata.usize_or(
                    joined(arch, ".context_length").as_str(),
                    4096,
                ),
                rms_norm_eps: metadata.f32_or(
                    joined(arch, ".attention.layer_norm_rms_epsilon").as_str(),
                    F32_1E_MINUS_5,
                ),
                rope_freq_base: metadata.f32_or(
                    joined(arch, ".rope.freq_base").as_str(),
                    F32_TEN_THOUSAND,
                ),
                quant_type: None,
                attention_bias: false,
                ffn_bias: false,
                activation: String::from_str("silu"),
                sliding_window,
                logit_scale: metadata.f32_or(joined(arch, ".logit_scale").as_str(), F32_ONE),
                num_experts: metadata.usize_or(joined(arch, ".expert_count").as_str(), 0),
                num_experts_used: metadata.usize_or(
                    joined(arch, ".expert_used_count").as_str(),
                    0,
                ),
                swa_window: window,
                swa_interleaved: starts_with(arch, "gemma"),
                rope_scaling_type,
                rope_scaling_factor: metadata.f32_or(
                    joined(arch, ".rope.scaling.factor").as_str(),
                    F32_ONE,
                ),
            },
        )
    }

    /// A copy with the same content.
    pub fn duplicate(&self) -> (c: Self)
        ensures
            c@ == self@,
    {
        ModelConfig {
            architecture: self.architecture.clone(),
            model_name: self.model_name.clone(),
            hidden_size: self.hidden_size,
            intermediate_size: self.intermediate_size,
            num_layers: self.num_layers,
            num_attention_heads: self.num_attention_heads,
            num_kv_heads: self.num_kv_heads,
            head_dim: self.head_dim,
            vocab_size: self.vocab_size,
            max_context_length: self.max_context_length,
            rms_norm_eps: self.rms_norm_eps,
            rope_freq_base: self.rope_freq_base,
            quant_type: self.quant_type,
            attention_bias: self.attention_bias,
            ffn_bias: self.ffn_bias,
            activation: self.activation.clone(),
            sliding_window: self.sliding_window,
            logit_scale: self.logit_scale,
            num_experts: self.num_experts,
            num_experts_used: self.num_experts_used,
            swa_window: self.swa_window,
            swa_interleaved: self.swa_interleaved,
            rope_scaling_type: self.rope_scaling_type,
            rope_scaling_factor: self.rope_scaling_factor,
        }
    }
}

/// Both window fields of a configuration that was read from metadata are there
/// or neither is, and both hold one number.
pub proof fn law_windows_agree(m: MetadataMap, arch: Seq<char>)
    ensures
        model_config_of(m, arch).sliding_window is Some <==> model_config_of(m, arch).swa_window
            is Some,
        model_config_of(m, arch).swa_window matches Some(w) ==> model_config_of(
            m,
            arch,
        ).sliding_window == Some(w as usize),
{
}

/// The heads of a configuration that was read from metadata never take up more
/// than the hidden state, if there are any.
pub proof fn law_heads_fit_hidden(m: MetadataMap, arch: Seq<char>)
    ensures
        ({
            let c = model_config_of(m, arch);
            c.num_attention_heads > 0 ==> c.num_attention_heads * c.head_dim <= c.hidden_size
        }),
{
    let c = model_config_of(m, arch);
    if c.num_attention_heads > 0 {
        vstd::arithmetic::div_mod::lemma_fundamental_div_mod(
            c.hidden_size as int,
            c.num_attention_heads as int,
        );
    }
}

/// Keys of another architecture change nothing: where the store holds no value
/// under any key of the model's own architecture, the configuration is that of
/// the defaults.
pub proof fn law_own_keys_only(m: MetadataMap, arch: Seq<char>)
    requires
        forall|k: Seq<char>| #[trigger] m.contains_key(k) ==> !arch.is_prefix_of(k),
    ensures
        model_config_of(m, arch).hidden_size == 4096,
        model_config_of(m, arch).intermediate_size == 16384,
        model_config_of(m, arch).num_layers == 32,
        model_config_of(m, arch).num_attention_heads == 32,
        model_config_of(m, arch).num_kv_heads == 32,
        model_config_of(m, arch).head_dim == 128,
        model_config_of(m, arch).max_context_length == 4096,
        model_config_of(m, arch).rms_norm_eps == F32_1E_MINUS_5,
        model_config_of(m, arch).rope_freq_base == F32_TEN_THOUSAND,
        model_config_of(m, arch).sliding_window is None,
        model_config_of(m, arch).logit_scale == F32_ONE,
        model_config_of(m, arch).num_experts == 0,
        model_config_of(m, arch).num_experts_used == 0,
        model_config_of(m, arch).rope_scaling_type == RopeScalingType::Standard,
        model_config_of(m, arch).rope_scaling_factor == F32_ONE,
{
    assert forall|s: Seq<char>| !m.contains_key(#[trigger] (arch + s)) by {
        assert((arch + s).subrange(0, arch.len() as int) =~= arch);
        assert(arch.is_prefix_of(arch + s));
    }
}

/// Every hyperparameter that all families share is the value under its own key,
/// which begins with the architecture's identifier, or its own default where there
/// is none.
#[verifier::rlimit(40)]
pub proof fn law_hyperparameters_have_their_keys(m: MetadataMap, arch: Seq<char>)
    ensures
        model_config_of(m, arch).architecture == arch,
        meta_text(m, "general.name"@) matches Some(s) ==> model_config_of(m, arch).model_name == s,
        meta_text(m, "general.name"@) is None ==> model_config_of(m, arch).model_name == "unknown"@,
        meta_u32(m, arch + ".embedding_length"@) matches Some(v)
            ==> model_config_of(m, arch).hidden_size == v,
        meta_u32(m, arch + ".embedding_length"@) is None
            ==> model_config_of(m, arch).hidden_size == 4096,
        meta_u32(m, arch + ".feed_forward_length"@) matches Some(v)
            ==> model_config_of(m, arch).intermediate_size == v,
        meta_u32(m, arch + ".feed_forward_length"@) is None
            && 4 * model_config_of(m, arch).hidden_size <= usize::MAX
            ==> model_config_of(m, arch).intermediate_size
            == 4 * model_config_of(m, arch).hidden_size,
        meta_u32(m, arch + ".block_count"@) matches Some(v)
            ==> model_config_of(m, arch).num_layers == v,
        meta_u32(m, arch + ".block_count"@) is None ==> model_config_of(m, arch).num_layers == 32,
        meta_u32(m, arch + ".attention.head_count"@) matches Some(v)
            ==> model_config_of(m, arch).num_attention_heads == v,
        meta_u32(m, arch + ".attention.head_count"@) is None
            ==> model_config_of(m, arch).num_attention_heads == 32,
        meta_u32(m, arch + ".attention.head_count_kv"@) matches Some(v)
            ==> model_config_of(m, arch).num_kv_heads == v,
        meta_u32(m, arch + ".attention.head_count_kv"@) is None
            ==> model_config_of(m, arch).num_kv_heads
            == model_config_of(m, arch).num_attention_heads,
        model_config_of(m, arch).num_attention_heads > 0
            ==> model_config_of(m, arch).head_dim
            == model_config_of(m, arch).hidden_size / model_config_of(m, arch).num_attention_heads,
        model_config_of(m, arch).num_attention_heads == 0
            ==> model_config_of(m, arch).head_dim == 128,
        meta_u32(m, arch + ".vocab_size"@) matches Some(v)
            ==> model_config_of(m, arch).vocab_size == v,
        meta_u32(m, arch + ".vocab_size"@) is None
            ==> (meta_u32(m, "tokenizer.ggml.tokens.length"@) matches Some(v)
            ==> model_config_of(m, arch).vocab_size == v),
        meta_u32(m, arch + ".vocab_size"@) is None
            && meta_u32(m, "tokenizer.ggml.tokens.length"@) is None
            ==> model_config_of(m, arch).vocab_size == 32000,
        meta_u32(m, arch + ".context_length"@) matches Some(v)
            ==> model_config_of(m, arch).max_context_length == v,
        meta_u32(m, arch + ".context_length"@) is None
            ==> model_config_of(m, arch).max_context_length == 4096,
        meta_f32(m, arch + ".attention.layer_norm_rms_epsilon"@) matches Some(b)
            ==> model_config_of(m, arch).rms_norm_eps == b,
        meta_f32(m, arch + ".attention.layer_norm_rms_epsilon"@) is None
            ==> model_config_of(m, arch).rms_norm_eps == 0x3727_C5AC,
        meta_f32(m, arch + ".rope.freq_base"@) matches Some(b)
            ==> model_config_of(m, arch).rope_freq_base == b,
        meta_f32(m, arch + ".rope.freq_base"@) is None
            ==> model_config_of(m, arch).rope_freq_base == 0x461C_4000,
        meta_f32(m, arch + ".logit_scale"@) matches Some(b)
            ==> model_config_of(m, arch).logit_scale == b,
        meta_f32(m, arch + ".logit_scale"@) is None
            ==> model_config_of(m, arch).logit_scale == 0x3F80_0000,
        meta_f32(m, arch + ".rope.scaling.factor"@) matches Some(b)
            ==> model_config_of(m, arch).rope_scaling_factor == b,
        meta_f32(m, arch + ".rope.scaling.factor"@) is None
            ==> model_config_of(m, arch).rope_scaling_factor == 0x3F80_0000,
        meta_u32(m, arch + ".expert_count"@) matches Some(v)
            ==> model_config_of(m, arch).num_experts == v,
        meta_u32(m, arch + ".expert_count"@) is None ==> model_config_of(m, arch).num_experts == 0,
        meta_u32(m, arch + ".expert_used_count"@) matches Some(v)
            ==> model_config_of(m, arch).num_experts_used == v,
        meta_u32(m, arch + ".expert_used_count"@) is None
            ==> model_config_of(m, arch).num_experts_used == 0,
        meta_u32(m, arch + ".attention.sliding_window"@) matches Some(w)
            ==> model_config_of(m, arch).sliding_window == Some(w as usize)
            && model_config_of(m, arch).swa_window == Some(w),
        meta_u32(m, arch + ".attention.sliding_window"@) is None
            ==> model_config_of(m, arch).sliding_window is None
            && model_config_of(m, arch).swa_window is None,
        meta_text(m, arch + ".rope.scaling.type"@) == Some("linear"@)
            ==> model_config_of(m, arch).rope_scaling_type == RopeScalingType::Linear,
        meta_text(m, arch + ".rope.scaling.type"@) == Some("yarn"@)
            ==> model_config_of(m, arch).rope_scaling_type == RopeScalingType::Yarn,
        meta_text(m, arch + ".rope.scaling.type"@) != Some("linear"@)
            && meta_text(m, arch + ".rope.scaling.type"@) != Some("yarn"@)
            ==> model_config_of(m, arch).rope_scaling_type == RopeScalingType::Standard,
        model_config_of(m, arch).activation == "silu"@,
        !model_config_of(m, arch).attention_bias,
        !model_config_of(m, arch).ffn_bias,
        model_config_of(m, arch).quant_type is None,
        model_config_of(m, arch).swa_interleaved
            <==> arch.len() >= 5 && arch.subrange(0, 5) == "gemma"@,
{
    reveal_strlit("gemma");
    reveal_strlit("linear");
    reveal_strlit("yarn");
    assert("linear"@.len() != "yarn"@.len());
}

/// Every hyperparameter of latent attention and of its experts is the value under
/// its own key, or its own default where there is none.
pub proof fn law_latent_hyperparameters_have_their_keys(m: MetadataMap, hidden_size: usize)
    ensures
        meta_u32(m, "deepseek2.attention.q_lora_rank"@) matches Some(v)
            ==> deepseek_config_of(m, hidden_size).q_lora_rank == v,
        meta_u32(m, "deepseek2.attention.q_lora_rank"@) is None
            ==> deepseek_config_of(m, hidden_size).q_lora_rank == 1536,
        meta_u32(m, "deepseek2.attention.kv_lora_rank"@) matches Some(v)
            ==> deepseek_config_of(m, hidden_size).kv_lora_rank == v,
        meta_u32(m, "deepseek2.attention.kv_lora_rank"@) is None
            ==> deepseek_config_of(m, hidden_size).kv_lora_rank == 512,
        meta_u32(m, "deepseek2.attention.key_length"@) matches Some(v)
            ==> deepseek_config_of(m, hidden_size).qk_nope_head_dim == v,
        meta_u32(m, "deepseek2.attention.key_length"@) is None
            ==> deepseek_config_of(m, hidden_size).qk_nope_head_dim == 128,
        meta_u32(m, "deepseek2.attention.rope_head_dim"@) matches Some(v)
            ==> deepseek_config_of(m, hidden_size).qk_rope_head_dim == v,
        meta_u32(m, "deepseek2.attention.rope_head_dim"@) is None
            ==> deepseek_config_of(m, hidden_size).qk_rope_head_dim == 64,
        meta_u32(m, "deepseek2.attention.value_length"@) matches Some(v)
            ==> deepseek_config_of(m, hidden_size).v_head_dim == v,
        meta_u32(m, "deepseek2.attention.value_length"@) is None
            ==> deepseek_config_of(m, hidden_size).v_head_dim == 128,
        meta_u32(m, "deepseek2.expert_shared_count"@) matches Some(v)
            ==> deepseek_config_of(m, hidden_size).n_shared_experts == v,
        meta_u32(m, "deepseek2.expert_shared_count"@) is None
            ==> deepseek_config_of(m, hidden_size).n_shared_experts == 1,
        meta_u32(m, "deepseek2.expert_count"@) matches Some(v)
            ==> deepseek_config_of(m, hidden_size).n_routed_experts == v,
        meta_u32(m, "deepseek2.expert_count"@) is None
            ==> deepseek_config_of(m, hidden_size).n_routed_experts == 64,
        meta_u32(m, "deepseek2.expert_used_count"@) matches Some(v)
            ==> deepseek_config_of(m, hidden_size).top_k_routed == v,
        meta_u32(m, "deepseek2.expert_used_count"@) is None
            ==> deepseek_config_of(m, hidden_size).top_k_routed == 6,
        meta_u32(m, "deepseek2.leading_dense_block_count"@) matches Some(v)
            ==> deepseek_config_of(m, hidden_size).first_k_dense_replace == v,
        meta_u32(m, "deepseek2.leading_dense_block_count"@) is None
            ==> deepseek_config_of(m, hidden_size).first_k_dense_replace == 1,
        meta_u32(m, "deepseek2.expert_shared_feed_forward_length"@) matches Some(v)
            ==> deepseek_config_of(m, hidden_size).shared_expert_intermediate_size == v,
        meta_u32(m, "deepseek2.expert_shared_feed_forward_length"@) is None
            && 2 * hidden_size <= usize::MAX
            ==> deepseek_config_of(m, hidden_size).shared_expert_intermediate_size
            == 2 * hidden_size,
        meta_f32(m, "deepseek2.expert_weights_scale"@) matches Some(b)
            ==> deepseek_config_of(m, hidden_size).routed_scaling_factor == b,
        meta_f32(m, "deepseek2.expert_weights_scale"@) is None
            ==> deepseek_config_of(m, hidden_size).routed_scaling_factor == 0x3F80_0000,
{
}

/// A quotient or a number that would be useless has a stand-in.
pub proof fn law_stand_ins(a: usize, b: usize, default: usize)
    ensures
        b > 0 ==> quotient_or(a, b, default) == a / b,
        quotient_or(a, 0, default) == default,
        b > 0 ==> at_least_one(b) == b,
        at_least_one(0) == 1,
{
}

/// The configuration of no particular model is the one that empty metadata gives,
/// but for its names.
pub proof fn law_default_is_that_of_empty_metadata(arch: Seq<char>)
    requires
        !"gemma"@.is_prefix_of(arch),
    ensures
        default_config() == (ModelConfigView {
            architecture: Seq::empty(),
            model_name: Seq::empty(),
            ..model_config_of(Map::empty(), arch)
        }),
{
}

/// What is known of a configuration is what it holds, field by field.
pub proof fn law_configurations_say_what_they_hold(c: ModelConfig)
    ensures
        c@.architecture == c.architecture@,
        c@.model_name == c.model_name@,
        c@.hidden_size == c.hidden_size,
        c@.intermediate_size == c.intermediate_size,
        c@.num_layers == c.num_layers,
        c@.num_attention_heads == c.num_attention_heads,
        c@.num_kv_heads == c.num_kv_heads,
        c@.head_dim == c.head_dim,
        c@.vocab_size == c.vocab_size,
        c@.max_context_length == c.max_context_length,
        c@.rms_norm_eps == c.rms_norm_eps,
        c@.rope_freq_base == c.rope_freq_base,
        c@.quant_type == c.quant_type,
        c@.attention_bias == c.attention_bias,
        c@.ffn_bias == c.ffn_bias,
        c@.activation == c.activation@,
        c@.sliding_window == c.sliding_window,
        c@.logit_scale == c.logit_scale,
        c@.num_experts == c.num_experts,
        c@.num_experts_used == c.num_experts_used,
        c@.swa_window == c.swa_window,
        c@.swa_interleaved == c.swa_interleaved,
        c@.rope_scaling_type == c.rope_scaling_type,
        c@.rope_scaling_factor == c.rope_scaling_factor,
{
}

} // verus!
