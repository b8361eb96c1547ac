//! The stages of a forward pass, in order.

use crate::common::embedding::{
    all_have_rows, embed_last_token, embed_tokens, embedding_rows, last_token_failure,
    law_rows_of_joined, law_states_are_rows_of_tokens, rows_of, rows_reached, tokens_failure,
};
use crate::error::{follows, ArchError, ArchErrorView, ArchResult};
use crate::text::joined;
use vstd::arithmetic::div_mod::{
    lemma_fundamental_div_mod, lemma_fundamental_div_mod_converse,
};
use vstd::prelude::*;

verus! {

/// How a pass goes through layers and tokens.
#[derive(Debug, Clone, Copy, PartialEq, Eq)]
pub enum Order {
    /// In each layer, all tokens attend at once and are fed forward one by one.
    Together,
    /// In each layer, one token after another attends and is fed forward.
    LayerByLayer,
    /// One token after another goes through all layers.
    TokenByToken,
}

/// The state that the feed-forward network of a layer norms and reads.
#[derive(Debug, Clone, Copy, PartialEq, Eq)]
pub enum NetworkInput {
    /// The state that entered the layer, as attention reads it. Both outcomes are
    /// added to that state at once.
    Entering,
    /// The state after the outcome of attention was added to it.
    Attended,
}

/// What a pass does next. A layer has two stages for each token. A family whose
/// layer has only one network, or whose two networks both read the state that
/// entered the layer, runs the whole layer in the first and does nothing in the
/// second.
#[derive(Debug, Clone, Copy, PartialEq, Eq)]
pub enum Stage {
    /// Attend with the token's state, and add the outcome to it: the first half of
    /// a layer, or all of it. Where tokens attend at once, this is for all of them,
    /// and the token is the first.
    Attend {
        /// The layer.
        layer: usize,
        /// The token, counted from the first of this pass.
        token: usize,
        /// The token's position in the sequence.
        position: usize,
    },
    /// Feed the token's state forward, and add the outcome to it: the second half of
    /// a layer, where it has one.
    Feed {
        /// The layer.
        layer: usize,
        /// The token.
        token: usize,
    },
    /// Norm the state of the last token: the embedding, which projected gives
    /// the logits.
    Finish {
        /// The token.
        token: usize,
    },
    /// Nothing is left to do.
    Done,
}

/// The extent of a pass.
#[derive(Debug, Clone, Copy, PartialEq, Eq)]
pub struct PassShape {
    /// How it goes through layers and tokens.
    pub order: Order,
    /// Number of layers.
    pub layers: usize,
    /// Number of tokens.
    pub tokens: usize,
    /// Position of the first token.
    pub start: usize,
}

impl PassShape {
    /// Whether positions fit a machine word.
    pub open spec fn valid(self) -> bool {
        self.start + self.tokens <= usize::MAX
    }

    /// The end of a pass. A pass without tokens has nothing but its end, which
    /// works on the state that was left from before.
    pub open spec fn end(self) -> Stage {
        Stage::Finish {
            token: if self.tokens == 0 {
                0
            } else {
                (self.tokens - 1) as usize
            },
        }
    }

    /// Whether a stage is one of this pass.
    pub open spec fn has(self, s: Stage) -> bool {
        match s {
            Stage::Attend { layer, token, position } => {
                &&& layer < self.layers
                &&& token < self.tokens
                &&& position == self.start + token
                &&& self.order == Order::Together ==> token == 0
            },
            Stage::Feed { layer, token } => layer < self.layers && token < self.tokens,
            Stage::Finish { .. } => s == self.end(),
            Stage::Done => true,
        }
    }

    /// The attention of a token in a layer, or the end where there is no such
    /// token or layer.
    pub open spec fn enter_spec(self, layer: int, token: int) -> Stage {
        if layer < self.layers && token < self.tokens {
            Stage::Attend {
                layer: layer as usize,
                token: token as usize,
                position: (self.start + token) as usize,
            }
        } else {
            self.end()
        }
    }

    /// The first stage.
    pub open spec fn first_spec(self) -> Stage {
        self.enter_spec(0, 0)
    }

    /// The stage after a stage.
    pub open spec fn after_spec(self, s: Stage) -> Stage {
        match s {
            Stage::Attend { layer, token, .. } => Stage::Feed { layer, token },
            Stage::Feed { layer, token } => match self.order {
                Order::Together => if token + 1 < self.tokens {
                    Stage::Feed { layer, token: (token + 1) as usize }
                } else {
                    self.enter_spec(layer + 1, 0)
                },
                Order::LayerByLayer => if token + 1 < self.tokens {
                    self.enter_spec(layer as int, token + 1)
                } else {
                    self.enter_spec(layer + 1, 0)
                },
                Order::TokenByToken => if layer + 1 < self.layers {
                    self.enter_spec(layer + 1, token as int)
                } else if token + 1 < self.tokens {
                    self.enter_spec(0, token + 1)
                } else {
                    self.end()
                },
            },
            Stage::Finish { .. } => Stage::Done,
            Stage::Done => Stage::Done,
        }
    }

    fn enter(&self, layer: usize, token: usize) -> (s: Stage)
        requires
            self.valid(),
        ensures
            s == self.enter_spec(layer as int, token as int),
    {
        if layer < self.layers && token < self.tokens {
            Stage::Attend { layer, token, position: self.start + token }
        } else if self.tokens == 0 {
            Stage::Finish { token: 0 }
        } else {
            Stage::Finish { token: self.tokens - 1 }
        }
    }

    /// The first stage.
    pub fn first(&self) -> (s: Stage)
        requires
            self.valid(),
        ensures
            s == self.first_spec(),
            self.has(s),
    {
        self.enter(0, 0)
    }

    /// The stage after a stage.
    pub fn after(&self, s: Stage) -> (next: Stage)
        requires
            self.valid(),
            self.has(s),
        ensures
            next == self.after_spec(s),
            self.has(next),
    {
        match s {
            Stage::Attend { layer, token, .. } => Stage::Feed { layer, token },
            Stage::Feed { layer, token } => match self.order {
                Order::Together => {
                    if token + 1 < self.tokens {
                        Stage::Feed { layer, token: token + 1 }
                    } else {
                        self.enter(layer + 1, 0)
                    }
                },
                Order::LayerByLayer => {
                    if token + 1 < self.tokens {
                        self.enter(layer, token + 1)
                    } else {
                        self.enter(layer + 1, 0)
                    }
                },
                Order::TokenByToken => {
                    if layer + 1 < self.layers {
                        self.enter(layer + 1, token)
                    } else if token + 1 < self.tokens {
                        self.enter(0, token + 1)
                    } else {
                        Stage::Finish { token: self.tokens - 1 }
                    }
                },
            },
            Stage::Finish { .. } => Stage::Done,
            Stage::Done => Stage::Done,
        }
    }

    /// Whether a token has been through all layers when a stage is done.
    pub open spec fn ends_token_spec(self, s: Stage) -> bool {
        s matches Stage::Feed { layer, .. } && layer + 1 == self.layers
    }

    /// Whether a token has been through all layers when a stage is done.
    pub fn ends_token(&self, s: Stage) -> (b: bool)
        requires
            self.has(s),
        ensures
            b == self.ends_token_spec(s),
    {
        match s {
            Stage::Feed { layer, .. } => layer + 1 == self.layers,
            _ => false,
        }
    }

    /// The tokens that have been through all layers before the first stage: all of
    /// them in a pass without layers, and none otherwise.
    pub open spec fn ended_at_once_spec(self) -> nat {
        if self.layers == 0 {
            self.tokens as nat
        } else {
            0
        }
    }

    /// The number of tokens that have been through all layers before the first
    /// stage.
    pub fn ended_at_once(&self) -> (n: usize)
        ensures
            n == self.ended_at_once_spec(),
    {
        if self.layers == 0 {
            self.tokens
        } else {
            0
        }
    }

    /// Whether a cache that counts tokens moves on when a stage is done: after each
    /// token where one token after another goes through all layers; after every
    /// attention where one layer takes one token after another; never where tokens
    /// attend at once, since layers then have caches of their own.
    pub open spec fn advances_cache_spec(self, s: Stage) -> bool {
        match self.order {
            Order::TokenByToken => self.ends_token_spec(s),
            Order::LayerByLayer => s is Attend,
            Order::Together => false,
        }
    }

    /// Whether a cache that counts tokens moves on when a stage is done.
    pub fn advances_cache(&self, s: Stage) -> (b: bool)
        requires
            self.has(s),
        ensures
            b == self.advances_cache_spec(s),
    {
        match self.order {
            Order::TokenByToken => self.ends_token(s),
            Order::LayerByLayer => match s {
                Stage::Attend { .. } => true,
                _ => false,
            },
            Order::Together => false,
        }
    }

    /// The number of tokens that have been through all layers after `k` stages.
    pub open spec fn ended(self, k: nat) -> nat
        decreases k,
    {
        if k == 0 {
            self.ended_at_once_spec()
        } else if self.ends_token_spec(self.nth((k - 1) as nat)) {
            self.ended((k - 1) as nat) + 1
        } else {
            self.ended((k - 1) as nat)
        }
    }

    /// The number of stages before a stage.
    pub open spec fn place(self, s: Stage) -> int {
        let n = self.tokens as int;
        let l = self.layers as int;
        match (self.order, s) {
            (Order::Together, Stage::Attend { layer, .. }) => layer * (n + 1),
            (Order::Together, Stage::Feed { layer, token }) => layer * (n + 1) + 1 + token,
            (Order::LayerByLayer, Stage::Attend { layer, token, .. }) => 2 * (layer * n + token),
            (Order::LayerByLayer, Stage::Feed { layer, token }) => 2 * (layer * n + token) + 1,
            (Order::TokenByToken, Stage::Attend { layer, token, .. }) => 2 * (token * l + layer),
            (Order::TokenByToken, Stage::Feed { layer, token }) => 2 * (token * l + layer) + 1,
            (_, Stage::Finish { .. }) => self.length(),
            (_, Stage::Done) => self.length() + 1,
        }
    }

    /// The number of stages before the last.
    pub open spec fn length(self) -> int {
        match self.order {
            Order::Together => if self.tokens == 0 {
                0
            } else {
                self.layers * (self.tokens + 1)
            },
            Order::LayerByLayer => 2 * (self.layers * self.tokens),
            Order::TokenByToken => 2 * (self.tokens * self.layers),
        }
    }

    /// The stage that a pass is at after `k` stages.
    pub open spec fn nth(self, k: nat) -> Stage
        decreases k,
    {
        if k == 0 {
            self.first_spec()
        } else {
            self.after_spec(self.nth((k - 1) as nat))
        }
    }

    /// The stage before a stage.
    spec fn before(self, s: Stage) -> Stage {
        match s {
            Stage::Attend { layer, token, position } => match self.order {
                Order::Together => Stage::Feed {
                    layer: (layer - 1) as usize,
                    token: (self.tokens - 1) as usize,
                },
                Order::LayerByLayer => if token > 0 {
                    Stage::Feed { layer, token: (token - 1) as usize }
                } else {
                    Stage::Feed {
                        layer: (layer - 1) as usize,
                        token: (self.tokens - 1) as usize,
                    }
                },
                Order::TokenByToken => if layer > 0 {
                    Stage::Feed { layer: (layer - 1) as usize, token }
                } else {
                    Stage::Feed {
                        layer: (self.layers - 1) as usize,
                        token: (token - 1) as usize,
                    }
                },
            },
            Stage::Feed { layer, token } => if self.order == Order::Together && token > 0 {
                Stage::Feed { layer, token: (token - 1) as usize }
            } else {
                Stage::Attend { layer, token, position: (self.start + token) as usize }
            },
            _ => Stage::Feed {
                layer: (self.layers - 1) as usize,
                token: (self.tokens - 1) as usize,
            },
        }
    }

    proof fn lemma_place_grows(self, s: Stage)
        requires
            self.valid(),
            self.has(s),
            s != Stage::Done,
        ensures
            self.has(self.after_spec(s)),
            self.place(self.after_spec(s)) == self.place(s) + 1,
    {
        let n = self.tokens as int;
        let l = self.layers as int;
        if let Stage::Feed { layer, token } = s {
            assert((layer + 1) * (n + 1) == layer * (n + 1) + n + 1) by (nonlinear_arith);
            assert((layer + 1) * n == layer * n + n) by (nonlinear_arith);
            assert((token + 1) * l == token * l + l) by (nonlinear_arith);
        }
    }

    proof fn lemma_before(self, s: Stage)
        requires
            self.valid(),
            self.has(s),
            s != Stage::Done,
            self.place(s) > 0,
        ensures
            self.has(self.before(s)),
            self.after_spec(self.before(s)) == s,
            self.before(s) != Stage::Done,
    {
        let n = self.tokens as int;
        let l = self.layers as int;
        assert(0 * (n + 1) == 0 && 0 * n == 0 && 0 * l == 0) by (nonlinear_arith);
        if l == 0 {
            assert(l * (n + 1) == 0 && l * n == 0 && n * l == 0) by (nonlinear_arith)
                requires
                    l == 0,
            ;
        }
    }

    proof fn lemma_reached(self, s: Stage)
        requires
            self.valid(),
            self.has(s),
            s != Stage::Done,
        ensures
            self.place(s) >= 0,
            self.nth(self.place(s) as nat) == s,
        decreases self.place(s),
    {
        let n = self.tokens as int;
        let l = self.layers as int;
        self.lemma_place_bounds(s);
        if self.place(s) == 0 {
            self.lemma_first_is_first(s);
        } else {
            self.lemma_before(s);
            let b = self.before(s);
            self.lemma_place_grows(b);
            self.lemma_reached(b);
        }
    }

    proof fn lemma_place_bounds(self, s: Stage)
        requires
            self.valid(),
            self.has(s),
        ensures
            self.place(s) >= 0,
    {
        let n = self.tokens as int;
        let l = self.layers as int;
        assert(l * (n + 1) >= 0 && l * n >= 0 && n * l >= 0) by (nonlinear_arith)
            requires
                l >= 0,
                n >= 0,
        ;
        match s {
            Stage::Attend { layer, token, .. } => {
                assert(layer * (n + 1) >= 0 && layer * n >= 0 && token * l >= 0)
                    by (nonlinear_arith)
                    requires
                        l >= 0,
                        n >= 0,
                ;
            },
            Stage::Feed { layer, token } => {
                assert(layer * (n + 1) >= 0 && layer * n >= 0 && token * l >= 0)
                    by (nonlinear_arith)
                    requires
                        l >= 0,
                        n >= 0,
                ;
            },
            _ => {},
        }
    }

    proof fn lemma_first_is_first(self, s: Stage)
        requires
            self.valid(),
            self.has(s),
            s != Stage::Done,
            self.place(s) == 0,
        ensures
            s == self.first_spec(),
    {
        let n = self.tokens as int;
        let l = self.layers as int;
        match s {
            Stage::Attend { layer, token, .. } => {
                if layer > 0 {
                    assert(layer * (n + 1) > 0 && layer * n > 0) by (nonlinear_arith)
                        requires
                            layer > 0,
                            n > 0,
                    ;
                }
                assert(layer * n >= 0) by (nonlinear_arith)
                    requires
                        n >= 0,
                ;
                assert(token * l >= 0) by (nonlinear_arith)
                    requires
                        l >= 0,
                ;
                if token > 0 {
                    assert(token * l > 0) by (nonlinear_arith)
                        requires
                            token > 0,
                            l > 0,
                    ;
                }
            },
            Stage::Feed { layer, token } => {
                assert(layer * (n + 1) >= 0 && layer * n >= 0 && token * l >= 0)
                    by (nonlinear_arith)
                    requires
                        l >= 0,
                        n >= 0,
                ;
            },
            Stage::Finish { .. } => {
                if l > 0 && n > 0 {
                    assert(l * (n + 1) > 0 && l * n > 0 && n * l > 0) by (nonlinear_arith)
                        requires
                            l > 0,
                            n > 0,
                    ;
                }
            },
            Stage::Done => {},
        }
    }
}

/// A pass that has begun: its extent, and the states of its tokens before the
/// first layer.
#[derive(Debug)]
pub struct Pass {
    /// The extent.
    pub shape: PassShape,
    /// The states, one row for each token.
    pub states: Vec<u32>,
}

impl Pass {
    /// Whether this is the pass of given tokens.
    pub open spec fn begins(
        &self,
        order: Order,
        layers: nat,
        start: nat,
        table: Seq<u32>,
        width: nat,
        tokens: Seq<u32>,
    ) -> bool {
        &&& self.shape.valid()
        &&& self.shape.order == order
        &&& self.shape.layers == layers
        &&& self.shape.tokens == tokens.len()
        &&& self.shape.start == start
        &&& self.states@ == rows_of(table, width, tokens)
    }
}

/// Begins a pass: looks up its tokens. Refuses an empty sequence and tokens
/// that are not in the vocabulary.
pub fn begin_pass(
    table: &Vec<u32>,
    width: usize,
    vocab: usize,
    tokens: &Vec<u32>,
    caller: &str,
    order: Order,
    layers: usize,
    start: usize,
) -> (r: ArchResult<Pass>)
    requires
        rows_reached(table@, width as nat, vocab as nat, tokens@),
        tokens_failure(tokens@, vocab as nat, caller@) is None ==> start + tokens@.len()
            <= usize::MAX,
    ensures
        follows(r, tokens_failure(tokens@, vocab as nat, caller@)),
        r matches Ok(p) ==> p.begins(
            order,
            layers as nat,
            start as nat,
            table@,
            width as nat,
            tokens@,
        ),
{
    let states = embed_tokens(table, width, vocab, tokens, caller)?;
    Ok(Pass { shape: PassShape { order, layers, tokens: tokens.len(), start }, states })
}

/// Begins a pass that takes one token after another through all layers, after
/// `cached` tokens; `None` where the embedding table has no row for a token.
pub fn begin_token_pass(
    table: &Vec<u32>,
    width: usize,
    tokens: &Vec<u32>,
    layers: usize,
    cached: usize,
) -> (r: Option<Pass>)
    requires
        cached + tokens@.len() <= usize::MAX,
    ensures
        r is Some <==> all_have_rows(table@, width as nat, tokens@),
        r matches Some(p) ==> p.begins(
            Order::TokenByToken,
            layers as nat,
            cached as nat,
            table@,
            width as nat,
            tokens@,
        ),
{
    match embedding_rows(table, width, tokens) {
        Some(states) => Some(
            Pass {
                shape: PassShape {
                    order: Order::TokenByToken,
                    layers,
                    tokens: tokens.len(),
                    start: cached,
                },
                states,
            },
        ),
        None => None,
    }
}

/// A pass over the tokens of a sequence before the first that is refused.
/// Tokens are run one by one, so those before it are run before it is refused.
#[derive(Debug)]
pub struct PartialPass {
    /// The pass over the tokens that are run.
    pub pass: Pass,
    /// Why the pass ends in failure, if it does.
    pub refusal: Option<ArchError>,
}

/// Begins a pass over the last token of a sequence, after `cached` tokens.
/// Refuses an empty sequence, and a token that the embedding table has no row
/// for.
pub fn begin_last_token(
    table: &Vec<u32>,
    width: usize,
    vocab: usize,
    tokens: &Vec<u32>,
    layers: usize,
    cached: usize,
) -> (r: ArchResult<Pass>)
    requires
        cached < usize::MAX,
    ensures
        follows(
            r,
            last_token_failure(table@, width as nat, vocab as nat, tokens@, "token_id"@),
        ),
        r matches Ok(p) ==> p.begins(
            Order::TokenByToken,
            layers as nat,
            cached as nat,
            table@,
            width as nat,
            seq![tokens@.last()],
        ),
{
    let states = embed_last_token(table, width, vocab, tokens, "token_id")?;
    proof {
        let one = seq![tokens@.last()];
        assert(one.drop_last() =~= Seq::<u32>::empty());
        assert(one.last() == tokens@.last());
        assert(rows_of(table@, width as nat, one.drop_last()) == Seq::<u32>::empty());
        assert(rows_of(table@, width as nat, one) =~= states@);
    }
    Ok(
        Pass {
            shape: PassShape { order: Order::TokenByToken, layers, tokens: 1, start: cached },
            states,
        },
    )
}

/// The failure of a layer, in words that say which part of it failed.
pub fn layer_failed(layer: usize, part: &str, message: &str) -> (e: ArchError)
    ensures
        e@ == (ArchErrorView::ForwardPassError { layer, message: part@ + ": "@ + message@ }),
{
    ArchError::ForwardPassError { layer, message: joined(part, ": ").concat(message) }
}

/// The failure of a layer's experts.
pub fn experts_failed(layer: usize, message: &str) -> (e: ArchError)
    ensures
        e@ == (ArchErrorView::ForwardPassError { layer, message: "MoE"@ + ": "@ + message@ }),
{
    layer_failed(layer, "MoE", message)
}

/// A pass reaches every one of its stages, and reaches it once: after as many
/// stages as come before it.
pub proof fn law_pass_reaches_every_stage(p: PassShape, s: Stage, k: nat)
    requires
        p.valid(),
        p.has(s),
        s != Stage::Done,
    ensures
        0 <= p.place(s) <= p.length(),
        p.nth(k) == s <==> k == p.place(s),
{
    p.lemma_reached(s);
    lemma_nth_place(p, k);
    lemma_before_end(p, s);
}

/// A pass is done after its last stage, and stays done.
pub proof fn law_pass_ends(p: PassShape, k: nat)
    requires
        p.valid(),
    ensures
        p.nth(k) == Stage::Done <==> k > p.length(),
{
    lemma_nth_place(p, k);
    if k <= p.length() && p.nth(k) == Stage::Done {
        assert(false);
    }
}

/// While a pass is not done, its stage is at the place that counts the stages
/// before.
proof fn lemma_nth_place(p: PassShape, k: nat)
    requires
        p.valid(),
    ensures
        p.has(p.nth(k)),
        k <= p.length() ==> p.nth(k) != Stage::Done && p.place(p.nth(k)) == k,
        k > p.length() ==> p.nth(k) == Stage::Done,
    decreases k,
{
    let n = p.tokens as int;
    let l = p.layers as int;
    if k == 0 {
        assert(0 * (n + 1) == 0 && 0 * n == 0 && 0 * l == 0) by (nonlinear_arith);
        assert(l * (n + 1) >= 0 && l * n >= 0 && n * l >= 0) by (nonlinear_arith)
            requires
                l >= 0,
                n >= 0,
        ;
        if l == 0 {
            assert(l * (n + 1) == 0 && l * n == 0 && n * l == 0) by (nonlinear_arith)
                requires
                    l == 0,
            ;
        }
    } else {
        let q = (k - 1) as nat;
        lemma_nth_place(p, q);
        let s = p.nth(q);
        if s != Stage::Done {
            p.lemma_place_grows(s);
            if q < p.length() {
                lemma_before_end(p, p.nth(k));
            } else {
                lemma_end_is_finish(p, s);
            }
        }
    }
}

/// Only the end is at the end.
proof fn lemma_end_is_finish(p: PassShape, s: Stage)
    requires
        p.valid(),
        p.has(s),
        s != Stage::Done,
        p.place(s) == p.length(),
    ensures
        s is Finish,
{
    if !(s is Finish) {
        lemma_before_end(p, s);
    }
}

/// Every stage but the end comes before the end.
proof fn lemma_before_end(p: PassShape, s: Stage)
    requires
        p.valid(),
        p.has(s),
    ensures
        s != Stage::Done ==> p.place(s) <= p.length(),
        s is Attend || s is Feed ==> p.place(s) < p.length(),
{
    let n = p.tokens as int;
    let l = p.layers as int;
    match s {
        Stage::Attend { layer, token, .. } => {
            lemma_inside(n, l, layer as int, token as int);
        },
        Stage::Feed { layer, token } => {
            lemma_inside(n, l, layer as int, token as int);
        },
        _ => {},
    }
}

proof fn lemma_inside(n: int, l: int, layer: int, token: int)
    requires
        0 <= layer < l,
        0 <= token < n,
    ensures
        layer * (n + 1) + 1 + token < l * (n + 1),
        layer * n + token < l * n,
        token * l + layer < n * l,
{
    assert(layer * (n + 1) + (n + 1) <= l * (n + 1)) by (nonlinear_arith)
        requires
            layer + 1 <= l,
            n >= 0,
    ;
    assert(layer * n + n <= l * n) by (nonlinear_arith)
        requires
            layer + 1 <= l,
            n >= 0,
    ;
    assert(token * l + l <= n * l) by (nonlinear_arith)
        requires
            token + 1 <= n,
            l >= 0,
    ;
}

/// A pass is fixed by what it begins with: a pass for the embedding goes through
/// the same stages, from the same states, as a pass for the logits of the same
/// tokens, and differs only in what is done with its outcome.
pub proof fn law_passes_of_same_tokens_agree(
    a: Pass,
    b: Pass,
    order: Order,
    layers: nat,
    start: nat,
    table: Seq<u32>,
    width: nat,
    tokens: Seq<u32>,
    k: nat,
)
    requires
        a.begins(order, layers, start, table, width, tokens),
        b.begins(order, layers, start, table, width, tokens),
    ensures
        a.shape == b.shape,
        a.states@ == b.states@,
        a.shape.nth(k) == b.shape.nth(k),
{
}

/// A stage of a later part of a sequence, as a stage of the whole sequence whose
/// first `by` tokens come before.
pub open spec fn later(s: Stage, by: nat) -> Stage {
    match s {
        Stage::Attend { layer, token, position } => Stage::Attend {
            layer,
            token: (token + by) as usize,
            position,
        },
        Stage::Feed { layer, token } => Stage::Feed { layer, token: (token + by) as usize },
        Stage::Finish { token } => Stage::Finish { token: (token + by) as usize },
        Stage::Done => Stage::Done,
    }
}

/// A sequence that is run in two passes takes the same states and positions as
/// in one: the states of the whole are those of the first part followed by those
/// of the second, and the second begins where the first ended.
pub proof fn law_cut_sequence_has_same_states(
    whole: Pass,
    first: Pass,
    second: Pass,
    order: Order,
    layers: nat,
    cached: nat,
    table: Seq<u32>,
    width: nat,
    a: Seq<u32>,
    b: Seq<u32>,
)
    requires
        whole.begins(order, layers, cached, table, width, a + b),
        first.begins(order, layers, cached, table, width, a),
        second.begins(order, layers, cached + a.len(), table, width, b),
    ensures
        whole.states@ == first.states@ + second.states@,
        first.shape.start == whole.shape.start,
        second.shape.start == first.shape.start + first.shape.tokens,
        whole.shape.tokens == first.shape.tokens + second.shape.tokens,
{
    law_rows_of_joined(table, width, a, b);
}

/// Where one token after another goes through all layers, a sequence that is run
/// in two passes goes through the same stages as in one: first those of the
/// first part, then those of the second, each for the same token at the same
/// position. Only the end of the first pass comes in between.
pub proof fn law_cut_sequence_has_same_stages(
    whole: PassShape,
    first: PassShape,
    second: PassShape,
    k: nat,
)
    requires
        whole.order == Order::TokenByToken,
        first.order == Order::TokenByToken,
        second.order == Order::TokenByToken,
        first.layers == whole.layers,
        second.layers == whole.layers,
        whole.valid(),
        first.start == whole.start,
        second.start == first.start + first.tokens,
        whole.tokens == first.tokens + second.tokens,
    ensures
        whole.length() == first.length() + second.length(),
        k < first.length() ==> whole.nth(k) == first.nth(k),
        k < second.length() ==> whole.nth((first.length() + k) as nat) == later(
            second.nth(k),
            first.tokens as nat,
        ),
        second.tokens > 0 ==> whole.end() == later(second.end(), first.tokens as nat),
{
    let l = whole.layers as int;
    let m = first.tokens as int;
    let n = second.tokens as int;
    assert((m + n) * l == m * l + n * l) by (nonlinear_arith);
    assert(m * l >= 0 && n * l >= 0) by (nonlinear_arith)
        requires
            l >= 0,
            m >= 0,
            n >= 0,
    ;
    if k < first.length() {
        lemma_nth_place(first, k);
        let s = first.nth(k);
        assert(whole.has(s));
        law_pass_reaches_every_stage(whole, s, k);
    }
    if k < second.length() {
        lemma_nth_place(second, k);
        let s = second.nth(k);
        let moved = later(s, m as nat);
        match s {
            Stage::Attend { token, .. } => {
                assert((token + m) * l == token * l + m * l) by (nonlinear_arith);
            },
            Stage::Feed { token, .. } => {
                assert((token + m) * l == token * l + m * l) by (nonlinear_arith);
            },
            _ => {},
        }
        assert(whole.has(moved));
        law_pass_reaches_every_stage(whole, moved, (first.length() + k) as nat);
    }
}

/// Where only the last token of a sequence is run, the tokens before it make no
/// difference: the pass is that of the last token alone.
pub proof fn law_only_last_token_is_run(
    all: Pass,
    alone: Pass,
    layers: nat,
    cached: nat,
    table: Seq<u32>,
    width: nat,
    tokens: Seq<u32>,
)
    requires
        tokens.len() > 0,
        all.begins(
            Order::TokenByToken,
            layers,
            cached,
            table,
            width,
            seq![tokens.last()],
        ),
        alone.begins(
            Order::TokenByToken,
            layers,
            cached,
            table,
            width,
            seq![seq![tokens.last()].last()],
        ),
    ensures
        all.shape == alone.shape,
        all.states@ == alone.states@,
        all.shape.tokens == 1,
{
}

/// Where one token after another goes through all layers, tokens end in order: of
/// the stages of a pass exactly as many end a token as there are tokens, the first
/// of them ends the first token, and so on. A token ends after two stages for each
/// layer.
pub proof fn law_tokens_end_in_order(p: PassShape, k: nat)
    requires
        p.valid(),
        p.order == Order::TokenByToken,
        p.layers > 0,
        k <= p.length(),
    ensures
        p.ended(k) == k as int / (2 * p.layers),
        p.ended(p.length() as nat) == p.tokens,
        p.ended((p.length() + 1) as nat) == p.tokens,
        p.ends_token_spec(p.nth(k)) ==> p.nth(k)->Feed_token == p.ended(k),
{
    let l = p.layers as int;
    let n = p.tokens as int;
    assert(2 * (n * l) == n * (2 * l)) by (nonlinear_arith);
    assert(n * l >= 0) by (nonlinear_arith)
        requires
            n >= 0,
            l >= 0,
    ;
    lemma_ended(p, k);
    lemma_ended(p, p.length() as nat);
    lemma_fundamental_div_mod_converse(p.length(), 2 * l, n, 0);
    lemma_nth_place(p, p.length() as nat);
    if p.nth(p.length() as nat) is Feed {
        lemma_before_end(p, p.nth(p.length() as nat));
    }
    lemma_nth_place(p, k);
    if p.ends_token_spec(p.nth(k)) {
        lemma_feed_place(p, k);
    }
}

/// The second stage of a token in its last layer stands at the end of the token's
/// stages.
proof fn lemma_feed_place(p: PassShape, k: nat)
    requires
        p.valid(),
        p.order == Order::TokenByToken,
        p.layers > 0,
        k <= p.length(),
        p.nth(k) is Feed,
    ensures
        k as int / (2 * p.layers) == p.nth(k)->Feed_token,
        k as int % (2 * p.layers) == 2 * p.nth(k)->Feed_layer + 1,
{
    lemma_nth_place(p, k);
    let l = p.layers as int;
    let layer = p.nth(k)->Feed_layer as int;
    let token = p.nth(k)->Feed_token as int;
    assert(2 * (token * l + layer) == token * (2 * l) + 2 * layer) by (nonlinear_arith);
    assert((2 * l) * token == token * (2 * l)) by (nonlinear_arith);
    lemma_fundamental_div_mod_converse(k as int, 2 * l, token, 2 * layer + 1);
}

proof fn lemma_ended(p: PassShape, k: nat)
    requires
        p.valid(),
        p.order == Order::TokenByToken,
        p.layers > 0,
        k <= p.length(),
    ensures
        p.ended(k) == k as int / (2 * p.layers),
    decreases k,
{
    let l = p.layers as int;
    if k == 0 {
        lemma_fundamental_div_mod_converse(0, 2 * l, 0, 0);
        assert((2 * l) * 0 == 0);
    } else {
        let q = (k - 1) as nat;
        lemma_ended(p, q);
        lemma_nth_place(p, q);
        let s = p.nth(q);
        lemma_before_end(p, s);
        match s {
            Stage::Feed { layer, token } => {
                lemma_feed_place(p, q);
                lemma_fundamental_div_mod(q as int, 2 * l);
                if layer + 1 == p.layers {
                    assert((2 * l) * (token + 1) == (2 * l) * token + 2 * l) by (nonlinear_arith);
                    lemma_fundamental_div_mod_converse(k as int, 2 * l, token + 1, 0);
                } else {
                    lemma_fundamental_div_mod_converse(k as int, 2 * l, token as int, 2 * layer
                        + 2);
                }
            },
            Stage::Attend { layer, token, .. } => {
                assert(2 * (token * l + layer) == token * (2 * l) + 2 * layer) by (nonlinear_arith);
                lemma_fundamental_div_mod_converse(q as int, 2 * l, token as int, 2 * layer as int);
                lemma_fundamental_div_mod_converse(
                    k as int,
                    2 * l,
                    token as int,
                    2 * layer + 1,
                );
            },
            _ => {},
        }
    }
}

/// Where one token after another goes through all layers, token `t` attends in
/// layer `l` as stage `2 * (t * layers + l)`, at position `start + t`, and is fed
/// forward in the next; the last token is normed after all of them.
pub proof fn law_tokens_go_through_layers_in_turn(p: PassShape, t: int, l: int)
    requires
        p.valid(),
        p.order == Order::TokenByToken,
        0 <= t < p.tokens,
        0 <= l < p.layers,
    ensures
        p.nth((2 * (t * p.layers + l)) as nat) == (Stage::Attend {
            layer: l as usize,
            token: t as usize,
            position: (p.start + t) as usize,
        }),
        p.nth((2 * (t * p.layers + l) + 1) as nat) == (Stage::Feed {
            layer: l as usize,
            token: t as usize,
        }),
        p.nth((2 * (p.tokens * p.layers)) as nat) == (Stage::Finish {
            token: (p.tokens - 1) as usize,
        }),
        p.nth((2 * (p.tokens * p.layers) + 1) as nat) == Stage::Done,
{
    assert(t * p.layers >= 0 && p.tokens * p.layers >= 0) by (nonlinear_arith)
        requires
            t >= 0,
    ;
    let a = Stage::Attend {
        layer: l as usize,
        token: t as usize,
        position: (p.start + t) as usize,
    };
    law_pass_reaches_every_stage(p, a, (2 * (t * p.layers + l)) as nat);
    let f = Stage::Feed { layer: l as usize, token: t as usize };
    law_pass_reaches_every_stage(p, f, (2 * (t * p.layers + l) + 1) as nat);
    let e = Stage::Finish { token: (p.tokens - 1) as usize };
    law_pass_reaches_every_stage(p, e, (2 * (p.tokens * p.layers)) as nat);
    assert(p.nth((2 * (p.tokens * p.layers) + 1) as nat) == p.after_spec(e));
}

/// Where a layer takes one token after another, token `t` attends in layer `l` as
/// stage `2 * (l * tokens + t)`, at position `start + t`, and is fed forward in
/// the next; the last token is normed after all of them.
pub proof fn law_layers_take_tokens_in_turn(p: PassShape, t: int, l: int)
    requires
        p.valid(),
        p.order == Order::LayerByLayer,
        0 <= t < p.tokens,
        0 <= l < p.layers,
    ensures
        p.nth((2 * (l * p.tokens + t)) as nat) == (Stage::Attend {
            layer: l as usize,
            token: t as usize,
            position: (p.start + t) as usize,
        }),
        p.nth((2 * (l * p.tokens + t) + 1) as nat) == (Stage::Feed {
            layer: l as usize,
            token: t as usize,
        }),
        p.nth((2 * (p.layers * p.tokens)) as nat) == (Stage::Finish {
            token: (p.tokens - 1) as usize,
        }),
{
    assert(l * p.tokens >= 0 && p.layers * p.tokens >= 0) by (nonlinear_arith)
        requires
            l >= 0,
    ;
    let a = Stage::Attend {
        layer: l as usize,
        token: t as usize,
        position: (p.start + t) as usize,
    };
    law_pass_reaches_every_stage(p, a, (2 * (l * p.tokens + t)) as nat);
    let f = Stage::Feed { layer: l as usize, token: t as usize };
    law_pass_reaches_every_stage(p, f, (2 * (l * p.tokens + t) + 1) as nat);
    let e = Stage::Finish { token: (p.tokens - 1) as usize };
    law_pass_reaches_every_stage(p, e, (2 * (p.layers * p.tokens)) as nat);
}

/// Where tokens attend at once, each layer has one attention, which is for all
/// tokens, and then feeds the tokens forward in order.
pub proof fn law_tokens_attend_at_once(p: PassShape, t: int, l: int)
    requires
        p.valid(),
        p.order == Order::Together,
        0 <= t < p.tokens,
        0 <= l < p.layers,
    ensures
        p.nth((l * (p.tokens + 1)) as nat) == (Stage::Attend {
            layer: l as usize,
            token: 0,
            position: p.start,
        }),
        p.nth((l * (p.tokens + 1) + 1 + t) as nat) == (Stage::Feed {
            layer: l as usize,
            token: t as usize,
        }),
        p.nth((p.layers * (p.tokens + 1)) as nat) == (Stage::Finish {
            token: (p.tokens - 1) as usize,
        }),
{
    assert(l * (p.tokens + 1) >= 0 && p.layers * (p.tokens + 1) >= 0) by (nonlinear_arith)
        requires
            l >= 0,
    ;
    let a = Stage::Attend { layer: l as usize, token: 0, position: p.start };
    law_pass_reaches_every_stage(p, a, (l * (p.tokens + 1)) as nat);
    let f = Stage::Feed { layer: l as usize, token: t as usize };
    law_pass_reaches_every_stage(p, f, (l * (p.tokens + 1) + 1 + t) as nat);
    let e = Stage::Finish { token: (p.tokens - 1) as usize };
    law_pass_reaches_every_stage(p, e, (p.layers * (p.tokens + 1)) as nat);
}

/// A token ends with the second stage of the last layer, and with no other. A
/// cache that counts tokens moves on then, where one token after another goes
/// through all layers; with every attention, where a layer takes one token after
/// another; and never, where tokens attend at once.
pub proof fn law_caches_move_on_with_tokens(p: PassShape, s: Stage)
    ensures
        p.ends_token_spec(s) <==> (s matches Stage::Feed { layer, token } && layer == p.layers - 1),
        p.order == Order::TokenByToken ==> (p.advances_cache_spec(s) <==> (s matches Stage::Feed {
            layer,
            token,
        } && layer == p.layers - 1)),
        p.order == Order::LayerByLayer ==> (p.advances_cache_spec(s) <==> s is Attend),
        p.order == Order::Together ==> !p.advances_cache_spec(s),
        p.layers > 0 ==> p.ended_at_once_spec() == 0,
        p.layers == 0 ==> p.ended_at_once_spec() == p.tokens,
{
}

/// A pass without layers or without tokens has nothing but its end.
pub proof fn law_empty_passes_end_at_once(p: PassShape)
    requires
        p.layers == 0 || p.tokens == 0,
    ensures
        p.first_spec() is Finish,
        p.tokens > 0 ==> p.first_spec()->Finish_token == p.tokens - 1,
        p.tokens == 0 ==> p.first_spec()->Finish_token == 0,
{
}

/// A pass begins with the rows of its tokens, in their order: element `j` of the
/// state of token `t` is element `j` of that token's row of the table. It begins
/// at the given position and takes all tokens through all layers.
pub proof fn law_pass_begins_with_rows_of_tokens(
    p: Pass,
    order: Order,
    layers: nat,
    start: nat,
    table: Seq<u32>,
    width: nat,
    tokens: Seq<u32>,
    t: int,
    j: int,
)
    requires
        p.begins(order, layers, start, table, width, tokens),
        all_have_rows(table, width, tokens),
        0 <= t < tokens.len(),
        0 <= j < width,
    ensures
        p.shape.order == order,
        p.shape.layers == layers,
        p.shape.start == start,
        p.shape.tokens == tokens.len(),
        p.states@.len() == tokens.len() * width,
        p.states@[t * width + j] == table[tokens[t] * width + j],
{
    law_states_are_rows_of_tokens(table, width, tokens, t, j);
}

} // verus!
