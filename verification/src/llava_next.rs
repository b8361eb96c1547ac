//! LLaVA-NeXT: images in tiles.

use crate::common::embedding::all_have_rows;
use crate::common::linear::LoadedLora;
use crate::common::pass::{Order, Pass};
use crate::config::{ModelConfig, ModelConfigView};
use crate::error::{follows, invalid_config, ArchError, ArchErrorView, ArchResult};
use crate::gguf::{GgufModel, TensorMap};
use crate::llama::{is_llama, load_llama_from_gguf, model_patched, LlamaModel};
use crate::llava::clip::{patch_of, ClipEncoder, ClipInput};
use crate::llava::model::{is_projector, is_vision, llava_failure, load_projector, load_vision};
use crate::llava::projector::MmProjector;
use crate::metadata::{meta_u32, size_or, MetadataMap, MetadataStore, MetadataValue};
use crate::text::{decimal, decimal_string, joined};
use vstd::prelude::*;

verus! {

/// How an image is split into tiles.
#[derive(Debug)]
pub struct AnyresTileConfig {
    /// Side of a tile, in pixels.
    pub tile_size: usize,
    /// Greatest number of tiles.
    pub max_tiles: usize,
    /// The grids to choose from: columns and rows of tiles.
    pub grid_pinpoints: Vec<(usize, usize)>,
}

/// The grids to choose from where the metadata gives none.
pub open spec fn default_pinpoints() -> Seq<(usize, usize)> {
    seq![(1usize, 2usize), (2usize, 1usize), (2usize, 2usize), (3usize, 1usize), (1usize, 3usize)]
}

fn default_grid() -> (v: Vec<(usize, usize)>)
    ensures
        v@ == default_pinpoints(),
{
    let v: Vec<(usize, usize)> = vec![(1, 2), (2, 1), (2, 2), (3, 1), (1, 3)];
    assert(v@ =~= default_pinpoints());
    v
}

impl AnyresTileConfig {
    /// The configuration of models whose metadata gives none.
    pub fn default_llava16() -> (c: Self)
        ensures
            c.tile_size == 336,
            c.max_tiles == 6,
            c.grid_pinpoints@ == default_pinpoints(),
    {
        AnyresTileConfig { tile_size: 336, max_tiles: 6, grid_pinpoints: default_grid() }
    }
}

/// The integers of a list, in order; other values are left out.
pub open spec fn integers_of(values: Seq<MetadataValue>) -> Seq<u32>
    decreases values.len(),
{
    if values.len() == 0 {
        Seq::empty()
    } else {
        match values.last().u32_value() {
            Some(v) => integers_of(values.drop_last()).push(v),
            None => integers_of(values.drop_last()),
        }
    }
}

/// The grid for a width and a height in pixels: `None` where it would have no
/// tile.
pub open spec fn grid_of(tile_size: usize, w: u32, h: u32) -> Option<(usize, usize)> {
    if tile_size > 0 && w as usize / tile_size > 0 && h as usize / tile_size > 0 {
        Some((w as usize / tile_size, h as usize / tile_size))
    } else {
        None
    }
}

/// The grids for the first `n` pairs of a list of widths and heights; pairs
/// without a tile are left out.
pub open spec fn grids_of(tile_size: usize, flat: Seq<u32>, n: nat) -> Seq<(usize, usize)>
    decreases n,
{
    if n == 0 {
        Seq::empty()
    } else {
        match grid_of(tile_size, flat[2 * (n - 1)], flat[2 * (n - 1) + 1]) {
            Some(g) => grids_of(tile_size, flat, (n - 1) as nat).push(g),
            None => grids_of(tile_size, flat, (n - 1) as nat),
        }
    }
}

/// The grids that metadata gives: a list of widths and heights in pixels, where
/// there is one; a last width without a height is left out.
pub open spec fn pinpoints_of(m: MetadataMap, tile_size: usize) -> Seq<(usize, usize)> {
    if m.contains_key("llava16.image_grid_pinpoints"@) {
        match m["llava16.image_grid_pinpoints"@] {
            MetadataValue::Array(values) => {
                let flat = integers_of(values@);
                grids_of(tile_size, flat, flat.len() / 2)
            },
            _ => default_pinpoints(),
        }
    } else {
        default_pinpoints()
    }
}

/// Whether a configuration is the one that metadata gives.
pub open spec fn is_tiler(t: AnyresTileConfig, m: MetadataMap) -> bool {
    &&& t.tile_size == size_or(m, "llava16.tile_size"@, 336)
    &&& t.max_tiles == size_or(m, "llava16.max_tiles"@, 6)
    &&& t.grid_pinpoints@ == pinpoints_of(m, t.tile_size)
}

fn integers(values: &Vec<MetadataValue>) -> (v: Vec<u32>)
    ensures
        v@ == integers_of(values@),
{
    let mut v: Vec<u32> = Vec::new();
    let mut i: usize = 0;
    assert(values@.take(0) =~= Seq::<MetadataValue>::empty());
    while i < values.len()
        invariant
            i <= values@.len(),
            v@ == integers_of(values@.take(i as int)),
        decreases values@.len() - i,
    {
        proof {
            let next = values@.take(i + 1);
            assert(next.drop_last() =~= values@.take(i as int));
            assert(next.last() == values@[i as int]);
        }
        match values[i].as_u32() {
            Some(x) => {
                v.push(x);
            },
            None => {},
        }
        i = i + 1;
    }
    assert(values@.take(i as int) =~= values@);
    v
}

fn grids(tile_size: usize, flat: &Vec<u32>) -> (v: Vec<(usize, usize)>)
    ensures
        v@ == grids_of(tile_size, flat@, flat@.len() / 2),
{
    let mut v: Vec<(usize, usize)> = Vec::new();
    let total: usize = flat.len();
    let n: usize = total / 2;
    let mut i: usize = 0;
    while i < n
        invariant
            i <= n,
            total == flat@.len(),
            n == total / 2,
            v@ == grids_of(tile_size, flat@, i as nat),
        decreases n - i,
    {
        let w: usize = flat[2 * i] as usize;
        let h: usize = flat[2 * i + 1] as usize;
        if tile_size > 0 {
            let cols: usize = w / tile_size;
            let rows: usize = h / tile_size;
            if cols > 0 && rows > 0 {
                v.push((cols, rows));
            }
        }
        i = i + 1;
    }
    v
}

/// Reads how an image is split into tiles.
pub fn parse_tiler_config(metadata: &MetadataStore) -> (t: AnyresTileConfig)
    ensures
        is_tiler(t, metadata@),
{
    let tile_size: usize = metadata.usize_or("llava16.tile_size", 336);
    let max_tiles: usize = metadata.usize_or("llava16.max_tiles", 6);
    let grid_pinpoints = match metadata.get("llava16.image_grid_pinpoints") {
        Some(MetadataValue::Array(values)) => grids(tile_size, &integers(values)),
        _ => default_grid(),
    };
    AnyresTileConfig { tile_size, max_tiles, grid_pinpoints }
}

/// Every grid that metadata gives has a column and a row.
pub proof fn law_grids_have_tiles(m: MetadataMap, tile_size: usize, i: int)
    requires
        0 <= i < pinpoints_of(m, tile_size).len(),
    ensures
        pinpoints_of(m, tile_size)[i].0 > 0,
        pinpoints_of(m, tile_size)[i].1 > 0,
{
    if m.contains_key("llava16.image_grid_pinpoints"@) {
        match m["llava16.image_grid_pinpoints"@] {
            MetadataValue::Array(values) => {
                let flat = integers_of(values@);
                lemma_grids_have_tiles(tile_size, flat, flat.len() / 2, i);
            },
            _ => {},
        }
    }
}

proof fn lemma_grids_have_tiles(tile_size: usize, flat: Seq<u32>, n: nat, i: int)
    requires
        0 <= i < grids_of(tile_size, flat, n).len(),
    ensures
        grids_of(tile_size, flat, n)[i].0 > 0,
        grids_of(tile_size, flat, n)[i].1 > 0,
    decreases n,
{
    if n > 0 && i < grids_of(tile_size, flat, (n - 1) as nat).len() {
        lemma_grids_have_tiles(tile_size, flat, (n - 1) as nat, i);
    }
}

/// A vision encoder for tiles, a projector and a decoder.
#[derive(Debug)]
pub struct LlavaNextModel {
    /// The vision encoder, for tiles and for the thumbnail.
    pub vision_encoder: ClipEncoder,
    /// The projector.
    pub mm_projector: MmProjector,
    /// The decoder.
    pub language_model: LlamaModel,
    /// Size of a feature of the vision encoder.
    pub clip_hidden_size: usize,
    /// How an image is split into tiles.
    pub tiler: AnyresTileConfig,
}

/// Whether a model holds the tensors and the metadata of a file.
pub open spec fn is_llava_next(
    l: LlavaNextModel,
    meta: MetadataMap,
    m: TensorMap,
    c: ModelConfigView,
) -> bool {
    &&& is_llama(l.language_model, m, c)
    &&& is_projector(l.mm_projector, m, c.hidden_size)
    &&& is_vision(l.vision_encoder, m, l.mm_projector.clip_hidden_size)
    &&& l.clip_hidden_size == l.mm_projector.clip_hidden_size
    &&& is_tiler(l.tiler, meta)
}

/// Why an image is refused.
#[derive(Debug)]
pub enum ImageError {
    /// The request as a whole cannot be served.
    Request(ArchError),
    /// The vision encoder refused a tile.
    Tile {
        /// The tile.
        index: usize,
        /// Why.
        error: ArchError,
    },
    /// The vision encoder refused the thumbnail.
    Thumbnail {
        /// Why.
        error: ArchError,
    },
}

/// The tiles and the thumbnail of an image, ready for the encoder.
#[derive(Debug)]
pub struct ImageInput {
    /// The tiles.
    pub tiles: Vec<ClipInput>,
    /// The thumbnail.
    pub thumbnail: ClipInput,
}

/// Whether an image is cut into the patches of its pixels, with the place of
/// each position's embedding.
pub open spec fn is_cut(x: ClipInput, e: ClipEncoder, pixels: Seq<u32>) -> bool {
    &&& x.patches@.len() == e.patch_count()
    &&& forall|k: int|
        0 <= k < x.patches@.len() ==> (#[trigger] x.patches@[k])@ == patch_of(
            pixels,
            e.image_size as nat,
            e.patch_size as nat,
            k,
        )
    &&& x.positions@ == Seq::new(e.patch_count() + 1, |p: int| e.position_start(p))
}

/// The first tile that the encoder refuses.
pub open spec fn first_refused(e: ClipEncoder, tiles: Seq<Vec<u32>>, n: nat) -> Option<nat>
    decreases n,
{
    if n == 0 {
        None
    } else {
        match first_refused(e, tiles, (n - 1) as nat) {
            Some(i) => Some(i),
            None => if e.encode_failure(tiles[n - 1]@.len()) is Some {
                Some((n - 1) as nat)
            } else {
                None
            },
        }
    }
}

proof fn lemma_refused_stays(e: ClipEncoder, tiles: Seq<Vec<u32>>, k: nat, n: nat)
    requires
        k <= n,
        first_refused(e, tiles, k) is Some,
    ensures
        first_refused(e, tiles, n) == first_refused(e, tiles, k),
    decreases n,
{
    if k < n {
        lemma_refused_stays(e, tiles, k, (n - 1) as nat);
    }
}

impl LlavaNextModel {
    /// Loads a model: the decoder, the projector and the vision encoder, and
    /// from the metadata how images are split.
    pub fn load(gguf: &GgufModel, config: &ModelConfig) -> (r: ArchResult<Self>)
        ensures
            follows(r, llava_failure(gguf.tensors@, config@)),
            r matches Ok(l) ==> is_llava_next(l, gguf.metadata@, gguf.tensors@, config@),
    {
        let language_model = load_llama_from_gguf(gguf, config)?;
        let mm_projector = load_projector(gguf, config.hidden_size)?;
        let clip_hidden_size: usize = mm_projector.clip_hidden_size;
        let vision_encoder = load_vision(gguf, clip_hidden_size);
        let tiler = parse_tiler_config(&gguf.metadata);
        Ok(LlavaNextModel { vision_encoder, mm_projector, language_model, clip_hidden_size, tiler })
    }

    /// Number of features of an image with `tiles` tiles, the thumbnail's among
    /// them.
    pub open spec fn feature_count(&self, tiles: nat) -> nat {
        (tiles + 1) * (self.vision_encoder.patch_count() * self.vision_encoder.hidden_size as nat)
    }

    /// Checks the sides of an image, before it is split.
    pub fn check_size(&self, img_w: usize, img_h: usize) -> (r: ArchResult<()>)
        ensures
            follows(
                r,
                if img_w == 0 || img_h == 0 {
                    Some(
                        ArchErrorView::InvalidConfig {
                            detail: "encode_image: img_w and img_h must be > 0"@,
                        },
                    )
                } else {
                    None
                },
            ),
    {
        if img_w == 0 || img_h == 0 {
            return Err(invalid_config("encode_image: img_w and img_h must be > 0"));
        }
        Ok(())
    }

    /// Checks the tiles of an image and its thumbnail for both the vision
    /// encoder and the projector, and cuts them into patches. The first tile
    /// that is refused decides, then the thumbnail, then the projector.
    pub fn encode_image(&self, tiles: &Vec<Vec<u32>>, thumbnail: &Vec<u32>) -> (r: Result<
        ImageInput,
        ImageError,
    >)
        requires
            3 * self.vision_encoder.image_size * self.vision_encoder.image_size <= usize::MAX,
            self.vision_encoder.patch_count() <= usize::MAX,
            self.feature_count(tiles@.len()) <= usize::MAX,
        ensures
            match first_refused(self.vision_encoder, tiles@, tiles@.len()) {
                Some(i) => r matches Err(ImageError::Tile { index, error }) && index == i
                    && self.vision_encoder.encode_failure(tiles@[i as int]@.len()) == Some(error@),
                None => match self.vision_encoder.encode_failure(thumbnail@.len()) {
                    Some(v) => r matches Err(ImageError::Thumbnail { error }) && error@ == v,
                    None => match self.mm_projector.project_failure(
                        self.feature_count(tiles@.len()),
                    ) {
                        Some(v) => r matches Err(ImageError::Request(error)) && error@ == v,
                        None => r matches Ok(x) && {
                            &&& x.tiles@.len() == tiles@.len()
                            &&& forall|t: int|
                                0 <= t < x.tiles@.len() ==> is_cut(
                                    #[trigger] x.tiles@[t],
                                    self.vision_encoder,
                                    tiles@[t]@,
                                )
                            &&& is_cut(x.thumbnail, self.vision_encoder, thumbnail@)
                        },
                    },
                },
            },
    {
        let mut inputs: Vec<ClipInput> = Vec::new();
        let mut t: usize = 0;
        while t < tiles.len()
            invariant
                t <= tiles@.len(),
                3 * self.vision_encoder.image_size * self.vision_encoder.image_size <= usize::MAX,
                first_refused(self.vision_encoder, tiles@, t as nat) is None,
                inputs@.len() == t,
                forall|j: int|
                    0 <= j < t ==> is_cut(
                        #[trigger] inputs@[j],
                        self.vision_encoder,
                        tiles@[j]@,
                    ),
            decreases tiles@.len() - t,
        {
            match self.vision_encoder.encode(&tiles[t]) {
                Ok(x) => {
                    inputs.push(x);
                },
                Err(error) => {
                    proof {
                        let k = (t + 1) as nat;
                        assert(first_refused(self.vision_encoder, tiles@, k) == Some(t as nat));
                        lemma_refused_stays(self.vision_encoder, tiles@, k, tiles@.len());
                    }
                    return Err(ImageError::Tile { index: t, error });
                },
            }
            t = t + 1;
        }
        let thumbnail = match self.vision_encoder.encode(thumbnail) {
            Ok(x) => x,
            Err(error) => {
                return Err(ImageError::Thumbnail { error });
            },
        };
        proof {
            let n = tiles@.len() as int;
            let p = self.vision_encoder.patch_count() as int;
            let h = self.vision_encoder.hidden_size as int;
            let f = p * h;
            assert(f >= 0) by (nonlinear_arith)
                requires
                    f == p * h,
                    p >= 0,
                    h >= 0,
            ;
            assert(f <= (n + 1) * f) by (nonlinear_arith)
                requires
                    n >= 0,
                    f >= 0,
            ;
            if f > 0 {
                assert(n + 1 <= (n + 1) * f) by (nonlinear_arith)
                    requires
                        n >= 0,
                        f >= 1,
                ;
            }
        }
        let each: usize = self.vision_encoder.num_patches() * self.vision_encoder.hidden_size;
        let features: usize = if each == 0 {
            assert((tiles@.len() + 1) * 0 == 0) by (nonlinear_arith);
            0
        } else {
            (tiles.len() + 1) * each
        };
        match self.mm_projector.check(features) {
            Ok(_) => Ok(ImageInput { tiles: inputs, thumbnail }),
            Err(error) => Err(ImageError::Request(error)),
        }
    }

    /// How images are split.
    pub fn tiler(&self) -> (t: &AnyresTileConfig)
        ensures
            *t == self.tiler,
    {
        &self.tiler
    }

    /// Size of a feature of the vision encoder.
    pub fn clip_hidden_size(&self) -> (n: usize)
        ensures
            n == self.clip_hidden_size,
    {
        self.clip_hidden_size
    }

    /// Begins a pass of the language model over text.
    pub fn forward(&self, tokens: &Vec<u32>, cached: usize) -> (r: Option<Pass>)
        requires
            cached + tokens@.len() <= usize::MAX,
        ensures
            r is Some <==> all_have_rows(
                self.language_model.token_embd@,
                self.language_model.config.hidden_size as nat,
                tokens@,
            ),
            r matches Some(p) ==> p.begins(
                Order::TokenByToken,
                self.language_model.layers@.len(),
                cached as nat,
                self.language_model.token_embd@,
                self.language_model.config.hidden_size as nat,
                tokens@,
            ),
    {
        self.language_model.forward(tokens, cached)
    }

    /// Begins a pass of the language model over text that ends in the normed
    /// hidden state of the last token.
    pub fn embed(&self, tokens: &Vec<u32>, cached: usize) -> (r: Option<Pass>)
        requires
            cached + tokens@.len() <= usize::MAX,
        ensures
            r is Some <==> all_have_rows(
                self.language_model.token_embd@,
                self.language_model.config.hidden_size as nat,
                tokens@,
            ),
            r matches Some(p) ==> p.begins(
                Order::TokenByToken,
                self.language_model.layers@.len(),
                cached as nat,
                self.language_model.token_embd@,
                self.language_model.config.hidden_size as nat,
                tokens@,
            ),
    {
        self.language_model.embed(tokens, cached)
    }

    /// Number of tokens in the vocabulary.
    pub fn vocab_size(&self) -> (n: usize)
        ensures
            n == self.language_model.config.vocab_size,
    {
        self.language_model.vocab_size()
    }

    /// Greatest number of tokens in a context.
    pub fn max_context_length(&self) -> (n: usize)
        ensures
            n == self.language_model.config.max_context_length,
    {
        self.language_model.max_context_length()
    }

    /// Size of a hidden state of the decoder.
    pub fn hidden_size(&self) -> (n: usize)
        ensures
            n == self.language_model.config.hidden_size,
    {
        self.language_model.hidden_size()
    }

    /// Attaches the adapters of a file to the decoder.
    pub fn apply_lora(&mut self, lora: &LoadedLora) -> (r: ArchResult<()>)
        ensures
            r is Ok,
            model_patched(old(self).language_model, final(self).language_model, lora@),
            final(self).vision_encoder == old(self).vision_encoder,
            final(self).mm_projector == old(self).mm_projector,
            final(self).clip_hidden_size == old(self).clip_hidden_size,
            final(self).tiler == old(self).tiler,
    {
        self.language_model.apply_lora(lora)
    }
}

/// The failure of a tile, where `reason` says why the encoder refused it.
pub fn tile_failed(index: usize, reason: &str) -> (e: ArchError)
    ensures
        e@ == (ArchErrorView::ForwardPassError {
            layer: index,
            message: "CLIP tile "@ + decimal(index as nat) + " encode error: "@ + reason@,
        }),
{
    let number = decimal_string(index);
    ArchError::ForwardPassError {
        layer: index,
        message: joined("CLIP tile ", number.as_str()).concat(" encode error: ").concat(reason),
    }
}

/// The failure of the thumbnail, where `reason` says why the encoder refused
/// it.
pub fn thumbnail_failed(reason: &str) -> (e: ArchError)
    ensures
        e@ == (ArchErrorView::ForwardPassError {
            layer: usize::MAX,
            message: "CLIP thumbnail encode error: "@ + reason@,
        }),
{
    ArchError::ForwardPassError {
        layer: usize::MAX,
        message: joined("CLIP thumbnail encode error: ", reason),
    }
}

/// The tiling that metadata gives has its own keys and defaults: tiles of 336
/// pixels, six at most, and five grids.
pub proof fn law_tiling_has_its_keys(t: AnyresTileConfig, m: MetadataMap)
    requires
        is_tiler(t, m),
    ensures
        meta_u32(m, "llava16.tile_size"@) matches Some(v) ==> t.tile_size == v,
        meta_u32(m, "llava16.tile_size"@) is None ==> t.tile_size == 336,
        meta_u32(m, "llava16.max_tiles"@) matches Some(v) ==> t.max_tiles == v,
        meta_u32(m, "llava16.max_tiles"@) is None ==> t.max_tiles == 6,
        !m.contains_key("llava16.image_grid_pinpoints"@) || !(
        m["llava16.image_grid_pinpoints"@] is Array) ==> t.grid_pinpoints@ == seq![
            (1usize, 2usize),
            (2usize, 1usize),
            (2usize, 2usize),
            (3usize, 1usize),
            (1usize, 3usize),
        ],
{
}

/// The grids of a list of widths and heights have as many columns as tiles fit the
/// width and as many rows as fit the height, in the order of the list, where every
/// pair has room for a tile.
pub proof fn law_grids_divide_by_the_tile(
    t: AnyresTileConfig,
    m: MetadataMap,
    values: Vec<MetadataValue>,
    i: int,
)
    requires
        is_tiler(t, m),
        t.tile_size > 0,
        m.contains_key("llava16.image_grid_pinpoints"@),
        m["llava16.image_grid_pinpoints"@] == MetadataValue::Array(values),
        forall|k: int|
            0 <= k < values@.len() ==> {
                &&& (#[trigger] values@[k]) is Uint32
                &&& values@[k]->Uint32_0 as usize >= t.tile_size
            },
        0 <= i < values@.len() / 2,
    ensures
        t.grid_pinpoints@.len() == values@.len() / 2,
        t.grid_pinpoints@[i].0 == values@[2 * i]->Uint32_0 as usize / t.tile_size,
        t.grid_pinpoints@[i].1 == values@[2 * i + 1]->Uint32_0 as usize / t.tile_size,
{
    lemma_all_integers(values@);
    let flat = integers_of(values@);
    assert forall|k: int| 0 <= k < flat.len() implies (#[trigger] flat[k]) as usize
        >= t.tile_size by {
        assert(values@[k] is Uint32);
    }
    lemma_grids_in_order(t.tile_size, flat, flat.len() / 2, i);
    assert(values@[2 * i] is Uint32);
    assert(values@[2 * i + 1] is Uint32);
}

proof fn lemma_all_integers(values: Seq<MetadataValue>)
    requires
        forall|k: int| 0 <= k < values.len() ==> (#[trigger] values[k]) is Uint32,
    ensures
        integers_of(values).len() == values.len(),
        forall|k: int|
            0 <= k < values.len() ==> #[trigger] integers_of(values)[k] == values[k]->Uint32_0,
    decreases values.len(),
{
    if values.len() > 0 {
        let d = values.drop_last();
        assert forall|k: int| 0 <= k < d.len() implies (#[trigger] d[k]) is Uint32 by {
            assert(values[k] is Uint32);
        }
        lemma_all_integers(d);
        assert(values[values.len() - 1] is Uint32);
        assert forall|k: int| 0 <= k < values.len() implies #[trigger] integers_of(values)[k]
            == values[k]->Uint32_0 by {
            if k < d.len() {
                assert(integers_of(d)[k] == d[k]->Uint32_0);
            }
        }
    }
}

proof fn lemma_grids_in_order(tile_size: usize, flat: Seq<u32>, n: nat, i: int)
    requires
        tile_size > 0,
        2 * n <= flat.len(),
        forall|k: int| 0 <= k < flat.len() ==> (#[trigger] flat[k]) as usize >= tile_size,
        0 <= i < n,
    ensures
        grids_of(tile_size, flat, n).len() == n,
        grids_of(tile_size, flat, n)[i] == (
            flat[2 * i] as usize / tile_size,
            flat[2 * i + 1] as usize / tile_size,
        ),
    decreases n,
{
    reveal_with_fuel(grids_of, 2);
    let w = flat[2 * (n - 1)] as usize;
    let h = flat[2 * (n - 1) + 1] as usize;
    assert(w >= tile_size && h >= tile_size);
    assert(w / tile_size > 0 && h / tile_size > 0) by (nonlinear_arith)
        requires
            w >= tile_size,
            h >= tile_size,
            tile_size > 0,
    ;
    if n > 1 {
        lemma_grids_in_order(tile_size, flat, (n - 1) as nat, if i < n - 1 {
            i
        } else {
            0
        });
    }
}

/// Values that are no integers are left out of a list, and the others keep their
/// order.
pub proof fn law_other_values_are_left_out(values: Seq<MetadataValue>, v: MetadataValue)
    ensures
        integers_of(Seq::empty()) == Seq::<u32>::empty(),
        v matches MetadataValue::Uint32(x) ==> integers_of(values.push(v)) == integers_of(
            values,
        ).push(x),
        !(v is Uint32) ==> integers_of(values.push(v)) == integers_of(values),
{
    assert(values.push(v).drop_last() =~= values);
}

/// A pair without room for a tile in both directions gives no grid.
pub proof fn law_small_pairs_give_no_grid(tile_size: usize, w: u32, h: u32)
    ensures
        grid_of(tile_size, w, h) is Some <==> tile_size > 0 && w as usize >= tile_size
            && h as usize >= tile_size,
        grid_of(tile_size, w, h) matches Some(g) ==> g.0 == w as usize / tile_size && g.1
            == h as usize / tile_size,
{
    if tile_size > 0 {
        let a = w as usize;
        let b = h as usize;
        assert((a / tile_size > 0 <==> a >= tile_size) && (b / tile_size > 0 <==> b >= tile_size))
            by (nonlinear_arith)
            requires
                tile_size > 0,
        ;
    }
}

/// The first tile that is refused is the one before which all are taken, and there
/// is none where all are taken.
pub proof fn law_first_refused_tile_is_found(e: ClipEncoder, tiles: Seq<Vec<u32>>, n: nat)
    ensures
        match first_refused(e, tiles, n) {
            Some(k) => {
                &&& k < n
                &&& e.encode_failure(tiles[k as int]@.len()) is Some
                &&& forall|j: int|
                    0 <= j < k ==> e.encode_failure((#[trigger] tiles[j])@.len()) is None
            },
            None => forall|j: int|
                0 <= j < n ==> e.encode_failure((#[trigger] tiles[j])@.len()) is None,
        },
    decreases n,
{
    if n > 0 {
        law_first_refused_tile_is_found(e, tiles, (n - 1) as nat);
    }
}

/// An image has the features of its tiles and those of its thumbnail, one of the
/// hidden size for each patch.
pub proof fn law_thumbnail_adds_features(l: LlavaNextModel, tiles: nat)
    ensures
        ({
            let each = l.vision_encoder.patch_count() * (l.vision_encoder.hidden_size as nat);
            &&& l.feature_count(0) == each
            &&& l.feature_count(tiles + 1) == l.feature_count(tiles) + each
        }),
{
    let each = l.vision_encoder.patch_count() * (l.vision_encoder.hidden_size as nat);
    assert((tiles + 1 + 1) * each == (tiles + 1) * each + each) by (nonlinear_arith);
    assert((0 + 1) * each == each) by (nonlinear_arith);
}

} // verus!
