//! The tensors of a GGUF file and the decoding of their bytes.

use crate::bits::{widen_half, widened, F32_ZERO};
use crate::error::{ArchError, ArchErrorView, ArchResult, GgufError, GgufErrorView, QuantError};
use crate::metadata::MetadataStore;
use crate::table::NameTable;
use vstd::arithmetic::div_mod::{
    lemma_fundamental_div_mod, lemma_fundamental_div_mod_converse,
};
use vstd::prelude::*;

verus! {

/// How the elements of a tensor are stored.
#[derive(Clone, Copy, Debug, PartialEq, Eq)]
pub enum TensorType {
    /// Four little-endian bytes for each element.
    F32,
    /// Two little-endian bytes for each element, in half precision.
    F16,
    /// Quantized blocks: `block_size` elements in `block_bytes` bytes each.
    Blocks {
        /// The number of the quantization format.
        id: u32,
        /// Elements in one block.
        block_size: usize,
        /// Bytes in one block.
        block_bytes: usize,
    },
}

/// What a quantization kernel made of a tensor's blocks.
#[derive(Debug)]
pub enum KernelOutcome {
    /// There is no kernel for the format, which is given by its name.
    Unsupported { format: String, error: QuantError },
    /// The outcome of each block in order, up to the first that failed. A block
    /// gives the patterns of its elements.
    Blocks(Vec<Result<Vec<u32>, QuantError>>),
}

/// The product of a tensor's dimensions: the number of its elements.
pub open spec fn element_count(dims: Seq<usize>) -> nat
    decreases dims.len(),
{
    if dims.len() == 0 {
        1
    } else {
        element_count(dims.drop_last()) * dims.last() as nat
    }
}

/// The number of blocks that hold `n` elements.
pub open spec fn block_count_spec(n: nat, block_size: nat) -> nat {
    if n % block_size == 0 {
        n / block_size
    } else {
        n / block_size + 1
    }
}

/// The number of elements in block `b` of `n` elements.
pub open spec fn block_span(n: nat, block_size: nat, b: nat) -> int {
    if (b + 1) * block_size <= n {
        block_size as int
    } else {
        n - b * block_size
    }
}

/// The four bytes from `at` as a little-endian number.
pub open spec fn le_u32(s: Seq<u8>, at: int) -> u32 {
    (s[at] + 0x100 * s[at + 1] + 0x1_0000 * s[at + 2] + 0x100_0000 * s[at + 3]) as u32
}

/// The two bytes from `at` as a little-endian number.
pub open spec fn le_u16(s: Seq<u8>, at: int) -> u16 {
    (s[at] + 0x100 * s[at + 1]) as u16
}

/// Whether the kernel's outcomes are those of a run over the blocks of `n`
/// elements that stopped at the first failure, and the bytes hold every block
/// that was reached.
pub open spec fn kernel_run(
    n: nat,
    block_size: nat,
    block_bytes: nat,
    bytes: nat,
    blocks: Seq<Result<Vec<u32>, QuantError>>,
) -> bool {
    &&& block_size > 0
    &&& blocks.len() <= block_count_spec(n, block_size)
    &&& blocks.len() * block_bytes <= bytes
    &&& blocks.len() < block_count_spec(n, block_size) ==> blocks.len() > 0 && blocks.last() is Err
    &&& forall|b: int|
        #![trigger blocks[b]]
        0 <= b < blocks.len() - 1 ==> blocks[b] is Ok
    &&& forall|b: int|
        #![trigger blocks[b]]
        0 <= b < blocks.len() && blocks[b] is Ok ==> blocks[b]->Ok_0@.len() == block_span(
            n,
            block_size,
            b as nat,
        )
}

/// Whether the parts of a tensor fit together: its elements can be counted,
/// and what a kernel made of it covers it.
pub open spec fn record_fits(
    dims: Seq<usize>,
    tensor_type: TensorType,
    data: Option<Vec<u8>>,
    kernel: KernelOutcome,
) -> bool {
    &&& element_count(dims) <= usize::MAX
    &&& match (tensor_type, data, kernel) {
        (
            TensorType::Blocks { id, block_size, block_bytes },
            Some(d),
            KernelOutcome::Blocks(blocks),
        ) => kernel_run(
            element_count(dims),
            block_size as nat,
            block_bytes as nat,
            d@.len(),
            blocks@,
        ),
        _ => true,
    }
}

/// A tensor of a file: its shape, its storage type, its bytes where they can be
/// had, and what a quantization kernel made of them.
#[derive(Debug)]
pub struct TensorRecord {
    dimensions: Vec<usize>,
    tensor_type: TensorType,
    data: Option<Vec<u8>>,
    kernel: KernelOutcome,
    n_elements: usize,
}

impl TensorRecord {
    #[verifier::type_invariant]
    spec fn fits(self) -> bool {
        &&& record_fits(self.dimensions@, self.tensor_type, self.data, self.kernel)
        &&& self.n_elements == element_count(self.dimensions@)
    }

    /// The dimensions.
    pub closed spec fn dims(self) -> Seq<usize> {
        self.dimensions@
    }

    /// The storage type.
    pub closed spec fn kind(self) -> TensorType {
        self.tensor_type
    }

    /// The bytes.
    pub closed spec fn bytes(self) -> Option<Seq<u8>> {
        match self.data {
            Some(d) => Some(d@),
            None => None,
        }
    }

    /// What the kernel made of the bytes.
    pub closed spec fn outcome(self) -> KernelOutcome {
        self.kernel
    }

    /// Puts a tensor together; `None` where its parts do not fit.
    pub fn new(
        dimensions: Vec<usize>,
        tensor_type: TensorType,
        data: Option<Vec<u8>>,
        kernel: KernelOutcome,
    ) -> (r: Option<TensorRecord>)
        ensures
            r is Some <==> record_fits(dimensions@, tensor_type, data, kernel),
            r matches Some(t) ==> {
                &&& t.dims() == dimensions@
                &&& t.kind() == tensor_type
                &&& t.bytes() == (match data {
                    Some(d) => Some(d@),
                    None => None,
                })
                &&& t.outcome() == kernel
            },
    {
        let n_elements: usize = match checked_count(&dimensions) {
            Some(n) => n,
            None => {
                return None;
            },
        };
        let ok: bool = match (&tensor_type, &data, &kernel) {
            (
                TensorType::Blocks { id: _, block_size, block_bytes },
                Some(d),
                KernelOutcome::Blocks(blocks),
            ) => check_run(n_elements, *block_size, *block_bytes, d.len(), blocks),
            _ => true,
        };
        if ok {
            Some(TensorRecord { dimensions, tensor_type, data, kernel, n_elements })
        } else {
            None
        }
    }

    /// The number of elements.
    pub fn n_elements(&self) -> (n: usize)
        ensures
            n == element_count(self.dims()),
    {
        proof {
            use_type_invariant(self);
        }
        self.n_elements
    }

    /// The storage type.
    pub fn tensor_type(&self) -> (t: TensorType)
        ensures
            t == self.kind(),
    {
        self.tensor_type
    }

    /// The dimensions.
    pub fn dimensions(&self) -> (d: &Vec<usize>)
        ensures
            d@ == self.dims(),
    {
        &self.dimensions
    }

    /// What the kernel made of the bytes.
    pub fn kernel(&self) -> (k: &KernelOutcome)
        ensures
            *k == self.outcome(),
    {
        &self.kernel
    }

    /// The bytes, where they can be had.
    pub fn data(&self) -> (d: Option<&Vec<u8>>)
        ensures
            match d {
                Some(v) => self.bytes() == Some(v@),
                None => self.bytes() is None,
            },
    {
        match &self.data {
            Some(d) => Some(d),
            None => None,
        }
    }
}

/// Counts elements; `None` where the count does not fit.
fn checked_count(dims: &Vec<usize>) -> (r: Option<usize>)
    ensures
        match r {
            Some(n) => n == element_count(dims@),
            None => element_count(dims@) > usize::MAX,
        },
{
    let mut i: usize = 0;
    let mut n: usize = 1;
    let mut zero: bool = false;
    // A zero anywhere makes the product zero, whatever the rest is.
    while i < dims.len()
        invariant
            i <= dims@.len(),
            zero ==> exists|j: int| 0 <= j < i && #[trigger] dims@[j] == 0,
            !zero ==> forall|j: int| 0 <= j < i ==> #[trigger] dims@[j] != 0,
        decreases dims@.len() - i,
    {
        if dims[i] == 0 {
            assert(dims@[i as int] == 0);
            zero = true;
        }
        i = i + 1;
    }
    if zero {
        proof {
            lemma_count_zero(dims@);
        }
        return Some(0);
    }
    let mut k: usize = 0;
    while k < dims.len()
        invariant
            k <= dims@.len(),
            n == element_count(dims@.take(k as int)),
            forall|j: int| 0 <= j < dims@.len() ==> #[trigger] dims@[j] != 0,
        decreases dims@.len() - k,
    {
        let ghost next = dims@.take(k + 1);
        proof {
            assert(next.drop_last() =~= dims@.take(k as int));
            assert(next.last() == dims@[k as int]);
        }
        match n.checked_mul(dims[k]) {
            Some(p) => {
                n = p;
            },
            None => {
                proof {
                    lemma_count_grows(dims@, k + 1);
                }
                return None;
            },
        }
        k = k + 1;
    }
    assert(dims@.take(k as int) =~= dims@);
    Some(n)
}

proof fn lemma_count_zero(dims: Seq<usize>)
    requires
        exists|j: int| 0 <= j < dims.len() && #[trigger] dims[j] == 0,
    ensures
        element_count(dims) == 0,
    decreases dims.len(),
{
    let j = choose|j: int| 0 <= j < dims.len() && #[trigger] dims[j] == 0;
    if dims.last() == 0 {
        assert(element_count(dims.drop_last()) * 0 == 0) by (nonlinear_arith);
    } else {
        assert(dims.drop_last()[j] == 0);
        lemma_count_zero(dims.drop_last());
        assert(0 * dims.last() as nat == 0) by (nonlinear_arith);
    }
}

proof fn lemma_count_grows(dims: Seq<usize>, k: int)
    requires
        0 <= k <= dims.len(),
        forall|j: int| 0 <= j < dims.len() ==> #[trigger] dims[j] != 0,
    ensures
        element_count(dims) >= element_count(dims.take(k)),
    decreases dims.len(),
{
    if k == dims.len() {
        assert(dims.take(k) =~= dims);
    } else {
        let d = dims.drop_last();
        assert forall|j: int| 0 <= j < d.len() implies #[trigger] d[j] != 0 by {
            assert(d[j] == dims[j]);
        }
        lemma_count_grows(d, k);
        assert(d.take(k) =~= dims.take(k));
        let c = element_count(d);
        let l = dims.last() as nat;
        assert(dims[dims.len() - 1] != 0);
        assert(c * l >= c) by (nonlinear_arith)
            requires
                l >= 1,
        ;
    }
}

/// The number of blocks that hold `n` elements.
pub fn block_count(n: usize, block_size: usize) -> (c: usize)
    requires
        block_size > 0,
    ensures
        c == block_count_spec(n as nat, block_size as nat),
{
    let q: usize = n / block_size;
    if n % block_size == 0 {
        q
    } else {
        proof {
            lemma_fundamental_div_mod(n as int, block_size as int);
            assert(q < usize::MAX) by (nonlinear_arith)
                requires
                    n as int == block_size * q + n % block_size,
                    n % block_size > 0,
                    block_size > 0,
                    n <= usize::MAX,
            ;
        }
        q + 1
    }
}

/// Every block before the last is full, and the last holds what is left.
proof fn lemma_block_fits(n: nat, block_size: nat, b: nat)
    requires
        block_size > 0,
        b < block_count_spec(n, block_size),
    ensures
        b * block_size < n,
        0 < block_span(n, block_size, b) <= block_size,
        b * block_size + block_span(n, block_size, b) <= n,
        b + 1 < block_count_spec(n, block_size) ==> block_span(n, block_size, b) == block_size,
{
    let q = n / block_size;
    lemma_fundamental_div_mod(n as int, block_size as int);
    let r = n % block_size;
    assert(n == block_size * q + r);
    assert(b * block_size < n) by (nonlinear_arith)
        requires
            n == block_size * q + r,
            block_size > 0,
            b < q || (b == q && r > 0),
            r >= 0,
    ;
    assert((b + 1) * block_size == b * block_size + block_size) by (nonlinear_arith);
    if b + 1 < block_count_spec(n, block_size) {
        assert((b + 1) * block_size <= n) by (nonlinear_arith)
            requires
                n == block_size * q + r,
                b + 1 <= q,
                r >= 0,
        ;
    }
}

/// The number of elements that block `b` gives.
pub fn block_len(n: usize, block_size: usize, b: usize) -> (len: usize)
    requires
        block_size > 0,
        b < block_count_spec(n as nat, block_size as nat),
    ensures
        len == block_span(n as nat, block_size as nat, b as nat),
        0 < len <= block_size,
        b * block_size + len <= n,
{
    proof {
        lemma_block_fits(n as nat, block_size as nat, b as nat);
        assert((b + 1) * block_size == b * block_size + block_size) by (nonlinear_arith);
    }
    let start: usize = b * block_size;
    if block_size <= n - start {
        block_size
    } else {
        n - start
    }
}

/// Tests whether kernel outcomes cover a tensor.
fn check_run(
    n: usize,
    block_size: usize,
    block_bytes: usize,
    bytes: usize,
    blocks: &Vec<Result<Vec<u32>, QuantError>>,
) -> (r: bool)
    ensures
        r == kernel_run(n as nat, block_size as nat, block_bytes as nat, bytes as nat, blocks@),
{
    if block_size == 0 {
        return false;
    }
    let count: usize = block_count(n, block_size);
    let reached: usize = blocks.len();
    if reached > count {
        return false;
    }
    match reached.checked_mul(block_bytes) {
        Some(p) => {
            if p > bytes {
                return false;
            }
        },
        None => {
            return false;
        },
    }
    if reached < count && (reached == 0 || blocks[reached - 1].is_ok()) {
        return false;
    }
    let mut b: usize = 0;
    while b < reached
        invariant
            b <= reached,
            reached == blocks@.len(),
            reached <= count,
            block_size > 0,
            count == block_count_spec(n as nat, block_size as nat),
            forall|j: int|
                #![trigger blocks@[j]]
                0 <= j < b && j < reached - 1 ==> blocks@[j] is Ok,
            forall|j: int|
                #![trigger blocks@[j]]
                0 <= j < b && blocks@[j] is Ok ==> blocks@[j]->Ok_0@.len() == block_span(
                    n as nat,
                    block_size as nat,
                    j as nat,
                ),
        decreases reached - b,
    {
        match &blocks[b] {
            Ok(v) => {
                if v.len() != block_len(n, block_size, b) {
                    assert(blocks@[b as int] is Ok);
                    return false;
                }
            },
            Err(_) => {
                if b + 1 < reached {
                    assert(blocks@[b as int] is Err);
                    return false;
                }
            },
        }
        b = b + 1;
    }
    true
}

/// Whether `out` is what a kernel can give for block `b`: it gets the bytes of
/// the block and the number of elements that it has to give.
pub open spec fn kernel_gave<K: Fn(Vec<u8>, usize) -> Result<Vec<u32>, QuantError>>(
    kernel: K,
    n: nat,
    block_size: nat,
    block_bytes: nat,
    data: Seq<u8>,
    b: int,
    out: Result<Vec<u32>, QuantError>,
) -> bool {
    exists|v: Vec<u8>, c: usize|
        {
            &&& v@ == data.subrange(b * block_bytes, (b + 1) * block_bytes)
            &&& c == block_span(n, block_size, b as nat)
            &&& #[trigger] call_ensures(kernel, (v, c), out)
        }
}

/// Runs a kernel over the blocks of a tensor, in order, up to the first
/// failure.
pub fn run_kernel<K: Fn(Vec<u8>, usize) -> Result<Vec<u32>, QuantError>>(
    n: usize,
    block_size: usize,
    block_bytes: usize,
    data: &Vec<u8>,
    kernel: K,
) -> (blocks: Vec<Result<Vec<u32>, QuantError>>)
    requires
        block_size > 0,
        block_count_spec(n as nat, block_size as nat) * block_bytes <= data@.len(),
        forall|v: Vec<u8>, c: usize| call_requires(kernel, (v, c)),
    ensures
        blocks@.len() <= block_count_spec(n as nat, block_size as nat),
        forall|b: int|
            0 <= b < blocks@.len() ==> kernel_gave(
                kernel,
                n as nat,
                block_size as nat,
                block_bytes as nat,
                data@,
                b,
                #[trigger] blocks@[b],
            ),
        forall|b: int| 0 <= b < blocks@.len() - 1 ==> (#[trigger] blocks@[b]) is Ok,
        blocks@.len() < block_count_spec(n as nat, block_size as nat) ==> blocks@.len() > 0
            && blocks@.last() is Err,
{
    let count: usize = block_count(n, block_size);
    let total: usize = data.len();
    let mut blocks: Vec<Result<Vec<u32>, QuantError>> = Vec::new();
    let mut b: usize = 0;
    while b < count
        invariant
            b <= count,
            blocks@.len() == b,
            block_size > 0,
            count == block_count_spec(n as nat, block_size as nat),
            count * block_bytes <= total,
            total == data@.len(),
            forall|v: Vec<u8>, c: usize| call_requires(kernel, (v, c)),
            forall|j: int|
                0 <= j < b ==> kernel_gave(
                    kernel,
                    n as nat,
                    block_size as nat,
                    block_bytes as nat,
                    data@,
                    j,
                    #[trigger] blocks@[j],
                ),
            forall|j: int| 0 <= j < b ==> (#[trigger] blocks@[j]) is Ok,
        decreases count - b,
    {
        assert((b + 1) * block_bytes <= count * block_bytes) by (nonlinear_arith)
            requires
                b + 1 <= count,
        ;
        assert((b + 1) * block_bytes == b * block_bytes + block_bytes) by (nonlinear_arith);
        assert(b * block_bytes >= 0) by (nonlinear_arith);
        let start: usize = b * block_bytes;
        let bytes = copy_range(data, start, start + block_bytes);
        let len: usize = block_len(n, block_size, b);
        let ghost given = bytes;
        let out = kernel(bytes, len);
        let failed: bool = out.is_err();
        blocks.push(out);
        assert(call_ensures(kernel, (given, len), blocks@[b as int]));
        if failed {
            return blocks;
        }
        b = b + 1;
    }
    blocks
}

/// Copies a part of a byte vector.
pub fn copy_range(v: &Vec<u8>, start: usize, end: usize) -> (out: Vec<u8>)
    requires
        start <= end <= v@.len(),
    ensures
        out@ == v@.subrange(start as int, end as int),
{
    let mut out: Vec<u8> = Vec::new();
    let mut i: usize = start;
    while i < end
        invariant
            start <= i <= end <= v@.len(),
            out@ == v@.subrange(start as int, i as int),
        decreases end - i,
    {
        out.push(v[i]);
        assert(out@ =~= v@.subrange(start as int, i + 1));
        i = i + 1;
    }
    out
}

/// What decoding a tensor's bytes gives: the patterns of its elements, or the
/// kernel's failure. Elements of an unquantized tensor that the bytes do not
/// reach are zero.
pub open spec fn decoded(
    dims: Seq<usize>,
    tensor_type: TensorType,
    data: Seq<u8>,
    kernel: KernelOutcome,
) -> Result<Seq<u32>, ArchErrorView> {
    let n = element_count(dims);
    match tensor_type {
        TensorType::F32 => Ok(
            Seq::new(
                n,
                |i: int|
                    if 4 * i + 4 <= data.len() {
                        le_u32(data, 4 * i)
                    } else {
                        F32_ZERO
                    },
            ),
        ),
        TensorType::F16 => Ok(
            Seq::new(
                n,
                |i: int|
                    if 2 * i + 2 <= data.len() {
                        widened(le_u16(data, 2 * i))
                    } else {
                        F32_ZERO
                    },
            ),
        ),
        TensorType::Blocks { id, block_size, block_bytes } => match kernel {
            KernelOutcome::Unsupported { format, error } => Err(ArchErrorView::Quant(error@)),
            KernelOutcome::Blocks(blocks) => if blocks@.len() > 0 && blocks@.last() is Err {
                Err(ArchErrorView::Quant(blocks@.last()->Err_0@))
            } else {
                Ok(
                    Seq::new(
                        n,
                        |i: int| blocks@[i / block_size as int]->Ok_0@[i % block_size as int],
                    ),
                )
            },
        },
    }
}

impl TensorRecord {
    /// What decoding this tensor gives, where its bytes can be had.
    pub open spec fn decode(self) -> Result<Seq<u32>, ArchErrorView> {
        decoded(self.dims(), self.kind(), self.bytes()->0, self.outcome())
    }
}

/// A tensor that can be decoded gives as many elements as it has.
pub proof fn law_decoded_length(t: TensorRecord)
    ensures
        t.decode() matches Ok(v) ==> v.len() == element_count(t.dims()),
{
}

fn decode_f32(data: &Vec<u8>, n: usize) -> (out: Vec<u32>)
    ensures
        out@ == Seq::new(
            n as nat,
            |i: int|
                if 4 * i + 4 <= data@.len() {
                    le_u32(data@, 4 * i)
                } else {
                    F32_ZERO
                },
        ),
{
    let mut out: Vec<u32> = Vec::new();
    let whole: usize = data.len() / 4;
    let mut i: usize = 0;
    while i < n
        invariant
            i <= n,
            whole == data@.len() / 4,
            4 * whole <= usize::MAX,
            out@.len() == i,
            forall|j: int|
                0 <= j < i ==> #[trigger] out@[j] == (if 4 * j + 4 <= data@.len() {
                    le_u32(data@, 4 * j)
                } else {
                    F32_ZERO
                }),
        decreases n - i,
    {
        let v: u32 = if i < whole {
            let at: usize = 4 * i;
            data[at] as u32 + 0x100 * (data[at + 1] as u32) + 0x1_0000 * (data[at + 2] as u32)
                + 0x100_0000 * (data[at + 3] as u32)
        } else {
            F32_ZERO
        };
        out.push(v);
        i = i + 1;
    }
    assert(out@ =~= Seq::new(
        n as nat,
        |i: int|
            if 4 * i + 4 <= data@.len() {
                le_u32(data@, 4 * i)
            } else {
                F32_ZERO
            },
    ));
    out
}

fn decode_half(data: &Vec<u8>, n: usize) -> (out: Vec<u32>)
    ensures
        out@ == Seq::new(
            n as nat,
            |i: int|
                if 2 * i + 2 <= data@.len() {
                    widened(le_u16(data@, 2 * i))
                } else {
                    F32_ZERO
                },
        ),
{
    let mut out: Vec<u32> = Vec::new();
    let whole: usize = data.len() / 2;
    let mut i: usize = 0;
    while i < n
        invariant
            i <= n,
            whole == data@.len() / 2,
            2 * whole <= usize::MAX,
            out@.len() == i,
            forall|j: int|
                0 <= j < i ==> #[trigger] out@[j] == (if 2 * j + 2 <= data@.len() {
                    widened(le_u16(data@, 2 * j))
                } else {
                    F32_ZERO
                }),
        decreases n - i,
    {
        let v: u32 = if i < whole {
            let at: usize = 2 * i;
            widen_half(data[at] as u16 + 0x100 * (data[at + 1] as u16))
        } else {
            F32_ZERO
        };
        out.push(v);
        i = i + 1;
    }
    assert(out@ =~= Seq::new(
        n as nat,
        |i: int|
            if 2 * i + 2 <= data@.len() {
                widened(le_u16(data@, 2 * i))
            } else {
                F32_ZERO
            },
    ));
    out
}

/// Puts the elements of all blocks in a row.
fn gather_blocks(
    blocks: &Vec<Result<Vec<u32>, QuantError>>,
    n: usize,
    block_size: usize,
) -> (out: Vec<u32>)
    requires
        block_size > 0,
        blocks@.len() == block_count_spec(n as nat, block_size as nat),
        forall|b: int|
            #![trigger blocks@[b]]
            0 <= b < blocks@.len() ==> blocks@[b] is Ok && blocks@[b]->Ok_0@.len() == block_span(
                n as nat,
                block_size as nat,
                b as nat,
            ),
    ensures
        out@ == Seq::new(
            n as nat,
            |i: int| blocks@[i / block_size as int]->Ok_0@[i % block_size as int],
        ),
{
    let mut out: Vec<u32> = Vec::new();
    let mut i: usize = 0;
    while i < n
        invariant
            i <= n,
            block_size > 0,
            out@.len() == i,
            blocks@.len() == block_count_spec(n as nat, block_size as nat),
            forall|b: int|
                #![trigger blocks@[b]]
                0 <= b < blocks@.len() ==> blocks@[b] is Ok && blocks@[b]->Ok_0@.len()
                    == block_span(n as nat, block_size as nat, b as nat),
            forall|j: int|
                0 <= j < i ==> #[trigger] out@[j] == blocks@[j
                    / block_size as int]->Ok_0@[j % block_size as int],
        decreases n - i,
    {
        let b: usize = i / block_size;
        proof {
            lemma_element_in_block(n as nat, block_size as nat, i as nat);
        }
        match &blocks[b] {
            Ok(v) => {
                out.push(v[i % block_size]);
            },
            Err(_) => {
                assert(false);
            },
        }
        i = i + 1;
    }
    assert(out@ =~= Seq::new(
        n as nat,
        |i: int| blocks@[i / block_size as int]->Ok_0@[i % block_size as int],
    ));
    out
}

/// Every element lies in a block, at a place that the block has.
proof fn lemma_element_in_block(n: nat, block_size: nat, i: nat)
    requires
        block_size > 0,
        i < n,
    ensures
        i / block_size < block_count_spec(n, block_size),
        0 <= i % block_size < block_span(n, block_size, i / block_size),
{
    let b = i / block_size;
    let r = i % block_size;
    lemma_fundamental_div_mod(i as int, block_size as int);
    lemma_fundamental_div_mod(n as int, block_size as int);
    let q = n / block_size;
    let s = n % block_size;
    assert(b <= q) by (nonlinear_arith)
        requires
            block_size * b + r < block_size * q + s,
            0 <= s < block_size,
            0 <= r,
    ;
    if b == q {
        assert(s > r) by (nonlinear_arith)
            requires
                block_size * b + r < block_size * q + s,
                b == q,
        ;
    }
    assert((b + 1) * block_size == b * block_size + block_size) by (nonlinear_arith);
    assert(b * block_size == block_size * b) by (nonlinear_arith);
}

/// Decodes a tensor to the patterns of its elements.
pub fn dequant_to_f32(t: &TensorRecord) -> (r: ArchResult<Vec<u32>>)
    requires
        t.bytes() is Some,
    ensures
        match r {
            Ok(v) => t.decode() == Ok::<Seq<u32>, ArchErrorView>(v@),
            Err(e) => t.decode() == Err::<Seq<u32>, ArchErrorView>(e@),
        },
{
    proof {
        use_type_invariant(t);
    }
    let n: usize = t.n_elements;
    match &t.data {
        Some(data) => match t.tensor_type {
            TensorType::F32 => Ok(decode_f32(data, n)),
            TensorType::F16 => Ok(decode_half(data, n)),
            TensorType::Blocks { id: _, block_size, block_bytes: _ } => match &t.kernel {
                KernelOutcome::Unsupported { format: _, error } => Err(
                    ArchError::Quant(QuantError { message: error.message.clone() }),
                ),
                KernelOutcome::Blocks(blocks) => {
                    if blocks.len() > 0 {
                        match &blocks[blocks.len() - 1] {
                            Err(e) => {
                                return Err(
                                    ArchError::Quant(QuantError { message: e.message.clone() }),
                                );
                            },
                            Ok(_) => {},
                        }
                    }
                    Ok(gather_blocks(blocks, n, block_size))
                },
            },
        },
        None => {
            assert(false);
            Ok(Vec::new())
        },
    }
}

/// The content of a tensor store.
pub type TensorMap = Map<Seq<char>, TensorRecord>;

/// The tensors of a file, each found by its name.
#[derive(Debug)]
pub struct TensorStore {
    table: NameTable<TensorRecord>,
}

impl View for TensorStore {
    type V = TensorMap;

    closed spec fn view(&self) -> TensorMap {
        self.table@
    }
}

impl TensorStore {
    /// A store without tensors.
    pub fn new() -> (s: Self)
        ensures
            s@ == Map::<Seq<char>, TensorRecord>::empty(),
    {
        TensorStore { table: NameTable::new() }
    }

    /// Adds a tensor, in place of the one that may have had its name.
    pub fn insert(&mut self, name: String, tensor: TensorRecord)
        ensures
            final(self)@ == old(self)@.insert(name@, tensor),
    {
        self.table.insert(name, tensor)
    }

    /// The tensor of a name.
    pub fn get(&self, name: &str) -> (r: Result<&TensorRecord, GgufError>)
        ensures
            match r {
                Ok(t) => self@.contains_key(name@) && *t == self@[name@],
                Err(e) => !self@.contains_key(name@) && e@ == (GgufErrorView::TensorNotFound {
                    name: name@,
                }),
            },
    {
        match self.table.get(name) {
            Some(t) => Ok(t),
            None => Err(GgufError::TensorNotFound { name: String::from_str(name) }),
        }
    }

    /// Whether there is a tensor of a name.
    pub fn contains(&self, name: &str) -> (r: bool)
        ensures
            r == self@.contains_key(name@),
    {
        self.table.contains(name)
    }
}

/// A parsed GGUF file.
#[derive(Debug)]
pub struct GgufModel {
    /// The metadata.
    pub metadata: MetadataStore,
    /// The tensors.
    pub tensors: TensorStore,
}

impl GgufModel {
    /// The bytes of a tensor.
    pub fn tensor_data(&self, name: &str) -> (r: Result<&Vec<u8>, GgufError>)
        ensures
            match r {
                Ok(d) => {
                    &&& self.tensors@.contains_key(name@)
                    &&& self.tensors@[name@].bytes() == Some(d@)
                },
                Err(e) => data_failure(self.tensors@, name@) == Some(e@),
            },
            r is Ok <==> data_failure(self.tensors@, name@) is None,
    {
        match self.tensors.get(name) {
            Ok(t) => match t.data() {
                Some(d) => Ok(d),
                None => Err(GgufError::TensorDataUnavailable { name: String::from_str(name) }),
            },
            Err(e) => Err(e),
        }
    }
}

/// Why the bytes of a tensor cannot be had, if they cannot.
pub open spec fn data_failure(m: TensorMap, name: Seq<char>) -> Option<GgufErrorView> {
    if !m.contains_key(name) {
        Some(GgufErrorView::TensorNotFound { name })
    } else if m[name].bytes() is None {
        Some(GgufErrorView::TensorDataUnavailable { name })
    } else {
        None
    }
}

/// The elements decoded from blocks are what the kernel gave for the blocks, put
/// one after another: those of block `b` stand from `b * block_size` on, in the
/// order in which the kernel gave them, and the last block ends the tensor.
pub proof fn law_decoded_blocks_stand_in_a_row(
    t: TensorRecord,
    id: u32,
    block_size: usize,
    block_bytes: usize,
    blocks: Vec<Result<Vec<u32>, QuantError>>,
    b: int,
)
    requires
        t.kind() == (TensorType::Blocks { id, block_size, block_bytes }),
        t.outcome() == KernelOutcome::Blocks(blocks),
        t.bytes() is Some,
        kernel_run(
            element_count(t.dims()),
            block_size as nat,
            block_bytes as nat,
            t.bytes()->0.len(),
            blocks@,
        ),
        forall|j: int| 0 <= j < blocks@.len() ==> (#[trigger] blocks@[j]) is Ok,
        0 <= b < blocks@.len(),
    ensures
        t.decode() is Ok,
        b * block_size + blocks@[b]->Ok_0@.len() <= t.decode()->Ok_0.len(),
        t.decode()->Ok_0.subrange(
            b * block_size,
            b * block_size + blocks@[b]->Ok_0@.len(),
        ) == blocks@[b]->Ok_0@,
        b + 1 < blocks@.len() ==> blocks@[b]->Ok_0@.len() == block_size,
        b + 1 == blocks@.len() ==> b * block_size + blocks@[b]->Ok_0@.len() == element_count(
            t.dims(),
        ),
{
    let n = element_count(t.dims());
    let size = block_size as int;
    let len = blocks@[b]->Ok_0@.len() as int;
    lemma_block_ends(n, block_size as nat, b as nat);
    assert(len == block_span(n, block_size as nat, b as nat));
    let v = t.decode()->Ok_0;
    let part = v.subrange(b * size, b * size + len);
    assert forall|j: int| 0 <= j < len implies part[j] == blocks@[b]->Ok_0@[j] by {
        lemma_fundamental_div_mod_converse(b * size + j, size, b, j);
        assert(v[b * size + j] == blocks@[(b * size + j) / size]->Ok_0@[(b * size + j) % size]);
    }
    assert(part =~= blocks@[b]->Ok_0@);
}

/// Blocks follow each other without gaps: all but the last are full, and the
/// last ends with the last element.
proof fn lemma_block_ends(n: nat, block_size: nat, b: nat)
    requires
        block_size > 0,
        b < block_count_spec(n, block_size),
    ensures
        0 < block_span(n, block_size, b) <= block_size,
        0 <= b * block_size,
        b * block_size + block_span(n, block_size, b) <= n,
        b + 1 < block_count_spec(n, block_size) ==> block_span(n, block_size, b) == block_size,
        b + 1 == block_count_spec(n, block_size) ==> b * block_size + block_span(
            n,
            block_size,
            b,
        ) == n,
{
    let q = n / block_size;
    let s = n % block_size;
    lemma_fundamental_div_mod(n as int, block_size as int);
    assert((b + 1) * block_size == b * block_size + block_size) by (nonlinear_arith);
    assert(block_size * q == q * block_size) by (nonlinear_arith);
    assert(b * block_size >= 0) by (nonlinear_arith);
    if b < q {
        assert((b + 1) * block_size <= q * block_size) by (nonlinear_arith)
            requires
                b + 1 <= q,
        ;
        if b + 1 == q && s == 0 {
            assert((b + 1) * block_size == q * block_size);
        }
    } else {
        assert(b == q);
        assert(b * block_size == q * block_size);
    }
}

/// The blocks of `n` elements cover them: as many as it takes, and none more.
pub proof fn law_blocks_cover_elements(n: nat, block_size: nat)
    requires
        block_size > 0,
    ensures
        block_count_spec(n, block_size) * block_size >= n,
        n > 0 ==> block_count_spec(n, block_size) > 0 && (block_count_spec(n, block_size) - 1)
            * block_size < n,
        n == 0 ==> block_count_spec(n, block_size) == 0,
        forall|b: nat|
            b < block_count_spec(n, block_size) ==> {
                &&& b + 1 < block_count_spec(n, block_size) ==> #[trigger] block_span(
                    n,
                    block_size,
                    b,
                ) == block_size
                &&& b + 1 == block_count_spec(n, block_size) ==> block_span(n, block_size, b) == n
                    - b * block_size
            },
{
    let q = n / block_size;
    let s = n % block_size;
    let c = block_count_spec(n, block_size);
    lemma_fundamental_div_mod(n as int, block_size as int);
    assert(block_size * q == q * block_size) by (nonlinear_arith);
    assert((q + 1) * block_size == q * block_size + block_size) by (nonlinear_arith);
    assert((q - 1) * block_size == q * block_size - block_size) by (nonlinear_arith);
    if n == 0 {
        assert(q == 0) by (nonlinear_arith)
            requires
                0 == q * block_size + s,
                0 <= s,
                q >= 0,
                block_size > 0,
        ;
    }
    if n > 0 && s == 0 {
        assert(q > 0) by (nonlinear_arith)
            requires
                n == q * block_size,
                n > 0,
        ;
    }
    assert forall|b: nat| b < c implies {
        &&& b + 1 < c ==> #[trigger] block_span(n, block_size, b) == block_size
        &&& b + 1 == c ==> block_span(n, block_size, b) == n - b * block_size
    } by {
        lemma_block_ends(n, block_size, b);
    }
}

/// Element `i` of a tensor of four-byte elements is the little-endian number of
/// bytes `4 * i` to `4 * i + 3`, and zero where the bytes do not reach it.
pub proof fn law_four_byte_elements_in_order(t: TensorRecord, i: int)
    requires
        t.kind() == TensorType::F32,
        t.bytes() is Some,
        0 <= i < element_count(t.dims()),
    ensures
        t.decode() is Ok,
        t.decode()->Ok_0.len() == element_count(t.dims()),
        4 * i + 4 <= t.bytes()->0.len() ==> t.decode()->Ok_0[i] == t.bytes()->0[4 * i] + 256
            * t.bytes()->0[4 * i + 1] + 65536 * t.bytes()->0[4 * i + 2] + 16777216
            * t.bytes()->0[4 * i + 3],
        4 * i + 4 > t.bytes()->0.len() ==> t.decode()->Ok_0[i] == 0,
{
    let s = t.bytes()->0;
    let v = t.decode()->Ok_0;
    if 4 * i + 4 <= s.len() {
        assert(v[i] == le_u32(s, 4 * i));
    }
}

/// Element `i` of a tensor of two-byte elements is the half-precision number
/// whose pattern is the little-endian number of bytes `2 * i` and `2 * i + 1`,
/// widened, and zero where the bytes do not reach it.
pub proof fn law_half_elements_in_order(t: TensorRecord, h: u16, i: int)
    requires
        t.kind() == TensorType::F16,
        t.bytes() is Some,
        0 <= i < element_count(t.dims()),
        2 * i + 2 <= t.bytes()->0.len() ==> h == t.bytes()->0[2 * i] + 256 * t.bytes()->0[2 * i
            + 1],
    ensures
        t.decode() is Ok,
        t.decode()->Ok_0.len() == element_count(t.dims()),
        2 * i + 2 <= t.bytes()->0.len() ==> t.decode()->Ok_0[i] == widened(h),
        2 * i + 2 > t.bytes()->0.len() ==> t.decode()->Ok_0[i] == 0,
{
    let s = t.bytes()->0;
    let v = t.decode()->Ok_0;
    if 2 * i + 2 <= s.len() {
        assert(v[i] == widened(le_u16(s, 2 * i)));
    }
}

/// A tensor of blocks cannot be decoded exactly when there is no kernel for its
/// format or the kernel failed on a block, and what is reported is that failure.
pub proof fn law_kernel_failures_are_reported(
    t: TensorRecord,
    id: u32,
    block_size: usize,
    block_bytes: usize,
)
    requires
        t.kind() == (TensorType::Blocks { id, block_size, block_bytes }),
    ensures
        t.outcome() matches KernelOutcome::Unsupported { format, error } ==> t.decode() == Err::<
            Seq<u32>,
            ArchErrorView,
        >(ArchErrorView::Quant(error@)),
        t.outcome() matches KernelOutcome::Blocks(blocks) ==> {
            &&& blocks@.len() > 0 && blocks@.last() is Err ==> t.decode() == Err::<
                Seq<u32>,
                ArchErrorView,
            >(ArchErrorView::Quant(blocks@.last()->Err_0@))
            &&& t.decode() is Err ==> blocks@.len() > 0 && blocks@.last() is Err
        },
{
}

/// A tensor without dimensions has one element; another dimension multiplies
/// the number of elements.
pub proof fn law_dimensions_multiply(dims: Seq<usize>, d: usize)
    ensures
        element_count(Seq::<usize>::empty()) == 1,
        element_count(dims.push(d)) == element_count(dims) * d,
        element_count(seq![d]) == d,
{
    assert(dims.push(d).drop_last() =~= dims);
    assert(seq![d].drop_last() =~= Seq::<usize>::empty());
    assert(1 * (d as nat) == d) by (nonlinear_arith);
}

/// The kernel gets the bytes of each block in turn, and is asked for the
/// elements that the block has.
pub proof fn law_kernel_gets_each_block<K: Fn(Vec<u8>, usize) -> Result<Vec<u32>, QuantError>>(
    kernel: K,
    n: nat,
    block_size: nat,
    block_bytes: nat,
    data: Seq<u8>,
    b: int,
    out: Result<Vec<u32>, QuantError>,
)
    requires
        kernel_gave(kernel, n, block_size, block_bytes, data, b, out),
        0 <= b,
        block_size > 0,
    ensures
        exists|v: Vec<u8>, c: usize|
            {
                &&& v@ == data.subrange(b * block_bytes, b * block_bytes + block_bytes)
                &&& (b + 1) * block_size <= n ==> c == block_size
                &&& (b + 1) * block_size > n ==> c == n - b * block_size
                &&& #[trigger] call_ensures(kernel, (v, c), out)
            },
{
    let (v, c) = choose|v: Vec<u8>, c: usize|
        {
            &&& v@ == data.subrange(b * block_bytes, (b + 1) * block_bytes)
            &&& c == block_span(n, block_size, b as nat)
            &&& #[trigger] call_ensures(kernel, (v, c), out)
        };
    assert((b + 1) * block_bytes == b * block_bytes + block_bytes) by (nonlinear_arith);
    assert(call_ensures(kernel, (v, c), out));
}

} // verus!
