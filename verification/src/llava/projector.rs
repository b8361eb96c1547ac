//! The projector from the vision encoder to the decoder.

use crate::common::linear::{linear_proj, row_read, RowRead};
use crate::common::sizes::copied;
use crate::error::{follows, invalid_config, invalid_shape, ArchErrorView, ArchResult};
use vstd::arithmetic::div_mod::lemma_fundamental_div_mod;
use vstd::prelude::*;

verus! {

/// Two dense layers with an activation between them.
#[derive(Debug)]
pub struct MmProjector {
    /// Weights of the first layer, `mm_hidden_size` rows of `clip_hidden_size`.
    pub fc1_weight: Vec<u32>,
    /// Bias of the first layer; what is missing of it is zero.
    pub fc1_bias: Vec<u32>,
    /// Weights of the second layer, `llm_hidden_size` rows of `mm_hidden_size`.
    pub fc2_weight: Vec<u32>,
    /// Bias of the second layer; what is missing of it is zero.
    pub fc2_bias: Vec<u32>,
    /// Size of a feature of the vision encoder.
    pub clip_hidden_size: usize,
    /// Size between the layers.
    pub mm_hidden_size: usize,
    /// Size of a hidden state of the decoder.
    pub llm_hidden_size: usize,
}

impl MmProjector {
    /// Why features of `len` elements are refused, if they are.
    pub open spec fn project_failure(&self, len: nat) -> Option<ArchErrorView> {
        if self.clip_hidden_size == 0 {
            Some(ArchErrorView::InvalidConfig { detail: "clip_hidden_size must be > 0"@ })
        } else if len % self.clip_hidden_size as nat != 0 {
            Some(
                ArchErrorView::InvalidShape {
                    name: "mm_projector input"@,
                    expected: seq![self.clip_hidden_size],
                    got: seq![len as usize],
                },
            )
        } else {
            None
        }
    }

    /// Checks the length of features.
    pub fn check(&self, len: usize) -> (r: ArchResult<()>)
        ensures
            follows(r, self.project_failure(len as nat)),
    {
        if self.clip_hidden_size == 0 {
            return Err(invalid_config("clip_hidden_size must be > 0"));
        }
        if len % self.clip_hidden_size != 0 {
            let expected: Vec<usize> = vec![self.clip_hidden_size];
            assert(expected@ =~= seq![self.clip_hidden_size]);
            return Err(invalid_shape("mm_projector input", expected, len));
        }
        Ok(())
    }

    /// Checks features and cuts them into patches. Each patch becomes one hidden
    /// state of the decoder.
    pub fn project(&self, input: &Vec<u32>) -> (r: ArchResult<Vec<Vec<u32>>>)
        ensures
            follows(r, self.project_failure(input@.len())),
            r matches Ok(v) ==> {
                &&& v@.len() * self.clip_hidden_size == input@.len()
                &&& forall|k: int|
                    0 <= k < v@.len() ==> (#[trigger] v@[k])@ == input@.subrange(
                        k * self.clip_hidden_size,
                        k * self.clip_hidden_size + self.clip_hidden_size,
                    )
            },
    {
        self.check(input.len())?;
        let width: usize = self.clip_hidden_size;
        let n: usize = input.len() / width;
        let total: usize = input.len();
        proof {
            lemma_fundamental_div_mod(total as int, width as int);
            assert(n * width == width * n) by (nonlinear_arith);
        }
        let mut v: Vec<Vec<u32>> = Vec::new();
        let mut k: usize = 0;
        while k < n
            invariant
                k <= n,
                width == self.clip_hidden_size,
                total == input@.len(),
                n * width == total,
                v@.len() == k,
                forall|j: int|
                    0 <= j < k ==> (#[trigger] v@[j])@ == input@.subrange(
                        j * width,
                        j * width + width,
                    ),
            decreases n - k,
        {
            assert(k * width + width <= n * width) by (nonlinear_arith)
                requires
                    k + 1 <= n,
            ;
            assert(k * width >= 0) by (nonlinear_arith);
            let start: usize = k * width;
            v.push(copied(input, start, start + width));
            k = k + 1;
        }
        Ok(v)
    }

    /// Whether the layers have all their weights.
    pub open spec fn complete(&self) -> bool {
        &&& self.mm_hidden_size * self.clip_hidden_size <= self.fc1_weight@.len()
        &&& self.llm_hidden_size * self.mm_hidden_size <= self.fc2_weight@.len()
    }

    /// Plans the first layer.
    pub fn first_layer(&self) -> (plan: Vec<RowRead>)
        requires
            self.complete(),
        ensures
            plan@ == Seq::new(
                self.mm_hidden_size as nat,
                |i: int|
                    row_read(
                        self.fc1_weight@.len() as int,
                        self.fc1_bias@,
                        self.clip_hidden_size as int,
                        i,
                    ),
            ),
            forall|i: int| 0 <= i < plan@.len() ==> (#[trigger] plan@[i]).start is Some,
    {
        proof {
            lemma_all_rows(
                self.mm_hidden_size as int,
                self.clip_hidden_size as int,
                self.fc1_weight@.len() as int,
            );
        }
        linear_proj(
            self.fc1_weight.len(),
            &self.fc1_bias,
            self.mm_hidden_size,
            self.clip_hidden_size,
        )
    }

    /// Plans the second layer.
    pub fn second_layer(&self) -> (plan: Vec<RowRead>)
        requires
            self.complete(),
        ensures
            plan@ == Seq::new(
                self.llm_hidden_size as nat,
                |i: int|
                    row_read(
                        self.fc2_weight@.len() as int,
                        self.fc2_bias@,
                        self.mm_hidden_size as int,
                        i,
                    ),
            ),
            forall|i: int| 0 <= i < plan@.len() ==> (#[trigger] plan@[i]).start is Some,
    {
        proof {
            lemma_all_rows(
                self.llm_hidden_size as int,
                self.mm_hidden_size as int,
                self.fc2_weight@.len() as int,
            );
        }
        linear_proj(
            self.fc2_weight.len(),
            &self.fc2_bias,
            self.llm_hidden_size,
            self.mm_hidden_size,
        )
    }
}

proof fn lemma_all_rows(rows: int, width: int, len: int)
    requires
        0 <= width,
        rows * width <= len,
    ensures
        forall|i: int, b: Seq<u32>|
            0 <= i < rows ==> (#[trigger] row_read(len, b, width, i)).start is Some,
{
    assert forall|i: int, b: Seq<u32>| 0 <= i < rows implies (#[trigger] row_read(
        len,
        b,
        width,
        i,
    )).start is Some by {
        assert(i * width + width <= rows * width) by (nonlinear_arith)
            requires
                i + 1 <= rows,
                width >= 0,
        ;
    }
}

/// Features are refused where they have no size, and where they are not whole
/// features; in no other case.
pub proof fn law_features_are_checked(p: MmProjector, len: nat)
    ensures
        p.project_failure(len) is None <==> p.clip_hidden_size > 0 && len % (
        p.clip_hidden_size as nat) == 0,
        p.clip_hidden_size == 0 ==> p.project_failure(len) == Some(
            ArchErrorView::InvalidConfig { detail: "clip_hidden_size must be > 0"@ },
        ),
        p.clip_hidden_size > 0 && len % (p.clip_hidden_size as nat) != 0 ==> p.project_failure(len)
            == Some(
            ArchErrorView::InvalidShape {
                name: "mm_projector input"@,
                expected: seq![p.clip_hidden_size],
                got: seq![len as usize],
            },
        ),
{
}

/// The layers have all their weights exactly where the first has a row of a feature
/// for each element between the layers, and the second a row of those for each
/// element of the decoder's hidden state.
pub proof fn law_complete_layers_have_all_rows(p: MmProjector)
    ensures
        p.complete() <==> p.fc1_weight@.len() >= p.mm_hidden_size * p.clip_hidden_size
            && p.fc2_weight@.len() >= p.llm_hidden_size * p.mm_hidden_size,
{
}

} // verus!
