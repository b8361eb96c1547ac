//! What can go wrong, with the facts a caller needs.

use vstd::prelude::*;

verus! {

/// A failure to find something in a GGUF file.
#[derive(Debug)]
pub enum GgufError {
    /// No tensor of this name is listed.
    TensorNotFound { name: String },
    /// The tensor is listed but its bytes cannot be had.
    TensorDataUnavailable { name: String },
}

/// A failure of a quantization kernel, in the kernel's words.
#[derive(Debug)]
pub struct QuantError {
    /// What the kernel said.
    pub message: String,
}

/// A failure of this library.
#[allow(inconsistent_fields)]
#[derive(Debug)]
pub enum ArchError {
    /// The metadata names no known architecture.
    UnknownArchitecture { arch_id: String },
    /// A parameter has a value that cannot be used.
    ConfigMismatch { param: String, expected: String, got: String },
    /// A tensor that the model needs is not there.
    MissingTensor { name: String },
    /// A buffer has the wrong shape.
    InvalidShape { name: String, expected: Vec<usize>, got: Vec<usize> },
    /// A combination of parameters cannot be used.
    InvalidConfig { detail: String },
    /// A tensor of the file has the wrong shape.
    TensorShapeMismatch { tensor: String, expected: Vec<usize>, got: Vec<usize> },
    /// A layer failed during a forward pass.
    ForwardPassError { layer: usize, message: String },
    /// The file failed to give something.
    Gguf(GgufError),
    /// A quantization kernel failed.
    Quant(QuantError),
}

/// The result of an operation that can fail.
pub type ArchResult<T> = Result<T, ArchError>;

/// The content of a [`GgufError`].
pub enum GgufErrorView {
    TensorNotFound { name: Seq<char> },
    TensorDataUnavailable { name: Seq<char> },
}

/// The content of an [`ArchError`].
#[allow(inconsistent_fields)]
pub enum ArchErrorView {
    UnknownArchitecture { arch_id: Seq<char> },
    ConfigMismatch { param: Seq<char>, expected: Seq<char>, got: Seq<char> },
    MissingTensor { name: Seq<char> },
    InvalidShape { name: Seq<char>, expected: Seq<usize>, got: Seq<usize> },
    InvalidConfig { detail: Seq<char> },
    TensorShapeMismatch { tensor: Seq<char>, expected: Seq<usize>, got: Seq<usize> },
    ForwardPassError { layer: usize, message: Seq<char> },
    Gguf(GgufErrorView),
    Quant(Seq<char>),
}

impl View for GgufError {
    type V = GgufErrorView;

    open spec fn view(&self) -> GgufErrorView {
        match *self {
            GgufError::TensorNotFound { name } => GgufErrorView::TensorNotFound { name: name@ },
            GgufError::TensorDataUnavailable { name } => GgufErrorView::TensorDataUnavailable {
                name: name@,
            },
        }
    }
}

impl View for QuantError {
    type V = Seq<char>;

    open spec fn view(&self) -> Seq<char> {
        self.message@
    }
}

impl View for ArchError {
    type V = ArchErrorView;

    open spec fn view(&self) -> ArchErrorView {
        match *self {
            ArchError::UnknownArchitecture { arch_id } => ArchErrorView::UnknownArchitecture {
                arch_id: arch_id@,
            },
            ArchError::ConfigMismatch { param, expected, got } => ArchErrorView::ConfigMismatch {
                param: param@,
                expected: expected@,
                got: got@,
            },
            ArchError::MissingTensor { name } => ArchErrorView::MissingTensor { name: name@ },
            ArchError::InvalidShape { name, expected, got } => ArchErrorView::InvalidShape {
                name: name@,
                expected: expected@,
                got: got@,
            },
            ArchError::InvalidConfig { detail } => ArchErrorView::InvalidConfig { detail: detail@ },
            ArchError::TensorShapeMismatch { tensor, expected, got } =>
                ArchErrorView::TensorShapeMismatch {
                tensor: tensor@,
                expected: expected@,
                got: got@,
            },
            ArchError::ForwardPassError { layer, message } => ArchErrorView::ForwardPassError {
                layer,
                message: message@,
            },
            ArchError::Gguf(e) => ArchErrorView::Gguf(e@),
            ArchError::Quant(e) => ArchErrorView::Quant(e@),
        }
    }
}

/// A tensor of this name is missing.
pub fn missing_tensor(name: &str) -> (e: ArchError)
    ensures
        e@ == (ArchErrorView::MissingTensor { name: name@ }),
{
    ArchError::MissingTensor { name: String::from_str(name) }
}

/// A parameter that must be positive is zero.
pub fn zero_parameter(param: &str) -> (e: ArchError)
    ensures
        e@ == zero_parameter_view(param@),
{
    ArchError::ConfigMismatch {
        param: String::from_str(param),
        expected: String::from_str(">0"),
        got: String::from_str("0"),
    }
}

/// The content of the error for a parameter that must be positive and is zero.
pub open spec fn zero_parameter_view(param: Seq<char>) -> ArchErrorView {
    ArchErrorView::ConfigMismatch { param, expected: ">0"@, got: "0"@ }
}

/// A combination of parameters cannot be used.
pub fn invalid_config(detail: &str) -> (e: ArchError)
    ensures
        e@ == (ArchErrorView::InvalidConfig { detail: detail@ }),
{
    ArchError::InvalidConfig { detail: String::from_str(detail) }
}

/// A buffer has the wrong shape.
pub fn invalid_shape(name: &str, expected: Vec<usize>, got: usize) -> (e: ArchError)
    ensures
        e@ == (ArchErrorView::InvalidShape { name: name@, expected: expected@, got: seq![got] }),
{
    let got = vec![got];
    assert(got@ =~= seq![got@[0]]);
    ArchError::InvalidShape { name: String::from_str(name), expected, got }
}

/// A tensor of the file has the wrong shape.
pub fn tensor_shape_mismatch(tensor: &str, expected: Vec<usize>, got: usize) -> (e: ArchError)
    ensures
        e@ == (ArchErrorView::TensorShapeMismatch {
            tensor: tensor@,
            expected: expected@,
            got: seq![got],
        }),
{
    let got = vec![got];
    assert(got@ =~= seq![got@[0]]);
    ArchError::TensorShapeMismatch { tensor: String::from_str(tensor), expected, got }
}

/// The first of two failures in order, where there is one.
pub open spec fn first_of(
    a: Option<ArchErrorView>,
    b: Option<ArchErrorView>,
) -> Option<ArchErrorView> {
    if a is Some {
        a
    } else {
        b
    }
}

/// The failure of the first of `n` parts that fails, where one does.
pub open spec fn first_failure(f: spec_fn(nat) -> Option<ArchErrorView>, n: nat) -> Option<
    ArchErrorView,
>
    decreases n,
{
    if n == 0 {
        None
    } else {
        first_of(first_failure(f, (n - 1) as nat), f((n - 1) as nat))
    }
}

/// A part that fails after parts that do not is the first that fails.
pub proof fn lemma_first_failure(f: spec_fn(nat) -> Option<ArchErrorView>, k: nat, n: nat)
    requires
        k < n,
        first_failure(f, k) is None,
        f(k) is Some,
    ensures
        first_failure(f, n) == f(k),
    decreases n,
{
    if k + 1 < n {
        lemma_first_failure(f, k, (n - 1) as nat);
    }
}

/// Whether an operation succeeded or failed as `failure` says.
pub open spec fn follows<T>(r: ArchResult<T>, failure: Option<ArchErrorView>) -> bool {
    match r {
        Ok(_) => failure is None,
        Err(e) => failure == Some(e@),
    }
}

/// What is reported is the failure of the first part that fails: there is none
/// exactly where no part fails, and parts after the first that fails do not
/// matter.
pub proof fn law_first_failing_part_is_reported(
    f: spec_fn(nat) -> Option<ArchErrorView>,
    n: nat,
)
    ensures
        first_failure(f, n) is None <==> forall|k: nat| k < n ==> (#[trigger] f(k)) is None,
        forall|k: nat|
            #![trigger f(k)]
            k < n && f(k) is Some && (forall|j: nat| j < k ==> (#[trigger] f(j)) is None)
                ==> first_failure(f, n) == f(k),
    decreases n,
{
    if n > 0 {
        let m = (n - 1) as nat;
        law_first_failing_part_is_reported(f, m);
        if first_failure(f, n) is None {
            assert forall|k: nat| k < n implies (#[trigger] f(k)) is None by {
                if k == m {
                    assert(f(m) is None);
                }
            }
        }
        assert forall|k: nat|
            #![trigger f(k)]
            k < n && f(k) is Some && (forall|j: nat| j < k ==> (
            #[trigger] f(j)) is None) implies first_failure(f, n) == f(k) by {
            law_first_failing_part_is_reported(f, k);
            lemma_first_failure(f, k, n);
        }
    }
}

/// Of two failures in order the second counts only where there is no first.
pub proof fn law_earlier_failure_wins(e: ArchErrorView, b: Option<ArchErrorView>)
    ensures
        first_of(Some(e), b) == Some(e),
        first_of(None, b) == b,
{
}

/// An operation that follows a failure succeeds exactly where there is none, and
/// otherwise gives that failure.
pub proof fn law_results_follow_failures<T>(r: ArchResult<T>, failure: Option<ArchErrorView>)
    requires
        follows(r, failure),
    ensures
        r is Ok <==> failure is None,
        r matches Err(e) ==> failure == Some(e@),
{
}

/// What is known of a failure is what it holds, part by part.
pub proof fn law_failures_say_what_they_hold(
    a: String,
    b: String,
    c: String,
    x: Vec<usize>,
    y: Vec<usize>,
    layer: usize,
)
    ensures
        (ArchError::UnknownArchitecture { arch_id: a })@ == (ArchErrorView::UnknownArchitecture {
            arch_id: a@,
        }),
        (ArchError::ConfigMismatch { param: a, expected: b, got: c })@ == (
        ArchErrorView::ConfigMismatch { param: a@, expected: b@, got: c@ }),
        (ArchError::MissingTensor { name: a })@ == (ArchErrorView::MissingTensor { name: a@ }),
        (ArchError::InvalidShape { name: a, expected: x, got: y })@ == (
        ArchErrorView::InvalidShape { name: a@, expected: x@, got: y@ }),
        (ArchError::InvalidConfig { detail: a })@ == (ArchErrorView::InvalidConfig { detail: a@ }),
        (ArchError::TensorShapeMismatch { tensor: a, expected: x, got: y })@ == (
        ArchErrorView::TensorShapeMismatch { tensor: a@, expected: x@, got: y@ }),
        (ArchError::ForwardPassError { layer, message: a })@ == (ArchErrorView::ForwardPassError {
            layer,
            message: a@,
        }),
        ArchError::Gguf(GgufError::TensorNotFound { name: a })@ == ArchErrorView::Gguf(
            GgufErrorView::TensorNotFound { name: a@ },
        ),
        ArchError::Gguf(GgufError::TensorDataUnavailable { name: a })@ == ArchErrorView::Gguf(
            GgufErrorView::TensorDataUnavailable { name: a@ },
        ),
        ArchError::Quant(QuantError { message: a })@ == ArchErrorView::Quant(a@),
{
}

} // verus!
