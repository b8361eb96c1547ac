//! Rows of an embedding table.

use crate::common::sizes::copied;
use crate::error::{follows, invalid_config, ArchError, ArchErrorView, ArchResult};
use crate::text::{decimal, decimal_string, joined};
use vstd::prelude::*;

verus! {

/// The row of a token in a table with rows of `width`.
pub open spec fn row_of(table: Seq<u32>, width: nat, token: nat) -> Seq<u32> {
    table.subrange((token * width) as int, (token * width + width) as int)
}

/// Whether a table has a row for a token.
pub open spec fn has_row(table: Seq<u32>, width: nat, token: nat) -> bool {
    token * width + width <= table.len()
}

/// The row of a token, where the table has one.
pub fn embedding_row(table: &Vec<u32>, width: usize, token: u32) -> (r: Option<Vec<u32>>)
    ensures
        match r {
            Some(v) => has_row(table@, width as nat, token as nat) && v@ == row_of(
                table@,
                width as nat,
                token as nat,
            ),
            None => !has_row(table@, width as nat, token as nat),
        },
{
    let start: usize = match (token as usize).checked_mul(width) {
        Some(s) => s,
        None => {
            assert(table.len() <= usize::MAX);
            return None;
        },
    };
    if start <= table.len() && width <= table.len() - start {
        Some(copied(table, start, start + width))
    } else {
        None
    }
}

/// What is said of a token that is not in the vocabulary.
pub open spec fn out_of_range_text(token: nat, vocab: nat) -> Seq<char> {
    "token id "@ + decimal(token) + " out of range (vocab_size="@ + decimal(vocab) + ")"@
}

pub(crate) fn out_of_range(token: u32, vocab: usize) -> (e: ArchError)
    ensures
        e@ == (ArchErrorView::InvalidConfig {
            detail: out_of_range_text(token as nat, vocab as nat),
        }),
{
    let t = decimal_string(token as usize);
    let v = decimal_string(vocab);
    let s = joined("token id ", t.as_str()).concat(" out of range (vocab_size=").concat(
        v.as_str(),
    ).concat(")");
    ArchError::InvalidConfig { detail: s }
}

/// The first token of a sequence that is not in the vocabulary.
pub open spec fn first_unknown(tokens: Seq<u32>, vocab: nat) -> Option<u32>
    decreases tokens.len(),
{
    if tokens.len() == 0 {
        None
    } else {
        match first_unknown(tokens.drop_last(), vocab) {
            Some(t) => Some(t),
            None => if tokens.last() >= vocab {
                Some(tokens.last())
            } else {
                None
            },
        }
    }
}

/// Why a sequence of tokens is refused, if it is: it is empty, or a token is
/// not in the vocabulary. `caller` begins the text for an empty sequence.
pub open spec fn tokens_failure(
    tokens: Seq<u32>,
    vocab: nat,
    caller: Seq<char>,
) -> Option<ArchErrorView> {
    if tokens.len() == 0 {
        Some(ArchErrorView::InvalidConfig { detail: caller + ": empty token sequence"@ })
    } else {
        match first_unknown(tokens, vocab) {
            Some(t) => Some(
                ArchErrorView::InvalidConfig { detail: out_of_range_text(t as nat, vocab) },
            ),
            None => None,
        }
    }
}

/// Checks a sequence of tokens.
pub fn check_tokens(tokens: &Vec<u32>, vocab: usize, caller: &str) -> (r: ArchResult<()>)
    ensures
        follows(r, tokens_failure(tokens@, vocab as nat, caller@)),
        r is Ok ==> forall|t: int| 0 <= t < tokens@.len() ==> (#[trigger] tokens@[t]) < vocab,
{
    if tokens.is_empty() {
        return Err(invalid_config(joined(caller, ": empty token sequence").as_str()));
    }
    let mut t: usize = 0;
    assert(tokens@.take(0) =~= Seq::<u32>::empty());
    while t < tokens.len()
        invariant
            t <= tokens@.len(),
            tokens@.len() > 0,
            first_unknown(tokens@.take(t as int), vocab as nat) is None,
            forall|j: int| 0 <= j < t ==> (#[trigger] tokens@[j]) < vocab,
        decreases tokens@.len() - t,
    {
        let ghost next = tokens@.take(t + 1);
        proof {
            assert(next.drop_last() =~= tokens@.take(t as int));
            assert(next.last() == tokens@[t as int]);
        }
        if tokens[t] as usize >= vocab {
            proof {
                lemma_unknown_stays(tokens@, t + 1, vocab as nat);
            }
            return Err(out_of_range(tokens[t], vocab));
        }
        t = t + 1;
    }
    assert(tokens@.take(t as int) =~= tokens@);
    Ok(())
}

/// The first unknown token of a beginning is that of the whole.
proof fn lemma_unknown_stays(tokens: Seq<u32>, k: int, vocab: nat)
    requires
        0 <= k <= tokens.len(),
        first_unknown(tokens.take(k), vocab) is Some,
    ensures
        first_unknown(tokens, vocab) == first_unknown(tokens.take(k), vocab),
    decreases tokens.len(),
{
    if k == tokens.len() {
        assert(tokens.take(k) =~= tokens);
    } else {
        assert(tokens.drop_last().take(k) =~= tokens.take(k));
        lemma_unknown_stays(tokens.drop_last(), k, vocab);
    }
}

/// The number of tokens before the first that is not in the vocabulary.
pub open spec fn known_count(tokens: Seq<u32>, vocab: nat) -> nat
    decreases tokens.len(),
{
    if tokens.len() == 0 {
        0
    } else if known_count(tokens.drop_last(), vocab) < tokens.len() - 1 {
        known_count(tokens.drop_last(), vocab)
    } else if tokens.last() >= vocab {
        (tokens.len() - 1) as nat
    } else {
        tokens.len()
    }
}

/// The tokens that are counted are in the vocabulary, and the next is not.
pub proof fn lemma_known_count(tokens: Seq<u32>, vocab: nat)
    ensures
        known_count(tokens, vocab) <= tokens.len(),
        forall|j: int| 0 <= j < known_count(tokens, vocab) ==> (#[trigger] tokens[j]) < vocab,
        known_count(tokens, vocab) < tokens.len() ==> tokens[known_count(tokens, vocab) as int]
            >= vocab,
    decreases tokens.len(),
{
    if tokens.len() > 0 {
        let d = tokens.drop_last();
        lemma_known_count(d, vocab);
        assert forall|j: int| 0 <= j < known_count(tokens, vocab) implies (#[trigger] tokens[j])
            < vocab by {
            if j < d.len() {
                assert(d[j] == tokens[j]);
            }
        }
    }
}

/// Counts the tokens before the first that is not in the vocabulary.
pub fn count_known(tokens: &Vec<u32>, vocab: usize) -> (n: usize)
    ensures
        n == known_count(tokens@, vocab as nat),
{
    let mut t: usize = 0;
    proof {
        lemma_known_count(tokens@, vocab as nat);
    }
    while t < tokens.len()
        invariant
            t <= known_count(tokens@, vocab as nat) <= tokens@.len(),
            forall|j: int|
                0 <= j < known_count(tokens@, vocab as nat) ==> (#[trigger] tokens@[j]) < vocab,
            known_count(tokens@, vocab as nat) < tokens@.len() ==> tokens@[known_count(
                tokens@,
                vocab as nat,
            ) as int] >= vocab,
        decreases tokens@.len() - t,
    {
        if tokens[t] as usize >= vocab {
            return t;
        }
        t = t + 1;
    }
    t
}

/// The number of tokens before the first that the table has no row for.
pub open spec fn reached_count(table: Seq<u32>, width: nat, tokens: Seq<u32>) -> nat
    decreases tokens.len(),
{
    if tokens.len() == 0 {
        0
    } else if reached_count(table, width, tokens.drop_last()) < tokens.len() - 1 {
        reached_count(table, width, tokens.drop_last())
    } else if !has_row(table, width, tokens.last() as nat) {
        (tokens.len() - 1) as nat
    } else {
        tokens.len()
    }
}

/// The tokens that are counted have rows, and the next has none.
pub proof fn lemma_reached_count(table: Seq<u32>, width: nat, tokens: Seq<u32>)
    ensures
        reached_count(table, width, tokens) <= tokens.len(),
        forall|j: int|
            0 <= j < reached_count(table, width, tokens) ==> has_row(
                table,
                width,
                (#[trigger] tokens[j]) as nat,
            ),
        reached_count(table, width, tokens) < tokens.len() ==> !has_row(
            table,
            width,
            tokens[reached_count(table, width, tokens) as int] as nat,
        ),
    decreases tokens.len(),
{
    if tokens.len() > 0 {
        let d = tokens.drop_last();
        lemma_reached_count(table, width, d);
        assert forall|j: int| 0 <= j < reached_count(table, width, tokens) implies has_row(
            table,
            width,
            (#[trigger] tokens[j]) as nat,
        ) by {
            if j < d.len() {
                assert(d[j] == tokens[j]);
            }
        }
    }
}

/// The rows of a sequence of tokens, put in a row.
pub open spec fn rows_of(table: Seq<u32>, width: nat, tokens: Seq<u32>) -> Seq<u32>
    decreases tokens.len(),
{
    if tokens.len() == 0 {
        Seq::empty()
    } else {
        rows_of(table, width, tokens.drop_last()) + row_of(table, width, tokens.last() as nat)
    }
}

/// Whether the table has a row for every token of a sequence, if all are in the
/// vocabulary.
pub open spec fn rows_reached(table: Seq<u32>, width: nat, vocab: nat, tokens: Seq<u32>) -> bool {
    (forall|j: int| 0 <= j < tokens.len() ==> (#[trigger] tokens[j]) < vocab) ==> forall|j: int|
        0 <= j < tokens.len() ==> has_row(table, width, (#[trigger] tokens[j]) as nat)
}

/// Looks up every token of a sequence. Refuses an empty sequence and tokens
/// that are not in the vocabulary.
pub fn embed_tokens(
    table: &Vec<u32>,
    width: usize,
    vocab: usize,
    tokens: &Vec<u32>,
    caller: &str,
) -> (r: ArchResult<Vec<u32>>)
    requires
        rows_reached(table@, width as nat, vocab as nat, tokens@),
    ensures
        follows(r, tokens_failure(tokens@, vocab as nat, caller@)),
        r matches Ok(v) ==> v@ == rows_of(table@, width as nat, tokens@),
{
    check_tokens(tokens, vocab, caller)?;
    let mut out: Vec<u32> = Vec::new();
    let mut t: usize = 0;
    assert(tokens@.take(0) =~= Seq::<u32>::empty());
    while t < tokens.len()
        invariant
            t <= tokens@.len(),
            forall|j: int|
                0 <= j < tokens@.len() ==> has_row(
                    table@,
                    width as nat,
                    (#[trigger] tokens@[j]) as nat,
                ),
            out@ == rows_of(table@, width as nat, tokens@.take(t as int)),
        decreases tokens@.len() - t,
    {
        let tok: usize = tokens[t] as usize;
        proof {
            assert(has_row(table@, width as nat, tokens@[t as int] as nat));
            assert(tok * width >= 0) by (nonlinear_arith);
            let next = tokens@.take(t + 1);
            assert(next.drop_last() =~= tokens@.take(t as int));
            assert(next.last() == tokens@[t as int]);
        }
        assert(table.len() == table@.len());
        let start: usize = tok * width;
        let mut row = copied(table, start, start + width);
        out.append(&mut row);
        t = t + 1;
    }
    assert(tokens@.take(t as int) =~= tokens@);
    Ok(out)
}

/// A sequence of looked-up tokens has one row for each token, and the row of
/// token `t` is that token's row of the table.
pub proof fn law_rows_in_order(table: Seq<u32>, width: nat, tokens: Seq<u32>, t: int)
    requires
        forall|j: int|
            0 <= j < tokens.len() ==> has_row(table, width, (#[trigger] tokens[j]) as nat),
        0 <= t < tokens.len(),
    ensures
        rows_of(table, width, tokens).len() == tokens.len() * width,
        rows_of(table, width, tokens).subrange(t * width, t * width + width) == row_of(
            table,
            width,
            tokens[t] as nat,
        ),
    decreases tokens.len(),
{
    let n = tokens.len();
    let d = tokens.drop_last();
    assert forall|j: int| 0 <= j < d.len() implies has_row(
        table,
        width,
        (#[trigger] d[j]) as nat,
    ) by {
        assert(d[j] == tokens[j]);
    }
    let head = rows_of(table, width, d);
    let last = row_of(table, width, tokens.last() as nat);
    assert(has_row(table, width, tokens[n - 1] as nat));
    assert(tokens.last() as nat * width >= 0) by (nonlinear_arith);
    assert(last.len() == width);
    lemma_rows_length(table, width, d);
    assert(n * width == (n - 1) * width + width) by (nonlinear_arith);
    let all = rows_of(table, width, tokens);
    if t == n - 1 {
        assert(all.subrange(t * width, t * width + width) =~= last);
    } else {
        law_rows_in_order(table, width, d, t);
        assert(t * width + width <= (n - 1) * width) by (nonlinear_arith)
            requires
                t + 1 <= n - 1,
        ;
        assert(t * width >= 0) by (nonlinear_arith)
            requires
                t >= 0,
        ;
        assert(all.subrange(t * width, t * width + width) =~= head.subrange(
            t * width,
            t * width + width,
        ));
    }
}

proof fn lemma_rows_length(table: Seq<u32>, width: nat, tokens: Seq<u32>)
    requires
        forall|j: int|
            0 <= j < tokens.len() ==> has_row(table, width, (#[trigger] tokens[j]) as nat),
    ensures
        rows_of(table, width, tokens).len() == tokens.len() * width,
    decreases tokens.len(),
{
    if tokens.len() > 0 {
        let d = tokens.drop_last();
        assert forall|j: int| 0 <= j < d.len() implies has_row(
            table,
            width,
            (#[trigger] d[j]) as nat,
        ) by {
            assert(d[j] == tokens[j]);
        }
        lemma_rows_length(table, width, d);
        assert(has_row(table, width, tokens[tokens.len() - 1] as nat));
        assert(tokens.last() as nat * width >= 0) by (nonlinear_arith);
        assert(tokens.len() * width == (tokens.len() - 1) * width + width) by (nonlinear_arith);
    } else {
        assert(0 * width == 0) by (nonlinear_arith);
    }
}

/// Whether a table has a row for every token of a sequence.
pub open spec fn all_have_rows(table: Seq<u32>, width: nat, tokens: Seq<u32>) -> bool {
    forall|j: int| 0 <= j < tokens.len() ==> has_row(table, width, (#[trigger] tokens[j]) as nat)
}

/// Looks up every token of a sequence, where the table has a row for each.
pub fn embedding_rows(table: &Vec<u32>, width: usize, tokens: &Vec<u32>) -> (r: Option<Vec<u32>>)
    ensures
        r is Some <==> all_have_rows(table@, width as nat, tokens@),
        r matches Some(v) ==> v@ == rows_of(table@, width as nat, tokens@),
{
    let mut out: Vec<u32> = Vec::new();
    let mut t: usize = 0;
    assert(tokens@.take(0) =~= Seq::<u32>::empty());
    while t < tokens.len()
        invariant
            t <= tokens@.len(),
            forall|j: int|
                0 <= j < t ==> has_row(table@, width as nat, (#[trigger] tokens@[j]) as nat),
            out@ == rows_of(table@, width as nat, tokens@.take(t as int)),
        decreases tokens@.len() - t,
    {
        match embedding_row(table, width, tokens[t]) {
            Some(row) => {
                let mut row = row;
                proof {
                    let next = tokens@.take(t + 1);
                    assert(next.drop_last() =~= tokens@.take(t as int));
                    assert(next.last() == tokens@[t as int]);
                }
                out.append(&mut row);
            },
            None => {
                assert(!has_row(table@, width as nat, tokens@[t as int] as nat));
                return None;
            },
        }
        t = t + 1;
    }
    assert(tokens@.take(t as int) =~= tokens@);
    Some(out)
}

/// A table with a row for every token of the vocabulary reaches all rows.
pub proof fn law_full_table_reaches(table: Seq<u32>, width: nat, vocab: nat, tokens: Seq<u32>)
    requires
        table.len() >= vocab * width,
    ensures
        rows_reached(table, width, vocab, tokens),
{
    assert forall|t: nat| t < vocab implies #[trigger] has_row(table, width, t) by {
        assert(t * width + width <= vocab * width) by (nonlinear_arith)
            requires
                t + 1 <= vocab,
        ;
    }
}

/// Why the last token of a sequence cannot be looked up, if it cannot: the
/// sequence is empty, or the table has no row for the token. `param` names the
/// token in the latter failure.
pub open spec fn last_token_failure(
    table: Seq<u32>,
    width: nat,
    vocab: nat,
    tokens: Seq<u32>,
    param: Seq<char>,
) -> Option<ArchErrorView> {
    if tokens.len() == 0 {
        Some(
            ArchErrorView::ConfigMismatch {
                param: "tokens"@,
                expected: "non-empty"@,
                got: "empty"@,
            },
        )
    } else {
        row_failure(table, width, vocab, tokens.last(), param)
    }
}

/// Why a token cannot be looked up, if it cannot.
pub open spec fn row_failure(
    table: Seq<u32>,
    width: nat,
    vocab: nat,
    token: u32,
    param: Seq<char>,
) -> Option<ArchErrorView> {
    if has_row(table, width, token as nat) {
        None
    } else {
        Some(
            ArchErrorView::ConfigMismatch {
                param,
                expected: "< "@ + decimal(vocab),
                got: decimal(token as nat),
            },
        )
    }
}

/// Looks up a token, or says that it should be less than the vocabulary size.
pub fn embed_token(
    table: &Vec<u32>,
    width: usize,
    vocab: usize,
    token: u32,
    param: &str,
) -> (r: ArchResult<Vec<u32>>)
    ensures
        follows(r, row_failure(table@, width as nat, vocab as nat, token, param@)),
        r matches Ok(v) ==> v@ == row_of(table@, width as nat, token as nat),
{
    match embedding_row(table, width, token) {
        Some(v) => Ok(v),
        None => {
            let bound = decimal_string(vocab);
            Err(
                ArchError::ConfigMismatch {
                    param: String::from_str(param),
                    expected: joined("< ", bound.as_str()),
                    got: decimal_string(token as usize),
                },
            )
        },
    }
}

/// The rows of the tokens before the first that the table has no row for, the
/// number of those tokens, and what is wrong with that one.
#[derive(Debug)]
pub struct ReachedRows {
    /// The rows, put in a row.
    pub rows: Vec<u32>,
    /// Number of tokens.
    pub count: usize,
    /// What is wrong with the next token, where there is one.
    pub refusal: Option<ArchError>,
}

/// Looks up tokens up to the first that the table has no row for, and says what
/// is wrong with that one.
pub fn embed_reached(
    table: &Vec<u32>,
    width: usize,
    vocab: usize,
    tokens: &Vec<u32>,
    param: &str,
) -> (r: ReachedRows)
    ensures
        r.count == reached_count(table@, width as nat, tokens@),
        r.rows@ == rows_of(
            table@,
            width as nat,
            tokens@.take(reached_count(table@, width as nat, tokens@) as int),
        ),
        match r.refusal {
            None => reached_count(table@, width as nat, tokens@) == tokens@.len(),
            Some(e) => {
                let n = reached_count(table@, width as nat, tokens@);
                &&& n < tokens@.len()
                &&& row_failure(table@, width as nat, vocab as nat, tokens@[n as int], param@)
                    == Some(e@)
            },
        },
{
    let mut out: Vec<u32> = Vec::new();
    let mut t: usize = 0;
    proof {
        lemma_reached_count(table@, width as nat, tokens@);
        assert(tokens@.take(0) =~= Seq::<u32>::empty());
    }
    while t < tokens.len()
        invariant
            t <= reached_count(table@, width as nat, tokens@) <= tokens@.len(),
            forall|j: int|
                0 <= j < reached_count(table@, width as nat, tokens@) ==> has_row(
                    table@,
                    width as nat,
                    (#[trigger] tokens@[j]) as nat,
                ),
            reached_count(table@, width as nat, tokens@) < tokens@.len() ==> !has_row(
                table@,
                width as nat,
                tokens@[reached_count(table@, width as nat, tokens@) as int] as nat,
            ),
            out@ == rows_of(table@, width as nat, tokens@.take(t as int)),
        decreases tokens@.len() - t,
    {
        match embed_token(table, width, vocab, tokens[t], param) {
            Ok(row) => {
                let mut row = row;
                proof {
                    let next = tokens@.take(t + 1);
                    assert(next.drop_last() =~= tokens@.take(t as int));
                    assert(next.last() == tokens@[t as int]);
                }
                out.append(&mut row);
            },
            Err(e) => {
                return ReachedRows { rows: out, count: t, refusal: Some(e) };
            },
        }
        t = t + 1;
    }
    ReachedRows { rows: out, count: t, refusal: None }
}

/// Looks up the last token of a sequence.
pub fn embed_last_token(
    table: &Vec<u32>,
    width: usize,
    vocab: usize,
    tokens: &Vec<u32>,
    param: &str,
) -> (r: ArchResult<Vec<u32>>)
    ensures
        follows(r, last_token_failure(table@, width as nat, vocab as nat, tokens@, param@)),
        r matches Ok(v) ==> v@ == row_of(table@, width as nat, tokens@.last() as nat),
{
    if tokens.is_empty() {
        return Err(
            ArchError::ConfigMismatch {
                param: String::from_str("tokens"),
                expected: String::from_str("non-empty"),
                got: String::from_str("empty"),
            },
        );
    }
    embed_token(table, width, vocab, tokens[tokens.len() - 1], param)
}

/// A sequence is refused exactly where it is empty or some token of it is not in
/// the vocabulary, wherever that token stands, and always as a configuration
/// that cannot be used.
pub proof fn law_unknown_tokens_are_refused(tokens: Seq<u32>, vocab: nat, caller: Seq<char>)
    ensures
        tokens_failure(tokens, vocab, caller) is Some <==> tokens.len() == 0 || exists|j: int|
            0 <= j < tokens.len() && #[trigger] tokens[j] >= vocab,
        tokens_failure(tokens, vocab, caller) matches Some(e) ==> e is InvalidConfig,
{
    lemma_first_unknown(tokens, vocab);
}

proof fn lemma_first_unknown(tokens: Seq<u32>, vocab: nat)
    ensures
        first_unknown(tokens, vocab) is Some <==> exists|j: int|
            0 <= j < tokens.len() && #[trigger] tokens[j] >= vocab,
    decreases tokens.len(),
{
    if tokens.len() > 0 {
        let d = tokens.drop_last();
        lemma_first_unknown(d, vocab);
        if exists|j: int| 0 <= j < d.len() && #[trigger] d[j] >= vocab {
            let j = choose|j: int| 0 <= j < d.len() && #[trigger] d[j] >= vocab;
            assert(tokens[j] >= vocab);
        }
        if exists|j: int| 0 <= j < tokens.len() && #[trigger] tokens[j] >= vocab {
            let j = choose|j: int| 0 <= j < tokens.len() && #[trigger] tokens[j] >= vocab;
            if j < d.len() {
                assert(d[j] >= vocab);
            }
        }
    }
}

/// The rows of two sequences, put together, are those of the sequences put
/// together, and they are there where both are.
pub proof fn law_rows_of_joined(table: Seq<u32>, width: nat, a: Seq<u32>, b: Seq<u32>)
    ensures
        rows_of(table, width, a + b) == rows_of(table, width, a) + rows_of(table, width, b),
        all_have_rows(table, width, a + b) <==> all_have_rows(table, width, a) && all_have_rows(
            table,
            width,
            b,
        ),
    decreases b.len(),
{
    if b.len() == 0 {
        assert(a + b =~= a);
        assert(rows_of(table, width, a) + rows_of(table, width, b) =~= rows_of(table, width, a));
    } else {
        let d = b.drop_last();
        law_rows_of_joined(table, width, a, d);
        assert((a + b).drop_last() =~= a + d);
        assert(rows_of(table, width, a + b) =~= rows_of(table, width, a) + rows_of(
            table,
            width,
            b,
        ));
        if all_have_rows(table, width, a + b) {
            assert forall|j: int| 0 <= j < a.len() implies has_row(
                table,
                width,
                (#[trigger] a[j]) as nat,
            ) by {
                assert((a + b)[j] == a[j]);
            }
            assert forall|j: int| 0 <= j < b.len() implies has_row(
                table,
                width,
                (#[trigger] b[j]) as nat,
            ) by {
                assert((a + b)[a.len() + j] == b[j]);
            }
        }
    }
}

/// Only the last token of a sequence that is not empty decides whether the
/// sequence is refused where only the last token is looked up.
pub proof fn law_last_token_decides(
    table: Seq<u32>,
    width: nat,
    vocab: nat,
    tokens: Seq<u32>,
    param: Seq<char>,
)
    requires
        tokens.len() > 0,
    ensures
        last_token_failure(table, width, vocab, tokens, param) == last_token_failure(
            table,
            width,
            vocab,
            seq![tokens.last()],
            param,
        ),
{
}

/// The row of token `t` has `width` elements, of which number `j` stands at
/// `t * width + j` in the table; the table has the row exactly where it reaches
/// to the row's end.
pub proof fn law_row_is_cut_from_the_table(table: Seq<u32>, width: nat, token: nat, j: int)
    requires
        has_row(table, width, token),
        0 <= j < width,
    ensures
        (token + 1) * width <= table.len(),
        row_of(table, width, token).len() == width,
        row_of(table, width, token)[j] == table[token * width + j],
{
    assert((token + 1) * width == token * width + width) by (nonlinear_arith);
    assert(token * width >= 0) by (nonlinear_arith);
}

/// A table has no row for a token that it does not reach.
pub proof fn law_short_table_has_no_row(table: Seq<u32>, width: nat, token: nat)
    requires
        table.len() < (token + 1) * width,
    ensures
        !has_row(table, width, token),
{
    assert((token + 1) * width == token * width + width) by (nonlinear_arith);
}

/// Element `j` of the state of token `t` of a sequence is element `j` of that
/// token's row of the table.
pub proof fn law_states_are_rows_of_tokens(
    table: Seq<u32>,
    width: nat,
    tokens: Seq<u32>,
    t: int,
    j: int,
)
    requires
        forall|k: int|
            0 <= k < tokens.len() ==> has_row(table, width, (#[trigger] tokens[k]) as nat),
        0 <= t < tokens.len(),
        0 <= j < width,
    ensures
        rows_of(table, width, tokens).len() == tokens.len() * width,
        rows_of(table, width, tokens)[t * width + j] == table[tokens[t] * width + j],
{
    law_rows_in_order(table, width, tokens, t);
    let rows = rows_of(table, width, tokens);
    assert(has_row(table, width, tokens[t] as nat));
    assert(tokens[t] * width >= 0) by (nonlinear_arith);
    assert(0 <= t * width && t * width + width <= tokens.len() * width) by (nonlinear_arith)
        requires
            0 <= t,
            t + 1 <= tokens.len(),
            width >= 0,
    ;
    assert(rows.subrange(t * width, t * width + width)[j] == rows[t * width + j]);
    assert(row_of(table, width, tokens[t] as nat)[j] == table[tokens[t] * width + j]);
}

/// What is reported of a sequence is its first token that is not in the
/// vocabulary, by number, and the size of the vocabulary; an empty sequence is
/// reported in the name of the caller.
pub proof fn law_first_unknown_token_is_named(
    tokens: Seq<u32>,
    vocab: nat,
    caller: Seq<char>,
    k: int,
)
    ensures
        tokens.len() == 0 ==> tokens_failure(tokens, vocab, caller) == Some(
            ArchErrorView::InvalidConfig { detail: caller + ": empty token sequence"@ },
        ),
        0 <= k < tokens.len() && tokens[k] >= vocab && (forall|j: int|
            0 <= j < k ==> (#[trigger] tokens[j]) < vocab) ==> {
            &&& tokens_failure(tokens, vocab, caller) == Some(
                ArchErrorView::InvalidConfig {
                    detail: "token id "@ + decimal(tokens[k] as nat)
                        + " out of range (vocab_size="@ + decimal(vocab) + ")"@,
                },
            )
            &&& known_count(tokens, vocab) == k
        },
        tokens.len() > 0
            && (forall|j: int| 0 <= j < tokens.len() ==> (#[trigger] tokens[j]) < vocab)
            ==> tokens_failure(tokens, vocab, caller) is None && known_count(tokens, vocab)
            == tokens.len(),
{
    lemma_known_count(tokens, vocab);
    lemma_first_unknown(tokens, vocab);
    if 0 <= k < tokens.len() && tokens[k] >= vocab && (forall|j: int|
        0 <= j < k ==> (#[trigger] tokens[j]) < vocab) {
        lemma_first_unknown_at(tokens, vocab, k);
    }
}

proof fn lemma_first_unknown_at(tokens: Seq<u32>, vocab: nat, k: int)
    requires
        0 <= k < tokens.len(),
        tokens[k] >= vocab,
        forall|j: int| 0 <= j < k ==> (#[trigger] tokens[j]) < vocab,
    ensures
        first_unknown(tokens, vocab) == Some(tokens[k]),
    decreases tokens.len(),
{
    let d = tokens.drop_last();
    if k < d.len() {
        assert forall|j: int| 0 <= j < k implies (#[trigger] d[j]) < vocab by {
            assert(tokens[j] < vocab);
        }
        lemma_first_unknown_at(d, vocab, k);
    } else {
        lemma_first_unknown(d, vocab);
        assert forall|j: int| 0 <= j < d.len() implies (#[trigger] d[j]) < vocab by {
            assert(tokens[j] < vocab);
        }
    }
}

/// A token without a row is reported by its number, which should have been less
/// than the size of the vocabulary, and an empty sequence as empty.
pub proof fn law_missing_row_is_reported(
    table: Seq<u32>,
    width: nat,
    vocab: nat,
    tokens: Seq<u32>,
    param: Seq<char>,
)
    ensures
        tokens.len() == 0 ==> last_token_failure(table, width, vocab, tokens, param) == Some(
            ArchErrorView::ConfigMismatch {
                param: "tokens"@,
                expected: "non-empty"@,
                got: "empty"@,
            },
        ),
        tokens.len() > 0 && table.len() < (tokens.last() + 1) * width ==> last_token_failure(
            table,
            width,
            vocab,
            tokens,
            param,
        ) == Some(
            ArchErrorView::ConfigMismatch {
                param,
                expected: "< "@ + decimal(vocab),
                got: decimal(tokens.last() as nat),
            },
        ),
        tokens.len() > 0 && table.len() >= (tokens.last() + 1) * width ==> last_token_failure(
            table,
            width,
            vocab,
            tokens,
            param,
        ) is None,
{
    if tokens.len() > 0 {
        let t = tokens.last();
        assert((t + 1) * width == t * width + width) by (nonlinear_arith);
    }
}

/// The tokens that are looked up one by one end before the first that the table does
/// not reach, wherever that stands.
pub proof fn law_reached_tokens_end_at_missing_row(
    table: Seq<u32>,
    width: nat,
    tokens: Seq<u32>,
    k: int,
)
    requires
        0 <= k < tokens.len(),
        table.len() < (tokens[k] + 1) * width,
        forall|j: int|
            0 <= j < k ==> ((#[trigger] tokens[j]) + 1) * width <= table.len(),
    ensures
        reached_count(table, width, tokens) == k,
{
    lemma_reached_count(table, width, tokens);
    let n = reached_count(table, width, tokens) as int;
    law_short_table_has_no_row(table, width, tokens[k] as nat);
    if n < k {
        let t = tokens[n];
        assert((t + 1) * width <= table.len());
        assert((t + 1) * width == t * width + width) by (nonlinear_arith);
    }
    if n > k {
        assert(has_row(table, width, tokens[k] as nat));
    }
}

} // verus!
