//! Text building: decimal numerals, concatenation and prefix tests.

use vstd::prelude::*;

verus! {

/// The character of one decimal digit.
pub open spec fn digit_char(d: nat) -> char {
    "0123456789"@[d as int]
}

/// The decimal numeral of a natural number, most significant digit first and
/// without leading zeros.
pub open spec fn decimal(n: nat) -> Seq<char>
    decreases n,
{
    if n < 10 {
        seq![digit_char(n)]
    } else {
        decimal(n / 10).push(digit_char(n % 10))
    }
}

fn digit_text(d: usize) -> (s: &'static str)
    requires
        d < 10,
    ensures
        s@ == seq![digit_char(d as nat)],
{
    proof {
        reveal_strlit("0123456789");
    }
    let digits: &'static str = "0123456789";
    let s = digits.substring_ascii(d, d + 1);
    assert(s@ =~= seq![digit_char(d as nat)]);
    s
}

/// Renders a number in decimal.
pub fn decimal_string(n: usize) -> (s: String)
    ensures
        s@ == decimal(n as nat),
    decreases n,
{
    if n < 10 {
        String::from_str(digit_text(n))
    } else {
        let mut s = decimal_string(n / 10);
        s.append(digit_text(n % 10));
        assert(s@ =~= decimal(n as nat));
        s
    }
}

/// Joins two pieces of text.
pub fn joined(a: &str, b: &str) -> (s: String)
    ensures
        s@ == a@ + b@,
{
    String::from_str(a).concat(b)
}

/// The name of a tensor of block `i`: `blk.{i}` followed by a suffix.
pub open spec fn block_tensor(i: nat, suffix: Seq<char>) -> Seq<char> {
    "blk."@ + decimal(i) + suffix
}

/// Builds the name of a tensor of block `i`.
pub fn block_name(i: usize, suffix: &str) -> (s: String)
    ensures
        s@ == block_tensor(i as nat, suffix@),
{
    let n = decimal_string(i);
    String::from_str("blk.").concat(n.as_str()).concat(suffix)
}

/// Whether a text begins with a prefix.
pub fn starts_with(s: &str, prefix: &str) -> (r: bool)
    ensures
        r == prefix@.is_prefix_of(s@),
{
    let n: usize = prefix.unicode_len();
    if s.unicode_len() < n {
        return false;
    }
    let mut i: usize = 0;
    while i < n
        invariant
            i <= n,
            n == prefix@.len(),
            n <= s@.len(),
            s@.subrange(0, i as int) == prefix@.subrange(0, i as int),
        decreases n - i,
    {
        if s.get_char(i) != prefix.get_char(i) {
            assert(s@.subrange(0, n as int)[i as int] != prefix@[i as int]);
            return false;
        }
        assert(s@.subrange(0, i + 1) =~= s@.subrange(0, i as int).push(s@[i as int]));
        assert(prefix@.subrange(0, i + 1) =~= prefix@.subrange(0, i as int).push(
            prefix@[i as int],
        ));
        i = i + 1;
    }
    assert(prefix@.subrange(0, n as int) =~= prefix@);
    true
}

/// Whether two texts are the same.
pub fn same_text(a: &str, b: &str) -> (r: bool)
    ensures
        r == (a@ == b@),
{
    String::from_str(a) == String::from_str(b)
}

/// A numeral is never empty.
pub proof fn lemma_decimal_not_empty(n: nat)
    ensures
        decimal(n).len() > 0,
    decreases n,
{
    if n >= 10 {
        lemma_decimal_not_empty(n / 10);
    }
}

/// Digits are told apart by their characters.
proof fn lemma_digit_char_injective(a: nat, b: nat)
    requires
        a < 10,
        b < 10,
        digit_char(a) == digit_char(b),
    ensures
        a == b,
{
    reveal_strlit("0123456789");
}

/// Different numbers have different numerals.
pub proof fn lemma_decimal_injective(a: nat, b: nat)
    requires
        decimal(a) == decimal(b),
    ensures
        a == b,
    decreases a,
{
    lemma_decimal_not_empty(a / 10);
    lemma_decimal_not_empty(b / 10);
    assert(decimal(a).last() == decimal(b).last());
    assert(decimal(a).last() == digit_char(a % 10));
    assert(decimal(b).last() == digit_char(b % 10));
    if a < 10 && b < 10 {
        lemma_digit_char_injective(a, b);
    } else if a >= 10 && b >= 10 {
        assert(decimal(a).drop_last() =~= decimal(a / 10));
        assert(decimal(b).drop_last() =~= decimal(b / 10));
        lemma_decimal_injective(a / 10, b / 10);
        lemma_digit_char_injective(a % 10, b % 10);
    } else {
        assert(decimal(a).len() == decimal(b).len());
        assert(false);
    }
}

/// Numerals hold no full stop.
proof fn lemma_decimal_has_no_dot(n: nat, k: int)
    requires
        0 <= k < decimal(n).len(),
    ensures
        decimal(n)[k] != '.',
    decreases n,
{
    reveal_strlit("0123456789");
    if n >= 10 && k < decimal(n).len() - 1 {
        lemma_decimal_has_no_dot(n / 10, k);
    }
}

/// Tensors of different blocks have different names, and so do tensors of one
/// block with different suffixes, as long as every suffix begins with a full
/// stop.
pub proof fn law_block_tensors_are_distinct(i: nat, s: Seq<char>, j: nat, t: Seq<char>)
    requires
        s.len() > 0,
        t.len() > 0,
        s[0] == '.',
        t[0] == '.',
        block_tensor(i, s) == block_tensor(j, t),
    ensures
        i == j,
        s == t,
{
    let p = "blk."@;
    let x = block_tensor(i, s);
    let y = block_tensor(j, t);
    let n = p.len() as int;
    let di = decimal(i);
    let dj = decimal(j);
    if di.len() < dj.len() {
        assert(x[n + di.len()] == '.');
        lemma_decimal_has_no_dot(j, di.len() as int);
        assert(y[n + di.len()] == dj[di.len() as int]);
    } else if dj.len() < di.len() {
        assert(y[n + dj.len()] == '.');
        lemma_decimal_has_no_dot(i, dj.len() as int);
        assert(x[n + dj.len()] == di[dj.len() as int]);
    }
    assert(x.subrange(n, n + di.len()) =~= di);
    assert(y.subrange(n, n + dj.len()) =~= dj);
    lemma_decimal_injective(i, j);
    assert(x.subrange(n + di.len(), x.len() as int) =~= s);
    assert(y.subrange(n + dj.len(), y.len() as int) =~= t);
}

/// A numeral ends in the digit of the ones, and what stands before it is the
/// numeral of the tens: digits are the characters from `0` on.
pub proof fn law_numerals_are_decimal(n: nat)
    ensures
        decimal(n).last() as int == '0' as int + n % 10,
        n < 10 ==> decimal(n).len() == 1,
        n >= 10 ==> decimal(n).drop_last() == decimal(n / 10),
{
    reveal_strlit("0123456789");
    if n >= 10 {
        assert(decimal(n).drop_last() =~= decimal(n / 10));
    }
}

/// The name of a block's tensor is `blk.`, the block's number and the suffix.
pub proof fn law_block_tensor_is_spelled_out(i: nat, suffix: Seq<char>)
    ensures
        block_tensor(i, suffix) == seq!['b', 'l', 'k', '.'] + decimal(i) + suffix,
{
    reveal_strlit("blk.");
    assert("blk."@ =~= seq!['b', 'l', 'k', '.']);
}

} // verus!
