//! Rotary position embedding: which elements of a head are rotated against
//! which entries of the table of angles.

use crate::bits::F32_ONE;
use vstd::prelude::*;

verus! {

/// How rotation frequencies are scaled to reach beyond the training length.
#[derive(Debug, Clone, Copy, PartialEq, Eq, Default)]
pub enum RopeScalingType {
    /// No scaling.
    #[default]
    Standard,
    /// All frequencies are divided by the scaling factor.
    Linear,
    /// Frequencies are scaled by parts, low ones less than high ones.
    Yarn,
}

/// How the angles of a table follow from positions. Numbers are patterns.
#[derive(Debug, Clone, Copy, PartialEq, Eq)]
pub struct Frequencies {
    /// The base frequency.
    pub base: u32,
    /// The scaling.
    pub scaling_type: RopeScalingType,
    /// The factor of the scaling.
    pub scaling_factor: u32,
}

/// Unscaled frequencies of a base.
pub open spec fn standard(base: u32) -> Frequencies {
    Frequencies { base, scaling_type: RopeScalingType::Standard, scaling_factor: F32_ONE }
}

/// One rotation: two elements of a head, and the table entry of its angle.
#[derive(Debug, Clone, Copy, PartialEq, Eq)]
pub struct Rotation {
    /// The element that becomes the cosine part.
    pub first: usize,
    /// The element that becomes the sine part.
    pub second: usize,
    /// The entry of the table.
    pub entry: usize,
}

impl Rotation {
    /// Whether this is rotation `i` of a part that begins at `base`, has `half`
    /// pairs and takes its angles from `offset` on.
    pub open spec fn is_pair(self, base: int, half: int, offset: int, i: int) -> bool {
        self.first == base + i && self.second == base + half + i && self.entry == offset + i
    }
}

/// Whether rotations are those of `count` pairs, in order.
pub open spec fn are_pairs(
    rs: Seq<Rotation>,
    count: int,
    base: int,
    half: int,
    offset: int,
) -> bool {
    &&& rs.len() == count
    &&& forall|i: int| 0 <= i < rs.len() ==> (#[trigger] rs[i]).is_pair(base, half, offset, i)
}

/// Lists the rotations of `count` pairs.
pub(crate) fn pairs(count: usize, base: usize, half: usize, offset: usize) -> (rs: Vec<Rotation>)
    requires
        base + half + count <= usize::MAX,
        offset + count <= usize::MAX,
    ensures
        are_pairs(rs@, count as int, base as int, half as int, offset as int),
{
    let mut rs: Vec<Rotation> = Vec::new();
    let mut i: usize = 0;
    while i < count
        invariant
            i <= count,
            base + half + count <= usize::MAX,
            offset + count <= usize::MAX,
            are_pairs(rs@, i as int, base as int, half as int, offset as int),
        decreases count - i,
    {
        rs.push(Rotation { first: base + i, second: base + half + i, entry: offset + i });
        i = i + 1;
    }
    rs
}

/// A table of angles: one row of `half_dim` entries for each position. The
/// entries themselves follow from the frequencies.
#[derive(Debug, Clone, Copy, PartialEq, Eq)]
pub struct RopeTable {
    half_dim: usize,
    max_seq_len: usize,
    frequencies: Frequencies,
}

impl RopeTable {
    #[verifier::type_invariant]
    spec fn fits(self) -> bool {
        self.max_seq_len * self.half_dim <= usize::MAX
    }

    /// Number of rotated pairs in a head.
    pub closed spec fn half(self) -> nat {
        self.half_dim as nat
    }

    /// Number of positions.
    pub closed spec fn positions(self) -> nat {
        self.max_seq_len as nat
    }

    /// How the angles follow from positions.
    pub closed spec fn rule(self) -> Frequencies {
        self.frequencies
    }

    /// Whether this is the table for heads of a given size.
    pub open spec fn is_table(self, head_dim: usize, positions: nat, rule: Frequencies) -> bool {
        &&& self.half() == head_dim / 2
        &&& self.positions() == positions
        &&& self.rule() == rule
    }

    /// A table for heads of a given size.
    pub fn new(
        head_dim: usize,
        max_seq_len: usize,
        base: u32,
        scaling_type: RopeScalingType,
        scaling_factor: u32,
    ) -> (t: Self)
        requires
            max_seq_len * (head_dim / 2) <= usize::MAX,
        ensures
            t.is_table(
                head_dim,
                max_seq_len as nat,
                (Frequencies { base, scaling_type, scaling_factor }),
            ),
    {
        RopeTable {
            half_dim: head_dim / 2,
            max_seq_len,
            frequencies: Frequencies { base, scaling_type, scaling_factor },
        }
    }

    /// A table of unscaled frequencies for heads of a given size.
    pub fn new_standard(head_dim: usize, max_seq_len: usize, base: u32) -> (t: Self)
        requires
            max_seq_len * (head_dim / 2) <= usize::MAX,
        ensures
            t.is_table(head_dim, max_seq_len as nat, standard(base)),
    {
        RopeTable::new(head_dim, max_seq_len, base, RopeScalingType::Standard, F32_ONE)
    }

    /// How the angles follow from positions.
    pub fn frequencies(&self) -> (f: Frequencies)
        ensures
            f == self.rule(),
    {
        self.frequencies
    }

    /// Number of rotated pairs in a head.
    pub fn half_dim(&self) -> (n: usize)
        ensures
            n == self.half(),
    {
        self.half_dim
    }

    /// Number of positions.
    pub fn max_seq_len(&self) -> (n: usize)
        ensures
            n == self.positions(),
    {
        self.max_seq_len
    }

    /// Number of entries.
    pub fn entries(&self) -> (n: usize)
        ensures
            n == self.positions() * self.half(),
    {
        proof {
            use_type_invariant(self);
        }
        self.max_seq_len * self.half_dim
    }

    /// Plans the rotation of a head of `len` elements at a position; `None` where
    /// the head is too short or the table has no row for the position.
    pub fn apply(&self, len: usize, position: usize) -> (r: Option<Vec<Rotation>>)
        ensures
            r is Some <==> 2 * self.half() <= len && (self.half() == 0 || position
                < self.positions()),
            r matches Some(rs) ==> are_pairs(
                rs@,
                self.half() as int,
                0,
                self.half() as int,
                position * self.half(),
            ),
    {
        proof {
            use_type_invariant(self);
        }
        let half: usize = self.half_dim;
        if half > len / 2 {
            return None;
        }
        if half == 0 {
            return Some(Vec::new());
        }
        if position >= self.max_seq_len {
            return None;
        }
        proof {
            lemma_entry_fits(position as nat, self.max_seq_len as nat, half as nat);
        }
        Some(pairs(half, 0, half, position * half))
    }

    /// The rotations of the first `rotary_dims` elements of a head of `len`
    /// elements at a position; `None` where the head or the table is too short.
    pub fn partial_rotations(&self, len: usize, position: usize, rotary_dims: usize) -> (r: Option<
        Vec<Rotation>,
    >)
        ensures
            rotary_dims == 0 || len == 0 ==> (r matches Some(rs) && rs@.len() == 0),
            rotary_dims > 0 && len > 0 ==> {
                let h = rotary_dims / 2;
                &&& r is Some <==> h == 0 || (2 * h <= len && position * self.half() + h
                    <= self.positions() * self.half())
                &&& r matches Some(rs) ==> are_pairs(
                    rs@,
                    h as int,
                    0,
                    h as int,
                    position * self.half(),
                )
            },
    {
        proof {
            use_type_invariant(self);
        }
        if rotary_dims == 0 || len == 0 {
            return Some(Vec::new());
        }
        let h: usize = rotary_dims / 2;
        if h == 0 {
            return Some(Vec::new());
        }
        if h > len / 2 {
            return None;
        }
        let total: usize = self.max_seq_len * self.half_dim;
        match position.checked_mul(self.half_dim) {
            Some(offset) => {
                if offset <= total && h <= total - offset {
                    Some(pairs(h, 0, h, offset))
                } else {
                    None
                }
            },
            None => None,
        }
    }

    /// The rotations of the first `rotary_dims` elements of a head of `len`
    /// elements at a position, as far as the head has them; none where the
    /// table is too short.
    pub fn lenient_rotations(&self, len: usize, position: usize, rotary_dims: usize) -> (rs: Vec<
        Rotation,
    >)
        ensures
            are_pairs(
                rs@,
                lenient_count(
                    len as int,
                    (rotary_dims / 2) as int,
                    position * self.half() + rotary_dims / 2 <= self.positions() * self.half(),
                ),
                0,
                (rotary_dims / 2) as int,
                position * self.half(),
            ),
    {
        proof {
            use_type_invariant(self);
        }
        let h: usize = rotary_dims / 2;
        let total: usize = self.max_seq_len * self.half_dim;
        match position.checked_mul(self.half_dim) {
            Some(offset) => {
                if h > 0 && offset <= total && h <= total - offset && h <= len {
                    let left: usize = len - h;
                    let count: usize = if h <= left {
                        h
                    } else {
                        left
                    };
                    pairs(count, 0, h, offset)
                } else {
                    Vec::new()
                }
            },
            None => Vec::new(),
        }
    }
}

/// The number of pairs of `half` that a head of `len` elements has, where the
/// table reaches that far.
pub open spec fn lenient_count(len: int, half: int, reached: bool) -> int {
    if half == 0 || !reached || len < half {
        0
    } else if half <= len - half {
        half
    } else {
        len - half
    }
}

proof fn lemma_entry_fits(position: nat, positions: nat, half: nat)
    requires
        position < positions,
    ensures
        position * half + half <= positions * half,
{
    assert(position * half + half <= positions * half) by (nonlinear_arith)
        requires
            position + 1 <= positions,
    ;
}

/// The rotations of a head touch every one of its first `2 * half` elements,
/// each in one rotation and one place, and take all their angles from the row
/// of the position.
pub proof fn law_rotations_cover_head(rs: Seq<Rotation>, half: nat, position: nat, x: int)
    requires
        are_pairs(rs, half as int, 0, half as int, (position * half) as int),
        0 <= x < 2 * half,
    ensures
        x < half ==> rs[x].first == x,
        x >= half ==> rs[x - half].second == x,
        forall|i: int|
            0 <= i < rs.len() ==> {
                &&& (#[trigger] rs[i]).first == x <==> i == x
                &&& rs[i].second == x <==> i == x - half
                &&& position * half <= rs[i].entry < (position + 1) * half
            },
{
    assert((position + 1) * half == position * half + half) by (nonlinear_arith);
    assert forall|i: int| 0 <= i < rs.len() implies {
        &&& (#[trigger] rs[i]).first == x <==> i == x
        &&& rs[i].second == x <==> i == x - half
        &&& position * half <= rs[i].entry < (position + 1) * half
    } by {
        assert(rs[i].is_pair(0, half as int, (position * half) as int, i));
    }
    if x < half {
        assert(rs[x].is_pair(0, half as int, (position * half) as int, x));
    } else {
        assert(rs[x - half].is_pair(0, half as int, (position * half) as int, x - half));
    }
}

/// Partial rotations leave every element from `rotary_dims` on untouched.
pub proof fn law_partial_rotations_stop(
    rs: Seq<Rotation>,
    rotary_dims: nat,
    offset: int,
    i: int,
)
    requires
        are_pairs(rs, (rotary_dims / 2) as int, 0, (rotary_dims / 2) as int, offset),
        0 <= i < rs.len(),
    ensures
        rs[i].first < rotary_dims,
        rs[i].second < rotary_dims,
{
    assert(rs[i].is_pair(0, (rotary_dims / 2) as int, offset, i));
}

/// The rotations of a head at a position use every angle of the position's row
/// once and in order: rotation `i` turns elements `i` and `half + i` by entry
/// `position * half + i`.
pub proof fn law_rotations_use_row_in_order(rs: Seq<Rotation>, half: nat, position: nat)
    requires
        are_pairs(rs, half as int, 0, half as int, (position * half) as int),
    ensures
        rs.len() == half,
        forall|i: int|
            0 <= i < half ==> {
                &&& (#[trigger] rs[i]).entry == position * half + i
                &&& rs[i].first == i
                &&& rs[i].second == half + i
            },
        forall|i: int, j: int|
            0 <= i < j < rs.len() ==> (#[trigger] rs[i]).entry != (#[trigger] rs[j]).entry,
{
    assert forall|i: int| 0 <= i < half implies {
        &&& (#[trigger] rs[i]).entry == position * half + i
        &&& rs[i].first == i
        &&& rs[i].second == half + i
    } by {
        assert(rs[i].is_pair(0, half as int, (position * half) as int, i));
    }
}

/// Rotations of a part of a head, in numbers: rotation `i` turns the elements
/// `i` and `half + i` of the part by angle `i` from the offset on.
pub proof fn law_pairs_are_consecutive(
    rs: Seq<Rotation>,
    count: int,
    base: int,
    half: int,
    offset: int,
    i: int,
)
    requires
        are_pairs(rs, count, base, half, offset),
        0 <= i < count,
    ensures
        rs.len() == count,
        rs[i].first == base + i,
        rs[i].second == base + half + i,
        rs[i].entry == offset + i,
{
    assert(rs[i].is_pair(base, half, offset, i));
}

/// At the next position a head is rotated in the same pairs, each by the angle
/// one row further on.
pub proof fn law_next_position_uses_next_row(
    here: Seq<Rotation>,
    next: Seq<Rotation>,
    half: nat,
    position: nat,
    i: int,
)
    requires
        are_pairs(here, half as int, 0, half as int, (position * half) as int),
        are_pairs(next, half as int, 0, half as int, ((position + 1) * half) as int),
        0 <= i < half,
    ensures
        next[i].first == here[i].first,
        next[i].second == here[i].second,
        next[i].second - next[i].first == half,
        next[i].entry == here[i].entry + half,
{
    assert(here[i].is_pair(0, half as int, (position * half) as int, i));
    assert(next[i].is_pair(0, half as int, ((position + 1) * half) as int, i));
    assert((position + 1) * half == position * half + half) by (nonlinear_arith);
}

/// A table for heads of a size has a row of half as many angles for each
/// position; unscaled ones have the plain scaling and the factor one.
pub proof fn law_table_has_row_for_each_position(
    t: RopeTable,
    head_dim: usize,
    positions: nat,
    base: u32,
)
    requires
        t.is_table(head_dim, positions, standard(base)),
    ensures
        t.half() == head_dim / 2,
        t.positions() == positions,
        t.rule().base == base,
        t.rule().scaling_type == RopeScalingType::Standard,
        t.rule().scaling_factor == 0x3F80_0000,
{
}

/// A head that is shorter than its rotated part is rotated only in the pairs
/// that it has in full, and not at all where the table is too short.
pub proof fn law_lenient_rotations_stay_in_head(
    rs: Seq<Rotation>,
    len: int,
    half: int,
    reached: bool,
    offset: int,
)
    requires
        0 <= len,
        0 <= half,
        are_pairs(rs, lenient_count(len, half, reached), 0, half, offset),
    ensures
        !reached ==> rs.len() == 0,
        len <= half ==> rs.len() == 0,
        reached && half < len < 2 * half ==> rs.len() == len - half,
        reached && 2 * half <= len ==> rs.len() == half,
        forall|i: int|
            0 <= i < rs.len() ==> {
                &&& (#[trigger] rs[i]).first == i
                &&& rs[i].second == half + i
                &&& rs[i].second < len
                &&& rs[i].entry == offset + i
            },
{
    assert forall|i: int| 0 <= i < rs.len() implies {
        &&& (#[trigger] rs[i]).first == i
        &&& rs[i].second == half + i
        &&& rs[i].second < len
        &&& rs[i].entry == offset + i
    } by {
        assert(rs[i].is_pair(0, half, offset, i));
    }
}

} // verus!
