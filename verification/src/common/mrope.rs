//! Rotary position embedding over three axes: time, height and width.

use crate::common::rope::{are_pairs, pairs, standard, RopeTable, Rotation};
use vstd::prelude::*;

verus! {

/// The shape of the three tables of angles: one row of `half_dim_per_axis`
/// entries for each position.
#[derive(Debug, Clone, Copy, PartialEq, Eq)]
pub struct MRopeTable {
    half_dim_per_axis: usize,
    max_seq_len: usize,
    base: u32,
}

/// The rotations of a head, by the axis whose table they use.
#[derive(Debug)]
pub struct AxisRotations {
    /// Rotations by the time angles.
    pub time: Vec<Rotation>,
    /// Rotations by the height angles.
    pub height: Vec<Rotation>,
    /// Rotations by the width angles.
    pub width: Vec<Rotation>,
}

/// Whether rotations are those of one axis, whose part of the head begins at
/// `start` and ends at `end`: all pairs of the part, or none where the head is
/// too short for it.
pub open spec fn axis_rotations(
    rs: Seq<Rotation>,
    len: int,
    start: int,
    end: int,
    half: int,
    position: int,
) -> bool {
    if end > len || start + 2 * half > len {
        rs.len() == 0
    } else {
        are_pairs(rs, half, start, half, position * half)
    }
}

impl MRopeTable {
    #[verifier::type_invariant]
    spec fn fits(self) -> bool {
        self.max_seq_len * self.half_dim_per_axis <= usize::MAX
    }

    /// Number of rotated pairs on one axis.
    pub closed spec fn half(self) -> nat {
        self.half_dim_per_axis as nat
    }

    /// Number of positions.
    pub closed spec fn positions(self) -> nat {
        self.max_seq_len as nat
    }

    /// The base frequency, as a pattern.
    pub closed spec fn base_spec(self) -> u32 {
        self.base
    }

    /// Whether rotations are those of a head of `len` elements at a position on
    /// each axis: every axis rotates its own third of `head_dim`, and nothing is
    /// rotated where a position has no row.
    pub open spec fn plans(
        self,
        r: AxisRotations,
        len: int,
        head_dim: nat,
        t_pos: int,
        h_pos: int,
        w_pos: int,
    ) -> bool {
        let d = (head_dim / 3) as int;
        let half = self.half() as int;
        if half == 0 || t_pos >= self.positions() || h_pos >= self.positions() || w_pos
            >= self.positions() {
            r.time@.len() == 0 && r.height@.len() == 0 && r.width@.len() == 0
        } else {
            &&& axis_rotations(r.time@, len, 0, d, half, t_pos)
            &&& axis_rotations(r.height@, len, d, 2 * d, half, h_pos)
            &&& axis_rotations(r.width@, len, 2 * d, 3 * d, half, w_pos)
        }
    }

    /// Tables for heads of a given size, a third of which belongs to each axis.
    pub fn new(head_dim: usize, max_seq_len: usize, base: u32) -> (t: Self)
        requires
            max_seq_len * (head_dim / 3 / 2) <= usize::MAX,
        ensures
            t.half() == head_dim / 3 / 2,
            t.half() == head_dim / 6,
            t.positions() == max_seq_len,
            t.base_spec() == base,
    {
        MRopeTable { half_dim_per_axis: head_dim / 3 / 2, max_seq_len, base }
    }

    /// The base frequency, as a pattern.
    pub fn base(&self) -> (b: u32)
        ensures
            b == self.base_spec(),
    {
        self.base
    }

    /// Number of positions.
    pub fn max_seq_len(&self) -> (n: usize)
        ensures
            n == self.positions(),
    {
        self.max_seq_len
    }

    /// Number of rotated pairs on one axis.
    pub fn half_dim_per_axis(&self) -> (n: usize)
        ensures
            n == self.half(),
    {
        self.half_dim_per_axis
    }

    /// Plans the rotation of a head of `len` elements. There are no rotations
    /// where a position has no row.
    pub fn apply_mrope(
        &self,
        len: usize,
        t_pos: usize,
        h_pos: usize,
        w_pos: usize,
        head_dim: usize,
    ) -> (r: AxisRotations)
        ensures
            self.plans(
                r,
                len as int,
                head_dim as nat,
                t_pos as int,
                h_pos as int,
                w_pos as int,
            ),
    {
        if self.half_dim_per_axis == 0 || t_pos >= self.max_seq_len || h_pos >= self.max_seq_len
            || w_pos >= self.max_seq_len {
            return AxisRotations { time: Vec::new(), height: Vec::new(), width: Vec::new() };
        }
        let d: usize = head_dim / 3;
        AxisRotations {
            time: self.axis(len, 0, d, t_pos),
            height: self.axis(len, d, 2 * d, h_pos),
            width: self.axis(len, 2 * d, 3 * d, w_pos),
        }
    }

    fn axis(&self, len: usize, start: usize, end: usize, position: usize) -> (rs: Vec<Rotation>)
        requires
            position < self.positions(),
        ensures
            axis_rotations(
                rs@,
                len as int,
                start as int,
                end as int,
                self.half() as int,
                position as int,
            ),
    {
        proof {
            use_type_invariant(self);
            assert(position * self.half() + self.half() <= self.positions() * self.half())
                by (nonlinear_arith)
                requires
                    position + 1 <= self.positions(),
            ;
            assert(position * self.half() >= 0) by (nonlinear_arith);
        }
        let half: usize = self.half_dim_per_axis;
        if end > len || start > len || half > (len - start) / 2 {
            Vec::new()
        } else {
            pairs(half, start, half, position * half)
        }
    }
}

/// The axes are independent: the rotations of an axis touch only its own third
/// of the head, for a table made for heads of that size.
pub proof fn law_axes_are_disjoint(
    rs: Seq<Rotation>,
    len: int,
    axis: int,
    head_dim: nat,
    position: int,
    i: int,
)
    requires
        0 <= axis < 3,
        axis_rotations(
            rs,
            len,
            axis * (head_dim / 3),
            (axis + 1) * (head_dim / 3),
            (head_dim / 3 / 2) as int,
            position,
        ),
        0 <= i < rs.len(),
    ensures
        axis * (head_dim / 3) <= rs[i].first < rs[i].second < (axis + 1) * (head_dim / 3),
{
    let d = (head_dim / 3) as int;
    assert((axis + 1) * d == axis * d + d) by (nonlinear_arith);
    assert(rs[i].is_pair(axis * d, d / 2, position * (d / 2), i));
}

/// Changing the position on one axis leaves the rotations of the other axes as
/// they are, as long as every position has a row.
pub proof fn law_axis_position_is_local(
    table: MRopeTable,
    a: AxisRotations,
    b: AxisRotations,
    len: int,
    head_dim: nat,
    at: (int, int, int),
    to: (int, int, int),
)
    requires
        at.0 < table.positions() && at.1 < table.positions() && at.2 < table.positions(),
        to.0 < table.positions() && to.1 < table.positions() && to.2 < table.positions(),
        table.plans(a, len, head_dim, at.0, at.1, at.2),
        table.plans(b, len, head_dim, to.0, to.1, to.2),
    ensures
        at.0 == to.0 ==> a.time@ == b.time@,
        at.1 == to.1 ==> a.height@ == b.height@,
        at.2 == to.2 ==> a.width@ == b.width@,
{
    let d = (head_dim / 3) as int;
    let half = table.half() as int;
    if half > 0 {
        if at.0 == to.0 {
            lemma_axis_rotations_unique(a.time@, b.time@, len, 0, d, half, at.0);
        }
        if at.1 == to.1 {
            lemma_axis_rotations_unique(a.height@, b.height@, len, d, 2 * d, half, at.1);
        }
        if at.2 == to.2 {
            lemma_axis_rotations_unique(a.width@, b.width@, len, 2 * d, 3 * d, half, at.2);
        }
    } else {
        assert(a.time@ =~= b.time@ && a.height@ =~= b.height@ && a.width@ =~= b.width@);
    }
}

/// Whether rotations are others, moved on by a number of elements, with the
/// same angles.
pub open spec fn moved(rs: Seq<Rotation>, plain: Seq<Rotation>, by: int) -> bool {
    &&& rs.len() == plain.len()
    &&& forall|i: int|
        #![trigger rs[i]]
        0 <= i < rs.len() ==> {
            &&& rs[i].first == plain[i].first + by
            &&& rs[i].second == plain[i].second + by
            &&& rs[i].entry == plain[i].entry
        }
}

/// Text, whose position is the same on all axes, is rotated as by a table of one
/// axis: each third of a head is rotated as a whole head of that size is, by the
/// same angles.
pub proof fn law_text_is_rotated_as_on_one_axis(
    table: MRopeTable,
    plain_table: RopeTable,
    r: AxisRotations,
    plain: Seq<Rotation>,
    len: int,
    head_dim: usize,
    position: int,
)
    requires
        table.half() == head_dim / 3 / 2,
        plain_table.is_table(
            head_dim / 3,
            table.positions(),
            standard(table.base_spec()),
        ),
        head_dim <= len,
        position < table.positions(),
        table.plans(r, len, head_dim as nat, position, position, position),
        are_pairs(
            plain,
            plain_table.half() as int,
            0,
            plain_table.half() as int,
            position * plain_table.half(),
        ),
    ensures
        moved(r.time@, plain, 0),
        moved(r.height@, plain, (head_dim / 3) as int),
        moved(r.width@, plain, 2 * (head_dim / 3)),
{
    assert(table.half() == plain_table.half());
}

proof fn lemma_axis_rotations_unique(
    a: Seq<Rotation>,
    b: Seq<Rotation>,
    len: int,
    start: int,
    end: int,
    half: int,
    position: int,
)
    requires
        axis_rotations(a, len, start, end, half, position),
        axis_rotations(b, len, start, end, half, position),
    ensures
        a == b,
{
    if end > len || start + 2 * half > len {
    } else {
        assert forall|i: int| 0 <= i < a.len() implies a[i] == b[i] by {
            assert(a[i].is_pair(start, half, position * half, i));
            assert(b[i].is_pair(start, half, position * half, i));
        }
    }
    assert(a =~= b);
}

/// Each axis rotates its own third of a head by its own position: time the
/// first, height the second, width the third. Rotation `i` of an axis turns the
/// elements `i` and `half + i` of the third by angle `i` of the position's row.
pub proof fn law_axes_rotate_their_thirds(
    table: MRopeTable,
    r: AxisRotations,
    len: int,
    head_dim: nat,
    t_pos: int,
    h_pos: int,
    w_pos: int,
    i: int,
)
    requires
        table.plans(r, len, head_dim, t_pos, h_pos, w_pos),
        0 <= t_pos < table.positions(),
        0 <= h_pos < table.positions(),
        0 <= w_pos < table.positions(),
        table.half() == head_dim / 6,
        head_dim <= len,
        0 <= i < table.half(),
    ensures
        r.time@.len() == head_dim / 6,
        r.height@.len() == head_dim / 6,
        r.width@.len() == head_dim / 6,
        r.time@[i].first == i,
        r.time@[i].second == head_dim / 6 + i,
        r.time@[i].entry == t_pos * (head_dim / 6) + i,
        r.height@[i].first == head_dim / 3 + i,
        r.height@[i].second == head_dim / 3 + head_dim / 6 + i,
        r.height@[i].entry == h_pos * (head_dim / 6) + i,
        r.width@[i].first == 2 * (head_dim / 3) + i,
        r.width@[i].second == 2 * (head_dim / 3) + head_dim / 6 + i,
        r.width@[i].entry == w_pos * (head_dim / 6) + i,
{
    let d = (head_dim / 3) as int;
    let half = table.half() as int;
    assert(2 * half <= d);
    assert(r.time@[i].is_pair(0, half, t_pos * half, i));
    assert(r.height@[i].is_pair(d, half, h_pos * half, i));
    assert(r.width@[i].is_pair(2 * d, half, w_pos * half, i));
}

/// Nothing is rotated where a position has no row on its axis.
pub proof fn law_no_rotation_without_rows(
    table: MRopeTable,
    r: AxisRotations,
    len: int,
    head_dim: nat,
    t_pos: int,
    h_pos: int,
    w_pos: int,
)
    requires
        table.plans(r, len, head_dim, t_pos, h_pos, w_pos),
        t_pos >= table.positions() || h_pos >= table.positions() || w_pos >= table.positions(),
    ensures
        r.time@.len() == 0,
        r.height@.len() == 0,
        r.width@.len() == 0,
{
}

/// An axis whose third does not lie in the head rotates nothing of it.
pub proof fn law_short_head_drops_axes(
    table: MRopeTable,
    r: AxisRotations,
    len: int,
    head_dim: nat,
    t_pos: int,
    h_pos: int,
    w_pos: int,
)
    requires
        table.plans(r, len, head_dim, t_pos, h_pos, w_pos),
    ensures
        len < head_dim / 3 ==> r.time@.len() == 0,
        len < 2 * (head_dim / 3) ==> r.height@.len() == 0,
        len < 3 * (head_dim / 3) ==> r.width@.len() == 0,
{
}

} // verus!
