//! The basis algebra of tetraquaternions: the tensor product of two copies of
//! the quaternions, a "small" one with units i, j, k and a "large" one with
//! units I, J, K. Its sixteen basis elements are the products of one small and
//! one large unit; fifteen of them are not the scalar 1.

use vstd::prelude::*;
use vstd::string::*;

verus! {

/// A unit of the quaternions: the real unit or one of the three imaginary ones.
#[derive(Copy, Clone, PartialEq, Eq, Structural, Debug)]
pub enum QuatComp {
    R,
    I,
    J,
    K,
}

/// The imaginary unit that follows `a` in the cycle I, J, K, I. The real unit
/// is mapped to itself.
pub open spec fn quat_next(a: QuatComp) -> QuatComp {
    match a {
        QuatComp::R => QuatComp::R,
        QuatComp::I => QuatComp::J,
        QuatComp::J => QuatComp::K,
        QuatComp::K => QuatComp::I,
    }
}

/// The product of two quaternion units as a sign and a unit. The real unit is
/// neutral, an imaginary unit squares to -1, and two different imaginary
/// units give the third one: with sign +1 where the right one follows the
/// left one in the cycle I, J, K, I, with sign -1 otherwise.
pub open spec fn quat_mul_spec(a: QuatComp, b: QuatComp) -> (int, QuatComp) {
    if a == QuatComp::R {
        (1, b)
    } else if b == QuatComp::R {
        (1, a)
    } else if a == b {
        (-1, QuatComp::R)
    } else if b == quat_next(a) {
        (1, quat_next(b))
    } else {
        (-1, quat_next(a))
    }
}

/// Multiplies two quaternion units.
pub fn quat_mul(a: QuatComp, b: QuatComp) -> (product: (i8, QuatComp))
    ensures
        product.0 == quat_mul_spec(a, b).0,
        product.1 == quat_mul_spec(a, b).1,
{
    match (a, b) {
        (QuatComp::R, x) => (1, x),
        (x, QuatComp::R) => (1, x),
        (QuatComp::I, QuatComp::I) => (-1, QuatComp::R),
        (QuatComp::I, QuatComp::J) => (1, QuatComp::K),
        (QuatComp::I, QuatComp::K) => (-1, QuatComp::J),
        (QuatComp::J, QuatComp::I) => (-1, QuatComp::K),
        (QuatComp::J, QuatComp::J) => (-1, QuatComp::R),
        (QuatComp::J, QuatComp::K) => (1, QuatComp::I),
        (QuatComp::K, QuatComp::I) => (1, QuatComp::J),
        (QuatComp::K, QuatComp::J) => (-1, QuatComp::I),
        (QuatComp::K, QuatComp::K) => (-1, QuatComp::R),
    }
}

/// The number of basis elements other than the scalar 1.
pub const BASIS_LEN: usize = 15;

/// The basis elements other than the scalar 1, in their fixed order, each as
/// its small unit and its large unit:
/// j, kI, kJ, kK, iI, iJ, iK, I, J, K, k, jI, jJ, jK, i.
pub open spec fn basis_table() -> Seq<(QuatComp, QuatComp)> {
    seq![
        (QuatComp::J, QuatComp::R),
        (QuatComp::K, QuatComp::I),
        (QuatComp::K, QuatComp::J),
        (QuatComp::K, QuatComp::K),
        (QuatComp::I, QuatComp::I),
        (QuatComp::I, QuatComp::J),
        (QuatComp::I, QuatComp::K),
        (QuatComp::R, QuatComp::I),
        (QuatComp::R, QuatComp::J),
        (QuatComp::R, QuatComp::K),
        (QuatComp::K, QuatComp::R),
        (QuatComp::J, QuatComp::I),
        (QuatComp::J, QuatComp::J),
        (QuatComp::J, QuatComp::K),
        (QuatComp::I, QuatComp::R),
    ]
}

/// The basis element at `index`, for an index below `BASIS_LEN`.
pub open spec fn basis_spec(index: int) -> (QuatComp, QuatComp)
    recommends
        0 <= index < BASIS_LEN,
{
    basis_table()[index]
}

/// Whether a pair of units is a basis element other than the scalar 1.
pub open spec fn is_basis_pair(s: QuatComp, l: QuatComp) -> bool {
    !(s == QuatComp::R && l == QuatComp::R)
}

/// The place of the basis element with small unit `s` and large unit `l` in
/// the fixed order. Only pairs other than (R, R) have a place.
pub open spec fn basis_index_spec(s: QuatComp, l: QuatComp) -> int
    recommends
        is_basis_pair(s, l),
{
    match (s, l) {
        (QuatComp::J, QuatComp::R) => 0,
        (QuatComp::K, QuatComp::I) => 1,
        (QuatComp::K, QuatComp::J) => 2,
        (QuatComp::K, QuatComp::K) => 3,
        (QuatComp::I, QuatComp::I) => 4,
        (QuatComp::I, QuatComp::J) => 5,
        (QuatComp::I, QuatComp::K) => 6,
        (QuatComp::R, QuatComp::I) => 7,
        (QuatComp::R, QuatComp::J) => 8,
        (QuatComp::R, QuatComp::K) => 9,
        (QuatComp::K, QuatComp::R) => 10,
        (QuatComp::J, QuatComp::I) => 11,
        (QuatComp::J, QuatComp::J) => 12,
        (QuatComp::J, QuatComp::K) => 13,
        _ => 14,
    }
}

/// The basis element at `index`.
pub fn basis_element(index: usize) -> (pair: (QuatComp, QuatComp))
    requires
        index < BASIS_LEN,
    ensures
        pair == basis_spec(index as int),
        is_basis_pair(pair.0, pair.1),
{
    match index {
        0 => (QuatComp::J, QuatComp::R),
        1 => (QuatComp::K, QuatComp::I),
        2 => (QuatComp::K, QuatComp::J),
        3 => (QuatComp::K, QuatComp::K),
        4 => (QuatComp::I, QuatComp::I),
        5 => (QuatComp::I, QuatComp::J),
        6 => (QuatComp::I, QuatComp::K),
        7 => (QuatComp::R, QuatComp::I),
        8 => (QuatComp::R, QuatComp::J),
        9 => (QuatComp::R, QuatComp::K),
        10 => (QuatComp::K, QuatComp::R),
        11 => (QuatComp::J, QuatComp::I),
        12 => (QuatComp::J, QuatComp::J),
        13 => (QuatComp::J, QuatComp::K),
        _ => (QuatComp::I, QuatComp::R),
    }
}

/// Finds the place of a basis element in the fixed order: the one index
/// below `BASIS_LEN` at which the basis holds the pair.
pub fn get_basis_index(s: QuatComp, l: QuatComp) -> (index: usize)
    requires
        is_basis_pair(s, l),
    ensures
        index < BASIS_LEN,
        basis_spec(index as int) == (s, l),
        index == basis_index_spec(s, l),
{
    match (s, l) {
        (QuatComp::J, QuatComp::R) => 0,
        (QuatComp::K, QuatComp::I) => 1,
        (QuatComp::K, QuatComp::J) => 2,
        (QuatComp::K, QuatComp::K) => 3,
        (QuatComp::I, QuatComp::I) => 4,
        (QuatComp::I, QuatComp::J) => 5,
        (QuatComp::I, QuatComp::K) => 6,
        (QuatComp::R, QuatComp::I) => 7,
        (QuatComp::R, QuatComp::J) => 8,
        (QuatComp::R, QuatComp::K) => 9,
        (QuatComp::K, QuatComp::R) => 10,
        (QuatComp::J, QuatComp::I) => 11,
        (QuatComp::J, QuatComp::J) => 12,
        (QuatComp::J, QuatComp::K) => 13,
        _ => 14,
    }
}

/// The sign of the product of the basis elements at `left` and `right`: the
/// small units and the large units multiply apart, and the signs multiply.
pub open spec fn mul_sign_spec(left: int, right: int) -> int
    recommends
        0 <= left < BASIS_LEN,
        0 <= right < BASIS_LEN,
{
    quat_mul_spec(basis_spec(left).0, basis_spec(right).0).0 * quat_mul_spec(
        basis_spec(left).1,
        basis_spec(right).1,
    ).0
}

/// The coefficient slot that the product of the basis elements at `left` and
/// `right` falls on: 0 for the scalar 1, else one more than the index of the
/// basis element.
pub open spec fn mul_slot_spec(left: int, right: int) -> int
    recommends
        0 <= left < BASIS_LEN,
        0 <= right < BASIS_LEN,
{
    let s = quat_mul_spec(basis_spec(left).0, basis_spec(right).0).1;
    let l = quat_mul_spec(basis_spec(left).1, basis_spec(right).1).1;
    if is_basis_pair(s, l) {
        basis_index_spec(s, l) + 1
    } else {
        0
    }
}

/// Whether `table` holds, for each two basis elements, the sign and the slot
/// of their product.
pub open spec fn is_mul_table(table: [[(i8, usize); 15]; 15]) -> bool {
    forall|left: int, right: int|
        0 <= left < BASIS_LEN && 0 <= right < BASIS_LEN ==> {
            &&& (#[trigger] table[left][right]).0 == mul_sign_spec(left, right)
            &&& table[left][right].1 == mul_slot_spec(left, right)
        }
}

/// One entry of the multiplication table.
pub fn mul_table_entry(left: usize, right: usize) -> (entry: (i8, usize))
    requires
        left < BASIS_LEN,
        right < BASIS_LEN,
    ensures
        entry.0 == mul_sign_spec(left as int, right as int),
        entry.1 == mul_slot_spec(left as int, right as int),
        entry.0 == 1 || entry.0 == -1,
        entry.1 <= BASIS_LEN,
{
    let (s_l, l_l) = basis_element(left);
    let (s_r, l_r) = basis_element(right);
    let (sign_s, res_s) = quat_mul(s_l, s_r);
    let (sign_l, res_l) = quat_mul(l_l, l_r);
    proof {
        lemma_sign_product(sign_s as int, sign_l as int);
    }
    let sign: i8 = sign_s * sign_l;
    if matches!((res_s, res_l), (QuatComp::R, QuatComp::R)) {
        (sign, 0)
    } else {
        let idx: usize = get_basis_index(res_s, res_l);
        (sign, idx + 1)
    }
}

/// Computes the multiplication table of the basis: the entry at
/// `[left][right]` is the sign and the slot of the product of the basis
/// elements at `left` and `right`.
pub fn compute_mul_table() -> (table: [[(i8, usize); 15]; 15])
    ensures
        is_mul_table(table),
{
    let mut table = [[(0i8, 0usize); 15]; 15];
    let mut left: usize = 0;
    while left < 15
        invariant
            left <= 15,
            forall|a: int, b: int|
                0 <= a < left && 0 <= b < 15 ==> {
                    &&& (#[trigger] table[a][b]).0 == mul_sign_spec(a, b)
                    &&& table[a][b].1 == mul_slot_spec(a, b)
                },
        decreases 15 - left,
    {
        let mut row = [(0i8, 0usize); 15];
        let mut right: usize = 0;
        while right < 15
            invariant
                left < 15,
                right <= 15,
                forall|b: int|
                    0 <= b < right ==> {
                        &&& (#[trigger] row[b]).0 == mul_sign_spec(left as int, b)
                        &&& row[b].1 == mul_slot_spec(left as int, b)
                    },
            decreases 15 - right,
        {
            let out = mul_table_entry(left, right);
            row[right] = out;
            right += 1;
        }
        table[left] = row;
        left += 1;
    }
    table
}

/// The product of two signs: +1 where they are equal, -1 where they differ.
pub proof fn lemma_sign_product(x: int, y: int)
    requires
        x == 1 || x == -1,
        y == 1 || y == -1,
    ensures
        x * y == (if x == y {
            1int
        } else {
            -1int
        }),
{
    assert(x * y == (if x == y {
        1int
    } else {
        -1int
    })) by (nonlinear_arith)
        requires
            x == 1 || x == -1,
            y == 1 || y == -1,
    ;
}

/// The product of two quaternion units is associative: multiplying three
/// units from the left or from the right gives the same unit with the same
/// sign.
pub proof fn lemma_quat_mul_associative(a: QuatComp, b: QuatComp, c: QuatComp)
    ensures
        quat_mul_spec(quat_mul_spec(a, b).1, c).1 == quat_mul_spec(a, quat_mul_spec(b, c).1).1,
        quat_mul_spec(a, b).0 * quat_mul_spec(quat_mul_spec(a, b).1, c).0 == quat_mul_spec(b, c).0
            * quat_mul_spec(a, quat_mul_spec(b, c).1).0,
{
    lemma_sign_product(quat_mul_spec(a, b).0, quat_mul_spec(quat_mul_spec(a, b).1, c).0);
    lemma_sign_product(quat_mul_spec(b, c).0, quat_mul_spec(a, quat_mul_spec(b, c).1).0);
}

/// The sign of a product of two quaternion units is +1 or -1.
pub proof fn lemma_quat_mul_sign(a: QuatComp, b: QuatComp)
    ensures
        quat_mul_spec(a, b).0 == 1 || quat_mul_spec(a, b).0 == -1,
{
}

/// The order of the basis and the index of a basis element are inverse to
/// each other: the element at an index has that index, and the index of a
/// pair other than (R, R) is below `BASIS_LEN` and holds that pair.
pub proof fn lemma_basis_index_inverse(index: int, s: QuatComp, l: QuatComp)
    ensures
        0 <= index < BASIS_LEN ==> is_basis_pair(basis_spec(index).0, basis_spec(index).1)
            && basis_index_spec(basis_spec(index).0, basis_spec(index).1) == index,
        is_basis_pair(s, l) ==> 0 <= basis_index_spec(s, l) < BASIS_LEN && basis_spec(
            basis_index_spec(s, l),
        ) == (s, l),
{
}

/// Every entry of the multiplication table holds a sign of +1 or -1 and one
/// of the sixteen coefficient slots.
pub proof fn lemma_mul_entry_bounds(left: int, right: int)
    requires
        0 <= left < BASIS_LEN,
        0 <= right < BASIS_LEN,
    ensures
        mul_sign_spec(left, right) == 1 || mul_sign_spec(left, right) == -1,
        0 <= mul_slot_spec(left, right) <= BASIS_LEN,
{
    let a = basis_spec(left);
    let b = basis_spec(right);
    lemma_quat_mul_sign(a.0, b.0);
    lemma_quat_mul_sign(a.1, b.1);
    lemma_basis_index_inverse(0, quat_mul_spec(a.0, b.0).1, quat_mul_spec(a.1, b.1).1);
    lemma_sign_product(quat_mul_spec(a.0, b.0).0, quat_mul_spec(a.1, b.1).0);
}

/// A basis element squares to a scalar: to -1 where exactly one of its two
/// units is imaginary, to +1 where both are.
pub proof fn lemma_basis_square(index: int)
    requires
        0 <= index < BASIS_LEN,
    ensures
        mul_slot_spec(index, index) == 0,
        mul_sign_spec(index, index) == (if basis_spec(index).0 == QuatComp::R || basis_spec(
            index,
        ).1 == QuatComp::R {
            -1int
        } else {
            1int
        }),
{
    let a = basis_spec(index);
    lemma_basis_index_inverse(index, a.0, a.1);
    lemma_sign_product(quat_mul_spec(a.0, a.0).0, quat_mul_spec(a.1, a.1).0);
}

/// Two basis elements commute or anticommute: their two products fall on the
/// same slot, with the same sign or with opposite signs.
pub proof fn lemma_mul_commutes_up_to_sign(left: int, right: int)
    requires
        0 <= left < BASIS_LEN,
        0 <= right < BASIS_LEN,
    ensures
        mul_slot_spec(left, right) == mul_slot_spec(right, left),
        mul_sign_spec(left, right) == mul_sign_spec(right, left) || mul_sign_spec(left, right)
            == -mul_sign_spec(right, left),
{
    lemma_mul_entry_bounds(left, right);
    lemma_mul_entry_bounds(right, left);
}

/// The basis element on a coefficient slot, as a pair of units: slot 0 holds
/// the scalar 1, the pair (R, R); a slot above it holds the basis element of
/// the index one below.
pub open spec fn slot_pair(slot: int) -> (QuatComp, QuatComp)
    recommends
        0 <= slot <= BASIS_LEN,
{
    if slot == 0 {
        (QuatComp::R, QuatComp::R)
    } else {
        basis_spec(slot - 1)
    }
}

/// The product of the elements on two coefficient slots, as a sign and a
/// slot. The scalar 1 on slot 0 is neutral; the other products are those of
/// the multiplication table.
pub open spec fn slot_mul_spec(a: int, b: int) -> (int, int)
    recommends
        0 <= a <= BASIS_LEN,
        0 <= b <= BASIS_LEN,
{
    if a == 0 {
        (1, b)
    } else if b == 0 {
        (1, a)
    } else {
        (mul_sign_spec(a - 1, b - 1), mul_slot_spec(a - 1, b - 1))
    }
}

/// The product of two slots is the product of their small units and of their
/// large units, taken apart.
pub proof fn lemma_slot_mul_by_units(a: int, b: int)
    requires
        0 <= a <= BASIS_LEN,
        0 <= b <= BASIS_LEN,
    ensures
        0 <= slot_mul_spec(a, b).1 <= BASIS_LEN,
        slot_pair(slot_mul_spec(a, b).1) == (
            quat_mul_spec(slot_pair(a).0, slot_pair(b).0).1,
            quat_mul_spec(slot_pair(a).1, slot_pair(b).1).1,
        ),
        slot_mul_spec(a, b).0 == quat_mul_spec(slot_pair(a).0, slot_pair(b).0).0 * quat_mul_spec(
            slot_pair(a).1,
            slot_pair(b).1,
        ).0,
{
    let s = quat_mul_spec(slot_pair(a).0, slot_pair(b).0).1;
    let l = quat_mul_spec(slot_pair(a).1, slot_pair(b).1).1;
    lemma_basis_index_inverse(0, s, l);
    lemma_sign_product(
        quat_mul_spec(slot_pair(a).0, slot_pair(b).0).0,
        quat_mul_spec(slot_pair(a).1, slot_pair(b).1).0,
    );
}

/// The multiplication of the sixteen basis elements is associative: the
/// products `(a b) c` and `a (b c)` fall on the same slot with the same sign.
pub proof fn lemma_slot_mul_associative(a: int, b: int, c: int)
    requires
        0 <= a <= BASIS_LEN,
        0 <= b <= BASIS_LEN,
        0 <= c <= BASIS_LEN,
    ensures
        slot_mul_spec(slot_mul_spec(a, b).1, c).1 == slot_mul_spec(a, slot_mul_spec(b, c).1).1,
        slot_mul_spec(a, b).0 * slot_mul_spec(slot_mul_spec(a, b).1, c).0 == slot_mul_spec(b, c).0
            * slot_mul_spec(a, slot_mul_spec(b, c).1).0,
{
    let pa = slot_pair(a);
    let pb = slot_pair(b);
    let pc = slot_pair(c);
    let ab = slot_mul_spec(a, b);
    let bc = slot_mul_spec(b, c);
    lemma_slot_mul_by_units(a, b);
    lemma_slot_mul_by_units(b, c);
    lemma_slot_mul_by_units(ab.1, c);
    lemma_slot_mul_by_units(a, bc.1);
    lemma_quat_mul_associative(pa.0, pb.0, pc.0);
    lemma_quat_mul_associative(pa.1, pb.1, pc.1);
    let left = slot_mul_spec(ab.1, c);
    let right = slot_mul_spec(a, bc.1);
    lemma_basis_index_inverse(left.1 - 1, QuatComp::R, QuatComp::R);
    lemma_basis_index_inverse(right.1 - 1, QuatComp::R, QuatComp::R);
    assert(slot_pair(left.1) == slot_pair(right.1));
    assert(left.1 == right.1);
    let s1 = quat_mul_spec(pa.0, pb.0).0;
    let l1 = quat_mul_spec(pa.1, pb.1).0;
    let s2 = quat_mul_spec(quat_mul_spec(pa.0, pb.0).1, pc.0).0;
    let l2 = quat_mul_spec(quat_mul_spec(pa.1, pb.1).1, pc.1).0;
    let s3 = quat_mul_spec(pb.0, pc.0).0;
    let l3 = quat_mul_spec(pb.1, pc.1).0;
    let s4 = quat_mul_spec(pa.0, quat_mul_spec(pb.0, pc.0).1).0;
    let l4 = quat_mul_spec(pa.1, quat_mul_spec(pb.1, pc.1).1).0;
    assert((s1 * l1) * (s2 * l2) == (s3 * l3) * (s4 * l4)) by (nonlinear_arith)
        requires
            s1 * s2 == s3 * s4,
            l1 * l2 == l3 * l4,
    ;
}

/// Multiplying by a basis element moves no two slots onto the same slot:
/// each row and each column of the table, with the scalar 1 in its place,
/// holds every slot once.
pub proof fn lemma_slot_mul_injective(a: int, b: int, c: int)
    requires
        0 <= a <= BASIS_LEN,
        0 <= b <= BASIS_LEN,
        0 <= c <= BASIS_LEN,
    ensures
        slot_mul_spec(a, b).1 == slot_mul_spec(a, c).1 ==> b == c,
        slot_mul_spec(b, a).1 == slot_mul_spec(c, a).1 ==> b == c,
{
    lemma_slot_mul_by_units(a, b);
    lemma_slot_mul_by_units(a, c);
    lemma_slot_mul_by_units(b, a);
    lemma_slot_mul_by_units(c, a);
    lemma_basis_index_inverse(b - 1, QuatComp::R, QuatComp::R);
    lemma_basis_index_inverse(c - 1, QuatComp::R, QuatComp::R);
    assert(slot_pair(b) == slot_pair(c) ==> b == c);
}

/// The letter of a unit of the small quaternions: `i`, `j` or `k`, and
/// nothing for the real unit.
pub open spec fn small_unit_text(c: QuatComp) -> Seq<char> {
    match c {
        QuatComp::R => Seq::empty(),
        QuatComp::I => seq!['i'],
        QuatComp::J => seq!['j'],
        QuatComp::K => seq!['k'],
    }
}

/// The letter of a unit of the large quaternions: `I`, `J` or `K`, and
/// nothing for the real unit.
pub open spec fn large_unit_text(c: QuatComp) -> Seq<char> {
    match c {
        QuatComp::R => Seq::empty(),
        QuatComp::I => seq!['I'],
        QuatComp::J => seq!['J'],
        QuatComp::K => seq!['K'],
    }
}

/// The label of the basis element at `index`: the letter of its small unit,
/// then the letter of its large unit.
pub open spec fn basis_label_spec(index: int) -> Seq<char>
    recommends
        0 <= index < BASIS_LEN,
{
    small_unit_text(basis_spec(index).0) + large_unit_text(basis_spec(index).1)
}

/// The name of the basis element at `index` as it heads a row or a column:
/// three characters wide, a label of one letter in the middle, a label of two
/// letters at the left.
pub open spec fn basis_name_spec(index: int) -> Seq<char>
    recommends
        0 <= index < BASIS_LEN,
{
    let label = basis_label_spec(index);
    if label.len() == 1 {
        seq![' '] + label + seq![' ']
    } else {
        label + seq![' ']
    }
}

/// `count` copies of `piece`, one after the other.
pub open spec fn repeat_text(piece: Seq<char>, count: nat) -> Seq<char>
    decreases count,
{
    if count == 0 {
        Seq::empty()
    } else {
        repeat_text(piece, (count - 1) as nat) + piece
    }
}

/// `text` with spaces in front of it up to `width` characters; a longer text
/// is left as it is.
pub open spec fn pad_left(text: Seq<char>, width: nat) -> Seq<char> {
    if text.len() < width {
        repeat_text(seq![' '], (width - text.len()) as nat) + text
    } else {
        text
    }
}

/// The text of one cell of the table: `+1` or `-1` where the product is a
/// scalar, else the sign and the label of the basis element, in each case at
/// the right of four characters.
pub open spec fn cell_text_spec(sign: int, slot: int) -> Seq<char>
    recommends
        0 <= slot <= BASIS_LEN,
{
    let mark = if sign > 0 {
        seq!['+']
    } else {
        seq!['-']
    };
    if slot == 0 {
        pad_left(mark + seq!['1'], 4)
    } else {
        pad_left(mark + basis_label_spec(slot - 1), 4)
    }
}

/// The first `count` cells of the row of the basis element at `row`.
pub open spec fn cells_text(row: int, count: nat) -> Seq<char>
    recommends
        0 <= row < BASIS_LEN,
        count <= BASIS_LEN,
    decreases count,
{
    if count == 0 {
        Seq::empty()
    } else {
        cells_text(row, (count - 1) as nat) + cell_text_spec(
            mul_sign_spec(row, count - 1),
            mul_slot_spec(row, count - 1),
        )
    }
}

/// The line of the basis element at `row`: its name, a bar, its fifteen cells
/// and a line feed.
pub open spec fn row_text(row: int) -> Seq<char>
    recommends
        0 <= row < BASIS_LEN,
{
    basis_name_spec(row) + seq!['|'] + cells_text(row, BASIS_LEN as nat) + seq!['\n']
}

/// The names of the first `count` basis elements, each after one space.
pub open spec fn names_text(count: nat) -> Seq<char>
    recommends
        count <= BASIS_LEN,
    decreases count,
{
    if count == 0 {
        Seq::empty()
    } else {
        names_text((count - 1) as nat) + seq![' '] + basis_name_spec(count - 1)
    }
}

/// The line that heads the columns.
pub open spec fn heading_text() -> Seq<char> {
    "   | "@ + names_text(BASIS_LEN as nat) + seq!['\n']
}

/// The double rule that opens and closes the table, with its line feed.
pub open spec fn rule_text() -> Seq<char> {
    repeat_text("═════"@, 16) + seq!['\n']
}

/// The single rule that stands between two lines, with its line feed.
pub open spec fn separator_text() -> Seq<char> {
    "───┼─"@ + repeat_text("─────"@, BASIS_LEN as nat) + seq!['\n']
}

/// The lines of the first `count` rows. A separator follows every row but the
/// last of the table.
pub open spec fn rows_text(count: nat) -> Seq<char>
    recommends
        count <= BASIS_LEN,
    decreases count,
{
    if count == 0 {
        Seq::empty()
    } else if count < BASIS_LEN {
        rows_text((count - 1) as nat) + row_text(count - 1) + separator_text()
    } else {
        rows_text((count - 1) as nat) + row_text(count - 1)
    }
}

/// The multiplication table as text: a double rule, the heading, a separator,
/// the fifteen rows with a separator between each two, and a double rule.
pub open spec fn mul_table_text() -> Seq<char> {
    rule_text() + heading_text() + separator_text() + rows_text(BASIS_LEN as nat) + rule_text()
}

/// The letter of a unit of the small quaternions.
fn small_unit_letter(c: QuatComp) -> (letter: &'static str)
    ensures
        letter@ == small_unit_text(c),
{
    proof {
        reveal_strlit("");
        reveal_strlit("i");
        reveal_strlit("j");
        reveal_strlit("k");
    }
    match c {
        QuatComp::R => {
            assert(""@ =~= small_unit_text(c));
            ""
        },
        QuatComp::I => {
            assert("i"@ =~= small_unit_text(c));
            "i"
        },
        QuatComp::J => {
            assert("j"@ =~= small_unit_text(c));
            "j"
        },
        QuatComp::K => {
            assert("k"@ =~= small_unit_text(c));
            "k"
        },
    }
}

/// The letter of a unit of the large quaternions.
fn large_unit_letter(c: QuatComp) -> (letter: &'static str)
    ensures
        letter@ == large_unit_text(c),
{
    proof {
        reveal_strlit("");
        reveal_strlit("I");
        reveal_strlit("J");
        reveal_strlit("K");
    }
    match c {
        QuatComp::R => {
            assert(""@ =~= large_unit_text(c));
            ""
        },
        QuatComp::I => {
            assert("I"@ =~= large_unit_text(c));
            "I"
        },
        QuatComp::J => {
            assert("J"@ =~= large_unit_text(c));
            "J"
        },
        QuatComp::K => {
            assert("K"@ =~= large_unit_text(c));
            "K"
        },
    }
}

/// The label of the basis element at `index`, such as `j` or `kI`.
pub fn basis_label(index: usize) -> (label: String)
    requires
        index < BASIS_LEN,
    ensures
        label@ == basis_label_spec(index as int),
{
    let (s, l) = basis_element(index);
    let mut label = String::from_str(small_unit_letter(s));
    label.append(large_unit_letter(l));
    label
}

/// The name of the basis element at `index`, three characters wide.
pub fn basis_name(index: usize) -> (name: String)
    requires
        index < BASIS_LEN,
    ensures
        name@ == basis_name_spec(index as int),
{
    let (s, l) = basis_element(index);
    proof {
        reveal_strlit(" ");
        assert(" "@ =~= seq![' ']);
    }
    let mut name = String::new();
    if matches!(s, QuatComp::R) || matches!(l, QuatComp::R) {
        name.append(" ");
        name.append(small_unit_letter(s));
        name.append(large_unit_letter(l));
        name.append(" ");
        assert(name@ =~= basis_name_spec(index as int));
    } else {
        name.append(small_unit_letter(s));
        name.append(large_unit_letter(l));
        name.append(" ");
        assert(name@ =~= basis_name_spec(index as int));
    }
    name
}

/// The text of one cell of the table, for the sign and the slot of a product.
pub fn cell_text(sign: i8, slot: usize) -> (cell: String)
    requires
        slot <= BASIS_LEN,
    ensures
        cell@ == cell_text_spec(sign as int, slot as int),
{
    proof {
        reveal_strlit(" ");
        reveal_strlit("  ");
        reveal_strlit("+");
        reveal_strlit("-");
        reveal_strlit("1");
        reveal_with_fuel(repeat_text, 3);
    }
    let mark = if sign > 0 {
        "+"
    } else {
        "-"
    };
    let ghost mark_text = if sign > 0 {
        seq!['+']
    } else {
        seq!['-']
    };
    assert(mark@ =~= mark_text);
    let mut cell = String::new();
    if slot == 0 {
        cell.append("  ");
        cell.append(mark);
        cell.append("1");
        assert((mark_text + seq!['1']).len() == 2);
        assert(cell@ =~= pad_left(mark_text + seq!['1'], 4));
    } else {
        let (s, l) = basis_element(slot - 1);
        let ghost label = basis_label_spec(slot - 1);
        if matches!(s, QuatComp::R) || matches!(l, QuatComp::R) {
            cell.append("  ");
            assert((mark_text + label).len() == 2);
        } else {
            cell.append(" ");
            assert((mark_text + label).len() == 3);
        }
        cell.append(mark);
        cell.append(small_unit_letter(s));
        cell.append(large_unit_letter(l));
        assert(cell@ =~= pad_left(mark_text + label, 4));
    }
    cell
}

/// Appends `count` copies of `piece` to `text`.
fn append_repeated(text: &mut String, piece: &str, count: usize)
    ensures
        final(text)@ == old(text)@ + repeat_text(piece@, count as nat),
{
    let mut done: usize = 0;
    assert(text@ =~= old(text)@ + repeat_text(piece@, 0));
    while done < count
        invariant
            done <= count,
            text@ == old(text)@ + repeat_text(piece@, done as nat),
        decreases count - done,
    {
        text.append(piece);
        done += 1;
        assert(text@ =~= old(text)@ + repeat_text(piece@, done as nat));
    }
}

/// Appends the single rule that stands between two lines.
fn append_separator(text: &mut String)
    ensures
        final(text)@ == old(text)@ + separator_text(),
{
    proof {
        reveal_strlit("\n");
    }
    text.append("───┼─");
    append_repeated(text, "─────", 15);
    text.append("\n");
    assert(text@ =~= old(text)@ + separator_text());
}

/// Appends the double rule that opens and closes the table.
fn append_rule(text: &mut String)
    ensures
        final(text)@ == old(text)@ + rule_text(),
{
    proof {
        reveal_strlit("\n");
    }
    append_repeated(text, "═════", 16);
    text.append("\n");
    assert(text@ =~= old(text)@ + rule_text());
}

/// Appends the line that heads the columns.
fn append_heading(text: &mut String)
    ensures
        final(text)@ == old(text)@ + heading_text(),
{
    text.append("   | ");
    let ghost start = text@;
    let mut col: usize = 0;
    assert(text@ =~= start + names_text(0));
    while col < 15
        invariant
            col <= 15,
            text@ == start + names_text(col as nat),
        decreases 15 - col,
    {
        let name = basis_name(col);
        text.append(" ");
        text.append(name.as_str());
        col += 1;
        proof {
            reveal_strlit(" ");
        }
        assert(text@ =~= start + names_text(col as nat));
    }
    text.append("\n");
    proof {
        reveal_strlit("\n");
    }
    assert(text@ =~= old(text)@ + heading_text());
}

/// Appends the line of the basis element at `row`.
fn append_row(text: &mut String, table: &[[(i8, usize); 15]; 15], row: usize)
    requires
        row < BASIS_LEN,
        is_mul_table(*table),
    ensures
        final(text)@ == old(text)@ + row_text(row as int),
{
    let name = basis_name(row);
    text.append(name.as_str());
    text.append("|");
    proof {
        reveal_strlit("|");
    }
    let ghost start = text@;
    assert(start =~= old(text)@ + basis_name_spec(row as int) + seq!['|']);
    let mut col: usize = 0;
    assert(text@ =~= start + cells_text(row as int, 0));
    while col < 15
        invariant
            row < 15,
            col <= 15,
            is_mul_table(*table),
            text@ == start + cells_text(row as int, col as nat),
        decreases 15 - col,
    {
        let (sign, slot) = table[row][col];
        proof {
            lemma_mul_entry_bounds(row as int, col as int);
        }
        let cell = cell_text(sign, slot);
        text.append(cell.as_str());
        col += 1;
        assert(text@ =~= start + cells_text(row as int, col as nat));
    }
    text.append("\n");
    proof {
        reveal_strlit("\n");
    }
    assert(text@ =~= old(text)@ + row_text(row as int));
}

/// Writes the multiplication table of the basis as text, one line for each
/// basis element, with the names of the basis elements at the head and at the
/// left.
pub fn _to_mul_table_string() -> (text: String)
    ensures
        text@ == mul_table_text(),
{
    let table = compute_mul_table();
    let mut result = String::new();
    append_rule(&mut result);
    append_heading(&mut result);
    append_separator(&mut result);
    let ghost start = result@;
    assert(start =~= rule_text() + heading_text() + separator_text());
    let mut row: usize = 0;
    assert(result@ =~= start + rows_text(0));
    while row < 15
        invariant
            row <= 15,
            is_mul_table(table),
            result@ == start + rows_text(row as nat),
        decreases 15 - row,
    {
        append_row(&mut result, &table, row);
        if row < 14 {
            append_separator(&mut result);
        }
        row += 1;
        assert(result@ =~= start + rows_text(row as nat));
    }
    append_rule(&mut result);
    assert(result@ =~= mul_table_text());
    result
}

} // verus!
