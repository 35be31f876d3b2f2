//! A 4×4 matrix stored as sixteen entries in row-major order: the entry at
//! row `r`, column `c` stands at position `r * 4 + c`.
use vstd::prelude::*;

verus! {

/// Position of row `r`, column `c` in the row-major flattening.
pub open spec fn at(r: int, c: int) -> int {
    r * 4 + c
}

/// `m` with rows and columns exchanged: the entry at row `r`, column `c` of
/// the result is the entry at row `c`, column `r` of `m`.
pub open spec fn transposed<T>(m: Seq<T>) -> Seq<T> {
    Seq::new(16, |i: int| m[at(i % 4, i / 4)])
}

/// `m` holds `one` on the diagonal and `zero` everywhere else.
pub open spec fn is_diagonal<T>(m: Seq<T>, zero: T, one: T) -> bool {
    &&& m.len() == 16
    &&& forall|r: int, c: int|
        0 <= r < 4 && 0 <= c < 4 ==> #[trigger] m[at(r, c)] == if r == c {
            one
        } else {
            zero
        }
}

/// The matrix with the axes `x`, `y` and `z` as its first three columns in
/// the top three rows, `t` in the first three entries of the last row, `one`
/// in the bottom-right corner and `zero` in the rest of the last column.
pub open spec fn framed<T>(x: Seq<T>, y: Seq<T>, z: Seq<T>, t: Seq<T>, zero: T, one: T) -> Seq<T> {
    Seq::new(
        16,
        |i: int|
            {
                let r = i / 4;
                let c = i % 4;
                if r < 3 {
                    if c == 0 {
                        x[r]
                    } else if c == 1 {
                        y[r]
                    } else if c == 2 {
                        z[r]
                    } else {
                        zero
                    }
                } else if c < 3 {
                    t[c]
                } else {
                    one
                }
            },
    )
}

/// A matrix whose sixteen entries all equal `value`.
pub fn filled<T: Copy>(value: T) -> (m: [T; 16])
    ensures
        forall|i: int| 0 <= i < 16 ==> m@[i] == value,
{
    [value; 16]
}

/// The matrix with `one` on the diagonal (positions 0, 5, 10 and 15) and
/// `zero` everywhere else.
pub fn diagonal<T: Copy>(zero: T, one: T) -> (m: [T; 16])
    ensures
        is_diagonal(m@, zero, one),
{
    let m = [
        one, zero, zero, zero,
        zero, one, zero, zero,
        zero, zero, one, zero,
        zero, zero, zero, one,
    ];
    m
}

/// Lays out a change of frame: the axes `x`, `y` and `z` become the first
/// three columns, `t` the translation in the last row.
pub fn from_axes<T: Copy>(
    x: &[T; 3],
    y: &[T; 3],
    z: &[T; 3],
    t: &[T; 3],
    zero: T,
    one: T,
) -> (m: [T; 16])
    ensures
        m@ == framed(x@, y@, z@, t@, zero, one),
{
    let m = [
        x[0], y[0], z[0], zero,
        x[1], y[1], z[1], zero,
        x[2], y[2], z[2], zero,
        t[0], t[1], t[2], one,
    ];
    assert(m@ =~= framed(x@, y@, z@, t@, zero, one));
    m
}

/// Overwrites every entry of `dst` with the entry of `src` at the same
/// position, whatever `dst` held before.
pub fn copy_to<T: Copy>(src: &[T; 16], dst: &mut [T; 16])
    ensures
        final(dst)@ == src@,
{
    let mut i: usize = 0;
    while i < 16
        invariant
            0 <= i <= 16,
            forall|j: int| 0 <= j < i ==> dst@[j] == src@[j],
        decreases 16 - i,
    {
        dst[i] = src[i];
        i = i + 1;
    }
    assert(dst@ =~= src@);
}

/// Exchanges rows and columns in place; the diagonal stays where it is.
pub fn transpose<T: Copy>(m: &mut [T; 16])
    ensures
        final(m)@ == transposed(old(m)@),
{
    let v01 = m[1];
    let v02 = m[2];
    let v03 = m[3];
    let v12 = m[6];
    let v13 = m[7];
    let v23 = m[11];

    m[1] = m[4];
    m[2] = m[8];
    m[3] = m[12];
    m[4] = v01;
    m[6] = m[9];
    m[7] = m[13];
    m[8] = v02;
    m[9] = v12;
    m[11] = m[14];
    m[12] = v03;
    m[13] = v13;
    m[14] = v23;

    assert(m@ =~= transposed(old(m)@));
}

/// Transposing twice gives back the matrix one started from.
pub proof fn lemma_transpose_involution<T>(m: Seq<T>)
    requires
        m.len() == 16,
    ensures
        transposed(transposed(m)) == m,
{
    assert(transposed(transposed(m)) =~= m);
}

} // verus!
