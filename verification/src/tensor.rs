use vstd::prelude::*;

verus! {

/// A symmetric 3 x 3 tensor (such as the source moment tensor) filled from
/// its six independent entries: row 0 holds `xx, xy, xz`, row 1 holds
/// `xy, yy, yz` and row 2 holds `xz, yz, zz`.
pub fn symmetric3<T: Copy>(xx: T, xy: T, xz: T, yy: T, yz: T, zz: T) -> (m: [[T; 3]; 3])
    ensures
        m[0][0] == xx && m[0][1] == xy && m[0][2] == xz,
        m[1][0] == xy && m[1][1] == yy && m[1][2] == yz,
        m[2][0] == xz && m[2][1] == yz && m[2][2] == zz,
        is_symmetric3(m),
{
    [[xx, xy, xz], [xy, yy, yz], [xz, yz, zz]]
}

/// Whether a 3 x 3 tensor equals its transpose.
pub open spec fn is_symmetric3<T>(m: [[T; 3]; 3]) -> bool {
    forall|i: int, j: int| 0 <= i < 3 && 0 <= j < 3 ==> #[trigger] m[i][j] == m[j][i]
}

} // verus!
