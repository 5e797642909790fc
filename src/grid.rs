//! Mapping from integer grid coordinates to positions centred on the origin.
use vstd::prelude::*;

verus! {

/// The centred coordinate of grid index `i` along an axis of length `d`.
pub open spec fn centred(i: int, d: int) -> int {
    i - d / 2
}

/// Whether every component of `index` and `dim` fits a signed machine word.
pub open spec fn fits_isize(index: [usize; 3], dim: [usize; 3]) -> bool {
    forall|a: int| 0 <= a < 3 ==> index[a] <= isize::MAX && dim[a] <= isize::MAX
}

/// The position of the cell at `index` in a grid of size `dim`, so that the
/// grid is centred on the origin: `index - dim / 2` for each axis, with
/// truncating division.
pub fn calculate_position(index: [usize; 3], dim: [usize; 3]) -> (r: [isize; 3])
    requires
        fits_isize(index, dim),
    ensures
        forall|a: int| 0 <= a < 3 ==> r[a] == centred(index[a] as int, dim[a] as int),
{
    assert(index[0] <= isize::MAX && dim[0] <= isize::MAX);
    assert(index[1] <= isize::MAX && dim[1] <= isize::MAX);
    assert(index[2] <= isize::MAX && dim[2] <= isize::MAX);
    let r = [
        index[0] as isize - dim[0] as isize / 2,
        index[1] as isize - dim[1] as isize / 2,
        index[2] as isize - dim[2] as isize / 2,
    ];
    assert(forall|a: int| 0 <= a < 3 ==> r[a] == centred(index[a] as int, dim[a] as int)) by {
        assert(r[0] == centred(index[0] as int, dim[0] as int));
        assert(r[1] == centred(index[1] as int, dim[1] as int));
        assert(r[2] == centred(index[2] as int, dim[2] as int));
    }
    r
}

} // verus!
