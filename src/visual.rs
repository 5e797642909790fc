//! Which shared shape and material a cell shows for each of its states.
use vstd::prelude::*;

verus! {

/// What a revealed cell holds.
#[derive(Clone, Copy, Debug, PartialEq, Eq, Structural)]
pub enum Contains {
    Mine,
    Empty { adjacent_mines: u8 },
}

/// The display bucket of a revealed count: counts of five or more share the
/// last bucket.
#[derive(Clone, Copy, Debug, PartialEq, Eq, Structural)]
pub enum Bucket {
    One,
    Two,
    Three,
    Four,
    Five,
}

/// A shape of the shared pool.
#[derive(Clone, Copy, Debug, PartialEq, Eq, Structural)]
pub enum MeshVariant {
    Hidden,
    Revealed(Bucket),
    Mine,
}

/// A material of the shared pool.
#[derive(Clone, Copy, Debug, PartialEq, Eq, Structural)]
pub enum MaterialVariant {
    Hidden,
    Marked,
    Revealed(Bucket),
    Mine,
}

/// The shape and material attached to a cell; `None` means that nothing of
/// that kind is attached.
#[derive(Clone, Copy, Debug, PartialEq, Eq, Structural)]
pub struct Visual {
    pub mesh: Option<MeshVariant>,
    pub material: Option<MaterialVariant>,
}

/// The bucket shown for `n` adjacent mines, `None` for a bare revealed cell.
pub open spec fn bucket_of(n: u8) -> Option<Bucket> {
    if n == 0 {
        None
    } else if n == 1 {
        Some(Bucket::One)
    } else if n == 2 {
        Some(Bucket::Two)
    } else if n == 3 {
        Some(Bucket::Three)
    } else if n == 4 {
        Some(Bucket::Four)
    } else {
        Some(Bucket::Five)
    }
}

/// The visual that a cell in state `(marked, revealed)` must carry.
pub open spec fn visual_of(marked: bool, revealed: Option<Contains>) -> Visual {
    match revealed {
        None => Visual {
            mesh: Some(MeshVariant::Hidden),
            material: Some(if marked { MaterialVariant::Marked } else { MaterialVariant::Hidden }),
        },
        Some(Contains::Mine) => Visual {
            mesh: Some(MeshVariant::Mine),
            material: Some(MaterialVariant::Mine),
        },
        Some(Contains::Empty { adjacent_mines }) => match bucket_of(adjacent_mines) {
            None => Visual { mesh: None, material: None },
            Some(b) => Visual {
                mesh: Some(MeshVariant::Revealed(b)),
                material: Some(MaterialVariant::Revealed(b)),
            },
        },
    }
}

/// The bucket shown for `n` adjacent mines.
pub fn bucket_for(n: u8) -> (r: Option<Bucket>)
    ensures
        r == bucket_of(n),
{
    match n {
        0 => None,
        1 => Some(Bucket::One),
        2 => Some(Bucket::Two),
        3 => Some(Bucket::Three),
        4 => Some(Bucket::Four),
        _ => Some(Bucket::Five),
    }
}

/// The visual for a cell in state `(marked, revealed)`.
pub fn variant_for(marked: bool, revealed: Option<Contains>) -> (r: Visual)
    ensures
        r == visual_of(marked, revealed),
{
    match revealed {
        None => Visual {
            mesh: Some(MeshVariant::Hidden),
            material: Some(if marked { MaterialVariant::Marked } else { MaterialVariant::Hidden }),
        },
        Some(Contains::Mine) => Visual {
            mesh: Some(MeshVariant::Mine),
            material: Some(MaterialVariant::Mine),
        },
        Some(Contains::Empty { adjacent_mines }) => match bucket_for(adjacent_mines) {
            None => Visual { mesh: None, material: None },
            Some(b) => Visual {
                mesh: Some(MeshVariant::Revealed(b)),
                material: Some(MaterialVariant::Revealed(b)),
            },
        },
    }
}

/// The position of bucket `b` among the five revealed variants.
pub open spec fn bucket_rank(b: Bucket) -> int {
    match b {
        Bucket::One => 0,
        Bucket::Two => 1,
        Bucket::Three => 2,
        Bucket::Four => 3,
        Bucket::Five => 4,
    }
}

/// One shared shape handle `M` and one shared material handle `T` for each
/// variant, made once and lent to every cell that shows that variant.
pub struct VisualPool<M, T> {
    pub hidden_mesh: M,
    pub revealed_meshes: [M; 5],
    pub mine_mesh: M,
    pub hidden_material: T,
    pub marked_material: T,
    pub revealed_materials: [T; 5],
    pub mine_material: T,
}

impl<M, T> VisualPool<M, T> {
    /// The handle that the pool holds for shape `v`.
    pub open spec fn mesh_of(&self, v: MeshVariant) -> M {
        match v {
            MeshVariant::Hidden => self.hidden_mesh,
            MeshVariant::Revealed(b) => self.revealed_meshes[bucket_rank(b)],
            MeshVariant::Mine => self.mine_mesh,
        }
    }

    /// The handle that the pool holds for material `v`.
    pub open spec fn material_of(&self, v: MaterialVariant) -> T {
        match v {
            MaterialVariant::Hidden => self.hidden_material,
            MaterialVariant::Marked => self.marked_material,
            MaterialVariant::Revealed(b) => self.revealed_materials[bucket_rank(b)],
            MaterialVariant::Mine => self.mine_material,
        }
    }

    /// The shared handle for shape `v`.
    pub fn mesh(&self, v: MeshVariant) -> (r: &M)
        ensures
            *r == self.mesh_of(v),
    {
        match v {
            MeshVariant::Hidden => &self.hidden_mesh,
            MeshVariant::Revealed(b) => &self.revealed_meshes[rank_of(b)],
            MeshVariant::Mine => &self.mine_mesh,
        }
    }

    /// The shared handle for material `v`.
    pub fn material(&self, v: MaterialVariant) -> (r: &T)
        ensures
            *r == self.material_of(v),
    {
        match v {
            MaterialVariant::Hidden => &self.hidden_material,
            MaterialVariant::Marked => &self.marked_material,
            MaterialVariant::Revealed(b) => &self.revealed_materials[rank_of(b)],
            MaterialVariant::Mine => &self.mine_material,
        }
    }
}

/// The position of bucket `b` among the five revealed variants.
pub fn rank_of(b: Bucket) -> (r: usize)
    ensures
        r == bucket_rank(b),
        r < 5,
{
    match b {
        Bucket::One => 0,
        Bucket::Two => 1,
        Bucket::Three => 2,
        Bucket::Four => 3,
        Bucket::Five => 4,
    }
}

} // verus!
