use vstd::prelude::*;

verus! {

/// A cell identifier packed into the smallest of 32, 64 or 128 bits that
/// holds it.
///
/// Layout, from bit 0: a flag set for refinement ratio 7 (three bits per
/// hierarchy index, else two); the starting solid (3 bits); the refinement
/// level (`floor(log2(119 / bits per index))` bits); the face index (5 bits);
/// then one group per hierarchy index.
#[derive(Clone, Copy, Debug, PartialEq, Eq, Structural)]
pub enum CellId {
    U32(u32),
    U64(u64),
    U128(u128),
}

/// The Platonic solid a grid starts from.
#[derive(Clone, Copy, Debug, PartialEq, Eq, Structural)]
pub enum UnitPolyhedron {
    Tetrahedron,
    Cube,
    Octahedron,
    Dodecahedron,
    Icosahedron,
    TruncatedIcosahedron,
}

impl UnitPolyhedron {
    /// The solid's number in a cell identifier.
    pub open spec fn code_spec(self) -> u128 {
        match self {
            UnitPolyhedron::Tetrahedron => 0,
            UnitPolyhedron::Cube => 1,
            UnitPolyhedron::Octahedron => 2,
            UnitPolyhedron::Dodecahedron => 3,
            UnitPolyhedron::Icosahedron => 4,
            UnitPolyhedron::TruncatedIcosahedron => 5,
        }
    }

    fn code(self) -> (r: u128)
        ensures
            r == self.code_spec(),
    {
        match self {
            UnitPolyhedron::Tetrahedron => 0,
            UnitPolyhedron::Cube => 1,
            UnitPolyhedron::Octahedron => 2,
            UnitPolyhedron::Dodecahedron => 3,
            UnitPolyhedron::Icosahedron => 4,
            UnitPolyhedron::TruncatedIcosahedron => 5,
        }
    }
}

/// The base-2 logarithm, rounded down (0 for 0 and 1).
pub open spec fn log2_floor(n: int) -> int
    decreases n,
{
    if n <= 1 {
        0
    } else {
        1 + log2_floor(n / 2)
    }
}

fn log2_floor_exec(n: u32) -> (r: u32)
    ensures
        r == log2_floor(n as int),
{
    let mut m = n;
    let mut r: u32 = 0;
    while m > 1
        invariant
            r + log2_floor(m as int) == log2_floor(n as int),
            r + m <= n || (m == 0 && r == 0),
        decreases m,
    {
        r += 1;
        m = m / 2;
    }
    r
}

/// Bits per hierarchy index for a refinement ratio.
pub open spec fn index_width(refinement_ratio: u8) -> int {
    if refinement_ratio == 7 {
        3
    } else {
        2
    }
}

/// Bits given to the refinement level.
pub open spec fn level_width(refinement_ratio: u8) -> int {
    log2_floor(119int / index_width(refinement_ratio))
}

/// Where the hierarchy indices start.
pub open spec fn hierarchy_offset(refinement_ratio: u8) -> int {
    9 + level_width(refinement_ratio)
}

/// Bits taken by the whole identifier.
pub open spec fn total_bits(refinement_ratio: u8, levels: int) -> int {
    hierarchy_offset(refinement_ratio) + levels * index_width(refinement_ratio)
}

/// The flag, solid, level and face fields, each or-ed in at its offset.
pub open spec fn header_bits(
    refinement_ratio: u8,
    solid: UnitPolyhedron,
    face_id: u8,
    levels: int,
) -> u128 {
    let flag: u128 = if refinement_ratio == 7 {
        1
    } else {
        0
    };
    let lw = level_width(refinement_ratio);
    (((flag | (solid.code_spec() << 1u128)) | ((levels as u128) << 4u128)) | ((face_id as u128) << (4
        + lw) as u128))
}

/// The header with the first `n` hierarchy indices or-ed in, index `i` at
/// `hierarchy_offset + i * index_width`.
pub open spec fn packed_bits(
    refinement_ratio: u8,
    solid: UnitPolyhedron,
    face_id: u8,
    hierarchy: Seq<u8>,
    n: int,
) -> u128
    decreases n,
{
    if n <= 0 {
        header_bits(refinement_ratio, solid, face_id, hierarchy.len() as int)
    } else {
        packed_bits(refinement_ratio, solid, face_id, hierarchy, n - 1) | ((hierarchy[n - 1] as u128)
            << (hierarchy_offset(refinement_ratio) + (n - 1) * index_width(refinement_ratio)) as u128)
    }
}

impl CellId {
    /// Packs a cell identifier. The refinement ratio is 3, 4 or 7, every
    /// hierarchy index is below it, and the identifier fits in 128 bits.
    pub fn new(
        refinement_ratio: u8,
        initial_discrete_global_grid: UnitPolyhedron,
        face_id: u8,
        hierarchy: &[u8],
    ) -> (r: Self)
        requires
            refinement_ratio == 3 || refinement_ratio == 4 || refinement_ratio == 7,
            forall|i: int| 0 <= i < hierarchy@.len() ==> #[trigger] hierarchy@[i] < refinement_ratio,
            total_bits(refinement_ratio, hierarchy@.len() as int) <= 128,
        ensures
            ({
                let bits = packed_bits(
                    refinement_ratio,
                    initial_discrete_global_grid,
                    face_id,
                    hierarchy@,
                    hierarchy@.len() as int,
                );
                let total = total_bits(refinement_ratio, hierarchy@.len() as int);
                r == if total <= 32 {
                    CellId::U32(bits as u32)
                } else if total <= 64 {
                    CellId::U64(bits as u64)
                } else {
                    CellId::U128(bits)
                }
            }),
    {
        let refinement_level = hierarchy.len() as u128;
        let n_bits_hierarchy_id: u32 = if refinement_ratio == 7 {
            3
        } else {
            2
        };
        let n_bits_refinement_level = log2_floor_exec(119 / n_bits_hierarchy_id);
        proof {
            reveal_with_fuel(log2_floor, 7);
            assert(log2_floor(59) == 5);
            assert(log2_floor(39) == 5);
        }
        let n_bits_total: usize = 9 + n_bits_refinement_level as usize + hierarchy.len()
            * n_bits_hierarchy_id as usize;
        let mut bits: u128 = 0;
        if refinement_ratio == 7 {
            bits = bits | 1;
        }
        bits = bits | (initial_discrete_global_grid.code() << 1u128);
        bits = bits | (refinement_level << 4u128);
        let face_offset: u128 = 4 + n_bits_refinement_level as u128;
        bits = bits | ((face_id as u128) << face_offset);
        let offset: usize = 9 + n_bits_refinement_level as usize;
        proof {
            let flag: u128 = if refinement_ratio == 7 {
                1
            } else {
                0
            };
            assert((0u128 | 1u128) == 1u128) by (bit_vector);
            assert(bits == header_bits(
                refinement_ratio,
                initial_discrete_global_grid,
                face_id,
                hierarchy@.len() as int,
            ));
        }
        let mut i: usize = 0;
        while i < hierarchy.len()
            invariant
                i <= hierarchy@.len(),
                offset == hierarchy_offset(refinement_ratio),
                n_bits_hierarchy_id == index_width(refinement_ratio),
                total_bits(refinement_ratio, hierarchy@.len() as int) <= 128,
                bits == packed_bits(
                    refinement_ratio,
                    initial_discrete_global_grid,
                    face_id,
                    hierarchy@,
                    i as int,
                ),
            decreases hierarchy@.len() - i,
        {
            assert(offset + i * n_bits_hierarchy_id < 128) by (nonlinear_arith)
                requires
                    offset + hierarchy@.len() * n_bits_hierarchy_id <= 128,
                    i < hierarchy@.len(),
                    n_bits_hierarchy_id >= 2,
            ;
            let shift: u128 = (offset + i * n_bits_hierarchy_id as usize) as u128;
            bits = bits | ((hierarchy[i] as u128) << shift);
            i += 1;
        }
        if n_bits_total <= 32 {
            CellId::U32(bits as u32)
        } else if n_bits_total <= 64 {
            CellId::U64(bits as u64)
        } else {
            CellId::U128(bits)
        }
    }

    pub open spec fn bits_spec(self) -> u128 {
        match self {
            CellId::U32(v) => v as u128,
            CellId::U64(v) => v as u128,
            CellId::U128(v) => v,
        }
    }

    /// The identifier's bits, widened to 128.
    pub fn bits(&self) -> (r: u128)
        ensures
            r == self.bits_spec(),
    {
        match self {
            CellId::U32(v) => *v as u128,
            CellId::U64(v) => *v as u128,
            CellId::U128(v) => *v,
        }
    }

    /// The width of the identifier's storage.
    pub fn bit_length(&self) -> (r: u8)
        ensures
            r == match self {
                CellId::U32(_) => 32u8,
                CellId::U64(_) => 64u8,
                CellId::U128(_) => 128u8,
            },
    {
        match self {
            CellId::U32(_) => 32,
            CellId::U64(_) => 64,
            CellId::U128(_) => 128,
        }
    }
}

/// A vertical identifier for a radial expansion of a cell.
#[derive(Clone, Copy, Debug, PartialEq, Eq, Structural)]
pub enum ElevationId {
    U32(u32),
    U64(u64),
    U128(u128),
}

impl ElevationId {
    pub fn new(elevation_refinement_level: u128) -> (r: Self)
        ensures
            r == ElevationId::U128(elevation_refinement_level),
    {
        ElevationId::U128(elevation_refinement_level)
    }
}

/// A volume: a cell and an elevation.
#[derive(Clone, Copy, Debug, PartialEq, Eq, Structural)]
pub struct VolumeId {
    pub cell: CellId,
    pub elevation: ElevationId,
}

impl VolumeId {
    pub fn new(cell: CellId, elevation_refinement_level: u128) -> (r: Self)
        ensures
            r.cell == cell,
            r.elevation == ElevationId::U128(elevation_refinement_level),
    {
        let elevation = ElevationId::new(elevation_refinement_level);
        VolumeId { cell, elevation }
    }
}

} // verus!
