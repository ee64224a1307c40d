//! Mesh flattening: one interleaved vertex record per entry of the index list.

use vstd::prelude::*;

verus! {

/// One interleaved vertex record. Each component is the bit pattern of a
/// 32-bit float; the all-zero pattern is the float `0.0`.
#[derive(Clone, Copy, Debug, PartialEq, Eq)]
pub struct Vertex {
    pub position: [u32; 3],
    pub normal: [u32; 3],
    pub texcoord: [u32; 2],
}

/// What a model loader hands over for one mesh: flat component arrays and
/// the index list. `normals` and `texcoords` are empty where the model has
/// none.
#[derive(Clone, Debug)]
pub struct MeshData {
    pub positions: Vec<u32>,
    pub normals: Vec<u32>,
    pub texcoords: Vec<u32>,
    pub indices: Vec<u32>,
}

/// The failure of the flattener: entry `at` of the index list holds `index`,
/// which reaches beyond an attribute array.
#[derive(Clone, Copy, Debug, PartialEq, Eq)]
pub struct OutOfRangeError {
    pub at: usize,
    pub index: u32,
}

/// Index `i` names a whole position, and a whole normal and texture
/// coordinate where the mesh has them.
pub open spec fn index_in_range(data: &MeshData, i: int) -> bool {
    &&& 0 <= i
    &&& 3 * i + 2 < data.positions@.len()
    &&& (data.normals@.len() == 0 || 3 * i + 2 < data.normals@.len())
    &&& (data.texcoords@.len() == 0 || 2 * i + 1 < data.texcoords@.len())
}

/// Every one of the first `n` entries of the index list is in range.
pub open spec fn indices_in_range(data: &MeshData, n: int) -> bool {
    forall|k: int| 0 <= k < n ==> index_in_range(data, #[trigger] data.indices@[k] as int)
}

/// The normal of source vertex `i`: the three stored components, or zero
/// where the mesh has no normals.
pub open spec fn normal_of(data: &MeshData, i: int) -> Seq<u32> {
    if data.normals@.len() == 0 {
        seq![0u32, 0u32, 0u32]
    } else {
        data.normals@.subrange(3 * i, 3 * i + 3)
    }
}

/// The texture coordinate of source vertex `i`, or zero where the mesh has
/// none.
pub open spec fn texcoord_of(data: &MeshData, i: int) -> Seq<u32> {
    if data.texcoords@.len() == 0 {
        seq![0u32, 0u32]
    } else {
        data.texcoords@.subrange(2 * i, 2 * i + 2)
    }
}

/// `v` is the record of source vertex `i`: its position is the stored one
/// with `scale` applied to each component, its normal and texture coordinate
/// are the stored ones or zero.
pub open spec fn is_vertex_of<F: Fn(u32) -> u32>(
    data: &MeshData,
    i: int,
    scale: &F,
    v: Vertex,
) -> bool {
    &&& forall|c: int|
        0 <= c < 3 ==> call_ensures(*scale, (data.positions@[3 * i + c],), #[trigger] v.position@[c])
    &&& v.normal@ == normal_of(data, i)
    &&& v.texcoord@ == texcoord_of(data, i)
}

/// `scale` can be applied to every position component of the mesh.
pub open spec fn scale_accepts<F: Fn(u32) -> u32>(data: &MeshData, scale: &F) -> bool {
    forall|j: int|
        0 <= j < data.positions@.len() ==> call_requires(*scale, (#[trigger] data.positions@[j],))
}

/// `vs` is the flattened form of the first `n` index entries.
pub open spec fn is_flattened<F: Fn(u32) -> u32>(
    data: &MeshData,
    scale: &F,
    vs: Seq<Vertex>,
    n: int,
) -> bool {
    &&& vs.len() == n
    &&& forall|k: int|
        0 <= k < n ==> is_vertex_of(data, data.indices@[k] as int, scale, #[trigger] vs[k])
}

/// Tests one index against the attribute arrays.
pub fn in_range(data: &MeshData, index: u32) -> (ok: bool)
    ensures
        ok == index_in_range(data, index as int),
{
    let i: usize = index as usize;
    i < data.positions.len() / 3 && (data.normals.len() == 0 || i < data.normals.len() / 3) && (
    data.texcoords.len() == 0 || i < data.texcoords.len() / 2)
}

/// Builds the record of one source vertex.
pub fn vertex_at<F: Fn(u32) -> u32>(data: &MeshData, index: u32, scale: &F) -> (v: Vertex)
    requires
        index_in_range(data, index as int),
        scale_accepts(data, scale),
    ensures
        is_vertex_of(data, index as int, scale, v),
{
    let i: usize = index as usize;
    let n: usize = data.positions.len();
    assert(3 * i + 2 < n);
    let position = [
        scale(data.positions[3 * i]),
        scale(data.positions[3 * i + 1]),
        scale(data.positions[3 * i + 2]),
    ];
    let normal = if data.normals.len() == 0 {
        [0u32, 0u32, 0u32]
    } else {
        [data.normals[3 * i], data.normals[3 * i + 1], data.normals[3 * i + 2]]
    };
    let texcoord = if data.texcoords.len() == 0 {
        [0u32, 0u32]
    } else {
        [data.texcoords[2 * i], data.texcoords[2 * i + 1]]
    };
    let v = Vertex { position, normal, texcoord };
    assert(v.normal@ =~= normal_of(data, index as int));
    assert(v.texcoord@ =~= texcoord_of(data, index as int));
    v
}

/// Flattens an indexed mesh: the result holds one record per index entry, in
/// the order of the index list, with no sharing of records between equal
/// indices. It fails on the first index entry that is out of range, and only
/// then.
pub fn flatten<F: Fn(u32) -> u32>(data: &MeshData, scale: &F) -> (r: Result<
    Vec<Vertex>,
    OutOfRangeError,
>)
    requires
        scale_accepts(data, scale),
    ensures
        r is Ok <==> indices_in_range(data, data.indices@.len() as int),
        r matches Ok(vs) ==> is_flattened(data, scale, vs@, data.indices@.len() as int),
        r matches Err(e) ==> {
            &&& e.at < data.indices@.len()
            &&& e.index == data.indices@[e.at as int]
            &&& !index_in_range(data, e.index as int)
            &&& indices_in_range(data, e.at as int)
        },
        (exists|k: int|
            0 <= k < data.indices@.len() && #[trigger] data.indices@[k] >= data.positions@.len()
                / 3) ==> r is Err,
{
    let mut out: Vec<Vertex> = Vec::new();
    let mut k: usize = 0;
    while k < data.indices.len()
        invariant
            k <= data.indices@.len(),
            scale_accepts(data, scale),
            indices_in_range(data, k as int),
            is_flattened(data, scale, out@, k as int),
        decreases data.indices@.len() - k,
    {
        let index: u32 = data.indices[k];
        if !in_range(data, index) {
            return Err(OutOfRangeError { at: k, index });
        }
        let v = vertex_at(data, index, scale);
        out.push(v);
        k += 1;
    }
    Ok(out)
}

/// A mesh without normals flattens to records whose normal is zero.
pub proof fn lemma_missing_normals_are_zero<F: Fn(u32) -> u32>(
    data: &MeshData,
    scale: &F,
    vs: Seq<Vertex>,
)
    requires
        data.normals@.len() == 0,
        is_flattened(data, scale, vs, data.indices@.len() as int),
    ensures
        forall|k: int| 0 <= k < vs.len() ==> (#[trigger] vs[k]).normal@ == seq![0u32, 0u32, 0u32],
{
}

/// A mesh without texture coordinates flattens to records whose texture
/// coordinate is zero.
pub proof fn lemma_missing_texcoords_are_zero<F: Fn(u32) -> u32>(
    data: &MeshData,
    scale: &F,
    vs: Seq<Vertex>,
)
    requires
        data.texcoords@.len() == 0,
        is_flattened(data, scale, vs, data.indices@.len() as int),
    ensures
        forall|k: int| 0 <= k < vs.len() ==> (#[trigger] vs[k]).texcoord@ == seq![0u32, 0u32],
{
}

/// An index list that holds a value at or beyond the number of whole
/// positions is not in range, so flattening it fails.
pub proof fn lemma_index_beyond_positions_fails(data: &MeshData, k: int)
    requires
        0 <= k < data.indices@.len(),
        data.indices@[k] >= data.positions@.len() / 3,
    ensures
        !indices_in_range(data, data.indices@.len() as int),
{
    assert(!index_in_range(data, data.indices@[k] as int));
}

/// The attribute arrays have the lengths that a loader gives them: three
/// components per position, and normals and texture coordinates either
/// absent or one per position.
pub open spec fn well_shaped(data: &MeshData) -> bool {
    &&& data.positions@.len() % 3 == 0
    &&& (data.normals@.len() == 0 || data.normals@.len() == data.positions@.len())
    &&& (data.texcoords@.len() == 0 || 3 * data.texcoords@.len() == 2 * data.positions@.len())
}

/// In a well-shaped mesh an index is in range exactly when it is below the
/// number of positions.
pub proof fn lemma_in_range_of_well_shaped(data: &MeshData, i: int)
    requires
        well_shaped(data),
    ensures
        index_in_range(data, i) <==> 0 <= i < data.positions@.len() / 3,
{
}

/// Why a model cannot become a drawable mesh.
#[derive(Clone, Copy, Debug, PartialEq, Eq)]
pub enum MeshError {
    /// An index entry reaches beyond the model's attribute arrays.
    OutOfRange(OutOfRangeError),
    /// Index entry `at` holds `index`, which names no record of the
    /// flattened sequence or does not fit in 16 bits.
    IndexBeyondVertices { at: usize, index: u32 },
    /// The index list is longer than one draw call can cover.
    TooManyIndices,
}

/// A drawable mesh: the flattened vertex records and a 16-bit index list
/// into them. It is made once and read afterwards.
#[derive(Debug)]
pub struct Mesh {
    vertices: Vec<Vertex>,
    indices: Vec<u16>,
}

/// One indexed draw: the index range `first_index .. first_index +
/// index_count`, drawn `instance_count` times.
#[derive(Clone, Copy, Debug, PartialEq, Eq, Structural)]
pub struct DrawCall {
    pub first_index: u32,
    pub index_count: u32,
    pub base_vertex: i32,
    pub first_instance: u32,
    pub instance_count: u32,
}

/// Entry `k` of a model's index list can be drawn from a flattened sequence
/// of `m` records: it fits in 16 bits and names one of the records.
pub open spec fn drawable_index(index: u32, m: int) -> bool {
    index <= u16::MAX && index < m
}

/// Narrows an index list to 16 bits, as far as every entry names one of `m`
/// records. Fails on the first entry that does not.
pub fn narrow_indices(indices: &Vec<u32>, m: usize) -> (r: Result<Vec<u16>, MeshError>)
    ensures
        r is Ok <==> forall|k: int|
            0 <= k < indices@.len() ==> drawable_index(#[trigger] indices@[k], m as int),
        r matches Ok(out) ==> {
            &&& out@.len() == indices@.len()
            &&& forall|k: int| 0 <= k < out@.len() ==> #[trigger] out@[k] == indices@[k]
        },
        r matches Err(e) ==> exists|at: int|
            {
                &&& 0 <= at < indices@.len()
                &&& e == (MeshError::IndexBeyondVertices { at: at as usize, index: indices@[at] })
                &&& !drawable_index(indices@[at], m as int)
                &&& forall|k: int| 0 <= k < at ==> drawable_index(#[trigger] indices@[k], m as int)
            },
{
    let mut out: Vec<u16> = Vec::new();
    let mut k: usize = 0;
    while k < indices.len()
        invariant
            k <= indices@.len(),
            out@.len() == k,
            forall|j: int| 0 <= j < k ==> drawable_index(#[trigger] indices@[j], m as int),
            forall|j: int| 0 <= j < k ==> #[trigger] out@[j] == indices@[j],
        decreases indices@.len() - k,
    {
        let index: u32 = indices[k];
        if index > 65535 || index as usize >= m {
            return Err(MeshError::IndexBeyondVertices { at: k, index });
        }
        out.push(index as u16);
        k += 1;
    }
    Ok(out)
}

impl Mesh {
    #[verifier::type_invariant]
    spec fn inv(self) -> bool {
        self.wf()
    }

    /// The vertex records.
    pub closed spec fn vertex_seq(&self) -> Seq<Vertex> {
        self.vertices@
    }

    /// The index list.
    pub closed spec fn index_seq(&self) -> Seq<u16> {
        self.indices@
    }

    /// One record per index entry, every index names a record, and one draw
    /// call can cover the index list.
    pub open spec fn wf(&self) -> bool {
        &&& self.vertex_seq().len() == self.index_seq().len()
        &&& self.index_seq().len() <= u32::MAX
        &&& forall|k: int|
            0 <= k < self.index_seq().len() ==> (#[trigger] self.index_seq()[k])
                < self.vertex_seq().len()
    }

    /// `data` can become a mesh: flattening succeeds, and its index list
    /// can be drawn from the flattened sequence.
    pub open spec fn accepts(data: &MeshData) -> bool {
        &&& indices_in_range(data, data.indices@.len() as int)
        &&& data.indices@.len() <= u32::MAX
        &&& forall|k: int|
            0 <= k < data.indices@.len() ==> drawable_index(
                #[trigger] data.indices@[k],
                data.indices@.len() as int,
            )
    }

    /// Derives the drawable mesh from a loaded model: the vertices are the
    /// flattened records, the indices are the model's own, narrowed to 16
    /// bits.
    pub fn from_model<F: Fn(u32) -> u32>(data: &MeshData, scale: &F) -> (r: Result<
        Mesh,
        MeshError,
    >)
        requires
            scale_accepts(data, scale),
        ensures
            r is Ok <==> Mesh::accepts(data),
            r matches Ok(mesh) ==> {
                &&& mesh.wf()
                &&& is_flattened(data, scale, mesh.vertex_seq(), data.indices@.len() as int)
                &&& mesh.index_seq().len() == data.indices@.len()
                &&& forall|k: int|
                    0 <= k < data.indices@.len() ==> #[trigger] mesh.index_seq()[k]
                        == data.indices@[k]
            },
            r matches Err(e) ==> match e {
                MeshError::OutOfRange(o) => {
                    &&& o.at < data.indices@.len()
                    &&& o.index == data.indices@[o.at as int]
                    &&& !index_in_range(data, o.index as int)
                    &&& indices_in_range(data, o.at as int)
                },
                MeshError::TooManyIndices => {
                    &&& indices_in_range(data, data.indices@.len() as int)
                    &&& data.indices@.len() > u32::MAX
                },
                MeshError::IndexBeyondVertices { at, index } => {
                    &&& indices_in_range(data, data.indices@.len() as int)
                    &&& data.indices@.len() <= u32::MAX
                    &&& at < data.indices@.len()
                    &&& index == data.indices@[at as int]
                    &&& !drawable_index(index, data.indices@.len() as int)
                    &&& forall|k: int|
                        0 <= k < at ==> drawable_index(
                            #[trigger] data.indices@[k],
                            data.indices@.len() as int,
                        )
                },
            },
    {
        let vertices = match flatten(data, scale) {
            Ok(vs) => vs,
            Err(e) => {
                return Err(MeshError::OutOfRange(e));
            },
        };
        if data.indices.len() > 0xffff_ffff {
            return Err(MeshError::TooManyIndices);
        }
        match narrow_indices(&data.indices, vertices.len()) {
            Ok(indices) => Ok(Mesh { vertices, indices }),
            Err(e) => Err(e),
        }
    }

    /// The vertex records, in the order of the index list they came from.
    pub fn vertices(&self) -> (vs: &Vec<Vertex>)
        ensures
            vs@ == self.vertex_seq(),
            self.wf(),
    {
        proof {
            use_type_invariant(self);
        }
        &self.vertices
    }

    /// The index list.
    pub fn indices(&self) -> (is: &Vec<u16>)
        ensures
            is@ == self.index_seq(),
            self.wf(),
    {
        proof {
            use_type_invariant(self);
        }
        &self.indices
    }

    /// The one draw call that renders the mesh: the whole index list, once.
    pub fn draw_call(&self) -> (d: DrawCall)
        ensures
            d == whole_draw(self.index_seq().len()),
            d.index_count == self.index_seq().len(),
    {
        proof {
            use_type_invariant(self);
        }
        DrawCall {
            first_index: 0,
            index_count: self.indices.len() as u32,
            base_vertex: 0,
            first_instance: 0,
            instance_count: 1,
        }
    }
}

/// The draw call that covers `count` indices from the first, with a single
/// instance.
pub open spec fn whole_draw(count: nat) -> DrawCall {
    DrawCall {
        first_index: 0,
        index_count: count as u32,
        base_vertex: 0,
        first_instance: 0,
        instance_count: 1,
    }
}

} // verus!
