use mesh_viewer::device::{index_upload, vertex_upload, BufferUsage};
use mesh_viewer::mesh::{
    flatten, in_range, narrow_indices, vertex_at, DrawCall, Mesh, MeshData, MeshError,
    OutOfRangeError, Vertex,
};
use mesh_viewer::render_pass::{record_frame, RenderCommand};

fn bits(values: &[f32]) -> Vec<u32> {
    values.iter().map(|v| v.to_bits()).collect()
}

fn scale(b: u32) -> u32 {
    (f32::from_bits(b) * 0.3).to_bits()
}

fn keep(b: u32) -> u32 {
    b
}

fn triangle() -> MeshData {
    MeshData {
        positions: bits(&[1.0, 2.0, 3.0, 4.0, 5.0, 6.0, 7.0, 8.0, 9.0]),
        normals: vec![],
        texcoords: vec![],
        indices: vec![0, 1, 2],
    }
}

fn quad() -> MeshData {
    MeshData {
        positions: bits(&[0.0, 0.0, 0.0, 1.0, 0.0, 0.0, 1.0, 1.0, 0.0, 0.0, 1.0, 0.0]),
        normals: bits(&[0.0, 0.0, 1.0, 0.0, 1.0, 0.0, 1.0, 0.0, 0.0, 0.5, 0.5, 0.0]),
        texcoords: bits(&[0.0, 0.0, 1.0, 0.0, 1.0, 1.0, 0.0, 1.0]),
        indices: vec![0, 1, 2, 0, 2, 3],
    }
}

#[test]
fn triangle_without_attributes_gives_three_zeroed_records() {
    let vs = flatten(&triangle(), &scale).unwrap();
    assert_eq!(vs.len(), 3);
    for v in &vs {
        assert_eq!(v.normal, [0, 0, 0]);
        assert_eq!(v.texcoord, [0, 0]);
        assert_eq!(f32::from_bits(v.normal[0]), 0.0);
        assert_eq!(f32::from_bits(v.texcoord[1]), 0.0);
    }
}

#[test]
fn triangle_is_drawn_with_one_call_of_three_indices() {
    let mesh = Mesh::from_model(&triangle(), &scale).unwrap();
    assert_eq!(mesh.vertices().len(), 3);
    assert_eq!(mesh.indices(), &vec![0u16, 1, 2]);
    let commands = record_frame(&mesh);
    let draws: Vec<&RenderCommand> =
        commands.iter().filter(|c| matches!(c, RenderCommand::DrawIndexed(_))).collect();
    assert_eq!(draws.len(), 1);
    assert_eq!(
        *draws[0],
        RenderCommand::DrawIndexed(DrawCall {
            first_index: 0,
            index_count: 3,
            base_vertex: 0,
            first_instance: 0,
            instance_count: 1,
        })
    );
}

#[test]
fn positions_are_scaled_componentwise() {
    let vs = flatten(&triangle(), &scale).unwrap();
    let source = [1.0f32, 2.0, 3.0, 4.0, 5.0, 6.0, 7.0, 8.0, 9.0];
    for k in 0..3 {
        for c in 0..3 {
            let got = f32::from_bits(vs[k].position[c]);
            let want = source[3 * k + c] * 0.3;
            assert_eq!(got.to_bits(), want.to_bits());
            assert!((got - want).abs() < 1e-6);
        }
    }
    assert_eq!(f32::from_bits(vs[0].position[0]), 0.3);
    assert!((f32::from_bits(vs[2].position[2]) - 2.7).abs() < 1e-6);
}

#[test]
fn records_follow_the_index_list_without_sharing() {
    let vs = flatten(&quad(), &keep).unwrap();
    assert_eq!(vs.len(), 6);
    assert_eq!(vs[0], vs[3]);
    assert_eq!(vs[2], vs[4]);
    assert_eq!(
        vs[1],
        Vertex {
            position: [1.0f32.to_bits(), 0, 0],
            normal: [0, 1.0f32.to_bits(), 0],
            texcoord: [1.0f32.to_bits(), 0],
        }
    );
    assert_eq!(
        vs[5],
        Vertex {
            position: [0, 1.0f32.to_bits(), 0],
            normal: [0.5f32.to_bits(), 0.5f32.to_bits(), 0],
            texcoord: [0, 1.0f32.to_bits()],
        }
    );
}

#[test]
fn scale_touches_positions_only() {
    let vs = flatten(&quad(), &scale).unwrap();
    assert_eq!(vs[2].position, [0.3f32.to_bits(), 0.3f32.to_bits(), 0]);
    assert_eq!(vs[2].normal, [1.0f32.to_bits(), 0, 0]);
    assert_eq!(vs[2].texcoord, [1.0f32.to_bits(), 1.0f32.to_bits()]);
}

#[test]
fn missing_normals_are_zero_where_texcoords_are_kept() {
    let mut data = quad();
    data.normals = vec![];
    let vs = flatten(&data, &keep).unwrap();
    for v in &vs {
        assert_eq!(v.normal, [0, 0, 0]);
    }
    assert_eq!(vs[1].texcoord, [1.0f32.to_bits(), 0]);
}

#[test]
fn missing_texcoords_are_zero_where_normals_are_kept() {
    let mut data = quad();
    data.texcoords = vec![];
    let vs = flatten(&data, &keep).unwrap();
    for v in &vs {
        assert_eq!(v.texcoord, [0, 0]);
    }
    assert_eq!(vs[1].normal, [0, 1.0f32.to_bits(), 0]);
}

#[test]
fn empty_index_list_gives_no_records() {
    let mut data = triangle();
    data.indices = vec![];
    assert_eq!(flatten(&data, &scale), Ok(vec![]));
}

#[test]
fn index_at_the_position_count_is_out_of_range() {
    let mut data = triangle();
    data.indices = vec![0, 1, 3];
    assert_eq!(flatten(&data, &scale), Err(OutOfRangeError { at: 2, index: 3 }));
}

#[test]
fn first_bad_index_is_reported() {
    let mut data = triangle();
    data.indices = vec![2, 7, 1, 9];
    assert_eq!(flatten(&data, &scale), Err(OutOfRangeError { at: 1, index: 7 }));
}

#[test]
fn largest_index_value_is_out_of_range() {
    let mut data = triangle();
    data.indices = vec![u32::MAX];
    assert_eq!(flatten(&data, &scale), Err(OutOfRangeError { at: 0, index: u32::MAX }));
}

#[test]
fn partial_trailing_position_is_not_addressable() {
    let mut data = triangle();
    data.positions = bits(&[1.0, 2.0, 3.0, 4.0, 5.0]);
    data.indices = vec![0];
    assert!(flatten(&data, &keep).is_ok());
    data.indices = vec![0, 1];
    assert_eq!(flatten(&data, &keep), Err(OutOfRangeError { at: 1, index: 1 }));
}

#[test]
fn short_normal_array_is_out_of_range() {
    let mut data = quad();
    data.normals = bits(&[0.0, 0.0, 1.0]);
    assert_eq!(flatten(&data, &keep), Err(OutOfRangeError { at: 1, index: 1 }));
}

#[test]
fn short_texcoord_array_is_out_of_range() {
    let mut data = quad();
    data.texcoords = bits(&[0.0, 0.0, 1.0, 0.0, 1.0]);
    assert_eq!(flatten(&data, &keep), Err(OutOfRangeError { at: 2, index: 2 }));
}

#[test]
fn mesh_of_out_of_range_model_fails_and_holds_nothing() {
    let mut data = triangle();
    data.indices = vec![0, 5, 1];
    let r = Mesh::from_model(&data, &scale);
    assert_eq!(r.err(), Some(MeshError::OutOfRange(OutOfRangeError { at: 1, index: 5 })));
}

#[test]
fn mesh_keeps_the_model_indices() {
    let mesh = Mesh::from_model(&quad(), &keep).unwrap();
    assert_eq!(mesh.indices(), &vec![0u16, 1, 2, 0, 2, 3]);
    assert_eq!(mesh.vertices(), &flatten(&quad(), &keep).unwrap());
    assert_eq!(mesh.draw_call().index_count, 6);
    assert_eq!(mesh.draw_call().instance_count, 1);
}

#[test]
fn mesh_rejects_an_index_beyond_the_flattened_records() {
    let mut data = quad();
    data.indices = vec![0, 3, 1];
    let r = Mesh::from_model(&data, &keep);
    assert_eq!(r.err(), Some(MeshError::IndexBeyondVertices { at: 1, index: 3 }));
}

#[test]
fn mesh_rejects_an_index_wider_than_sixteen_bits() {
    let count: usize = 65537;
    let mut indices: Vec<u32> = vec![0; count];
    indices[count - 1] = 65536;
    let data = MeshData {
        positions: vec![0; 3 * count],
        normals: vec![],
        texcoords: vec![],
        indices,
    };
    let r = Mesh::from_model(&data, &keep);
    assert_eq!(r.err(), Some(MeshError::IndexBeyondVertices { at: count - 1, index: 65536 }));
}

#[test]
fn mesh_accepts_the_widest_sixteen_bit_index() {
    let count: usize = 65536;
    let mut indices: Vec<u32> = vec![0; count];
    indices[7] = 65535;
    let data = MeshData {
        positions: vec![0; 3 * count],
        normals: vec![],
        texcoords: vec![],
        indices,
    };
    let mesh = Mesh::from_model(&data, &keep).unwrap();
    assert_eq!(mesh.indices()[7], 65535);
    assert_eq!(mesh.draw_call().index_count, 65536);
}

#[test]
fn uploads_cover_the_whole_mesh() {
    let mesh = Mesh::from_model(&quad(), &keep).unwrap();
    let v = vertex_upload(&mesh);
    assert_eq!(v.usage, BufferUsage::Vertex);
    assert_eq!(v.count, 6);
    assert_eq!(v.bytes, 192);
    let i = index_upload(&mesh);
    assert_eq!(i.usage, BufferUsage::Index);
    assert_eq!(i.count, 6);
    assert_eq!(i.bytes, 12);
}

#[test]
fn in_range_follows_the_shortest_present_array() {
    let data = quad();
    assert!(in_range(&data, 0));
    assert!(in_range(&data, 3));
    assert!(!in_range(&data, 4));
    assert!(!in_range(&data, u32::MAX));
    let mut short = quad();
    short.texcoords.truncate(6);
    assert!(in_range(&short, 2));
    assert!(!in_range(&short, 3));
    let mut bare = quad();
    bare.normals.clear();
    bare.texcoords.clear();
    assert!(in_range(&bare, 3));
    assert!(!in_range(&bare, 4));
}

#[test]
fn vertex_at_reads_one_source_vertex() {
    let v = vertex_at(&quad(), 3, &scale);
    assert_eq!(
        v,
        Vertex {
            position: [0, 0.3f32.to_bits(), 0],
            normal: [0.5f32.to_bits(), 0.5f32.to_bits(), 0],
            texcoord: [0, 1.0f32.to_bits()],
        }
    );
}

#[test]
fn narrow_indices_keeps_values_and_order() {
    assert_eq!(narrow_indices(&vec![2, 0, 1, 2], 3), Ok(vec![2u16, 0, 1, 2]));
    assert_eq!(narrow_indices(&vec![], 0), Ok(vec![]));
    assert_eq!(
        narrow_indices(&vec![0, 3, 9], 3),
        Err(MeshError::IndexBeyondVertices { at: 1, index: 3 })
    );
    assert_eq!(
        narrow_indices(&vec![65535, 65536], 1_000_000),
        Err(MeshError::IndexBeyondVertices { at: 1, index: 65536 })
    );
    assert_eq!(narrow_indices(&vec![65535], 65536), Ok(vec![65535u16]));
}
