use koi::gpu::{pack_words, unpack_words, vertices_as_words, ComputePushConstants, PushConstants, Vertex, F32_ONE_BITS, PUSH_CONSTANTS_SIZE, VERTEX_SIZE};
use koi::mesh::{copy_region, mesh_bytes, mesh_copy_regions, plan_mesh_upload, BufferCopy, INDEX_SIZE};
use koi::version::{make_version, Info};

#[test]
fn push_constants_pack_matrix_then_address() {
    let pc = PushConstants::default().vertex_buffer_address(0x1122_3344_5566_7788);
    let bytes = pc.as_buffer();
    assert_eq!(bytes.len() as u64, PUSH_CONSTANTS_SIZE);
    // Column 0 starts with 1.0f32, little-endian.
    assert_eq!(&bytes[0..4], &1.0f32.to_le_bytes());
    assert_eq!(&bytes[4..20], &[0u8; 16]);
    assert_eq!(&bytes[20..24], &1.0f32.to_le_bytes());
    assert_eq!(&bytes[60..64], &1.0f32.to_le_bytes());
    assert_eq!(&bytes[64..72], &[0x88, 0x77, 0x66, 0x55, 0x44, 0x33, 0x22, 0x11]);
}

#[test]
fn push_constants_follow_the_transform_words() {
    let mut m = [0u32; 16];
    for (k, w) in m.iter_mut().enumerate() {
        *w = (k as f32 + 0.5).to_bits();
    }
    let bytes = PushConstants::default().transform(m).as_buffer();
    for k in 0..16 {
        assert_eq!(&bytes[4 * k..4 * k + 4], &(k as f32 + 0.5).to_le_bytes());
    }
    assert_eq!(&bytes[64..72], &[0u8; 8]);
    assert_eq!(F32_ONE_BITS, 1.0f32.to_bits());
}

#[test]
fn compute_push_constants_pack_four_vectors() {
    let v = |a: f32, b: f32, c: f32, d: f32| [a.to_bits(), b.to_bits(), c.to_bits(), d.to_bits()];
    let pc = ComputePushConstants::default().data_0(v(0.14, 0.44, 0.86, 1.0)).data_1(v(0.5, 0.54, 0.38, 1.0));
    let bytes = pc.as_buffer();
    assert_eq!(bytes.len(), 64);
    assert_eq!(&bytes[0..4], &0.14f32.to_le_bytes());
    assert_eq!(&bytes[28..32], &1.0f32.to_le_bytes());
    assert_eq!(&bytes[32..64], &[0u8; 32]);
    let pc = pc.data_2([1, 2, 3, 4]).data_3([5, 6, 7, 8]);
    let bytes = pc.as_buffer();
    assert_eq!(&bytes[32..36], &[1, 0, 0, 0]);
    assert_eq!(&bytes[60..64], &[8, 0, 0, 0]);
}

#[test]
fn vertex_interleaves_uv_into_position_and_normal() {
    let v = Vertex::new([1, 2, 3], [4, 5, 6], [7, 8], [9, 10, 11, 12]);
    assert_eq!(v.position_uv_x, [1, 2, 3, 7]);
    assert_eq!(v.normal_uv_y, [4, 5, 6, 8]);
    assert_eq!(v.color, [9, 10, 11, 12]);
    let words = vertices_as_words(&vec![v, v]);
    assert_eq!(words.len() as u64 * 4, 2 * VERTEX_SIZE);
    assert_eq!(&words[0..12], &[1, 2, 3, 7, 4, 5, 6, 8, 9, 10, 11, 12]);
}

#[test]
fn words_pack_little_endian_and_unpack_back() {
    let words = vec![0x0403_0201u32, 0xdead_beef, 0];
    let bytes = pack_words(&words);
    assert_eq!(bytes, vec![1, 2, 3, 4, 0xef, 0xbe, 0xad, 0xde, 0, 0, 0, 0]);
    assert_eq!(unpack_words(&bytes), words);
    assert_eq!(unpack_words(&vec![]), Vec::<u32>::new());
}

#[test]
fn mesh_upload_plan_pads_indices_to_alignment() {
    let plan = plan_mesh_upload(6, 4, 256);
    assert_eq!(plan.index_buffer_size, 6 * INDEX_SIZE);
    assert_eq!(plan.vertex_buffer_size, 4 * VERTEX_SIZE);
    assert_eq!(plan.index_offset, 256);
    assert_eq!(plan.staging_size, 256 + 24);
    let tight = plan_mesh_upload(3, 2, 4);
    assert_eq!(tight.index_offset, 96);
    assert_eq!(tight.staging_size, 108);
    let empty = plan_mesh_upload(0, 0, 64);
    assert_eq!(empty.index_offset, 0);
    assert_eq!(empty.staging_size, 0);
}

#[test]
fn staged_mesh_reads_back_byte_identical() {
    let vertices = vec![
        Vertex::new([1, 2, 3], [4, 5, 6], [7, 8], [9, 10, 11, 12]),
        Vertex::new([13, 14, 15], [16, 17, 18], [19, 20], [21, 22, 23, 24]),
    ];
    let indices = vec![0u32, 1, 1, 0, 70000, 2];
    let plan = plan_mesh_upload(indices.len() as u64, vertices.len() as u64, 64);
    let (vertex_bytes, index_bytes) = mesh_bytes(&indices, &vertices);
    assert_eq!(vertex_bytes.len() as u64, plan.vertex_buffer_size);
    assert_eq!(index_bytes.len() as u64, plan.index_buffer_size);
    // The staging buffer as the upload writes it: vertices, padding, indices.
    let mut staging = vec![0xaau8; plan.staging_size as usize];
    staging[..vertex_bytes.len()].copy_from_slice(&vertex_bytes);
    let at = plan.index_offset as usize;
    staging[at..at + index_bytes.len()].copy_from_slice(&index_bytes);
    let (vertex_copy, index_copy) = mesh_copy_regions(&plan, 0, plan.index_offset);
    assert_eq!(vertex_copy, BufferCopy { src_offset: 0, dst_offset: 0, size: 96 });
    assert_eq!(index_copy, BufferCopy { src_offset: 128, dst_offset: 0, size: 24 });
    let vertex_buffer = copy_region(&staging, &vertex_copy);
    let index_buffer = copy_region(&staging, &index_copy);
    assert_eq!(vertex_buffer, vertex_bytes);
    assert_eq!(index_buffer, index_bytes);
    assert_eq!(unpack_words(&index_buffer), indices);
    assert_eq!(unpack_words(&vertex_buffer), vertices_as_words(&vertices));
}

#[test]
fn version_packing() {
    assert_eq!(make_version(0, 1, 0, 0), 1 << 22);
    assert_eq!(make_version(0, 1, 3, 0), (1 << 22) | (3 << 12));
    assert_eq!(make_version(1, 3, 0, 0), 0x20c0_0000);
    assert_eq!(make_version(0, 0, 0, 4095), 4095);
    assert_eq!(make_version(7, 127, 1023, 4095), u32::MAX);
    // Bits shifted past the top are dropped.
    assert_eq!(make_version(8, 0, 0, 0), 0);
    assert_eq!(Info::new().api_version, make_version(1, 3, 0, 0));
}
