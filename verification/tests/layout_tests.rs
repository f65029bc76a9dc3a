use tube_strands::build_instance_block;
use tube_strands::build_vertex_block;
use tube_strands::pack_instance;
use tube_strands::pack_uniforms;
use tube_strands::pack_vertex;
use tube_strands::TubeInstance;
use tube_strands::Uniforms;
use tube_strands::Vec3Words;
use tube_strands::Vertex;
use tube_strands::INSTANCE_STRIDE_BYTES;
use tube_strands::UNIFORM_BLOCK_BYTES;
use tube_strands::VERTEX_STRIDE_BYTES;

fn v3(x: u32, y: u32, z: u32) -> Vec3Words {
    Vec3Words { x, y, z }
}

fn sample_instance(tag: u32) -> TubeInstance {
    TubeInstance {
        start_position: v3(tag + 1, tag + 2, tag + 3),
        start_normal: v3(tag + 4, tag + 5, tag + 6),
        start_bitangent: v3(tag + 7, tag + 8, tag + 9),
        end_position: v3(tag + 10, tag + 11, tag + 12),
        end_normal: v3(tag + 13, tag + 14, tag + 15),
        end_bitangent: v3(tag + 16, tag + 17, tag + 18),
        radius: tag + 19,
        colour: v3(tag + 20, tag + 21, tag + 22),
    }
}

#[test]
fn vertex_packs_to_its_stride() {
    let words = pack_vertex(&Vertex { position: v3(10, 20, 30) });
    assert_eq!(words, vec![10, 20, 30]);
    assert_eq!(words.len() as u64 * 4, VERTEX_STRIDE_BYTES);
}

#[test]
fn instance_rows_sit_at_their_offsets() {
    let t = sample_instance(100);
    let words = pack_instance(&t);
    assert_eq!(words.len(), 32);
    assert_eq!(words.len() as u64 * 4, INSTANCE_STRIDE_BYTES);
    // One 16-byte row per field, padded with a zero word.
    assert_eq!(&words[0..4], &[101, 102, 103, 0]);
    assert_eq!(&words[4..8], &[104, 105, 106, 0]);
    assert_eq!(&words[8..12], &[107, 108, 109, 0]);
    assert_eq!(&words[12..16], &[110, 111, 112, 0]);
    assert_eq!(&words[16..20], &[113, 114, 115, 0]);
    assert_eq!(&words[20..24], &[116, 117, 118, 0]);
    assert_eq!(&words[24..28], &[120, 121, 122, 0]);
    assert_eq!(&words[28..32], &[119, 0, 0, 0]);
}

#[test]
fn instance_block_concatenates_at_the_stride() {
    let records = vec![sample_instance(0), sample_instance(200), sample_instance(400)];
    let block = build_instance_block(&records);
    assert_eq!(block.len(), 3 * 32);
    for (k, record) in records.iter().enumerate() {
        let single = pack_instance(record);
        assert_eq!(&block[32 * k..32 * k + 32], &single[..]);
    }
}

#[test]
fn vertex_block_concatenates_tightly() {
    let vs = vec![
        Vertex { position: v3(1, 2, 3) },
        Vertex { position: v3(4, 5, 6) },
    ];
    let block = build_vertex_block(&vs);
    assert_eq!(block, vec![1, 2, 3, 4, 5, 6]);
}

fn sample_uniforms() -> Uniforms {
    // Bit patterns of the values a frame would upload.
    let camera: Vec<u32> = (0..16).map(|i| (i as f32 * 0.25).to_bits()).collect();
    Uniforms {
        camera,
        light_direction: Vec3Words {
            x: (-0.5f32).to_bits(),
            y: (-0.2f32).to_bits(),
            z: 1.0f32.to_bits(),
        },
        time: 0.5f32.to_bits(),
        ambient: Vec3Words {
            x: 0.05f32.to_bits(),
            y: 0.05f32.to_bits(),
            z: 0.07f32.to_bits(),
        },
    }
}

#[test]
fn uniform_block_layout_is_exact() {
    let u = sample_uniforms();
    let words = pack_uniforms(&u);
    assert_eq!(words.len(), 24);
    assert_eq!(words.len() as u64 * 4, UNIFORM_BLOCK_BYTES);
    // Camera matrix at byte offset 0.
    for i in 0..16 {
        assert_eq!(words[i], u.camera[i]);
    }
    // Light direction at byte offset 64, time at 76, ambient at 80, pad at 92.
    assert_eq!(words[16], (-0.5f32).to_bits());
    assert_eq!(words[17], (-0.2f32).to_bits());
    assert_eq!(words[18], 1.0f32.to_bits());
    assert_eq!(words[19], 0.5f32.to_bits());
    assert_eq!(words[20], 0.05f32.to_bits());
    assert_eq!(words[21], 0.05f32.to_bits());
    assert_eq!(words[22], 0.07f32.to_bits());
    assert_eq!(words[23], 0);
}

#[test]
fn packing_identical_uniforms_twice_is_byte_identical() {
    let first = pack_uniforms(&sample_uniforms());
    let second = pack_uniforms(&sample_uniforms());
    assert_eq!(first, second);
    let first_bytes: Vec<u8> = first.iter().flat_map(|w| w.to_le_bytes()).collect();
    let second_bytes: Vec<u8> = second.iter().flat_map(|w| w.to_le_bytes()).collect();
    assert_eq!(first_bytes, second_bytes);
}
