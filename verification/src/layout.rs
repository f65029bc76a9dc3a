use vstd::prelude::*;

use crate::config::INSTANCE_STRIDE_BYTES;
use crate::config::TubeConfig;
use crate::config::UNIFORM_BLOCK_BYTES;
use crate::config::VERTEX_STRIDE_BYTES;

verus! {

/// A three-component vector as the 32-bit words the GPU reads. Each word is
/// the bit pattern of one scalar; this crate lays the words out but never
/// interprets them, so every proof about a packed block is a proof about
/// the exact bytes the GPU sees.
#[derive(Clone, Copy, Debug, PartialEq, Eq, Structural)]
pub struct Vec3Words {
    pub x: u32,
    pub y: u32,
    pub z: u32,
}

/// One cross-section vertex as stored in the shared vertex buffer: a tightly
/// packed position, three words, no padding.
#[derive(Clone, Copy, Debug, PartialEq, Eq, Structural)]
pub struct Vertex {
    pub position: Vec3Words,
}

/// One per-segment instance record as stored in the shared instance buffer.
/// The endpoints carry a local orthogonal frame (normal and bitangent,
/// perpendicular to the segment's travel direction) that orients the
/// extruded cross-section; `radius` scales it and `colour` tints it.
#[derive(Clone, Copy, Debug, PartialEq, Eq, Structural)]
pub struct TubeInstance {
    pub start_position: Vec3Words,
    pub start_normal: Vec3Words,
    pub start_bitangent: Vec3Words,
    pub end_position: Vec3Words,
    pub end_normal: Vec3Words,
    pub end_bitangent: Vec3Words,
    pub radius: u32,
    pub colour: Vec3Words,
}

/// The per-frame uniform state: a 4x4 camera matrix in column-major order
/// (16 words), the light direction, the elapsed time and the ambient colour.
#[derive(Clone, Debug)]
pub struct Uniforms {
    pub camera: Vec<u32>,
    pub light_direction: Vec3Words,
    pub time: u32,
    pub ambient: Vec3Words,
}

impl Uniforms {
    /// A well-formed uniform state carries a full 4x4 matrix.
    pub open spec fn wf(self) -> bool {
        self.camera@.len() == 16
    }
}

/// The three words of one packed vertex.
pub open spec fn spec_pack_vertex(v: Vertex) -> Seq<u32> {
    seq![v.position.x, v.position.y, v.position.z]
}

/// The 32 words (eight 16-byte rows) of one packed instance record: one row
/// per frame vector with a zero pad word, one row for the colour, one for
/// the radius. Both the generation stage that writes records and the render
/// stage that reads them go by exactly these offsets.
pub open spec fn spec_pack_instance(t: TubeInstance) -> Seq<u32> {
    seq![
        t.start_position.x, t.start_position.y, t.start_position.z, 0u32,
        t.start_normal.x, t.start_normal.y, t.start_normal.z, 0u32,
        t.start_bitangent.x, t.start_bitangent.y, t.start_bitangent.z, 0u32,
        t.end_position.x, t.end_position.y, t.end_position.z, 0u32,
        t.end_normal.x, t.end_normal.y, t.end_normal.z, 0u32,
        t.end_bitangent.x, t.end_bitangent.y, t.end_bitangent.z, 0u32,
        t.colour.x, t.colour.y, t.colour.z, 0u32,
        t.radius, 0u32, 0u32, 0u32,
    ]
}

/// The 24 words of the packed uniform block: the camera matrix at byte
/// offset 0, the light direction at 64, the time at 76, the ambient colour
/// at 80 and one pad word at 92, filling the 16-byte-aligned block exactly.
pub open spec fn spec_pack_uniforms(u: Uniforms) -> Seq<u32> {
    u.camera@ + seq![
        u.light_direction.x,
        u.light_direction.y,
        u.light_direction.z,
        u.time,
        u.ambient.x,
        u.ambient.y,
        u.ambient.z,
        0u32,
    ]
}

/// Packs one cross-section vertex into its buffer words.
pub fn pack_vertex(v: &Vertex) -> (r: Vec<u32>)
    ensures
        r@ == spec_pack_vertex(*v),
        4 * r@.len() == VERTEX_STRIDE_BYTES,
{
    let mut r: Vec<u32> = Vec::new();
    r.push(v.position.x);
    r.push(v.position.y);
    r.push(v.position.z);
    proof {
        assert(r@ =~= spec_pack_vertex(*v));
    }
    r
}

/// Packs one instance record into its 32 buffer words.
pub fn pack_instance(t: &TubeInstance) -> (r: Vec<u32>)
    ensures
        r@ == spec_pack_instance(*t),
        4 * r@.len() == INSTANCE_STRIDE_BYTES,
{
    let mut r: Vec<u32> = Vec::new();
    r.push(t.start_position.x);
    r.push(t.start_position.y);
    r.push(t.start_position.z);
    r.push(0);
    r.push(t.start_normal.x);
    r.push(t.start_normal.y);
    r.push(t.start_normal.z);
    r.push(0);
    r.push(t.start_bitangent.x);
    r.push(t.start_bitangent.y);
    r.push(t.start_bitangent.z);
    r.push(0);
    r.push(t.end_position.x);
    r.push(t.end_position.y);
    r.push(t.end_position.z);
    r.push(0);
    r.push(t.end_normal.x);
    r.push(t.end_normal.y);
    r.push(t.end_normal.z);
    r.push(0);
    r.push(t.end_bitangent.x);
    r.push(t.end_bitangent.y);
    r.push(t.end_bitangent.z);
    r.push(0);
    r.push(t.colour.x);
    r.push(t.colour.y);
    r.push(t.colour.z);
    r.push(0);
    r.push(t.radius);
    r.push(0);
    r.push(0);
    r.push(0);
    proof {
        assert(r@ =~= spec_pack_instance(*t));
    }
    r
}

/// Packs the uniform state into its 24-word block. The block is a pure
/// function of the state: packing equal states twice gives byte-identical
/// blocks.
pub fn pack_uniforms(u: &Uniforms) -> (r: Vec<u32>)
    requires
        u.wf(),
    ensures
        r@ == spec_pack_uniforms(*u),
        4 * r@.len() == UNIFORM_BLOCK_BYTES,
        forall|i: int| 0 <= i < 16 ==> r@[i] == u.camera@[i],
        r@[16] == u.light_direction.x,
        r@[17] == u.light_direction.y,
        r@[18] == u.light_direction.z,
        r@[19] == u.time,
        r@[20] == u.ambient.x,
        r@[21] == u.ambient.y,
        r@[22] == u.ambient.z,
        r@[23] == 0,
{
    let mut r: Vec<u32> = Vec::new();
    let mut i: usize = 0;
    while i < 16
        invariant
            u.wf(),
            i <= 16,
            r@.len() == i,
            forall|j: int| 0 <= j < i ==> r@[j] == u.camera@[j],
        decreases 16 - i,
    {
        r.push(u.camera[i]);
        i = i + 1;
    }
    r.push(u.light_direction.x);
    r.push(u.light_direction.y);
    r.push(u.light_direction.z);
    r.push(u.time);
    r.push(u.ambient.x);
    r.push(u.ambient.y);
    r.push(u.ambient.z);
    r.push(0);
    proof {
        assert(r@ =~= spec_pack_uniforms(*u));
    }
    r
}

/// Concatenates the packed form of every cross-section vertex, in order:
/// vertex `j` occupies words `3 * j` up to `3 * j + 3`.
pub fn build_vertex_block(vs: &Vec<Vertex>) -> (r: Vec<u32>)
    ensures
        r@.len() == 3 * vs@.len(),
        forall|j: int|
            0 <= j < vs@.len() ==> r@.subrange(3 * j, 3 * j + 3) == spec_pack_vertex(vs@[j]),
{
    let mut r: Vec<u32> = Vec::new();
    let mut j: usize = 0;
    while j < vs.len()
        invariant
            j <= vs@.len(),
            r@.len() == 3 * j,
            forall|jj: int|
                0 <= jj < j ==> r@.subrange(3 * jj, 3 * jj + 3) == spec_pack_vertex(vs@[jj]),
        decreases vs@.len() - j,
    {
        let ghost prefix = r@;
        let v = vs[j];
        r.push(v.position.x);
        r.push(v.position.y);
        r.push(v.position.z);
        proof {
            assert forall|jj: int| 0 <= jj < j + 1 implies r@.subrange(3 * jj, 3 * jj + 3)
                == spec_pack_vertex(vs@[jj]) by {
                if jj < j {
                    assert(r@.subrange(3 * jj, 3 * jj + 3) =~= prefix.subrange(
                        3 * jj,
                        3 * jj + 3,
                    ));
                } else {
                    assert(r@.subrange(3 * jj, 3 * jj + 3) =~= spec_pack_vertex(vs@[jj]));
                }
            }
        }
        j = j + 1;
    }
    r
}

/// Concatenates the packed form of every instance record, in order: record
/// `k` occupies words `32 * k` up to `32 * k + 32`, matching the stride the
/// render stage reads with.
pub fn build_instance_block(ts: &Vec<TubeInstance>) -> (r: Vec<u32>)
    ensures
        r@.len() == 32 * ts@.len(),
        forall|k: int|
            0 <= k < ts@.len() ==> r@.subrange(32 * k, 32 * k + 32) == spec_pack_instance(ts@[k]),
{
    let mut r: Vec<u32> = Vec::new();
    let mut k: usize = 0;
    while k < ts.len()
        invariant
            k <= ts@.len(),
            r@.len() == 32 * k,
            forall|kk: int|
                0 <= kk < k ==> r@.subrange(32 * kk, 32 * kk + 32) == spec_pack_instance(ts@[kk]),
        decreases ts@.len() - k,
    {
        let ghost prefix = r@;
        let mut words = pack_instance(&ts[k]);
        r.append(&mut words);
        proof {
            assert forall|kk: int| 0 <= kk < k + 1 implies r@.subrange(32 * kk, 32 * kk + 32)
                == spec_pack_instance(ts@[kk]) by {
                if kk < k {
                    assert(r@.subrange(32 * kk, 32 * kk + 32) =~= prefix.subrange(
                        32 * kk,
                        32 * kk + 32,
                    ));
                } else {
                    assert(r@.subrange(32 * kk, 32 * kk + 32) =~= spec_pack_instance(ts@[kk]));
                }
            }
        }
        k = k + 1;
    }
    r
}

/// The packed instance stream of a validated configuration fills the
/// allocated instance buffer capacity exactly: four bytes per word, 32 words
/// per record, one record per segment of every strand.
pub proof fn lemma_instance_block_fills_buffer(c: TubeConfig, words: Seq<u32>)
    requires
        c.wf(),
        words.len() == 32 * c.spec_instance_count(),
    ensures
        4 * words.len() == INSTANCE_STRIDE_BYTES * c.strand_count * c.segments_per_strand,
{
    assert(4 * (32 * (c.strand_count * c.segments_per_strand)) == (128 * c.strand_count)
        * c.segments_per_strand) by (nonlinear_arith);
}

/// Packing the uniform block is deterministic: two states that agree on
/// every field pack to the same words, so uploading twice with identical
/// inputs writes byte-identical buffers.
pub proof fn lemma_uniform_pack_deterministic(a: Uniforms, b: Uniforms)
    requires
        a.camera@ == b.camera@,
        a.light_direction == b.light_direction,
        a.time == b.time,
        a.ambient == b.ambient,
    ensures
        spec_pack_uniforms(a) == spec_pack_uniforms(b),
{
    assert(spec_pack_uniforms(a) =~= spec_pack_uniforms(b));
}

} // verus!
