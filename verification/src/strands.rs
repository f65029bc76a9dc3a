use vstd::prelude::*;
use vstd::arithmetic::div_mod::lemma_fundamental_div_mod;
use vstd::arithmetic::div_mod::lemma_fundamental_div_mod_converse;
use vstd::arithmetic::div_mod::lemma_mod_pos_bound;

use crate::config::TubeConfig;

verus! {

/// The integer parameters of one tube segment. A strand is sampled at
/// equally spaced curve parameters; segment number `i` of a strand spans
/// samples `i` and `i + 1`. The curve itself is evaluated outside this
/// crate by one pure function of `(strand, step)`, so segments that agree
/// on these fields agree exactly on the evaluated endpoint, frame and
/// colour values.
#[derive(Clone, Copy, Debug, PartialEq, Eq, Structural)]
pub struct SegmentParam {
    /// Which strand the segment belongs to.
    pub strand: u32,
    /// Curve sample index of the segment's start.
    pub start_step: u32,
    /// Curve sample index of the segment's end; always `start_step + 1`.
    pub end_step: u32,
}

/// The parameters of record `k` when every strand has `segments` segments
/// and records are laid out strand-major.
pub open spec fn segment_param_spec(segments: int, k: int) -> SegmentParam {
    SegmentParam {
        strand: (k / segments) as u32,
        start_step: (k % segments) as u32,
        end_step: (k % segments + 1) as u32,
    }
}

/// Builds the strand-major grid of segment parameters for a validated
/// configuration: one record per segment of every strand, each spanning one
/// curve sample and the next, so consecutive records of a strand share
/// their boundary sample.
pub fn segment_params(c: &TubeConfig) -> (r: Vec<SegmentParam>)
    requires
        c.wf(),
    ensures
        r@.len() == c.spec_instance_count(),
        forall|k: int|
            0 <= k < r@.len() ==> r@[k] == segment_param_spec(c.segments_per_strand as int, k),
{
    let segments: u32 = c.segments_per_strand;
    let mut r: Vec<SegmentParam> = Vec::new();
    let mut s: u32 = 0;
    while s < c.strand_count
        invariant
            c.wf(),
            segments == c.segments_per_strand,
            s <= c.strand_count,
            r@.len() == s * segments,
            forall|k: int| 0 <= k < r@.len() ==> r@[k] == segment_param_spec(segments as int, k),
        decreases c.strand_count - s,
    {
        let mut i: u32 = 0;
        while i < segments
            invariant
                c.wf(),
                segments == c.segments_per_strand,
                s < c.strand_count,
                i <= segments,
                r@.len() == s * segments + i,
                forall|k: int| 0 <= k < r@.len() ==> r@[k] == segment_param_spec(segments as int, k),
            decreases segments - i,
        {
            proof {
                assert(s * segments + segments <= c.strand_count * segments) by (nonlinear_arith)
                    requires
                        s < c.strand_count,
                        segments >= 0,
                ;
                lemma_fundamental_div_mod_converse(
                    s * segments + i,
                    segments as int,
                    s as int,
                    i as int,
                );
            }
            r.push(SegmentParam { strand: s, start_step: i, end_step: i + 1 });
            i = i + 1;
        }
        s = s + 1;
        proof {
            assert((s - 1) * segments + segments == s * segments) by (nonlinear_arith);
        }
    }
    proof {
        assert(c.strand_count * segments == c.spec_instance_count()) by (nonlinear_arith)
            requires
                segments == c.segments_per_strand,
                c.spec_instance_count() == c.strand_count * c.segments_per_strand,
        ;
    }
    r
}

/// Within one strand the segment chain is continuous: every segment that is
/// not the last of its strand ends on exactly the curve sample where the
/// next segment starts, and both segments belong to the same strand. The
/// evaluated endpoint, normal and bitangent of a segment's end therefore
/// coincide with those of the next segment's start.
pub proof fn lemma_strand_continuity(segments: int)
    requires
        1 <= segments <= 0xffff_ffff,
    ensures
        forall|k: int| #![trigger segment_param_spec(segments, k)]
            0 <= k && k % segments < segments - 1 ==> {
                &&& segment_param_spec(segments, k).end_step == segment_param_spec(
                    segments,
                    k + 1,
                ).start_step
                &&& segment_param_spec(segments, k).strand == segment_param_spec(
                    segments,
                    k + 1,
                ).strand
            },
{
    assert forall|k: int|
        0 <= k && k % segments < segments - 1 implies {
        &&& #[trigger] segment_param_spec(segments, k).end_step == segment_param_spec(
            segments,
            k + 1,
        ).start_step
        &&& segment_param_spec(segments, k).strand == segment_param_spec(segments, k + 1).strand
    } by {
        let q = k / segments;
        let m = k % segments;
        lemma_mod_pos_bound(k, segments);
        lemma_fundamental_div_mod(k, segments);
        assert(k == segments * q + m);
        assert(segments * q == q * segments) by (nonlinear_arith);
        assert(k + 1 == q * segments + (m + 1));
        lemma_fundamental_div_mod_converse(k + 1, segments, q, m + 1);
    }
}

} // verus!
