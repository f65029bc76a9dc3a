use vstd::prelude::*;

verus! {

/// Byte stride of one packed tube instance record in the shared storage
/// buffer: eight 16-byte rows (six frame vectors, one colour row, one radius
/// row).
pub const INSTANCE_STRIDE_BYTES: u64 = 128;

/// Byte size of the packed per-frame uniform block: a 4x4 camera matrix, the
/// light direction, the time scalar and the ambient colour, padded to the
/// 16-byte uniform alignment.
pub const UNIFORM_BLOCK_BYTES: u64 = 96;

/// Byte stride of one packed cross-section vertex (one position vector).
pub const VERTEX_STRIDE_BYTES: u64 = 12;

/// The fixed topology of the tube field: how many strands are animated, how
/// many straight segments approximate each strand, how many sides the
/// extruded cross-section polygon has, and the compute dispatch grid that
/// regenerates the instance records.
///
/// All counts are fixed once a configuration has been validated; nothing is
/// resized at runtime.
#[derive(Clone, Copy, Debug, PartialEq, Eq, Structural)]
pub struct TubeConfig {
    /// Sides of the cross-section polygon.
    pub sides: u32,
    /// Straight segments per strand.
    pub segments_per_strand: u32,
    /// Independent strands; must equal the dispatch invocation count.
    pub strand_count: u32,
    /// Workgroup grid of the generation dispatch.
    pub workgroups_x: u32,
    pub workgroups_y: u32,
    pub workgroups_z: u32,
    /// Invocations per workgroup of the generation dispatch.
    pub workgroup_size_x: u32,
    pub workgroup_size_y: u32,
    pub workgroup_size_z: u32,
}

/// A construction-time configuration defect. Any of these aborts startup;
/// none is a runtime condition to recover from.
#[derive(Clone, Copy, Debug, PartialEq, Eq, Structural)]
pub enum ConfigError {
    /// The cross-section needs at least three sides to enclose area.
    TooFewSides,
    /// Twice the side count plus the closing pair must fit in a draw range.
    TooManySides,
    /// A strand must have at least one segment.
    NoSegments,
    /// There must be at least one strand.
    NoStrands,
    /// The dispatch grid does not produce exactly one invocation per strand.
    DispatchMismatch,
    /// The total instance count must fit in an instanced draw range.
    TooManyInstances,
}

/// Widening product of two 32-bit counts; never overflows the 64-bit result.
fn mul_u32(x: u32, y: u32) -> (r: u64)
    ensures
        r == x * y,
{
    assert((x as u64) * (y as u64) <= 0xffff_ffff * 0xffff_ffff) by (nonlinear_arith)
        requires
            x <= 0xffff_ffff,
            y <= 0xffff_ffff,
    ;
    (x as u64) * (y as u64)
}

impl TubeConfig {
    /// Total invocations of one generation dispatch: the product of the
    /// workgroup grid and the per-workgroup invocation counts.
    pub open spec fn dispatch_invocations(self) -> int {
        (self.workgroups_x * self.workgroup_size_x)
            * (self.workgroups_y * self.workgroup_size_y)
            * (self.workgroups_z * self.workgroup_size_z)
    }

    /// Total instance records: one per segment of every strand.
    pub open spec fn spec_instance_count(self) -> int {
        self.strand_count * self.segments_per_strand
    }

    /// Vertices of the cross-section ring: a near/far pair per side plus the
    /// pair that closes the triangle strip.
    pub open spec fn spec_vertex_count(self) -> int {
        2 * self.sides + 2
    }

    /// A validated configuration: every derived size divides out exactly and
    /// fits its machine range.
    pub open spec fn wf(self) -> bool {
        &&& 3 <= self.sides <= 2147483646
        &&& self.segments_per_strand >= 1
        &&& self.strand_count >= 1
        &&& self.dispatch_invocations() == self.strand_count
        &&& self.spec_instance_count() <= u32::MAX
    }

    /// The first defect a validation pass reports, checked in a fixed order;
    /// `None` exactly when the configuration is well formed.
    pub open spec fn spec_defect(self) -> Option<ConfigError> {
        if self.sides < 3 {
            Some(ConfigError::TooFewSides)
        } else if self.sides > 2147483646 {
            Some(ConfigError::TooManySides)
        } else if self.segments_per_strand == 0 {
            Some(ConfigError::NoSegments)
        } else if self.strand_count == 0 {
            Some(ConfigError::NoStrands)
        } else if self.dispatch_invocations() != self.strand_count {
            Some(ConfigError::DispatchMismatch)
        } else if self.spec_instance_count() > u32::MAX {
            Some(ConfigError::TooManyInstances)
        } else {
            None
        }
    }

    /// Checks a candidate configuration. Returns the configuration unchanged
    /// exactly when every count is in range, the dispatch grid covers the
    /// strands one-to-one, and the instance total fits a draw range;
    /// otherwise returns the first defect in checking order.
    pub fn validated(self) -> (r: Result<TubeConfig, ConfigError>)
        ensures
            match r {
                Ok(cfg) => cfg == self && self.wf() && self.spec_defect() is None,
                Err(e) => !self.wf() && self.spec_defect() == Some(e),
            },
    {
        if self.sides < 3 {
            return Err(ConfigError::TooFewSides);
        }
        if self.sides > 2147483646 {
            return Err(ConfigError::TooManySides);
        }
        if self.segments_per_strand == 0 {
            return Err(ConfigError::NoSegments);
        }
        if self.strand_count == 0 {
            return Err(ConfigError::NoStrands);
        }
        let a: u64 = mul_u32(self.workgroups_x, self.workgroup_size_x);
        let b: u64 = mul_u32(self.workgroups_y, self.workgroup_size_y);
        let c: u64 = mul_u32(self.workgroups_z, self.workgroup_size_z);
        if a == 0 || b == 0 || c == 0 {
            assert(self.dispatch_invocations() == a * b * c == 0) by (nonlinear_arith)
                requires
                    a == self.workgroups_x * self.workgroup_size_x,
                    b == self.workgroups_y * self.workgroup_size_y,
                    c == self.workgroups_z * self.workgroup_size_z,
                    a == 0 || b == 0 || c == 0,
            ;
            return Err(ConfigError::DispatchMismatch);
        }
        if a > 0xffff_ffff || b > 0xffff_ffff || c > 0xffff_ffff {
            assert(self.dispatch_invocations() > 0xffff_ffff) by (nonlinear_arith)
                requires
                    a == self.workgroups_x * self.workgroup_size_x,
                    b == self.workgroups_y * self.workgroup_size_y,
                    c == self.workgroups_z * self.workgroup_size_z,
                    a >= 1 && b >= 1 && c >= 1,
                    a > 0xffff_ffff || b > 0xffff_ffff || c > 0xffff_ffff,
            ;
            return Err(ConfigError::DispatchMismatch);
        }
        assert(a * b <= 0xffff_ffff * 0xffff_ffff) by (nonlinear_arith)
            requires
                a <= 0xffff_ffff,
                b <= 0xffff_ffff,
        ;
        let ab: u64 = a * b;
        if ab > 0xffff_ffff {
            assert(self.dispatch_invocations() > 0xffff_ffff) by (nonlinear_arith)
                requires
                    a == self.workgroups_x * self.workgroup_size_x,
                    b == self.workgroups_y * self.workgroup_size_y,
                    c == self.workgroups_z * self.workgroup_size_z,
                    ab == a * b,
                    c >= 1,
                    ab > 0xffff_ffff,
            ;
            return Err(ConfigError::DispatchMismatch);
        }
        assert(ab * c <= 0xffff_ffff * 0xffff_ffff) by (nonlinear_arith)
            requires
                ab <= 0xffff_ffff,
                c <= 0xffff_ffff,
        ;
        let abc: u64 = ab * c;
        assert(self.dispatch_invocations() == abc) by (nonlinear_arith)
            requires
                a == self.workgroups_x * self.workgroup_size_x,
                b == self.workgroups_y * self.workgroup_size_y,
                c == self.workgroups_z * self.workgroup_size_z,
                ab == a * b,
                abc == ab * c,
        ;
        if abc != self.strand_count as u64 {
            return Err(ConfigError::DispatchMismatch);
        }
        let count: u64 = mul_u32(self.strand_count, self.segments_per_strand);
        if count > 0xffff_ffff {
            return Err(ConfigError::TooManyInstances);
        }
        Ok(self)
    }

    /// Cross-section vertex count, the vertex range of the instanced draw.
    pub fn vertex_count(&self) -> (n: u32)
        requires
            self.wf(),
        ensures
            n == self.spec_vertex_count(),
    {
        2 * self.sides + 2
    }

    /// Total instance records, the instance range of the instanced draw.
    pub fn instance_count(&self) -> (n: u32)
        requires
            self.wf(),
        ensures
            n == self.spec_instance_count(),
    {
        mul_u32(self.strand_count, self.segments_per_strand) as u32
    }

    /// Byte capacity the instance buffer must be allocated with: the packed
    /// stride times the strand count times the segments per strand, exactly.
    pub fn instance_buffer_bytes(&self) -> (n: u64)
        requires
            self.wf(),
        ensures
            n == INSTANCE_STRIDE_BYTES * self.strand_count * self.segments_per_strand,
    {
        let count: u64 = self.instance_count() as u64;
        assert(INSTANCE_STRIDE_BYTES * self.strand_count * self.segments_per_strand
            == INSTANCE_STRIDE_BYTES * (self.strand_count * self.segments_per_strand))
            by (nonlinear_arith);
        INSTANCE_STRIDE_BYTES * count
    }

    /// Byte capacity of the cross-section vertex buffer.
    pub fn vertex_buffer_bytes(&self) -> (n: u64)
        requires
            self.wf(),
        ensures
            n == VERTEX_STRIDE_BYTES * self.spec_vertex_count(),
    {
        VERTEX_STRIDE_BYTES * (self.vertex_count() as u64)
    }

    /// The workgroup grid to dispatch for one generation pass. Together with
    /// the per-workgroup invocation counts it covers every strand exactly
    /// once.
    pub fn dispatch_workgroups(&self) -> (d: (u32, u32, u32))
        requires
            self.wf(),
        ensures
            d.0 == self.workgroups_x && d.1 == self.workgroups_y && d.2 == self.workgroups_z,
            (d.0 * self.workgroup_size_x) * (d.1 * self.workgroup_size_y)
                * (d.2 * self.workgroup_size_z) == self.strand_count,
    {
        (self.workgroups_x, self.workgroups_y, self.workgroups_z)
    }
}

impl Default for TubeConfig {
    /// The demo topology: an eight-sided cross-section, 64 segments per
    /// strand, and a 2x2 grid of 16x16 workgroups covering 1024 strands.
    fn default() -> (c: Self)
        ensures
            c == (TubeConfig {
                sides: 8,
                segments_per_strand: 64,
                strand_count: 1024,
                workgroups_x: 2,
                workgroups_y: 2,
                workgroups_z: 1,
                workgroup_size_x: 16,
                workgroup_size_y: 16,
                workgroup_size_z: 1,
            }),
            c.wf(),
    {
        let c = TubeConfig {
            sides: 8,
            segments_per_strand: 64,
            strand_count: 1024,
            workgroups_x: 2,
            workgroups_y: 2,
            workgroups_z: 1,
            workgroup_size_x: 16,
            workgroup_size_y: 16,
            workgroup_size_z: 1,
        };
        proof {
            assert(c.dispatch_invocations() == 1024) by (nonlinear_arith)
                requires
                    c.workgroups_x == 2,
                    c.workgroups_y == 2,
                    c.workgroups_z == 1,
                    c.workgroup_size_x == 16,
                    c.workgroup_size_y == 16,
                    c.workgroup_size_z == 1,
            ;
            assert(c.spec_instance_count() == 65536);
        }
        c
    }
}

} // verus!
