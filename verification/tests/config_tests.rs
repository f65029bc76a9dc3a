use tube_strands::ConfigError;
use tube_strands::TubeConfig;
use tube_strands::INSTANCE_STRIDE_BYTES;
use tube_strands::UNIFORM_BLOCK_BYTES;
use tube_strands::VERTEX_STRIDE_BYTES;

fn demo() -> TubeConfig {
    TubeConfig::default()
}

#[test]
fn default_topology_is_the_demo_grid() {
    let c = demo();
    assert_eq!(c.sides, 8);
    assert_eq!(c.segments_per_strand, 64);
    assert_eq!(c.strand_count, 1024);
    assert_eq!(
        (c.workgroups_x, c.workgroups_y, c.workgroups_z),
        (2, 2, 1)
    );
    assert_eq!(
        (c.workgroup_size_x, c.workgroup_size_y, c.workgroup_size_z),
        (16, 16, 1)
    );
    assert_eq!(c.validated(), Ok(c));
}

#[test]
fn vertex_count_for_eight_sides_is_eighteen() {
    let c = demo();
    assert_eq!(c.vertex_count(), 18);
    assert_eq!(c.vertex_buffer_bytes(), VERTEX_STRIDE_BYTES * 18);
}

#[test]
fn instance_buffer_capacity_is_stride_times_counts() {
    let c = demo();
    assert_eq!(c.instance_count(), 65536);
    assert_eq!(
        c.instance_buffer_bytes(),
        INSTANCE_STRIDE_BYTES * 1024 * 64
    );
    assert_eq!(c.instance_buffer_bytes(), 8388608);
    assert_eq!(UNIFORM_BLOCK_BYTES % 16, 0);
}

#[test]
fn dispatch_grid_covers_each_strand_once() {
    let c = demo();
    let (x, y, z) = c.dispatch_workgroups();
    let invocations = u64::from(x) * u64::from(c.workgroup_size_x)
        * u64::from(y) * u64::from(c.workgroup_size_y)
        * u64::from(z) * u64::from(c.workgroup_size_z);
    assert_eq!(invocations, u64::from(c.strand_count));
    assert_eq!(invocations, 1024);
}

#[test]
fn too_few_sides_is_rejected() {
    let c = TubeConfig { sides: 2, ..demo() };
    assert_eq!(c.validated(), Err(ConfigError::TooFewSides));
}

#[test]
fn oversized_side_count_is_rejected() {
    let c = TubeConfig { sides: 2147483647, ..demo() };
    assert_eq!(c.validated(), Err(ConfigError::TooManySides));
}

#[test]
fn zero_segments_is_rejected() {
    let c = TubeConfig { segments_per_strand: 0, ..demo() };
    assert_eq!(c.validated(), Err(ConfigError::NoSegments));
}

#[test]
fn zero_strands_is_rejected() {
    let c = TubeConfig { strand_count: 0, ..demo() };
    assert_eq!(c.validated(), Err(ConfigError::NoStrands));
}

#[test]
fn dispatch_mismatch_is_rejected() {
    let c = TubeConfig { workgroups_x: 3, ..demo() };
    assert_eq!(c.validated(), Err(ConfigError::DispatchMismatch));

    let zero_grid = TubeConfig { workgroup_size_y: 0, ..demo() };
    assert_eq!(zero_grid.validated(), Err(ConfigError::DispatchMismatch));

    let huge_grid = TubeConfig {
        workgroups_x: 65536,
        workgroup_size_x: 65536,
        workgroups_y: 1,
        workgroup_size_y: 1,
        ..demo()
    };
    assert_eq!(huge_grid.validated(), Err(ConfigError::DispatchMismatch));
}

#[test]
fn instance_total_beyond_a_draw_range_is_rejected() {
    let c = TubeConfig {
        strand_count: 2147483648,
        segments_per_strand: 2,
        workgroups_x: 32768,
        workgroups_y: 1,
        workgroup_size_x: 65536,
        workgroup_size_y: 1,
        ..demo()
    };
    assert_eq!(c.validated(), Err(ConfigError::TooManyInstances));
}
