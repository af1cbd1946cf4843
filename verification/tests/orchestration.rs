use pathtracer::buffers::{pixel_count, seed_rng_states, DeviceBufferSet, RngState};
use pathtracer::pipeline::{
    dispatch_dims, entry_point, stage_bindings, workgroup_count_x, Access, Binding, BufferId,
    StageKind, WORKGROUP_WIDTH,
};
use pathtracer::pipeline::StageKind::{Intersection, RayGeneration, Shading};
use pathtracer::records::Vec4Bits;
use pathtracer::schedule::build_schedule;

#[test]
fn entry_points_match_kernel_module() {
    assert_eq!(entry_point(StageKind::RayGeneration), "main_raygen");
    assert_eq!(entry_point(StageKind::Intersection), "main_raytrace");
    assert_eq!(entry_point(StageKind::Shading), "main_material");
}

#[test]
fn binding_layouts_match_kernel_module() {
    let rw = Access::ReadWrite;
    let ro = Access::ReadOnly;
    assert_eq!(
        stage_bindings(StageKind::RayGeneration),
        vec![
            Binding { buffer: BufferId::RayOrigin, access: rw },
            Binding { buffer: BufferId::RayDirection, access: rw },
            Binding { buffer: BufferId::Throughput, access: rw },
            Binding { buffer: BufferId::RngState, access: ro },
        ]
    );
    assert_eq!(
        stage_bindings(StageKind::Intersection),
        vec![
            Binding { buffer: BufferId::RayOrigin, access: rw },
            Binding { buffer: BufferId::RayDirection, access: rw },
        ]
    );
    assert_eq!(
        stage_bindings(StageKind::Shading),
        vec![
            Binding { buffer: BufferId::RayOrigin, access: rw },
            Binding { buffer: BufferId::RayDirection, access: rw },
            Binding { buffer: BufferId::Throughput, access: rw },
            Binding { buffer: BufferId::RngState, access: rw },
            Binding { buffer: BufferId::OutputAccumulator, access: rw },
        ]
    );
}

#[test]
fn full_width_is_covered_by_twenty_workgroups() {
    assert_eq!(workgroup_count_x(1280), 20);
    assert_eq!(workgroup_count_x(1280) * WORKGROUP_WIDTH, 1280);
    assert_eq!(dispatch_dims(1280, 720), (20, 720, 1));
}

#[test]
fn partial_width_leaves_remainder_columns_undispatched() {
    assert_eq!(workgroup_count_x(100), 1);
    assert_eq!(workgroup_count_x(100) * WORKGROUP_WIDTH, 64);
    assert_eq!(workgroup_count_x(63), 0);
}

#[test]
fn schedule_orders_stages_per_sample_and_bounce() {
    assert_eq!(build_schedule(1, 0), vec![RayGeneration]);
    assert_eq!(build_schedule(0, 5), Vec::<StageKind>::new());
    assert_eq!(
        build_schedule(2, 2),
        vec![
            RayGeneration, Intersection, Shading, Intersection, Shading,
            RayGeneration, Intersection, Shading, Intersection, Shading,
        ]
    );
    assert_eq!(build_schedule(128, 4).len(), 128 * 9);
}

#[test]
fn buffers_are_sized_to_the_pixel_count() {
    assert_eq!(pixel_count(1280, 720), 921600);
    assert_eq!(pixel_count(0, 7), 0);
    for (w, h) in [(2u32, 1u32), (64, 3), (1, 1)] {
        let n = (w * h) as usize;
        let set = DeviceBufferSet::new(w, h, seed_rng_states(n));
        assert_eq!(set.ray_origin.len(), n);
        assert_eq!(set.ray_direction.len(), n);
        assert_eq!(set.throughput.len(), n);
        assert_eq!(set.rng_state.len(), n);
        assert_eq!(set.output.len(), n);
    }
}

#[test]
fn seeding_yields_one_state_per_pixel() {
    assert_eq!(seed_rng_states(6).len(), 6);
    assert_eq!(seed_rng_states(0).len(), 0);
}

#[test]
fn run_without_bounces_leaves_accumulator_zero() {
    let width = 2u32;
    let height = 1u32;
    let n = (width * height) as usize;
    let mut set = DeviceBufferSet::new(width, height, seed_rng_states(n));
    let schedule = build_schedule(1, 0);
    assert_eq!(schedule, vec![StageKind::RayGeneration]);
    let jitter = Vec4Bits {
        x: 0.5f32.to_bits(),
        y: 1.0f32.to_bits(),
        z: (-1.0f32).to_bits(),
        w: 2.5f32.to_bits(),
    };
    for stage in schedule {
        match stage {
            StageKind::RayGeneration => {
                set.apply_ray_generation(vec![jitter; n], vec![jitter; n], vec![jitter; n]);
            }
            StageKind::Intersection => {
                set.apply_intersection(vec![jitter; n], vec![jitter; n]);
            }
            StageKind::Shading => {
                set.apply_shading(
                    vec![jitter; n],
                    vec![jitter; n],
                    vec![jitter; n],
                    vec![RngState { a: 1, b: 2 }; n],
                    vec![jitter; n],
                );
            }
        }
    }
    for pixel in set.output.iter() {
        assert_eq!((pixel.x, pixel.y, pixel.z, pixel.w), (0, 0, 0, 0));
    }
}

#[test]
fn shading_is_the_stage_that_writes_the_accumulator() {
    let n = 1usize;
    let mut set = DeviceBufferSet::new(1, 1, seed_rng_states(n));
    let radiance = Vec4Bits { x: 3.0f32.to_bits(), y: 0, z: 0, w: 0 };
    set.apply_shading(
        vec![Vec4Bits { x: 0, y: 0, z: 0, w: 0 }; n],
        vec![Vec4Bits { x: 0, y: 0, z: 0, w: 0 }; n],
        vec![Vec4Bits { x: 0, y: 0, z: 0, w: 0 }; n],
        vec![RngState { a: 0, b: 0 }; n],
        vec![radiance; n],
    );
    assert_eq!(set.output[0], radiance);
}
