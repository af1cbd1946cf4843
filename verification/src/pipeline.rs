//! Pipeline stage wiring: the three compute stages, the exact ordered list
//! of shared buffers each one binds (order and access mode are part of the
//! shared-memory contract with the compiled kernel module and must match its
//! declared layout), the entry point each stage runs, and the work-group
//! arithmetic that decides how many columns of the image a dispatch covers.
use vstd::assert_seqs_equal;
use vstd::prelude::*;

verus! {

/// Width of one device work group: a dispatch covers
/// `(width / WORKGROUP_WIDTH) * WORKGROUP_WIDTH` columns, so an image width
/// that is not a multiple of this leaves its rightmost columns undispatched.
pub const WORKGROUP_WIDTH: u32 = 64;

/// The three compute stages, in the order one bounce runs them.
#[derive(Clone, Copy, PartialEq, Eq, Debug)]
pub enum StageKind {
    RayGeneration,
    Intersection,
    Shading,
}

/// The shared device buffers of one run.
#[derive(Clone, Copy, PartialEq, Eq, Debug)]
pub enum BufferId {
    RayOrigin,
    RayDirection,
    Throughput,
    RngState,
    OutputAccumulator,
}

/// Access mode a stage declares for one bound buffer.
#[derive(Clone, Copy, PartialEq, Eq, Debug)]
pub enum Access {
    ReadOnly,
    ReadWrite,
}

/// One slot of a stage's descriptor layout: which buffer, in which mode.
#[derive(Clone, Copy, PartialEq, Eq, Debug)]
pub struct Binding {
    pub buffer: BufferId,
    pub access: Access,
}

/// The ordered descriptor layout of each stage, exactly as the kernel
/// module declares it.
pub open spec fn spec_stage_bindings(stage: StageKind) -> Seq<Binding> {
    match stage {
        StageKind::RayGeneration => seq![
            Binding { buffer: BufferId::RayOrigin, access: Access::ReadWrite },
            Binding { buffer: BufferId::RayDirection, access: Access::ReadWrite },
            Binding { buffer: BufferId::Throughput, access: Access::ReadWrite },
            Binding { buffer: BufferId::RngState, access: Access::ReadOnly },
        ],
        StageKind::Intersection => seq![
            Binding { buffer: BufferId::RayOrigin, access: Access::ReadWrite },
            Binding { buffer: BufferId::RayDirection, access: Access::ReadWrite },
        ],
        StageKind::Shading => seq![
            Binding { buffer: BufferId::RayOrigin, access: Access::ReadWrite },
            Binding { buffer: BufferId::RayDirection, access: Access::ReadWrite },
            Binding { buffer: BufferId::Throughput, access: Access::ReadWrite },
            Binding { buffer: BufferId::RngState, access: Access::ReadWrite },
            Binding { buffer: BufferId::OutputAccumulator, access: Access::ReadWrite },
        ],
    }
}

/// The descriptor layout of `stage`, in binding order.
pub fn stage_bindings(stage: StageKind) -> (v: Vec<Binding>)
    ensures
        v@ == spec_stage_bindings(stage),
{
    let mut v: Vec<Binding> = Vec::new();
    match stage {
        StageKind::RayGeneration => {
            v.push(Binding { buffer: BufferId::RayOrigin, access: Access::ReadWrite });
            v.push(Binding { buffer: BufferId::RayDirection, access: Access::ReadWrite });
            v.push(Binding { buffer: BufferId::Throughput, access: Access::ReadWrite });
            v.push(Binding { buffer: BufferId::RngState, access: Access::ReadOnly });
        }
        StageKind::Intersection => {
            v.push(Binding { buffer: BufferId::RayOrigin, access: Access::ReadWrite });
            v.push(Binding { buffer: BufferId::RayDirection, access: Access::ReadWrite });
        }
        StageKind::Shading => {
            v.push(Binding { buffer: BufferId::RayOrigin, access: Access::ReadWrite });
            v.push(Binding { buffer: BufferId::RayDirection, access: Access::ReadWrite });
            v.push(Binding { buffer: BufferId::Throughput, access: Access::ReadWrite });
            v.push(Binding { buffer: BufferId::RngState, access: Access::ReadWrite });
            v.push(Binding { buffer: BufferId::OutputAccumulator, access: Access::ReadWrite });
        }
    }
    proof {
        assert_seqs_equal!(v@ == spec_stage_bindings(stage));
    }
    v
}

/// The entry point of `stage` in the compiled kernel module.
pub open spec fn spec_entry_point(stage: StageKind) -> Seq<char> {
    match stage {
        StageKind::RayGeneration => "main_raygen"@,
        StageKind::Intersection => "main_raytrace"@,
        StageKind::Shading => "main_material"@,
    }
}

/// The entry point name of `stage` in the compiled kernel module.
pub fn entry_point(stage: StageKind) -> (s: &'static str)
    ensures
        s@ == spec_entry_point(stage),
{
    match stage {
        StageKind::RayGeneration => "main_raygen",
        StageKind::Intersection => "main_raytrace",
        StageKind::Shading => "main_material",
    }
}

/// Whether `stage` binds `buffer` read-write, i.e. may change its contents.
pub open spec fn stage_writes(stage: StageKind, buffer: BufferId) -> bool {
    spec_stage_bindings(stage).contains(Binding { buffer, access: Access::ReadWrite })
}

/// The output accumulator is written by the shading stage and by no other:
/// a run that never dispatches shading leaves the accumulated image alone.
pub proof fn lemma_only_shading_writes_output(stage: StageKind)
    ensures
        stage_writes(stage, BufferId::OutputAccumulator) <==> stage == StageKind::Shading,
{
    let b = Binding { buffer: BufferId::OutputAccumulator, access: Access::ReadWrite };
    match stage {
        StageKind::RayGeneration => {
            assert(!spec_stage_bindings(stage).contains(b));
        }
        StageKind::Intersection => {
            assert(!spec_stage_bindings(stage).contains(b));
        }
        StageKind::Shading => {
            assert(spec_stage_bindings(stage)[4] == b);
        }
    }
}

/// Columns of the image actually covered by one dispatch: whole work groups
/// only, so any remainder of `width` modulo the work-group width is left out.
pub open spec fn covered_columns(width: u32) -> int {
    (width as int / WORKGROUP_WIDTH as int) * WORKGROUP_WIDTH as int
}

/// Work groups along the image width: one per full group of columns.
pub fn workgroup_count_x(width: u32) -> (n: u32)
    ensures
        n == width as int / WORKGROUP_WIDTH as int,
        n as int * WORKGROUP_WIDTH as int == covered_columns(width),
{
    width / WORKGROUP_WIDTH
}

/// The three-dimensional work-group count of one dispatch:
/// `(width / WORKGROUP_WIDTH, height, 1)`.
pub fn dispatch_dims(width: u32, height: u32) -> (d: (u32, u32, u32))
    ensures
        d.0 == width as int / WORKGROUP_WIDTH as int,
        d.1 == height,
        d.2 == 1,
{
    (width / WORKGROUP_WIDTH, height, 1)
}

/// A width that is an exact multiple of the work-group width is covered in
/// full: no column is left undispatched.
pub proof fn lemma_full_coverage(width: u32)
    requires
        width % WORKGROUP_WIDTH == 0,
    ensures
        covered_columns(width) == width,
{
    vstd::arithmetic::div_mod::lemma_fundamental_div_mod(width as int, WORKGROUP_WIDTH as int);
}

/// Dispatch never covers more than the image width, and what it misses is
/// less than one work group of columns.
pub proof fn lemma_coverage_bounds(width: u32)
    ensures
        0 <= covered_columns(width) <= width,
        width - covered_columns(width) < WORKGROUP_WIDTH,
{
    vstd::arithmetic::div_mod::lemma_fundamental_div_mod(width as int, WORKGROUP_WIDTH as int);
}

} // verus!
