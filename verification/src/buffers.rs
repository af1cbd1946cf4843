//! The device buffer set: the five shared mutable arrays of one run, each
//! sized to the pixel count, allocated once and mutated in place by every
//! dispatch. This module holds the host's model of that memory as plain
//! values. A stage dispatch replaces the contents of exactly the buffers it
//! binds read-write and leaves every other buffer alone; what the kernels
//! compute is the device's own business, so the model takes the new
//! contents as arguments and pins down lengths and frame conditions.
use vstd::prelude::*;

use crate::pipeline::BufferId;
use crate::records::Vec4Bits;

verus! {

/// Per-pixel persistent generator state: two 32-bit words, seeded once from
/// the host's random source before the first dispatch and never reset, so
/// pixel samples decorrelate over the run.
#[derive(Clone, Copy, PartialEq, Eq, Debug)]
pub struct RngState {
    pub a: u32,
    pub b: u32,
}

/// Relies on rand::random: a uniformly distributed `u32` from the
/// thread-local generator. Nothing is promised of the value.
#[verifier::external_body]
fn random_u32() -> u32 {
    rand::random::<u32>()
}

/// Fresh per-pixel generator states, one per pixel, drawn from the host's
/// random source. Only the count is determined; the seeds themselves may
/// differ from run to run.
pub fn seed_rng_states(count: usize) -> (v: Vec<RngState>)
    ensures
        v@.len() == count,
{
    let mut v: Vec<RngState> = Vec::new();
    let mut i: usize = 0;
    while i < count
        invariant
            i <= count,
            v@.len() == i,
        decreases count - i,
    {
        v.push(RngState { a: random_u32(), b: random_u32() });
        i = i + 1;
    }
    v
}

/// Pixels in the image, and hence elements in every shared buffer.
pub fn pixel_count(width: u32, height: u32) -> (n: u64)
    ensures
        n == width as int * height as int,
{
    proof {
        assert(width as int * height as int <= u64::MAX as int) by (nonlinear_arith)
            requires width <= u32::MAX && height <= u32::MAX;
    }
    width as u64 * height as u64
}

/// A vector of `count` all-zero four-lane records.
fn zeroed_lanes(count: usize) -> (v: Vec<Vec4Bits>)
    ensures
        v@.len() == count,
        forall|i: int| 0 <= i < count ==> v@[i].is_zero(),
{
    let mut v: Vec<Vec4Bits> = Vec::new();
    let mut i: usize = 0;
    while i < count
        invariant
            i <= count,
            v@.len() == i,
            forall|j: int| 0 <= j < i ==> v@[j].is_zero(),
        decreases count - i,
    {
        v.push(Vec4Bits::zero());
        i = i + 1;
    }
    v
}

/// The host's model of the shared device buffers of one run: ray origins,
/// ray directions, path throughput, per-pixel generator state, and the
/// output radiance accumulator.
pub struct DeviceBufferSet {
    pub width: u32,
    pub height: u32,
    pub ray_origin: Vec<Vec4Bits>,
    pub ray_direction: Vec<Vec4Bits>,
    pub throughput: Vec<Vec4Bits>,
    pub rng_state: Vec<RngState>,
    pub output: Vec<Vec4Bits>,
}

impl DeviceBufferSet {
    /// Elements every buffer of this set must hold: one per pixel.
    pub open spec fn spec_pixel_count(self) -> int {
        self.width as int * self.height as int
    }

    /// Every buffer holds exactly `width * height` elements. Established at
    /// allocation and preserved by every dispatch: buffers are mutated in
    /// place and never resized.
    pub open spec fn wf(self) -> bool {
        &&& self.ray_origin@.len() == self.spec_pixel_count()
        &&& self.ray_direction@.len() == self.spec_pixel_count()
        &&& self.throughput@.len() == self.spec_pixel_count()
        &&& self.rng_state@.len() == self.spec_pixel_count()
        &&& self.output@.len() == self.spec_pixel_count()
    }

    /// Elements the buffer named `id` holds.
    pub open spec fn spec_buffer_len(self, id: BufferId) -> int {
        match id {
            BufferId::RayOrigin => self.ray_origin@.len() as int,
            BufferId::RayDirection => self.ray_direction@.len() as int,
            BufferId::Throughput => self.throughput@.len() as int,
            BufferId::RngState => self.rng_state@.len() as int,
            BufferId::OutputAccumulator => self.output@.len() as int,
        }
    }

    /// Allocates the set for a `width` by `height` image: the ray-state
    /// buffers and the output accumulator start zeroed, and the generator
    /// buffer starts at the given seeds.
    pub fn new(width: u32, height: u32, rng_seed: Vec<RngState>) -> (r: Self)
        requires
            width as int * height as int <= usize::MAX,
            rng_seed@.len() == width as int * height as int,
        ensures
            r.width == width,
            r.height == height,
            r.wf(),
            r.rng_state@ == rng_seed@,
            forall|i: int| 0 <= i < r.spec_pixel_count() ==> r.output@[i].is_zero(),
            forall|i: int| 0 <= i < r.spec_pixel_count() ==> r.ray_origin@[i].is_zero(),
            forall|i: int| 0 <= i < r.spec_pixel_count() ==> r.ray_direction@[i].is_zero(),
            forall|i: int| 0 <= i < r.spec_pixel_count() ==> r.throughput@[i].is_zero(),
    {
        proof {
            assert(width as int * height as int >= 0) by (nonlinear_arith);
        }
        let count: usize = (width as usize) * (height as usize);
        DeviceBufferSet {
            width,
            height,
            ray_origin: zeroed_lanes(count),
            ray_direction: zeroed_lanes(count),
            throughput: zeroed_lanes(count),
            rng_state: rng_seed,
            output: zeroed_lanes(count),
        }
    }

    /// One ray generation dispatch: replaces the contents of the three
    /// ray-state buffers it binds read-write; the generator buffer is bound
    /// read-only and the output accumulator is not bound at all, so both
    /// are untouched.
    pub fn apply_ray_generation(
        &mut self,
        new_origin: Vec<Vec4Bits>,
        new_direction: Vec<Vec4Bits>,
        new_throughput: Vec<Vec4Bits>,
    )
        requires
            old(self).wf(),
            new_origin@.len() == old(self).spec_pixel_count(),
            new_direction@.len() == old(self).spec_pixel_count(),
            new_throughput@.len() == old(self).spec_pixel_count(),
        ensures
            final(self).wf(),
            final(self).width == old(self).width,
            final(self).height == old(self).height,
            final(self).ray_origin@ == new_origin@,
            final(self).ray_direction@ == new_direction@,
            final(self).throughput@ == new_throughput@,
            final(self).rng_state@ == old(self).rng_state@,
            final(self).output@ == old(self).output@,
    {
        self.ray_origin = new_origin;
        self.ray_direction = new_direction;
        self.throughput = new_throughput;
    }

    /// One intersection dispatch: replaces the two ray-state buffers it
    /// binds read-write; throughput, generator state and the output
    /// accumulator are not bound, so they are untouched.
    pub fn apply_intersection(
        &mut self,
        new_origin: Vec<Vec4Bits>,
        new_direction: Vec<Vec4Bits>,
    )
        requires
            old(self).wf(),
            new_origin@.len() == old(self).spec_pixel_count(),
            new_direction@.len() == old(self).spec_pixel_count(),
        ensures
            final(self).wf(),
            final(self).width == old(self).width,
            final(self).height == old(self).height,
            final(self).ray_origin@ == new_origin@,
            final(self).ray_direction@ == new_direction@,
            final(self).throughput@ == old(self).throughput@,
            final(self).rng_state@ == old(self).rng_state@,
            final(self).output@ == old(self).output@,
    {
        self.ray_origin = new_origin;
        self.ray_direction = new_direction;
    }

    /// One shading dispatch: the only stage that binds the output
    /// accumulator, and it binds all five buffers read-write.
    pub fn apply_shading(
        &mut self,
        new_origin: Vec<Vec4Bits>,
        new_direction: Vec<Vec4Bits>,
        new_throughput: Vec<Vec4Bits>,
        new_rng_state: Vec<RngState>,
        new_output: Vec<Vec4Bits>,
    )
        requires
            old(self).wf(),
            new_origin@.len() == old(self).spec_pixel_count(),
            new_direction@.len() == old(self).spec_pixel_count(),
            new_throughput@.len() == old(self).spec_pixel_count(),
            new_rng_state@.len() == old(self).spec_pixel_count(),
            new_output@.len() == old(self).spec_pixel_count(),
        ensures
            final(self).wf(),
            final(self).width == old(self).width,
            final(self).height == old(self).height,
            final(self).ray_origin@ == new_origin@,
            final(self).ray_direction@ == new_direction@,
            final(self).throughput@ == new_throughput@,
            final(self).rng_state@ == new_rng_state@,
            final(self).output@ == new_output@,
    {
        self.ray_origin = new_origin;
        self.ray_direction = new_direction;
        self.throughput = new_throughput;
        self.rng_state = new_rng_state;
        self.output = new_output;
    }
}

/// Law: in a well-formed set, every shared buffer — and hence every buffer
/// any pipeline stage binds — holds exactly `width * height` elements, for
/// arbitrary sizes, and stays that length for the rest of the run, since
/// every dispatch preserves well-formedness.
pub proof fn lemma_buffers_sized_to_pixel_count(s: DeviceBufferSet, id: BufferId)
    requires
        s.wf(),
    ensures
        s.spec_buffer_len(id) == s.spec_pixel_count(),
{
}

} // verus!
