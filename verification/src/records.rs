//! Scene record encoding: fixed-layout records shared with the device
//! kernels. Every 32-bit lane of a device vector is stored here as its raw
//! bit pattern (`u32`), so a lane that carries an integer payload (a triangle
//! count or a node index packed into the unused fourth component of a
//! bounding-box vector) is read back exactly as it was written: the
//! reinterpretation between float storage and integer payload is the
//! identity on the raw bits, never a numeric conversion.
use vstd::prelude::*;

verus! {

/// Raw bit pattern of the IEEE-754 single-precision value `+infinity`.
pub const F32_INFINITY_BITS: u32 = 0x7f80_0000;

/// Raw bit pattern of the IEEE-754 single-precision value `-infinity`.
pub const F32_NEG_INFINITY_BITS: u32 = 0xff80_0000;

/// Two 32-bit lanes, each held as its raw bit pattern.
#[derive(Clone, Copy, PartialEq, Eq, Debug)]
pub struct Vec2Bits {
    pub x: u32,
    pub y: u32,
}

/// Three 32-bit lanes, each held as its raw bit pattern.
#[derive(Clone, Copy, PartialEq, Eq, Debug)]
pub struct Vec3Bits {
    pub x: u32,
    pub y: u32,
    pub z: u32,
}

/// Four 32-bit lanes, each held as its raw bit pattern.
#[derive(Clone, Copy, PartialEq, Eq, Debug)]
pub struct Vec4Bits {
    pub x: u32,
    pub y: u32,
    pub z: u32,
    pub w: u32,
}

impl Vec4Bits {
    /// The all-zero quadruple of lanes.
    pub fn zero() -> (r: Self)
        ensures
            r == (Vec4Bits { x: 0u32, y: 0u32, z: 0u32, w: 0u32 }),
    {
        Vec4Bits { x: 0, y: 0, z: 0, w: 0 }
    }

    /// Whether every lane holds the zero bit pattern.
    pub open spec fn is_zero(self) -> bool {
        self.x == 0 && self.y == 0 && self.z == 0 && self.w == 0
    }
}

/// Run parameters shared with the device kernels.
#[derive(Clone, Copy, PartialEq, Eq, Debug)]
pub struct TracingConfig {
    pub width: u32,
    pub height: u32,
    pub max_bounces: u32,
}

impl Default for TracingConfig {
    fn default() -> (r: Self)
        ensures
            r.width == 0,
            r.height == 0,
            r.max_bounces == 0,
    {
        TracingConfig { width: 0, height: 0, max_bounces: 0 }
    }
}

/// Material record. `albedo` is a tagged union: when the texture flag is
/// clear it holds an RGBA color, when set it holds atlas texture coordinates
/// packed into the same four lanes. The flag is stored as a 32-bit integer
/// that is always 0 or 1; the trailing padding rounds the record to the
/// 16-byte-aligned multiple the device buffer layout requires.
#[derive(Clone, Copy, PartialEq, Eq, Debug)]
pub struct MaterialData {
    pub albedo: Vec4Bits,
    has_albedo_texture: u32,
    padding0: u32,
    padding1: u32,
    padding2: u32,
}

impl MaterialData {
    /// The four albedo lanes: a color, or packed texture coordinates.
    pub closed spec fn spec_albedo(self) -> Vec4Bits {
        self.albedo
    }

    /// Whether the albedo lanes are to be read as texture coordinates.
    pub closed spec fn spec_has_albedo_texture(self) -> bool {
        self.has_albedo_texture != 0
    }

    /// The record after storing the texture flag.
    pub closed spec fn spec_with_albedo_flag(self, flag: bool) -> MaterialData {
        MaterialData { has_albedo_texture: if flag { 1u32 } else { 0u32 }, ..self }
    }

    /// The stored flag only ever holds 0 or 1.
    pub closed spec fn wf(self) -> bool {
        self.has_albedo_texture == 0 || self.has_albedo_texture == 1
    }

    pub fn has_albedo_texture(&self) -> (r: bool)
        ensures
            r == self.spec_has_albedo_texture(),
    {
        self.has_albedo_texture != 0
    }

    pub fn set_has_albedo_texture(&mut self, has_albedo_texture: bool)
        ensures
            *final(self) == old(self).spec_with_albedo_flag(has_albedo_texture),
            final(self).spec_has_albedo_texture() == has_albedo_texture,
            final(self).wf(),
            final(self).spec_albedo() == old(self).spec_albedo(),
    {
        self.has_albedo_texture = if has_albedo_texture { 1 } else { 0 };
    }
}

/// Law: the texture flag round-trips — storing either truth value and
/// reading it back observes that value exactly, the stored integer is again
/// 0 or 1, and the albedo lanes are untouched.
pub proof fn lemma_albedo_flag_round_trip(m: MaterialData, flag: bool)
    ensures
        m.spec_with_albedo_flag(flag).spec_has_albedo_texture() == flag,
        m.spec_with_albedo_flag(flag).wf(),
        m.spec_with_albedo_flag(flag).spec_albedo() == m.spec_albedo(),
{
}

impl Default for MaterialData {
    fn default() -> (r: Self)
        ensures
            r.spec_albedo().is_zero(),
            !r.spec_has_albedo_texture(),
            r.wf(),
    {
        MaterialData {
            albedo: Vec4Bits { x: 0, y: 0, z: 0, w: 0 },
            has_albedo_texture: 0,
            padding0: 0,
            padding1: 0,
            padding2: 0,
        }
    }
}

/// Per-vertex record: position (xyz, w reserved), normal, and two
/// independent UV sets for multi-layer texturing.
#[derive(Clone, Copy, PartialEq, Eq, Debug)]
pub struct PerVertexData {
    pub vertex: Vec4Bits,
    pub normal: Vec4Bits,
    pub uv0: Vec2Bits,
    pub uv1: Vec2Bits,
}

impl Default for PerVertexData {
    fn default() -> (r: Self)
        ensures
            r.vertex.is_zero(),
            r.normal.is_zero(),
            r.uv0 == (Vec2Bits { x: 0u32, y: 0u32 }),
            r.uv1 == (Vec2Bits { x: 0u32, y: 0u32 }),
    {
        PerVertexData {
            vertex: Vec4Bits { x: 0, y: 0, z: 0, w: 0 },
            normal: Vec4Bits { x: 0, y: 0, z: 0, w: 0 },
            uv0: Vec2Bits { x: 0, y: 0 },
            uv1: Vec2Bits { x: 0, y: 0 },
        }
    }
}

/// One node of the bounding-volume hierarchy, encoded as two four-lane
/// vectors. The fourth lane of `aabb_min` carries the triangle count (zero
/// means the node is internal, nonzero means it is a leaf); the fourth lane
/// of `aabb_max` carries the left-child index of an internal node or the
/// first-triangle index of a leaf — the same storage slot, told apart only
/// by the triangle count. Callers must consult `is_leaf` before choosing an
/// accessor; the encoding itself is total and never validates the choice.
#[derive(Clone, Copy, PartialEq, Eq, Debug)]
pub struct BVHNode {
    aabb_min: Vec4Bits,
    aabb_max: Vec4Bits,
}

impl BVHNode {
    /// The integer payload packed into the fourth lane of `aabb_min`.
    pub closed spec fn spec_triangle_count(self) -> u32 {
        self.aabb_min.w
    }

    /// The integer payload packed into the fourth lane of `aabb_max`:
    /// the left-child index of an internal node, the first-triangle index
    /// of a leaf.
    pub closed spec fn spec_payload(self) -> u32 {
        self.aabb_max.w
    }

    /// The box minimum, without the packed fourth lane.
    pub closed spec fn spec_aabb_min(self) -> Vec3Bits {
        Vec3Bits { x: self.aabb_min.x, y: self.aabb_min.y, z: self.aabb_min.z }
    }

    /// The box maximum, without the packed fourth lane.
    pub closed spec fn spec_aabb_max(self) -> Vec3Bits {
        Vec3Bits { x: self.aabb_max.x, y: self.aabb_max.y, z: self.aabb_max.z }
    }

    /// A node is a leaf exactly when it holds at least one triangle.
    pub open spec fn spec_is_leaf(self) -> bool {
        self.spec_triangle_count() != 0
    }

    /// The node after storing a triangle count in its packed lane.
    pub closed spec fn spec_with_triangle_count(self, count: u32) -> BVHNode {
        BVHNode { aabb_min: Vec4Bits { w: count, ..self.aabb_min }, ..self }
    }

    /// The node after storing an index — a left-child index or a
    /// first-triangle index, the one packed slot — in its packed lane.
    pub closed spec fn spec_with_payload(self, index: u32) -> BVHNode {
        BVHNode { aabb_max: Vec4Bits { w: index, ..self.aabb_max }, ..self }
    }

    pub fn triangle_count(&self) -> (r: u32)
        ensures
            r == self.spec_triangle_count(),
    {
        self.aabb_min.w
    }

    /// Index of the left child of an internal node. Meaningful only when
    /// `!is_leaf()`; the read itself is total.
    pub fn left_node_index(&self) -> (r: u32)
        ensures
            r == self.spec_payload(),
    {
        self.aabb_max.w
    }

    /// Index of the right child of an internal node: always the slot right
    /// after the left child, since siblings are stored contiguously and no
    /// explicit right-child pointer exists.
    pub fn right_node_index(&self) -> (r: u32)
        requires
            self.spec_payload() < u32::MAX,
        ensures
            r == self.spec_payload() + 1,
    {
        self.left_node_index() + 1
    }

    /// Index of the first triangle of a leaf. Meaningful only when
    /// `is_leaf()`; the read itself is total.
    pub fn first_triangle_index(&self) -> (r: u32)
        ensures
            r == self.spec_payload(),
    {
        self.aabb_max.w
    }

    pub fn aabb_min(&self) -> (r: Vec3Bits)
        ensures
            r == self.spec_aabb_min(),
    {
        Vec3Bits { x: self.aabb_min.x, y: self.aabb_min.y, z: self.aabb_min.z }
    }

    pub fn aabb_max(&self) -> (r: Vec3Bits)
        ensures
            r == self.spec_aabb_max(),
    {
        Vec3Bits { x: self.aabb_max.x, y: self.aabb_max.y, z: self.aabb_max.z }
    }

    pub fn is_leaf(&self) -> (r: bool)
        ensures
            r == self.spec_is_leaf(),
    {
        self.triangle_count() > 0
    }

    /// Stores `triangle_count` bit-exactly in the packed lane; every other
    /// lane of the node is untouched.
    pub fn set_triangle_count(&mut self, triangle_count: u32)
        ensures
            *final(self) == old(self).spec_with_triangle_count(triangle_count),
            final(self).spec_triangle_count() == triangle_count,
            final(self).spec_payload() == old(self).spec_payload(),
            final(self).spec_aabb_min() == old(self).spec_aabb_min(),
            final(self).spec_aabb_max() == old(self).spec_aabb_max(),
    {
        self.aabb_min.w = triangle_count;
    }

    /// Stores `left_node_index` bit-exactly in the packed lane; every other
    /// lane of the node is untouched.
    pub fn set_left_node_index(&mut self, left_node_index: u32)
        ensures
            *final(self) == old(self).spec_with_payload(left_node_index),
            final(self).spec_payload() == left_node_index,
            final(self).spec_triangle_count() == old(self).spec_triangle_count(),
            final(self).spec_aabb_min() == old(self).spec_aabb_min(),
            final(self).spec_aabb_max() == old(self).spec_aabb_max(),
    {
        self.aabb_max.w = left_node_index;
    }

    /// Stores `first_triangle_index` bit-exactly in the packed lane; every
    /// other lane of the node is untouched.
    pub fn set_first_triangle_index(&mut self, first_triangle_index: u32)
        ensures
            *final(self) == old(self).spec_with_payload(first_triangle_index),
            final(self).spec_payload() == first_triangle_index,
            final(self).spec_triangle_count() == old(self).spec_triangle_count(),
            final(self).spec_aabb_min() == old(self).spec_aabb_min(),
            final(self).spec_aabb_max() == old(self).spec_aabb_max(),
    {
        self.aabb_max.w = first_triangle_index;
    }

    /// Replaces the box minimum; the packed triangle count is untouched.
    pub fn set_aabb_min(&mut self, aabb_min: &Vec3Bits)
        ensures
            final(self).spec_aabb_min() == *aabb_min,
            final(self).spec_triangle_count() == old(self).spec_triangle_count(),
            final(self).spec_payload() == old(self).spec_payload(),
            final(self).spec_aabb_max() == old(self).spec_aabb_max(),
    {
        self.aabb_min.x = aabb_min.x;
        self.aabb_min.y = aabb_min.y;
        self.aabb_min.z = aabb_min.z;
    }

    /// Replaces the box maximum; the packed index payload is untouched.
    pub fn set_aabb_max(&mut self, aabb_max: &Vec3Bits)
        ensures
            final(self).spec_aabb_max() == *aabb_max,
            final(self).spec_triangle_count() == old(self).spec_triangle_count(),
            final(self).spec_payload() == old(self).spec_payload(),
            final(self).spec_aabb_min() == old(self).spec_aabb_min(),
    {
        self.aabb_max.x = aabb_max.x;
        self.aabb_max.y = aabb_max.y;
        self.aabb_max.z = aabb_max.z;
    }
}

/// Law: the packed triangle count round-trips bit-exactly — storing any
/// representable count and reading it back yields the original value, and
/// no other lane of the node moves.
pub proof fn lemma_triangle_count_round_trip(node: BVHNode, count: u32)
    ensures
        node.spec_with_triangle_count(count).spec_triangle_count() == count,
        node.spec_with_triangle_count(count).spec_payload() == node.spec_payload(),
        node.spec_with_triangle_count(count).spec_aabb_min() == node.spec_aabb_min(),
        node.spec_with_triangle_count(count).spec_aabb_max() == node.spec_aabb_max(),
{
}

/// Law: the packed index round-trips bit-exactly — storing any representable
/// left-child or first-triangle index and reading it back yields the
/// original value, and no other lane of the node moves.
pub proof fn lemma_packed_index_round_trip(node: BVHNode, index: u32)
    ensures
        node.spec_with_payload(index).spec_payload() == index,
        node.spec_with_payload(index).spec_triangle_count() == node.spec_triangle_count(),
        node.spec_with_payload(index).spec_aabb_min() == node.spec_aabb_min(),
        node.spec_with_payload(index).spec_aabb_max() == node.spec_aabb_max(),
{
}

impl Default for BVHNode {
    /// The empty placeholder node: an inverted box (`+infinity` minimum,
    /// `-infinity` maximum) that any real geometry expands under min/max
    /// folding, holding no triangles and a zero index payload.
    fn default() -> (r: Self)
        ensures
            r.spec_triangle_count() == 0,
            r.spec_payload() == 0,
            r.spec_aabb_min() == (Vec3Bits {
                x: F32_INFINITY_BITS,
                y: F32_INFINITY_BITS,
                z: F32_INFINITY_BITS,
            }),
            r.spec_aabb_max() == (Vec3Bits {
                x: F32_NEG_INFINITY_BITS,
                y: F32_NEG_INFINITY_BITS,
                z: F32_NEG_INFINITY_BITS,
            }),
            !r.spec_is_leaf(),
    {
        BVHNode {
            aabb_min: Vec4Bits {
                x: F32_INFINITY_BITS,
                y: F32_INFINITY_BITS,
                z: F32_INFINITY_BITS,
                w: 0,
            },
            aabb_max: Vec4Bits {
                x: F32_NEG_INFINITY_BITS,
                y: F32_NEG_INFINITY_BITS,
                z: F32_NEG_INFINITY_BITS,
                w: 0,
            },
        }
    }
}

} // verus!
