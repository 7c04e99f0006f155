//! Collision layers and the body settings that the physics world is given.
//!
//! Object layers are the physics engine's `u16` layer ids, broad-phase layers
//! its `u8` ones, and motion types its `u8` motion-type codes.
use vstd::prelude::*;

verus! {

/// Object layer of bodies that never move.
pub const OL_NON_MOVING: u16 = 0;

/// Object layer of bodies that move.
pub const OL_MOVING: u16 = 1;

/// Broad-phase layer of bodies that never move.
pub const BPL_NON_MOVING: u8 = 0;

/// Broad-phase layer of bodies that move.
pub const BPL_MOVING: u8 = 1;

/// Number of broad-phase layers.
pub const BPL_COUNT: u8 = 2;

/// Motion-type code of a static body.
pub const MOTION_TYPE_STATIC: u8 = 0;

/// Motion-type code of a kinematic body.
pub const MOTION_TYPE_KINEMATIC: u8 = 1;

/// Motion-type code of a dynamic body.
pub const MOTION_TYPE_DYNAMIC: u8 = 2;

/// An object layer this world knows.
pub open spec fn valid_object_layer(layer: u16) -> bool {
    layer == OL_NON_MOVING || layer == OL_MOVING
}

/// The broad-phase layer that holds an object layer.
pub open spec fn broad_phase_of(layer: u16) -> u8 {
    if layer == OL_NON_MOVING {
        BPL_NON_MOVING
    } else {
        BPL_MOVING
    }
}

/// Whether two object layers may collide: at least one of them moves.
pub open spec fn layers_collide(layer1: u16, layer2: u16) -> bool {
    layer1 == OL_MOVING || layer2 == OL_MOVING
}

/// Whether an object layer may meet a broad-phase layer: a moving object
/// meets every broad-phase layer, a non-moving one only the moving layer.
pub open spec fn meets_broad_phase(layer: u16, bpl: u8) -> bool {
    layer == OL_MOVING || bpl == BPL_MOVING
}

/// Maps object layers onto broad-phase layers.
pub struct BroadPhaseLayers;

impl BroadPhaseLayers {
    /// The number of broad-phase layers.
    pub fn get_num_broad_phase_layers(&self) -> (count: u32)
        ensures
            count == BPL_COUNT,
    {
        BPL_COUNT as u32
    }

    /// The broad-phase layer of an object layer.
    pub fn get_broad_phase_layer(&self, layer: u16) -> (bpl: u8)
        requires
            valid_object_layer(layer),
        ensures
            bpl == broad_phase_of(layer),
    {
        if layer == OL_NON_MOVING {
            BPL_NON_MOVING
        } else {
            BPL_MOVING
        }
    }
}

/// Decides whether an object layer may collide with a broad-phase layer.
pub struct ObjectVsBroadPhase;

impl ObjectVsBroadPhase {
    /// A non-moving object meets only the moving broad-phase layer; a moving
    /// object meets every broad-phase layer.
    pub fn should_collide(&self, layer1: u16, layer2: u8) -> (collide: bool)
        requires
            valid_object_layer(layer1),
        ensures
            collide == meets_broad_phase(layer1, layer2),
    {
        if layer1 == OL_NON_MOVING {
            layer2 == BPL_MOVING
        } else {
            true
        }
    }
}

/// Decides whether two object layers may collide.
pub struct ObjectLayerPair;

impl ObjectLayerPair {
    /// A non-moving object meets only moving objects; a moving object meets
    /// every object.
    pub fn should_collide(&self, layer1: u16, layer2: u16) -> (collide: bool)
        requires
            valid_object_layer(layer1),
        ensures
            collide == layers_collide(layer1, layer2),
    {
        if layer1 == OL_NON_MOVING {
            layer2 == OL_MOVING
        } else {
            true
        }
    }
}

/// The object layer of a body with the given motion type: static bodies
/// go on the non-moving layer, every other motion type on the moving one.
pub fn object_layer_for(motion_type: u8) -> (layer: u16)
    ensures
        layer == (if motion_type == MOTION_TYPE_STATIC { OL_NON_MOVING } else { OL_MOVING }),
{
    if motion_type == MOTION_TYPE_STATIC {
        OL_NON_MOVING
    } else {
        OL_MOVING
    }
}

/// The shape of a physics body, by kind alone.
#[derive(Clone, Copy, Debug, PartialEq, Eq, Structural)]
pub enum ShapeClass {
    Cube,
    Box,
    Sphere,
    Capsule,
}

/// What the physics world is told of a new body.
#[derive(Clone, Copy, Debug, PartialEq, Eq, Structural)]
pub struct BodySettings {
    /// The motion-type code the body is created with.
    pub motion_type: u8,
    /// The object layer the body is put on.
    pub object_layer: u16,
}

/// The motion type that a body builder is asked for when a body of the
/// given shape is added as a kinematic body.
pub open spec fn kinematic_request(shape: ShapeClass) -> u8 {
    MOTION_TYPE_KINEMATIC
}

/// The motion type that a body builder is asked for when a body of the
/// given shape is added as a dynamic body: capsules are asked to be
/// kinematic, every other shape dynamic.
pub open spec fn dynamic_request(shape: ShapeClass) -> u8 {
    if shape == ShapeClass::Capsule {
        MOTION_TYPE_KINEMATIC
    } else {
        MOTION_TYPE_DYNAMIC
    }
}

/// What a body builder creates when asked for a shape and a motion type:
/// spheres are always created dynamic, other shapes with the motion type
/// asked for; the object layer follows the motion type asked for.
pub open spec fn built_settings(shape: ShapeClass, requested: u8) -> BodySettings {
    BodySettings {
        motion_type: if shape == ShapeClass::Sphere { MOTION_TYPE_DYNAMIC } else { requested },
        object_layer: if requested == MOTION_TYPE_STATIC { OL_NON_MOVING } else { OL_MOVING },
    }
}

/// The settings of a body built for `shape` when the builder is asked for
/// the motion type `requested`.
pub fn build_settings(shape: ShapeClass, requested: u8) -> (settings: BodySettings)
    ensures
        settings == built_settings(shape, requested),
        shape != ShapeClass::Sphere ==> settings.motion_type == requested,
        shape == ShapeClass::Sphere ==> settings.motion_type == MOTION_TYPE_DYNAMIC,
        requested == MOTION_TYPE_STATIC ==> settings.object_layer == OL_NON_MOVING,
        requested != MOTION_TYPE_STATIC ==> settings.object_layer == OL_MOVING,
{
    let object_layer = object_layer_for(requested);
    let motion_type = match shape {
        ShapeClass::Sphere => MOTION_TYPE_DYNAMIC,
        _ => requested,
    };
    BodySettings { motion_type, object_layer }
}

/// The motion type a body builder is asked for when a body is added as a
/// kinematic body.
pub fn kinematic_body_motion(shape: ShapeClass) -> (motion_type: u8)
    ensures
        motion_type == kinematic_request(shape),
{
    MOTION_TYPE_KINEMATIC
}

/// The motion type a body builder is asked for when a body is added as a
/// dynamic body.
pub fn dynamic_body_motion(shape: ShapeClass) -> (motion_type: u8)
    ensures
        motion_type == dynamic_request(shape),
{
    match shape {
        ShapeClass::Capsule => MOTION_TYPE_KINEMATIC,
        _ => MOTION_TYPE_DYNAMIC,
    }
}

/// A body builder keeps the motion type it is asked for, whatever it is,
/// for every shape but the sphere, which it always builds dynamic; the body
/// goes on the non-moving layer exactly when it was asked to be static.
pub proof fn lemma_builder_keeps_requested_motion(shape: ShapeClass, requested: u8)
    ensures
        shape != ShapeClass::Sphere ==> built_settings(shape, requested).motion_type == requested,
        shape == ShapeClass::Sphere ==> built_settings(shape, requested).motion_type
            == MOTION_TYPE_DYNAMIC,
        (built_settings(shape, requested).object_layer == OL_NON_MOVING) == (requested
            == MOTION_TYPE_STATIC),
        built_settings(shape, requested).object_layer == OL_NON_MOVING || built_settings(
            shape,
            requested,
        ).object_layer == OL_MOVING,
{
}

/// Every broad-phase layer that an object layer maps to is below the
/// number of broad-phase layers.
pub proof fn lemma_broad_phase_in_range(layer: u16)
    requires
        valid_object_layer(layer),
    ensures
        broad_phase_of(layer) < BPL_COUNT,
{
}

/// Whether two object layers may collide does not depend on their order.
pub proof fn lemma_pair_filter_symmetric(layer1: u16, layer2: u16)
    requires
        valid_object_layer(layer1),
        valid_object_layer(layer2),
    ensures
        layers_collide(layer1, layer2) == layers_collide(layer2, layer1),
{
}

/// The object-versus-broad-phase filter agrees with the object-pair filter:
/// an object may meet a broad-phase layer exactly when it may meet the
/// objects in it.
pub proof fn lemma_broad_phase_filter_agrees(layer1: u16, layer2: u16)
    requires
        valid_object_layer(layer1),
        valid_object_layer(layer2),
    ensures
        meets_broad_phase(layer1, broad_phase_of(layer2)) == layers_collide(layer1, layer2),
{
}

/// Two non-moving objects never collide, and a moving object collides with
/// every object.
pub proof fn lemma_moving_meets_all(layer: u16)
    requires
        valid_object_layer(layer),
    ensures
        !layers_collide(OL_NON_MOVING, OL_NON_MOVING),
        layers_collide(OL_MOVING, layer),
        layers_collide(layer, OL_MOVING),
{
}

/// Every body added to the world, kinematic or dynamic and of any shape,
/// is put on the moving object layer and is not static, so any two such
/// bodies may collide.
pub proof fn lemma_added_bodies_move(shape: ShapeClass, other: ShapeClass, dynamic: bool, other_dynamic: bool)
    ensures
        ({
            let s = if dynamic {
                built_settings(shape, dynamic_request(shape))
            } else {
                built_settings(shape, kinematic_request(shape))
            };
            let t = if other_dynamic {
                built_settings(other, dynamic_request(other))
            } else {
                built_settings(other, kinematic_request(other))
            };
            &&& s.object_layer == OL_MOVING
            &&& s.motion_type != MOTION_TYPE_STATIC
            &&& layers_collide(s.object_layer, t.object_layer)
        }),
{
}

} // verus!
