use murdertime_5000::physics::{
    build_settings, dynamic_body_motion, kinematic_body_motion, object_layer_for,
    BodySettings, BroadPhaseLayers, ObjectLayerPair, ObjectVsBroadPhase, ShapeClass, BPL_COUNT,
    BPL_MOVING, BPL_NON_MOVING, MOTION_TYPE_DYNAMIC, MOTION_TYPE_KINEMATIC, MOTION_TYPE_STATIC,
    OL_MOVING, OL_NON_MOVING,
};

#[test]
fn broad_phase_layer_count_is_two() {
    assert_eq!(BroadPhaseLayers.get_num_broad_phase_layers(), 2);
    assert_eq!(BPL_COUNT, 2);
}

#[test]
fn object_layers_map_to_their_broad_phase_layers() {
    assert_eq!(BroadPhaseLayers.get_broad_phase_layer(OL_NON_MOVING), BPL_NON_MOVING);
    assert_eq!(BroadPhaseLayers.get_broad_phase_layer(OL_MOVING), BPL_MOVING);
}

#[test]
fn non_moving_objects_meet_only_moving_ones() {
    let pair = ObjectLayerPair;
    assert!(!pair.should_collide(OL_NON_MOVING, OL_NON_MOVING));
    assert!(pair.should_collide(OL_NON_MOVING, OL_MOVING));
    assert!(pair.should_collide(OL_MOVING, OL_NON_MOVING));
    assert!(pair.should_collide(OL_MOVING, OL_MOVING));
}

#[test]
fn broad_phase_filter_agrees_with_pair_filter() {
    for l1 in [OL_NON_MOVING, OL_MOVING] {
        for l2 in [OL_NON_MOVING, OL_MOVING] {
            let bpl = BroadPhaseLayers.get_broad_phase_layer(l2);
            assert_eq!(
                ObjectVsBroadPhase.should_collide(l1, bpl),
                ObjectLayerPair.should_collide(l1, l2)
            );
            assert_eq!(
                ObjectLayerPair.should_collide(l1, l2),
                ObjectLayerPair.should_collide(l2, l1)
            );
        }
    }
}

#[test]
fn only_static_bodies_go_on_the_non_moving_layer() {
    assert_eq!(object_layer_for(MOTION_TYPE_STATIC), OL_NON_MOVING);
    assert_eq!(object_layer_for(MOTION_TYPE_KINEMATIC), OL_MOVING);
    assert_eq!(object_layer_for(MOTION_TYPE_DYNAMIC), OL_MOVING);
}

#[test]
fn spheres_are_always_built_dynamic() {
    assert_eq!(
        build_settings(ShapeClass::Sphere, MOTION_TYPE_STATIC),
        BodySettings { motion_type: MOTION_TYPE_DYNAMIC, object_layer: OL_NON_MOVING }
    );
    assert_eq!(
        build_settings(ShapeClass::Box, MOTION_TYPE_STATIC),
        BodySettings { motion_type: MOTION_TYPE_STATIC, object_layer: OL_NON_MOVING }
    );
}

#[test]
fn kinematic_bodies_are_kinematic_except_spheres() {
    for shape in [ShapeClass::Cube, ShapeClass::Box, ShapeClass::Capsule] {
        assert_eq!(kinematic_body_motion(shape), MOTION_TYPE_KINEMATIC);
        assert_eq!(
            build_settings(shape, kinematic_body_motion(shape)),
            BodySettings { motion_type: MOTION_TYPE_KINEMATIC, object_layer: OL_MOVING }
        );
    }
    assert_eq!(
        build_settings(ShapeClass::Sphere, kinematic_body_motion(ShapeClass::Sphere)),
        BodySettings { motion_type: MOTION_TYPE_DYNAMIC, object_layer: OL_MOVING }
    );
}

#[test]
fn dynamic_capsules_are_made_kinematic() {
    assert_eq!(dynamic_body_motion(ShapeClass::Capsule), MOTION_TYPE_KINEMATIC);
    assert_eq!(
        build_settings(ShapeClass::Capsule, dynamic_body_motion(ShapeClass::Capsule)),
        BodySettings { motion_type: MOTION_TYPE_KINEMATIC, object_layer: OL_MOVING }
    );
    for shape in [ShapeClass::Cube, ShapeClass::Box, ShapeClass::Sphere] {
        assert_eq!(dynamic_body_motion(shape), MOTION_TYPE_DYNAMIC);
        assert_eq!(
            build_settings(shape, dynamic_body_motion(shape)),
            BodySettings { motion_type: MOTION_TYPE_DYNAMIC, object_layer: OL_MOVING }
        );
    }
}
