use sandbox3d::geometry::{inters, AABB};
use sandbox3d::matrix::Matrix4D;
use sandbox3d::models::CModel;
use sandbox3d::physical_object::CPhysicalObject;
use sandbox3d::shell::CShell;
use sandbox3d::vec3::Vector3D;

fn unit_cube_object() -> CPhysicalObject {
    CPhysicalObject::new(&CModel::cube(Vector3D::new(1000, 1000, 1000)), 1000)
}

#[test]
fn aabb_from_cloud_and_transform() {
    let coords = vec![
        Vector3D::new(-500, -500, -500),
        Vector3D::new(500, 500, 500),
        Vector3D::new(0, 0, 0),
    ];
    let bb = AABB::new(&coords, Matrix4D::Translation(&Vector3D::new(1000, 0, 0)));
    assert_eq!(bb.minV, Vector3D::new(500, -500, -500));
    assert_eq!(bb.maxV, Vector3D::new(1500, 500, 500));
}

#[test]
fn aabb_intersection_is_symmetric() {
    let a = AABB {
        minV: Vector3D::new(0, 0, 0),
        maxV: Vector3D::new(2000, 2000, 2000),
    };
    let b = AABB {
        minV: Vector3D::new(1000, 1000, 1000),
        maxV: Vector3D::new(3000, 3000, 3000),
    };
    let c = AABB {
        minV: Vector3D::new(5000, 5000, 5000),
        maxV: Vector3D::new(6000, 6000, 6000),
    };
    assert_eq!(a.intersect_with(&b), b.intersect_with(&a));
    assert!(a.intersect_with(&b));
    assert_eq!(a.intersect_with(&c), c.intersect_with(&a));
    assert!(!a.intersect_with(&c));
}

#[test]
fn aabb_touching_boxes_do_not_intersect() {
    // share exactly the x = 2000 boundary plane
    let a = AABB {
        minV: Vector3D::new(0, 0, 0),
        maxV: Vector3D::new(2000, 2000, 2000),
    };
    let b = AABB {
        minV: Vector3D::new(2000, 0, 0),
        maxV: Vector3D::new(4000, 2000, 2000),
    };
    assert!(!a.intersect_with(&b));
    assert!(!b.intersect_with(&a));
}

#[test]
fn shell_touching_counts_as_overlap() {
    let a = CShell::new(
        Vector3D::new(1000, 1000, 1000),
        Vector3D::new(0, 0, 0),
        Vector3D::new(1000, 1000, 1000),
    );
    let b = CShell::new(
        Vector3D::new(1000, 1000, 1000),
        Vector3D::new(2000, 0, 0),
        Vector3D::new(1000, 1000, 1000),
    );
    assert!(a.inters(&b));
}

#[test]
fn integrator_formula_exact() {
    // p' = p + v t + a t^2 / 2 with a = power / weight
    let mut o = unit_cube_object();
    o.movable = true;
    o.position = Vector3D::new(1000, 2000, 3000);
    o.speed = Vector3D::new(1000, 0, 0);
    o.power = Vector3D::new(0, -9800, 0);
    o.update(1000);
    assert_eq!(o.old_position, Vector3D::new(1000, 2000, 3000));
    assert_eq!(o.position, Vector3D::new(2000, 2000 - 4900, 3000));
    assert_eq!(o.speed, Vector3D::new(1000, -9800, 0));

    // the same inputs give the same outputs, tick after tick
    let mut o2 = unit_cube_object();
    o2.movable = true;
    o2.position = Vector3D::new(1000, 2000, 3000);
    o2.speed = Vector3D::new(1000, 0, 0);
    o2.power = Vector3D::new(0, -9800, 0);
    o2.update(1000);
    assert_eq!(o2.position, o.position);
    assert_eq!(o2.speed, o.speed);
}

#[test]
fn zero_dt_is_accepted() {
    let mut o = unit_cube_object();
    o.movable = true;
    o.position = Vector3D::new(500, 500, 500);
    o.speed = Vector3D::new(7000, 0, 0);
    o.update(0);
    assert_eq!(o.position, Vector3D::new(500, 500, 500));
    assert_eq!(o.old_position, Vector3D::new(500, 500, 500));
    o.rollback();
    assert_eq!(o.position, Vector3D::new(500, 500, 500));
}

#[test]
fn rollback_restores_pre_tick_position() {
    let mut o = unit_cube_object();
    o.movable = true;
    o.position = Vector3D::new(100, 200, 300);
    o.speed = Vector3D::new(4000, 5000, 6000);
    o.update(250);
    assert_ne!(o.position, Vector3D::new(100, 200, 300));
    o.rollback();
    assert_eq!(o.position, Vector3D::new(100, 200, 300));
    // a second rollback changes nothing more
    o.rollback();
    assert_eq!(o.position, Vector3D::new(100, 200, 300));
    // speed is kept
    assert_eq!(o.speed, Vector3D::new(4000, 5000, 6000));
}

#[test]
fn static_objects_ignore_pushes_but_keep_drifting() {
    let mut o = unit_cube_object();
    assert!(!o.movable);
    o.speed = Vector3D::new(2000, 0, 0);
    o.add_speed(&Vector3D::new(9000, 9000, 9000));
    o.add_power(&Vector3D::new(9000, 9000, 9000));
    assert_eq!(o.speed, Vector3D::new(2000, 0, 0));
    assert_eq!(o.power, Vector3D::new(0, 0, 0));
    // the stored speed still moves it
    o.update(500);
    assert_eq!(o.position, Vector3D::new(1000, 0, 0));
    // and the speed did not change from the tick either
    assert_eq!(o.speed, Vector3D::new(2000, 0, 0));
}

#[test]
fn movable_objects_accumulate_pushes() {
    let mut o = unit_cube_object();
    o.movable = true;
    o.add_speed(&Vector3D::new(100, 0, 0));
    o.add_speed(&Vector3D::new(50, 0, 0));
    o.add_power(&Vector3D::new(0, -500, 0));
    assert_eq!(o.speed, Vector3D::new(150, 0, 0));
    assert_eq!(o.power, Vector3D::new(0, -500, 0));
    o.init();
    assert_eq!(o.power, Vector3D::new(0, 0, 0));
}

#[test]
fn object_size_follows_model() {
    let o = unit_cube_object();
    // the unit cube spans one unit along each axis
    assert_eq!(o.size, Vector3D::new(1000, 1000, 1000));
    assert_eq!(o.coords.len(), 8);
    assert_eq!(o.inds.len(), 36);
    assert_eq!(o.weight, 1000);
}

#[test]
fn world_space_collision_respects_position() {
    let mut a = unit_cube_object();
    let mut b = unit_cube_object();
    // apart: no overlap
    a.position = Vector3D::new(0, 0, 0);
    b.position = Vector3D::new(5000, 0, 0);
    assert!(!a.intersect_with(&b));
    // overlapping
    b.position = Vector3D::new(500, 0, 0);
    assert!(a.intersect_with(&b));
    assert!(b.intersect_with(&a));
    // scale pushes the boundary out
    b.position = Vector3D::new(5000, 0, 0);
    b.scale = Vector3D::new(10000, 1000, 1000);
    assert!(a.intersect_with(&b));
}
