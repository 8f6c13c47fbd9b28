use fj_core::geometry::{GlobalPath, SurfaceGeom};
use fj_core::intersect::{surface_surface, Line3, PlaneConstantNormal, PlaneParametric};
use fj_core::math::{Vector3, Wide3};

#[test]
fn plane_plane() {
    let xy = SurfaceGeom::xy_plane();
    let xz = SurfaceGeom::xz_plane();

    assert_eq!(surface_surface(&xy, &xy), None);
    assert_eq!(
        surface_surface(&xy, &xy.translate(Vector3::new(0, 0, 1))),
        None,
    );
    assert_eq!(surface_surface(&xy, &xz), Some(Line3::x_axis()));
}

#[test]
fn parallel_planes_in_general_position_do_not_meet() {
    let tilted = SurfaceGeom {
        u: GlobalPath::Line {
            origin: Vector3::new(1, 2, 3),
            direction: Vector3::new(1, 1, 0),
        },
        v: Vector3::new(0, 1, 1),
    };
    assert_eq!(surface_surface(&tilted, &tilted), None);
    let moved = tilted.translate(Vector3::new(5, -7, 11));
    assert_eq!(surface_surface(&tilted, &moved), None);
    // The same plane, spanned by other vectors.
    let respanned = SurfaceGeom {
        u: GlobalPath::Line {
            origin: Vector3::new(1, 2, 3),
            direction: Vector3::new(1, 2, 1),
        },
        v: Vector3::new(2, 3, 1),
    };
    assert_eq!(surface_surface(&tilted, &respanned), None);
}

#[test]
fn offset_planes_meet_in_offset_line() {
    // z = 2 and y = 3 meet in the line through (0, 3, 2) along x.
    let xy = SurfaceGeom::xy_plane().translate(Vector3::new(0, 0, 2));
    let xz = SurfaceGeom::xz_plane().translate(Vector3::new(0, 3, 0));
    let line = surface_surface(&xy, &xz).unwrap();
    assert_eq!(line.direction, Wide3 { x: 1, y: 0, z: 0 });
    assert_eq!(line.origin_denom, 1);
    assert_eq!(line.origin, Wide3 { x: 0, y: 3, z: 2 });
}

#[test]
fn yz_and_xy_meet_along_y() {
    let yz = SurfaceGeom::yz_plane();
    let xy = SurfaceGeom::xy_plane();
    let line = surface_surface(&xy, &yz).unwrap();
    // normal(xy) = (0, 0, 1), normal(yz) = (1, 0, 0); their cross product.
    assert_eq!(line.direction, Wide3 { x: 0, y: 1, z: 0 });
    assert_eq!(line.origin, Wide3 { x: 0, y: 0, z: 0 });
}

#[test]
fn constant_normal_form() {
    let surface = SurfaceGeom::xy_plane().translate(Vector3::new(0, 0, 4));
    let parametric = PlaneParametric::extract_from_surface(&surface);
    assert_eq!(parametric.origin, Vector3::new(0, 0, 4));
    let plane = PlaneConstantNormal::from_parametric_plane(&parametric);
    assert_eq!(plane.normal, Wide3 { x: 0, y: 0, z: 1 });
    assert_eq!(plane.distance, 4);
}
