use ray_tracer::computations::{toggle, Computation};
use ray_tracer::intersections::{hit, intersections, Intersection};
use ray_tracer::scalar::ONE;
use ray_tracer::shape::{Shape, Sphere};
use ray_tracer::tuple::Tuple;

fn b(x: f32) -> u32 {
    x.to_bits()
}

fn dot(a: [f32; 3], c: [f32; 3]) -> f32 {
    a[0] * c[0] + a[1] * c[1] + a[2] * c[2]
}

/// The crossings of a ray with a sphere: the quadratic is solved here, the
/// library decides what its roots amount to.
fn sphere_crossings(s: &Sphere, origin: [f32; 3], direction: [f32; 3]) -> Vec<Intersection> {
    let a = dot(direction, direction);
    let bq = 2.0 * dot(direction, origin);
    let c = dot(origin, origin) - 1.0;
    let discriminant = bq * bq - 4.0 * a * c;
    s.intersect(
        b(discriminant),
        b((-bq - discriminant.sqrt()) / (2.0 * a)),
        b((-bq + discriminant.sqrt()) / (2.0 * a)),
    )
}

#[test]
fn test_creating_intersection() {
    let s = Shape::Sphere(Sphere::new());
    let i = Intersection::new(b(3.5), s);
    assert_eq!(i.t, b(3.5));
    assert_eq!(i.s, s);
}

#[test]
fn test_intersecting_sphere_two_points() {
    let sphere = Sphere::new();
    let xs = sphere_crossings(&sphere, [0.0, 0.0, -5.0], [0.0, 0.0, 1.0]);
    assert_eq!(xs.len(), 2);
    assert_eq!(xs[0].t, b(4.0));
    assert_eq!(xs[1].t, b(6.0));
    assert_eq!(xs[0].s, Shape::Sphere(sphere));
}

#[test]
fn test_intersecting_sphere_tangent() {
    let sphere = Sphere::new();
    let xs = sphere_crossings(&sphere, [0.0, 1.0, -5.0], [0.0, 0.0, 1.0]);
    assert_eq!(xs.len(), 2);
    assert_eq!(xs[0].t, b(5.0));
    assert_eq!(xs[1].t, b(5.0));
    assert_eq!(xs[0].s, Shape::Sphere(sphere));
}

#[test]
fn test_no_intersection() {
    let sphere = Sphere::new();
    let xs = sphere_crossings(&sphere, [0.0, 2.0, -5.0], [0.0, 0.0, 1.0]);
    assert_eq!(xs.len(), 0);
}

#[test]
fn test_intersecting_inside_sphere() {
    let sphere = Sphere::new();
    let xs = sphere_crossings(&sphere, [0.0, 0.0, 0.0], [0.0, 0.0, 1.0]);
    assert_eq!(xs.len(), 2);
    assert_eq!(xs[0].t, b(-1.0));
    assert_eq!(xs[1].t, b(1.0));
    assert_eq!(xs[0].s, Shape::Sphere(sphere));
}

#[test]
fn test_sphere_behind_ray() {
    let sphere = Sphere::new();
    let xs = sphere_crossings(&sphere, [0.0, 0.0, 5.0], [0.0, 0.0, 1.0]);
    assert_eq!(xs.len(), 2);
    assert_eq!(xs[0].t, b(-6.0));
    assert_eq!(xs[1].t, b(-4.0));
}

#[test]
fn test_scaled_sphere() {
    // a sphere scaled by two sees the ray at half its size
    let sphere = Sphere::new();
    let xs = sphere_crossings(&sphere, [0.0, 0.0, -2.5], [0.0, 0.0, 0.5]);
    assert_eq!(xs.len(), 2);
    assert_eq!(xs[0].t, b(3.0));
    assert_eq!(xs[1].t, b(7.0));
}

#[test]
fn test_translated_sphere() {
    // a sphere moved by five along x sees the ray moved back by five
    let sphere = Sphere::new();
    let xs = sphere_crossings(&sphere, [-5.0, 0.0, -5.0], [0.0, 0.0, 1.0]);
    assert_eq!(xs.len(), 0);
}

#[test]
fn sphere_roots_come_out_in_order() {
    let sphere = Sphere::new();
    let xs = sphere.intersect(b(4.0), b(6.0), b(4.0));
    assert_eq!(xs.len(), 2);
    assert_eq!(xs[0].t, b(4.0));
    assert_eq!(xs[1].t, b(6.0));
    assert_eq!(sphere.intersect(b(-0.5), b(1.0), b(2.0)).len(), 0);
    assert_eq!(sphere.intersect(b(0.0), b(5.0), b(5.0)).len(), 2);
    assert_eq!(sphere.intersect(b(-0.0), b(5.0), b(5.0)).len(), 2);
}

#[test]
fn test_all_intersections_have_positive_t() {
    let s = Shape::Sphere(Sphere::new());
    let i1 = Intersection::new(b(1.0), s);
    let i2 = Intersection::new(b(2.0), s);
    let xs = intersections(&mut vec![i2, i1]);
    let i = hit(xs).unwrap();
    assert!(i == i1);
}

#[test]
fn test_some_intersections_have_negative_t() {
    let s = Shape::Sphere(Sphere::new());
    let i1 = Intersection::new(b(-1.0), s);
    let i2 = Intersection::new(b(1.0), s);
    let xs = intersections(&mut vec![i2, i1]);
    let i = hit(xs).unwrap();
    assert!(i == i2);
}

#[test]
fn test_all_intersections_have_negative_t() {
    let s = Shape::Sphere(Sphere::new());
    let i1 = Intersection::new(b(-2.0), s);
    let i2 = Intersection::new(b(-1.0), s);
    let xs = intersections(&mut vec![i2, i1]);
    let i = hit(xs);
    assert!(i.is_none());
}

#[test]
fn test_lowest_non_negative_t() {
    let s = Shape::Sphere(Sphere::new());
    let i1 = Intersection::new(b(5.0), s);
    let i2 = Intersection::new(b(7.0), s);
    let i3 = Intersection::new(b(-3.0), s);
    let i4 = Intersection::new(b(2.0), s);
    let xs = intersections(&mut vec![i1, i2, i3, i4]);
    let i = hit(xs).unwrap();
    assert!(i == i4);
}

#[test]
fn intersections_sorts_in_place_and_returns_the_same() {
    let s = Shape::Sphere(Sphere::new());
    let ts = [5.0f32, 7.0, -3.0, 2.0, 0.0, -0.0, f32::INFINITY, f32::NEG_INFINITY, 2.0];
    let mut given: Vec<Intersection> = ts.iter().map(|t| Intersection::new(b(*t), s)).collect();
    let sorted = intersections(&mut given);
    assert_eq!(sorted, given);
    let got: Vec<u32> = sorted.iter().map(|i| i.t).collect();
    let mut expected = ts.to_vec();
    expected.sort_by(|x, y| x.total_cmp(y));
    let expected: Vec<u32> = expected.iter().map(|t| b(*t)).collect();
    assert_eq!(got, expected);
}

#[test]
fn intersections_keeps_the_order_of_equal_parameters() {
    let first = Shape::Sphere(Sphere::new());
    let second = Shape::Sphere(Sphere::new());
    let third = Shape::Sphere(Sphere::new());
    let mut given = vec![
        Intersection::new(b(2.0), first),
        Intersection::new(b(1.0), second),
        Intersection::new(b(2.0), third),
        Intersection::new(b(1.0), first),
        Intersection::new(b(2.0), second),
    ];
    let sorted = intersections(&mut given);
    let shapes: Vec<Shape> = sorted.iter().map(|i| i.s).collect();
    assert_eq!(shapes, vec![second, first, first, third, second]);
}

#[test]
fn hit_does_not_depend_on_the_order_given() {
    let s = Shape::Sphere(Sphere::new());
    let o = Shape::Sphere(Sphere::new());
    let a = Intersection::new(b(3.0), s);
    let c = Intersection::new(b(0.5), o);
    assert_eq!(hit(intersections(&mut vec![a, c])), hit(intersections(&mut vec![c, a])));
    assert_eq!(hit(intersections(&mut vec![a, c])), Some(c));
    let d = Intersection::new(b(-0.5), o);
    assert_eq!(hit(intersections(&mut vec![a, d])), hit(intersections(&mut vec![d, a])));
    assert_eq!(hit(intersections(&mut vec![d, a])), Some(a));
}

#[test]
fn hit_skips_zero_and_what_is_no_number() {
    let s = Shape::Sphere(Sphere::new());
    let xs = vec![
        Intersection::new(b(-1.0), s),
        Intersection::new(b(-0.0), s),
        Intersection::new(b(0.0), s),
    ];
    assert_eq!(hit(xs), None);
    let xs = vec![Intersection::new(b(f32::NAN), s)];
    assert_eq!(hit(xs), None);
    let xs = vec![Intersection::new(b(0.0), s), Intersection::new(b(f32::MIN_POSITIVE), s)];
    assert_eq!(hit(xs).unwrap().t, b(f32::MIN_POSITIVE));
    assert_eq!(hit(Vec::new()), None);
}

#[test]
fn test_prepare_computation() {
    let s = Shape::Sphere(Sphere::new());
    let i = Intersection::new(b(4.0), s);
    let comps = Computation::new(&i, &Vec::new());
    assert_eq!(comps.t, i.t);
    assert_eq!(comps.object, i.s);
    assert_eq!(comps.n1, ONE);
    assert_eq!(comps.n2, ONE);
}

fn glass(index: f32) -> Shape {
    let mut s = Sphere::glass_sphere();
    s.material.refractive_index = b(index);
    Shape::Sphere(s)
}

#[test]
fn test_n1_n2() {
    let a = glass(1.5);
    let bb = glass(2.0);
    let c = glass(2.5);
    let xs = intersections(&mut vec![
        Intersection::new(b(2.0), a),
        Intersection::new(b(2.75), bb),
        Intersection::new(b(3.25), c),
        Intersection::new(b(4.75), bb),
        Intersection::new(b(5.25), c),
        Intersection::new(b(6.0), a),
    ]);
    let results = [(1.0, 1.5), (1.5, 2.0), (2.0, 2.5), (2.5, 2.5), (2.5, 1.5), (1.5, 1.0)];
    for (ix, x) in xs.iter().enumerate() {
        let comps = Computation::new(x, &xs);
        assert_eq!(f32::from_bits(comps.n1), results[ix].0);
        assert_eq!(f32::from_bits(comps.n2), results[ix].1);
    }
}

#[test]
fn concentric_glass_spheres_round_trip() {
    // three spheres one inside the other, crossed along an axis
    let outer = glass(1.5);
    let middle = glass(2.0);
    let inner = glass(2.5);
    let xs = vec![
        Intersection::new(b(1.0), outer),
        Intersection::new(b(2.0), middle),
        Intersection::new(b(3.0), inner),
        Intersection::new(b(5.0), inner),
        Intersection::new(b(6.0), middle),
        Intersection::new(b(7.0), outer),
    ];
    let expected = [(1.0, 1.5), (1.5, 2.0), (2.0, 2.5), (2.5, 2.0), (2.0, 1.5), (1.5, 1.0)];
    for (ix, x) in xs.iter().enumerate() {
        let comps = Computation::new(x, &xs);
        assert_eq!((f32::from_bits(comps.n1), f32::from_bits(comps.n2)), expected[ix]);
    }
}

#[test]
fn toggle_enters_and_leaves() {
    let a = glass(1.5);
    let c = glass(2.0);
    let mut stack: Vec<Shape> = Vec::new();
    toggle(&mut stack, a);
    assert_eq!(stack, vec![a]);
    toggle(&mut stack, c);
    assert_eq!(stack, vec![a, c]);
    toggle(&mut stack, a);
    assert_eq!(stack, vec![c]);
    toggle(&mut stack, c);
    assert!(stack.is_empty());
}

#[test]
fn toggle_goes_by_identity_not_by_material() {
    let a = glass(1.5);
    let mut changed = a;
    changed.set_material_ambient(b(1.0));
    let mut stack = vec![a];
    toggle(&mut stack, changed);
    assert!(stack.is_empty());
}

#[test]
fn spheres_have_identities_of_their_own() {
    let a = Sphere::new();
    let c = Sphere::new();
    assert_ne!(a.id, c.id);
    assert_eq!(a.id & 0x0000_0000_0000_F000_C000_0000_0000_0000, 0x0000_0000_0000_4000_8000_0000_0000_0000);
}

#[test]
fn test_hit_outside() {
    // the eye looks at the sphere from outside: the normal faces it
    let normal = Tuple::vector(0, 0, b(-1.0));
    let eye = [0.0f32, 0.0, -1.0];
    let (n, inside) = Computation::oriented(normal, b(-1.0 * eye[2]));
    assert!(!inside);
    assert_eq!(n, normal);
}

#[test]
fn test_hit_inside() {
    // from inside the normal points away and is turned round
    let normal = Tuple::vector(0, 0, b(1.0));
    let eye = [0.0f32, 0.0, -1.0];
    let (n, inside) = Computation::oriented(normal, b(1.0 * eye[2]));
    assert!(inside);
    assert_eq!(n, Tuple::vector(0, 0, b(-1.0)));
}

#[test]
fn a_normal_across_the_eye_is_left_alone() {
    let normal = Tuple::vector(b(1.0), 0, 0);
    assert_eq!(Computation::oriented(normal, b(0.0)), (normal, false));
    assert_eq!(Computation::oriented(normal, b(-0.0)), (normal, false));
    assert_eq!(Computation::oriented(normal, b(f32::NAN)), (normal, false));
}
