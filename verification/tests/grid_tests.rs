use ray_tracer::camera::{half_extents, render};
use ray_tracer::canvas::Canvas;
use ray_tracer::matrice::Matrice;
use ray_tracer::practice::{
    draw_clock, draw_sphere, CLOCK_CENTER, CLOCK_RADIUS, CLOCK_SIZE, SCENE_HEIGHT, SCENE_WIDTH,
};
use ray_tracer::scalar::whole;
use ray_tracer::text::{decimal, signed_decimal};
use ray_tracer::transformations::{
    rotation_x, rotation_y, rotation_z, scaling, shearing, translation,
};
use ray_tracer::tuple::{Tuple, TupleType};
use std::f32::consts::PI;

fn b(x: f32) -> u32 {
    x.to_bits()
}

fn point(x: f32, y: f32, z: f32) -> Tuple {
    Tuple::point(b(x), b(y), b(z))
}

fn vector(x: f32, y: f32, z: f32) -> Tuple {
    Tuple::vector(b(x), b(y), b(z))
}

fn color(x: f32, y: f32, z: f32) -> Tuple {
    Tuple::color(b(x), b(y), b(z))
}

fn random_matrice(size: usize) -> Matrice {
    let mut out = Matrice::new(size);
    for ix in 0..size {
        for jx in 0..size {
            out.write_element(ix, jx, b(rand::random::<f32>()));
        }
    }
    out
}

/// The product of two grids, cell by cell in single precision.
fn product(a: &Matrice, c: &Matrice) -> Matrice {
    let mut out = Matrice::new(a.size());
    for ix in 0..a.size() {
        for jx in 0..a.size() {
            let mut element = 0.0f32;
            for kx in 0..a.size() {
                element +=
                    f32::from_bits(a.element_at(ix, kx)) * f32::from_bits(c.element_at(kx, jx));
            }
            out.write_element(ix, jx, b(element));
        }
    }
    out
}

/// A grid applied to a triple.
fn apply(m: &Matrice, t: Tuple) -> Tuple {
    let last = if t.w == TupleType::Point { 1.0 } else { 0.0 };
    let tuple = [f32::from_bits(t.x), f32::from_bits(t.y), f32::from_bits(t.z), last];
    let mut out = [0.0f32; 4];
    for ix in 0..4 {
        for jx in 0..4 {
            out[ix] += f32::from_bits(m.element_at(ix, jx)) * tuple[jx];
        }
    }
    Tuple::new(b(out[0]), b(out[1]), b(out[2]), t.w)
}

fn close(a: Tuple, c: Tuple) -> bool {
    (f32::from_bits(a.x) - f32::from_bits(c.x)).abs() < 0.00001
        && (f32::from_bits(a.y) - f32::from_bits(c.y)).abs() < 0.00001
        && (f32::from_bits(a.z) - f32::from_bits(c.z)).abs() < 0.00001
        && a.w == c.w
}

#[test]
fn test_canvas_new() {
    let canvas = Canvas::new(10, 20);
    assert!(canvas.width == 10);
    assert!(canvas.height == 20);
    for y in 0..20 {
        for x in 0..10 {
            assert_eq!(canvas.pixel_at(x, y), color(0.0, 0.0, 0.0));
        }
    }
}

#[test]
fn test_write_pixel() {
    let mut canvas = Canvas::new(10, 20);
    let red = color(1.0, 0.0, 0.0);
    canvas.write_pixel(2, 3, red);
    assert!(canvas.pixel_at(2, 3) == red);
    assert!(canvas.pixel_at(3, 2) == color(0.0, 0.0, 0.0));
    assert!(canvas.pixel_at(9, 19) == color(0.0, 0.0, 0.0));
}

/// The head of a plain picture file of the given size.
fn head(width: usize, height: usize) -> String {
    format!("{}{}\n{} {}\n255\n", 'P', 3, width, height)
}

#[test]
fn test_canvas_to_ppm() {
    let mut canvas = Canvas::new(4, 4);
    let red = color(255.0, 0.0, 0.0);
    canvas.write_pixel(2, 3, red);
    let text = String::from_utf8(canvas.to_ppm()).unwrap();
    let mut expected = head(4, 4);
    for n in 0..16 {
        expected.push_str(if n == 14 { "255 0 0\n" } else { "0 0 0\n" });
    }
    assert_eq!(text, expected);
}

#[test]
fn to_ppm_holds_channels_in_range() {
    let mut canvas = Canvas::new(2, 1);
    canvas.write_pixel(0, 0, color(382.5, 0.0, 127.5));
    canvas.write_pixel(1, 0, color(-127.5, 254.99, 1.0));
    let text = String::from_utf8(canvas.to_ppm()).unwrap();
    assert_eq!(text, head(2, 1) + "255 0 127\n0 254 1\n");
}

#[test]
fn to_ppm_of_an_empty_canvas_is_its_head() {
    let text = String::from_utf8(Canvas::new(0, 0).to_ppm()).unwrap();
    assert_eq!(text, head(0, 0));
    let text = String::from_utf8(Canvas::new(0, 3).to_ppm()).unwrap();
    assert_eq!(text, head(0, 3));
    assert_eq!(text.as_bytes()[..3], [80, 51, 10]);
}

#[test]
fn as_str_writes_whole_parts() {
    assert_eq!(color(1.0, 0.2, 255.9).as_str(), b"1 0 255\n".to_vec());
    assert_eq!(color(-1.5, -0.0, 1e10).as_str(), b"-1 0 2147483647\n".to_vec());
    assert_eq!(color(f32::NAN, -1e10, 100.0).as_str(), b"0 -2147483648 100\n".to_vec());
}

#[test]
fn whole_is_the_conversion_to_an_integer() {
    let samples = [
        0.0f32,
        -0.0,
        0.4,
        0.99999994,
        1.0,
        1.5,
        -1.5,
        2.0,
        127.5,
        254.99998,
        255.0,
        256.0,
        1e-40,
        8388607.5,
        8388608.0,
        16777216.0,
        -16777217.0,
        2147483520.0,
        2147483648.0,
        -2147483648.0,
        -2147483904.0,
        3.0e9,
        -3.0e9,
        1e38,
        f32::INFINITY,
        f32::NEG_INFINITY,
        f32::NAN,
        f32::MAX,
        f32::MIN_POSITIVE,
    ];
    for x in samples {
        assert_eq!(whole(b(x)), x as i32, "{x}");
    }
    let mut bits: u32 = 0;
    loop {
        assert_eq!(whole(bits), f32::from_bits(bits) as i32, "{bits:#x}");
        match bits.checked_add(0x0001_2345) {
            Some(next) => bits = next,
            None => break,
        }
    }
}

#[test]
fn decimal_writes_numbers() {
    assert_eq!(decimal(0), b"0".to_vec());
    assert_eq!(decimal(9), b"9".to_vec());
    assert_eq!(decimal(10), b"10".to_vec());
    assert_eq!(decimal(255), b"255".to_vec());
    assert_eq!(decimal(u64::MAX), b"18446744073709551615".to_vec());
    assert_eq!(signed_decimal(-1), b"-1".to_vec());
    assert_eq!(signed_decimal(i32::MIN), b"-2147483648".to_vec());
    assert_eq!(signed_decimal(i32::MAX), b"2147483647".to_vec());
    assert_eq!(signed_decimal(0), b"0".to_vec());
}

#[test]
fn neg_flips_signs_and_keeps_zeros_positive() {
    assert_eq!(vector(1.0, -2.0, 0.0).neg(), vector(-1.0, 2.0, 0.0));
    assert_eq!(point(-0.0, 0.0, 3.5).neg(), point(0.0, 0.0, -3.5));
    assert_eq!(vector(0.0, 0.0, 1.0).neg().x, 0);
}

#[test]
fn test_matrice_equal() {
    let mut matrice = Matrice::new(4);
    matrice.write_element(0, 2, b(4.5));
    let mut matrice_other = Matrice::new(4);
    matrice_other.write_element(0, 2, b(4.5));
    assert_eq!(matrice, matrice_other);
}

#[test]
fn test_matrice_not_equal() {
    let mut matrice = Matrice::new(4);
    matrice.write_element(0, 2, b(6.5));
    let mut matrice_other = Matrice::new(4);
    matrice_other.write_element(0, 2, b(4.5));
    assert!(matrice != matrice_other);
}

#[test]
fn test_identity_matrice() {
    let identity_matrix = Matrice::identity_matrix(4);
    let mut matrice = Matrice::new(4);
    matrice.write_element(1, 2, b(0.7));
    matrice.write_element(2, 1, b(7.5));
    assert_eq!(matrice, product(&matrice, &identity_matrix));
    for i in 0..4 {
        for j in 0..4 {
            assert_eq!(identity_matrix.element_at(i, j), if i == j { b(1.0) } else { b(0.0) });
        }
    }
}

#[test]
fn test_transpose_matrice() {
    let matrice = random_matrice(4);
    let transposed_matrice = matrice.transpose();
    assert_eq!(matrice, transposed_matrice.transpose());
    for i in 0..4 {
        for j in 0..4 {
            assert_eq!(transposed_matrice.element_at(i, j), matrice.element_at(j, i));
        }
    }
}

#[test]
fn test_submatrice() {
    let matrice = random_matrice(4);
    let sub_matrice = matrice.submatrix(2, 2);
    println!("{:?}", sub_matrice);
    assert_eq!(sub_matrice.size(), 3);
    let kept = [0, 1, 3];
    for i in 0..3 {
        for j in 0..3 {
            assert_eq!(sub_matrice.element_at(i, j), matrice.element_at(kept[i], kept[j]));
        }
    }
}

#[test]
fn submatrix_takes_out_the_first_row_and_the_last_column() {
    let mut m = Matrice::new(3);
    let mut n = 1.0;
    for i in 0..3 {
        for j in 0..3 {
            m.write_element(i, j, b(n));
            n += 1.0;
        }
    }
    let s = m.submatrix(0, 2);
    assert_eq!(s.size(), 2);
    assert_eq!(s.matrice, vec![vec![b(4.0), b(5.0)], vec![b(7.0), b(8.0)]]);
    let one = Matrice::new(1).submatrix(0, 0);
    assert_eq!(one.size(), 0);
    assert!(one.matrice.is_empty());
}

#[test]
fn cofactor_changes_sign_on_odd_places() {
    assert_eq!(Matrice::cofactor(0, 0, b(-12.0)), b(-12.0));
    assert_eq!(Matrice::cofactor(1, 0, b(25.0)), b(-25.0));
    assert_eq!(Matrice::cofactor(0, 1, b(25.0)), b(-25.0));
    assert_eq!(Matrice::cofactor(3, 1, b(25.0)), b(25.0));
    assert_eq!(Matrice::cofactor(usize::MAX, usize::MAX, b(2.0)), b(2.0));
    assert_eq!(Matrice::cofactor(usize::MAX, 0, b(2.0)), b(-2.0));
}

#[test]
fn inverse_is_none_exactly_for_a_zero_determinant() {
    let mut quotients = Matrice::new(2);
    quotients.write_element(0, 1, b(3.0));
    assert_eq!(Matrice::inverse(b(0.0), &quotients), None);
    assert_eq!(Matrice::inverse(b(-0.0), &quotients), None);
    let inverse = Matrice::inverse(b(1e-30), &quotients).unwrap();
    assert_eq!(inverse.element_at(1, 0), b(3.0));
    assert_eq!(inverse.element_at(0, 1), b(0.0));
}

#[test]
fn test_multiplying_translation_matrix_to_point() {
    let transform = translation(b(5.0), b(-3.0), b(2.0));
    let p = point(-3.0, 4.0, 5.0);
    assert_eq!(apply(&transform, p), point(2.0, 1.0, 7.0))
}

#[test]
fn test_multiplying_translation_matrix_to_vector() {
    let transform = translation(b(5.0), b(-3.0), b(2.0));
    let v = vector(-3.0, 4.0, 5.0);
    assert_eq!(apply(&transform, v), v);
}

#[test]
fn test_scaling_matrix_to_point() {
    let transform = scaling(b(2.0), b(3.0), b(4.0));
    let p = point(-4.0, 6.0, 8.0);
    assert_eq!(apply(&transform, p), point(-8.0, 18.0, 32.0))
}

#[test]
fn test_scaling_matrix_to_vector() {
    let transform = scaling(b(2.0), b(3.0), b(4.0));
    let p = vector(-4.0, 6.0, 8.0);
    assert_eq!(apply(&transform, p), vector(-8.0, 18.0, 32.0))
}

#[test]
fn test_reflection_scaling_by_negative_value() {
    let transform = scaling(b(-1.0), b(1.0), b(1.0));
    let p = point(2.0, 3.0, 4.0);
    assert_eq!(apply(&transform, p), point(-2.0, 3.0, 4.0))
}

fn turn_x(rad: f32) -> Matrice {
    rotation_x(b(rad.cos()), b(rad.sin()))
}

fn turn_y(rad: f32) -> Matrice {
    rotation_y(b(rad.cos()), b(rad.sin()))
}

fn turn_z(rad: f32) -> Matrice {
    rotation_z(b(rad.cos()), b(rad.sin()))
}

#[test]
fn test_rotation_x() {
    let p = point(0.0, 1.0, 0.0);
    let half_quarter = turn_x(PI / 4.0);
    let full_quarter = turn_x(PI / 2.0);
    assert!(close(
        apply(&half_quarter, p),
        point(0.0, 2.0_f32.sqrt() / 2.0, 2.0_f32.sqrt() / 2.0)
    ));
    assert!(close(apply(&full_quarter, p), point(0.0, 0.0, 1.0)));
}

#[test]
fn test_rotation_y() {
    let p = point(0.0, 0.0, 1.0);
    let half_quarter = turn_y(PI / 4.0);
    let full_quarter = turn_y(PI / 2.0);
    assert!(close(
        apply(&half_quarter, p),
        point(2.0_f32.sqrt() / 2.0, 0.0, 2.0_f32.sqrt() / 2.0)
    ));
    assert!(close(apply(&full_quarter, p), point(1.0, 0.0, 0.0)));
}

#[test]
fn test_rotation_z() {
    let p = point(0.0, 1.0, 0.0);
    let half_quarter = turn_z(PI / 4.0);
    let full_quarter = turn_z(PI / 2.0);
    assert!(close(
        apply(&half_quarter, p),
        point(-(2.0_f32.sqrt() / 2.0), 2.0_f32.sqrt() / 2.0, 0.0)
    ));
    assert!(close(apply(&full_quarter, p), point(-1.0, 0.0, 0.0)));
}

#[test]
fn rotation_cells_stand_where_they_belong() {
    let c = b(0.5);
    let s = b(0.25);
    let n = b(-0.25);
    let one = b(1.0);
    assert_eq!(
        rotation_x(c, s).matrice,
        vec![vec![one, 0, 0, 0], vec![0, c, n, 0], vec![0, s, c, 0], vec![0, 0, 0, one]]
    );
    assert_eq!(
        rotation_y(c, s).matrice,
        vec![vec![c, 0, s, 0], vec![0, one, 0, 0], vec![n, 0, c, 0], vec![0, 0, 0, one]]
    );
    assert_eq!(
        rotation_z(c, s).matrice,
        vec![vec![c, n, 0, 0], vec![s, c, 0, 0], vec![0, 0, one, 0], vec![0, 0, 0, one]]
    );
}

#[test]
fn test_shearing_transformation_x_to_y() {
    let transform = shearing(b(1.0), b(0.0), b(0.0), b(0.0), b(0.0), b(0.0));
    let p = point(2.0, 3.0, 4.0);
    assert_eq!(apply(&transform, p), point(5.0, 3.0, 4.0));
}

#[test]
fn test_shearing_transformation_y_to_z() {
    let transform = shearing(b(0.0), b(0.0), b(1.0), b(0.0), b(0.0), b(0.0));
    let p = point(2.0, 3.0, 4.0);
    assert_eq!(apply(&transform, p), point(2.0, 5.0, 4.0));
}

#[test]
fn shearing_cells_stand_where_they_belong() {
    let m = shearing(b(2.0), b(3.0), b(4.0), b(5.0), b(6.0), b(7.0));
    let one = b(1.0);
    assert_eq!(
        m.matrice,
        vec![
            vec![one, b(2.0), b(3.0), 0],
            vec![b(4.0), one, b(5.0), 0],
            vec![b(6.0), b(7.0), one, 0],
            vec![0, 0, 0, one]
        ]
    );
}

#[test]
fn test_chained_tranformation() {
    let p = point(1.0, 0.0, 1.0);
    let a = turn_x(PI / 2.0);
    let bb = scaling(b(5.0), b(5.0), b(5.0));
    let c = translation(b(10.0), b(5.0), b(7.0));
    let t = product(&product(&c, &bb), &a);
    assert!(close(apply(&t, p), point(15.0, 0.0, 7.0)));
}

#[test]
fn render_asks_for_every_pixel() {
    let image = render(5, 3, |x, y| Tuple::color(x as u32, y as u32, 7));
    assert_eq!(image.width, 5);
    assert_eq!(image.height, 3);
    for y in 0..3 {
        for x in 0..5 {
            assert_eq!(image.pixel_at(x, y), Tuple::color(x as u32, y as u32, 7));
        }
    }
    let none = render(0, 0, |_, _| Tuple::default_color());
    assert_eq!(none.width, 0);
    assert!(none.canvas.is_empty());
}

#[test]
fn draw_clock_paints_centre_and_marks() {
    let k = 48.0f32;
    let mut marks: Vec<(usize, usize)> = Vec::new();
    for n in 0..96 {
        let angle = n as f32 * PI / k;
        marks.push((
            (angle.sin() * CLOCK_RADIUS as f32 + CLOCK_CENTER as f32) as usize,
            (angle.cos() * CLOCK_RADIUS as f32 + CLOCK_CENTER as f32) as usize,
        ));
    }
    let face = draw_clock(&marks);
    assert_eq!(face.width, CLOCK_SIZE);
    assert_eq!(face.height, CLOCK_SIZE);
    let white = color(1.0, 1.0, 1.0);
    let black = color(0.0, 0.0, 0.0);
    for y in 0..CLOCK_SIZE {
        for x in 0..CLOCK_SIZE {
            let marked = (x, y) == (CLOCK_CENTER, CLOCK_CENTER) || marks.contains(&(x, y));
            assert_eq!(face.pixel_at(x, y), if marked { white } else { black });
        }
    }
    assert_eq!(face.pixel_at(200, 350), white);
    assert_eq!(face.pixel_at(350, 200), white);
    assert_eq!(draw_clock(&Vec::new()).pixel_at(200, 200), white);
}

/// The size of a pixel of a picture `hsize` wide and `vsize` high that
/// spans the field of view.
fn pixel_size(hsize: f32, vsize: f32, field_of_view: f32) -> f32 {
    let half_view = (field_of_view / 2.0).tan();
    let aspect = hsize / vsize;
    let (half_width, _) =
        half_extents(b(aspect), b(half_view), b(half_view / aspect), b(half_view * aspect));
    f32::from_bits(half_width) * 2.0 / hsize
}

#[test]
fn testing_pixel_size_horizontal_canvas() {
    assert_eq!(pixel_size(200.0, 125.0, PI / 2.0), 0.01);
}

#[test]
fn testing_pixel_size_vertical_canvas() {
    assert_eq!(pixel_size(125.0, 200.0, PI / 2.0), 0.01);
}

#[test]
fn half_extents_give_the_longer_side_the_whole_view() {
    let (half_view, shortened, narrowed) = (b(1.0), b(0.625), b(1.6));
    assert_eq!(half_extents(b(1.6), half_view, shortened, narrowed), (half_view, shortened));
    assert_eq!(half_extents(b(1.0), half_view, shortened, narrowed), (half_view, shortened));
    assert_eq!(half_extents(b(0.625), half_view, b(1.6), b(0.625)), (b(0.625), half_view));
    assert_eq!(half_extents(b(f32::NAN), half_view, shortened, narrowed), (narrowed, half_view));
}

#[test]
fn draw_sphere_writes_every_pixel_of_the_scene() {
    let file = draw_sphere(|x, y| color((x % 256) as f32, (y % 256) as f32, 300.0));
    let text = String::from_utf8(file).unwrap();
    let mut lines = text.lines();
    assert_eq!(lines.next().map(str::len), Some(2));
    assert_eq!(lines.next(), Some("800 400"));
    assert_eq!(lines.next(), Some("255"));
    assert_eq!((SCENE_WIDTH, SCENE_HEIGHT), (800, 400));
    for y in 0..SCENE_HEIGHT {
        for x in 0..SCENE_WIDTH {
            let expected = format!("{} {} 255", x % 256, y % 256);
            assert_eq!(lines.next(), Some(expected.as_str()));
        }
    }
    assert_eq!(lines.next(), None);
    assert!(text.starts_with(&head(800, 400)));
}
