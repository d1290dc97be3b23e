//! Two pictures to try the renderer on: a clock face, and a scene of
//! spheres between walls.
use vstd::prelude::*;
use crate::camera::render;
use crate::canvas::Canvas;
use crate::scalar::ONE;
use crate::tuple::{Tuple, TupleType};

verus! {

/// Side of the square canvas, in pixels.
pub const CLOCK_SIZE: usize = 400;

/// Column and row of the centre.
pub const CLOCK_CENTER: usize = 200;

/// Distance of the marks from the centre: three eighths of the side.
pub const CLOCK_RADIUS: usize = 150;

/// Width of the picture of the scene, in pixels.
pub const SCENE_WIDTH: usize = 800;

/// Height of the picture of the scene, in pixels.
pub const SCENE_HEIGHT: usize = 400;

/// White.
pub open spec fn white() -> Tuple {
    Tuple { x: ONE, y: ONE, z: ONE, w: TupleType::Color }
}

/// Whether a mark stands on column `x` of row `y`.
pub open spec fn marked(marks: Seq<(usize, usize)>, x: int, y: int) -> bool {
    exists|k: int| 0 <= k < marks.len() && (#[trigger] marks[k]).0 == x && marks[k].1 == y
}

/// Paints the clock face: the centre and every mark white, all else black.
/// Each mark is a column and a row of the canvas.
pub fn draw_clock(marks: &Vec<(usize, usize)>) -> (face: Canvas)
    requires
        forall|k: int|
            0 <= k < marks@.len() ==> (#[trigger] marks@[k]).0 < CLOCK_SIZE && marks@[k].1
                < CLOCK_SIZE,
    ensures
        face.wf(),
        face.width == CLOCK_SIZE,
        face.height == CLOCK_SIZE,
        forall|x: int, y: int|
            0 <= x < CLOCK_SIZE && 0 <= y < CLOCK_SIZE ==> face.pixel(x, y) == if (x
                == CLOCK_CENTER && y == CLOCK_CENTER) || marked(marks@, x, y) {
                white()
            } else {
                Tuple::black()
            },
{
    let mut face = Canvas::new(CLOCK_SIZE, CLOCK_SIZE);
    let paint = Tuple::color(ONE, ONE, ONE);
    face.write_pixel(CLOCK_SIZE / 2, CLOCK_SIZE / 2, paint);
    let mut k: usize = 0;
    while k < marks.len()
        invariant
            k <= marks.len(),
            paint == white(),
            face.wf(),
            face.width == CLOCK_SIZE,
            face.height == CLOCK_SIZE,
            forall|k: int|
                0 <= k < marks@.len() ==> (#[trigger] marks@[k]).0 < CLOCK_SIZE && marks@[k].1
                    < CLOCK_SIZE,
            forall|x: int, y: int|
                0 <= x < CLOCK_SIZE && 0 <= y < CLOCK_SIZE ==> face.pixel(x, y) == if (x
                    == CLOCK_CENTER && y == CLOCK_CENTER) || marked(marks@.take(k as int), x, y) {
                    white()
                } else {
                    Tuple::black()
                },
        decreases marks.len() - k,
    {
        let (x, y) = marks[k];
        face.write_pixel(x, y, paint);
        proof {
            let done = marks@.take(k as int);
            let next = marks@.take(k + 1);
            assert(next[k as int] == marks@[k as int]);
            assert forall|i: int, j: int| 0 <= i < CLOCK_SIZE && 0 <= j < CLOCK_SIZE implies marked(
                next,
                i,
                j,
            ) == (marked(done, i, j) || (i == x && j == y)) by {
                if marked(done, i, j) {
                    let m = choose|m: int|
                        0 <= m < done.len() && (#[trigger] done[m]).0 == i && done[m].1 == j;
                    assert(next[m] == done[m]);
                }
                if marked(next, i, j) {
                    let m = choose|m: int|
                        0 <= m < next.len() && (#[trigger] next[m]).0 == i && next[m].1 == j;
                    if m < k {
                        assert(done[m] == next[m]);
                    }
                }
            }
        }
        k += 1;
    }
    assert(marks@.take(marks.len() as int) =~= marks@);
    face
}

/// Paints the picture of the scene and writes it as a plain picture file:
/// `color_of` is asked for the colour of every pixel, in the range of the
/// file, and the file holds these colours row by row.
pub fn draw_sphere<F: Fn(usize, usize) -> Tuple>(color_of: F) -> (file: Vec<u8>)
    requires
        forall|x: usize, y: usize|
            x < SCENE_WIDTH && y < SCENE_HEIGHT ==> color_of.requires((x, y)),
    ensures
        exists|image: Canvas|
            #[trigger] image.ppm() == file@ && image.wf() && image.width == SCENE_WIDTH
                && image.height == SCENE_HEIGHT && forall|x: usize, y: usize|
                x < SCENE_WIDTH && y < SCENE_HEIGHT ==> color_of.ensures(
                    (x, y),
                    image.pixel(x as int, y as int),
                ),
{
    let image = render(SCENE_WIDTH, SCENE_HEIGHT, color_of);
    image.to_ppm()
}

} // verus!
