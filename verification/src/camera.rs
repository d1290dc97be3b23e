//! The loop that paints a picture pixel by pixel.
use vstd::prelude::*;
use crate::canvas::Canvas;
use crate::scalar::{is_nan, less, lt, nan, ONE};
use crate::tuple::Tuple;

verus! {

/// Half the width and half the height of the picture plane, one unit in
/// front of the eye. `half_view` is the tangent of half the field of view
/// and `aspect` the width of the picture by its height; the longer side
/// takes the whole field of view, the shorter one its share: `shortened`,
/// which is `half_view` by `aspect`, for the height of a picture at least
/// as wide as high, and `narrowed`, which is `half_view` times `aspect`,
/// for the width of any other.
pub open spec fn extents(aspect: u32, half_view: u32, shortened: u32, narrowed: u32) -> (u32, u32) {
    if !nan(aspect) && !less(aspect, ONE) {
        (half_view, shortened)
    } else {
        (narrowed, half_view)
    }
}

/// Chooses half the width and half the height of the picture plane.
pub fn half_extents(aspect: u32, half_view: u32, shortened: u32, narrowed: u32) -> (r: (u32, u32))
    ensures
        r == extents(aspect, half_view, shortened, narrowed),
{
    if !is_nan(aspect) && !lt(aspect, ONE) {
        (half_view, shortened)
    } else {
        (narrowed, half_view)
    }
}

/// Paints a canvas of `hsize` columns and `vsize` rows, asking `color_of`
/// once for every pixel, by column and row, and for nothing else.
pub fn render<F: Fn(usize, usize) -> Tuple>(hsize: usize, vsize: usize, color_of: F) -> (image:
    Canvas)
    requires
        forall|x: usize, y: usize| x < hsize && y < vsize ==> color_of.requires((x, y)),
    ensures
        image.wf(),
        image.width == hsize,
        image.height == vsize,
        forall|x: usize, y: usize|
            x < hsize && y < vsize ==> color_of.ensures((x, y), image.pixel(x as int, y as int)),
{
    let mut image = Canvas::new(hsize, vsize);
    let mut y: usize = 0;
    while y < vsize
        invariant
            y <= vsize,
            image.wf(),
            image.width == hsize,
            image.height == vsize,
            forall|x: usize, y: usize| x < hsize && y < vsize ==> color_of.requires((x, y)),
            forall|i: usize, j: usize|
                i < hsize && j < y ==> color_of.ensures((i, j), image.pixel(i as int, j as int)),
        decreases vsize - y,
    {
        let mut x: usize = 0;
        while x < hsize
            invariant
                y < vsize,
                x <= hsize,
                image.wf(),
                image.width == hsize,
                image.height == vsize,
                forall|x: usize, y: usize| x < hsize && y < vsize ==> color_of.requires((x, y)),
                forall|i: usize, j: usize|
                    i < hsize && j < y ==> color_of.ensures(
                        (i, j),
                        image.pixel(i as int, j as int),
                    ),
                forall|i: usize|
                    i < x ==> color_of.ensures((i, y), image.pixel(i as int, y as int)),
            decreases hsize - x,
        {
            let color = color_of(x, y);
            image.write_pixel(x, y, color);
            x += 1;
        }
        y += 1;
    }
    image
}

} // verus!
