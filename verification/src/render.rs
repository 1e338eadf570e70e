//! What a renderer needs of the framebuffer: the rectangles to fill on a
//! scaled canvas, and a picture of the framebuffer in text.

use vstd::prelude::*;
use crate::machine::grid_view;

verus! {

/// Largest scale at which every pixel of the framebuffer has coordinates
/// that fit the canvas.
pub const MAX_SCALE: u32 = 0x1FF_FFFF;

/// The byte that stands for a pixel that is on in a text picture.
pub const PIXEL_ON: u8 = 0x23;

/// The byte that stands for a pixel that is off in a text picture.
pub const PIXEL_OFF: u8 = 0x5F;

/// The byte that ends a row of a text picture.
pub const LINE_END: u8 = 0x0A;

/// A rectangle on the canvas, by its top left corner and its size.
#[derive(Clone, Copy, Debug, PartialEq, Eq, Structural)]
pub struct PixelRect {
    /// Distance of the left edge from the left edge of the canvas.
    pub x: i32,
    /// Distance of the top edge from the top edge of the canvas.
    pub y: i32,
    /// Width.
    pub width: u32,
    /// Height.
    pub height: u32,
}

/// The square that pixel `(x, y)` of the framebuffer covers on a canvas
/// on which every pixel is `scale` wide and high.
pub open spec fn pixel_rect(x: int, y: int, scale: u32) -> PixelRect {
    PixelRect { x: (x * scale) as i32, y: (y * scale) as i32, width: scale, height: scale }
}

/// The pixels of the framebuffer in the order in which they are drawn:
/// column by column, each column from the top down.
pub open spec fn pixel_positions() -> Seq<(int, int)> {
    Seq::new(2048, |k: int| (k / 32, k % 32))
}

/// The squares of those among the first `count` pixels that are on.
pub open spec fn lit_rects_among(display: Seq<Seq<bool>>, scale: u32, count: int) -> Seq<
    PixelRect,
> {
    pixel_positions().take(count).filter(|p: (int, int)| display[p.0][p.1]).map_values(
        |p: (int, int)| pixel_rect(p.0, p.1, scale),
    )
}

/// The squares of the pixels that are on, in drawing order.
pub open spec fn lit_rects(display: Seq<Seq<bool>>, scale: u32) -> Seq<PixelRect> {
    lit_rects_among(display, scale, 2048)
}

/// The picture of the framebuffer in text: 32 rows of 64 bytes, `PIXEL_ON`
/// or `PIXEL_OFF` for each pixel, and `LINE_END` after each row.
pub open spec fn text_picture(display: Seq<Seq<bool>>) -> Seq<u8> {
    Seq::new(
        32 * 65,
        |k: int|
            if k % 65 == 64 {
                LINE_END
            } else if display[k % 65][k / 65] {
                PIXEL_ON
            } else {
                PIXEL_OFF
            },
    )
}

/// Every pixel that is on has its square among the squares to fill.
pub proof fn lit_pixel_has_rect(display: Seq<Seq<bool>>, scale: u32, x: int, y: int)
    requires
        0 <= x < 64,
        0 <= y < 32,
        display[x][y],
    ensures
        lit_rects(display, scale).contains(pixel_rect(x, y, scale)),
{
    let lit = |p: (int, int)| display[p.0][p.1];
    let square = |p: (int, int)| pixel_rect(p.0, p.1, scale);
    let positions = pixel_positions();
    assert(positions.take(2048) =~= positions);
    let k = x * 32 + y;
    assert(positions[k] == (x, y));
    positions.lemma_filter_contains(lit, k);
    let j = choose|j: int| 0 <= j < positions.filter(lit).len() && positions.filter(lit)[j] == (x, y);
    assert(positions.filter(lit).map_values(square)[j] == pixel_rect(x, y, scale));
}

/// Every square to fill is the square of a pixel that is on.
pub proof fn rect_has_lit_pixel(display: Seq<Seq<bool>>, scale: u32, i: int)
    requires
        0 <= i < lit_rects(display, scale).len(),
    ensures
        exists|x: int, y: int|
            0 <= x < 64 && 0 <= y < 32 && display[x][y] && lit_rects(display, scale)[i]
                == #[trigger] pixel_rect(x, y, scale),
{
    let lit = |p: (int, int)| display[p.0][p.1];
    let positions = pixel_positions();
    assert(positions.take(2048) =~= positions);
    let lit_positions = positions.filter(lit);
    let p = lit_positions[i];
    positions.lemma_filter_pred(lit, i);
    assert(lit_positions.contains(p));
    positions.lemma_filter_contains_rev(lit, p);
    let k = choose|k: int| 0 <= k < positions.len() && positions[k] == p;
    assert(p == (k / 32, k % 32));
    assert(lit_rects(display, scale)[i] == pixel_rect(k / 32, k % 32, scale));
}

proof fn lemma_lit_rects_next(display: Seq<Seq<bool>>, scale: u32, x: int, y: int)
    requires
        0 <= x < 64,
        0 <= y < 32,
    ensures
        lit_rects_among(display, scale, x * 32 + y + 1) == if display[x][y] {
            lit_rects_among(display, scale, x * 32 + y).push(pixel_rect(x, y, scale))
        } else {
            lit_rects_among(display, scale, x * 32 + y)
        },
{
    broadcast use {Seq::lemma_filter_push, Seq::lemma_push_map_commute};

    let k = x * 32 + y;
    let lit = |p: (int, int)| display[p.0][p.1];
    let before = pixel_positions().take(k);
    assert(pixel_positions()[k] == (x, y));
    assert(pixel_positions().take(k + 1) =~= before.push((x, y)));
    assert(before.push((x, y)).filter(lit) == if lit((x, y)) {
        before.filter(lit).push((x, y))
    } else {
        before.filter(lit)
    });
}

/// The squares to fill on a canvas that shows `screen` with every pixel
/// `scale` wide and high: one for each pixel that is on.
pub fn screen_rects(screen: &[[bool; 32]; 64], scale: u32) -> (rects: Vec<PixelRect>)
    requires
        scale <= MAX_SCALE,
    ensures
        rects@ == lit_rects(grid_view(*screen), scale),
{
    let ghost display = grid_view(*screen);
    let mut rects: Vec<PixelRect> = Vec::new();
    proof {
        reveal(Seq::filter);
        assert(lit_rects_among(display, scale, 0) =~= Seq::empty());
    }
    let mut x: usize = 0;
    while x < 64
        invariant
            x <= 64,
            scale <= MAX_SCALE,
            display == grid_view(*screen),
            rects@ == lit_rects_among(display, scale, x * 32),
        decreases 64 - x,
    {
        let mut y: usize = 0;
        while y < 32
            invariant
                x < 64,
                y <= 32,
                scale <= MAX_SCALE,
                display == grid_view(*screen),
                rects@ == lit_rects_among(display, scale, x * 32 + y),
            decreases 32 - y,
        {
            proof {
                lemma_lit_rects_next(display, scale, x as int, y as int);
            }
            if screen[x][y] {
                assert(x * scale <= 64 * 0x1FF_FFFF && y * scale <= 32 * 0x1FF_FFFF)
                    by (nonlinear_arith)
                    requires
                        x < 64,
                        y < 32,
                        scale <= 0x1FF_FFFF,
                ;
                rects.push(
                    PixelRect {
                        x: ((x as u32) * scale) as i32,
                        y: ((y as u32) * scale) as i32,
                        width: scale,
                        height: scale,
                    },
                );
            }
            y += 1;
        }
        x += 1;
    }
    rects
}

/// A picture of `screen` in text, row by row.
pub fn render_text(screen: &[[bool; 32]; 64]) -> (text: Vec<u8>)
    ensures
        text@ == text_picture(grid_view(*screen)),
{
    let ghost picture = text_picture(grid_view(*screen));
    let mut text: Vec<u8> = Vec::new();
    let mut y: usize = 0;
    while y < 32
        invariant
            y <= 32,
            picture == text_picture(grid_view(*screen)),
            text@ == picture.take(y * 65),
        decreases 32 - y,
    {
        let mut x: usize = 0;
        while x < 64
            invariant
                y < 32,
                x <= 64,
                picture == text_picture(grid_view(*screen)),
                text@ == picture.take(y * 65 + x),
            decreases 64 - x,
        {
            text.push(
                if screen[x][y] {
                    PIXEL_ON
                } else {
                    PIXEL_OFF
                },
            );
            assert(text@ =~= picture.take(y * 65 + x + 1));
            x += 1;
        }
        text.push(LINE_END);
        assert(text@ =~= picture.take((y + 1) * 65));
        y += 1;
    }
    assert(picture.take(2080) =~= picture);
    text
}

} // verus!
