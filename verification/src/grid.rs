//! The grid transform: every pixel of an image becomes one output cell, a
//! glyph from the brightness ramp paired with the pixel's original color.
//!
//! The output grid is indexed `[x][y]`: the outer index is the image's
//! x-coordinate (so the grid has `width` outer entries), the inner index is
//! the y-coordinate (each inner entry has `height` cells). Downstream
//! rendering iterates the grid in exactly this order, so the convention is
//! part of the contract.

use crate::pixel::{brightness_spec, transparent_black, Pixel};
use crate::ramp::{glyph_spec, ramp_char};
use vstd::prelude::*;

verus! {

/// One cell of the output grid: the glyph a pixel maps to, together with the
/// pixel's original color for optional truecolor tinting.
#[derive(Clone, Copy, Debug, PartialEq, Eq, Structural)]
pub struct OutputCell {
    pub glyph: char,
    pub color: Pixel,
}

/// The cell a pixel maps to: the glyph of the pixel's brightness, and the
/// pixel itself as the color.
pub open spec fn cell_spec(p: Pixel) -> OutputCell {
    OutputCell { glyph: glyph_spec(brightness_spec(p)), color: p }
}

/// The sentinel cell: the space glyph with fully transparent black color.
/// A fully transparent black pixel maps to exactly this cell.
pub open spec fn blank_cell() -> OutputCell {
    OutputCell { glyph: ' ', color: transparent_black() }
}

/// A decoded image: its dimensions and its pixels in row-major order
/// (the pixel at image coordinates `(x, y)` sits at index `y * width + x`).
pub struct PixelImage {
    pub width: usize,
    pub height: usize,
    pub pixels: Vec<Pixel>,
}

impl PixelImage {
    /// A well-formed image holds exactly one pixel per coordinate.
    pub open spec fn wf(self) -> bool {
        self.pixels@.len() == self.width * self.height
    }

    /// The pixel at image coordinates `(x, y)`.
    pub open spec fn pixel_at(self, x: int, y: int) -> Pixel {
        self.pixels@[y * self.width + x]
    }

    /// Builds an image from its dimensions and row-major pixel data.
    /// Succeeds exactly when the data holds one pixel per coordinate.
    pub fn new(width: usize, height: usize, pixels: Vec<Pixel>) -> (result: Option<PixelImage>)
        ensures
            result is Some <==> pixels@.len() == width * height,
            result matches Some(img) ==> img.width == width && img.height == height
                && img.pixels@ == pixels@ && img.wf(),
    {
        let len: usize = pixels.len();
        match width.checked_mul(height) {
            Some(expected) if expected == len => Some(PixelImage { width, height, pixels }),
            _ => None,
        }
    }
}

/// The grid an image transforms to: `width` outer entries, each of `height`
/// cells, with the cell at `[x][y]` computed from the pixel at `(x, y)`.
pub open spec fn grid_spec(img: PixelImage) -> Seq<Seq<OutputCell>> {
    Seq::new(
        img.width as nat,
        |x: int| Seq::new(img.height as nat, |y: int| cell_spec(img.pixel_at(x, y))),
    )
}

/// The mathematical view of an output grid: the sequence of its rows' views.
pub open spec fn grid_view(g: Vec<Vec<OutputCell>>) -> Seq<Seq<OutputCell>> {
    g@.map_values(|row: Vec<OutputCell>| row@)
}

/// Transforms an image into its output grid: one cell per pixel, the cell at
/// `[x][y]` holding the glyph of the brightness of the pixel at `(x, y)` and
/// that pixel's color. The grid has exactly `width` outer entries of exactly
/// `height` cells each.
pub fn image_to_ascii(image: &PixelImage) -> (grid: Vec<Vec<OutputCell>>)
    requires
        image.wf(),
    ensures
        grid@.len() == image.width,
        forall|x: int| 0 <= x < image.width ==> #[trigger] grid@[x]@.len() == image.height,
        grid_view(grid) == grid_spec(*image),
{
    let width: usize = image.width;
    let height: usize = image.height;
    let total: usize = image.pixels.len();
    let mut grid: Vec<Vec<OutputCell>> = Vec::new();
    let mut x: usize = 0;
    while x < width
        invariant
            x <= width,
            width == image.width,
            height == image.height,
            total == image.pixels@.len(),
            image.wf(),
            grid@.len() == x,
            forall|i: int| 0 <= i < x ==> #[trigger] grid@[i]@ == grid_spec(*image)[i],
        decreases width - x,
    {
        let mut row: Vec<OutputCell> = Vec::new();
        let mut y: usize = 0;
        while y < height
            invariant
                y <= height,
                x < width,
                width == image.width,
                height == image.height,
                total == image.pixels@.len(),
                image.wf(),
                row@.len() == y,
                forall|j: int| 0 <= j < y ==> #[trigger] row@[j] == cell_spec(
                    image.pixel_at(x as int, j),
                ),
            decreases height - y,
        {
            assert(y * width + x < width * height) by (nonlinear_arith)
                requires
                    x < width,
                    y < height,
            ;
            let index: usize = y * width + x;
            let p: Pixel = image.pixels[index];
            let brightness: u8 = crate::pixel::rgba_to_brightness(&p);
            let glyph: char = crate::ramp::get_ascii_from_brightness(brightness);
            row.push(OutputCell { glyph, color: p });
            y = y + 1;
        }
        assert(row@ =~= grid_spec(*image)[x as int]);
        grid.push(row);
        x = x + 1;
    }
    assert(grid_view(grid) =~~= grid_spec(*image));
    grid
}

/// The transform is deterministic: two grids produced from the same image are
/// equal, the grid being a pure function of the image's pixels alone.
pub proof fn lemma_image_to_ascii_deterministic(
    img: PixelImage,
    g1: Vec<Vec<OutputCell>>,
    g2: Vec<Vec<OutputCell>>,
)
    requires
        grid_view(g1) == grid_spec(img),
        grid_view(g2) == grid_spec(img),
    ensures
        grid_view(g1) == grid_view(g2),
{
}

/// An image whose pixels are all fully transparent black transforms to a grid
/// whose every cell is the sentinel: the space glyph with zero color.
pub proof fn lemma_transparent_image_blank(img: PixelImage)
    requires
        img.wf(),
        forall|i: int| 0 <= i < img.pixels@.len() ==> #[trigger] img.pixels@[i]
            == transparent_black(),
    ensures
        forall|x: int, y: int|
            0 <= x < img.width && 0 <= y < img.height ==> #[trigger] grid_spec(img)[x][y]
                == blank_cell(),
{
    assert forall|x: int, y: int|
        0 <= x < img.width && 0 <= y < img.height implies #[trigger] grid_spec(img)[x][y]
        == blank_cell() by {
        assert(0 <= y * img.width + x < img.width * img.height) by (nonlinear_arith)
            requires
                0 <= x < img.width,
                0 <= y < img.height,
        ;
        assert(img.pixel_at(x, y) == transparent_black());
        assert(ramp_char(0) == ' ');
    }
}

} // verus!
