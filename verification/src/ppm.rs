//! Plain-text PPM image encoding.
//!
//! An image is the header `P3`, the dimensions, the maximum channel value
//! `255`, and then one `r g b` line per pixel: rows from the top of the
//! image (the highest `y`) down to the bottom, each row left to right.

use vstd::prelude::*;
use vstd::string::StringExecFns;
use vstd::arithmetic::div_mod::lemma_fundamental_div_mod_converse;
use crate::color::Color;
use crate::color::color_text;
use crate::decimal::dec_of;
use crate::decimal::u32_to_decimal;

verus! {

/// The header of a plain-text PPM image of the given dimensions.
pub open spec fn ppm_header(width: nat, height: nat) -> Seq<char> {
    seq!['P', '3', '\n'] + dec_of(width) + seq![' '] + dec_of(height) + seq![
        '\n',
        '2',
        '5',
        '5',
        '\n',
    ]
}

/// The pixel lines of a PPM image: one `r g b` line per pixel, in the
/// order in which the grid lists them.
pub open spec fn ppm_body(grid: Seq<Color>) -> Seq<char>
    decreases grid.len(),
{
    if grid.len() == 0 {
        Seq::empty()
    } else {
        color_text(grid[0]) + seq!['\n'] + ppm_body(grid.drop_first())
    }
}

/// The complete text of a PPM image: header, then pixel lines.
pub open spec fn ppm_content(width: nat, height: nat, grid: Seq<Color>) -> Seq<char> {
    ppm_header(width, height) + ppm_body(grid)
}

/// The image x-coordinate of the pixel emitted at position `i`.
pub open spec fn pixel_x(i: int, width: int) -> int {
    i % width
}

/// The image y-coordinate of the pixel emitted at position `i`: the top
/// row (`y == height - 1`) comes first.
pub open spec fn pixel_y(i: int, width: int, height: int) -> int {
    height - 1 - i / width
}

/// The grid lists, pixel by pixel in emission order, values that the
/// pixel function could return for the matching coordinates.
pub open spec fn grid_matches<F: Fn(u32, u32) -> Color>(
    pixels: F,
    width: u32,
    height: u32,
    grid: Seq<Color>,
) -> bool {
    &&& grid.len() == width * height
    &&& forall|i: int|
        0 <= i < grid.len() ==> call_ensures(
            pixels,
            (pixel_x(i, width as int) as u32, pixel_y(i, width as int, height as int) as u32),
            #[trigger] grid[i],
        )
}

/// Appending a pixel to the grid appends its line to the image body.
proof fn lemma_ppm_body_push(grid: Seq<Color>, c: Color)
    ensures
        ppm_body(grid.push(c)) == ppm_body(grid) + color_text(c) + seq!['\n'],
    decreases grid.len(),
{
    if grid.len() == 0 {
        assert(grid.push(c)[0] == c);
        assert(grid.push(c).drop_first() =~= Seq::<Color>::empty());
        assert(ppm_body(grid.push(c).drop_first()) =~= Seq::<char>::empty());
        assert(ppm_body(grid.push(c)) =~= color_text(c) + seq!['\n']);
        assert(ppm_body(grid) =~= Seq::<char>::empty());
        assert(ppm_body(grid.push(c)) =~= ppm_body(grid) + color_text(c) + seq!['\n']);
    } else {
        lemma_ppm_body_push(grid.drop_first(), c);
        assert(grid.push(c)[0] == grid[0]);
        assert(grid.push(c).drop_first() =~= grid.drop_first().push(c));
        assert(ppm_body(grid.push(c)) =~= color_text(grid[0]) + seq!['\n'] + (ppm_body(
            grid.drop_first(),
        ) + color_text(c) + seq!['\n']));
        assert(ppm_body(grid.push(c)) =~= ppm_body(grid) + color_text(c) + seq!['\n']);
    }
}

/// Encodes an already-sampled pixel grid, listed in emission order, as a
/// PPM image.
#[verifier::loop_isolation(false)]
pub fn encode_pixels(width: u32, height: u32, grid: &Vec<Color>) -> (s: String)
    requires
        grid@.len() == width * height,
    ensures
        s@ == ppm_content(width as nat, height as nat, grid@),
{
    let mut s = String::from_str("P3\n");
    let w = u32_to_decimal(width);
    s.append(w.as_str());
    s.append(" ");
    let h = u32_to_decimal(height);
    s.append(h.as_str());
    s.append("\n255\n");
    proof {
        reveal_strlit("P3\n");
        reveal_strlit(" ");
        reveal_strlit("\n255\n");
        assert(s@ =~= ppm_header(width as nat, height as nat));
    }
    let mut i: usize = 0;
    while i < grid.len()
        invariant
            i <= grid@.len(),
            s@ == ppm_header(width as nat, height as nat) + ppm_body(
                grid@.take(i as int),
            ),
        decreases grid@.len() - i,
    {
        let line = grid[i].to_string();
        s.append(line.as_str());
        s.append("\n");
        proof {
            reveal_strlit("\n");
            lemma_ppm_body_push(grid@.take(i as int), grid@[i as int]);
            assert(grid@.take(i as int + 1) =~= grid@.take(i as int).push(grid@[i as int]));
            assert(s@ =~= ppm_header(width as nat, height as nat) + ppm_body(
                grid@.take(i as int + 1),
            ));
        }
        i = i + 1;
    }
    proof {
        assert(grid@.take(grid@.len() as int) =~= grid@);
    }
    s
}

/// Samples every pixel of a `width` by `height` image with the given
/// pixel function — rows from the top of the image down, each row left to
/// right — and encodes the result as a PPM image.
#[verifier::loop_isolation(false)]
pub fn get_file_content<F: Fn(u32, u32) -> Color>(width: u32, height: u32, pixels: F) -> (s:
    String)
    requires
        forall|x: u32, y: u32| x < width && y < height ==> call_requires(pixels, (x, y)),
    ensures
        exists|grid: Seq<Color>|
            #[trigger] grid_matches(pixels, width, height, grid) && s@ == ppm_content(
                width as nat,
                height as nat,
                grid,
            ),
{
    let mut grid: Vec<Color> = Vec::new();
    let mut yi: u32 = height;
    while yi > 0
        invariant
            yi <= height,
            grid@.len() == (height - yi) * width,
            forall|i: int|
                0 <= i < grid@.len() ==> call_ensures(
                    pixels,
                    (
                        pixel_x(i, width as int) as u32,
                        pixel_y(i, width as int, height as int) as u32,
                    ),
                    #[trigger] grid@[i],
                ),
        decreases yi,
    {
        yi = yi - 1;
        let mut x: u32 = 0;
        while x < width
            invariant
                x <= width,
                yi < height,
                grid@.len() == (height - 1 - yi) * width + x,
                forall|i: int|
                    0 <= i < grid@.len() ==> call_ensures(
                        pixels,
                        (
                            pixel_x(i, width as int) as u32,
                            pixel_y(i, width as int, height as int) as u32,
                        ),
                        #[trigger] grid@[i],
                    ),
            decreases width - x,
        {
            let c = pixels(x, yi);
            proof {
                let i0 = (height - 1 - yi) * width + x;
                lemma_fundamental_div_mod_converse(
                    i0 as int,
                    width as int,
                    (height - 1 - yi) as int,
                    x as int,
                );
                assert(pixel_x(i0 as int, width as int) == x);
                assert(pixel_y(i0 as int, width as int, height as int) == yi);
            }
            grid.push(c);
            x = x + 1;
        }
        proof {
            assert((height - 1 - yi) * width + width == (height - yi) * width)
                by (nonlinear_arith);
        }
    }
    let s = encode_pixels(width, height, &grid);
    proof {
        assert(grid@.len() == width * height) by (nonlinear_arith)
            requires
                grid@.len() == (height - 0) * width,
        ;
        assert(grid_matches(pixels, width, height, grid@));
    }
    s
}

} // verus!
