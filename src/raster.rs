use vstd::prelude::*;

verus! {

// An image of `width` by `height` pixels is held in a row-major buffer whose first row
// is the top row of the image. The camera counts rows from the bottom.

/// Column, and row counted from the bottom, of the pixel held in buffer slot `i`.
pub open spec fn pixel_at(i: int, width: int, height: int) -> (int, int) {
    (i % width, height - 1 - i / width)
}

/// Buffer slot of the pixel in column `x` and row `row`, rows counted from the top.
pub open spec fn slot_at(x: int, row: int, width: int) -> int {
    x + row * width
}

/// Column, and row counted from the bottom, of the pixel held in buffer slot `i`.
pub fn pixel_of_slot(i: usize, width: usize, height: usize) -> (r: (usize, usize))
    requires
        width > 0,
        i < width * height,
    ensures
        (r.0 as int, r.1 as int) == pixel_at(i as int, width as int, height as int),
        r.0 < width,
        r.1 < height,
{
    proof {
        assert(i / width < height) by (nonlinear_arith)
            requires
                width > 0,
                i < width * height,
        ;
    }
    (i % width, (height - 1) - (i / width))
}

/// Buffer slot of the pixel in column `x` and row `row`, rows counted from the top.
pub fn slot_of_pixel(x: usize, row: usize, width: usize, height: usize) -> (r: usize)
    requires
        x < width,
        row < height,
        width * height <= usize::MAX,
    ensures
        r as int == slot_at(x as int, row as int, width as int),
        r < width * height,
{
    proof {
        assert(x + row * width < width * height) by (nonlinear_arith)
            requires
                x < width,
                row < height,
        ;
    }
    x + row * width
}

/// Slots and pixels correspond one to one: the slot of the pixel that slot `i` holds is
/// `i`, and the slot of column `x`, row `row` from the top, holds the pixel of column
/// `x`, row `height - 1 - row` from the bottom.
pub proof fn lemma_slots_match_pixels(width: int, height: int, i: int, x: int, row: int)
    requires
        width > 0,
    ensures
        0 <= i < width * height ==> {
            let p = pixel_at(i, width, height);
            slot_at(p.0, height - 1 - p.1, width) == i
        },
        0 <= x < width && 0 <= row < height ==> pixel_at(slot_at(x, row, width), width, height)
            == (x, height - 1 - row),
{
    if 0 <= i < width * height {
        vstd::arithmetic::div_mod::lemma_fundamental_div_mod(i, width);
        assert((i / width) * width == width * (i / width)) by (nonlinear_arith);
    }
    if 0 <= x < width && 0 <= row < height {
        vstd::arithmetic::div_mod::lemma_fundamental_div_mod_converse(
            x + row * width,
            width,
            row,
            x,
        );
    }
}

} // verus!
