//! Partial-update windows: validation, and extraction of a window's bytes
//! from a full frame.

use vstd::prelude::*;

use crate::error::Error;
use crate::color::Rotation;
use crate::framebuffer::{bit_color, row_bytes, Bitmap};
use crate::panel::PanelVariant;

verus! {

/// A window of `w` by `h` pixels with top left pixel `(x, y)` is valid on a
/// panel when it holds at least one pixel, lies within the panel, and its
/// width and height are multiples of the panel's addressing granularity.
pub open spec fn window_valid(panel: PanelVariant, x: int, y: int, w: int, h: int) -> bool {
    &&& 0 <= x
    &&& 0 <= y
    &&& w > 0
    &&& h > 0
    &&& x + w <= panel.width()
    &&& y + h <= panel.height()
    &&& w % (panel.granularity() as int) == 0
    &&& h % (panel.granularity() as int) == 0
}

/// The bytes of a window, cut from a full frame row by row. Each row of the
/// window is `w / 8` bytes long and starts at the byte that holds pixel `x`
/// of frame row `y + row`.
pub open spec fn window_bytes(panel: PanelVariant, frame: Seq<u8>, x: int, y: int, w: int, h: int)
    -> Seq<u8> {
    let columns = w / 8;
    let stride = row_bytes(panel.width() as nat) as int;
    Seq::new(
        (columns * h) as nat,
        |i: int| frame[(y + i / columns) * stride + x / 8 + i % columns],
    )
}

/// The window holds `h` rows of `w / 8` bytes, and the byte at
/// `(row, column)` of the window is the byte `column` places after the one
/// that holds pixel `x` in frame row `y + row`, which exists in a full
/// frame.
pub proof fn lemma_window_is_row_major(
    panel: PanelVariant,
    frame: Seq<u8>,
    x: int,
    y: int,
    w: int,
    h: int,
    row: int,
    column: int,
)
    requires
        window_valid(panel, x, y, w, h),
        frame.len() == panel.frame_bytes(),
        0 <= row < h,
        0 <= column < w / 8,
    ensures
        window_bytes(panel, frame, x, y, w, h).len() == (w / 8) * h,
        0 <= row * (w / 8) + column < (w / 8) * h,
        0 <= (y + row) * row_bytes(panel.width() as nat) + x / 8 + column < frame.len(),
        window_bytes(panel, frame, x, y, w, h)[row * (w / 8) + column] == frame[(y + row)
            * row_bytes(panel.width() as nat) + x / 8 + column],
{
    let columns = w / 8;
    let stride = row_bytes(panel.width() as nat) as int;
    panel.lemma_geometry();
    lemma_cell_in_window(columns, h, row, column);
    lemma_cell_in_frame(panel, x, y, w, h, row, column);
}

/// A window holds the pixels of its rectangle. In the bytes of an unrotated
/// bitmap of the panel's size, the pixel `(px, py)` of the window, whose
/// columns start at `x` rounded down to a byte boundary, is found in row
/// `py - y` of the window, in the byte `px / 8 - x / 8` of that row, at the
/// bit it has in the bitmap.
pub proof fn lemma_window_holds_its_pixels(
    panel: PanelVariant,
    bitmap: Bitmap,
    x: int,
    y: int,
    w: int,
    h: int,
    px: int,
    py: int,
)
    requires
        bitmap.wf(),
        bitmap.width == panel.width(),
        bitmap.height == panel.height(),
        bitmap.rotation == Rotation::Rotate0,
        window_valid(panel, x, y, w, h),
        x - x % 8 <= px < x - x % 8 + w,
        y <= py < y + h,
    ensures
        0 <= (py - y) * (w / 8) + (px / 8 - x / 8) < window_bytes(
            panel,
            bitmap.bytes,
            x,
            y,
            w,
            h,
        ).len(),
        bitmap.pixel(px, py) == Some(
            bit_color(
                window_bytes(panel, bitmap.bytes, x, y, w, h)[(py - y) * (w / 8) + (px / 8 - x
                    / 8)],
                (px % 8) as u8,
            ),
        ),
{
    panel.lemma_geometry();
    bitmap.lemma_aligned_rows_hold_every_pixel(px, py);
    let row = py - y;
    let column = px / 8 - x / 8;
    lemma_window_is_row_major(panel, bitmap.bytes, x, y, w, h, row, column);
}

/// Index `row * columns + column` lies in a grid of `rows` by `columns`
/// cells and splits back into its row and column.
pub proof fn lemma_cell_in_window(columns: int, rows: int, row: int, column: int)
    requires
        0 <= row < rows,
        0 <= column < columns,
    ensures
        0 <= columns * rows,
        0 <= row * columns + column < columns * rows,
        (row * columns + column) / columns == row,
        (row * columns + column) % columns == column,
{
    assert(0 <= row * columns && row * columns + columns <= columns * rows) by (nonlinear_arith)
        requires
            0 <= row < rows,
            0 < columns,
    ;
    vstd::arithmetic::div_mod::lemma_fundamental_div_mod_converse(
        row * columns + column,
        columns,
        row,
        column,
    );
}

/// The byte of a valid window at `(row, column)` lies inside a full frame.
pub proof fn lemma_cell_in_frame(
    panel: PanelVariant,
    x: int,
    y: int,
    w: int,
    h: int,
    row: int,
    column: int,
)
    requires
        window_valid(panel, x, y, w, h),
        0 <= row < h,
        0 <= column < w / 8,
    ensures
        0 <= (y + row) * row_bytes(panel.width() as nat) + x / 8 + column
            < panel.frame_bytes(),
        x / 8 + w / 8 <= row_bytes(panel.width() as nat),
{
    panel.lemma_geometry();
    let stride = row_bytes(panel.width() as nat) as int;
    let height = panel.height() as int;
    assert(x / 8 + w / 8 <= stride);
    assert(0 <= (y + row) * stride && (y + row) * stride + stride <= height * stride)
        by (nonlinear_arith)
        requires
            0 <= y + row < height,
            0 <= stride,
    ;
    assert(stride * height == height * stride) by (nonlinear_arith);
}

/// Whether the window is valid on the panel.
pub fn check_window(panel: PanelVariant, x: u32, y: u32, w: u32, h: u32) -> (valid: bool)
    ensures
        valid == window_valid(panel, x as int, y as int, w as int, h as int),
{
    let width = panel.width();
    let height = panel.height();
    let granularity = panel.granularity();
    w > 0 && h > 0 && w <= width && x <= width - w && h <= height && y <= height - h && w
        % granularity == 0 && h % granularity == 0
}

/// Cuts the bytes of a window out of a full frame.
///
/// Fails with `InvalidWindow` where the window is not valid on the panel,
/// and with `SizeMismatch` where the window is valid but `frame` is not a
/// full frame of the panel.
pub fn extract_window(panel: PanelVariant, frame: &[u8], x: u32, y: u32, w: u32, h: u32) -> (cut:
    Result<Vec<u8>, Error>)
    ensures
        !window_valid(panel, x as int, y as int, w as int, h as int) ==> cut == Err::<
            Vec<u8>,
            Error,
        >(Error::InvalidWindow),
        window_valid(panel, x as int, y as int, w as int, h as int) && frame@.len()
            != panel.frame_bytes() ==> cut == Err::<Vec<u8>, Error>(Error::SizeMismatch),
        window_valid(panel, x as int, y as int, w as int, h as int) && frame@.len()
            == panel.frame_bytes() ==> cut is Ok && cut->Ok_0@ == window_bytes(
            panel,
            frame@,
            x as int,
            y as int,
            w as int,
            h as int,
        ),
{
    if !check_window(panel, x, y, w, h) {
        return Err(Error::InvalidWindow);
    }
    if frame.len() != panel.frame_bytes() {
        return Err(Error::SizeMismatch);
    }
    proof {
        panel.lemma_geometry();
    }
    let stride: usize = (panel.width() / 8) as usize;
    let columns: usize = (w / 8) as usize;
    let rows: usize = h as usize;
    let first: usize = (x / 8) as usize;
    let top: usize = y as usize;
    let ghost wanted = window_bytes(panel, frame@, x as int, y as int, w as int, h as int);
    let mut bytes: Vec<u8> = Vec::new();
    let mut row: usize = 0;
    while row < rows
        invariant
            window_valid(panel, x as int, y as int, w as int, h as int),
            frame@.len() == panel.frame_bytes(),
            stride == row_bytes(panel.width() as nat),
            columns == w / 8,
            rows == h,
            first == x / 8,
            top == y,
            wanted == window_bytes(panel, frame@, x as int, y as int, w as int, h as int),
            row <= rows,
            bytes@.len() == row * columns,
            forall|i: int| 0 <= i < bytes@.len() && i < wanted.len() ==> bytes@[i] == wanted[i],
        decreases rows - row,
    {
        proof {
            lemma_cell_in_frame(panel, x as int, y as int, w as int, h as int, row as int, 0);
            assert(row * columns + columns <= rows * columns) by (nonlinear_arith)
                requires
                    0 <= row < rows,
                    0 <= columns,
            ;
        }
        let start: usize = (top + row) * stride + first;
        let mut column: usize = 0;
        while column < columns
            invariant
                window_valid(panel, x as int, y as int, w as int, h as int),
                frame@.len() == panel.frame_bytes(),
                stride == row_bytes(panel.width() as nat),
                columns == w / 8,
                rows == h,
                first == x / 8,
                top == y,
                wanted == window_bytes(panel, frame@, x as int, y as int, w as int, h as int),
                row < rows,
                column <= columns,
                start == (top + row) * stride + first,
                bytes@.len() == row * columns + column,
                forall|i: int| 0 <= i < bytes@.len() && i < wanted.len() ==> bytes@[i] == wanted[i],
            decreases columns - column,
        {
            proof {
                lemma_cell_in_frame(
                    panel,
                    x as int,
                    y as int,
                    w as int,
                    h as int,
                    row as int,
                    column as int,
                );
                lemma_cell_in_window(columns as int, rows as int, row as int, column as int);
            }
            bytes.push(frame[start + column]);
            column += 1;
        }
        row += 1;
        assert(bytes@.len() == row * columns) by (nonlinear_arith)
            requires
                bytes@.len() == (row - 1) * columns + columns,
        ;
    }
    proof {
        assert(rows * columns == (w / 8) * h) by (nonlinear_arith)
            requires
                rows == h,
                columns == w / 8,
        ;
        assert(bytes@ =~= wanted);
    }
    Ok(bytes)
}

} // verus!
