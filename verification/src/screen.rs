//! Screen captures: what a capture reports, and the turning of a frame that
//! was read bottom row first into an image with its top row first.

use vstd::prelude::*;

verus! {

/// A capture that was written to an image file.
pub struct CaptureResult {
    bytes_written: usize,
    path: String,
}

/// Why a capture failed.
#[derive(Copy, Clone, Debug)]
pub enum CaptureError {
    /// The frame buffer could not be read out of the graphics device.
    CouldNotCaptureFromFrameBuffer,
    /// The image file could not be written.
    CouldNotWriteImageData,
}

impl CaptureResult {
    /// The number of bytes of image data that were written.
    pub closed spec fn written(&self) -> nat {
        self.bytes_written as nat
    }

    /// The path of the image file.
    pub closed spec fn location(&self) -> Seq<char> {
        self.path@
    }

    /// Records a capture of `bytes_written` bytes written to `path`.
    pub fn new(bytes_written: usize, path: String) -> (result: CaptureResult)
        ensures
            result.written() == bytes_written,
            result.location() == path@,
    {
        CaptureResult { bytes_written, path }
    }

    /// The number of bytes of image data that were written.
    pub fn bytes_written(&self) -> (count: usize)
        ensures
            count == self.written(),
    {
        self.bytes_written
    }

    /// The path of the image file.
    pub fn path(&self) -> (path: &str)
        ensures
            path@ == self.location(),
    {
        self.path.as_str()
    }
}

/// The index of the byte in column `col` of row `row`, in an image whose
/// rows are `width` bytes long.
pub open spec fn cell(row: int, col: int, width: int) -> int {
    row * width + col
}

/// The image whose rows are those of `image` in reverse order. `image` has
/// `height` rows of `width` bytes each.
pub open spec fn flipped(image: Seq<u8>, height: int, width: int) -> Seq<u8> {
    Seq::new(image.len(), |k: int| image[cell(height - 1 - k / width, k % width, width)])
}

/// A cell of an image lies inside the image.
proof fn lemma_cell_bound(row: int, col: int, height: int, width: int)
    requires
        0 <= row < height,
        0 <= col < width,
    ensures
        0 <= cell(row, col, width) < height * width,
{
    assert(row * width + col < height * width) by (nonlinear_arith)
        requires
            0 <= row < height,
            0 <= col < width,
    ;
    assert(0 <= row * width) by (nonlinear_arith)
        requires
            0 <= row,
            0 <= width,
    ;
}

/// Two cells with one index are one cell.
proof fn lemma_cell_unique(row: int, col: int, other_row: int, other_col: int, width: int)
    requires
        0 <= col < width,
        0 <= other_col < width,
        cell(row, col, width) == cell(other_row, other_col, width),
    ensures
        row == other_row,
        col == other_col,
{
    assert(row == other_row) by (nonlinear_arith)
        requires
            0 <= col < width,
            0 <= other_col < width,
            row * width + col == other_row * width + other_col,
    ;
}

/// Every index into an image is the index of one of its cells.
proof fn lemma_cell_of_index(k: int, height: int, width: int)
    requires
        0 <= k < height * width,
        0 <= height,
        0 <= width,
    ensures
        0 < width,
        0 <= k / width < height,
        0 <= k % width < width,
        cell(k / width, k % width, width) == k,
{
    assert(0 < width) by (nonlinear_arith)
        requires
            0 <= k < height * width,
            0 <= width,
    ;
    vstd::arithmetic::div_mod::lemma_fundamental_div_mod(k, width);
    vstd::arithmetic::div_mod::lemma_mod_bound(k, width);
    assert(width * (k / width) == (k / width) * width) by (nonlinear_arith);
    assert(0 <= k / width < height) by (nonlinear_arith)
        requires
            0 <= k < height * width,
            0 < width,
            k == (k / width) * width + k % width,
            0 <= k % width < width,
    ;
}

/// Turning an image upside down twice gives the image back.
pub proof fn lemma_flipped_twice(image: Seq<u8>, height: int, width: int)
    requires
        0 <= height,
        0 <= width,
        image.len() == height * width,
    ensures
        flipped(flipped(image, height, width), height, width) == image,
{
    let once = flipped(image, height, width);
    let twice = flipped(once, height, width);
    assert forall|k: int| 0 <= k < image.len() implies twice[k] == image[k] by {
        lemma_cell_of_index(k, height, width);
        let row = height - 1 - k / width;
        let col = k % width;
        let from = cell(row, col, width);
        lemma_cell_bound(row, col, height, width);
        vstd::arithmetic::div_mod::lemma_fundamental_div_mod_converse(from, width, row, col);
        assert(twice[k] == once[from]);
        assert(once[from] == image[cell(height - 1 - from / width, from % width, width)]);
    }
    assert(twice =~= image);
}

/// The row that the byte in row `row` comes from, once the `done` rows at
/// the top have changed places with the `done` rows at the bottom.
pub open spec fn source_row(row: int, done: int, height: int) -> int {
    if row < done || row >= height - done {
        height - 1 - row
    } else {
        row
    }
}

/// Turns an image upside down in place: the first row changes places with
/// the last, the second with the last but one, and so on. The image has
/// `height` rows of `width_in_bytes` bytes each.
pub fn flip_rows(image: &mut Vec<u8>, height: usize, width_in_bytes: usize)
    requires
        old(image)@.len() == height * width_in_bytes,
    ensures
        final(image)@ == flipped(old(image)@, height as int, width_in_bytes as int),
{
    let ghost before = image@;
    let ghost h = height as int;
    let ghost w = width_in_bytes as int;
    let len = image.len();
    let half_height = height / 2;
    let mut row: usize = 0;
    while row < half_height
        invariant
            len == h * w,
            h == height,
            w == width_in_bytes,
            half_height == height / 2,
            row <= half_height,
            before.len() == h * w,
            image@.len() == before.len(),
            forall|r: int, c: int|
                0 <= r < h && 0 <= c < w ==> image@[#[trigger] cell(r, c, w)] == before[cell(
                    source_row(r, row as int, h),
                    c,
                    w,
                )],
        decreases half_height - row,
    {
        let mut col: usize = 0;
        while col < width_in_bytes
            invariant
                len == h * w,
                h == height,
                w == width_in_bytes,
                half_height == height / 2,
                row < half_height,
                col <= width_in_bytes,
                before.len() == h * w,
                image@.len() == before.len(),
                forall|r: int, c: int|
                    0 <= r < h && 0 <= c < w ==> image@[#[trigger] cell(r, c, w)] == before[cell(
                        if (r == row || r == h - 1 - row) && c < col {
                            h - 1 - r
                        } else {
                            source_row(r, row as int, h)
                        },
                        c,
                        w,
                    )],
            decreases width_in_bytes - col,
        {
            let ghost held = image@;
            proof {
                lemma_cell_bound(row as int, col as int, h, w);
                lemma_cell_bound(h - 1 - row, col as int, h, w);
                assert(0 <= row * w) by (nonlinear_arith)
                    requires
                        0 <= row,
                        0 <= w,
                ;
                assert(0 <= (h - 1 - row) * w) by (nonlinear_arith)
                    requires
                        0 <= h - 1 - row,
                        0 <= w,
                ;
            }
            let top = row * width_in_bytes + col;
            let bottom = (height - row - 1) * width_in_bytes + col;
            let temp = image[top];
            let other = image[bottom];
            image.set(top, other);
            image.set(bottom, temp);
            proof {
                assert forall|r: int, c: int| 0 <= r < h && 0 <= c < w implies image@[#[trigger] cell(
                    r,
                    c,
                    w,
                )] == before[cell(
                    if (r == row || r == h - 1 - row) && c < col + 1 {
                        h - 1 - r
                    } else {
                        source_row(r, row as int, h)
                    },
                    c,
                    w,
                )] by {
                    lemma_cell_bound(r, c, h, w);
                    if cell(r, c, w) == top {
                        lemma_cell_unique(r, c, row as int, col as int, w);
                        assert(image@[top as int] == held[cell(h - 1 - row, col as int, w)]);
                    } else if cell(r, c, w) == bottom {
                        lemma_cell_unique(r, c, h - 1 - row, col as int, w);
                        assert(image@[bottom as int] == held[cell(row as int, col as int, w)]);
                    } else {
                        assert(image@[cell(r, c, w)] == held[cell(r, c, w)]);
                    }
                }
            }
            col += 1;
        }
        row += 1;
    }
    proof {
        assert forall|k: int| 0 <= k < before.len() implies image@[k] == flipped(before, h, w)[k] by {
            lemma_cell_of_index(k, h, w);
            let r = k / w;
            let c = k % w;
            assert(image@[cell(r, c, w)] == before[cell(source_row(r, row as int, h), c, w)]);
            if r != h - 1 - r {
                assert(source_row(r, row as int, h) == h - 1 - r);
            }
        }
        assert(image@ =~= flipped(before, h, w));
    }
}

/// The number of bytes of a frame of `height` rows of `width` pixels with
/// `depth` bytes each, if there is such a number of the machine's size.
pub fn frame_len(height: usize, width: usize, depth: usize) -> (len: Option<usize>)
    ensures
        height * width * depth <= usize::MAX ==> len == Some((height * width * depth) as usize),
        height * width * depth > usize::MAX ==> len is None,
{
    if height == 0 || width == 0 || depth == 0 {
        assert(height * width * depth == 0) by (nonlinear_arith)
            requires
                height == 0 || width == 0 || depth == 0,
        ;
        return Some(0);
    }
    match height.checked_mul(width) {
        None => {
            assert(height * width * depth >= height * width) by (nonlinear_arith)
                requires
                    depth >= 1,
                    height >= 0,
                    width >= 0,
            ;
            None
        },
        Some(area) => area.checked_mul(depth),
    }
}

/// Turns a frame upside down in place. The frame has `height` rows of
/// `width` pixels with `depth` bytes each.
pub fn flip_frame(image: &mut Vec<u8>, height: usize, width: usize, depth: usize)
    requires
        old(image)@.len() == height * width * depth,
    ensures
        final(image)@ == flipped(old(image)@, height as int, width * depth),
{
    if height == 0 {
        assert(height * width * depth == 0) by (nonlinear_arith)
            requires
                height == 0,
        ;
        assert(image@ =~= flipped(image@, height as int, width * depth));
        return ;
    }
    assert(image.len() <= usize::MAX);
    assert(width * depth <= height * width * depth && height * width * depth == height * (width
        * depth)) by (nonlinear_arith)
        requires
            height >= 1,
            width >= 0,
            depth >= 0,
    ;
    flip_rows(image, height, width * depth);
}

impl CaptureError {
    /// What went wrong, in words.
    pub fn message(&self) -> (text: &'static str)
        ensures
            text@ == match *self {
                CaptureError::CouldNotCaptureFromFrameBuffer =>
                    "The frame buffer map provided reported failing to read out the frame buffer data from the graphics device."@,
                CaptureError::CouldNotWriteImageData =>
                    "We could not write out the screenshot to an image file."@,
            },
    {
        match self {
            CaptureError::CouldNotCaptureFromFrameBuffer => {
                "The frame buffer map provided reported failing to read out the frame buffer data from the graphics device."
            },
            CaptureError::CouldNotWriteImageData => {
                "We could not write out the screenshot to an image file."
            },
        }
    }
}

} // verus!
