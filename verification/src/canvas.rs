//! Pixel canvases for the platform's screen compositing.
//!
//! A canvas is a width-by-height buffer of packed 32-bit pixels; the
//! canvas table hands out stable numeric handles for guest-visible canvas
//! objects.  Decoding a BMP image into pixels is the one job done by an
//! outside decoder, behind a trusted boundary.

use vstd::prelude::*;
use crate::error::EmuError;

verus! {

/// The abstract state of a canvas: its size and its pixels, row-major.
#[verifier::ext_equal]
pub struct CanvasView {
    pub width: u32,
    pub height: u32,
    pub buf: Seq<u32>,
}

/// A canvas holds exactly one pixel per cell.
pub open spec fn canvas_wf(v: CanvasView) -> bool {
    v.buf.len() == v.width * v.height
}

/// What the outside decoder makes of a byte stream read as a BMP image:
/// dimensions and row-major pixels, or nothing when the bytes are no such
/// image.  The format is pinned, so the result depends on the bytes alone.
pub uninterp spec fn bmp_decode(data: Seq<u8>) -> Option<(u32, u32, Seq<u32>)>;

/// Relies on `image::ImageReader::with_format` with the BMP format,
/// `decode`, and `into_rgba8`.  The pinned format routes every call to the
/// built-in BMP decoder under its fixed default limits, so decoding
/// depends on the input bytes alone, and the decoded buffer holds exactly
/// width-times-height pixels, each the big-endian packing of its four
/// channel bytes.
#[verifier::external_body]
fn decode_image_bytes(data: &[u8]) -> (r: Option<(u32, u32, Vec<u32>)>)
    ensures
        match (r, bmp_decode(data@)) {
            (Some((w, h, px)), Some((sw, sh, spx))) =>
                w == sw && h == sh && px@ == spx && px@.len() == w * h,
            (None, None) => true,
            _ => false,
        },
{
    let reader = image::ImageReader::with_format(std::io::Cursor::new(data),
        image::ImageFormat::Bmp);
    let decoded = reader.decode().ok()?;
    let rgba = decoded.into_rgba8();
    let (w, h) = (rgba.width(), rgba.height());
    let pixels = rgba.pixels().map(|p| u32::from_be_bytes(p.0)).collect::<Vec<u32>>();
    Some((w, h, pixels))
}

/// One off-screen pixel surface.
pub struct Canvas {
    width: u32,
    height: u32,
    buf: Vec<u32>,
}

impl View for Canvas {
    type V = CanvasView;

    closed spec fn view(&self) -> CanvasView {
        CanvasView { width: self.width, height: self.height, buf: self.buf@ }
    }
}

impl Canvas {
    /// A canvas over an existing pixel buffer.
    pub fn from_raw(width: u32, height: u32, buf: Vec<u32>) -> (c: Canvas)
        requires
            buf@.len() == width * height,
        ensures
            c@ == (CanvasView { width, height, buf: buf@ }),
            canvas_wf(c@),
    {
        Canvas { width, height, buf }
    }

    /// A black canvas of the given size.
    pub fn from_size(width: u32, height: u32) -> (c: Canvas)
        requires
            width * height <= u32::MAX,
        ensures
            c@.width == width,
            c@.height == height,
            c@.buf == Seq::new((width * height) as nat, |i: int| 0u32),
            canvas_wf(c@),
    {
        let n = (width as u64 * height as u64) as usize;
        let c = Canvas { width, height, buf: vec![0u32; n] };
        proof {
            assert(c@.buf =~= Seq::new((width * height) as nat, |i: int| 0u32));
        }
        c
    }

    /// Decode a BMP image into a canvas; bytes that are no such image are
    /// a host collaborator failure.
    pub fn from_image(image: &[u8]) -> (r: Result<Canvas, EmuError>)
        ensures
            match (r, bmp_decode(image@)) {
                (Ok(c), Some((w, h, px))) => c@ == (CanvasView { width: w, height: h, buf: px })
                    && canvas_wf(c@),
                (Err(e), None) => e == EmuError::HostIoFailure,
                _ => false,
            },
    {
        match decode_image_bytes(image) {
            Some((width, height, buf)) => Ok(Canvas { width, height, buf }),
            None => Err(EmuError::HostIoFailure),
        }
    }

    /// The canvas width in pixels.
    pub fn width(&self) -> (r: u32)
        ensures
            r == self@.width,
    {
        self.width
    }

    /// The canvas height in pixels.
    pub fn height(&self) -> (r: u32)
        ensures
            r == self@.height,
    {
        self.height
    }

    /// Every pixel occupies four bytes.
    pub fn bytes_per_pixel(&self) -> (r: u32)
        ensures
            r == 4,
    {
        4
    }

    /// The pixel buffer, row-major.
    pub fn buffer(&self) -> (r: &[u32])
        ensures
            r@ == self@.buf,
    {
        self.buf.as_slice()
    }

    /// Copy a `w` by `h` block out of `buf` (rows of `line_size` pixels,
    /// starting at column `sx`, row `sy`) to position `(dx, dy)`: exactly
    /// the destination rectangle changes, cell for cell.
    pub fn draw(&mut self, dx: u32, dy: u32, w: u32, h: u32, buf: &[u32], sx: u32, sy: u32,
        line_size: u32)
        requires
            canvas_wf(old(self)@),
            old(self)@.width * old(self)@.height <= u32::MAX,
            dx + w <= old(self)@.width,
            dy + h <= old(self)@.height,
            sx + w <= line_size,
            (sy + h) * line_size <= buf@.len(),
            buf@.len() <= usize::MAX,
        ensures
            final(self)@.width == old(self)@.width,
            final(self)@.height == old(self)@.height,
            final(self)@.buf.len() == old(self)@.buf.len(),
            canvas_wf(final(self)@),
            forall|x: int, y: int| 0 <= x < w && 0 <= y < h
                ==> #[trigger] final(self)@.buf[(dy + y) * old(self)@.width + (dx + x)]
                    == buf@[(sy + y) * line_size + (sx + x)],
            forall|p: int| 0 <= p < old(self)@.buf.len()
                && !in_rect(p, old(self)@.width as int, dx as int, dy as int, w as int, h as int)
                ==> #[trigger] final(self)@.buf[p] == old(self)@.buf[p],
    {
        let width = self.width;
        let ghost wd = width as int;
        let mut y: u32 = 0;
        while y < h
            invariant
                y <= h,
                width == old(self)@.width,
                wd == width as int,
                self@.width == old(self)@.width,
                self@.height == old(self)@.height,
                self@.buf.len() == old(self)@.buf.len(),
                canvas_wf(old(self)@),
                old(self)@.width * old(self)@.height <= u32::MAX,
                dx + w <= old(self)@.width,
                dy + h <= old(self)@.height,
                sx + w <= line_size,
                (sy + h) * line_size <= buf@.len(),
                buf@.len() <= usize::MAX,
                forall|x: int, yy: int| 0 <= x < w && 0 <= yy < y
                    ==> #[trigger] self@.buf[(dy + yy) * wd + (dx + x)]
                        == buf@[(sy + yy) * line_size + (sx + x)],
                forall|p: int| 0 <= p < old(self)@.buf.len()
                    && !in_rect(p, wd, dx as int, dy as int, w as int, y as int)
                    ==> #[trigger] self@.buf[p] == old(self)@.buf[p],
            decreases h - y,
        {
            let mut x: u32 = 0;
            while x < w
                invariant
                    y < h,
                    x <= w,
                    width == old(self)@.width,
                    wd == width as int,
                    self@.width == old(self)@.width,
                    self@.height == old(self)@.height,
                    self@.buf.len() == old(self)@.buf.len(),
                    canvas_wf(old(self)@),
                    old(self)@.width * old(self)@.height <= u32::MAX,
                    dx + w <= old(self)@.width,
                    dy + h <= old(self)@.height,
                    sx + w <= line_size,
                    (sy + h) * line_size <= buf@.len(),
                    buf@.len() <= usize::MAX,
                    forall|xx: int, yy: int| 0 <= xx < w && 0 <= yy < y
                        ==> #[trigger] self@.buf[(dy + yy) * wd + (dx + xx)]
                            == buf@[(sy + yy) * line_size + (sx + xx)],
                    forall|xx: int| 0 <= xx < x
                        ==> #[trigger] self@.buf[(dy + y) * wd + (dx + xx)]
                            == buf@[(sy + y) * line_size + (sx + xx)],
                    forall|p: int| 0 <= p < old(self)@.buf.len()
                        && !in_rect(p, wd, dx as int, dy as int, w as int, y as int)
                        && !in_rect(p, wd, dx as int, dy + y, x as int, 1)
                        ==> #[trigger] self@.buf[p] == old(self)@.buf[p],
                decreases w - x,
            {
                proof {
                    lemma_draw_dst_in_range(old(self)@.width as int, old(self)@.height as int,
                        dx as int, dy as int, x as int, y as int);
                    lemma_draw_src_in_range(line_size as int, buf@.len() as int,
                        sx as int, sy as int, h as int, x as int, y as int);
                    lemma_rect_index(wd, dy + y, dx + x);
                }
                let di: usize = (((dy as u64) + (y as u64)) * (width as u64)
                    + ((dx as u64) + (x as u64))) as usize;
                let si: usize = (((sy as u64) + (y as u64)) * (line_size as u64)
                    + ((sx as u64) + (x as u64))) as usize;
                let ghost pre = self@.buf;
                self.buf[di] = buf[si];
                proof {
                    assert forall|xx: int, yy: int| 0 <= xx < w && 0 <= yy < y
                        implies #[trigger] self@.buf[(dy + yy) * wd + (dx + xx)]
                            == buf@[(sy + yy) * line_size + (sx + xx)]
                    by {
                        lemma_rect_index(wd, dy + yy, dx + xx);
                        lemma_draw_dst_in_range(old(self)@.width as int,
                            old(self)@.height as int, dx as int, dy as int, xx, yy);
                        assert((dy + yy) * wd + (dx + xx) != di as int);
                        assert(self@.buf[(dy + yy) * wd + (dx + xx)]
                            == pre[(dy + yy) * wd + (dx + xx)]);
                    };
                    assert forall|xx: int| 0 <= xx < x + 1
                        implies #[trigger] self@.buf[(dy + y) * wd + (dx + xx)]
                            == buf@[(sy + y) * line_size + (sx + xx)]
                    by {
                        lemma_rect_index(wd, dy + y, dx + xx);
                        lemma_draw_dst_in_range(old(self)@.width as int,
                            old(self)@.height as int, dx as int, dy as int, xx, y as int);
                        if xx < x {
                            assert((dy + y) * wd + (dx + xx) != di as int);
                            assert(self@.buf[(dy + y) * wd + (dx + xx)]
                                == pre[(dy + y) * wd + (dx + xx)]);
                        }
                    };
                    assert forall|p: int| 0 <= p < old(self)@.buf.len()
                        && !in_rect(p, wd, dx as int, dy as int, w as int, y as int)
                        && !in_rect(p, wd, dx as int, dy + y, x + 1, 1)
                        implies #[trigger] self@.buf[p] == old(self)@.buf[p]
                    by {
                        assert(in_rect(di as int, wd, dx as int, dy + y, x + 1, 1));
                        assert(p != di as int);
                        assert(self@.buf[p] == pre[p]);
                    };
                }
                x = x + 1;
            }
            proof {
                assert forall|p: int| 0 <= p < old(self)@.buf.len()
                    && !in_rect(p, wd, dx as int, dy as int, w as int, y + 1)
                    implies #[trigger] self@.buf[p] == old(self)@.buf[p]
                by {
                    assert(!in_rect(p, wd, dx as int, dy as int, w as int, y as int));
                    assert(!in_rect(p, wd, dx as int, dy + y, w as int, 1));
                };
            }
            y = y + 1;
        }
    }
}

/// `p`, as an index into a row-major grid of rows `width` wide, lies in
/// the rectangle of `w` columns and `h` rows whose corner is `(dx, dy)`.
pub open spec fn in_rect(p: int, width: int, dx: int, dy: int, w: int, h: int) -> bool {
    width > 0 && dy <= p / width < dy + h && dx <= p % width < dx + w
}

/// A row-major index names exactly its row and column.
pub proof fn lemma_rect_index(width: int, row: int, col: int)
    requires
        width > 0,
        0 <= row,
        0 <= col < width,
    ensures
        (row * width + col) / width == row,
        (row * width + col) % width == col,
{
    vstd::arithmetic::div_mod::lemma_fundamental_div_mod_converse(
        row * width + col, width, row, col);
}

proof fn lemma_draw_dst_in_range(width: int, height: int, dx: int, dy: int, x: int, y: int)
    requires
        0 <= x,
        0 <= y,
        dx + x < width,
        dy + y < height,
        0 <= dx,
        0 <= dy,
        0 <= width,
    ensures
        0 <= (dy + y) * width + (dx + x) < width * height,
    decreases height,
{
    assert((dy + y) * width + (dx + x) < ((dy + y) + 1) * width) by (nonlinear_arith)
        requires dx + x < width, 0 <= dy + y;
    assert(((dy + y) + 1) * width <= height * width) by (nonlinear_arith)
        requires (dy + y) + 1 <= height, 0 <= width;
    assert(height * width == width * height) by (nonlinear_arith);
    assert(0 <= (dy + y) * width) by (nonlinear_arith)
        requires 0 <= dy + y, 0 <= width;
}

proof fn lemma_draw_src_in_range(line_size: int, buf_len: int, sx: int, sy: int, h: int,
    x: int, y: int)
    requires
        0 <= x,
        0 <= y < h,
        0 <= sx,
        0 <= sy,
        0 <= line_size,
        sx + x < line_size,
        (sy + h) * line_size <= buf_len,
    ensures
        0 <= (sy + y) * line_size + (sx + x) < buf_len,
{
    assert((sy + y) * line_size + (sx + x) < ((sy + y) + 1) * line_size) by (nonlinear_arith)
        requires sx + x < line_size, 0 <= sy + y;
    assert(((sy + y) + 1) * line_size <= (sy + h) * line_size) by (nonlinear_arith)
        requires (sy + y) + 1 <= sy + h, 0 <= line_size;
    assert(0 <= (sy + y) * line_size) by (nonlinear_arith)
        requires 0 <= sy + y, 0 <= line_size;
}

/// Stable numeric handles for guest-visible canvases.
pub type CanvasHandle = u32;

/// The canvas table: handles are handed out in creation order, starting at
/// one, and stay stable; a destroyed slot is never reused.
pub struct Canvases {
    slots: Vec<Option<Canvas>>,
}

impl View for Canvases {
    type V = Seq<Option<CanvasView>>;

    closed spec fn view(&self) -> Seq<Option<CanvasView>> {
        self.slots@.map_values(|s: Option<Canvas>| match s {
            Some(c) => Some(c@),
            None => None,
        })
    }
}

/// The handle `h` names a live canvas slot.
pub open spec fn has_canvas(v: Seq<Option<CanvasView>>, h: CanvasHandle) -> bool {
    1 <= h <= v.len() && v[h - 1] is Some
}

impl Canvases {
    /// An empty canvas table.
    pub fn new() -> (r: Canvases)
        ensures
            r@ == Seq::<Option<CanvasView>>::empty(),
    {
        let r = Canvases { slots: Vec::new() };
        proof {
            assert(r@ =~= Seq::<Option<CanvasView>>::empty());
        }
        r
    }

    /// Insert a canvas and hand back its fresh handle: one past the last.
    pub fn insert_canvas(&mut self, canvas: Canvas) -> (h: CanvasHandle)
        requires
            old(self)@.len() < u32::MAX,
        ensures
            h == old(self)@.len() + 1,
            final(self)@ == old(self)@.push(Some(canvas@)),
            has_canvas(final(self)@, h),
    {
        let ghost cv = canvas@;
        self.slots.push(Some(canvas));
        proof {
            assert(self@ =~= old(self)@.push(Some(cv)));
        }
        self.slots.len() as u32
    }

    /// Create a black canvas of the given size and hand back its handle.
    pub fn new_canvas(&mut self, width: u32, height: u32) -> (h: CanvasHandle)
        requires
            old(self)@.len() < u32::MAX,
            width * height <= u32::MAX,
        ensures
            h == old(self)@.len() + 1,
            final(self)@ == old(self)@.push(Some(CanvasView {
                width,
                height,
                buf: Seq::new((width * height) as nat, |i: int| 0u32),
            })),
            has_canvas(final(self)@, h),
    {
        let canvas = Canvas::from_size(width, height);
        proof {
            assert(canvas@ =~= (CanvasView {
                width,
                height,
                buf: Seq::new((width * height) as nat, |i: int| 0u32),
            }));
        }
        self.insert_canvas(canvas)
    }

    /// Decode a BMP image into a new canvas and hand back its handle;
    /// undecodable bytes are a host collaborator failure.
    pub fn new_canvas_from_image(&mut self, image: &[u8]) -> (r: Result<CanvasHandle, EmuError>)
        requires
            old(self)@.len() < u32::MAX,
        ensures
            match (r, bmp_decode(image@)) {
                (Ok(h), Some((w, hh, px))) => h == old(self)@.len() + 1
                    && final(self)@ == old(self)@.push(Some(CanvasView {
                        width: w,
                        height: hh,
                        buf: px,
                    }))
                    && has_canvas(final(self)@, h),
                (Err(e), None) => e == EmuError::HostIoFailure
                    && final(self)@ == old(self)@,
                _ => false,
            },
    {
        let canvas = Canvas::from_image(image)?;
        Ok(self.insert_canvas(canvas))
    }

    /// Drop the canvas behind `handle`; its handle is never reused.
    pub fn destroy(&mut self, handle: CanvasHandle)
        ensures
            final(self)@.len() == old(self)@.len(),
            1 <= handle <= old(self)@.len()
                ==> final(self)@ == old(self)@.update(handle - 1, None::<CanvasView>),
            !(1 <= handle <= old(self)@.len()) ==> final(self)@ == old(self)@,
    {
        if handle >= 1 && (handle as usize) <= self.slots.len() {
            let idx = (handle - 1) as usize;
            self.slots[idx] = None;
            proof {
                assert(self@ =~= old(self)@.update(handle - 1, None::<CanvasView>));
            }
        } else {
            proof {
                assert(self@ =~= old(self)@);
            }
        }
    }

    /// The canvas behind a live handle, writable in place.
    pub fn canvas(&mut self, handle: CanvasHandle) -> (r: &mut Canvas)
        requires
            has_canvas(old(self)@, handle),
        ensures
            r@ == old(self)@[handle - 1]->Some_0,
            final(self)@.len() == old(self)@.len(),
            final(self)@[handle - 1] == Some(final(r)@),
            forall|j: int| 0 <= j < old(self)@.len() && j != handle - 1
                ==> #[trigger] final(self)@[j] == old(self)@[j],
    {
        let idx = (handle - 1) as usize;
        let slot = &mut self.slots[idx];
        slot.as_mut().unwrap()
    }
}

} // verus!
