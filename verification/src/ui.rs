//! The line rendering bridge and the shapes the UI layer reads.
//!
//! The bridge consumes one scanline at a time: the producer fills a
//! [`ScanlineRequest`], the bridge materializes it in its line buffer,
//! reinterprets each packed 5-6-5 word as the display's color type, and
//! issues one bounded-area write of height one. A failed write is swallowed:
//! the frame may tear, but rendering never aborts mid-frame.

use vstd::prelude::*;

use embedded_graphics::pixelcolor::raw::RawU16;
use embedded_graphics::pixelcolor::Rgb565;
use embedded_graphics::prelude::IntoStorage;

use crate::types::DeviceCondition;
use crate::types::SensorDataMessage;
use crate::types::UIInitError;

verus! {

#[verifier::external_type_specification]
#[verifier::external_body]
pub struct ExRgb565(Rgb565);

/// The packed 16-bit word a 5-6-5 color value stores.
pub uninterp spec fn rgb565_raw(c: Rgb565) -> u16;

/// Relies on `Rgb565: From<RawU16>`: the word is masked with the combined
/// red-green-blue mask, which for this packing covers all 16 bits, so the
/// stored word is the given word — a pure bit reinterpretation.
#[verifier::external_body]
fn rgb565_from_word(p: u16) -> (c: Rgb565)
    ensures
        rgb565_raw(c) == p,
{
    Rgb565::from(RawU16::new(p))
}

/// Relies on `IntoStorage::into_storage`: hands back the stored packed word
/// unchanged.
#[verifier::external_body]
pub(crate) fn rgb565_word(c: &Rgb565) -> (r: u16)
    ensures
        r == rgb565_raw(*c),
{
    (*c).into_storage()
}

/// One scanline handed to the bridge: a row index, the first column the
/// pixels land in, and the packed pixel words the producer filled, one per
/// column of the contiguous range.
#[derive(Clone, Debug)]
pub struct ScanlineRequest {
    pub row: u16,
    pub col_start: u16,
    pub pixels: Vec<u16>,
}

/// One bounded-area write as the display write path takes it: the target
/// rectangle and the pixel stream in the display's color type.
pub struct LineWrite {
    pub x: u16,
    pub y: u16,
    pub width: u16,
    pub height: u16,
    pub pixels: Vec<Rgb565>,
}

impl LineWrite {
    /// The pixel stream covers the rectangle exactly.
    pub open spec fn wf(self) -> bool {
        self.pixels@.len() == self.width * self.height
    }
}

/// Turns a filled scanline into the bounded write the display takes:
/// the rectangle starts at the requested column on the requested row, is as
/// wide as the pixel range and one row high, and every pixel keeps its
/// 16-bit word bit-identically through the reinterpretation.
pub fn build_line_write(row: u16, col_start: u16, words: &[u16]) -> (w: LineWrite)
    requires
        words@.len() <= u16::MAX,
    ensures
        w.wf(),
        w.x == col_start,
        w.y == row,
        w.width as nat == words@.len(),
        w.height == 1,
        forall|i: int| 0 <= i < words@.len() ==> rgb565_raw(#[trigger] w.pixels@[i]) == words@[i],
{
    let mut pixels: Vec<Rgb565> = Vec::new();
    let n = words.len();
    let mut i: usize = 0;
    while i < n
        invariant
            n == words@.len() <= u16::MAX,
            i <= n,
            pixels@.len() == i,
            forall|k: int| 0 <= k < i ==> rgb565_raw(#[trigger] pixels@[k]) == words@[k],
        decreases n - i,
    {
        let c = rgb565_from_word(words[i]);
        pixels.push(c);
        i = i + 1;
    }
    LineWrite { x: col_start, y: row, width: n as u16, height: 1, pixels }
}

/// In-memory model of the panel's pixel matrix: the draw target the bridge
/// writes into, one packed word per pixel, row-major.
pub struct PanelFrame {
    width: u16,
    height: u16,
    pixels: Vec<u16>,
}

impl PanelFrame {
    /// The matrix holds exactly one word per pixel.
    pub closed spec fn wf(self) -> bool {
        self.pixels@.len() == self.width * self.height
    }

    pub closed spec fn spec_width(self) -> u16 {
        self.width
    }

    pub closed spec fn spec_height(self) -> u16 {
        self.height
    }

    /// The packed word of the pixel at column `x` of row `y`.
    pub closed spec fn word_at(self, x: int, y: int) -> u16 {
        self.pixels@[y * self.width + x]
    }

    pub fn width(&self) -> (w: u16)
        ensures
            w == self.spec_width(),
    {
        self.width
    }

    pub fn height(&self) -> (h: u16)
        ensures
            h == self.spec_height(),
    {
        self.height
    }

    /// A dark frame of the given dimensions.
    pub fn new(width: u16, height: u16) -> (f: PanelFrame)
        requires
            width * height <= usize::MAX,
        ensures
            f.wf(),
            f.spec_width() == width,
            f.spec_height() == height,
            forall|x: int, y: int|
                0 <= x < width && 0 <= y < height ==> f.word_at(x, y) == 0,
    {
        let n: usize = (width as usize) * (height as usize);
        let mut pixels: Vec<u16> = Vec::new();
        let mut i: usize = 0;
        while i < n
            invariant
                i <= n,
                pixels@.len() == i,
                forall|k: int| 0 <= k < i ==> pixels@[k] == 0,
            decreases n - i,
        {
            pixels.push(0);
            i = i + 1;
        }
        let f = PanelFrame { width, height, pixels };
        proof {
            assert forall|x: int, y: int|
                0 <= x < width && 0 <= y < height implies f.word_at(x, y) == 0 by {
                lemma_rowmajor_bound(width as int, height as int, x, y);
            }
        }
        f
    }

    /// Reads one pixel's packed word back.
    pub fn word(&self, x: u16, y: u16) -> (r: u16)
        requires
            self.wf(),
            x < self.spec_width(),
            y < self.spec_height(),
        ensures
            r == self.word_at(x as int, y as int),
    {
        let len: usize = self.pixels.len();
        proof {
            lemma_rowmajor_bound(self.width as int, self.height as int, x as int, y as int);
            assert((y as int) * (self.width as int) + (x as int) < len as int);
        }
        self.pixels[(y as usize) * (self.width as usize) + (x as usize)]
    }

    /// Overwrites one pixel, leaving every other pixel as it was.
    fn set_word(&mut self, x: u16, y: u16, word: u16)
        requires
            old(self).wf(),
            x < old(self).spec_width(),
            y < old(self).spec_height(),
        ensures
            final(self).wf(),
            final(self).spec_width() == old(self).spec_width(),
            final(self).spec_height() == old(self).spec_height(),
            final(self).word_at(x as int, y as int) == word,
            forall|x2: int, y2: int|
                0 <= x2 < old(self).spec_width() && 0 <= y2 < old(self).spec_height() && !(x2
                    == x as int && y2 == y as int) ==> final(self).word_at(x2, y2)
                    == old(self).word_at(x2, y2),
    {
        let len: usize = self.pixels.len();
        proof {
            lemma_rowmajor_bound(self.width as int, self.height as int, x as int, y as int);
            assert((y as int) * (self.width as int) + (x as int) < len as int);
        }
        let idx: usize = (y as usize) * (self.width as usize) + (x as usize);
        self.pixels.set(idx, word);
        proof {
            assert forall|x2: int, y2: int|
                0 <= x2 < self.spec_width() && 0 <= y2 < self.spec_height() && !(x2 == x as int
                    && y2 == y as int) implies self.word_at(x2, y2)
                == old(self).word_at(x2, y2) by {
                lemma_rowmajor_bound(self.width as int, self.height as int, x2, y2);
                lemma_rowmajor_injective(self.width as int, x as int, y as int, x2, y2);
            }
        }
    }

    /// Clears the whole frame to one color word: the "clear to color"
    /// primitive of the draw target.
    pub fn clear(&mut self, word: u16)
        requires
            old(self).wf(),
        ensures
            final(self).wf(),
            final(self).spec_width() == old(self).spec_width(),
            final(self).spec_height() == old(self).spec_height(),
            forall|x: int, y: int|
                0 <= x < old(self).spec_width() && 0 <= y < old(self).spec_height()
                    ==> final(self).word_at(x, y) == word,
    {
        let n: usize = self.pixels.len();
        let mut i: usize = 0;
        while i < n
            invariant
                i <= n,
                n == self.pixels@.len(),
                self.pixels@.len() == old(self).pixels@.len(),
                self.width == old(self).width,
                self.height == old(self).height,
                forall|k: int| 0 <= k < i ==> self.pixels@[k] == word,
            decreases n - i,
        {
            self.pixels.set(i, word);
            i = i + 1;
        }
        proof {
            assert forall|x: int, y: int|
                0 <= x < old(self).spec_width() && 0 <= y < old(self).spec_height() implies
                self.word_at(x, y) == word by {
                lemma_rowmajor_bound(self.width as int, self.height as int, x, y);
            }
        }
    }

    /// Streams one bounded rectangular write into the matrix, row-major:
    /// the pixel at stream offset `r * w.width + c` lands on column
    /// `w.x + c` of row `w.y + r`, each keeping the packed word of its
    /// color value; every pixel outside the rectangle is untouched. This is
    /// the fill-region primitive the glyph renderer draws through.
    pub fn fill_region(&mut self, w: &LineWrite)
        requires
            old(self).wf(),
            w.wf(),
            w.x + w.width <= old(self).spec_width(),
            w.y + w.height <= old(self).spec_height(),
        ensures
            final(self).wf(),
            final(self).spec_width() == old(self).spec_width(),
            final(self).spec_height() == old(self).spec_height(),
            forall|x: int, y: int|
                w.x <= x < w.x + w.width && w.y <= y < w.y + w.height
                    ==> #[trigger] final(self).word_at(x, y) == rgb565_raw(
                    w.pixels@[(y - w.y) * w.width + (x - w.x)],
                ),
            forall|x: int, y: int|
                0 <= x < old(self).spec_width() && 0 <= y < old(self).spec_height() && !(w.x
                    <= x < w.x + w.width && w.y <= y < w.y + w.height)
                    ==> #[trigger] final(self).word_at(x, y) == old(self).word_at(x, y),
    {
        let len: usize = w.pixels.len();
        let mut r: u16 = 0;
        while r < w.height
            invariant
                old(self).wf(),
                self.wf(),
                self.spec_width() == old(self).spec_width(),
                self.spec_height() == old(self).spec_height(),
                len == w.pixels@.len(),
                w.wf(),
                w.x + w.width <= self.spec_width(),
                w.y + w.height <= self.spec_height(),
                r <= w.height,
                forall|x: int, y: int|
                    w.x <= x < w.x + w.width && w.y <= y < w.y + r
                        ==> #[trigger] self.word_at(x, y) == rgb565_raw(
                        w.pixels@[(y - w.y) * w.width + (x - w.x)],
                    ),
                forall|x: int, y: int|
                    0 <= x < old(self).spec_width() && 0 <= y < old(self).spec_height() && !(
                    w.x <= x < w.x + w.width && w.y <= y < w.y + w.height)
                        ==> #[trigger] self.word_at(x, y) == old(self).word_at(x, y),
            decreases w.height - r,
        {
            let mut c: u16 = 0;
            while c < w.width
                invariant
                    old(self).wf(),
                    self.wf(),
                    self.spec_width() == old(self).spec_width(),
                    self.spec_height() == old(self).spec_height(),
                    len == w.pixels@.len(),
                    w.wf(),
                    w.x + w.width <= self.spec_width(),
                    w.y + w.height <= self.spec_height(),
                    r < w.height,
                    c <= w.width,
                    forall|x: int, y: int|
                        w.x <= x < w.x + w.width && w.y <= y < w.y + r
                            ==> #[trigger] self.word_at(x, y) == rgb565_raw(
                            w.pixels@[(y - w.y) * w.width + (x - w.x)],
                        ),
                    forall|x: int|
                        w.x <= x < w.x + c ==> #[trigger] self.word_at(x, w.y + r as int)
                            == rgb565_raw(w.pixels@[(r as int) * w.width + (x - w.x)]),
                    forall|x: int, y: int|
                        0 <= x < old(self).spec_width() && 0 <= y < old(self).spec_height()
                            && !(w.x <= x < w.x + w.width && w.y <= y < w.y + w.height)
                            ==> #[trigger] self.word_at(x, y) == old(self).word_at(x, y),
                decreases w.width - c,
            {
                proof {
                    lemma_rowmajor_bound(w.width as int, w.height as int, c as int, r as int);
                }
                let idx: usize = (r as usize) * (w.width as usize) + (c as usize);
                let word = rgb565_word(&w.pixels[idx]);
                self.set_word(w.x + c, w.y + r, word);
                c = c + 1;
            }
            r = r + 1;
        }
    }

    /// Streams one bounded write of height one into the matrix: the pixels
    /// land on row `w.y` from column `w.x` on, each keeping the packed word
    /// of its color value; every pixel outside the rectangle is untouched.
    pub fn fill_scanline(&mut self, w: &LineWrite)
        requires
            old(self).wf(),
            w.wf(),
            w.height == 1,
            w.x + w.width <= old(self).spec_width(),
            w.y < old(self).spec_height(),
        ensures
            final(self).wf(),
            final(self).spec_width() == old(self).spec_width(),
            final(self).spec_height() == old(self).spec_height(),
            forall|i: int|
                0 <= i < w.width ==> final(self).word_at(w.x + i, w.y as int) == rgb565_raw(
                    #[trigger] w.pixels@[i],
                ),
            forall|x2: int, y2: int|
                0 <= x2 < old(self).spec_width() && 0 <= y2 < old(self).spec_height() && !(w.x
                    <= x2 < w.x + w.width && y2 == w.y as int) ==> final(self).word_at(x2, y2)
                    == old(self).word_at(x2, y2),
    {
        let count: usize = w.pixels.len();
        let mut i: usize = 0;
        while i < count
            invariant
                old(self).wf(),
                self.wf(),
                self.spec_width() == old(self).spec_width(),
                self.spec_height() == old(self).spec_height(),
                count == w.pixels@.len(),
                w.wf(),
                w.height == 1,
                w.x + w.width <= self.spec_width(),
                w.y < self.spec_height(),
                i <= count,
                forall|k: int|
                    0 <= k < i ==> self.word_at(w.x + k, w.y as int) == rgb565_raw(
                        #[trigger] w.pixels@[k],
                    ),
                forall|x2: int, y2: int|
                    0 <= x2 < old(self).spec_width() && 0 <= y2 < old(self).spec_height() && !(
                    w.x <= x2 < w.x + w.width && y2 == w.y as int) ==> self.word_at(x2, y2)
                        == old(self).word_at(x2, y2),
            decreases count - i,
        {
            let word = rgb565_word(&w.pixels[i]);
            self.set_word(w.x + (i as u16), w.y, word);
            i = i + 1;
        }
    }
}

/// The line rendering bridge: adapts the line-buffer software renderer to
/// the display. It owns the display target, the one-scanline staging
/// buffer, and a count of swallowed per-line draw faults.
pub struct UILineRenderrer {
    pub display: PanelFrame,
    pub line_buffer: Vec<u16>,
    /// How many line writes the bus refused so far. A per-line fault is
    /// deliberately swallowed: it is counted (and reported by the platform's
    /// log), and rendering goes on with the next line.
    pub draw_faults: u64,
}

impl UILineRenderrer {
    /// Renders one scanline: materializes the producer's pixels in the
    /// staging buffer, reinterprets each packed word as the display's color
    /// type, and issues one bounded write of height one. `bus_ok` is the
    /// outcome the bus reported for that write: a refused write leaves the
    /// panel untouched and is counted, never propagated — the next line
    /// still renders.
    pub fn process_line(&mut self, req: &ScanlineRequest, bus_ok: bool)
        requires
            old(self).display.wf(),
            req.col_start + req.pixels@.len() <= old(self).line_buffer@.len(),
            req.col_start + req.pixels@.len() <= old(self).display.spec_width(),
            req.row < old(self).display.spec_height(),
        ensures
            final(self).display.wf(),
            final(self).display.spec_width() == old(self).display.spec_width(),
            final(self).display.spec_height() == old(self).display.spec_height(),
            final(self).line_buffer@.len() == old(self).line_buffer@.len(),
            bus_ok ==> forall|k: int|
                0 <= k < req.pixels@.len() ==> final(self).display.word_at(
                    req.col_start + k,
                    req.row as int,
                ) == req.pixels@[k],
            bus_ok ==> forall|x: int|
                req.col_start <= x < req.col_start + req.pixels@.len()
                    ==> #[trigger] final(self).display.word_at(x, req.row as int)
                    == req.pixels@[x - req.col_start],
            bus_ok ==> forall|x: int, y: int|
                0 <= x < old(self).display.spec_width() && 0 <= y < old(
                    self,
                ).display.spec_height() && !(req.col_start <= x < req.col_start
                    + req.pixels@.len() && y == req.row as int) ==> final(self).display.word_at(
                    x,
                    y,
                ) == old(self).display.word_at(x, y),
            bus_ok ==> final(self).draw_faults == old(self).draw_faults,
            !bus_ok ==> final(self).display == old(self).display,
            !bus_ok ==> final(self).draw_faults == (if old(self).draw_faults < u64::MAX {
                old(self).draw_faults + 1
            } else {
                old(self).draw_faults as int
            }),
    {
        let n: usize = req.pixels.len();
        let start: usize = req.col_start as usize;
        let buflen: usize = self.line_buffer.len();
        let mut i: usize = 0;
        while i < n
            invariant
                i <= n,
                n == req.pixels@.len(),
                start == req.col_start,
                start + n <= buflen,
                buflen == self.line_buffer@.len(),
                self.display == old(self).display,
                self.draw_faults == old(self).draw_faults,
                self.line_buffer@.len() == old(self).line_buffer@.len(),
                forall|k: int|
                    0 <= k < i ==> self.line_buffer@[start + k] == #[trigger] req.pixels@[k],
            decreases n - i,
        {
            self.line_buffer.set(start + i, req.pixels[i]);
            i = i + 1;
        }
        let words = vstd::slice::slice_subrange(
            self.line_buffer.as_slice(),
            start,
            start + n,
        );
        let w = build_line_write(req.row, req.col_start, words);
        proof {
            assert forall|k: int| 0 <= k < n implies rgb565_raw(#[trigger] w.pixels@[k])
                == req.pixels@[k] by {
                assert(words@[k] == self.line_buffer@[start + k]);
            }
        }
        if bus_ok {
            self.display.fill_scanline(&w);
            proof {
                assert forall|k: int| 0 <= k < req.pixels@.len() implies self.display.word_at(
                    req.col_start + k,
                    req.row as int,
                ) == req.pixels@[k] by {
                    assert(self.display.word_at(w.x + k, w.y as int) == rgb565_raw(
                        w.pixels@[k],
                    ));
                }
                assert forall|x: int|
                    req.col_start <= x < req.col_start + req.pixels@.len() implies
                    #[trigger] self.display.word_at(x, req.row as int) == req.pixels@[x
                    - req.col_start] by {
                    let k = x - req.col_start;
                    assert(self.display.word_at(req.col_start + k, req.row as int)
                        == req.pixels@[k]);
                }
            }
        } else {
            if self.draw_faults < u64::MAX {
                self.draw_faults = self.draw_faults + 1;
            }
        }
    }
}

/// Builds the window system for a ready display: a dark frame of the
/// display's logical size and a staging buffer exactly one scanline wide,
/// with no draw fault counted yet. `platform` is the outcome of registering
/// this device with the UI toolkit; a refusal is fatal at startup and is
/// surfaced unchanged.
pub fn init_window(width: u16, height: u16, platform: Result<(), UIInitError>) -> (r: Result<
    UILineRenderrer,
    UIInitError,
>)
    requires
        width * height <= usize::MAX,
    ensures
        r is Ok <==> platform is Ok,
        platform matches Err(e) ==> (r matches Err(e2) && e2 == e),
        r matches Ok(w) ==> {
            &&& w.display.wf()
            &&& w.display.spec_width() == width
            &&& w.display.spec_height() == height
            &&& w.line_buffer@.len() == width
            &&& w.draw_faults == 0
            &&& forall|x: int, y: int|
                0 <= x < width && 0 <= y < height ==> w.display.word_at(x, y) == 0
        },
{
    if let Err(e) = platform {
        return Err(e);
    }
    let display = PanelFrame::new(width, height);
    let mut line_buffer: Vec<u16> = Vec::new();
    let mut i: usize = 0;
    let n: usize = width as usize;
    while i < n
        invariant
            i <= n,
            line_buffer@.len() == i,
        decreases n - i,
    {
        line_buffer.push(0);
        i = i + 1;
    }
    Ok(UILineRenderrer { display, line_buffer, draw_faults: 0 })
}

/// Whether one of the first `n` scanline writes was accepted by the bus and
/// covers the pixel at column `x` of row `y`.
pub open spec fn covered_upto(
    requests: Seq<ScanlineRequest>,
    bus_ok: Seq<bool>,
    n: int,
    x: int,
    y: int,
) -> bool {
    exists|i: int|
        0 <= i < n && bus_ok[i] && y == (#[trigger] requests[i]).row && requests[i].col_start <= x
            < requests[i].col_start + requests[i].pixels@.len()
}

impl UILineRenderrer {
    /// A frame is many independent line writes with no atomic commit: every
    /// accepted line lands bit-identically, a refused line leaves its row as
    /// it was and is merely counted, and rendering always reaches the last
    /// line — a fault on one line never aborts the rest of the frame. The
    /// requests cover distinct rows, one write per physical line.
    pub fn render_frame(&mut self, requests: &Vec<ScanlineRequest>, bus_ok: &Vec<bool>)
        requires
            old(self).display.wf(),
            bus_ok@.len() == requests@.len(),
            forall|i: int|
                0 <= i < requests@.len() ==> (#[trigger] requests@[i]).row < old(
                    self,
                ).display.spec_height(),
            forall|i: int|
                0 <= i < requests@.len() ==> (#[trigger] requests@[i]).col_start
                    + requests@[i].pixels@.len() <= old(self).display.spec_width(),
            forall|i: int|
                0 <= i < requests@.len() ==> (#[trigger] requests@[i]).col_start
                    + requests@[i].pixels@.len() <= old(self).line_buffer@.len(),
            forall|i: int, j: int|
                0 <= i < j < requests@.len() ==> (#[trigger] requests@[i]).row != (
                #[trigger] requests@[j]).row,
        ensures
            final(self).display.wf(),
            final(self).display.spec_width() == old(self).display.spec_width(),
            final(self).display.spec_height() == old(self).display.spec_height(),
            forall|i: int, k: int|
                0 <= i < requests@.len() && bus_ok@[i] && 0 <= k
                    < requests@[i].pixels@.len() ==> #[trigger] requests@[i].pixels@[k]
                    == final(self).display.word_at(
                    requests@[i].col_start + k,
                    requests@[i].row as int,
                ),
            forall|x: int, y: int|
                0 <= x < old(self).display.spec_width() && 0 <= y < old(
                    self,
                ).display.spec_height() && !covered_upto(
                    requests@,
                    bus_ok@,
                    requests@.len() as int,
                    x,
                    y,
                ) ==> final(self).display.word_at(x, y) == old(self).display.word_at(x, y),
    {
        let count: usize = requests.len();
        let mut idx: usize = 0;
        while idx < count
            invariant
                self.display.wf(),
                self.display.spec_width() == old(self).display.spec_width(),
                self.display.spec_height() == old(self).display.spec_height(),
                self.line_buffer@.len() == old(self).line_buffer@.len(),
                count == requests@.len(),
                bus_ok@.len() == requests@.len(),
                idx <= count,
                forall|i: int|
                    0 <= i < requests@.len() ==> (#[trigger] requests@[i]).row < old(
                        self,
                    ).display.spec_height(),
                forall|i: int|
                    0 <= i < requests@.len() ==> (#[trigger] requests@[i]).col_start
                        + requests@[i].pixels@.len() <= old(self).display.spec_width(),
                forall|i: int|
                    0 <= i < requests@.len() ==> (#[trigger] requests@[i]).col_start
                        + requests@[i].pixels@.len() <= old(self).line_buffer@.len(),
                forall|i: int, j: int|
                    0 <= i < j < requests@.len() ==> (#[trigger] requests@[i]).row != (
                    #[trigger] requests@[j]).row,
                forall|i: int, k: int|
                    0 <= i < idx && bus_ok@[i] && 0 <= k < requests@[i].pixels@.len()
                        ==> #[trigger] requests@[i].pixels@[k] == self.display.word_at(
                        requests@[i].col_start + k,
                        requests@[i].row as int,
                    ),
                forall|x: int, y: int|
                    0 <= x < old(self).display.spec_width() && 0 <= y < old(
                        self,
                    ).display.spec_height() && !covered_upto(requests@, bus_ok@, idx as int, x, y)
                        ==> self.display.word_at(x, y) == old(self).display.word_at(x, y),
            decreases count - idx,
        {
            let ghost pre = *self;
            let req = &requests[idx];
            let ok = bus_ok[idx];
            self.process_line(req, ok);
            proof {
                assert forall|i: int, k: int|
                    0 <= i < idx + 1 && bus_ok@[i] && 0 <= k < requests@[i].pixels@.len() implies
                    #[trigger] requests@[i].pixels@[k] == self.display.word_at(
                    requests@[i].col_start + k,
                    requests@[i].row as int,
                ) by {
                    if i < idx {
                        assert(requests@[i].row != requests@[idx as int].row);
                    }
                }
                assert forall|x: int, y: int|
                    0 <= x < old(self).display.spec_width() && 0 <= y < old(
                        self,
                    ).display.spec_height() && !covered_upto(
                        requests@,
                        bus_ok@,
                        idx as int + 1,
                        x,
                        y,
                    ) implies self.display.word_at(x, y) == old(self).display.word_at(x, y) by {
                    assert(!covered_upto(requests@, bus_ok@, idx as int, x, y));
                    if ok {
                        assert(!(requests@[idx as int].col_start <= x < requests@[idx as int].col_start
                            + requests@[idx as int].pixels@.len() && y == requests@[idx as int].row));
                        assert(self.display.word_at(x, y) == pre.display.word_at(x, y));
                    }
                }
            }
            idx = idx + 1;
        }
    }
}

/// A pixel's row-major index lies inside a `w` by `h` matrix.
proof fn lemma_rowmajor_bound(w: int, h: int, x: int, y: int)
    by (nonlinear_arith)
    requires
        0 <= x < w,
        0 <= y < h,
    ensures
        0 <= y * w + x < w * h,
{
}

/// Two distinct pixel coordinates never share a row-major index.
proof fn lemma_rowmajor_injective(w: int, x1: int, y1: int, x2: int, y2: int)
    by (nonlinear_arith)
    requires
        0 <= x1 < w,
        0 <= x2 < w,
        0 <= y1,
        0 <= y2,
        !(x1 == x2 && y1 == y2),
    ensures
        y1 * w + x1 != y2 * w + x2,
{
}

/// The value a rendered field shows when the reading is present, and zero
/// when it is absent; the paired presence flag, not the zero, is what says
/// whether a reading exists.
pub open spec fn val_or_zero_u16(o: Option<u16>) -> u16 {
    match o {
        Some(v) => v,
        None => 0,
    }
}

/// As [`val_or_zero_u16`], for a byte-sized reading.
pub open spec fn val_or_zero_u8(o: Option<u8>) -> u8 {
    match o {
        Some(v) => v,
        None => 0,
    }
}

/// The sensor readings in the shape the UI layer binds: each reading as a
/// plain value next to its authoritative presence flag.
#[derive(Clone, Copy, Debug, PartialEq, Eq, Structural)]
pub struct SensorData {
    pub electrical_conductivity: i32,
    pub has_electrical_conductivity: bool,
    pub electrical_resistivity: u16,
    pub has_electrical_resistivity: bool,
    /// Tenths of a pH unit.
    pub power_of_hydrogen: u8,
    pub has_power_of_hydrogen: bool,
    /// Tenths of a degree Celsius.
    pub solution_temperature: u16,
    pub has_solution_temperature: bool,
    pub total_dissolved_solids: u16,
    pub has_total_dissolved_solids: bool,
    pub solution_salinity: u16,
    pub has_solution_salinity: bool,
}

/// The UI shape a set of readings unfolds to: values beside flags.
pub open spec fn sensor_view(v: SensorDataMessage) -> SensorData {
    SensorData {
        electrical_conductivity: val_or_zero_u16(v.electrical_conductivity) as i32,
        has_electrical_conductivity: v.electrical_conductivity is Some,
        electrical_resistivity: val_or_zero_u16(v.electrical_resistivity),
        has_electrical_resistivity: v.electrical_resistivity is Some,
        power_of_hydrogen: val_or_zero_u8(v.power_of_hydrogen),
        has_power_of_hydrogen: v.power_of_hydrogen is Some,
        solution_temperature: val_or_zero_u16(v.solution_temperature),
        has_solution_temperature: v.solution_temperature is Some,
        total_dissolved_solids: val_or_zero_u16(v.total_dissolved_solids),
        has_total_dissolved_solids: v.total_dissolved_solids is Some,
        solution_salinity: val_or_zero_u16(v.solution_salinity),
        has_solution_salinity: v.solution_salinity is Some,
    }
}

impl From<&SensorDataMessage> for SensorData {
    /// Unfolds the optional readings for the UI: the value or zero, beside
    /// the presence flag that alone says whether the reading exists.
    fn from(v: &SensorDataMessage) -> (r: SensorData) {
        SensorData {
            electrical_conductivity: match v.electrical_conductivity {
                Some(x) => x as i32,
                None => 0,
            },
            has_electrical_conductivity: v.electrical_conductivity.is_some(),
            electrical_resistivity: match v.electrical_resistivity {
                Some(x) => x,
                None => 0,
            },
            has_electrical_resistivity: v.electrical_resistivity.is_some(),
            power_of_hydrogen: match v.power_of_hydrogen {
                Some(x) => x,
                None => 0,
            },
            has_power_of_hydrogen: v.power_of_hydrogen.is_some(),
            solution_temperature: match v.solution_temperature {
                Some(x) => x,
                None => 0,
            },
            has_solution_temperature: v.solution_temperature.is_some(),
            total_dissolved_solids: match v.total_dissolved_solids {
                Some(x) => x,
                None => 0,
            },
            has_total_dissolved_solids: v.total_dissolved_solids.is_some(),
            solution_salinity: match v.solution_salinity {
                Some(x) => x,
                None => 0,
            },
            has_solution_salinity: v.solution_salinity.is_some(),
        }
    }
}

impl vstd::std_specs::convert::FromSpecImpl<&SensorDataMessage> for SensorData {
    open spec fn obeys_from_spec() -> bool {
        true
    }

    open spec fn from_spec(v: &SensorDataMessage) -> SensorData {
        sensor_view(*v)
    }
}

/// The rendered presence flag of every field mirrors the reading's presence
/// exactly and is independent of the rendered value: an absent reading never
/// appears present, even when a present reading happens to equal zero.
pub proof fn lemma_presence_flags_authoritative(m: SensorDataMessage)
    ensures
        sensor_view(m).has_electrical_conductivity <==> m.electrical_conductivity is Some,
        sensor_view(m).has_electrical_resistivity <==> m.electrical_resistivity is Some,
        sensor_view(m).has_power_of_hydrogen <==> m.power_of_hydrogen is Some,
        sensor_view(m).has_solution_temperature <==> m.solution_temperature is Some,
        sensor_view(m).has_total_dissolved_solids <==> m.total_dissolved_solids is Some,
        sensor_view(m).has_solution_salinity <==> m.solution_salinity is Some,
{
}

/// The device health readings in the shape the UI layer binds.
#[derive(Clone, Copy, Debug, PartialEq, Eq, Structural)]
pub struct Health {
    pub gsm_signal_strength: i32,
    pub has_gsm_signal_strength: bool,
    pub battery_level: i32,
    pub has_battery_level: bool,
}

/// The UI shape a device condition unfolds to.
pub open spec fn health_view(v: DeviceCondition) -> Health {
    Health {
        gsm_signal_strength: match v.gsm_signal_strength {
            Some(x) => x as i32,
            None => 0,
        },
        has_gsm_signal_strength: v.gsm_signal_strength is Some,
        battery_level: match v.battery_level {
            Some(x) => x as i32,
            None => 0,
        },
        has_battery_level: v.battery_level is Some,
    }
}

impl From<&DeviceCondition> for Health {
    /// Unfolds the optional health readings for the UI, beside their
    /// authoritative presence flags.
    fn from(v: &DeviceCondition) -> (r: Health) {
        Health {
            gsm_signal_strength: match v.gsm_signal_strength {
                Some(x) => x as i32,
                None => 0,
            },
            has_gsm_signal_strength: v.gsm_signal_strength.is_some(),
            battery_level: match v.battery_level {
                Some(x) => x as i32,
                None => 0,
            },
            has_battery_level: v.battery_level.is_some(),
        }
    }
}

impl vstd::std_specs::convert::FromSpecImpl<&DeviceCondition> for Health {
    open spec fn obeys_from_spec() -> bool {
        true
    }

    open spec fn from_spec(v: &DeviceCondition) -> Health {
        health_view(*v)
    }
}

} // verus!
