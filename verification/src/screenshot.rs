//! Screenshot capture: click-drag region selection, extraction of a region
//! from a captured framebuffer, and encoding of raw RGBA pixels as a binary
//! PPM image.

use vstd::prelude::*;
use vstd::slice::{slice_index_get, slice_to_vec};
use vstd::string::StringExecFns;
use crate::sys;

verus! {

/// What a screenshot request covers.
#[derive(Debug, Clone, Copy, PartialEq, Eq, Structural)]
pub enum CaptureMode {
    FullScreen,
    ActiveWindow,
    Region,
}

/// A captured image: raw RGBA bytes plus dimensions.
#[derive(Debug, Clone)]
pub struct Screenshot {
    pub data: Vec<u8>,
    pub width: u32,
    pub height: u32,
    pub path: Option<String>,
    pub timestamp: u64,
}

/// The click-drag rectangle for region capture.
#[derive(Debug, Clone)]
pub struct RegionSelection {
    pub active: bool,
    pub start: Option<(i32, i32)>,
    pub end: Option<(i32, i32)>,
}

/// The rectangle spanned by two corner points, as
/// (left, top, width, height) over the mathematical integers.
pub open spec fn spec_norm_rect(p: (i32, i32), q: (i32, i32)) -> (int, int, int, int) {
    let left: int = if p.0 < q.0 { p.0 as int } else { q.0 as int };
    let right: int = if p.0 < q.0 { q.0 as int } else { p.0 as int };
    let top: int = if p.1 < q.1 { p.1 as int } else { q.1 as int };
    let bottom: int = if p.1 < q.1 { q.1 as int } else { p.1 as int };
    (left, top, right - left, bottom - top)
}

impl RegionSelection {
    /// Begin a selection at the given point: the start corner is set and any
    /// previous end corner is discarded.
    pub fn start_selection(&mut self, x: i32, y: i32)
        ensures
            final(self).active,
            final(self).start == Some((x, y)),
            final(self).end is None,
    {
        self.active = true;
        self.start = Some((x, y));
        self.end = None;
    }

    /// Move the end corner while a selection is in progress; ignored when no
    /// selection is active.
    pub fn update(&mut self, x: i32, y: i32)
        ensures
            final(self).active == old(self).active,
            final(self).start == old(self).start,
            old(self).active ==> final(self).end == Some((x, y)),
            !old(self).active ==> final(self).end == old(self).end,
    {
        if self.active {
            self.end = Some((x, y));
        }
    }

    /// End the selection. Returns the normalized rectangle
    /// (left, top, width, height) spanned by the two corners, or `None` when
    /// a corner is missing or either dimension is zero.
    pub fn finish(&mut self) -> (r: Option<(i32, i32, u32, u32)>)
        ensures
            !final(self).active,
            final(self).start == old(self).start,
            final(self).end == old(self).end,
            match (old(self).start, old(self).end) {
                (Some(p), Some(q)) => {
                    let (l, t, w, h) = spec_norm_rect(p, q);
                    if w > 0 && h > 0 {
                        r == Some((l as i32, t as i32, w as u32, h as u32))
                    } else {
                        r is None
                    }
                },
                _ => r is None,
            },
    {
        self.active = false;
        if let (Some((x1, y1)), Some((x2, y2))) = (self.start, self.end) {
            let (left, right) = if x1 < x2 { (x1, x2) } else { (x2, x1) };
            let (top, bottom) = if y1 < y2 { (y1, y2) } else { (y2, y1) };
            let wide: i64 = right as i64 - left as i64;
            let tall: i64 = bottom as i64 - top as i64;
            if wide > 0 && tall > 0 {
                return Some((left, top, wide as u32, tall as u32));
            }
        }
        None
    }

    /// Abandon the selection and clear both corners.
    pub fn cancel(&mut self)
        ensures
            !final(self).active,
            final(self).start is None,
            final(self).end is None,
    {
        self.active = false;
        self.start = None;
        self.end = None;
    }

    /// The selection corners normalized to (left, top, right, bottom),
    /// or `None` when a corner is missing.
    pub fn get_rect(&self) -> (r: Option<(i32, i32, i32, i32)>)
        ensures
            match (self.start, self.end) {
                (Some(p), Some(q)) => {
                    let (l, t, w, h) = spec_norm_rect(p, q);
                    r == Some((l as i32, t as i32, (l + w) as i32, (t + h) as i32))
                },
                _ => r is None,
            },
    {
        if let (Some((x1, y1)), Some((x2, y2))) = (self.start, self.end) {
            let (left, right) = if x1 < x2 { (x1, x2) } else { (x2, x1) };
            let (top, bottom) = if y1 < y2 { (y1, y2) } else { (y2, y1) };
            Some((left, top, right, bottom))
        } else {
            None
        }
    }
}

impl Default for RegionSelection {
    /// An inactive selection with no corners.
    fn default() -> (r: Self)
        ensures
            !r.active,
            r.start is None,
            r.end is None,
    {
        RegionSelection { active: false, start: None, end: None }
    }
}

/// The source column sampled for output column `col`: `x + col`, clamped to
/// the last column of the full image.
pub open spec fn spec_src_coord(base: int, off: int, limit: int) -> int {
    if base + off < limit - 1 { base + off } else { limit - 1 }
}

/// The four bytes copied for one output pixel, or nothing when the sampled
/// pixel would reach past the end of the source data.
pub open spec fn spec_pixel_quad(
    full: Seq<u8>, fw: int, fh: int, x: int, y: int, row: int, col: int,
) -> Seq<u8> {
    let idx = 4 * (spec_src_coord(y, row, fh) * fw + spec_src_coord(x, col, fw));
    if idx + 3 < full.len() {
        seq![full[idx], full[idx + 1], full[idx + 2], full[idx + 3]]
    } else {
        Seq::empty()
    }
}

/// The bytes of the first `ncols` pixels of output row `row`.
pub open spec fn spec_region_row(
    full: Seq<u8>, fw: int, fh: int, x: int, y: int, row: int, ncols: int,
) -> Seq<u8>
    decreases ncols,
{
    if ncols <= 0 {
        Seq::empty()
    } else {
        spec_region_row(full, fw, fh, x, y, row, ncols - 1)
            + spec_pixel_quad(full, fw, fh, x, y, row, ncols - 1)
    }
}

/// The bytes of the first `nrows` output rows, each `w` pixels wide.
pub open spec fn spec_region_bytes(
    full: Seq<u8>, fw: int, fh: int, x: int, y: int, nrows: int, w: int,
) -> Seq<u8>
    decreases nrows,
{
    if nrows <= 0 {
        Seq::empty()
    } else {
        spec_region_bytes(full, fw, fh, x, y, nrows - 1, w)
            + spec_region_row(full, fw, fh, x, y, nrows - 1, w)
    }
}

/// The decimal digits of `n` as ASCII bytes.
pub open spec fn spec_decimal(n: int) -> Seq<u8>
    decreases n,
{
    if n < 10 {
        seq![(48 + if n >= 0 { n } else { 0 }) as u8]
    } else {
        spec_decimal(n / 10) + seq![(48 + n % 10) as u8]
    }
}

/// One RGB triple per four-byte RGBA chunk of `data`; a trailing chunk
/// shorter than three bytes contributes nothing. `k` chunks are taken.
pub open spec fn spec_rgb_triples(data: Seq<u8>, k: int) -> Seq<u8>
    decreases k,
{
    if k <= 0 {
        Seq::empty()
    } else {
        spec_rgb_triples(data, k - 1) + spec_chunk_rgb(data, k - 1)
    }
}

/// The RGB bytes of chunk `i`, when at least three bytes of it exist.
pub open spec fn spec_chunk_rgb(data: Seq<u8>, i: int) -> Seq<u8> {
    if data.len() - 4 * i >= 3 {
        seq![data[4 * i], data[4 * i + 1], data[4 * i + 2]]
    } else {
        Seq::empty()
    }
}

/// The binary PPM (P6) encoding of an RGBA image: the header
/// `P6\n<w> <h>\n255\n` followed by one RGB triple per pixel.
pub open spec fn spec_ppm(w: int, h: int, data: Seq<u8>) -> Seq<u8> {
    seq![80u8, 54u8, 10u8]
        + spec_decimal(w)
        + seq![32u8]
        + spec_decimal(h)
        + seq![10u8, 50u8, 53u8, 53u8, 10u8]
        + spec_rgb_triples(data, (data.len() as int + 3) / 4)
}

/// The decimal digits of `n`, most significant first, as ASCII bytes.
pub fn decimal_bytes(n: u32) -> (r: Vec<u8>)
    ensures
        r@ == spec_decimal(n as int),
    decreases n,
{
    if n < 10 {
        let mut r: Vec<u8> = Vec::new();
        r.push(48 + n as u8);
        r
    } else {
        let mut r = decimal_bytes(n / 10);
        r.push(48 + (n % 10) as u8);
        r
    }
}

/// Encode raw RGBA pixels as a binary PPM (P6) image, dropping each pixel's
/// alpha byte.
pub fn encode_ppm(width: u32, height: u32, data: &Vec<u8>) -> (r: Vec<u8>)
    requires
        data@.len() + 4 <= usize::MAX,
    ensures
        r@ == spec_ppm(width as int, height as int, data@),
{
    let mut out: Vec<u8> = Vec::new();
    out.push(80);
    out.push(54);
    out.push(10);
    let mut dw = decimal_bytes(width);
    out.append(&mut dw);
    out.push(32);
    let mut dh = decimal_bytes(height);
    out.append(&mut dh);
    out.push(10);
    out.push(50);
    out.push(53);
    out.push(53);
    out.push(10);
    let ghost header = out@;
    let mut i: usize = 0;
    while i < data.len()
        invariant
            i % 4 == 0,
            i <= data@.len() + 3,
            data@.len() + 4 <= usize::MAX,
            out@ == header + spec_rgb_triples(data@, i as int / 4),
        decreases data@.len() + 4 - i,
    {
        if data.len() - i >= 3 {
            out.push(data[i]);
            out.push(data[i + 1]);
            out.push(data[i + 2]);
        }
        i = i + 4;
        assert(out@ == header + spec_rgb_triples(data@, i as int / 4));
    }
    proof {
        assert(i as int / 4 == (data@.len() + 3) / 4);
    }
    out
}

/// Capture settings and the in-progress region selection.
#[derive(Debug, Clone)]
pub struct ScreenshotManager {
    pub save_directory: String,
    pub filename_format: String,
    pub region_selection: RegionSelection,
    pub copy_to_clipboard: bool,
    pub save_to_file: bool,
    pub show_notification: bool,
}

/// `dir` and `name` joined with a single separator.
fn join_path(dir: &String, name: &str) -> (r: String)
    ensures
        r@ == dir@ + "/"@ + name@,
{
    dir.clone().concat("/").concat(name)
}

impl ScreenshotManager {
    /// A manager saving under a `Screenshots` folder inside the platform
    /// pictures directory (or under `/tmp` when the system reports none),
    /// with a timestamped filename pattern and no selection in progress.
    pub fn new() -> (r: Self)
        ensures
            r.filename_format@ == "screenshot_%Y%m%d_%H%M%S.png"@,
            r.save_directory@.len() >= 12
                && r.save_directory@.subrange(
                    r.save_directory@.len() - 12,
                    r.save_directory@.len() as int,
                ) == "/Screenshots"@,
            !r.region_selection.active,
            r.region_selection.start is None,
            r.region_selection.end is None,
            r.copy_to_clipboard,
            r.save_to_file,
            r.show_notification,
    {
        let base = match sys::picture_directory() {
            Some(d) => d,
            None => String::from_str("/tmp"),
        };
        let save_directory = base.concat("/Screenshots");
        proof {
            reveal_strlit("/Screenshots");
            assert(save_directory@.subrange(
                save_directory@.len() - 12,
                save_directory@.len() as int,
            ) =~= "/Screenshots"@);
        }
        ScreenshotManager {
            save_directory,
            filename_format: String::from_str("screenshot_%Y%m%d_%H%M%S.png"),
            region_selection: RegionSelection::default(),
            copy_to_clipboard: true,
            save_to_file: true,
            show_notification: true,
        }
    }

    /// A path inside the save directory whose file name renders the
    /// configured pattern at the current local time (a fixed fallback name
    /// is used when the pattern is invalid).
    pub fn generate_filename(&self) -> (r: String)
        ensures
            exists|name: Seq<char>| r@ == self.save_directory@ + "/"@ + name,
    {
        match sys::format_local_now(self.filename_format.as_str()) {
            Some(name) => {
                let r = join_path(&self.save_directory, name.as_str());
                proof {
                    assert(r@ == self.save_directory@ + "/"@ + name@);
                }
                r
            },
            None => {
                let r = join_path(&self.save_directory, "screenshot.png");
                proof {
                    assert(r@ == self.save_directory@ + "/"@ + "screenshot.png"@);
                }
                r
            },
        }
    }

    /// Wrap a whole captured framebuffer as a screenshot, stamped with the
    /// current Unix time in seconds.
    pub fn capture_framebuffer(&self, data: &[u8], width: u32, height: u32) -> (r: Screenshot)
        ensures
            r.data@ == data@,
            r.width == width,
            r.height == height,
            r.path is None,
    {
        let timestamp = sys::now_millis() / 1000;
        Screenshot { data: slice_to_vec(data), width, height, path: None, timestamp }
    }

    /// Extract a `width` by `height` region whose top-left corner is (x, y)
    /// from a full RGBA image, clamping sampled coordinates to the image's
    /// last column and row. Pixels whose sampled bytes would reach past the
    /// end of the source data are skipped.
    pub fn capture_region(
        &self,
        full_data: &[u8],
        full_width: u32,
        full_height: u32,
        x: i32,
        y: i32,
        width: u32,
        height: u32,
    ) -> (r: Screenshot)
        requires
            full_width >= 1,
            full_height >= 1,
            x >= 0,
            y >= 0,
            4 * (full_width as int) * (full_height as int) <= u32::MAX,
            x + width <= u32::MAX,
            y + height <= u32::MAX,
        ensures
            r.data@ == spec_region_bytes(
                full_data@,
                full_width as int,
                full_height as int,
                x as int,
                y as int,
                height as int,
                width as int,
            ),
            r.width == width,
            r.height == height,
            r.path is None,
    {
        let timestamp = sys::now_millis() / 1000;
        let ghost fw = full_width as int;
        let ghost fh = full_height as int;
        let mut region_data: Vec<u8> = Vec::new();
        let mut row: u32 = 0;
        while row < height
            invariant
                full_width >= 1,
                full_height >= 1,
                x >= 0,
                y >= 0,
                4 * fw * fh <= u32::MAX,
                x + width <= u32::MAX,
                y + height <= u32::MAX,
                fw == full_width as int,
                fh == full_height as int,
                row <= height,
                region_data@ == spec_region_bytes(
                    full_data@, fw, fh, x as int, y as int, row as int, width as int,
                ),
            decreases height - row,
        {
            let mut sy: u32 = y as u32 + row;
            if sy > full_height - 1 {
                sy = full_height - 1;
            }
            assert(sy == spec_src_coord(y as int, row as int, fh));
            let mut col: u32 = 0;
            while col < width
                invariant
                    full_width >= 1,
                    full_height >= 1,
                    x >= 0,
                    y >= 0,
                    4 * fw * fh <= u32::MAX,
                    x + width <= u32::MAX,
                    y + height <= u32::MAX,
                    fw == full_width as int,
                    fh == full_height as int,
                    row < height,
                    col <= width,
                    sy == spec_src_coord(y as int, row as int, fh),
                    region_data@ == spec_region_bytes(
                        full_data@, fw, fh, x as int, y as int, row as int, width as int,
                    ) + spec_region_row(
                        full_data@, fw, fh, x as int, y as int, row as int, col as int,
                    ),
                decreases width - col,
            {
                let mut sx: u32 = x as u32 + col;
                if sx > full_width - 1 {
                    sx = full_width - 1;
                }
                assert(sx == spec_src_coord(x as int, col as int, fw));
                proof {
                    assert((sy as int) * fw >= 0 && 4 * ((sy as int) * fw + (sx as int)) + 3
                        <= u32::MAX) by (nonlinear_arith)
                        requires
                            sy as int <= fh - 1,
                            sx as int <= fw - 1,
                            fw >= 1,
                            fh >= 1,
                            4 * fw * fh <= u32::MAX,
                    ;
                }
                let src_idx: u32 = (sy * full_width + sx) * 4;
                let idx: usize = src_idx as usize;
                if idx + 3 < full_data.len() {
                    region_data.push(*slice_index_get(full_data, idx));
                    region_data.push(*slice_index_get(full_data, idx + 1));
                    region_data.push(*slice_index_get(full_data, idx + 2));
                    region_data.push(*slice_index_get(full_data, idx + 3));
                }
                col = col + 1;
                assert(region_data@ =~= spec_region_bytes(
                    full_data@, fw, fh, x as int, y as int, row as int, width as int,
                ) + spec_region_row(
                    full_data@, fw, fh, x as int, y as int, row as int, col as int,
                ));
            }
            row = row + 1;
            assert(region_data@ =~= spec_region_bytes(
                full_data@, fw, fh, x as int, y as int, row as int, width as int,
            ));
        }
        Screenshot { data: region_data, width, height, path: None, timestamp }
    }
}

impl Default for ScreenshotManager {
    /// The same manager `new` builds.
    fn default() -> (r: Self)
        ensures
            r.filename_format@ == "screenshot_%Y%m%d_%H%M%S.png"@,
            !r.region_selection.active,
            r.copy_to_clipboard,
            r.save_to_file,
            r.show_notification,
    {
        ScreenshotManager::new()
    }
}

/// Which capture a print-screen press requests, given the held modifiers:
/// shift selects a region, otherwise alt captures the active window,
/// otherwise the full screen is captured.
#[derive(Debug, Clone, Copy, PartialEq, Eq, Structural)]
pub enum ScreenshotAction {
    FullScreen,
    ActiveWindow,
    SelectRegion,
}

impl ScreenshotAction {
    /// The capture requested for the given modifier state; shift takes
    /// precedence over alt.
    pub fn from_modifiers(shift: bool, alt: bool) -> (r: Self)
        ensures
            shift ==> r == ScreenshotAction::SelectRegion,
            !shift && alt ==> r == ScreenshotAction::ActiveWindow,
            !shift && !alt ==> r == ScreenshotAction::FullScreen,
    {
        if shift {
            ScreenshotAction::SelectRegion
        } else if alt {
            ScreenshotAction::ActiveWindow
        } else {
            ScreenshotAction::FullScreen
        }
    }
}

} // verus!
