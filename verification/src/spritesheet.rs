//! Accumulation of accepted frames into paged spritesheet grids, with the
//! cue metadata that indexes each tile by its time range.

use vstd::arithmetic::div_mod::{
    lemma_div_pos_is_pos, lemma_fundamental_div_mod, lemma_fundamental_div_mod_converse,
    lemma_mod_bound, lemma_multiply_divide_lt, lemma_small_mod,
};
use vstd::prelude::*;
use vstd::string::StringExecFns;

use core::mem::swap;

use crate::media_time::MediaTime;
use crate::options::{spec_ext, OutputFormat};
use crate::raster::RgbImage;
use crate::text::{push_dec, spec_dec};
use crate::webvtt::{cue_wf, spec_file_text, WebVTTCue, WebVTTFile};

verus! {

/// A still-image format selection carrying an explicit JPEG quality.
pub enum ImageFormat {
    Jpeg(i32),
    Png,
}

/// Configuration of one spritesheet output.
#[derive(Clone, Copy, Debug)]
pub struct SpritesheetOptions {
    pub max_size: u32,
    pub columns: u32,
    pub rows: u32,
    pub frame_interval: MediaTime,
    pub format: OutputFormat,
}

/// Why a frame was rejected.
#[derive(Clone, Copy, Debug, PartialEq, Eq, Structural)]
pub enum SpriteError {
    DimensionMismatch { got_width: u32, got_height: u32, expected_width: u32, expected_height: u32 },
}

/// One finished page image, ready to be encoded and written under its
/// file name.
#[derive(Debug, PartialEq, Eq)]
pub struct PageArtifact {
    pub index: u32,
    pub file_name: String,
    pub image: RgbImage,
}

/// What `save` hands back: the final partial page, if one was still
/// unflushed, and the rendered cue metadata with its file name.
pub struct SpritesheetSaveArtifacts {
    pub page: Option<PageArtifact>,
    pub metadata_name: String,
    pub metadata_text: String,
}

/// Horizontal pixel offset of slot `s` on its page.
pub open spec fn x_of(s: int, cols: int, tw: int) -> int {
    (s % cols) * tw
}

/// Vertical pixel offset of slot `s` on its page.
pub open spec fn y_of(s: int, cols: int, rows: int, th: int) -> int {
    ((s / cols) % rows) * th
}

/// File name of page `index`: `<name>_<index>.<ext>`.
pub open spec fn spec_page_name(name: Seq<char>, index: int, ext: Seq<char>) -> Seq<char> {
    name + "_"@ + spec_dec(index as nat) + "."@ + ext
}

/// Cue payload for the tile with global index `k`: the page file name
/// followed by a `#xywh=` media-fragment rectangle.
pub open spec fn spec_tile_payload(
    name: Seq<char>,
    k: int,
    cols: int,
    rows: int,
    tw: int,
    th: int,
    ext: Seq<char>,
) -> Seq<char> {
    let cap = cols * rows;
    let s = k % cap;
    spec_page_name(name, k / cap, ext) + "#xywh="@ + spec_dec(x_of(s, cols, tw) as nat) + ","@
        + spec_dec(y_of(s, cols, rows, th) as nat) + ","@ + spec_dec(tw as nat) + ","@ + spec_dec(
        th as nat,
    )
}

/// The pixels of slot `s` of `img` are exactly the pixels of `tile`.
pub open spec fn slot_matches(
    img: RgbImage,
    tile: RgbImage,
    s: int,
    cols: int,
    rows: int,
    tw: int,
    th: int,
) -> bool {
    &&& tile.wf()
    &&& tile.width as int == tw
    &&& tile.height as int == th
    &&& forall|x: int, y: int, c: int|
        x_of(s, cols, tw) <= x < x_of(s, cols, tw) + tw && y_of(s, cols, rows, th) <= y < y_of(
            s,
            cols,
            rows,
            th,
        ) + th && 0 <= c < 3 ==> #[trigger] img.pixel_byte(x, y, c) == tile.pixel_byte(
            x - x_of(s, cols, tw),
            y - y_of(s, cols, rows, th),
            c,
        )
}

/// The pixels of slot `s` of `img` are all zero (blank).
pub open spec fn slot_blank(img: RgbImage, s: int, cols: int, rows: int, tw: int, th: int) -> bool {
    forall|x: int, y: int, c: int|
        x_of(s, cols, tw) <= x < x_of(s, cols, tw) + tw && y_of(s, cols, rows, th) <= y < y_of(
            s,
            cols,
            rows,
            th,
        ) + th && 0 <= c < 3 ==> #[trigger] img.pixel_byte(x, y, c) == 0
}

/// The first `upto` slots of `img` hold the tiles of `tiles`, in slot
/// order; every further slot is blank.
pub open spec fn page_filled(
    img: RgbImage,
    tiles: Seq<RgbImage>,
    cols: int,
    rows: int,
    tw: int,
    th: int,
    upto: int,
) -> bool {
    &&& forall|s: int|
        0 <= s < upto ==> #[trigger] slot_matches(img, tiles[s], s, cols, rows, tw, th)
    &&& forall|s: int| upto <= s < cols * rows ==> #[trigger] slot_blank(img, s, cols, rows, tw, th)
}

/// Slot offsets lie inside the page grid, and the row/column parts of a
/// slot index stay within their ranges.
proof fn lemma_slot_layout(s: int, cols: int, rows: int, tw: int, th: int)
    requires
        0 <= s,
        cols >= 1,
        rows >= 1,
        tw >= 0,
        th >= 0,
    ensures
        0 <= s % cols < cols,
        0 <= (s / cols) % rows < rows,
        0 <= x_of(s, cols, tw),
        x_of(s, cols, tw) + tw <= cols * tw,
        0 <= y_of(s, cols, rows, th),
        y_of(s, cols, rows, th) + th <= rows * th,
{
    lemma_mod_bound(s, cols);
    lemma_mod_bound(s / cols, rows);
    assert((s % cols) * tw >= 0 && (s % cols) * tw + tw <= cols * tw) by (nonlinear_arith)
        requires
            0 <= s % cols,
            s % cols < cols,
            tw >= 0,
    ;
    assert(((s / cols) % rows) * th >= 0 && ((s / cols) % rows) * th + th <= rows * th)
        by (nonlinear_arith)
        requires
            0 <= (s / cols) % rows,
            (s / cols) % rows < rows,
            th >= 0,
    ;
}

/// A page capacity computed from two positive `u32` grid dimensions is
/// positive and fits in a `u64`.
proof fn lemma_capacity_bounds(cols: int, rows: int)
    requires
        1 <= cols <= u32::MAX as int,
        1 <= rows <= u32::MAX as int,
    ensures
        1 <= cols * rows <= u64::MAX as int,
{
    assert(1 <= cols * rows && cols * rows <= u64::MAX as int) by (nonlinear_arith)
        requires
            1 <= cols <= u32::MAX as int,
            1 <= rows <= u32::MAX as int,
            u32::MAX as int * u32::MAX as int <= u64::MAX as int,
    ;
}

/// Two distinct slots of one page cover disjoint pixel rectangles.
proof fn lemma_slot_rects_disjoint(
    s1: int,
    s2: int,
    cols: int,
    rows: int,
    tw: int,
    th: int,
    x: int,
    y: int,
)
    requires
        cols >= 1,
        rows >= 1,
        tw >= 0,
        th >= 0,
        0 <= s1 < cols * rows,
        0 <= s2 < cols * rows,
        s1 != s2,
        x_of(s1, cols, tw) <= x < x_of(s1, cols, tw) + tw,
        y_of(s1, cols, rows, th) <= y < y_of(s1, cols, rows, th) + th,
    ensures
        !(x_of(s2, cols, tw) <= x < x_of(s2, cols, tw) + tw && y_of(s2, cols, rows, th) <= y < y_of(
            s2,
            cols,
            rows,
            th,
        ) + th),
{
    if x_of(s2, cols, tw) <= x < x_of(s2, cols, tw) + tw && y_of(s2, cols, rows, th) <= y < y_of(
        s2,
        cols,
        rows,
        th,
    ) + th {
        let q1 = s1 % cols;
        let r1 = s1 / cols;
        let q2 = s2 % cols;
        let r2 = s2 / cols;
        assert(q1 == q2) by (nonlinear_arith)
            requires
                q1 * tw <= x,
                x < q1 * tw + tw,
                q2 * tw <= x,
                x < q2 * tw + tw,
                tw >= 0,
        ;
        assert((r1 % rows) == (r2 % rows)) by (nonlinear_arith)
            requires
                (r1 % rows) * th <= y,
                y < (r1 % rows) * th + th,
                (r2 % rows) * th <= y,
                y < (r2 % rows) * th + th,
                th >= 0,
        ;
        lemma_multiply_divide_lt(s1, cols, rows);
        lemma_multiply_divide_lt(s2, cols, rows);
        lemma_div_pos_is_pos(s1, cols);
        lemma_div_pos_is_pos(s2, cols);
        lemma_small_mod(r1 as nat, rows as nat);
        lemma_small_mod(r2 as nat, rows as nat);
        lemma_fundamental_div_mod(s1, cols);
        lemma_fundamental_div_mod(s2, cols);
        assert(false);
    }
}

/// An all-zero page buffer is a page with no tiles: every slot blank.
proof fn lemma_blank_page_filled(img: RgbImage, cols: int, rows: int, tw: int, th: int)
    requires
        img.wf(),
        img.width as int == cols * tw,
        img.height as int == rows * th,
        img.all_bytes(0),
        cols >= 1,
        rows >= 1,
        tw >= 0,
        th >= 0,
    ensures
        page_filled(img, Seq::empty(), cols, rows, tw, th, 0),
{
    assert forall|s: int| 0 <= s < cols * rows implies #[trigger] slot_blank(
        img,
        s,
        cols,
        rows,
        tw,
        th,
    ) by {
        lemma_slot_layout(s, cols, rows, tw, th);
        assert forall|x: int, y: int, c: int|
            x_of(s, cols, tw) <= x < x_of(s, cols, tw) + tw && y_of(s, cols, rows, th) <= y < y_of(
                s,
                cols,
                rows,
                th,
            ) + th && 0 <= c < 3 implies #[trigger] img.pixel_byte(x, y, c) == 0 by {
            crate::raster::lemma_byte_index_bound(cols * tw, rows * th, x, y, c);
        }
    }
}

/// Overlaying the next tile onto slot `m` of a page that correctly holds
/// its first `m` tiles yields a page that correctly holds `m + 1` tiles.
proof fn lemma_page_after_overlay(
    pre: RgbImage,
    post: RgbImage,
    tile: RgbImage,
    tiles: Seq<RgbImage>,
    cols: int,
    rows: int,
    tw: int,
    th: int,
    m: int,
)
    requires
        cols >= 1,
        rows >= 1,
        tw >= 0,
        th >= 0,
        0 <= m < cols * rows,
        tiles.len() == m,
        pre.wf(),
        pre.width as int == cols * tw,
        pre.height as int == rows * th,
        post.width == pre.width,
        post.height == pre.height,
        page_filled(pre, tiles, cols, rows, tw, th, m),
        tile.wf(),
        tile.width as int == tw,
        tile.height as int == th,
        forall|x: int, y: int, c: int|
            x_of(m, cols, tw) <= x < x_of(m, cols, tw) + tw && y_of(m, cols, rows, th) <= y < y_of(
                m,
                cols,
                rows,
                th,
            ) + th && 0 <= c < 3 ==> #[trigger] post.pixel_byte(x, y, c) == tile.pixel_byte(
                x - x_of(m, cols, tw),
                y - y_of(m, cols, rows, th),
                c,
            ),
        forall|x: int, y: int, c: int|
            0 <= x < pre.width && 0 <= y < pre.height && 0 <= c < 3 && !(x_of(m, cols, tw) <= x
                < x_of(m, cols, tw) + tw && y_of(m, cols, rows, th) <= y < y_of(m, cols, rows, th)
                + th) ==> #[trigger] post.pixel_byte(x, y, c) == pre.pixel_byte(x, y, c),
    ensures
        page_filled(post, tiles.push(tile), cols, rows, tw, th, m + 1),
{
    lemma_slot_layout(m, cols, rows, tw, th);
    assert forall|s: int| 0 <= s < m + 1 implies #[trigger] slot_matches(
        post,
        tiles.push(tile)[s],
        s,
        cols,
        rows,
        tw,
        th,
    ) by {
        lemma_slot_layout(s, cols, rows, tw, th);
        if s < m {
            assert(slot_matches(pre, tiles[s], s, cols, rows, tw, th));
            assert(tiles.push(tile)[s] == tiles[s]);
            assert forall|x: int, y: int, c: int|
                x_of(s, cols, tw) <= x < x_of(s, cols, tw) + tw && y_of(s, cols, rows, th) <= y
                    < y_of(s, cols, rows, th) + th && 0 <= c < 3 implies #[trigger] post.pixel_byte(
                x,
                y,
                c,
            ) == tiles[s].pixel_byte(x - x_of(s, cols, tw), y - y_of(s, cols, rows, th), c) by {
                lemma_slot_rects_disjoint(s, m, cols, rows, tw, th, x, y);
            }
        } else {
            assert(tiles.push(tile)[m] == tile);
        }
    }
    assert forall|s: int| m + 1 <= s < cols * rows implies #[trigger] slot_blank(
        post,
        s,
        cols,
        rows,
        tw,
        th,
    ) by {
        lemma_slot_layout(s, cols, rows, tw, th);
        assert(slot_blank(pre, s, cols, rows, tw, th));
        assert forall|x: int, y: int, c: int|
            x_of(s, cols, tw) <= x < x_of(s, cols, tw) + tw && y_of(s, cols, rows, th) <= y < y_of(
                s,
                cols,
                rows,
                th,
            ) + th && 0 <= c < 3 implies #[trigger] post.pixel_byte(x, y, c) == 0 by {
            lemma_slot_rects_disjoint(s, m, cols, rows, tw, th, x, y);
        }
    }
}

/// Collects accepted frames into paged grid buffers, flushes full pages,
/// and keeps one cue per closed frame interval.
pub struct SpritesheetManager {
    pub num_horizontal: u32,
    pub num_vertical: u32,
    pub max_side: u32,
    pub sprite_width: u32,
    pub sprite_height: u32,
    pub spritesheet: RgbImage,
    pub current_image: u32,
    pub last_timestamp: MediaTime,
    pub frame_interval: MediaTime,
    pub metadata: WebVTTFile,
    pub name: String,
    pub format: OutputFormat,
    pub initialized: bool,
    pub dirty: bool,
    pub next_page: u32,
    pub finished: bool,
    pub page_tiles: Ghost<Seq<RgbImage>>,
}

impl SpritesheetManager {
    /// Page capacity: tiles per page.
    pub open spec fn capacity(self) -> int {
        (self.num_horizontal as int) * (self.num_vertical as int)
    }

    /// A cue for the previous frame is still waiting for its closing
    /// timestamp.
    pub open spec fn pending(self) -> bool {
        self.current_image > 0 && self.metadata.cues@.len() < self.current_image as nat
    }

    /// Internal consistency of the manager.
    pub open spec fn wf(self) -> bool {
        let k = self.current_image as int;
        let cap = self.capacity();
        &&& self.num_horizontal >= 1
        &&& self.num_vertical >= 1
        &&& self.last_timestamp.millis >= 0
        &&& self.initialized ==> {
            &&& self.spritesheet.wf()
            &&& self.spritesheet.width as int == self.num_horizontal as int
                * self.sprite_width as int
            &&& self.spritesheet.height as int == self.num_vertical as int
                * self.sprite_height as int
        }
        &&& !self.initialized ==> (self.current_image == 0 && !self.dirty && self.next_page == 0
            && self.metadata.cues@.len() == 0)
        &&& (k == 0 ==> self.metadata.cues@.len() == 0)
        &&& (k > 0 ==> (self.metadata.cues@.len() == k - 1 || self.metadata.cues@.len() == k))
        &&& forall|i: int|
            0 <= i < self.metadata.cues@.len() ==> {
                &&& cue_wf(#[trigger] self.metadata.cues@[i])
                &&& self.metadata.cues@[i].start.millis <= self.metadata.cues@[i].end.millis
                &&& self.metadata.cues@[i].start.millis <= self.last_timestamp.millis
            }
        &&& (self.pending() && self.metadata.cues@.len() > 0 ==> self.metadata.cues@.last().end.millis
            == self.last_timestamp.millis)
        &&& forall|i: int|
            0 <= i < self.metadata.cues@.len() - 1 ==> (#[trigger] self.metadata.cues@[i]).start.millis
                <= self.metadata.cues@[i + 1].start.millis
        &&& self.dirty ==> {
            &&& self.initialized
            &&& k % cap != 0
            &&& self.page_tiles@.len() == k % cap
            &&& page_filled(
                self.spritesheet,
                self.page_tiles@,
                self.num_horizontal as int,
                self.num_vertical as int,
                self.sprite_width as int,
                self.sprite_height as int,
                k % cap,
            )
            &&& self.next_page as int == k / cap
        }
        &&& !self.dirty ==> {
            &&& self.page_tiles@.len() == 0
            &&& (self.initialized ==> self.spritesheet.all_bytes(0))
            &&& self.next_page as int == k / cap + (if k % cap == 0 {
                0int
            } else {
                1int
            })
        }
        &&& (!self.dirty && !self.finished) ==> k % cap == 0
        &&& self.finished ==> !self.dirty
    }

    /// A fresh manager for the given options and artifact base name.
    pub fn new(options: SpritesheetOptions, name: &str) -> (r: SpritesheetManager)
        requires
            options.columns >= 1,
            options.rows >= 1,
        ensures
            r.wf(),
            r.num_horizontal == options.columns,
            r.num_vertical == options.rows,
            r.max_side == options.max_size,
            r.frame_interval == options.frame_interval,
            r.format == options.format,
            r.name@ == name@,
            !r.initialized,
            !r.finished,
            r.current_image == 0,
            r.metadata.cues@.len() == 0,
            r.last_timestamp.millis == 0,
    {
        proof {
            assert(options.columns as int * options.rows as int >= 1) by (nonlinear_arith)
                requires
                    options.columns >= 1,
                    options.rows >= 1,
            ;
        }
        SpritesheetManager {
            num_horizontal: options.columns,
            num_vertical: options.rows,
            max_side: options.max_size,
            sprite_width: 0,
            sprite_height: 0,
            spritesheet: RgbImage::new(0, 0),
            current_image: 0,
            last_timestamp: MediaTime::from_millis(0),
            frame_interval: options.frame_interval,
            metadata: WebVTTFile::new(),
            name: String::from_str(name),
            format: options.format,
            initialized: false,
            dirty: false,
            next_page: 0,
            finished: false,
            page_tiles: Ghost(Seq::empty()),
        }
    }

    /// Whether `initialize` has fixed the tile size and page buffer.
    pub fn initialized(&self) -> (r: bool)
        ensures
            r == self.initialized,
    {
        self.initialized
    }

    /// Tile width in pixels (0 before initialization).
    pub fn sprite_width(&self) -> (r: u32)
        ensures
            r == self.sprite_width,
    {
        self.sprite_width
    }

    /// Tile height in pixels (0 before initialization).
    pub fn sprite_height(&self) -> (r: u32)
        ensures
            r == self.sprite_height,
    {
        self.sprite_height
    }

    /// Fixes the tile size from the native frame size, keeping the aspect
    /// ratio with the larger side equal to `max_side`, and allocates the
    /// first blank page.  A second call is a no-op.
    pub fn initialize(&mut self, width: u32, height: u32)
        requires
            old(self).wf(),
            width >= 1,
            height >= 1,
            old(self).num_horizontal as int * old(self).max_side as int <= u32::MAX as int,
            old(self).num_vertical as int * old(self).max_side as int <= u32::MAX as int,
            3 * (old(self).num_horizontal as int * old(self).max_side as int) * (old(
                self,
            ).num_vertical as int * old(self).max_side as int) <= usize::MAX as int,
        ensures
            final(self).wf(),
            old(self).initialized ==> *final(self) == *old(self),
            !old(self).initialized ==> {
                &&& final(self).initialized
                &&& width >= height ==> {
                    &&& final(self).sprite_width == old(self).max_side
                    &&& final(self).sprite_height as int == (old(self).max_side as int * height)
                        / (width as int)
                }
                &&& width < height ==> {
                    &&& final(self).sprite_height == old(self).max_side
                    &&& final(self).sprite_width as int == (old(self).max_side as int * width)
                        / (height as int)
                }
                &&& final(self).current_image == old(self).current_image
                &&& final(self).metadata == old(self).metadata
                &&& final(self).last_timestamp == old(self).last_timestamp
                &&& final(self).frame_interval == old(self).frame_interval
                &&& final(self).name == old(self).name
                &&& final(self).format == old(self).format
                &&& final(self).num_horizontal == old(self).num_horizontal
                &&& final(self).num_vertical == old(self).num_vertical
                &&& final(self).max_side == old(self).max_side
                &&& !final(self).dirty
                &&& !final(self).finished == !old(self).finished
            },
    {
        if self.initialized {
            return ;
        }
        let max: u64 = self.max_side as u64;
        let w: u64 = width as u64;
        let h: u64 = height as u64;
        proof {
            assert((max as int) * (h as int) <= u64::MAX as int && (max as int) * (w as int)
                <= u64::MAX as int) by (nonlinear_arith)
                requires
                    0 <= max as int <= u32::MAX as int,
                    0 <= w as int <= u32::MAX as int,
                    0 <= h as int <= u32::MAX as int,
                    u32::MAX as int * u32::MAX as int <= u64::MAX as int,
            ;
        }
        if width >= height {
            self.sprite_width = self.max_side;
            proof {
                assert((max as int) * (h as int) / (w as int) <= max as int) by (nonlinear_arith)
                    requires
                        1 <= h as int,
                        (h as int) <= (w as int),
                        0 <= max as int,
                ;
            }
            self.sprite_height = ((max * h) / w) as u32;
        } else {
            self.sprite_height = self.max_side;
            proof {
                assert((max as int) * (w as int) / (h as int) <= max as int) by (nonlinear_arith)
                    requires
                        1 <= w as int,
                        (w as int) < (h as int),
                        0 <= max as int,
                ;
            }
            self.sprite_width = ((max * w) / h) as u32;
        }
        proof {
            assert(self.num_horizontal as int * self.sprite_width as int <= self.num_horizontal as int
                * self.max_side as int && self.num_vertical as int * self.sprite_height as int
                <= self.num_vertical as int * self.max_side as int) by (nonlinear_arith)
                requires
                    self.sprite_width <= self.max_side,
                    self.sprite_height <= self.max_side,
                    self.num_horizontal >= 1,
                    self.num_vertical >= 1,
            ;
            assert(3 * (self.num_horizontal as int * self.sprite_width as int) * (
            self.num_vertical as int * self.sprite_height as int) <= 3 * (self.num_horizontal as int
                * self.max_side as int) * (self.num_vertical as int * self.max_side as int))
                by (nonlinear_arith)
                requires
                    0 <= self.num_horizontal as int * self.sprite_width as int
                        <= self.num_horizontal as int * self.max_side as int,
                    0 <= self.num_vertical as int * self.sprite_height as int
                        <= self.num_vertical as int * self.max_side as int,
            ;
        }
        let page_w: u32 = self.num_horizontal * self.sprite_width;
        let page_h: u32 = self.num_vertical * self.sprite_height;
        self.spritesheet = RgbImage::new(page_w, page_h);
        self.initialized = true;
    }

    /// True when the sampling gate admits a frame at `timestamp`: always
    /// for the first frame, afterwards only when the gap since the last
    /// accepted frame strictly exceeds the configured interval.
    pub fn fulfils_frame_interval(&self, timestamp: MediaTime) -> (r: bool)
        ensures
            r == (self.current_image == 0 || timestamp.millis - self.last_timestamp.millis
                > self.frame_interval.millis),
    {
        self.current_image == 0 || (timestamp.millis as i128 - self.last_timestamp.millis as i128)
            > self.frame_interval.millis as i128
    }

    /// File name `<name>_<index>.<ext>` of the page with the given index.
    fn make_page_name(&self, index: u32) -> (r: String)
        ensures
            r@ == spec_page_name(self.name@, index as int, spec_ext(self.format)),
    {
        let mut s = self.name.clone();
        s.append("_");
        push_dec(&mut s, index as u64);
        s.append(".");
        s.append(self.format.ending());
        proof {
            assert(s@ =~= spec_page_name(self.name@, index as int, spec_ext(self.format)));
        }
        s
    }

    /// Closes the still-open cue of the previous accepted frame, giving it
    /// `timestamp` as its end boundary.  When no cue is pending (no frame
    /// yet, or the last cue was already closed) nothing changes.
    pub fn end_frame(&mut self, timestamp: MediaTime)
        requires
            old(self).wf(),
            timestamp.millis >= old(self).last_timestamp.millis,
        ensures
            final(self).wf(),
            (*final(self) == (SpritesheetManager { metadata: final(self).metadata, ..*old(self) })),
            old(self).pending() ==> {
                &&& final(self).metadata.cues@.len() == old(self).metadata.cues@.len() + 1
                &&& final(self).metadata.cues@.drop_last() == old(self).metadata.cues@
                &&& final(self).metadata.cues@.last().start == old(self).last_timestamp
                &&& final(self).metadata.cues@.last().end == timestamp
                &&& final(self).metadata.cues@.last().payload@ == spec_tile_payload(
                    old(self).name@,
                    old(self).current_image as int - 1,
                    old(self).num_horizontal as int,
                    old(self).num_vertical as int,
                    old(self).sprite_width as int,
                    old(self).sprite_height as int,
                    spec_ext(old(self).format),
                )
            },
            !old(self).pending() ==> *final(self) == *old(self),
            !final(self).pending(),
    {
        if self.current_image > 0 && self.metadata.len() < self.current_image as usize {
            let prev: u32 = self.current_image - 1;
            let cols: u64 = self.num_horizontal as u64;
            let rows: u64 = self.num_vertical as u64;
            proof {
                lemma_capacity_bounds(cols as int, rows as int);
            }
            let cap: u64 = cols * rows;
            let s: u64 = (prev as u64) % cap;
            let page: u64 = (prev as u64) / cap;
            let q: u64 = s % cols;
            let rr: u64 = (s / cols) % rows;
            proof {
                lemma_slot_layout(s as int, cols as int, rows as int, self.sprite_width as int,
                    self.sprite_height as int);
                assert(q * (self.sprite_width as u64) <= u64::MAX && rr * (self.sprite_height
                    as u64) <= u64::MAX) by (nonlinear_arith)
                    requires
                        0 <= q as int,
                        (q as int) < (cols as int),
                        0 <= rr as int,
                        (rr as int) < (rows as int),
                        cols as int <= u32::MAX as int,
                        rows as int <= u32::MAX as int,
                        self.sprite_width as int <= u32::MAX as int,
                        self.sprite_height as int <= u32::MAX as int,
                        u32::MAX as int * u32::MAX as int <= u64::MAX as int,
                ;
                assert(page as int <= prev as int) by (nonlinear_arith)
                    requires
                        cap as int >= 1,
                        0 <= prev as int,
                        page as int == prev as int / cap as int,
                ;
            }
            let x: u64 = q * (self.sprite_width as u64);
            let y: u64 = rr * (self.sprite_height as u64);
            let mut payload = self.make_page_name(page as u32);
            payload.append("#xywh=");
            push_dec(&mut payload, x);
            payload.append(",");
            push_dec(&mut payload, y);
            payload.append(",");
            push_dec(&mut payload, self.sprite_width as u64);
            payload.append(",");
            push_dec(&mut payload, self.sprite_height as u64);
            proof {
                assert(payload@ =~= spec_tile_payload(
                    self.name@,
                    prev as int,
                    self.num_horizontal as int,
                    self.num_vertical as int,
                    self.sprite_width as int,
                    self.sprite_height as int,
                    spec_ext(self.format),
                ));
            }
            let cue = WebVTTCue::new(self.last_timestamp, timestamp, payload);
            let ghost pre = *self;
            self.metadata.add(cue);
            proof {
                assert(self.metadata.cues@.drop_last() =~= pre.metadata.cues@);
            }
        }
    }
}

/// How one `add_frame` call changes a manager: the tile is placed at its
/// grid slot, the previous frame's cue is closed, and a completed page is
/// flushed out.
pub open spec fn spec_add_frame(
    pre: SpritesheetManager,
    post: SpritesheetManager,
    t: MediaTime,
    tile: RgbImage,
    r: Result<Option<PageArtifact>, SpriteError>,
) -> bool {
    let cap = pre.capacity();
    let k = pre.current_image as int;
    let cols = pre.num_horizontal as int;
    let rows = pre.num_vertical as int;
    let tw = pre.sprite_width as int;
    let th = pre.sprite_height as int;
    if tile.width != pre.sprite_width || tile.height != pre.sprite_height {
        &&& r == Err::<Option<PageArtifact>, SpriteError>(
            SpriteError::DimensionMismatch {
                got_width: tile.width,
                got_height: tile.height,
                expected_width: pre.sprite_width,
                expected_height: pre.sprite_height,
            },
        )
        &&& post == pre
    } else {
        &&& post.current_image == k + 1
        &&& post.last_timestamp == t
        &&& post.num_horizontal == pre.num_horizontal
        &&& post.num_vertical == pre.num_vertical
        &&& post.max_side == pre.max_side
        &&& post.sprite_width == pre.sprite_width
        &&& post.sprite_height == pre.sprite_height
        &&& post.frame_interval == pre.frame_interval
        &&& post.name == pre.name
        &&& post.format == pre.format
        &&& post.initialized == pre.initialized
        &&& post.finished == pre.finished
        &&& k > 0 ==> {
            &&& post.metadata.cues@.len() == k
            &&& post.metadata.cues@.drop_last() == pre.metadata.cues@
            &&& post.metadata.cues@.last().start == pre.last_timestamp
            &&& post.metadata.cues@.last().end == t
            &&& post.metadata.cues@.last().payload@ == spec_tile_payload(
                pre.name@,
                k - 1,
                cols,
                rows,
                tw,
                th,
                spec_ext(pre.format),
            )
        }
        &&& k == 0 ==> post.metadata.cues@ == pre.metadata.cues@
        &&& if (k + 1) % cap == 0 {
            r matches Ok(Some(a)) && {
                &&& a.index as int == pre.next_page
                &&& a.file_name@ == spec_page_name(pre.name@, a.index as int, spec_ext(pre.format))
                &&& a.image.wf()
                &&& a.image.width as int == cols * tw
                &&& a.image.height as int == rows * th
                &&& page_filled(a.image, pre.page_tiles@.push(tile), cols, rows, tw, th, cap)
                &&& post.next_page == pre.next_page + 1
                &&& !post.dirty
                &&& post.page_tiles@.len() == 0
            }
        } else {
            &&& r == Ok::<Option<PageArtifact>, SpriteError>(None)
            &&& post.dirty
            &&& post.page_tiles@ == pre.page_tiles@.push(tile)
            &&& post.next_page == pre.next_page
            &&& page_filled(post.spritesheet, post.page_tiles@, cols, rows, tw, th, (k + 1) % cap)
        }
    }
}

impl SpritesheetManager {
    /// Accepts one scaled frame at `timestamp`: rejects it if its size is
    /// not the tile size; otherwise places it at the slot of the current
    /// tile index, closes the previous frame's cue, and, when the page
    /// became full, flushes it as an artifact and starts a blank page.
    #[verifier::rlimit(100)]
    pub fn add_frame(&mut self, timestamp: MediaTime, image: &RgbImage) -> (r: Result<
        Option<PageArtifact>,
        SpriteError,
    >)
        requires
            old(self).wf(),
            old(self).initialized,
            !old(self).finished,
            old(self).pending() || old(self).current_image == 0,
            image.wf(),
            timestamp.millis >= old(self).last_timestamp.millis,
            old(self).current_image < u32::MAX,
        ensures
            final(self).wf(),
            r is Ok ==> final(self).pending(),
            spec_add_frame(*old(self), *final(self), timestamp, *image, r),
    {
        if image.width != self.sprite_width || image.height != self.sprite_height {
            return Err(
                SpriteError::DimensionMismatch {
                    got_width: image.width,
                    got_height: image.height,
                    expected_width: self.sprite_width,
                    expected_height: self.sprite_height,
                },
            );
        }
        let ghost pre = *self;
        self.end_frame(timestamp);

        let k: u32 = self.current_image;
        let cols: u64 = self.num_horizontal as u64;
        let rows: u64 = self.num_vertical as u64;
        proof {
            lemma_capacity_bounds(cols as int, rows as int);
        }
        let cap: u64 = cols * rows;
        let s: u64 = (k as u64) % cap;
        let q: u64 = s % cols;
        let rr: u64 = (s / cols) % rows;
        let ghost capi = cap as int;
        let ghost si = s as int;
        proof {
            lemma_slot_layout(si, cols as int, rows as int, self.sprite_width as int,
                self.sprite_height as int);
            assert(q * (self.sprite_width as u64) <= u64::MAX && rr * (self.sprite_height as u64)
                <= u64::MAX) by (nonlinear_arith)
                requires
                    0 <= q as int,
                    (q as int) < (cols as int),
                    0 <= rr as int,
                    (rr as int) < (rows as int),
                    cols as int <= u32::MAX as int,
                    rows as int <= u32::MAX as int,
                    self.sprite_width as int <= u32::MAX as int,
                    self.sprite_height as int <= u32::MAX as int,
                    u32::MAX as int * u32::MAX as int <= u64::MAX as int,
            ;
        }
        let x64: u64 = q * (self.sprite_width as u64);
        let y64: u64 = rr * (self.sprite_height as u64);
        let x: u32 = x64 as u32;
        let y: u32 = y64 as u32;
        let ghost sheet_pre = self.spritesheet;
        self.spritesheet.overlay(image, x, y);
        proof {
            let m = si;
            if !pre.dirty {
                lemma_blank_page_filled(
                    sheet_pre,
                    cols as int,
                    rows as int,
                    self.sprite_width as int,
                    self.sprite_height as int,
                );
            }
            assert(self.page_tiles@.len() == m);
            lemma_page_after_overlay(
                sheet_pre,
                self.spritesheet,
                *image,
                self.page_tiles@,
                cols as int,
                rows as int,
                self.sprite_width as int,
                self.sprite_height as int,
                m,
            );
        }
        self.page_tiles = Ghost(self.page_tiles@.push(*image));

        let ghost ki = k as int;
        let ghost qi = ki / capi;
        proof {
            lemma_fundamental_div_mod(ki, capi);
            lemma_div_pos_is_pos(ki, capi);
            lemma_mod_bound(ki, capi);
            if si + 1 == capi {
                assert(ki + 1 == (qi + 1) * capi + 0) by (nonlinear_arith)
                    requires
                        ki == capi * qi + si,
                        si + 1 == capi,
                ;
                lemma_fundamental_div_mod_converse(ki + 1, capi, qi + 1, 0);
            } else {
                assert(ki + 1 == qi * capi + (si + 1)) by (nonlinear_arith)
                    requires
                        ki == capi * qi + si,
                ;
                lemma_fundamental_div_mod_converse(ki + 1, capi, qi, si + 1);
            }
        }
        let result: Option<PageArtifact> = if (k as u64 + 1) % cap == 0 {
            let page_w: u32 = self.spritesheet.width;
            let page_h: u32 = self.spritesheet.height;
            let total: usize = self.spritesheet.data.len();
            let mut fresh = RgbImage::new(page_w, page_h);
            swap(&mut self.spritesheet, &mut fresh);
            let file_name = self.make_page_name(self.next_page);
            let artifact = PageArtifact { index: self.next_page, file_name, image: fresh };
            proof {
                assert(self.next_page as int + 1 <= u32::MAX as int) by (nonlinear_arith)
                    requires
                        self.next_page as int == qi || self.next_page as int == qi + (if si == 0 {
                            0int
                        } else {
                            1int
                        }),
                        qi == ki / capi,
                        capi >= 1,
                        0 <= ki < u32::MAX as int,
                        ki == capi * qi + si,
                        0 <= si < capi,
                ;
            }
            self.next_page = self.next_page + 1;
            self.dirty = false;
            self.page_tiles = Ghost(Seq::empty());
            Some(artifact)
        } else {
            self.dirty = true;
            None
        };
        self.current_image = k + 1;
        self.last_timestamp = timestamp;
        proof {
            lemma_mod_bound(ki + 1, capi);
        }
        Ok(result)
    }

    /// Flushes the current page if and only if it holds unflushed tiles
    /// (never re-emitting an already flushed page), and renders the cue
    /// list for the metadata sidecar file.  Marks the manager finished.
    pub fn save(&mut self) -> (r: SpritesheetSaveArtifacts)
        requires
            old(self).wf(),
        ensures
            final(self).wf(),
            final(self).finished,
            !final(self).dirty,
            r.metadata_name@ == old(self).name@ + ".vtt"@,
            r.metadata_text@ == spec_file_text(old(self).metadata.cues@),
            final(self).metadata == old(self).metadata,
            final(self).current_image == old(self).current_image,
            (*final(self) == (SpritesheetManager {
                spritesheet: final(self).spritesheet,
                dirty: final(self).dirty,
                next_page: final(self).next_page,
                finished: final(self).finished,
                page_tiles: final(self).page_tiles,
                ..*old(self)
            })),
            old(self).dirty ==> (r.page matches Some(a) && {
                &&& a.index as int == old(self).next_page
                &&& a.file_name@ == spec_page_name(
                    old(self).name@,
                    a.index as int,
                    spec_ext(old(self).format),
                )
                &&& a.image.wf()
                &&& a.image.width == old(self).spritesheet.width
                &&& a.image.height == old(self).spritesheet.height
                &&& page_filled(
                    a.image,
                    old(self).page_tiles@,
                    old(self).num_horizontal as int,
                    old(self).num_vertical as int,
                    old(self).sprite_width as int,
                    old(self).sprite_height as int,
                    old(self).current_image as int % old(self).capacity(),
                )
                &&& final(self).next_page == old(self).next_page + 1
            }),
            !old(self).dirty ==> (r.page is None && final(self).next_page == old(self).next_page),
    {
        let mut metadata_name = self.name.clone();
        metadata_name.append(".vtt");
        proof {
            assert(metadata_name@ =~= self.name@ + ".vtt"@);
        }
        let metadata_text = self.metadata.render();
        let page: Option<PageArtifact> = if self.dirty {
            let page_w: u32 = self.spritesheet.width;
            let page_h: u32 = self.spritesheet.height;
            let total: usize = self.spritesheet.data.len();
            let mut fresh = RgbImage::new(page_w, page_h);
            swap(&mut self.spritesheet, &mut fresh);
            let file_name = self.make_page_name(self.next_page);
            let artifact = PageArtifact { index: self.next_page, file_name, image: fresh };
            proof {
                let ki = self.current_image as int;
                let capi = self.capacity();
                lemma_capacity_bounds(self.num_horizontal as int, self.num_vertical as int);
                lemma_fundamental_div_mod(ki, capi);
                lemma_mod_bound(ki, capi);
                lemma_div_pos_is_pos(ki, capi);
                assert(capi >= 2);
                let qi = ki / capi;
                let ri = ki % capi;
                assert(qi + 1 <= u32::MAX as int) by (nonlinear_arith)
                    requires
                        ki == capi * qi + ri,
                        0 <= ri,
                        capi >= 2,
                        0 <= qi,
                        ki <= u32::MAX as int,
                ;
            }
            self.next_page = self.next_page + 1;
            self.dirty = false;
            self.page_tiles = Ghost(Seq::empty());
            Some(artifact)
        } else {
            None
        };
        self.finished = true;
        SpritesheetSaveArtifacts { page, metadata_name, metadata_text }
    }
}

/// Page tally: for `n` accepted frames and page capacity `cap`, the
/// fill-triggered flushes emit `n / cap` full pages and the final `save`
/// emits one more exactly when the last page is partial, so the number
/// of emitted pages is `⌈n / cap⌉` in total; the last page holds
/// `n % cap` tiles, or a full `cap` when `cap` divides `n`.
pub proof fn lemma_page_tally(n: int, cap: int)
    requires
        n >= 0,
        cap >= 1,
    ensures
        n / cap + (if n % cap == 0 {
            0int
        } else {
            1int
        }) == (n + cap - 1) / cap,
{
    lemma_fundamental_div_mod(n, cap);
    lemma_mod_bound(n, cap);
    lemma_div_pos_is_pos(n, cap);
    let q = n / cap;
    let r = n % cap;
    if r == 0 {
        assert(n + cap - 1 == q * cap + (cap - 1)) by (nonlinear_arith)
            requires
                n == cap * q,
        ;
        lemma_fundamental_div_mod_converse(n + cap - 1, cap, q, cap - 1);
    } else {
        assert(n + cap - 1 == (q + 1) * cap + (r - 1)) by (nonlinear_arith)
            requires
                n == cap * q + r,
        ;
        lemma_fundamental_div_mod_converse(n + cap - 1, cap, q + 1, r - 1);
    }
}

/// Once no partial page is left unflushed — right after a fill-triggered
/// flush, or after `save` — the number of pages emitted over the whole
/// run equals `⌈n / cap⌉` for the `n` frames accepted so far.
pub proof fn lemma_total_pages(m: SpritesheetManager)
    requires
        m.wf(),
        !m.dirty,
    ensures
        m.next_page as int == (m.current_image as int + m.capacity() - 1) / m.capacity(),
{
    lemma_capacity_bounds(m.num_horizontal as int, m.num_vertical as int);
    lemma_page_tally(m.current_image as int, m.capacity());
}

/// Tile placement: accepting the frame with global index
/// `k = pre.current_image` puts its pixels at slot `k % cap` — pixel
/// offsets `((k % cap) % cols)·tw` and `(((k % cap) / cols) % rows)·th` —
/// of page `k / cap`, which is the page flushed by this very call when it
/// fills up.
pub proof fn lemma_tile_placement(
    pre: SpritesheetManager,
    post: SpritesheetManager,
    t: MediaTime,
    tile: RgbImage,
    r: Result<Option<PageArtifact>, SpriteError>,
)
    requires
        pre.wf(),
        pre.initialized,
        !pre.finished,
        spec_add_frame(pre, post, t, tile, r),
        tile.width == pre.sprite_width,
        tile.height == pre.sprite_height,
    ensures
        (pre.current_image as int + 1) % pre.capacity() != 0 ==> slot_matches(
            post.spritesheet,
            tile,
            pre.current_image as int % pre.capacity(),
            pre.num_horizontal as int,
            pre.num_vertical as int,
            pre.sprite_width as int,
            pre.sprite_height as int,
        ),
        (pre.current_image as int + 1) % pre.capacity() == 0 ==> (r matches Ok(Some(a))
            && a.index as int == pre.current_image as int / pre.capacity() && slot_matches(
            a.image,
            tile,
            pre.current_image as int % pre.capacity(),
            pre.num_horizontal as int,
            pre.num_vertical as int,
            pre.sprite_width as int,
            pre.sprite_height as int,
        )),
{
    let cap = pre.capacity();
    let k = pre.current_image as int;
    lemma_capacity_bounds(pre.num_horizontal as int, pre.num_vertical as int);
    lemma_mod_bound(k, cap);
    lemma_mod_bound(k + 1, cap);
    let m = k % cap;
    let tiles = pre.page_tiles@.push(tile);
    assert(pre.page_tiles@.len() == m);
    assert(tiles[m] == tile);
    if (k + 1) % cap == 0 {
        lemma_fundamental_div_mod(k, cap);
        lemma_fundamental_div_mod(k + 1, cap);
        assert(m + 1 == cap) by (nonlinear_arith)
            requires
                k == cap * (k / cap) + m,
                k + 1 == cap * ((k + 1) / cap) + 0,
                0 <= m < cap,
                cap >= 1,
        ;
        assert(r matches Ok(Some(a)) && page_filled(
            a.image,
            tiles,
            pre.num_horizontal as int,
            pre.num_vertical as int,
            pre.sprite_width as int,
            pre.sprite_height as int,
            cap,
        ));
    } else {
        assert(page_filled(
            post.spritesheet,
            tiles,
            pre.num_horizontal as int,
            pre.num_vertical as int,
            pre.sprite_width as int,
            pre.sprite_height as int,
            (k + 1) % cap,
        ));
        lemma_fundamental_div_mod(k, cap);
        lemma_fundamental_div_mod(k + 1, cap);
        assert((k + 1) % cap == m + 1) by (nonlinear_arith)
            requires
                k == cap * (k / cap) + m,
                k + 1 == cap * ((k + 1) / cap) + ((k + 1) % cap),
                0 <= m < cap,
                0 <= (k + 1) % cap < cap,
                (k + 1) % cap != 0,
                cap >= 1,
        ;
    }
}

/// Pages are emitted with strictly increasing indices: every emission —
/// here the fill-triggered one; `save` states the same of its own — hands
/// out the current `next_page` and advances it by one, so no page index
/// can ever be emitted twice in a run.
pub proof fn lemma_page_emitted_once(
    pre: SpritesheetManager,
    post: SpritesheetManager,
    t: MediaTime,
    tile: RgbImage,
    a: PageArtifact,
)
    requires
        spec_add_frame(pre, post, t, tile, Ok(Some(a))),
    ensures
        a.index as int == pre.next_page,
        post.next_page == pre.next_page + 1,
{
}

} // verus!
