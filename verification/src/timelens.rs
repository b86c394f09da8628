//! Accumulation of accepted frames into a single filmstrip image, one
//! pixel column per accepted frame, resized to a display size at the end.

use vstd::arithmetic::div_mod::{
    lemma_div_pos_is_pos, lemma_fundamental_div_mod, lemma_mod_bound, lemma_multiply_divide_lt,
};
use vstd::prelude::*;
use vstd::string::StringExecFns;

use crate::codec::{resize_nearest, spec_nearest_resize};
use crate::media_time::MediaTime;
use crate::options::{spec_ext, OutputFormat};
use crate::raster::{byte_index, RgbImage};

verus! {

/// Configuration of one timelens output.
#[derive(Clone, Copy, Debug)]
pub struct TimelensOptions {
    pub width: u32,
    pub height: u32,
    pub frame_interval: MediaTime,
    pub format: OutputFormat,
}

/// Why the timelens output failed or rejected a frame.
#[derive(Clone, Copy, Debug, PartialEq, Eq, Structural)]
pub enum TimelensError {
    EmptyStream,
    DimensionMismatch { got_width: u32, got_height: u32, expected_width: u32, expected_height: u32 },
}

/// One finished filmstrip image, ready to be encoded and written under
/// its file name.
#[derive(Debug, PartialEq, Eq)]
pub struct StripArtifact {
    pub file_name: String,
    pub image: RgbImage,
}

/// The number of columns allocated for a stream of the given duration:
/// the sampling interval count, rounded up.
pub open spec fn spec_strip_width(duration: int, interval: int) -> int {
    (duration + interval - 1) / interval
}

/// The byte sequence of the leftmost `n` columns of `img`, packed with
/// row width `n`.
pub open spec fn cropped_bytes(img: RgbImage, n: int) -> Seq<u8> {
    Seq::new(
        (3 * n * (img.height as int)) as nat,
        |t: int|
            img.data@[byte_index(
                img.width as int,
                (t % (3 * n)) / 3,
                t / (3 * n),
                t % 3,
            )],
    )
}

/// Column `i` of `strip` holds exactly the single pixel column `col`.
pub open spec fn column_matches(strip: RgbImage, col: RgbImage, i: int) -> bool {
    &&& col.wf()
    &&& col.width == 1
    &&& col.height == strip.height
    &&& forall|y: int, c: int|
        0 <= y < strip.height && 0 <= c < 3 ==> #[trigger] strip.pixel_byte(i, y, c)
            == col.pixel_byte(0, y, c)
}

/// Collects accepted frames as consecutive single-pixel columns of one
/// pre-sized strip buffer.
pub struct TimelensManager {
    pub width: u32,
    pub height: u32,
    pub sprite_width: u32,
    pub sprite_height: u32,
    pub spritesheet: RgbImage,
    pub current_image: u32,
    pub last_timestamp: MediaTime,
    pub frame_interval: MediaTime,
    pub name: String,
    pub format: OutputFormat,
    pub initialized: bool,
    pub columns: Ghost<Seq<RgbImage>>,
}

impl TimelensManager {
    /// Internal consistency of the manager.
    pub open spec fn wf(self) -> bool {
        &&& self.sprite_width == 1
        &&& self.sprite_height == self.height
        &&& self.width >= 1
        &&& self.height >= 1
        &&& self.spritesheet.wf()
        &&& self.spritesheet.height == self.height
        &&& self.current_image <= self.spritesheet.width
        &&& self.last_timestamp.millis >= 0
        &&& self.columns@.len() == self.current_image
        &&& forall|i: int|
            0 <= i < self.current_image ==> #[trigger] column_matches(
                self.spritesheet,
                self.columns@[i],
                i,
            )
    }

    /// A fresh manager.  The strip buffer is allocated once, here, with
    /// one column per sampling interval of the stream's total duration.
    pub fn new(options: TimelensOptions, duration: MediaTime, name: &str) -> (r: TimelensManager)
        requires
            options.width >= 1,
            options.height >= 1,
            options.frame_interval.millis >= 1,
            duration.millis >= 0,
            spec_strip_width(duration.millis as int, options.frame_interval.millis as int)
                <= u32::MAX as int,
            3 * spec_strip_width(duration.millis as int, options.frame_interval.millis as int) * (
            options.height as int) <= usize::MAX as int,
        ensures
            r.wf(),
            r.width == options.width,
            r.height == options.height,
            r.frame_interval == options.frame_interval,
            r.format == options.format,
            r.name@ == name@,
            !r.initialized,
            r.current_image == 0,
            r.spritesheet.width as int == spec_strip_width(
                duration.millis as int,
                options.frame_interval.millis as int,
            ),
    {
        let dur: u64 = duration.millis as u64;
        let intv: u64 = options.frame_interval.millis as u64;
        let frame_count: u64 = (dur + intv - 1) / intv;
        TimelensManager {
            width: options.width,
            height: options.height,
            sprite_width: 1,
            sprite_height: options.height,
            spritesheet: RgbImage::new(frame_count as u32, options.height),
            current_image: 0,
            last_timestamp: MediaTime::from_millis(0),
            frame_interval: options.frame_interval,
            name: String::from_str(name),
            format: options.format,
            initialized: false,
            columns: Ghost(Seq::empty()),
        }
    }

    /// Marks the per-frame column size as prepared.  The column size is
    /// fixed by construction: one pixel wide, target height tall.
    pub fn initialize(&mut self)
        requires
            old(self).wf(),
        ensures
            final(self).wf(),
            (*final(self) == (TimelensManager { initialized: true, ..*old(self) })),
    {
        self.initialized = true;
    }

    /// Whether `initialize` has been called.
    pub fn initialized(&self) -> (r: bool)
        ensures
            r == self.initialized,
    {
        self.initialized
    }

    /// True when the sampling gate admits a frame at `timestamp`: always
    /// for the first frame, afterwards only when the gap since the last
    /// accepted frame strictly exceeds the configured interval.
    pub fn fulfils_frame_interval(&self, timestamp: MediaTime) -> (r: bool)
        ensures
            r == (self.current_image == 0 || timestamp.millis - self.last_timestamp.millis
                > self.frame_interval.millis),
    {
        self.current_image == 0 || (timestamp.millis as i128 - self.last_timestamp.millis as i128)
            > self.frame_interval.millis as i128
    }

    /// Accepts one scaled frame at `timestamp`: rejects it if it is not a
    /// single column of the strip's height, otherwise writes it at the
    /// column of the current frame index.
    pub fn add_frame(&mut self, timestamp: MediaTime, image: &RgbImage) -> (r: Result<
        (),
        TimelensError,
    >)
        requires
            old(self).wf(),
            old(self).initialized,
            image.wf(),
            timestamp.millis >= old(self).last_timestamp.millis,
            old(self).current_image < old(self).spritesheet.width,
        ensures
            final(self).wf(),
            (image.width != 1 || image.height != old(self).height) ==> (r == Err::<
                (),
                TimelensError,
            >(
                TimelensError::DimensionMismatch {
                    got_width: image.width,
                    got_height: image.height,
                    expected_width: 1,
                    expected_height: old(self).height,
                },
            ) && *final(self) == *old(self)),
            (image.width == 1 && image.height == old(self).height) ==> {
                &&& r == Ok::<(), TimelensError>(())
                &&& final(self).current_image == old(self).current_image + 1
                &&& final(self).last_timestamp == timestamp
                &&& final(self).columns@ == old(self).columns@.push(*image)
                &&& (*final(self) == (TimelensManager {
                    spritesheet: final(self).spritesheet,
                    current_image: final(self).current_image,
                    last_timestamp: final(self).last_timestamp,
                    columns: final(self).columns,
                    ..*old(self)
                }))
                &&& final(self).spritesheet.width == old(self).spritesheet.width
                &&& column_matches(final(self).spritesheet, *image, old(self).current_image as int)
            },
    {
        if image.width != 1 || image.height != self.sprite_height {
            return Err(
                TimelensError::DimensionMismatch {
                    got_width: image.width,
                    got_height: image.height,
                    expected_width: 1,
                    expected_height: self.sprite_height,
                },
            );
        }
        let ghost pre = *self;
        let x: u32 = self.current_image;
        self.spritesheet.overlay(image, x, 0);
        self.columns = Ghost(self.columns@.push(*image));
        self.current_image = x + 1;
        self.last_timestamp = timestamp;
        proof {
            assert forall|i: int| 0 <= i < self.current_image implies #[trigger] column_matches(
                self.spritesheet,
                self.columns@[i],
                i,
            ) by {
                if i < pre.current_image {
                    assert(column_matches(pre.spritesheet, pre.columns@[i], i));
                    assert(self.columns@[i] == pre.columns@[i]);
                }
            }
        }
        Ok(())
    }

    /// Crops the strip to the accepted columns, resizes it to the
    /// configured display size with nearest-neighbour (point) sampling,
    /// and names the output file.  A stream with no accepted frames
    /// yields `EmptyStream` instead of a zero-width image.
    pub fn save(&self) -> (r: Result<StripArtifact, TimelensError>)
        requires
            self.wf(),
            3 * (self.width as int) * (self.height as int) <= usize::MAX as int,
        ensures
            self.current_image == 0 ==> r == Err::<StripArtifact, TimelensError>(
                TimelensError::EmptyStream,
            ),
            self.current_image > 0 ==> (r matches Ok(a) && {
                &&& a.file_name@ == self.name@ + "_timelens."@ + spec_ext(self.format)
                &&& a.image.wf()
                &&& a.image.width == self.width
                &&& a.image.height == self.height
                &&& a.image.data@ == spec_nearest_resize(
                    cropped_bytes(self.spritesheet, self.current_image as int),
                    self.current_image as int,
                    self.height as int,
                    self.width as int,
                    self.height as int,
                )
            }),
    {
        if self.current_image == 0 {
            return Err(TimelensError::EmptyStream);
        }
        let cropped = self.spritesheet.crop_columns(self.current_image);
        proof {
            lemma_cropped_bytes(self.spritesheet, cropped, self.current_image as int);
        }
        let resized = resize_nearest(&cropped, self.width, self.height);
        let mut file_name = self.name.clone();
        file_name.append("_timelens.");
        file_name.append(self.format.ending());
        proof {
            assert(file_name@ =~= self.name@ + "_timelens."@ + spec_ext(self.format));
        }
        Ok(StripArtifact { file_name, image: resized })
    }
}

/// A crop that copies the leftmost `n` columns pixel for pixel has
/// exactly the byte sequence `cropped_bytes` describes.
proof fn lemma_cropped_bytes(strip: RgbImage, crop: RgbImage, n: int)
    requires
        strip.wf(),
        crop.wf(),
        crop.width == n,
        crop.height == strip.height,
        0 < n <= strip.width,
        forall|x: int, y: int, c: int|
            0 <= x < n && 0 <= y < strip.height && 0 <= c < 3 ==> #[trigger] crop.pixel_byte(
                x,
                y,
                c,
            ) == strip.pixel_byte(x, y, c),
    ensures
        crop.data@ == cropped_bytes(strip, n),
{
    let h = strip.height as int;
    assert(crop.data@.len() == 3 * n * h) by (nonlinear_arith)
        requires
            crop.data@.len() == 3 * (crop.width as int) * (crop.height as int),
            crop.width as int == n,
            crop.height as int == h,
    ;
    assert forall|t: int| 0 <= t < 3 * n * h implies crop.data@[t] == cropped_bytes(strip, n)[t] by {
        let row = 3 * n;
        let y = t / row;
        let rem = t % row;
        let x = rem / 3;
        let c = rem % 3;
        lemma_fundamental_div_mod(t, row);
        lemma_mod_bound(t, row);
        lemma_fundamental_div_mod(rem, 3);
        lemma_mod_bound(rem, 3);
        lemma_div_pos_is_pos(t, row);
        lemma_div_pos_is_pos(rem, 3);
        lemma_multiply_divide_lt(t, row, h);
        lemma_multiply_divide_lt(rem, 3, n);
        assert(t == byte_index(n, x, y, c)) by (nonlinear_arith)
            requires
                t == row * y + rem,
                rem == 3 * x + c,
                row == 3 * n,
        ;
        assert(crop.data@[t] == crop.pixel_byte(x, y, c));
        assert(crop.pixel_byte(x, y, c) == strip.pixel_byte(x, y, c));
        assert(cropped_bytes(strip, n)[t] == strip.data@[byte_index(strip.width as int, x, y, c)]);
    }
    assert(crop.data@ =~= cropped_bytes(strip, n));
}

} // verus!
