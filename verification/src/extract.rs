//! Orchestration of one extraction run: the per-consumer sampling
//! decisions of the decode loop, and the drain sequence at end of
//! stream.  The loop itself — demuxing, decoding, scaling, writing
//! files — belongs to the caller, which performs those external steps
//! and feeds the results back in.

use vstd::prelude::*;

use crate::media_time::MediaTime;
use crate::raster::RgbImage;
use crate::spritesheet::{
    spec_add_frame, PageArtifact, SpriteError, SpritesheetManager, SpritesheetOptions,
    SpritesheetSaveArtifacts,
};
use crate::timelens::{
    spec_strip_width, StripArtifact, TimelensError, TimelensManager, TimelensOptions,
};

verus! {

/// The consumers of one run, at most one of each output kind.
pub struct PreviewExtractor {
    pub spritesheet: Option<SpritesheetManager>,
    pub timelens: Option<TimelensManager>,
}

/// What the drain step hands back, reported per output: the spritesheet's
/// final artifacts, and the timelens strip or its per-output failure.
pub struct FinishArtifacts {
    pub spritesheet: Option<SpritesheetSaveArtifacts>,
    pub timelens: Option<Result<StripArtifact, TimelensError>>,
}

impl PreviewExtractor {
    /// Internal consistency: each configured consumer is consistent and
    /// still accepting frames.
    pub open spec fn wf(self) -> bool {
        &&& (self.spritesheet matches Some(m) ==> (m.wf() && !m.finished && (m.pending()
            || m.current_image == 0)))
        &&& (self.timelens matches Some(m) ==> m.wf())
    }

    /// The spritesheet consumer exists and its sampler accepts a frame at
    /// `t`.
    pub open spec fn sprite_accepts(self, t: MediaTime) -> bool {
        self.spritesheet matches Some(m) && (m.current_image == 0 || t.millis
            - m.last_timestamp.millis > m.frame_interval.millis)
    }

    /// The timelens consumer exists and its sampler accepts a frame at
    /// `t`.
    pub open spec fn timelens_accepts(self, t: MediaTime) -> bool {
        self.timelens matches Some(m) && (m.current_image == 0 || t.millis
            - m.last_timestamp.millis > m.frame_interval.millis)
    }

    /// A run with the requested outputs.  `duration` is the stream's
    /// total duration, which fixes the timelens strip width.
    pub fn new(
        sprite_options: Option<SpritesheetOptions>,
        timelens_options: Option<TimelensOptions>,
        duration: MediaTime,
        name: &str,
    ) -> (r: PreviewExtractor)
        requires
            sprite_options matches Some(o) ==> (o.columns >= 1 && o.rows >= 1),
            timelens_options matches Some(o) ==> {
                &&& o.width >= 1
                &&& o.height >= 1
                &&& o.frame_interval.millis >= 1
                &&& duration.millis >= 0
                &&& spec_strip_width(duration.millis as int, o.frame_interval.millis as int)
                    <= u32::MAX as int
                &&& 3 * spec_strip_width(duration.millis as int, o.frame_interval.millis as int) * (
                o.height as int) <= usize::MAX as int
            },
        ensures
            r.wf(),
            r.spritesheet is Some <==> sprite_options is Some,
            r.timelens is Some <==> timelens_options is Some,
            r.spritesheet matches Some(m) ==> {
                &&& m.num_horizontal == sprite_options->Some_0.columns
                &&& m.num_vertical == sprite_options->Some_0.rows
                &&& m.max_side == sprite_options->Some_0.max_size
                &&& m.frame_interval == sprite_options->Some_0.frame_interval
                &&& m.format == sprite_options->Some_0.format
                &&& m.name@ == name@
                &&& m.current_image == 0
                &&& !m.initialized
            },
            r.timelens matches Some(m) ==> {
                &&& m.width == timelens_options->Some_0.width
                &&& m.height == timelens_options->Some_0.height
                &&& m.frame_interval == timelens_options->Some_0.frame_interval
                &&& m.format == timelens_options->Some_0.format
                &&& m.name@ == name@
                &&& m.current_image == 0
                &&& m.spritesheet.width as int == spec_strip_width(
                    duration.millis as int,
                    timelens_options->Some_0.frame_interval.millis as int,
                )
            },
    {
        let spritesheet = match sprite_options {
            Some(o) => Some(SpritesheetManager::new(o, name)),
            None => None,
        };
        let timelens = match timelens_options {
            Some(o) => Some(TimelensManager::new(o, duration, name)),
            None => None,
        };
        PreviewExtractor { spritesheet, timelens }
    }

    /// The skip decision of the decode loop: a packet's frames are worth
    /// decoding only when at least one consumer's sampler would accept a
    /// frame at this timestamp.
    pub fn wants_frame(&self, timestamp: MediaTime) -> (r: bool)
        ensures
            r == (self.sprite_accepts(timestamp) || self.timelens_accepts(timestamp)),
    {
        let mut wanted = false;
        match &self.spritesheet {
            Some(m) => {
                if m.fulfils_frame_interval(timestamp) {
                    wanted = true;
                }
            },
            None => {},
        }
        match &self.timelens {
            Some(m) => {
                if m.fulfils_frame_interval(timestamp) {
                    wanted = true;
                }
            },
            None => {},
        }
        wanted
    }

    /// Whether the spritesheet consumer wants a frame at `timestamp`.
    pub fn sprite_wants(&self, timestamp: MediaTime) -> (r: bool)
        ensures
            r == self.sprite_accepts(timestamp),
    {
        match &self.spritesheet {
            Some(m) => m.fulfils_frame_interval(timestamp),
            None => false,
        }
    }

    /// Whether the timelens consumer wants a frame at `timestamp`.
    pub fn timelens_wants(&self, timestamp: MediaTime) -> (r: bool)
        ensures
            r == self.timelens_accepts(timestamp),
    {
        match &self.timelens {
            Some(m) => m.fulfils_frame_interval(timestamp),
            None => false,
        }
    }

    /// Fixes the spritesheet tile size from the native frame size the
    /// first time a frame is decoded; later calls change nothing.
    pub fn initialize_spritesheet(&mut self, native_width: u32, native_height: u32)
        requires
            old(self).wf(),
            native_width >= 1,
            native_height >= 1,
            old(self).spritesheet matches Some(m) ==> {
                &&& m.num_horizontal as int * m.max_side as int <= u32::MAX as int
                &&& m.num_vertical as int * m.max_side as int <= u32::MAX as int
                &&& 3 * (m.num_horizontal as int * m.max_side as int) * (m.num_vertical as int
                    * m.max_side as int) <= usize::MAX as int
            },
        ensures
            final(self).wf(),
            final(self).timelens == old(self).timelens,
            old(self).spritesheet is None ==> *final(self) == *old(self),
            final(self).spritesheet is Some <==> old(self).spritesheet is Some,
            final(self).spritesheet matches Some(m) ==> m.initialized,
    {
        match &mut self.spritesheet {
            Some(m) => {
                if !m.initialized() {
                    m.initialize(native_width, native_height);
                }
            },
            None => {},
        }
    }

    /// Marks the timelens consumer's column size as prepared the first
    /// time a frame is decoded.
    pub fn initialize_timelens(&mut self)
        requires
            old(self).wf(),
        ensures
            final(self).wf(),
            final(self).spritesheet == old(self).spritesheet,
            old(self).timelens is None ==> *final(self) == *old(self),
            final(self).timelens is Some <==> old(self).timelens is Some,
            final(self).timelens matches Some(m) ==> m.initialized,
    {
        match &mut self.timelens {
            Some(m) => {
                if !m.initialized() {
                    m.initialize();
                }
            },
            None => {},
        }
    }

    /// Feeds a scaled tile to the spritesheet consumer.  With no
    /// spritesheet configured, nothing happens.
    pub fn feed_spritesheet(&mut self, timestamp: MediaTime, image: &RgbImage) -> (r: Result<
        Option<PageArtifact>,
        SpriteError,
    >)
        requires
            old(self).wf(),
            image.wf(),
            old(self).spritesheet matches Some(m) ==> {
                &&& m.initialized
                &&& timestamp.millis >= m.last_timestamp.millis
                &&& m.current_image < u32::MAX
            },
        ensures
            final(self).wf(),
            final(self).timelens == old(self).timelens,
            old(self).spritesheet is None ==> (*final(self) == *old(self) && r == Ok::<
                Option<PageArtifact>,
                SpriteError,
            >(None)),
            old(self).spritesheet is Some ==> (final(self).spritesheet is Some && spec_add_frame(
                old(self).spritesheet->Some_0,
                final(self).spritesheet->Some_0,
                timestamp,
                *image,
                r,
            )),
    {
        match &mut self.spritesheet {
            Some(m) => m.add_frame(timestamp, image),
            None => Ok(None),
        }
    }

    /// Feeds a scaled column to the timelens consumer.  With no timelens
    /// configured, nothing happens.  Columns beyond the allocated strip
    /// width are dropped.
    pub fn feed_timelens(&mut self, timestamp: MediaTime, image: &RgbImage) -> (r: Result<
        (),
        TimelensError,
    >)
        requires
            old(self).wf(),
            image.wf(),
            old(self).timelens matches Some(m) ==> (m.initialized && timestamp.millis
                >= m.last_timestamp.millis),
        ensures
            final(self).wf(),
            final(self).spritesheet == old(self).spritesheet,
            old(self).timelens is None ==> (*final(self) == *old(self) && r == Ok::<
                (),
                TimelensError,
            >(())),
            old(self).timelens matches Some(m) ==> (final(self).timelens is Some && (
            m.current_image < m.spritesheet.width ==> ((image.width == 1 && image.height == m.height)
                ==> (r == Ok::<(), TimelensError>(()) && final(self).timelens->Some_0.current_image
                == m.current_image + 1)))),
    {
        match &mut self.timelens {
            Some(m) => {
                if m.current_image < m.spritesheet.width {
                    m.add_frame(timestamp, image)
                } else {
                    Ok(())
                }
            },
            None => Ok(()),
        }
    }

    /// Drains the run at end of stream: closes the spritesheet's final
    /// cue with the stream duration and saves it, and saves the timelens
    /// strip.  Each output's artifacts or failure are reported
    /// independently.
    pub fn finish(&mut self, duration: MediaTime) -> (r: FinishArtifacts)
        requires
            old(self).wf(),
            old(self).spritesheet matches Some(m) ==> duration.millis >= m.last_timestamp.millis,
            old(self).timelens matches Some(m) ==> 3 * (m.width as int) * (m.height as int)
                <= usize::MAX as int,
        ensures
            r.spritesheet is Some <==> old(self).spritesheet is Some,
            r.timelens is Some <==> old(self).timelens is Some,
            old(self).spritesheet matches Some(m) ==> {
                &&& final(self).spritesheet matches Some(m2)
                &&& m2.finished
                &&& m2.metadata.cues@.len() == m.current_image
                &&& (r.spritesheet->Some_0.metadata_text@ == crate::webvtt::spec_file_text(
                    m2.metadata.cues@,
                ))
                &&& (r.spritesheet->Some_0.metadata_name@ == m.name@ + ".vtt"@)
                &&& (m.dirty ==> r.spritesheet->Some_0.page is Some)
                &&& (!m.dirty ==> r.spritesheet->Some_0.page is None)
            },
            old(self).timelens matches Some(m) ==> {
                &&& (m.current_image == 0 ==> r.timelens == Some(
                    Err::<StripArtifact, TimelensError>(TimelensError::EmptyStream),
                ))
                &&& (m.current_image > 0 ==> (r.timelens->Some_0 matches Ok(a) && a.image.width
                    == m.width && a.image.height == m.height))
            },
    {
        let spritesheet_artifacts = match &mut self.spritesheet {
            Some(m) => {
                m.end_frame(duration);
                Some(m.save())
            },
            None => None,
        };
        let timelens_artifacts = match &self.timelens {
            Some(m) => Some(m.save()),
            None => None,
        };
        FinishArtifacts { spritesheet: spritesheet_artifacts, timelens: timelens_artifacts }
    }
}

} // verus!
