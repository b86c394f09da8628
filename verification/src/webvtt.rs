//! WebVTT cue lists and their serialization to text.

use vstd::prelude::*;
use vstd::string::{StrSliceExecFns, StringExecFns};

use crate::media_time::{spec_time_text, MediaTime};

verus! {

/// Error raised when a cue file cannot be written to storage.  The write
/// itself happens outside the library; this value reports its failure.
#[derive(Clone, Copy, Debug, PartialEq, Eq, Structural)]
pub enum WebVTTError {
    IoError,
}

/// One half-open time range mapped to a text payload.
pub struct WebVTTCue {
    pub start: MediaTime,
    pub end: MediaTime,
    pub payload: String,
}

/// A cue whose times can be rendered (non-negative).
pub open spec fn cue_wf(c: WebVTTCue) -> bool {
    c.start.millis >= 0 && c.end.millis >= 0
}

/// The two-line rendering of one cue, followed by a blank line.
pub open spec fn spec_cue_text(c: WebVTTCue) -> Seq<char> {
    spec_time_text(c.start.millis as nat) + " --> "@ + spec_time_text(c.end.millis as nat) + "\n"@
        + c.payload@ + "\n\n"@
}

/// The concatenated rendering of a cue list, in order.
pub open spec fn spec_cues_text(cs: Seq<WebVTTCue>) -> Seq<char>
    decreases cs.len(),
{
    if cs.len() == 0 {
        Seq::<char>::empty()
    } else {
        spec_cues_text(cs.drop_last()) + spec_cue_text(cs.last())
    }
}

/// The full text of a cue file: header, blank line, then every cue.
pub open spec fn spec_file_text(cs: Seq<WebVTTCue>) -> Seq<char> {
    "WEBVTT\n\n"@ + spec_cues_text(cs)
}

impl WebVTTCue {
    /// A cue spanning `[start, end)` carrying `payload`.
    pub fn new(start: MediaTime, end: MediaTime, payload: String) -> (r: WebVTTCue)
        requires
            start.millis >= 0,
            end.millis >= 0,
        ensures
            r.start == start,
            r.end == end,
            r.payload == payload,
            cue_wf(r),
    {
        WebVTTCue { start, end, payload }
    }
}

/// An append-only, temporally ordered list of cues.
pub struct WebVTTFile {
    pub cues: Vec<WebVTTCue>,
}

impl WebVTTFile {
    /// An empty cue list.
    pub fn new() -> (r: WebVTTFile)
        ensures
            r.cues@ =~= Seq::<WebVTTCue>::empty(),
    {
        WebVTTFile { cues: Vec::new() }
    }

    /// Appends one cue at the end of the list.
    pub fn add(&mut self, cue: WebVTTCue)
        ensures
            final(self).cues@ == old(self).cues@.push(cue),
    {
        self.cues.push(cue);
    }

    /// Number of cues held.
    pub fn len(&self) -> (r: usize)
        ensures
            r == self.cues@.len(),
    {
        self.cues.len()
    }

    /// Renders the whole file: the `WEBVTT` header, a blank line, and each
    /// cue as `<start> --> <end>`, its payload, and a blank line.
    pub fn render(&self) -> (r: String)
        requires
            forall|i: int| 0 <= i < self.cues@.len() ==> cue_wf(#[trigger] self.cues@[i]),
        ensures
            r@ == spec_file_text(self.cues@),
    {
        let mut out: String = String::from_str("WEBVTT\n\n");
        let mut i: usize = 0;
        while i < self.cues.len()
            invariant
                0 <= i <= self.cues@.len(),
                forall|j: int| 0 <= j < self.cues@.len() ==> cue_wf(#[trigger] self.cues@[j]),
                out@ == "WEBVTT\n\n"@ + spec_cues_text(self.cues@.take(i as int)),
            decreases self.cues@.len() - i,
        {
            push_cue(&mut out, &self.cues[i]);
            proof {
                assert(self.cues@.take(i as int + 1).drop_last() =~= self.cues@.take(i as int));
                assert(self.cues@.take(i as int + 1).last() == self.cues@[i as int]);
                assert(out@ =~= "WEBVTT\n\n"@ + spec_cues_text(self.cues@.take(i as int + 1)));
            }
            i = i + 1;
        }
        proof {
            assert(self.cues@.take(self.cues@.len() as int) =~= self.cues@);
        }
        out
    }
}

/// Appends the rendering of one cue to `s`.
fn push_cue(s: &mut String, c: &WebVTTCue)
    requires
        cue_wf(*c),
    ensures
        final(s)@ == old(s)@ + spec_cue_text(*c),
{
    let start_text = c.start.to_display();
    s.append(start_text.as_str());
    s.append(" --> ");
    let end_text = c.end.to_display();
    s.append(end_text.as_str());
    s.append("\n");
    s.append(c.payload.as_str());
    s.append("\n\n");
    proof {
        assert(s@ =~= old(s)@ + spec_cue_text(*c));
    }
}

/// A rendered cue file always begins with the `WEBVTT` header line and a
/// blank line, and with no cues at all it is exactly that header.
pub proof fn lemma_render_header(cs: Seq<WebVTTCue>)
    ensures
        spec_file_text(cs).len() >= 8,
        spec_file_text(cs).subrange(0, 8) == "WEBVTT\n\n"@,
        cs.len() == 0 ==> spec_file_text(cs) == "WEBVTT\n\n"@,
{
    reveal_strlit("WEBVTT\n\n");
    assert(spec_file_text(cs).subrange(0, 8) =~= "WEBVTT\n\n"@);
    if cs.len() == 0 {
        assert(spec_file_text(cs) =~= "WEBVTT\n\n"@);
    }
}

} // verus!
