//! The two frame-request schedulers that consume `render_frame`.
//!
//! Preview is request-driven and latest-wins: when a newer request arrives
//! before an in-flight one completes, the in-flight result is discarded and
//! only the most recent request's result is delivered.  Export is strict:
//! frames are requested in increasing order, one at a time, and none may be
//! dropped or duplicated.

use vstd::prelude::*;

use crate::project::Resolution;

verus! {

/// One frame request, as the preview and export paths issue them.
#[derive(Clone, Copy, Debug, PartialEq, Eq, Structural)]
pub struct FrameRequest {
    pub frame_number: u32,
    pub fps: u32,
    pub resolution_base: Resolution,
}

/// The playback time of a frame index at a frame rate, in milliseconds.
pub fn frame_time_ms(frame_number: u32, fps: u32) -> (r: u64)
    requires
        fps > 0,
    ensures
        r == frame_number as int * 1000 / fps as int,
{
    (frame_number as u64 * 1000) / (fps as u64)
}

/// The interactive scheduler: every seek or playback tick submits a request
/// and takes a ticket; a result is delivered only while its ticket is still
/// the latest, so a superseded frame is simply never displayed.
#[derive(Clone, Copy, Debug)]
pub struct PreviewDriver {
    /// The ticket the next submission will take.
    pub next_ticket: u64,
    /// The ticket of the most recent request, if any was submitted.
    pub latest: Option<u64>,
}

impl PreviewDriver {
    /// Every ticket handed out so far is below the next one.
    pub open spec fn wf(&self) -> bool {
        match self.latest {
            Some(t) => t < self.next_ticket,
            None => true,
        }
    }

    pub fn new() -> (r: Self)
        ensures
            r.wf(),
            r.next_ticket == 0,
            r.latest is None,
    {
        PreviewDriver { next_ticket: 0, latest: None }
    }

    /// Submit a frame request; the returned ticket supersedes every earlier
    /// one.
    pub fn submit(&mut self) -> (ticket: u64)
        requires
            old(self).wf(),
            old(self).next_ticket < u64::MAX,
        ensures
            final(self).wf(),
            ticket == old(self).next_ticket,
            final(self).next_ticket == old(self).next_ticket + 1,
            final(self).latest == Some(ticket),
    {
        let ticket = self.next_ticket;
        self.next_ticket = self.next_ticket + 1;
        self.latest = Some(ticket);
        ticket
    }

    /// Whether a completed request's result may be displayed: only the most
    /// recent request wins.
    pub fn should_deliver(&self, ticket: u64) -> (r: bool)
        ensures
            r == (self.latest == Some(ticket)),
    {
        match self.latest {
            Some(t) => t == ticket,
            None => false,
        }
    }
}

/// Once a newer preview request has been submitted, an earlier ticket is
/// never delivered: its result is discarded, leaving no backlog.
pub proof fn lemma_preview_latest_wins(d: PreviewDriver, earlier: u64)
    requires
        d.wf(),
        match d.latest {
            Some(t) => earlier < t,
            None => true,
        },
    ensures
        d.latest != Some(earlier),
{
}

/// The deterministic export scheduler: frame indices come out strictly in
/// order, each exactly once, and the driver must await each frame before
/// requesting the next.
#[derive(Clone)]
pub struct ExportDriver {
    pub total_frames: u64,
    /// The next frame index to request.
    pub next_frame: u64,
    /// Every index issued so far, in issue order.
    pub issued: Ghost<Seq<u64>>,
}

impl ExportDriver {
    /// The issued log is exactly 0, 1, ..., next_frame - 1.
    pub open spec fn wf(&self) -> bool {
        self.next_frame <= self.total_frames && self.issued@ =~= Seq::new(
            self.next_frame as nat,
            |i: int| i as u64,
        )
    }

    pub fn new(total_frames: u64) -> (r: Self)
        ensures
            r.wf(),
            r.total_frames == total_frames,
            r.next_frame == 0,
    {
        let r = ExportDriver { total_frames, next_frame: 0, issued: Ghost(Seq::empty()) };
        proof {
            assert(r.issued@ =~= Seq::new(0, |i: int| i as u64));
        }
        r
    }

    /// Issue the next frame index, or `None` when the export is complete.
    /// No index is ever skipped or repeated.
    pub fn next_request(&mut self) -> (r: Option<u64>)
        requires
            old(self).wf(),
        ensures
            final(self).wf(),
            final(self).total_frames == old(self).total_frames,
            old(self).next_frame < old(self).total_frames ==> r == Some(old(self).next_frame)
                && final(self).next_frame == old(self).next_frame + 1 && final(self).issued@ =~= old(
                self,
            ).issued@.push(old(self).next_frame),
            old(self).next_frame >= old(self).total_frames ==> r is None && final(self).next_frame
                == old(self).next_frame && final(self).issued@ =~= old(self).issued@,
    {
        if self.next_frame < self.total_frames {
            let frame = self.next_frame;
            self.next_frame = self.next_frame + 1;
            proof {
                self.issued@ = self.issued@.push(frame);
                assert(self.issued@ =~= Seq::new(self.next_frame as nat, |i: int| i as u64));
            }
            Some(frame)
        } else {
            None
        }
    }
}

/// What the preview path shows when a frame's data is or is not at hand.
#[derive(Clone, Copy, Debug, PartialEq, Eq, Structural)]
pub enum PreviewFrameSource {
    /// The decoded frame itself.
    Decoded,
    /// The last successfully shown frame, reused.
    LastGood,
    /// A placeholder frame.
    Placeholder,
}

/// Preview degrades gracefully on a decode stall: it shows the decoded
/// frame when there is one, otherwise reuses the last good frame, otherwise
/// a placeholder; it never stalls.
pub fn preview_frame_source(decoded: bool, has_last_good: bool) -> (r: PreviewFrameSource)
    ensures
        decoded ==> r == PreviewFrameSource::Decoded,
        !decoded && has_last_good ==> r == PreviewFrameSource::LastGood,
        !decoded && !has_last_good ==> r == PreviewFrameSource::Placeholder,
{
    if decoded {
        PreviewFrameSource::Decoded
    } else if has_last_good {
        PreviewFrameSource::LastGood
    } else {
        PreviewFrameSource::Placeholder
    }
}

/// What the export path does with one frame's data.
#[derive(Clone, Copy, Debug, PartialEq, Eq, Structural)]
pub enum ExportFrameVerdict {
    /// Encode this frame and advance.
    Encode,
    /// Abort the export job: a frame can never be silently skipped.
    Abort,
}

/// Export must be complete and deterministic: missing frame data is fatal
/// for the job, never skipped over.
pub fn export_frame_verdict(decoded: bool) -> (r: ExportFrameVerdict)
    ensures
        r == ExportFrameVerdict::Encode <==> decoded,
{
    if decoded {
        ExportFrameVerdict::Encode
    } else {
        ExportFrameVerdict::Abort
    }
}

/// Export issues every frame below `next_frame` exactly once, in strictly
/// increasing order: the log holds index `i` at position `i` and nothing
/// else, so no frame is dropped and none is duplicated.
pub proof fn lemma_export_in_order(d: ExportDriver)
    requires
        d.wf(),
    ensures
        d.issued@.len() == d.next_frame,
        forall|i: int| 0 <= i < d.issued@.len() ==> d.issued@[i] == i,
        forall|i: int, j: int|
            0 <= i < j < d.issued@.len() ==> d.issued@[i] < d.issued@[j],
{
}

} // verus!
