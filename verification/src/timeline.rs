//! Pure resolution of playback time to active timeline fragments.
//!
//! A timeline holds ordered sequences of half-open segments `[start, end)`.
//! Lookup by time returns the first segment in sequence order whose interval
//! contains the query time; the data model does not enforce non-overlap, so
//! this first-match tie-break is part of the observable contract.

use vstd::prelude::*;

verus! {

/// A half-open time interval `[start_ms, end_ms)` on the project timeline.
///
/// One generic lookup routine serves every segment kind (scene, zoom, clip,
/// caption), so the first-match and half-open rules are stated once.
pub trait TimeInterval {
    /// Start of the interval, in milliseconds (inclusive).
    spec fn start_spec(&self) -> u64;

    /// End of the interval, in milliseconds (exclusive).
    spec fn end_spec(&self) -> u64;

    fn start_ms(&self) -> (r: u64)
        ensures
            r == self.start_spec(),
    ;

    fn end_ms(&self) -> (r: u64)
        ensures
            r == self.end_spec(),
    ;
}

/// Whether `t_ms` lies inside the half-open interval of `seg`.
pub open spec fn interval_contains<T: TimeInterval>(seg: T, t_ms: u64) -> bool {
    seg.start_spec() <= t_ms < seg.end_spec()
}

/// Index of the first segment whose interval contains `t_ms`, if any.
pub open spec fn first_match_index<T: TimeInterval>(segs: Seq<T>, t_ms: u64) -> Option<int>
    decreases segs.len(),
{
    if segs.len() == 0 {
        None
    } else if interval_contains(segs[0], t_ms) {
        Some(0int)
    } else {
        match first_match_index(segs.drop_first(), t_ms) {
            Some(i) => Some(i + 1),
            None => None,
        }
    }
}

/// The first match is a match, every earlier segment is not one, and a miss
/// means no segment at all contains the query time.
pub proof fn lemma_first_match_index<T: TimeInterval>(segs: Seq<T>, t_ms: u64)
    ensures
        match first_match_index(segs, t_ms) {
            Some(i) => 0 <= i < segs.len() && interval_contains(segs[i], t_ms) && (forall|j: int|
                0 <= j < i ==> !interval_contains(segs[j], t_ms)),
            None => forall|j: int| 0 <= j < segs.len() ==> !interval_contains(segs[j], t_ms),
        },
    decreases segs.len(),
{
    if segs.len() > 0 && !interval_contains(segs[0], t_ms) {
        let rest = segs.drop_first();
        lemma_first_match_index(rest, t_ms);
        assert forall|j: int| 1 <= j < segs.len() implies segs[j] == rest[j - 1] by {}
        match first_match_index(rest, t_ms) {
            Some(i) => {
                assert forall|j: int| 0 <= j < i + 1 implies !interval_contains(
                    segs[j],
                    t_ms,
                ) by {
                    if j >= 1 {
                        assert(!interval_contains(rest[j - 1], t_ms));
                    }
                }
            },
            None => {
                assert forall|j: int| 0 <= j < segs.len() implies !interval_contains(
                    segs[j],
                    t_ms,
                ) by {
                    if j >= 1 {
                        assert(!interval_contains(rest[j - 1], t_ms));
                    }
                }
            },
        }
    }
}

/// Generic first-match interval lookup, the exec counterpart of
/// `first_match_index`.
pub fn find_first_match<T: TimeInterval>(segs: &Vec<T>, t_ms: u64) -> (r: Option<usize>)
    ensures
        match r {
            Some(i) => first_match_index(segs@, t_ms) == Some(i as int),
            None => first_match_index(segs@, t_ms) is None,
        },
{
    let mut i: usize = 0;
    proof {
        assert(segs@.skip(0) =~= segs@);
    }
    while i < segs.len()
        invariant
            0 <= i <= segs.len(),
            first_match_index(segs@, t_ms) == match first_match_index(
                segs@.skip(i as int),
                t_ms,
            ) {
                Some(k) => Some(k + i as int),
                None => None::<int>,
            },
        decreases segs.len() - i,
    {
        let seg = &segs[i];
        proof {
            assert(segs@.skip(i as int)[0] == segs@[i as int]);
        }
        if seg.start_ms() <= t_ms && t_ms < seg.end_ms() {
            return Some(i);
        }
        proof {
            assert(segs@.skip(i as int).drop_first() =~= segs@.skip(i as int + 1));
        }
        i = i + 1;
    }
    None
}

/// How the screen and camera layers are composed for a stretch of the
/// timeline.
#[derive(Clone, Copy, Debug, PartialEq, Eq, Structural)]
pub enum SceneMode {
    Default,
    CameraOnly,
    HideCamera,
}

/// A scene segment; `mode == None` is an explicit segment without an
/// override and resolves to `SceneMode::Default` (it does not mean "no
/// segment").
#[derive(Clone, Copy, Debug)]
pub struct SceneSegment {
    pub start_ms: u64,
    pub end_ms: u64,
    pub mode: Option<SceneMode>,
}

impl TimeInterval for SceneSegment {
    open spec fn start_spec(&self) -> u64 {
        self.start_ms
    }

    open spec fn end_spec(&self) -> u64 {
        self.end_ms
    }

    fn start_ms(&self) -> u64 {
        self.start_ms
    }

    fn end_ms(&self) -> u64 {
        self.end_ms
    }
}

/// The mode a scene segment resolves to: an absent override means `Default`.
pub open spec fn resolved_mode(mode: Option<SceneMode>) -> SceneMode {
    match mode {
        Some(m) => m,
        None => SceneMode::Default,
    }
}

/// The scene mode active at `t_ms`: mode of the first containing segment,
/// `None` when no segment contains the time.
pub open spec fn scene_mode_at(segs: Seq<SceneSegment>, t_ms: u64) -> Option<SceneMode> {
    match first_match_index(segs, t_ms) {
        Some(i) => Some(resolved_mode(segs[i].mode)),
        None => None,
    }
}

/// A clip segment: one content cut of the recording.
#[derive(Clone, Copy, Debug)]
pub struct ClipSegment {
    pub start_ms: u64,
    pub end_ms: u64,
}

impl TimeInterval for ClipSegment {
    open spec fn start_spec(&self) -> u64 {
        self.start_ms
    }

    open spec fn end_spec(&self) -> u64 {
        self.end_ms
    }

    fn start_ms(&self) -> u64 {
        self.start_ms
    }

    fn end_ms(&self) -> u64 {
        self.end_ms
    }
}

/// A zoom segment: a time range with a zoom factor in thousandths
/// (1000 = no zoom).
#[derive(Clone, Copy, Debug)]
pub struct ZoomSegment {
    pub start_ms: u64,
    pub end_ms: u64,
    pub amount_milli: u64,
}

impl TimeInterval for ZoomSegment {
    open spec fn start_spec(&self) -> u64 {
        self.start_ms
    }

    open spec fn end_spec(&self) -> u64 {
        self.end_ms
    }

    fn start_ms(&self) -> u64 {
        self.start_ms
    }

    fn end_ms(&self) -> u64 {
        self.end_ms
    }
}

/// The declarative description of a project's timeline.
#[derive(Clone, Debug)]
pub struct TimelineConfiguration {
    /// Clip segments in playback order.
    pub segments: Vec<ClipSegment>,
    /// Zoom ranges in playback order.
    pub zoom_segments: Vec<ZoomSegment>,
    /// Scene segments; `None` and an empty list both mean no scene override
    /// anywhere.
    pub scene_segments: Option<Vec<SceneSegment>>,
}

impl TimelineConfiguration {
    /// The scene segments as a sequence; an absent list reads as empty.
    pub open spec fn scene_view(&self) -> Seq<SceneSegment> {
        match self.scene_segments {
            Some(v) => v@,
            None => Seq::empty(),
        }
    }

    /// The scene mode active at `time_ms`, or `None` when no scene segment
    /// contains the time (absent and empty segment lists included).
    pub fn get_scene_mode_at_time(&self, time_ms: u64) -> (r: Option<SceneMode>)
        ensures
            r == scene_mode_at(self.scene_view(), time_ms),
    {
        match &self.scene_segments {
            None => None,
            Some(segs) => match find_first_match(segs, time_ms) {
                Some(i) => {
                    proof {
                        lemma_first_match_index(segs@, time_ms);
                    }
                    match segs[i].mode {
                        Some(m) => Some(m),
                        None => Some(SceneMode::Default),
                    }
                },
                None => None,
            },
        }
    }

    /// The zoom factor (thousandths) active at `time_ms`, first match wins.
    pub fn get_zoom_at_time(&self, time_ms: u64) -> (r: Option<u64>)
        ensures
            r == match first_match_index(self.zoom_segments@, time_ms) {
                Some(i) => Some(self.zoom_segments@[i].amount_milli),
                None => None::<u64>,
            },
    {
        match find_first_match(&self.zoom_segments, time_ms) {
            Some(i) => {
                proof {
                    lemma_first_match_index(self.zoom_segments@, time_ms);
                }
                Some(self.zoom_segments[i].amount_milli)
            },
            None => None,
        }
    }

    /// The index of the clip segment active at `time_ms`, first match wins.
    pub fn get_clip_at_time(&self, time_ms: u64) -> (r: Option<usize>)
        ensures
            r matches Some(i) ==> first_match_index(self.segments@, time_ms) == Some(i as int),
            r is None ==> first_match_index(self.segments@, time_ms) is None,
    {
        find_first_match(&self.segments, time_ms)
    }
}

/// Outside every scene segment's interval the resolved mode is `None`; in
/// particular a query at a segment's `end` does not match that segment.
pub proof fn lemma_scene_mode_outside_is_none(segs: Seq<SceneSegment>, t_ms: u64)
    requires
        forall|j: int| 0 <= j < segs.len() ==> !interval_contains(#[trigger] segs[j], t_ms),
    ensures
        scene_mode_at(segs, t_ms) is None,
{
    lemma_first_match_index(segs, t_ms);
}

/// A matching segment whose `mode` is `None` resolves to `Some(Default)`,
/// never to `None`.
pub proof fn lemma_mode_none_resolves_default(segs: Seq<SceneSegment>, t_ms: u64, i: int)
    requires
        first_match_index(segs, t_ms) == Some(i),
        0 <= i < segs.len(),
        segs[i].mode is None,
    ensures
        scene_mode_at(segs, t_ms) == Some(SceneMode::Default),
{
}

/// With no scene segments at all, every query resolves to `None`.
pub proof fn lemma_empty_scene_segments_none(t_ms: u64)
    ensures
        scene_mode_at(Seq::empty(), t_ms) is None,
{
}

} // verus!
