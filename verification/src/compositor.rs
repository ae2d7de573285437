//! Per-frame orchestration: scene-mode gating, fixed layer order, and the
//! `render_frame` entry point that the preview and export drivers share.

use vstd::prelude::*;

use crate::captions::BackgroundQuad;
use crate::captions::CaptionsData;
use crate::captions::CaptionsLayer;
use crate::captions::TextDraw;
use crate::captions::active_caption;
use crate::captions::background_quad_spec;
use crate::captions::draws_spec;
use crate::captions::line_count_spec;
use crate::captions::needs_reshape;
use crate::captions::shaped_for;
use crate::project::Resolution;
use crate::style::resolved_style_spec;
use crate::timeline::SceneMode;
use crate::timeline::TimelineConfiguration;
use crate::timeline::scene_mode_at;

verus! {

/// One visual contributor to the composed frame.
#[derive(Clone, Copy, Debug, PartialEq, Eq, Structural)]
pub enum LayerKind {
    Screen,
    Camera,
    Cursor,
    Captions,
}

/// Whether the screen layer participates: `CameraOnly` suppresses it; no
/// scene segment means the default layout.
pub open spec fn screen_participates(mode: Option<SceneMode>) -> bool {
    mode != Some(SceneMode::CameraOnly)
}

/// Whether the camera layer participates: `HideCamera` suppresses it.
pub open spec fn camera_participates(mode: Option<SceneMode>) -> bool {
    mode != Some(SceneMode::HideCamera)
}

/// The fixed render order of one frame: base video layers first (screen,
/// then camera, as the scene mode admits them), the cursor overlay next,
/// captions always last and on top.
pub open spec fn layer_order_spec(mode: Option<SceneMode>) -> Seq<LayerKind> {
    let base = if screen_participates(mode) {
        seq![LayerKind::Screen]
    } else {
        Seq::empty()
    };
    let with_camera = if camera_participates(mode) {
        base.push(LayerKind::Camera)
    } else {
        base
    };
    with_camera.push(LayerKind::Cursor).push(LayerKind::Captions)
}

/// The timeline-facing slice of a project's configuration that the
/// compositor consumes.
#[derive(Clone, Debug)]
pub struct ProjectConfiguration {
    pub timeline: Option<TimelineConfiguration>,
    pub captions: Option<CaptionsData>,
}

impl ProjectConfiguration {
    /// The scene segments of the timeline; an absent timeline reads as none.
    pub open spec fn scene_view(&self) -> Seq<crate::timeline::SceneSegment> {
        match self.timeline {
            Some(tl) => tl.scene_view(),
            None => Seq::empty(),
        }
    }
}

/// The plan for one composed output frame.
#[derive(Clone, Debug)]
pub struct ComposedFrame {
    /// The scene mode active at the frame's time, if any segment matched.
    pub scene_mode: Option<SceneMode>,
    /// The layers of this frame, in render order.
    pub layers: Vec<LayerKind>,
    /// The caption background quad, drawn before the caption text.
    pub background: Option<BackgroundQuad>,
    /// The caption text draws, outline draws before the primary draw.
    pub caption_draws: Vec<TextDraw>,
}

/// Owns every layer for the lifetime of one render session and holds
/// exclusive mutation rights over their retained state.
#[derive(Clone, Debug)]
pub struct LayerCompositor {
    pub captions: CaptionsLayer,
}

impl LayerCompositor {
    /// A compositor with a fresh, hidden captions layer.
    pub fn new() -> (r: Self)
        ensures
            r.captions.shaped is None,
            r.captions.shape_generation == 0,
            r.captions.current_text is None,
    {
        LayerCompositor { captions: CaptionsLayer::new() }
    }

    /// Compose one frame at `time_ms`: resolve the scene mode, gate the base
    /// layers before any layer-specific work, prepare the captions layer,
    /// and plan the render pass in fixed order.
    pub fn render_frame(
        &mut self,
        config: &ProjectConfiguration,
        time_ms: u64,
        output: Resolution,
    ) -> (r: ComposedFrame)
        ensures
            r.scene_mode == scene_mode_at(config.scene_view(), time_ms),
            r.layers@ =~= layer_order_spec(scene_mode_at(config.scene_view(), time_ms)),
            match active_caption(config.captions, time_ms) {
                None => ({
                    let new = *final(self);
                    let prev = *old(self);
                    &&& r.background is None
                    &&& r.caption_draws@ =~= Seq::<TextDraw>::empty()
                    &&& new.captions.shaped == prev.captions.shaped
                    &&& new.captions.shape_generation == prev.captions.shape_generation
                }),
                Some(sc) => ({
                    let new = *final(self);
                    let prev = *old(self);
                    let seg = sc.0;
                    let st = resolved_style_spec(sc.1);
                    &&& r.background == if st.background_color.a_pct > 1 {
                        Some(background_quad_spec(st, output, line_count_spec(seg.text@)))
                    } else {
                        None::<BackgroundQuad>
                    }
                    &&& r.caption_draws@ =~= draws_spec(st, output)
                    &&& if needs_reshape(prev.captions, seg.text@, st, output) {
                        new.captions.shaped == Some(shaped_for(seg.text, st, output))
                            && new.captions.shape_generation
                            == prev.captions.shape_generation.wrapping_add(1)
                    } else {
                        new.captions.shaped == prev.captions.shaped && new.captions.shape_generation
                            == prev.captions.shape_generation
                    }
                }),
            },
    {
        let scene_mode = match &config.timeline {
            Some(tl) => tl.get_scene_mode_at_time(time_ms),
            None => None,
        };
        let mut layers: Vec<LayerKind> = Vec::new();
        if !matches!(scene_mode, Some(SceneMode::CameraOnly)) {
            layers.push(LayerKind::Screen);
        }
        if !matches!(scene_mode, Some(SceneMode::HideCamera)) {
            layers.push(LayerKind::Camera);
        }
        layers.push(LayerKind::Cursor);
        layers.push(LayerKind::Captions);

        self.captions.prepare(&config.captions, time_ms, output);
        let caption_render = self.captions.render();

        ComposedFrame {
            scene_mode,
            layers,
            background: caption_render.background,
            caption_draws: caption_render.text_draws,
        }
    }
}

/// Captions render last in every frame, whatever the scene mode; the base
/// video layers come first and the cursor sits between them and the
/// captions.
pub proof fn lemma_captions_always_on_top(mode: Option<SceneMode>)
    ensures
        layer_order_spec(mode).last() == LayerKind::Captions,
        layer_order_spec(mode)[layer_order_spec(mode).len() - 2] == LayerKind::Cursor,
{
}

} // verus!
