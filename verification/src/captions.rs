//! The captions layer: per-frame planning of caption text draws, outline
//! synthesis and background quad placement, with retained state across
//! frames so that an unchanged caption is not reshaped again.
//!
//! The layer is the model of the GPU-resident state: the shaped-text buffer
//! is described by the parameters that shaped it (text, font size, wrap
//! width, style fingerprint), the background vertex buffer by its four
//! vertices in pixel coordinates.  A rendering context executes the plan
//! that `prepare` and `render` produce.

use vstd::prelude::*;

use crate::project::Resolution;
use crate::style::CaptionSettings;
use crate::style::ProjectCaptionSettings;
use crate::style::Rgba;
use crate::style::default_caption_settings;
use crate::style::resolve_caption_style;
use crate::style::resolved_style_spec;
use crate::style::scaled_font_size;
use crate::style::scaled_font_size_spec;
use crate::timeline::TimeInterval;
use crate::timeline::find_first_match;
use crate::timeline::first_match_index;
use crate::timeline::lemma_first_match_index;

verus! {

/// A caption segment with timing and text; the interval is half-open and
/// `id` plays no role in lookup.
#[derive(Clone, Debug)]
pub struct CaptionSegment {
    pub id: String,
    pub start_ms: u64,
    pub end_ms: u64,
    pub text: String,
}

impl TimeInterval for CaptionSegment {
    open spec fn start_spec(&self) -> u64 {
        self.start_ms
    }

    open spec fn end_spec(&self) -> u64 {
        self.end_ms
    }

    fn start_ms(&self) -> u64 {
        self.start_ms
    }

    fn end_ms(&self) -> u64 {
        self.end_ms
    }
}

/// A caption segment as a project stores it.
#[derive(Clone, Debug)]
pub struct ProjectCaptionSegment {
    pub id: String,
    pub start_ms: u64,
    pub end_ms: u64,
    pub text: String,
}

impl TimeInterval for ProjectCaptionSegment {
    open spec fn start_spec(&self) -> u64 {
        self.start_ms
    }

    open spec fn end_spec(&self) -> u64 {
        self.end_ms
    }

    fn start_ms(&self) -> u64 {
        self.start_ms
    }

    fn end_ms(&self) -> u64 {
        self.end_ms
    }
}

/// A project's caption track: segments plus the user style settings.
#[derive(Clone, Debug)]
pub struct CaptionsData {
    pub segments: Vec<ProjectCaptionSegment>,
    pub settings: ProjectCaptionSettings,
}

/// The caption segment a project segment converts to.
pub open spec fn converted_caption(seg: ProjectCaptionSegment) -> CaptionSegment {
    CaptionSegment { id: seg.id, start_ms: seg.start_ms, end_ms: seg.end_ms, text: seg.text }
}

/// Convert a project caption segment into the layer's own segment type.
pub fn convert_project_caption(segment: &ProjectCaptionSegment) -> (r: CaptionSegment)
    ensures
        r == converted_caption(*segment),
{
    CaptionSegment {
        id: segment.id.clone(),
        start_ms: segment.start_ms,
        end_ms: segment.end_ms,
        text: segment.text.clone(),
    }
}

/// The first caption segment containing `time_ms`, if any.
pub fn find_caption_at_time<'a>(time_ms: u64, segments: &'a Vec<CaptionSegment>) -> (r: Option<
    &'a CaptionSegment,
>)
    ensures
        match (r, first_match_index(segments@, time_ms)) {
            (Some(seg), Some(i)) => *seg == segments@[i],
            (None, None) => true,
            _ => false,
        },
{
    match find_first_match(segments, time_ms) {
        Some(i) => {
            proof {
                lemma_first_match_index(segments@, time_ms);
            }
            Some(&segments[i])
        },
        None => None,
    }
}

/// The first project caption segment containing `time_ms`, converted into
/// the layer's own segment type.
pub fn find_caption_at_time_project(time_ms: u64, segments: &Vec<ProjectCaptionSegment>) -> (r:
    Option<CaptionSegment>)
    ensures
        r == match first_match_index(segments@, time_ms) {
            Some(i) => Some(converted_caption(segments@[i])),
            None => None::<CaptionSegment>,
        },
{
    match find_first_match(segments, time_ms) {
        Some(i) => {
            proof {
                lemma_first_match_index(segments@, time_ms);
            }
            Some(convert_project_caption(&segments[i]))
        },
        None => None,
    }
}

/// The caption that is active at `t_ms`: `None` when captions are absent or
/// disabled or no segment contains the time; otherwise the first matching
/// segment together with the user settings.  Disabling hides captions even
/// where a segment would match.
pub open spec fn active_caption(c: Option<CaptionsData>, t_ms: u64) -> Option<
    (ProjectCaptionSegment, ProjectCaptionSettings),
> {
    match c {
        None => None,
        Some(d) => if !d.settings.enabled {
            None
        } else {
            match first_match_index(d.segments@, t_ms) {
                Some(i) => Some((d.segments@[i], d.settings)),
                None => None,
            }
        },
    }
}

/// One planned draw of the shaped caption text at an offset, in the outline
/// color (underneath) or the primary color (on top).
#[derive(Clone, Copy, Debug, PartialEq, Eq, Structural)]
pub struct TextDraw {
    pub left: i64,
    pub top: i64,
    pub color: Rgba,
    pub is_outline: bool,
}

/// The rendering area of the caption text, in pixels.
#[derive(Clone, Copy, Debug, PartialEq, Eq, Structural)]
pub struct TextBounds {
    pub left: i64,
    pub top: i64,
    pub right: i64,
    pub bottom: i64,
}

/// One corner of the background quad.  Coordinates are wide because the
/// padded background height scales with the caption's line count.
#[derive(Clone, Copy, Debug, PartialEq, Eq, Structural)]
pub struct QuadVertex {
    pub x: i128,
    pub y: i128,
    pub color: Rgba,
}

/// The four corners of the background quad, each carrying the background
/// color, in the order they are uploaded.
#[derive(Clone, Copy, Debug, PartialEq, Eq, Structural)]
pub struct BackgroundQuad {
    pub top_left: QuadVertex,
    pub top_right: QuadVertex,
    pub bottom_right: QuadVertex,
    pub bottom_left: QuadVertex,
}

/// The parameters the retained text buffer was shaped with; a new frame
/// whose parameters all match needs no reshape.
#[derive(Clone, Debug)]
pub struct ShapedText {
    pub text: String,
    /// Font size in output pixels.
    pub font_size: u64,
    /// Wrap width in output pixels.
    pub wrap_width: u64,
    pub bold: u32,
    pub italic: u32,
    pub font: u32,
}

/// Vertical position of the caption baseline: top anchors at 10% of frame
/// height, middle at 50%, bottom (the default) at 85%.
pub open spec fn y_position_spec(position: u32, height: u32) -> int {
    if position == 0 {
        height as int / 10
    } else if position == 1 {
        height as int / 2
    } else {
        (height as int * 85) / 100
    }
}

/// Captions wrap within 90% of the frame width.
pub open spec fn wrap_width_spec(width: u32) -> u64 {
    ((width as int * 9) / 10) as u64
}

/// The caption text's rendering area: horizontally centered at the wrap
/// width, anchored vertically by the position code, four line heights tall.
pub open spec fn text_bounds_spec(st: CaptionSettings, out: Resolution) -> TextBounds {
    let fs = scaled_font_size_spec(st.font_size, out.height) as int;
    let tw = wrap_width_spec(out.width) as int;
    let y = y_position_spec(st.position, out.height);
    TextBounds {
        left: ((out.width as int - tw) / 2) as i64,
        top: y as i64,
        right: ((out.width as int + tw) / 2) as i64,
        bottom: (y + fs * 4) as i64,
    }
}

/// Number of newline characters in `s`.
pub open spec fn newline_count(s: Seq<char>) -> int
    decreases s.len(),
{
    if s.len() == 0 {
        0
    } else {
        newline_count(s.drop_last()) + if s.last() == '\n' {
            1int
        } else {
            0int
        }
    }
}

/// Number of lines of `s`: zero for the empty string, otherwise one more
/// than the newlines before the last character (so a trailing newline does
/// not open a new line).
pub open spec fn line_count_spec(s: Seq<char>) -> int {
    if s.len() == 0 {
        0
    } else {
        1 + newline_count(s.take(s.len() - 1))
    }
}

/// Count the lines of a caption text.
pub fn line_count(text: &str) -> (r: usize)
    ensures
        r as int == line_count_spec(text@),
{
    let n = text.unicode_len();
    if n == 0 {
        return 0;
    }
    let mut count: usize = 1;
    let mut i: usize = 0;
    while i < n - 1
        invariant
            n == text@.len(),
            1 <= n,
            0 <= i <= n - 1,
            1 <= count <= i + 1,
            count as int == 1 + newline_count(text@.take(i as int)),
        decreases n - 1 - i,
    {
        let c = text.get_char(i);
        proof {
            assert(text@.take(i as int + 1).drop_last() =~= text@.take(i as int));
            assert(text@.take(i as int + 1).last() == text@[i as int]);
        }
        if c == '\n' {
            count = count + 1;
        }
        i = i + 1;
    }
    proof {
        assert(text@.take(n as int - 1) == text@.take(n - 1 as int));
    }
    count
}

/// The padded background quad for a caption of `lines` lines: the text
/// bounds padded by half a line height on the sides, a quarter above, and
/// sized below for the line count at 1.5x line spacing.
pub open spec fn background_quad_spec(st: CaptionSettings, out: Resolution, lines: int)
    -> BackgroundQuad {
    let fs = scaled_font_size_spec(st.font_size, out.height) as int;
    let b = text_bounds_spec(st, out);
    let y = y_position_spec(st.position, out.height);
    let pad = fs / 2;
    let half_pad = pad / 2;
    let text_h = (fs * lines * 3) / 2;
    let left = b.left as int - pad;
    let right = b.right as int + pad;
    let top = y - half_pad;
    let bottom = y + text_h + half_pad;
    BackgroundQuad {
        top_left: (QuadVertex { x: left as i128, y: top as i128, color: st.background_color }),
        top_right: (QuadVertex { x: right as i128, y: top as i128, color: st.background_color }),
        bottom_right: (QuadVertex {
            x: right as i128,
            y: bottom as i128,
            color: st.background_color,
        }),
        bottom_left: (QuadVertex {
            x: left as i128,
            y: bottom as i128,
            color: st.background_color,
        }),
    }
}

/// A text draw at pixel position `(left, top)`.
pub open spec fn td(left: int, top: int, color: Rgba, is_outline: bool) -> TextDraw {
    TextDraw { left: left as i64, top: top as i64, color: color, is_outline: is_outline }
}

/// The eight outline draws: one-pixel offsets in the eight compass
/// directions, in the outline color, submitted before the primary draw so
/// the outline renders underneath.
pub open spec fn outline_draws_spec(left: int, y: int, oc: Rgba) -> Seq<TextDraw> {
    seq![
        td(left - 1, y - 1, oc, true),
        td(left, y - 1, oc, true),
        td(left + 1, y - 1, oc, true),
        td(left - 1, y, oc, true),
        td(left + 1, y, oc, true),
        td(left - 1, y + 1, oc, true),
        td(left, y + 1, oc, true),
        td(left + 1, y + 1, oc, true),
    ]
}

/// The draws submitted for one frame: eight outline draws then the primary
/// draw when the outline is enabled, the primary draw alone when not.
pub open spec fn draws_spec(st: CaptionSettings, out: Resolution) -> Seq<TextDraw> {
    let b = text_bounds_spec(st, out);
    let y = y_position_spec(st.position, out.height);
    let primary = td(b.left as int, y, st.color, false);
    if st.outline == 1 {
        outline_draws_spec(b.left as int, y, st.outline_color).push(primary)
    } else {
        seq![primary]
    }
}

/// The shaped-text buffer that one frame requires.
pub open spec fn shaped_for(text: String, st: CaptionSettings, out: Resolution) -> ShapedText {
    ShapedText {
        text: text,
        font_size: scaled_font_size_spec(st.font_size, out.height),
        wrap_width: wrap_width_spec(out.width),
        bold: st.bold,
        italic: st.italic,
        font: st.font,
    }
}

/// Whether the retained buffer can serve a frame with this text, style and
/// output size, with no reshape.
pub open spec fn shaped_params_match(
    sh: ShapedText,
    text: Seq<char>,
    st: CaptionSettings,
    out: Resolution,
) -> bool {
    sh.text@ == text && sh.font_size == scaled_font_size_spec(st.font_size, out.height)
        && sh.wrap_width == wrap_width_spec(out.width) && sh.bold == st.bold && sh.italic
        == st.italic && sh.font == st.font
}

/// Whether a frame with this text, style and output size forces a rebuild
/// of the retained shaped-text buffer.
pub open spec fn needs_reshape(
    layer: CaptionsLayer,
    text: Seq<char>,
    st: CaptionSettings,
    out: Resolution,
) -> bool {
    match layer.shaped {
        Some(sh) => !shaped_params_match(sh, text, st, out),
        None => true,
    }
}

/// The captions layer's retained state: created once per rendering context,
/// mutated once per frame through `prepare`, consumed by `render`.
#[derive(Clone, Debug)]
pub struct CaptionsLayer {
    /// Model of the settings uniform buffer; written by `update_settings`.
    pub settings: CaptionSettings,
    /// The caption text currently displayed, `None` when hidden.
    pub current_text: Option<String>,
    pub current_segment_time_ms: u64,
    /// Style fingerprint of the retained buffer.
    pub current_bold: u32,
    pub current_italic: u32,
    pub current_font: u32,
    /// The retained shaped-text buffer, described by its shaping parameters.
    pub shaped: Option<ShapedText>,
    /// Bumped exactly when the shaped buffer is rebuilt, so a caller can
    /// observe that repeated identical frames reuse the buffer.
    pub shape_generation: u64,
    /// The viewport the last active frame was prepared for.
    pub viewport: Resolution,
    /// Model of the background vertex buffer; its content persists across
    /// frames and is overwritten when a visible background is computed.
    pub background_vertices: BackgroundQuad,
    /// Set when this frame has a visible background; cleared otherwise.
    pub current_background_bounds: Option<TextBounds>,
    pub current_background_color: Rgba,
    /// The text draws submitted for this frame, outline draws first.
    pub draws: Vec<TextDraw>,
}

/// What one frame's `render` hands to the render pass: the background quad
/// first (when one was computed), then the text draws.
#[derive(Clone, Debug)]
pub struct CaptionRender {
    pub background: Option<BackgroundQuad>,
    pub text_draws: Vec<TextDraw>,
}

/// The quad the vertex buffer holds before any frame wrote it: a unit quad
/// in the default 80% black.
pub open spec fn initial_quad() -> BackgroundQuad {
    let c = Rgba { r: 0, g: 0, b: 0, a_pct: 80 };
    BackgroundQuad {
        top_left: (QuadVertex { x: 0, y: 0, color: c }),
        top_right: (QuadVertex { x: 1, y: 0, color: c }),
        bottom_right: (QuadVertex { x: 1, y: 1, color: c }),
        bottom_left: (QuadVertex { x: 0, y: 1, color: c }),
    }
}

impl CaptionsLayer {
    /// A fresh layer in the hidden state, with default settings and the
    /// default style fingerprint.
    pub fn new() -> (r: Self)
        ensures
            r.settings == default_caption_settings(),
            r.current_text is None,
            r.current_segment_time_ms == 0,
            r.current_bold == 1,
            r.current_italic == 0,
            r.current_font == 0,
            r.shaped is None,
            r.shape_generation == 0,
            r.viewport == (Resolution { width: 0, height: 0 }),
            r.background_vertices == initial_quad(),
            r.current_background_bounds is None,
            r.current_background_color == (Rgba { r: 0, g: 0, b: 0, a_pct: 0 }),
            r.draws@ == Seq::<TextDraw>::empty(),
    {
        CaptionsLayer {
            settings: CaptionSettings::default(),
            current_text: None,
            current_segment_time_ms: 0,
            current_bold: 1,
            current_italic: 0,
            current_font: 0,
            shaped: None,
            shape_generation: 0,
            viewport: Resolution { width: 0, height: 0 },
            background_vertices: BackgroundQuad {
                top_left: QuadVertex { x: 0, y: 0, color: Rgba { r: 0, g: 0, b: 0, a_pct: 80 } },
                top_right: QuadVertex { x: 1, y: 0, color: Rgba { r: 0, g: 0, b: 0, a_pct: 80 } },
                bottom_right: QuadVertex {
                    x: 1,
                    y: 1,
                    color: Rgba { r: 0, g: 0, b: 0, a_pct: 80 },
                },
                bottom_left: QuadVertex { x: 0, y: 1, color: Rgba { r: 0, g: 0, b: 0, a_pct: 80 } },
            },
            current_background_bounds: None,
            current_background_color: Rgba { r: 0, g: 0, b: 0, a_pct: 0 },
            draws: Vec::new(),
        }
    }

    /// Overwrite the settings buffer.
    pub fn update_settings(&mut self, settings: CaptionSettings)
        ensures
            *final(self) == (CaptionsLayer { settings, ..*old(self) }),
    {
        self.settings = settings;
    }

    /// Record the caption text and time for this frame; the shaped buffer is
    /// only rebuilt by `prepare`, which applies styling.
    pub fn update_caption(&mut self, text: Option<String>, time_ms: u64)
        ensures
            *final(self) == (CaptionsLayer {
                current_text: text,
                current_segment_time_ms: time_ms,
                ..*old(self)
            }),
    {
        self.current_text = text;
        self.current_segment_time_ms = time_ms;
    }

    /// Prepare one frame at `segment_time_ms`.
    ///
    /// When captions are disabled, absent, or no segment contains the time,
    /// the layer renders nothing this frame: text, background and draws are
    /// cleared, while the retained buffers persist unused.  Otherwise the
    /// style is resolved, the shaped buffer is rebuilt exactly when the
    /// text, style fingerprint, font size or wrap width changed, the
    /// background quad is computed exactly when the resolved background
    /// alpha exceeds one hundredth, and the frame's draws are submitted:
    /// eight outline offsets before the primary draw when the outline is
    /// enabled, the primary draw alone when not.
    pub fn prepare(
        &mut self,
        captions: &Option<CaptionsData>,
        segment_time_ms: u64,
        output: Resolution,
    )
        ensures
            final(self).settings == old(self).settings,
            match active_caption(*captions, segment_time_ms) {
                None => ({
                    let new = *final(self);
                    let prev = *old(self);
                    &&& new.current_text is None
                    &&& new.current_background_bounds is None
                    &&& new.draws@ =~= Seq::<TextDraw>::empty()
                    &&& new.shaped == prev.shaped
                    &&& new.shape_generation == prev.shape_generation
                    &&& new.background_vertices == prev.background_vertices
                    &&& new.current_background_color == prev.current_background_color
                    &&& new.viewport == prev.viewport
                    &&& new.current_segment_time_ms == prev.current_segment_time_ms
                    &&& new.current_bold == prev.current_bold
                    &&& new.current_italic == prev.current_italic
                    &&& new.current_font == prev.current_font
                }),
                Some(sc) => ({
                    let new = *final(self);
                    let prev = *old(self);
                    let seg = sc.0;
                    let st = resolved_style_spec(sc.1);
                    &&& new.current_text == Some(seg.text)
                    &&& new.current_segment_time_ms == segment_time_ms
                    &&& new.current_bold == st.bold
                    &&& new.current_italic == st.italic
                    &&& new.current_font == st.font
                    &&& new.viewport == output
                    &&& if needs_reshape(prev, seg.text@, st, output) {
                        new.shaped == Some(shaped_for(seg.text, st, output))
                            && new.shape_generation == prev.shape_generation.wrapping_add(1)
                    } else {
                        new.shaped == prev.shaped && new.shape_generation == prev.shape_generation
                    }
                    &&& if st.background_color.a_pct > 1 {
                        new.current_background_bounds == Some(text_bounds_spec(st, output))
                            && new.background_vertices == background_quad_spec(
                            st,
                            output,
                            line_count_spec(seg.text@),
                        ) && new.current_background_color == st.background_color
                    } else {
                        new.current_background_bounds is None && new.background_vertices
                            == prev.background_vertices && new.current_background_color
                            == prev.current_background_color
                    }
                    &&& new.draws@ =~= draws_spec(st, output)
                }),
            },
    {
        let data = match captions {
            Some(d) => d,
            None => {
                self.clear_frame();
                return ;
            },
        };
        if !data.settings.enabled {
            self.clear_frame();
            return ;
        }
        let idx = match find_first_match(&data.segments, segment_time_ms) {
            Some(i) => i,
            None => {
                self.clear_frame();
                return ;
            },
        };
        proof {
            lemma_first_match_index(data.segments@, segment_time_ms);
        }
        let seg = &data.segments[idx];
        let st = resolve_caption_style(&data.settings);
        let text = seg.text.clone();
        let lines = line_count(text.as_str());

        let fs: u64 = scaled_font_size(st.font_size, output.height);
        let wrap: u64 = (output.width as u64 * 9) / 10;
        proof {
            assert(st.font_size as int * output.height as int <= 0xFFFF_FFFF * 0xFFFF_FFFF)
                by (nonlinear_arith)
                requires
                    st.font_size <= 0xFFFF_FFFF,
                    output.height <= 0xFFFF_FFFF,
            ;
            assert(fs <= 0xFFFF_FFFF * 0xFFFF_FFFF / 1080);
        }

        // Rebuild the shaped buffer only when the text, style fingerprint or
        // metrics changed; otherwise the retained buffer serves this frame.
        let reshape: bool = match &self.shaped {
            None => true,
            Some(sh) => !(sh.text == text && sh.font_size == fs && sh.wrap_width == wrap && sh.bold
                == st.bold && sh.italic == st.italic && sh.font == st.font),
        };
        if reshape {
            self.shaped = Some(
                ShapedText {
                    text: text.clone(),
                    font_size: fs,
                    wrap_width: wrap,
                    bold: st.bold,
                    italic: st.italic,
                    font: st.font,
                },
            );
            self.shape_generation = self.shape_generation.wrapping_add(1);
        }

        self.current_text = Some(text);
        self.current_segment_time_ms = segment_time_ms;
        self.current_bold = st.bold;
        self.current_italic = st.italic;
        self.current_font = st.font;
        self.viewport = output;

        let y: u64 = if st.position == 0 {
            output.height as u64 / 10
        } else if st.position == 1 {
            output.height as u64 / 2
        } else {
            output.height as u64 * 85 / 100
        };
        let left_u: u64 = (output.width as u64 - wrap) / 2;
        let right_u: u64 = (output.width as u64 + wrap) / 2;
        let bottom_u: u64 = y + fs * 4;
        let bounds = TextBounds {
            left: left_u as i64,
            top: y as i64,
            right: right_u as i64,
            bottom: bottom_u as i64,
        };

        if st.background_color.a_pct > 1 {
            let pad: u64 = fs / 2;
            let half_pad: u64 = pad / 2;
            proof {
                assert(fs as int * lines as int * 3 < 0x7FFF_FFFF_FFFF_FFFF_FFFF_FFFF_FFFF_FFFF)
                    by (nonlinear_arith)
                    requires
                        fs <= 0xFFFF_FFFF * 0xFFFF_FFFF / 1080,
                        lines <= 0xFFFF_FFFF_FFFF_FFFF,
                ;
            }
            let text_h: i128 = (fs as i128 * lines as i128 * 3) / 2;
            let bg_left: i128 = left_u as i128 - pad as i128;
            let bg_right: i128 = right_u as i128 + pad as i128;
            let bg_top: i128 = y as i128 - half_pad as i128;
            let bg_bottom: i128 = y as i128 + text_h + half_pad as i128;
            self.background_vertices = BackgroundQuad {
                top_left: QuadVertex { x: bg_left, y: bg_top, color: st.background_color },
                top_right: QuadVertex { x: bg_right, y: bg_top, color: st.background_color },
                bottom_right: QuadVertex { x: bg_right, y: bg_bottom, color: st.background_color },
                bottom_left: QuadVertex { x: bg_left, y: bg_bottom, color: st.background_color },
            };
            self.current_background_bounds = Some(bounds);
            self.current_background_color = st.background_color;
        } else {
            self.current_background_bounds = None;
        }

        let mut draws: Vec<TextDraw> = Vec::new();
        if st.outline == 1 {
            draws.push(
                TextDraw { left: bounds.left - 1, top: bounds.top - 1, color: st.outline_color, is_outline: true },
            );
            draws.push(
                TextDraw { left: bounds.left, top: bounds.top - 1, color: st.outline_color, is_outline: true },
            );
            draws.push(
                TextDraw { left: bounds.left + 1, top: bounds.top - 1, color: st.outline_color, is_outline: true },
            );
            draws.push(
                TextDraw { left: bounds.left - 1, top: bounds.top, color: st.outline_color, is_outline: true },
            );
            draws.push(
                TextDraw { left: bounds.left + 1, top: bounds.top, color: st.outline_color, is_outline: true },
            );
            draws.push(
                TextDraw { left: bounds.left - 1, top: bounds.top + 1, color: st.outline_color, is_outline: true },
            );
            draws.push(
                TextDraw { left: bounds.left, top: bounds.top + 1, color: st.outline_color, is_outline: true },
            );
            draws.push(
                TextDraw { left: bounds.left + 1, top: bounds.top + 1, color: st.outline_color, is_outline: true },
            );
        }
        draws.push(
            TextDraw { left: bounds.left, top: bounds.top, color: st.color, is_outline: false },
        );
        self.draws = draws;
    }

    fn clear_frame(&mut self)
        ensures
            *final(self) == (CaptionsLayer {
                current_text: None,
                current_background_bounds: None,
                draws: final(self).draws,
                ..*old(self)
            }),
            final(self).draws@ =~= Seq::<TextDraw>::empty(),
    {
        self.current_text = None;
        self.current_background_bounds = None;
        self.draws = Vec::new();
    }

    /// Plan this frame's render pass: the background quad first when one was
    /// computed and its alpha exceeds the threshold, then the retained text
    /// draws on top.
    pub fn render(&self) -> (r: CaptionRender)
        ensures
            r.background == if self.current_background_bounds is Some
                && self.current_background_color.a_pct > 1 {
                Some(self.background_vertices)
            } else {
                None::<BackgroundQuad>
            },
            r.text_draws@ =~= self.draws@,
    {
        let background = if self.current_background_bounds.is_some()
            && self.current_background_color.a_pct > 1 {
            Some(self.background_vertices)
        } else {
            None
        };
        let mut text_draws: Vec<TextDraw> = Vec::new();
        let mut i: usize = 0;
        while i < self.draws.len()
            invariant
                0 <= i <= self.draws.len(),
                text_draws@ =~= self.draws@.take(i as int),
            decreases self.draws.len() - i,
        {
            text_draws.push(self.draws[i]);
            proof {
                assert(text_draws@ =~= self.draws@.take(i as int + 1));
            }
            i = i + 1;
        }
        proof {
            assert(self.draws@.take(self.draws@.len() as int) =~= self.draws@);
        }
        CaptionRender { background, text_draws }
    }
}

/// A layer whose retained buffer already matches a frame's caption needs no
/// reshape for that frame: `prepare` called again with identical time,
/// captions and output size keeps the shaped buffer and its generation, so
/// repeated identical frames are served from retained state.
pub proof fn lemma_prepare_idempotent(
    layer: CaptionsLayer,
    c: Option<CaptionsData>,
    t_ms: u64,
    out: Resolution,
)
    requires
        match active_caption(c, t_ms) {
            Some(sc) => layer.shaped == Some(shaped_for(sc.0.text, resolved_style_spec(sc.1), out)),
            None => true,
        },
    ensures
        match active_caption(c, t_ms) {
            Some(sc) => !needs_reshape(layer, sc.0.text@, resolved_style_spec(sc.1), out),
            None => true,
        },
{
}

/// A caption text different from the retained buffer's text forces a
/// reshape, whatever else stayed the same.
pub proof fn lemma_text_change_forces_reshape(
    layer: CaptionsLayer,
    new_text: Seq<char>,
    st: CaptionSettings,
    out: Resolution,
)
    requires
        match layer.shaped {
            Some(sh) => sh.text@ != new_text,
            None => true,
        },
    ensures
        needs_reshape(layer, new_text, st, out),
{
}

/// Moving the query time within the same active caption segment (so the
/// active caption is unchanged) forces no reshape: only content changes do.
pub proof fn lemma_time_change_no_reshape(
    layer: CaptionsLayer,
    c: Option<CaptionsData>,
    t1_ms: u64,
    t2_ms: u64,
    out: Resolution,
)
    requires
        active_caption(c, t1_ms) == active_caption(c, t2_ms),
        match active_caption(c, t1_ms) {
            Some(sc) => layer.shaped == Some(shaped_for(sc.0.text, resolved_style_spec(sc.1), out)),
            None => true,
        },
    ensures
        match active_caption(c, t2_ms) {
            Some(sc) => !needs_reshape(layer, sc.0.text@, resolved_style_spec(sc.1), out),
            None => true,
        },
{
}

/// With the outline enabled a frame submits exactly eight outline draws
/// followed by one primary draw; with it disabled, exactly one primary
/// draw.
pub proof fn lemma_outline_draw_counts(st: CaptionSettings, out: Resolution)
    ensures
        st.outline == 1 ==> draws_spec(st, out).len() == 9,
        st.outline == 1 ==> (forall|k: int| 0 <= k < 8 ==> draws_spec(st, out)[k].is_outline),
        st.outline == 1 ==> !draws_spec(st, out)[8].is_outline,
        st.outline != 1 ==> draws_spec(st, out).len() == 1,
        st.outline != 1 ==> !draws_spec(st, out)[0].is_outline,
{
    assert forall|k: int| st.outline == 1 && 0 <= k < 8 implies draws_spec(st, out)[k].is_outline by {
        let b = text_bounds_spec(st, out);
        let y = y_position_spec(st.position, out.height);
        assert(draws_spec(st, out)[k] == outline_draws_spec(b.left as int, y, st.outline_color)[k]);
    }
}

} // verus!
