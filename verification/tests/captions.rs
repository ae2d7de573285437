use klip_core::captions::{
    CaptionSegment, CaptionsData, CaptionsLayer, ProjectCaptionSegment, convert_project_caption,
    find_caption_at_time, find_caption_at_time_project, line_count,
};
use klip_core::compositor::{LayerCompositor, LayerKind, ProjectConfiguration};
use klip_core::project::Resolution;
use klip_core::style::{
    CaptionSettings, ProjectCaptionSettings, Rgba, parse_color_component, resolve_caption_style,
    scaled_font_size,
};
use klip_core::timeline::{SceneMode, SceneSegment, TimelineConfiguration};

fn settings(enabled: bool) -> ProjectCaptionSettings {
    ProjectCaptionSettings {
        enabled,
        font: String::from("System Sans-Serif"),
        size: 24,
        color: String::from("#FFFFFF"),
        background_color: String::from("#000000"),
        background_opacity: 80,
        position: String::from("bottom"),
        bold: true,
        italic: false,
        outline: true,
        outline_color: String::from("#000000"),
    }
}

fn segment(id: &str, start_ms: u64, end_ms: u64, text: &str) -> ProjectCaptionSegment {
    ProjectCaptionSegment {
        id: String::from(id),
        start_ms,
        end_ms,
        text: String::from(text),
    }
}

fn demo_captions(enabled: bool) -> Option<CaptionsData> {
    Some(CaptionsData {
        segments: vec![
            segment("1", 0, 2500, "Welcome to this demo recording."),
            segment("2", 2500, 5000, "This is a test of our caption export functionality."),
        ],
        settings: settings(enabled),
    })
}

const OUT: Resolution = Resolution { width: 1920, height: 1080 };

#[test]
fn test_parse_color_component_hex() {
    assert_eq!(parse_color_component("#FFFFFF", 0), 255);
    assert_eq!(parse_color_component("#FFFFFF", 1), 255);
    assert_eq!(parse_color_component("#FFFFFF", 2), 255);
    assert_eq!(parse_color_component("#102030", 0), 0x10);
    assert_eq!(parse_color_component("#102030", 1), 0x20);
    assert_eq!(parse_color_component("#102030", 2), 0x30);
    // Without the leading hash.
    assert_eq!(parse_color_component("aAbBcC", 0), 0xAA);
    assert_eq!(parse_color_component("aAbBcC", 1), 0xBB);
    assert_eq!(parse_color_component("aAbBcC", 2), 0xCC);
}

#[test]
fn test_parse_color_component_malformed_is_zero() {
    // Non-hex digits fall back to zero, never panic.
    assert_eq!(parse_color_component("#GGHHII", 0), 0);
    assert_eq!(parse_color_component("#GGHHII", 2), 0);
    // Too short for the requested channel.
    assert_eq!(parse_color_component("#FF", 1), 0);
    assert_eq!(parse_color_component("", 0), 0);
    // Out-of-range channel index.
    assert_eq!(parse_color_component("#FFFFFF", 3), 0);
    assert_eq!(parse_color_component("#FFFFFF", usize::MAX), 0);
}

#[test]
fn test_resolve_caption_style_codes() {
    let mut s = settings(true);
    let r = resolve_caption_style(&s);
    assert_eq!(r.enabled, 1);
    assert_eq!(r.font_size, 24);
    assert_eq!(r.color, Rgba { r: 255, g: 255, b: 255, a_pct: 100 });
    assert_eq!(r.background_color, Rgba { r: 0, g: 0, b: 0, a_pct: 80 });
    assert_eq!(r.position, 2); // bottom
    assert_eq!(r.outline, 1);
    assert_eq!(r.font, 0); // sans-serif
    assert_eq!(r.bold, 1);
    assert_eq!(r.italic, 0);

    s.position = String::from("top");
    assert_eq!(resolve_caption_style(&s).position, 0);
    s.position = String::from("middle");
    assert_eq!(resolve_caption_style(&s).position, 1);
    // Unknown position deliberately anchors at the bottom.
    s.position = String::from("somewhere");
    assert_eq!(resolve_caption_style(&s).position, 2);

    s.font = String::from("System Serif");
    assert_eq!(resolve_caption_style(&s).font, 1);
    s.font = String::from("System Monospace");
    assert_eq!(resolve_caption_style(&s).font, 2);
    // Unknown family deliberately maps to sans-serif.
    s.font = String::from("Comic Sans");
    assert_eq!(resolve_caption_style(&s).font, 0);
}

#[test]
fn test_default_caption_settings() {
    let d = CaptionSettings::default();
    assert_eq!(d.enabled, 1);
    assert_eq!(d.font_size, 24);
    assert_eq!(d.color, Rgba { r: 255, g: 255, b: 255, a_pct: 100 });
    assert_eq!(d.background_color, Rgba { r: 0, g: 0, b: 0, a_pct: 80 });
    assert_eq!(d.position, 2);
    assert_eq!(d.outline, 1);
    assert_eq!(d.bold, 1);
    assert_eq!(d.italic, 0);
}

#[test]
fn test_scaled_font_size_resolution_independent() {
    // 1080p is the baseline.
    assert_eq!(scaled_font_size(24, 1080), 24);
    assert_eq!(scaled_font_size(24, 540), 12);
    assert_eq!(scaled_font_size(24, 2160), 48);
}

#[test]
fn test_line_count() {
    assert_eq!(line_count(""), 0);
    assert_eq!(line_count("one line"), 1);
    assert_eq!(line_count("two\nlines"), 2);
    assert_eq!(line_count("trailing newline\n"), 1);
    assert_eq!(line_count("a\n\nb"), 3);
}

#[test]
fn test_prepare_idempotent_retains_shaped_buffer() {
    // Two identical prepare calls must not reshape and must plan identical
    // output.
    let captions = demo_captions(true);
    let mut layer = CaptionsLayer::new();
    layer.prepare(&captions, 1000, OUT);
    let gen_first = layer.shape_generation;
    let render_first = layer.render();

    layer.prepare(&captions, 1000, OUT);
    let render_second = layer.render();
    assert_eq!(layer.shape_generation, gen_first);
    assert_eq!(render_second.text_draws, render_first.text_draws);
    assert_eq!(render_second.background, render_first.background);
}

#[test]
fn test_text_change_forces_reshape_time_change_does_not() {
    let captions = demo_captions(true);
    let mut layer = CaptionsLayer::new();
    layer.prepare(&captions, 1000, OUT);
    let gen_first = layer.shape_generation;

    // Another time inside the same segment: same text, no reshape.
    layer.prepare(&captions, 2000, OUT);
    assert_eq!(layer.shape_generation, gen_first);

    // A time inside the next segment: new text, reshape.
    layer.prepare(&captions, 3000, OUT);
    assert_eq!(layer.shape_generation, gen_first + 1);
}

#[test]
fn test_style_change_forces_reshape() {
    let mut captions = demo_captions(true);
    let mut layer = CaptionsLayer::new();
    layer.prepare(&captions, 1000, OUT);
    let gen_first = layer.shape_generation;

    if let Some(data) = captions.as_mut() {
        data.settings.italic = true;
    }
    layer.prepare(&captions, 1000, OUT);
    assert_eq!(layer.shape_generation, gen_first + 1);
}

#[test]
fn test_background_quad_iff_alpha_above_threshold() {
    // Alpha is in hundredths: 2 hundredths exceed the 0.01 threshold,
    // 1 hundredth is exactly at it and 0 is below; only the first draws.
    for (opacity, expect_background) in [(80u8, true), (2, true), (1, false), (0, false)] {
        let mut s = settings(true);
        s.background_opacity = opacity;
        let captions = Some(CaptionsData {
            segments: vec![segment("1", 0, 2500, "Welcome to this demo recording.")],
            settings: s,
        });
        let mut layer = CaptionsLayer::new();
        layer.prepare(&captions, 1000, OUT);
        let render = layer.render();
        assert_eq!(
            render.background.is_some(),
            expect_background,
            "opacity {} should {} a background",
            opacity,
            if expect_background { "draw" } else { "not draw" }
        );
    }
}

#[test]
fn test_outline_eight_offsets_before_primary() {
    let captions = demo_captions(true);
    let mut layer = CaptionsLayer::new();
    layer.prepare(&captions, 1000, OUT);
    assert_eq!(layer.draws.len(), 9);
    for draw in &layer.draws[..8] {
        assert!(draw.is_outline);
    }
    let primary = &layer.draws[8];
    assert!(!primary.is_outline);
    // The eight offsets are the compass directions around the primary draw.
    let mut offsets: Vec<(i64, i64)> = layer.draws[..8]
        .iter()
        .map(|d| (d.left - primary.left, d.top - primary.top))
        .collect();
    offsets.sort();
    assert_eq!(
        offsets,
        vec![(-1, -1), (-1, 0), (-1, 1), (0, -1), (0, 1), (1, -1), (1, 0), (1, 1)]
    );
}

#[test]
fn test_outline_disabled_single_draw() {
    let mut s = settings(true);
    s.outline = false;
    let captions = Some(CaptionsData {
        segments: vec![segment("1", 0, 2500, "Welcome to this demo recording.")],
        settings: s,
    });
    let mut layer = CaptionsLayer::new();
    layer.prepare(&captions, 1000, OUT);
    assert_eq!(layer.draws.len(), 1);
    assert!(!layer.draws[0].is_outline);
}

#[test]
fn test_prepare_hidden_when_disabled() {
    // Disabling must hide captions even where a segment matches.
    let captions = demo_captions(false);
    let mut layer = CaptionsLayer::new();
    layer.prepare(&captions, 1000, OUT);
    assert!(layer.current_text.is_none());
    assert!(layer.draws.is_empty());
    assert!(layer.render().background.is_none());
}

#[test]
fn test_prepare_clears_stale_frame() {
    let captions = demo_captions(true);
    let mut layer = CaptionsLayer::new();
    layer.prepare(&captions, 1000, OUT);
    assert!(layer.current_text.is_some());
    assert!(!layer.draws.is_empty());

    // No segment contains 9 s: the frame renders nothing, with no stale
    // text or background.
    layer.prepare(&captions, 9000, OUT);
    assert!(layer.current_text.is_none());
    assert!(layer.draws.is_empty());
    assert!(layer.render().background.is_none());
}

#[test]
fn test_render_frame_end_to_end() {
    let config = ProjectConfiguration { timeline: None, captions: demo_captions(true) };
    let mut compositor = LayerCompositor::new();

    let frame = compositor.render_frame(&config, 1000, OUT);
    assert_eq!(
        compositor.captions.current_text.as_deref(),
        Some("Welcome to this demo recording.")
    );
    // Bottom-anchored captions sit at 85% of the frame height.
    let primary = frame.caption_draws.last().unwrap();
    assert_eq!(primary.top, 1080 * 85 / 100);
    assert!(frame.background.is_some());

    // The boundary time belongs to the later segment.
    compositor.render_frame(&config, 2500, OUT);
    assert_eq!(
        compositor.captions.current_text.as_deref(),
        Some("This is a test of our caption export functionality.")
    );
}

#[test]
fn test_layer_order_gating() {
    let scenes = vec![
        SceneSegment { start_ms: 0, end_ms: 1000, mode: Some(SceneMode::CameraOnly) },
        SceneSegment { start_ms: 1000, end_ms: 2000, mode: Some(SceneMode::HideCamera) },
        SceneSegment { start_ms: 2000, end_ms: 3000, mode: Some(SceneMode::Default) },
    ];
    let config = ProjectConfiguration {
        timeline: Some(TimelineConfiguration {
            segments: vec![],
            zoom_segments: vec![],
            scene_segments: Some(scenes),
        }),
        captions: None,
    };
    let mut compositor = LayerCompositor::new();

    let camera_only = compositor.render_frame(&config, 500, OUT);
    assert_eq!(
        camera_only.layers,
        vec![LayerKind::Camera, LayerKind::Cursor, LayerKind::Captions]
    );

    let hide_camera = compositor.render_frame(&config, 1500, OUT);
    assert_eq!(
        hide_camera.layers,
        vec![LayerKind::Screen, LayerKind::Cursor, LayerKind::Captions]
    );

    let both = compositor.render_frame(&config, 2500, OUT);
    assert_eq!(
        both.layers,
        vec![LayerKind::Screen, LayerKind::Camera, LayerKind::Cursor, LayerKind::Captions]
    );

    // Outside every scene segment the default layout renders both.
    let outside = compositor.render_frame(&config, 9000, OUT);
    assert_eq!(outside.scene_mode, None);
    assert_eq!(
        outside.layers,
        vec![LayerKind::Screen, LayerKind::Camera, LayerKind::Cursor, LayerKind::Captions]
    );
}

#[test]
fn test_find_caption_at_time_half_open() {
    let segments = vec![
        CaptionSegment {
            id: String::from("1"),
            start_ms: 0,
            end_ms: 2500,
            text: String::from("first"),
        },
        CaptionSegment {
            id: String::from("2"),
            start_ms: 2500,
            end_ms: 5000,
            text: String::from("second"),
        },
    ];
    assert_eq!(find_caption_at_time(0, &segments).map(|s| s.text.as_str()), Some("first"));
    assert_eq!(find_caption_at_time(2499, &segments).map(|s| s.text.as_str()), Some("first"));
    assert_eq!(find_caption_at_time(2500, &segments).map(|s| s.text.as_str()), Some("second"));
    assert!(find_caption_at_time(5000, &segments).is_none());
}

#[test]
fn test_find_caption_at_time_project_converts() {
    let segments = vec![segment("7", 100, 200, "hello")];
    let found = find_caption_at_time_project(150, &segments).unwrap();
    assert_eq!(found.id, "7");
    assert_eq!(found.start_ms, 100);
    assert_eq!(found.end_ms, 200);
    assert_eq!(found.text, "hello");
    assert!(find_caption_at_time_project(200, &segments).is_none());

    let converted = convert_project_caption(&segments[0]);
    assert_eq!(converted.id, "7");
    assert_eq!(converted.text, "hello");
}

#[test]
fn test_update_caption_and_settings() {
    let mut layer = CaptionsLayer::new();
    layer.update_caption(Some(String::from("manual")), 42);
    assert_eq!(layer.current_text.as_deref(), Some("manual"));
    assert_eq!(layer.current_segment_time_ms, 42);

    let mut s = CaptionSettings::default();
    s.font_size = 30;
    layer.update_settings(s);
    assert_eq!(layer.settings.font_size, 30);
}
