use klip_core::timeline::{SceneMode, SceneSegment, TimelineConfiguration, ZoomSegment};

fn timeline_with_scenes(scenes: Option<Vec<SceneSegment>>) -> TimelineConfiguration {
    TimelineConfiguration { segments: vec![], zoom_segments: vec![], scene_segments: scenes }
}

#[test]
fn test_get_scene_mode_at_time_basic() {
    let timeline = timeline_with_scenes(Some(vec![
        SceneSegment { start_ms: 0, end_ms: 5000, mode: Some(SceneMode::Default) },
        SceneSegment { start_ms: 5000, end_ms: 10000, mode: Some(SceneMode::CameraOnly) },
        SceneSegment { start_ms: 10000, end_ms: 15000, mode: Some(SceneMode::HideCamera) },
    ]));

    // Test within first segment
    assert_eq!(timeline.get_scene_mode_at_time(2500), Some(SceneMode::Default));

    // Test within second segment
    assert_eq!(timeline.get_scene_mode_at_time(7500), Some(SceneMode::CameraOnly));

    // Test within third segment
    assert_eq!(timeline.get_scene_mode_at_time(12500), Some(SceneMode::HideCamera));

    // Test beyond all segments
    assert_eq!(timeline.get_scene_mode_at_time(20000), None);
}

#[test]
fn test_get_scene_mode_at_time_edge_cases() {
    let timeline = timeline_with_scenes(Some(vec![SceneSegment {
        start_ms: 0,
        end_ms: 5000,
        mode: Some(SceneMode::Default),
    }]));

    // Test exact start time
    assert_eq!(timeline.get_scene_mode_at_time(0), Some(SceneMode::Default));

    // Test exact end time (should not match)
    assert_eq!(timeline.get_scene_mode_at_time(5000), None);

    // Test with no segments
    let empty_timeline = timeline_with_scenes(None);
    assert_eq!(empty_timeline.get_scene_mode_at_time(5000), None);
}

#[test]
fn test_get_scene_mode_at_time_none_mode() {
    let timeline = timeline_with_scenes(Some(vec![SceneSegment {
        start_ms: 0,
        end_ms: 5000,
        mode: None, // Should default to SceneMode::Default
    }]));

    assert_eq!(timeline.get_scene_mode_at_time(2500), Some(SceneMode::Default));
}

#[test]
fn test_scene_boundary_belongs_to_next_segment() {
    let timeline = timeline_with_scenes(Some(vec![
        SceneSegment { start_ms: 0, end_ms: 5000, mode: Some(SceneMode::Default) },
        SceneSegment { start_ms: 5000, end_ms: 10000, mode: Some(SceneMode::CameraOnly) },
        SceneSegment { start_ms: 10000, end_ms: 15000, mode: Some(SceneMode::HideCamera) },
    ]));

    // A shared boundary belongs to the later segment (half-open intervals).
    assert_eq!(timeline.get_scene_mode_at_time(5000), Some(SceneMode::CameraOnly));
    // The end of the last segment matches nothing.
    assert_eq!(timeline.get_scene_mode_at_time(15000), None);
}

#[test]
fn test_scene_empty_list_resolves_none() {
    let timeline = timeline_with_scenes(Some(vec![]));
    assert_eq!(timeline.get_scene_mode_at_time(0), None);
    assert_eq!(timeline.get_scene_mode_at_time(2500), None);
}

#[test]
fn test_scene_overlap_first_match_wins() {
    let timeline = timeline_with_scenes(Some(vec![
        SceneSegment { start_ms: 0, end_ms: 10000, mode: Some(SceneMode::HideCamera) },
        SceneSegment { start_ms: 5000, end_ms: 15000, mode: Some(SceneMode::CameraOnly) },
    ]));

    // Both segments contain 7.5 s; the first in sequence order wins.
    assert_eq!(timeline.get_scene_mode_at_time(7500), Some(SceneMode::HideCamera));
    // Only the second contains 12.5 s.
    assert_eq!(timeline.get_scene_mode_at_time(12500), Some(SceneMode::CameraOnly));
}

#[test]
fn test_zoom_lookup_first_match() {
    let timeline = TimelineConfiguration {
        segments: vec![],
        zoom_segments: vec![
            ZoomSegment { start_ms: 1000, end_ms: 2000, amount_milli: 1500 },
            ZoomSegment { start_ms: 1500, end_ms: 3000, amount_milli: 2000 },
        ],
        scene_segments: None,
    };

    assert_eq!(timeline.get_zoom_at_time(500), None);
    assert_eq!(timeline.get_zoom_at_time(1000), Some(1500));
    assert_eq!(timeline.get_zoom_at_time(1750), Some(1500));
    assert_eq!(timeline.get_zoom_at_time(2500), Some(2000));
    assert_eq!(timeline.get_zoom_at_time(3000), None);
}
