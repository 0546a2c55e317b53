use better_panely::thumbnail::{
    clamp_source_coord, intersect_rect, source_client_size, source_rect_for_segment, thumbnail_ids,
    thumbnail_ids_from, visible_parts_of, LayoutStep, PlacementStep, RebuildOutcome, RebuildRequest,
    RebuildStep, Rect, SegmentRebuild, ThumbnailHandle, ThumbnailManager, ThumbnailSegment,
    ThumbnailSourceSize,
};

fn rect(left: i32, top: i32, right: i32, bottom: i32) -> Rect {
    Rect { left, top, right, bottom }
}

fn size(width: i32, height: i32) -> ThumbnailSourceSize {
    ThumbnailSourceSize { width, height }
}

fn registered(m: &mut ThumbnailManager, panel: &str, source: isize, thumb: isize) {
    let released = m.begin_register(panel, true, true).unwrap();
    assert!(released.is_empty());
    m.finish_register(panel.to_string(), 1000, source, thumb, size(800, 600));
}

#[test]
fn rectangles_intersect_only_with_area() {
    assert_eq!(intersect_rect(&rect(0, 0, 10, 10), &rect(5, 5, 20, 20)), Some(rect(5, 5, 10, 10)));
    assert_eq!(intersect_rect(&rect(0, 0, 10, 10), &rect(10, 0, 20, 10)), None);
    assert_eq!(intersect_rect(&rect(0, 0, 10, 10), &rect(3, 3, 4, 4)), Some(rect(3, 3, 4, 4)));
    assert_eq!(intersect_rect(&rect(0, 0, 10, 10), &rect(20, 20, 30, 30)), None);
}

#[test]
fn source_coordinates_are_clamped() {
    assert_eq!(clamp_source_coord(-5, 100), 0);
    assert_eq!(clamp_source_coord(150, 100), 100);
    assert_eq!(clamp_source_coord(42, 100), 42);
}

#[test]
fn source_rect_is_limited_to_the_source() {
    let full = rect(0, 0, 400, 300);
    assert_eq!(source_rect_for_segment(&full, size(800, 600), rect(-3, 10, 900, 700)).unwrap(), rect(0, 10, 800, 600));
    assert_eq!(source_rect_for_segment(&full, size(800, 600), rect(50, 60, 50, 60)).unwrap(), rect(50, 60, 51, 61));
    assert_eq!(source_rect_for_segment(&full, size(800, 600), rect(800, 600, 800, 600)).unwrap(), rect(800, 600, 800, 600));
    assert_eq!(
        source_rect_for_segment(&rect(0, 0, 0, 300), size(800, 600), rect(0, 0, 1, 1)).err().unwrap(),
        "Thumbnail layout rectangle is invalid"
    );
    assert_eq!(
        source_rect_for_segment(&full, size(0, 600), rect(0, 0, 1, 1)).err().unwrap(),
        "Thumbnail layout rectangle is invalid"
    );
}

#[test]
fn source_client_size_checks_the_area() {
    assert_eq!(source_client_size(Ok(rect(0, 0, 640, 480))).unwrap(), size(640, 480));
    assert_eq!(source_client_size(Ok(rect(0, 0, 0, 480))).err().unwrap(), "Thumbnail source client size is invalid");
    assert_eq!(source_client_size(Err("denied".to_string())).err().unwrap(), "GetClientRect failed: denied");
}

#[test]
fn panel_ids_count_up() {
    let mut m = ThumbnailManager::new();
    assert_eq!(m.next_panel_id(), "wb_panel_1");
    assert_eq!(m.next_panel_id(), "wb_panel_2");
    assert_eq!(m.next_id, 2);
}

#[test]
fn registration_checks_both_windows() {
    let mut m = ThumbnailManager::new();
    assert_eq!(m.begin_register("p", false, true).err().unwrap(), "Workbench window is no longer available");
    assert_eq!(m.begin_register("p", true, false).err().unwrap(), "Thumbnail source window is no longer available");
    registered(&mut m, "p", 77, 5);
    assert_eq!(m.source_hwnd("p"), Some(77));
    assert_eq!(m.position("p"), Some(0));
    let h = &m.entries[0].handle;
    assert_eq!(h.opacity, 255);
    assert_eq!(h.segments, vec![ThumbnailSegment { thumbnail_id: 5, dest_rect: rect(0, 0, 100, 100), source_rect: None, visible: false }]);
    // Registering the same panel again releases its old thumbnails first.
    let released = m.begin_register("p", true, true).unwrap();
    assert_eq!(released, vec![5]);
    assert_eq!(m.position("p"), None);
}

#[test]
fn update_rect_places_the_first_segment() {
    let mut m = ThumbnailManager::new();
    assert!(matches!(m.begin_update_rect("p", 0, 0, 10, 10, true),
        PlacementStep::Fail { ref error, .. } if error == "Thumbnail not found"));
    registered(&mut m, "p", 77, 5);
    assert!(matches!(m.begin_update_rect("p", 0, 0, 0, 10, true),
        PlacementStep::Fail { ref error, .. } if error == "Thumbnail destination must have positive dimensions"));
    assert!(matches!(m.begin_update_rect("p", i32::MAX, 0, 10, 10, true),
        PlacementStep::Fail { ref error, .. } if error == "Thumbnail destination rectangle is out of range"));
    match m.begin_update_rect("p", 10, 20, 300, 200, true) {
        PlacementStep::Place { dest_rect } => {
            assert_eq!(dest_rect, rect(10, 20, 310, 220));
            m.add_segment("p", 6);
            let (released, seg) = m.place_rect("p", dest_rect);
            assert_eq!(released, vec![6]);
            assert_eq!(seg, ThumbnailSegment { thumbnail_id: 5, dest_rect, source_rect: None, visible: true });
        }
        _ => panic!("expected a placement"),
    }
    assert_eq!(m.entries[0].handle.segments.len(), 1);
}

#[test]
fn update_rect_drops_a_closed_source() {
    let mut m = ThumbnailManager::new();
    registered(&mut m, "p", 77, 5);
    match m.begin_update_rect("p", 0, 0, 10, 10, false) {
        PlacementStep::Fail { error, release } => {
            assert_eq!(error, "Thumbnail source window is no longer available");
            assert_eq!(release, vec![5]);
        }
        _ => panic!("expected a failure"),
    }
    assert_eq!(m.position("p"), None);
}

#[test]
fn update_rect_without_segments_asks_for_one() {
    let mut m = ThumbnailManager::new();
    registered(&mut m, "p", 77, 5);
    assert_eq!(m.trim_segments("p", 0), vec![5]);
    match m.begin_update_rect("p", 1, 2, 3, 4, true) {
        PlacementStep::AddSegment { dest_hwnd, source_hwnd, dest_rect } => {
            assert_eq!((dest_hwnd, source_hwnd), (1000, 77));
            assert_eq!(dest_rect, rect(1, 2, 4, 6));
        }
        _ => panic!("expected a new segment"),
    }
}

#[test]
fn visible_parts_keep_overlapping_rects_in_order() {
    let parts = visible_parts_of(&rect(0, 0, 100, 100), &vec![rect(-10, -10, 10, 10), rect(200, 0, 300, 10), rect(50, 50, 150, 150)]);
    assert_eq!(parts, vec![rect(0, 0, 10, 10), rect(50, 50, 100, 100)]);
}

#[test]
fn layout_hides_or_shows_segments() {
    let mut m = ThumbnailManager::new();
    registered(&mut m, "p", 77, 5);
    assert!(matches!(m.begin_layout("p", rect(0, 0, 0, 0), &vec![], true),
        LayoutStep::Fail { ref error, .. } if error == "Thumbnail destination must have positive dimensions"));
    match m.begin_layout("p", rect(0, 0, 100, 100), &vec![rect(200, 200, 300, 300)], true) {
        LayoutStep::Hide { segments, opacity } => {
            assert_eq!(opacity, 255);
            assert_eq!(segments.len(), 1);
            assert!(!segments[0].visible);
        }
        _ => panic!("nothing visible"),
    }
    match m.begin_layout("p", rect(0, 0, 100, 100), &vec![rect(0, 0, 50, 100), rect(50, 0, 100, 100)], true) {
        LayoutStep::Show { rects, missing, dest_hwnd, source_hwnd, source_size } => {
            assert_eq!(rects, vec![rect(0, 0, 50, 100), rect(50, 0, 100, 100)]);
            assert_eq!(missing, 1);
            assert_eq!((dest_hwnd, source_hwnd), (1000, 77));
            assert_eq!(source_size, size(800, 600));
            m.add_segment("p", 6);
            let s0 = m.place_segment("p", 0, rects[0], rect(0, 0, 400, 600));
            let s1 = m.place_segment("p", 1, rects[1], rect(400, 0, 800, 600));
            assert_eq!(s0.thumbnail_id, 5);
            assert_eq!(s1, ThumbnailSegment { thumbnail_id: 6, dest_rect: rects[1], source_rect: Some(rect(400, 0, 800, 600)), visible: true });
        }
        _ => panic!("two parts visible"),
    }
    assert_eq!(thumbnail_ids(&m.entries[0].handle.segments), vec![5, 6]);
    assert_eq!(thumbnail_ids_from(&m.entries[0].handle.segments, 1), vec![6]);
    assert_eq!(m.trim_segments("p", 1), vec![6]);
}

#[test]
fn unregister_releases_thumbnails() {
    let mut m = ThumbnailManager::new();
    registered(&mut m, "a", 1, 10);
    registered(&mut m, "b", 2, 20);
    assert_eq!(m.unregister_by_panel_id("a"), vec![10]);
    assert!(m.unregister_by_panel_id("a").is_empty());
    registered(&mut m, "c", 3, 30);
    let mut all = m.unregister_all();
    all.sort();
    assert_eq!(all, vec![20, 30]);
    assert!(m.entries.is_empty());
}

#[test]
fn closed_sources_drop_their_panels() {
    let mut m = ThumbnailManager::new();
    registered(&mut m, "a", 1, 10);
    registered(&mut m, "b", 2, 20);
    registered(&mut m, "c", 1, 30);
    let (payloads, released) = m.unregister_by_source_hwnd(1);
    let mut ids: Vec<&str> = payloads.iter().map(|p| p.panel_id.as_str()).collect();
    ids.sort();
    assert_eq!(ids, vec!["a", "c"]);
    assert!(payloads.iter().all(|p| p.source_hwnd == 1));
    let mut released = released;
    released.sort();
    assert_eq!(released, vec![10, 30]);
    assert_eq!(m.source_hwnd("b"), Some(2));
    assert_eq!(m.source_hwnd("a"), None);
}

#[test]
fn stack_order_sorts_the_rest_below_the_requested() {
    let mut m = ThumbnailManager::new();
    registered(&mut m, "c", 1, 10);
    registered(&mut m, "a", 2, 20);
    registered(&mut m, "d", 3, 30);
    registered(&mut m, "b", 4, 40);
    let order = m.stack_order(&vec!["d".to_string(), "x".to_string(), "a".to_string(), "d".to_string()]).unwrap();
    assert_eq!(order, vec!["b", "c", "d", "a"]);
    assert!(m.stack_order(&vec![]).is_none());
    let mut single = ThumbnailManager::new();
    registered(&mut single, "a", 1, 10);
    assert!(single.stack_order(&vec!["a".to_string()]).is_none());
}

fn segment(id: isize, visible: bool) -> ThumbnailSegment {
    ThumbnailSegment { thumbnail_id: id, dest_rect: rect(0, 0, 10, 10), source_rect: None, visible }
}

fn handle(segments: Vec<ThumbnailSegment>) -> ThumbnailHandle {
    ThumbnailHandle { dest_hwnd: 1000, source_hwnd: 77, source_size: size(800, 600), segments, opacity: 255 }
}

fn request(step: RebuildStep) -> RebuildRequest {
    match step {
        RebuildStep::Perform(r) => r,
        _ => panic!("expected a request"),
    }
}

#[test]
fn rebuild_re_registers_every_segment_on_top() {
    let mut r = SegmentRebuild::new(handle(vec![segment(5, true), segment(6, false)]), true, None);
    assert!(matches!(request(r.step(RebuildOutcome::Unit(Ok(())))), RebuildRequest::Unregister { thumbnail_id: 5 }));
    assert!(matches!(request(r.step(RebuildOutcome::Unit(Ok(())))), RebuildRequest::Register { dest_hwnd: 1000, source_hwnd: 77 }));
    match request(r.step(RebuildOutcome::Registered(Ok(50)))) {
        RebuildRequest::Apply { segment: s, opacity } => {
            assert_eq!(s, segment(50, true));
            assert_eq!(opacity, 255);
        }
        _ => panic!("a visible segment is applied"),
    }
    assert!(matches!(request(r.step(RebuildOutcome::Unit(Ok(())))), RebuildRequest::Unregister { thumbnail_id: 6 }));
    assert!(matches!(request(r.step(RebuildOutcome::Unit(Ok(())))), RebuildRequest::Register { .. }));
    assert!(matches!(r.step(RebuildOutcome::Registered(Ok(60))), RebuildStep::Done));
    let (h, error) = r.finish();
    let h = h.unwrap();
    assert_eq!(h.segments, vec![segment(50, true), segment(60, false)]);
    assert!(error.is_none());
}

#[test]
fn rebuild_keeps_the_first_error() {
    let mut r = SegmentRebuild::new(handle(vec![segment(5, true), segment(6, true)]), true, None);
    r.step(RebuildOutcome::Unit(Ok(())));
    // The first segment cannot be unregistered: it is kept as it was.
    assert!(matches!(request(r.step(RebuildOutcome::Unit(Err("busy".to_string())))), RebuildRequest::Unregister { thumbnail_id: 6 }));
    r.step(RebuildOutcome::Unit(Ok(())));
    // The second cannot be registered again: it is dropped.
    assert!(matches!(r.step(RebuildOutcome::Registered(Err("gone".to_string()))), RebuildStep::Done));
    let (h, error) = r.finish();
    assert_eq!(h.unwrap().segments, vec![segment(5, true)]);
    assert_eq!(error.unwrap(), "busy");
}

#[test]
fn rebuild_registers_a_spare_when_nothing_is_left() {
    let mut r = SegmentRebuild::new(handle(vec![]), true, Some("earlier".to_string()));
    assert!(matches!(request(r.step(RebuildOutcome::Unit(Ok(())))), RebuildRequest::Register { .. }));
    assert!(matches!(r.step(RebuildOutcome::Registered(Ok(9))), RebuildStep::Done));
    let (h, error) = r.finish();
    let h = h.unwrap();
    assert_eq!(h.segments, vec![ThumbnailSegment { thumbnail_id: 9, dest_rect: rect(0, 0, 1, 1), source_rect: None, visible: false }]);
    assert_eq!(error.unwrap(), "earlier");
}

#[test]
fn rebuild_releases_a_handle_whose_windows_are_gone() {
    let mut r = SegmentRebuild::new(handle(vec![segment(5, true), segment(6, false)]), false, None);
    match r.step(RebuildOutcome::Unit(Ok(()))) {
        RebuildStep::Release(ids) => assert_eq!(ids, vec![5, 6]),
        _ => panic!("expected a release"),
    }
    let (h, error) = r.finish();
    assert!(h.is_none());
    assert!(error.is_none());
}

#[test]
fn lifecycle_hook_is_recorded_once() {
    let mut m = ThumbnailManager::new();
    assert!(m.needs_lifecycle_hook());
    assert_eq!(m.record_lifecycle_hook(0).err().unwrap(), "Failed to install source window lifecycle hook");
    assert!(m.needs_lifecycle_hook());
    assert!(m.record_lifecycle_hook(123).is_ok());
    assert!(!m.needs_lifecycle_hook());
    assert_eq!(m.take_lifecycle_hook(), Some(123));
    assert_eq!(m.take_lifecycle_hook(), None);
}

#[test]
fn panel_ids_never_repeat() {
    let mut m = ThumbnailManager::new();
    let mut seen = std::collections::HashSet::new();
    for _ in 0..200 {
        assert!(seen.insert(m.next_panel_id()));
    }
}

#[test]
fn unregister_all_releases_in_registry_order() {
    let mut m = ThumbnailManager::new();
    registered(&mut m, "a", 1, 10);
    registered(&mut m, "b", 2, 20);
    m.add_segment("a", 11);
    assert_eq!(m.unregister_all(), vec![10, 11, 20]);
}

#[test]
fn closed_source_keeps_the_other_panels_in_order() {
    let mut m = ThumbnailManager::new();
    registered(&mut m, "a", 1, 10);
    registered(&mut m, "b", 2, 20);
    registered(&mut m, "c", 1, 30);
    registered(&mut m, "d", 4, 40);
    let (payloads, released) = m.unregister_by_source_hwnd(1);
    let ids: Vec<&str> = payloads.iter().map(|p| p.panel_id.as_str()).collect();
    assert_eq!(ids, vec!["a", "c"]);
    assert_eq!(released, vec![10, 30]);
    let left: Vec<&str> = m.entries.iter().map(|e| e.panel_id.as_str()).collect();
    assert_eq!(left, vec!["b", "d"]);
}
