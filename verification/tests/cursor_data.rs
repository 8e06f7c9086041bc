use lenzu::cursor_data::{
    monitor_extent, window_corner, CaptureRect, CaptureWindowFrame, CursorData, MonitorRegion, ScreenPoint,
    WorkArea, MONITOR_FLOOR_HEIGHT, MONITOR_FLOOR_WIDTH,
};

fn full_hd_work_area() -> WorkArea {
    WorkArea { left: 0, top: 0, right: 1920, bottom: 1040 }
}

#[test]
fn fresh_frame_is_the_floor() {
    let data = CursorData::new();
    assert_eq!((data.x(), data.y()), (0, 0));
    assert_eq!((data.monitor_x(), data.monitor_y()), (0, 0));
    assert_eq!(data.monitor_width(), 1024);
    assert_eq!(data.monitor_height(), 768);
    assert_eq!((data.window_x(), data.window_y()), (0, 0));
    assert_eq!((data.window_width(), data.window_height()), (1, 1));
    assert_eq!(MONITOR_FLOOR_WIDTH, 1024);
    assert_eq!(MONITOR_FLOOR_HEIGHT, 768);
}

#[test]
fn window_near_the_corner_is_cut_not_moved() {
    let mut data = CursorData::new();
    data.update(Some(ScreenPoint { x: 1900, y: 20 }), full_hd_work_area(), 300, 200);
    assert_eq!((data.window_x(), data.window_y()), (1750, -80));
    assert_eq!((data.window_width(), data.window_height()), (300, 200));
    assert_eq!((data.monitor_width(), data.monitor_height()), (1920, 1040));
    let rect = data.capture_rect();
    assert_eq!(rect.right, 1920);
    assert_eq!(rect.top, 0);
    assert_eq!(rect, CaptureRect { left: 1750, top: 0, right: 1920, bottom: 120 });
}

#[test]
fn frame_and_monitor_come_as_regions() {
    let mut data = CursorData::new();
    data.update(Some(ScreenPoint { x: 1900, y: 20 }), full_hd_work_area(), 300, 200);
    assert_eq!(
        data.window_frame(),
        CaptureWindowFrame { origin: ScreenPoint { x: 1750, y: -80 }, width: 300, height: 200 }
    );
    assert_eq!(
        data.monitor(),
        MonitorRegion { origin: ScreenPoint { x: 0, y: 0 }, width: 1920, height: 1040 }
    );
}

#[test]
fn window_inside_the_monitor_is_captured_whole() {
    let mut data = CursorData::new();
    data.update(Some(ScreenPoint { x: 960, y: 520 }), full_hd_work_area(), 300, 200);
    assert_eq!(data.capture_rect(), CaptureRect { left: 810, top: 420, right: 1110, bottom: 620 });
}

#[test]
fn window_keeps_its_size_left_of_the_primary_monitor() {
    let mut data = CursorData::new();
    let area = WorkArea { left: -1920, top: -200, right: 0, bottom: 880 };
    data.update(Some(ScreenPoint { x: -1900, y: -150 }), area, 301, 201);
    assert_eq!((data.window_width(), data.window_height()), (301, 201));
    assert_eq!((data.window_x(), data.window_y()), (-2050, -250));
    assert_eq!((data.monitor_x(), data.monitor_y()), (-1920, -200));
    assert_eq!((data.monitor_width(), data.monitor_height()), (1920, 1080));
    assert_eq!(
        data.capture_rect(),
        CaptureRect { left: -1920, top: -200, right: -1750, bottom: -50 }
    );
}

#[test]
fn degenerate_monitor_is_held_to_the_floor() {
    let mut data = CursorData::new();
    data.update(
        Some(ScreenPoint { x: 5, y: 5 }),
        WorkArea { left: 0, top: 0, right: 0, bottom: 0 },
        10,
        10,
    );
    assert_eq!((data.monitor_width(), data.monitor_height()), (1024, 768));
    data.update(
        Some(ScreenPoint { x: 5, y: 5 }),
        WorkArea { left: 100, top: 100, right: 50, bottom: 20 },
        10,
        10,
    );
    assert_eq!((data.monitor_width(), data.monitor_height()), (1024, 768));
    assert_eq!((data.monitor_x(), data.monitor_y()), (100, 100));
}

#[test]
fn unread_cursor_stays_where_it_was() {
    let mut data = CursorData::new();
    data.update(Some(ScreenPoint { x: 400, y: 300 }), full_hd_work_area(), 100, 100);
    data.update(None, full_hd_work_area(), 200, 50);
    assert_eq!((data.x(), data.y()), (400, 300));
    assert_eq!((data.window_x(), data.window_y()), (300, 275));
    assert_eq!((data.window_width(), data.window_height()), (200, 50));
}

#[test]
fn monitor_extent_spans_the_whole_range() {
    assert_eq!(monitor_extent(0, 1920, 1024), 1920);
    assert_eq!(monitor_extent(0, 1000, 1024), 1024);
    assert_eq!(monitor_extent(-1024, -2048, 1024), 1024);
    assert_eq!(monitor_extent(i32::MIN, i32::MAX, 1024), u32::MAX);
    assert_eq!(monitor_extent(i32::MAX, i32::MIN, 768), 768);
}

#[test]
fn odd_sizes_round_the_half_down() {
    let mut data = CursorData::new();
    data.update(Some(ScreenPoint { x: 0, y: 0 }), full_hd_work_area(), 1, 3);
    assert_eq!((data.window_x(), data.window_y()), (0, -1));
}

#[test]
fn window_keeps_its_size_at_the_far_corner_of_the_desktop() {
    let mut data = CursorData::new();
    data.update(Some(ScreenPoint { x: i32::MIN, y: i32::MIN + 1 }), full_hd_work_area(), 2, 7);
    assert_eq!((data.window_width(), data.window_height()), (2, 7));
    assert_eq!((data.window_x(), data.window_y()), (i32::MIN, i32::MIN));
    assert_eq!((data.x(), data.y()), (i32::MIN, i32::MIN + 1));
    data.update(Some(ScreenPoint { x: i32::MAX, y: -1 }), full_hd_work_area(), u32::MAX, u32::MAX);
    assert_eq!((data.window_width(), data.window_height()), (u32::MAX, u32::MAX));
    assert_eq!((data.window_x(), data.window_y()), (0, i32::MIN));
    let rect = data.capture_rect();
    assert_eq!((rect.left, rect.top, rect.right, rect.bottom), (0, 0, 1920, 1040));
}

#[test]
fn corner_is_half_the_extent_before_the_center() {
    assert_eq!(window_corner(1900, 300), 1750);
    assert_eq!(window_corner(20, 200), -80);
    assert_eq!(window_corner(-20, 201), -120);
    assert_eq!(window_corner(0, 1), 0);
    assert_eq!(window_corner(i32::MIN, 1), i32::MIN);
    assert_eq!(window_corner(i32::MIN, 2), i32::MIN);
    assert_eq!(window_corner(i32::MIN + 5, 100), i32::MIN);
    assert_eq!(window_corner(i32::MAX, u32::MAX), 0);
}
