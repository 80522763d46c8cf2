use stealthy_usage_monitor::geometry::{
    active_model_count, centred_position, choose_taskbar, clamp_desktop_position,
    clamp_offset_for_taskbar, compute_anchor_y, floating_position, is_drag_handle_point,
    offset_for_drop_point, pack_point, provider_slot_width, sc, taskbar_at_point,
    taskbar_placement, total_widget_width_for, tray_left_for_taskbar, unpack_point, Placement,
    Point, Rect, WIDGET_HEIGHT,
};

#[test]
fn positions_are_kept_inside_the_monitor_work_area() {
    let work = Rect { left: 0, top: 0, right: 1920, bottom: 1040 };
    assert_eq!(clamp_desktop_position(300, 200, 384, 46, work), (300, 200));
    assert_eq!(clamp_desktop_position(2100, -40, 384, 46, work), (1536, 0));
    assert_eq!(clamp_desktop_position(1900, 1100, 384, 46, work), (1536, 994));
}

#[test]
fn negative_monitor_coordinates_and_small_displays_are_supported() {
    let work = Rect { left: -1280, top: -900, right: 0, bottom: 0 };
    assert_eq!(clamp_desktop_position(-900, -700, 384, 46, work), (-900, -700));
    assert_eq!(clamp_desktop_position(-10, -10, 384, 46, work), (-384, -46));
    assert_eq!(clamp_desktop_position(0, 0, 2000, 1000, work), (-1280, -900));
}

/// Scaling as floating point computes it.
fn scaled_in_floating_point(px: i32, dpi: u32) -> i32 {
    (px as f64 * dpi as f64 / 96.0).round() as i32
}

#[test]
fn scaling_agrees_with_floating_point() {
    for dpi in [0, 1, 72, 95, 96, 97, 120, 144, 168, 192, 240, 288, 384, 480] {
        for px in -700..=700 {
            assert_eq!(sc(px, dpi), scaled_in_floating_point(px, dpi), "{px} at {dpi}");
        }
    }
    let mut seed: u64 = 0x853c_49e6_748f_ea9b;
    for _ in 0..200_000 {
        seed = seed.wrapping_mul(6364136223846793005).wrapping_add(1442695040888963407);
        let (px, dpi) = ((seed >> 32) as u32 as i32, (seed ^ (seed >> 17)) as u32);
        assert_eq!(sc(px, dpi), scaled_in_floating_point(px, dpi), "{px} at {dpi}");
        let (px, dpi) = (px % 4096, dpi % 1024);
        assert_eq!(sc(px, dpi), scaled_in_floating_point(px, dpi), "{px} at {dpi}");
    }
    for (px, dpi) in [(i32::MAX, u32::MAX), (i32::MIN, u32::MAX), (i32::MIN, 96), (i32::MAX, 97)] {
        assert_eq!(sc(px, dpi), scaled_in_floating_point(px, dpi));
    }
}

#[test]
fn cards_take_their_slots() {
    assert_eq!(provider_slot_width(96), 182);
    assert_eq!(total_widget_width_for(1, 96), 202);
    assert_eq!(total_widget_width_for(2, 96), 384);
    assert_eq!(total_widget_width_for(3, 96), 566);
    assert_eq!(total_widget_width_for(2, 192), 768);
    assert_eq!(sc(WIDGET_HEIGHT, 96), 62);
    assert_eq!(active_model_count(false, false, false), 1);
    assert_eq!(active_model_count(true, false, true), 2);
    assert_eq!(active_model_count(true, true, true), 3);
}

#[test]
fn the_drag_handle_is_a_centred_strip() {
    assert!(is_drag_handle_point(0, 18, 96));
    assert!(is_drag_handle_point(2, 42, 96));
    assert!(!is_drag_handle_point(3, 30, 96));
    assert!(!is_drag_handle_point(-1, 30, 96));
    assert!(!is_drag_handle_point(1, 17, 96));
    assert!(!is_drag_handle_point(1, 43, 96));
}

#[test]
fn widgets_are_anchored_at_the_bottom() {
    assert_eq!(compute_anchor_y(1040, 40, 62), 1040);
    assert_eq!(compute_anchor_y(1000, 80, 62), 1018);
}

#[test]
fn fresh_widgets_appear_at_the_top_right() {
    let work = Rect { left: 0, top: 0, right: 1920, bottom: 1040 };
    assert_eq!(floating_position(None, 384, 62, work, 96), (1520, 16));
    assert_eq!(floating_position(Some((7, 9)), 384, 62, work, 96), (7, 9));
    assert_eq!(floating_position(Some((5000, 5000)), 384, 62, work, 96), (1536, 978));
}

#[test]
fn offsets_stay_between_the_tray_and_the_taskbar_end() {
    let bar = Rect { left: 0, top: 1040, right: 1920, bottom: 1080 };
    let tray = Rect { left: 1700, top: 1040, right: 1920, bottom: 1080 };
    assert_eq!(tray_left_for_taskbar(bar, Some(tray)), 1700);
    assert_eq!(tray_left_for_taskbar(bar, None), 1920);
    assert_eq!(clamp_offset_for_taskbar(bar, 1700, 384, -5), 0);
    assert_eq!(clamp_offset_for_taskbar(bar, 1700, 384, 100), 100);
    assert_eq!(clamp_offset_for_taskbar(bar, 1700, 384, 9999), 1316);
    assert_eq!(clamp_offset_for_taskbar(bar, 300, 384, 10), 0);
    let at = Point { x: 500, y: 1050 };
    assert_eq!(offset_for_drop_point(bar, 1700, 384, at, 2), 818);
}

#[test]
fn drops_find_their_taskbar() {
    let bars = vec![
        Rect { left: 0, top: 1040, right: 1920, bottom: 1080 },
        Rect { left: 1920, top: 1040, right: 3840, bottom: 1080 },
    ];
    assert_eq!(taskbar_at_point(Point { x: 1919, y: 1040 }, &bars), Some(0));
    assert_eq!(taskbar_at_point(Point { x: 1920, y: 1079 }, &bars), Some(1));
    assert_eq!(taskbar_at_point(Point { x: 1920, y: 1080 }, &bars), None);
    assert_eq!(choose_taskbar(5, 2), Some(1));
    assert_eq!(choose_taskbar(0, 2), Some(0));
    assert_eq!(choose_taskbar(0, 0), None);
}

#[test]
fn embedded_widgets_are_placed_relative_to_the_taskbar() {
    let bar = Rect { left: 100, top: 1000, right: 1920, bottom: 1080 };
    assert_eq!(
        taskbar_placement(bar, 1700, 384, 62, 50, true),
        Placement { x: 1166, y: 18, width: 384, height: 62 }
    );
    assert_eq!(
        taskbar_placement(bar, 1700, 384, 62, 50, false),
        Placement { x: 1266, y: 1018, width: 384, height: 62 }
    );
}

#[test]
fn dialogs_are_centred_or_start_at_the_corner() {
    let work = Rect { left: 0, top: 0, right: 1920, bottom: 1040 };
    assert_eq!(centred_position(work, 500, 640), (710, 200));
    assert_eq!(centred_position(work, 3000, 2000), (0, 0));
}

#[test]
fn points_are_packed_as_signed_words() {
    assert_eq!(unpack_point(0xffff_0002), Point { x: 2, y: -1 });
    assert_eq!(pack_point(Point { x: -1280, y: 40 }), 0x0028_fb00);
    for p in [Point { x: -32768, y: 32767 }, Point { x: 0, y: -1 }, Point { x: 5, y: 6 }] {
        assert_eq!(unpack_point(pack_point(p)), p);
    }
}
