use widget_geometry::config::{ShortcutConfig, WindowConfig};
use widget_geometry::controller::{
    apply_resize, apply_scale, handle_move, restore_or_default, MoveError,
};
use widget_geometry::geometry::{
    clamp_size, compute_default_position, compute_snapped_position, corner_position,
    scale_to_size, snap_zone, LogicalSize, Position, ScreenBounds, SnapZone, WindowSize,
};

fn screen() -> ScreenBounds {
    ScreenBounds { width: 1920, height: 1080 }
}

fn widget() -> WindowSize {
    WindowSize { width: 250, height: 110 }
}

#[test]
fn snaps_to_top_left() {
    assert_eq!(compute_snapped_position(10, 10, screen(), widget()), Position { x: 0, y: 0 });
}

#[test]
fn snaps_to_top_right() {
    assert_eq!(compute_snapped_position(1900, 10, screen(), widget()), Position { x: 1670, y: 0 });
}

#[test]
fn centre_stays_put() {
    assert_eq!(compute_snapped_position(960, 540, screen(), widget()), Position { x: 960, y: 540 });
}

#[test]
fn snaps_to_bottom_left() {
    assert_eq!(compute_snapped_position(5, 1000, screen(), widget()), Position { x: 0, y: 970 });
}

#[test]
fn snaps_to_bottom_right() {
    assert_eq!(
        compute_snapped_position(1700, 1000, screen(), widget()),
        Position { x: 1670, y: 970 }
    );
}

#[test]
fn snap_band_edges_are_exclusive() {
    // exactly at the snap distance no zone holds
    assert_eq!(snap_zone(50, 10, screen(), widget()), None);
    assert_eq!(snap_zone(49, 49, screen(), widget()), Some(SnapZone::TopLeft));
    // the right band starts after 1920 - 250 - 50 = 1620
    assert_eq!(snap_zone(1620, 10, screen(), widget()), None);
    assert_eq!(snap_zone(1621, 10, screen(), widget()), Some(SnapZone::TopRight));
}

#[test]
fn top_left_wins_when_zones_overlap() {
    // a window as wide as the screen makes the left and right bands overlap
    let wide = WindowSize { width: 1900, height: 110 };
    assert_eq!(snap_zone(10, 10, screen(), wide), Some(SnapZone::TopLeft));
    assert_eq!(compute_snapped_position(10, 10, screen(), wide), Position { x: 0, y: 0 });
}

#[test]
fn corner_positions() {
    assert_eq!(corner_position(SnapZone::BottomRight, screen(), widget()), Position { x: 1670, y: 970 });
    assert_eq!(corner_position(SnapZone::TopLeft, screen(), widget()), Position { x: 0, y: 0 });
}

#[test]
fn scale_one_and_a_half() {
    assert_eq!(scale_to_size(1500), LogicalSize { width: 375, height: 165 });
}

#[test]
fn scale_rounds_half_away_from_zero() {
    // 250 * 1.002 = 250.5, 110 * 1.002 = 110.22
    assert_eq!(scale_to_size(1002), LogicalSize { width: 251, height: 110 });
    // 250 * 0.998 = 249.5, 110 * 0.998 = 109.78
    assert_eq!(scale_to_size(998), LogicalSize { width: 250, height: 110 });
    assert_eq!(scale_to_size(-1002), LogicalSize { width: -251, height: -110 });
}

#[test]
fn scale_zero_and_extremes() {
    assert_eq!(scale_to_size(0), LogicalSize { width: 0, height: 0 });
    let big = scale_to_size(i64::MAX);
    assert!(big.width > 0 && big.height > 0);
    let small = scale_to_size(i64::MIN);
    assert!(small.width < 0 && small.height < 0);
}

#[test]
fn clamp_size_bounds() {
    assert_eq!(clamp_size(LogicalSize { width: 375, height: 165 }), (LogicalSize { width: 375, height: 165 }, false));
    assert_eq!(clamp_size(LogicalSize { width: 500, height: 50 }), (LogicalSize { width: 375, height: 88 }, true));
    assert_eq!(clamp_size(LogicalSize { width: 100, height: 2000 }), (LogicalSize { width: 200, height: 1000 }, true));
}

#[test]
fn apply_scale_clamps_and_reports() {
    let r = apply_scale(1500);
    assert_eq!(r.size, LogicalSize { width: 375, height: 165 });
    assert!(!r.clamped);
    let r = apply_scale(2000);
    assert_eq!(r.size, LogicalSize { width: 375, height: 220 });
    assert!(r.clamped);
}

#[test]
fn apply_resize_keeps_width() {
    assert_eq!(apply_resize(300), LogicalSize { width: 250, height: 300 });
}

#[test]
fn default_position_on_full_hd() {
    assert_eq!(compute_default_position(screen()), Position { x: 1650, y: 20 });
}

#[test]
fn restore_without_stored_config() {
    assert_eq!(restore_or_default(None, Some(screen())), Some(Position { x: 1650, y: 20 }));
    assert_eq!(restore_or_default(None, None), None);
}

#[test]
fn restore_keeps_stored_placement() {
    // a stored placement is not snapped again
    let stored = WindowConfig { x: 10, y: 10 };
    assert_eq!(restore_or_default(Some(stored), Some(screen())), Some(Position { x: 10, y: 10 }));
}

#[test]
fn move_snaps_and_reports_missing_queries() {
    assert_eq!(handle_move(1900, 10, Some(screen()), Some(widget())), Ok(Position { x: 1670, y: 0 }));
    assert_eq!(handle_move(1900, 10, None, Some(widget())), Err(MoveError::NoMonitor));
    assert_eq!(handle_move(1900, 10, None, None), Err(MoveError::NoMonitor));
    assert_eq!(handle_move(1900, 10, Some(screen()), None), Err(MoveError::NoWindowSize));
    assert_eq!(MoveError::NoMonitor.message(), "cannot get monitor information");
    assert_eq!(MoveError::NoWindowSize.message(), "cannot get window size");
}

#[test]
fn window_config_round_trips_position() {
    let p = Position { x: 1670, y: 0 };
    assert_eq!(WindowConfig::at(p).position(), p);
}

#[test]
fn shortcut_defaults() {
    let c = ShortcutConfig::default();
    assert_eq!(c.toggle, "Ctrl+Space");
    assert_eq!(c.reset, "Ctrl+R");
    assert_eq!(c.preset3, "Ctrl+1");
    assert_eq!(c.preset4, "Ctrl+2");
    assert_eq!(c.preset6, "Ctrl+3");
}
