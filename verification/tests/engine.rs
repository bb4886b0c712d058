use tiny_dfr::button::{
    battery_icon_index, battery_state_from, get_brightness_percent, get_volume_percent,
    get_wifi_info, parse_battery_mode, truncate_ssid, wifi_icon, BatteryIconMode, BatteryState,
    Button, ButtonImage, ColorRole,
};
use tiny_dfr::config::{
    default_info_layer_keys, empty_button_config, hex_to_rgb, maybe_prepend_esc, ButtonConfig,
    ESC_KEY_CODE,
};
use tiny_dfr::dispatch::{
    mark_battery_changed, mark_live_changed, needs_redraw, next_timeout_ms, TouchAction, UiState,
};
use tiny_dfr::geometry::{button_geometry, fit_title, TitleFit};
use tiny_dfr::layer::{assemble_layers, FunctionLayer};
use tiny_dfr::{copy_key_codes, str_eq};

fn text_cfg(label: &str, stretch: Option<usize>) -> ButtonConfig {
    let mut c = empty_button_config();
    c.text = Some(label.to_string());
    c.stretch = stretch;
    c
}

#[test]
fn layer_offsets_follow_stretch_sum() {
    let cfgs = vec![
        text_cfg("a", None),
        text_cfg("b", Some(2)),
        text_cfg("c", Some(3)),
    ];
    let layer = FunctionLayer::with_config(&cfgs, None).unwrap();
    assert_eq!(layer.buttons.len(), 3);
    assert_eq!(layer.buttons[0].0, 0);
    assert_eq!(layer.buttons[1].0, 1);
    assert_eq!(layer.buttons[2].0, 3);
    assert_eq!(layer.virtual_button_count, 6);
}

#[test]
fn layer_stretch_clamped_to_one() {
    let cfgs = vec![text_cfg("a", Some(0)), text_cfg("b", None)];
    let layer = FunctionLayer::with_config(&cfgs, None).unwrap();
    assert_eq!(layer.buttons[1].0, 1);
    assert_eq!(layer.virtual_button_count, 2);
}

#[test]
fn empty_layer_is_fatal() {
    assert!(FunctionLayer::with_config(&vec![], None).is_none());
}

#[test]
fn button_variant_priority() {
    let mut c = text_cfg("x", None);
    c.icon = Some("some-icon".to_string());
    let b = Button::with_config(&c, None).unwrap();
    assert!(matches!(b.image, ButtonImage::Text(ref t) if t == "x"));

    let mut c2 = empty_button_config();
    c2.volume = Some(true);
    let b2 = Button::with_config(&c2, None).unwrap();
    assert!(matches!(b2.image, ButtonImage::Volume));
    assert!(!b2.clickable);
    assert!(b2.changed);

    let spacer = Button::with_config(&empty_button_config(), None).unwrap();
    assert!(matches!(spacer.image, ButtonImage::Spacer));
}

#[test]
fn battery_without_device_degrades_to_label() {
    let mut c = empty_button_config();
    c.battery = Some("both".to_string());
    let b = Button::with_config(&c, None).unwrap();
    assert!(matches!(b.image, ButtonImage::Text(ref t) if t == "Battery N/A"));
}

#[test]
fn battery_mode_parsing() {
    assert_eq!(parse_battery_mode("icon"), Some(BatteryIconMode::Icon));
    assert_eq!(parse_battery_mode("percentage"), Some(BatteryIconMode::Percentage));
    assert_eq!(parse_battery_mode("both"), Some(BatteryIconMode::Both));
    assert_eq!(parse_battery_mode("Both"), None);
    let mut c = empty_button_config();
    c.battery = Some("bogus".to_string());
    assert!(Button::with_config(&c, Some("BAT0")).is_none());
}

#[test]
fn battery_mode_flags() {
    assert!(!BatteryIconMode::Percentage.should_draw_icon());
    assert!(BatteryIconMode::Icon.should_draw_icon());
    assert!(BatteryIconMode::Both.should_draw_icon());
    assert!(BatteryIconMode::Percentage.should_draw_text());
    assert!(!BatteryIconMode::Icon.should_draw_text());
    assert!(BatteryIconMode::Both.should_draw_text());
}

#[test]
fn battery_bucket_boundaries() {
    assert_eq!(battery_icon_index(20, false), 1);
    assert_eq!(battery_icon_index(21, false), 2);
    assert_eq!(battery_icon_index(100, true), 6);
    assert_eq!(battery_icon_index(0, false), 0);
    assert_eq!(battery_icon_index(1, false), 1);
    assert_eq!(battery_icon_index(100, false), 7);
    assert_eq!(battery_icon_index(0, true), 0);
    assert_eq!(battery_icon_index(99, true), 5);
}

#[test]
fn battery_state_classification() {
    assert_eq!(battery_state_from("Charging", 50), BatteryState::Charging);
    assert_eq!(battery_state_from("Full", 100), BatteryState::Charging);
    assert_eq!(battery_state_from("Discharging", 9), BatteryState::Low);
    assert_eq!(battery_state_from("Discharging", 10), BatteryState::NotCharging);
    assert_eq!(battery_state_from("Unknown", 5), BatteryState::NotCharging);
}

#[test]
fn background_color_roles() {
    let mut c = empty_button_config();
    c.battery = Some("both".to_string());
    let b = Button::with_config(&c, Some("BAT0")).unwrap();
    assert_eq!(b.background_color_role(false, BatteryState::Charging), ColorRole::Success);
    assert_eq!(b.background_color_role(false, BatteryState::Low), ColorRole::Warning);
    assert_eq!(b.background_color_role(true, BatteryState::NotCharging), ColorRole::ButtonActive);

    let plain = Button::new_text("x".to_string(), vec![]);
    assert_eq!(plain.background_color_role(false, BatteryState::NotCharging), ColorRole::ButtonInactive);
    let ws = Button::new_niri_workspace(2, true, 7);
    assert_eq!(ws.background_color_role(false, BatteryState::NotCharging), ColorRole::Accent);
}

#[test]
fn time_button_refresh_rate() {
    let fast = Button::new_time(vec![], "%H:%M:%S", None).unwrap();
    assert!(fast.needs_faster_refresh());
    let slow = Button::new_time(vec![], "%H:%M", None).unwrap();
    assert!(!slow.needs_faster_refresh());
    let alias = Button::new_time(vec![], "24hr", None).unwrap();
    assert!(!alias.needs_faster_refresh());
    assert!(!alias.clickable);
}

#[test]
fn set_active_emits_once() {
    let mut b = Button::new_text("x".to_string(), vec![30]);
    assert!(b.set_active(true));
    assert!(b.active);
    assert!(b.changed);
    assert!(!b.set_active(true));
    assert!(b.set_active(false));

    let mut title = Button::new_niri_window_title("t".to_string());
    assert!(!title.set_active(true));
    assert!(!title.active);
}

#[test]
fn wifi_icon_bands() {
    assert_eq!(wifi_icon(90), "\u{f0928}");
    assert_eq!(wifi_icon(70), "\u{f0925}");
    assert_eq!(wifi_icon(50), "\u{f0922}");
    assert_eq!(wifi_icon(10), "\u{f091f}");
    assert_eq!(wifi_icon(0), "\u{f092f}");
    assert_eq!(wifi_icon(101), "\u{f092f}");
}

#[test]
fn ssid_truncation() {
    assert_eq!(truncate_ssid("short", 8), "short");
    assert_eq!(truncate_ssid("exactly8", 8), "exactly8");
    assert_eq!(truncate_ssid("network-name", 8), "network\u{2026}");
    assert_eq!(truncate_ssid("ab", 1), "\u{2026}");
}

#[test]
fn live_module_placeholders() {
    assert_eq!(get_volume_percent(), Some((0, true)));
    assert_eq!(get_brightness_percent(), None);
    assert!(get_wifi_info().is_none());
}

#[test]
fn hex_color_parsing() {
    assert_eq!(hex_to_rgb("#ff8000"), Some((255, 128, 0)));
    assert_eq!(hex_to_rgb("00FF7f"), Some((0, 255, 127)));
    assert_eq!(hex_to_rgb("##123456"), Some((0x12, 0x34, 0x56)));
    assert_eq!(hex_to_rgb("#fff"), None);
    assert_eq!(hex_to_rgb("#gg0000"), None);
    assert_eq!(hex_to_rgb(""), None);
}

#[test]
fn string_equality_helper() {
    assert!(str_eq("abc", "abc"));
    assert!(!str_eq("abc", "abd"));
    assert!(!str_eq("abc", "ab"));
    assert!(str_eq("", ""));
}

#[test]
fn key_code_copy() {
    let v = vec![1u16, 2, 3];
    assert_eq!(copy_key_codes(&v), v);
}

#[test]
fn esc_prepended_on_wide_panels() {
    let keys = vec![text_cfg("a", None)];
    let narrow = maybe_prepend_esc(keys, 2000);
    assert_eq!(narrow.len(), 1);
    let wide = maybe_prepend_esc(narrow, 2170);
    assert_eq!(wide.len(), 2);
    assert_eq!(wide[0].text.as_deref(), Some("esc"));
    assert_eq!(wide[0].action, vec![ESC_KEY_CODE]);
}

#[test]
fn default_info_template() {
    let d = default_info_layer_keys();
    assert_eq!(d.len(), 3);
    assert_eq!(d[0].niri_workspaces, Some(true));
    assert_eq!(d[1].niri_window_title, Some(true));
    assert_eq!(d[1].stretch, Some(6));
    assert_eq!(d[2].time.as_deref(), Some("%a %b %d %I:%M:%S %p"));
    assert_eq!(d[2].stretch, Some(4));
}

#[test]
fn assemble_three_layers() {
    let primary = vec![text_cfg("F1", None), text_cfg("F2", None)];
    let media = vec![text_cfg("play", None)];
    let layers = assemble_layers(primary, None, media, 2008, None).unwrap();
    assert_eq!(layers.len(), 3);
    assert_eq!(layers[0].buttons.len(), 2);
    assert_eq!(layers[1].buttons.len(), 3);
    assert_eq!(layers[1].source_config.len(), 3);
    assert_eq!(layers[2].buttons.len(), 1);
}

#[test]
fn geometry_exact_values() {
    // 4 units over 416 px with 16 px gaps: unit numerator 368, pitch 432.
    let (l0, w0) = button_geometry(0, 1, 4, 416, 0, 16);
    assert_eq!((l0, w0), (0, 92));
    let (l1, w1) = button_geometry(1, 2, 4, 416, 0, 16);
    assert_eq!((l1, w1), (108, 92));
    let (l13, w13) = button_geometry(1, 3, 4, 416, 0, 16);
    assert_eq!(l13, 108);
    assert_eq!(w13, (368 + 432) / 4);
    assert!(l13 + w13 <= 416);
}

fn four_button_layer() -> FunctionLayer {
    let cfgs = vec![
        text_cfg("a", None),
        text_cfg("b", None),
        text_cfg("c", None),
        text_cfg("d", None),
    ];
    FunctionLayer::with_config(&cfgs, None).unwrap()
}

#[test]
fn hit_inside_button() {
    let layer = four_button_layer();
    // button 1 spans pixels 108..=200
    assert_eq!(layer.hit(416, 60, 150, 30, None), Some(1));
    assert_eq!(layer.hit(416, 60, 109, 30, None), Some(1));
    assert_eq!(layer.hit(416, 60, 199, 30, None), Some(1));
}

#[test]
fn hit_rejects_gaps_band_and_unclickable() {
    let layer = four_button_layer();
    // x=105 falls in the gap before button 1
    assert_eq!(layer.hit(416, 60, 105, 30, None), None);
    // outside the 10%-90% vertical band
    assert_eq!(layer.hit(416, 60, 150, 2, None), None);
    assert_eq!(layer.hit(416, 60, 150, 59, None), None);

    let cfgs = vec![text_cfg("a", None), {
        let mut c = empty_button_config();
        c.time = Some("%H:%M".to_string());
        c
    }];
    let with_clock = FunctionLayer::with_config(&cfgs, None).unwrap();
    // the clock is not clickable; its half of a 416 px panel rejects
    assert_eq!(with_clock.hit(416, 60, 300, 30, None), None);
}

#[test]
fn hit_pinned_revalidates_same_button_only() {
    let layer = four_button_layer();
    // drifting into button 2's pixels while pinned to button 1 is a miss
    assert_eq!(layer.hit(416, 60, 250, 30, Some(1)), None);
    assert_eq!(layer.hit(416, 60, 150, 30, Some(1)), Some(1));
    assert_eq!(layer.hit(416, 60, 150, 30, Some(9)), None);
}

#[test]
fn title_fit_verbatim_and_truncated() {
    let widths = vec![0u64, 10, 20, 30, 40, 50];
    assert_eq!(fit_title(&widths, 5, 50), TitleFit::Verbatim);
    // longest prefix with width + 5 <= 33 is two characters (20 + 5)
    assert_eq!(fit_title(&widths, 5, 33), TitleFit::Truncated(2));
    assert_eq!(fit_title(&widths, 5, 44), TitleFit::Truncated(3));
    // not even the ellipsis fits
    assert_eq!(fit_title(&widths, 60, 40), TitleFit::Truncated(0));
}

#[test]
fn plan_draw_complete_redraw() {
    let mut layer = four_button_layer();
    let (ops, rects) = layer.plan_draw(416, 60, 0, 0, true, true);
    assert_eq!(ops.len(), 4);
    assert_eq!(rects.len(), 1);
    assert_eq!((rects[0].x1, rects[0].y1, rects[0].x2, rects[0].y2), (0, 0, 60, 416));
    assert!(layer.buttons.iter().all(|(_, b)| !b.changed));
    assert_eq!(ops[1].left_edge, 108);
    assert_eq!(ops[1].width, 92);
}

#[test]
fn plan_draw_incremental_only_changed() {
    let mut layer = four_button_layer();
    let _ = layer.plan_draw(416, 60, 0, 0, true, true);
    layer.buttons[2].1.changed = true;
    let (ops, rects) = layer.plan_draw(416, 60, 0, 0, true, false);
    assert_eq!(ops.len(), 1);
    assert_eq!(ops[0].index, 2);
    assert_eq!(rects.len(), 1);
    // height 60: band 9..51 widened by the 8 px corner radius
    assert_eq!(rects[0].x1, 60 - 51 - 8);
    assert_eq!(rects[0].x2, 60 - 9 + 8);
    assert_eq!(rects[0].y1, ops[0].left_edge as u16);
    assert_eq!(rects[0].y2, (ops[0].left_edge + ops[0].width as i64) as u16);
    assert!(!layer.buttons[2].1.changed);
}

#[test]
fn plan_draw_applies_pixel_shift() {
    let mut layer = four_button_layer();
    let (ops, _) = layer.plan_draw(416, 60, 3, 16, true, true);
    // margin 16: numerator 352, pitch 416; shifted by 3 + 16/2
    assert_eq!(ops[0].left_edge, 0 + 3 + 8);
    assert_eq!(ops[1].left_edge, (416 / 4) + 3 + 8);
}

fn two_layer_state() -> UiState {
    let l1 = four_button_layer();
    let l2 = four_button_layer();
    UiState::new(vec![l1, l2])
}

#[test]
fn fn_tap_advances_cycle() {
    let mut s = two_layer_state();
    s.needs_complete_redraw = false;
    s.handle_fn_key(true, 1000);
    // peeking shows the last layer immediately
    assert_eq!(s.active_layer, 1);
    assert!(s.needs_complete_redraw);
    s.handle_fn_key(false, 1299);
    assert_eq!(s.fn_tap_layer, 1);
    assert_eq!(s.active_layer, 1);
    // a second tap wraps around
    s.handle_fn_key(true, 2000);
    s.handle_fn_key(false, 2100);
    assert_eq!(s.fn_tap_layer, 0);
    assert_eq!(s.active_layer, 0);
}

#[test]
fn fn_hold_keeps_cycle_position() {
    let mut s = two_layer_state();
    s.handle_fn_key(true, 1000);
    assert_eq!(s.active_layer, 1);
    s.handle_fn_key(false, 1300);
    // held for the full threshold: back to the cycle position, no advance
    assert_eq!(s.fn_tap_layer, 0);
    assert_eq!(s.active_layer, 0);
    assert!(s.needs_complete_redraw);
}

#[test]
fn touch_down_binds_and_presses() {
    let mut s = two_layer_state();
    let (hit, action) = s.handle_touch_down(7, 150, 30, 416, 60);
    assert_eq!(hit, Some(1));
    match action {
        Some(TouchAction::ToggleKeys(_, down)) => assert!(down),
        _ => panic!("expected a key press"),
    }
    assert!(s.layers[0].buttons[1].1.active);
}

#[test]
fn touch_motion_revalidates_bound_button() {
    let mut s = two_layer_state();
    let _ = s.handle_touch_down(7, 150, 30, 416, 60);
    // drift over the neighbour: the bound button releases, nothing else
    // activates
    let out = s.handle_touch_motion(7, 250, 30, 416, 60);
    match out {
        Some(TouchAction::ToggleKeys(_, down)) => assert!(!down),
        _ => panic!("expected a key release"),
    }
    assert!(!s.layers[0].buttons[1].1.active);
    assert!(!s.layers[0].buttons[2].1.active);
    // drifting back re-activates the same button
    let back = s.handle_touch_motion(7, 150, 30, 416, 60);
    match back {
        Some(TouchAction::ToggleKeys(_, down)) => assert!(down),
        _ => panic!("expected a key press"),
    }
    assert!(s.layers[0].buttons[1].1.active);
}

#[test]
fn touch_up_clears_binding() {
    let mut s = two_layer_state();
    let _ = s.handle_touch_down(7, 150, 30, 416, 60);
    let out = s.handle_touch_up(7);
    match out {
        Some(TouchAction::ToggleKeys(_, down)) => assert!(!down),
        _ => panic!("expected a key release"),
    }
    assert!(!s.layers[0].buttons[1].1.active);
    // the slot is unbound now: further motion does nothing
    assert!(s.handle_touch_motion(7, 150, 30, 416, 60).is_none());
    assert!(s.handle_touch_up(7).is_none());
}

#[test]
fn unknown_touch_slot_ignored() {
    let mut s = two_layer_state();
    assert!(s.handle_touch_motion(3, 150, 30, 416, 60).is_none());
    assert!(s.handle_touch_up(3).is_none());
}

#[test]
fn periodic_marking_and_redraw_decision() {
    let cfgs = vec![
        {
            let mut c = empty_button_config();
            c.battery = Some("both".to_string());
            c
        },
        {
            let mut c = empty_button_config();
            c.volume = Some(true);
            c
        },
        text_cfg("a", None),
    ];
    let mut layer = FunctionLayer::with_config(&cfgs, Some("BAT0")).unwrap();
    let _ = layer.plan_draw(416, 60, 0, 0, true, true);
    assert!(!needs_redraw(&layer, false));
    mark_battery_changed(&mut layer);
    assert!(layer.buttons[0].1.changed);
    assert!(!layer.buttons[2].1.changed);
    assert!(needs_redraw(&layer, false));
    let _ = layer.plan_draw(416, 60, 0, 0, true, false);
    mark_live_changed(&mut layer);
    assert!(layer.buttons[1].1.changed);
    assert!(!layer.buttons[0].1.changed);
    assert!(needs_redraw(&layer, false));
    assert!(needs_redraw(&layer, true));
}

#[test]
fn invalid_time_format_is_fatal() {
    assert!(Button::new_time(vec![], "%!", None).is_none());
    assert!(Button::new_time(vec![], "%H:%M", None).is_some());
}

#[test]
fn touch_down_miss_changes_nothing() {
    let mut s = two_layer_state();
    // the gap between buttons 0 and 1 strikes nothing
    let (hit, action) = s.handle_touch_down(7, 105, 30, 416, 60);
    assert_eq!(hit, None);
    assert!(action.is_none());
    assert!(s.layers[0].buttons.iter().all(|(_, b)| !b.active));
    // and no binding was made: a release on that slot is a no-op
    assert!(s.handle_touch_up(7).is_none());
}

#[test]
fn time_locale_kept_only_when_known() {
    let b = Button::new_time(vec![], "%H:%M", Some("en_US")).unwrap();
    match b.image {
        ButtonImage::Time { ref locale, .. } => assert_eq!(locale.as_deref(), Some("en_US")),
        _ => panic!("expected a clock"),
    }
    let b2 = Button::new_time(vec![], "%H:%M", Some("no_such_locale_ZZ")).unwrap();
    match b2.image {
        ButtonImage::Time { ref locale, .. } => assert_eq!(locale.as_deref(), None),
        _ => panic!("expected a clock"),
    }
}

#[test]
fn time_alias_expansion_is_stored() {
    let b = Button::new_time(vec![], "24hr", None).unwrap();
    match b.image {
        ButtonImage::Time { ref format, .. } => assert_eq!(format, "%H:%M    %a %-e %b"),
        _ => panic!("expected a clock"),
    }
}

#[test]
fn empty_primary_layer_fails_assembly() {
    let media = vec![text_cfg("play", None)];
    assert!(assemble_layers(vec![], None, media, 2008, None).is_none());
}

#[test]
fn title_fit_exact_boundary() {
    let widths = vec![0u64, 10, 20];
    assert_eq!(fit_title(&widths, 4, 20), TitleFit::Verbatim);
    assert_eq!(fit_title(&widths, 4, 19), TitleFit::Truncated(1));
    assert_eq!(fit_title(&widths, 4, 14), TitleFit::Truncated(1));
    assert_eq!(fit_title(&widths, 4, 13), TitleFit::Truncated(0));
}

#[test]
fn wait_timeout_takes_the_minimum() {
    assert_eq!(next_timeout_ms(30, 10_000, None), 10_000);
    assert_eq!(next_timeout_ms(55, 10_000, None), 5_000);
    assert_eq!(next_timeout_ms(55, 10_000, Some(2_000)), 2_000);
    assert_eq!(next_timeout_ms(55, 10_000, Some(8_000)), 5_000);
    assert_eq!(next_timeout_ms(0, 10_000, None), 10_000);
}
