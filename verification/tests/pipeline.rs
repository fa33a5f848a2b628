use embedded_graphics::prelude::IntoStorage;
use embedded_graphics::pixelcolor::WebColors;

use hbee::consts::{
    DISPLAY_HEIGHT, DISPLAY_WIDTH, ESP_ERR_INVALID_ARG, ESP_ERR_INVALID_STATE,
    FRONT_DISPLAY_CLOCK_HZ, RESTART_BACKOFF_SECS, TICK_INTERVAL_SECS,
};
use hbee::display::{intro_lines, show_intro, INTRO_BACKGROUND};
use hbee::supervisor::{
    run_bring_up, step, SupervisorAction, SupervisorEvent, SupervisorState,
};
use hbee::thingsup::{
    init_front_display, BringUpProbe, BusChannel, BusChannelConfig, BusMode, Rotation,
};
use hbee::types::{
    AppConfig, AppError, DeviceCondition, HBeePeripherals, PeripheralSet, SensorDataMessage,
    UIInitError,
};
use hbee::ui::{
    build_line_write, Health, PanelFrame, ScanlineRequest, SensorData, UILineRenderrer,
};

fn all_clear_probe() -> BringUpProbe {
    BringUpProbe { reset_pulse_fault: None, init_commands_ok: true, backlight_fault: None }
}

#[test]
fn rotation_geometry_matches_all_rotations() {
    // A quarter turn swaps the physical axes; none or a half turn keeps them.
    for (rot, w, h) in [
        (Rotation::Deg0, DISPLAY_HEIGHT, DISPLAY_WIDTH),
        (Rotation::Deg90, DISPLAY_WIDTH, DISPLAY_HEIGHT),
        (Rotation::Deg180, DISPLAY_HEIGHT, DISPLAY_WIDTH),
        (Rotation::Deg270, DISPLAY_WIDTH, DISPLAY_HEIGHT),
    ] {
        assert_eq!(rot.logical_width(DISPLAY_HEIGHT, DISPLAY_WIDTH), w);
        assert_eq!(rot.logical_height(DISPLAY_HEIGHT, DISPLAY_WIDTH), h);
    }
}

#[test]
fn sensor_regeneration_stays_in_range() {
    let mut msg = SensorDataMessage::new_random();
    for _ in 0..200 {
        let ec = msg.electrical_conductivity.expect("conductivity populated");
        assert!((1000..2000).contains(&ec));
        let sal = msg.solution_salinity.expect("salinity populated");
        assert!((1000..2000).contains(&sal));
        let ph = msg.power_of_hydrogen.expect("acidity populated");
        assert!((40..80).contains(&ph));
        let temp = msg.solution_temperature.expect("temperature populated");
        assert!((200..300).contains(&temp));
        assert!(msg.electrical_resistivity.is_none());
        assert!(msg.total_dissolved_solids.is_none());
        msg.regen_random();
    }
}

#[test]
fn absent_reading_never_reports_present() {
    // The presence flag is authoritative: an absent field shows a zero value
    // with a false flag, and a present zero-valued field shows a true flag.
    let msg = SensorDataMessage::default();
    let view = SensorData::from(&msg);
    assert!(!view.has_electrical_conductivity);
    assert!(!view.has_electrical_resistivity);
    assert!(!view.has_power_of_hydrogen);
    assert!(!view.has_solution_temperature);
    assert!(!view.has_total_dissolved_solids);
    assert!(!view.has_solution_salinity);
    assert_eq!(view.electrical_conductivity, 0);
    assert_eq!(view.solution_salinity, 0);

    let zeroed = SensorDataMessage {
        electrical_conductivity: Some(0),
        electrical_resistivity: None,
        power_of_hydrogen: Some(0),
        solution_temperature: None,
        total_dissolved_solids: None,
        solution_salinity: None,
    };
    let view = SensorData::from(&zeroed);
    assert!(view.has_electrical_conductivity);
    assert_eq!(view.electrical_conductivity, 0);
    assert!(view.has_power_of_hydrogen);
    assert_eq!(view.power_of_hydrogen, 0);
    assert!(!view.has_solution_temperature);
}

#[test]
fn health_view_mirrors_presence() {
    let cond = DeviceCondition { gsm_signal_strength: Some(-73), battery_level: None };
    let health = Health::from(&cond);
    assert!(health.has_gsm_signal_strength);
    assert_eq!(health.gsm_signal_strength, -73);
    assert!(!health.has_battery_level);
    assert_eq!(health.battery_level, 0);

    let empty = DeviceCondition::default();
    let health = Health::from(&empty);
    assert!(!health.has_gsm_signal_strength);
    assert!(!health.has_battery_level);
}

#[test]
fn second_take_fails_deterministically() {
    let mut set = PeripheralSet::new();
    let first = set.take();
    assert!(first.is_ok());
    let p = first.unwrap();
    assert_eq!(p.gpio9.id, 9);
    assert_eq!(p.gpio4.id, 4);
    assert_eq!(p.gpio14.id, 14);
    for _ in 0..3 {
        let again = set.take();
        assert_eq!(again.unwrap_err(), AppError::EspError(ESP_ERR_INVALID_STATE));
    }
}

#[test]
fn capability_maps_functions_to_hardwired_pins() {
    let mut set = PeripheralSet::new();
    let p = set.take().unwrap();
    let periph = HBeePeripherals::from(p);
    let fd = &periph.front_display;
    assert_eq!(fd.pin_cs.id, 10);
    assert_eq!(fd.pin_reset.id, 9);
    assert_eq!(fd.pin_dc.id, 4);
    assert_eq!(fd.pin_mosi.id, 11);
    assert_eq!(fd.pin_clk.id, 12);
    assert_eq!(fd.pin_miso.id, 13);
    assert_eq!(fd.pin_backlight.id, 14);
    assert_eq!(fd.spi, 2);
}

fn front_display_block() -> hbee::types::FrontDisplayBlock {
    let mut set = PeripheralSet::new();
    HBeePeripherals::from(set.take().unwrap()).front_display
}

#[test]
fn bus_open_validates_clock_and_mode() {
    let block = front_display_block();
    let too_fast = BusChannelConfig { clock_hz: 80_000_000, mode: BusMode::Mode0 };
    assert_eq!(
        BusChannel::open(&block, &too_fast, None).unwrap_err(),
        AppError::EspError(ESP_ERR_INVALID_ARG)
    );
    let wrong_mode = BusChannelConfig { clock_hz: FRONT_DISPLAY_CLOCK_HZ, mode: BusMode::Mode3 };
    assert_eq!(
        BusChannel::open(&block, &wrong_mode, None).unwrap_err(),
        AppError::EspError(ESP_ERR_INVALID_ARG)
    );
    let good = BusChannelConfig::front_display();
    assert_eq!(BusChannel::open(&block, &good, Some(7)).unwrap_err(), AppError::EspError(7));
    let ch = BusChannel::open(&block, &good, None).unwrap();
    assert_eq!(ch.config.clock_hz, FRONT_DISPLAY_CLOCK_HZ);
    assert_eq!(ch.pin_dc.id, 4);
    assert_eq!(ch.pin_clk.id, 12);
}

#[test]
fn bring_up_all_clear_yields_rotated_handle() {
    let block = front_display_block();
    let handle = init_front_display(&block, None, &all_clear_probe()).unwrap();
    assert_eq!(handle.rotation, Rotation::Deg90);
    assert_eq!(handle.width, DISPLAY_WIDTH);
    assert_eq!(handle.height, DISPLAY_HEIGHT);
    assert!(handle.backlight_on);
    assert_eq!(handle.pin_reset.id, 9);
    assert_eq!(handle.bus.pin_dc.id, 4);
}

#[test]
fn bring_up_classifies_faults_in_handshake_order() {
    let block = front_display_block();
    // A pin-level fault during the reset pulse surfaces its code verbatim.
    let probe = BringUpProbe {
        reset_pulse_fault: Some(-42),
        init_commands_ok: false,
        backlight_fault: Some(3),
    };
    assert_eq!(
        init_front_display(&block, None, &probe).unwrap_err(),
        AppError::EspError(-42)
    );
    // A controller protocol fault collapses to the generic invalid-state code.
    let probe = BringUpProbe {
        reset_pulse_fault: None,
        init_commands_ok: false,
        backlight_fault: Some(3),
    };
    assert_eq!(
        init_front_display(&block, None, &probe).unwrap_err(),
        AppError::EspError(ESP_ERR_INVALID_STATE)
    );
    // A backlight drive fault surfaces its code verbatim.
    let probe = BringUpProbe {
        reset_pulse_fault: None,
        init_commands_ok: true,
        backlight_fault: Some(11),
    };
    assert_eq!(init_front_display(&block, None, &probe).unwrap_err(), AppError::EspError(11));
    // A bus-open fault wins over everything after it.
    assert_eq!(
        init_front_display(&block, Some(5), &all_clear_probe()).unwrap_err(),
        AppError::EspError(5)
    );
}

fn renderer(width: u16, height: u16) -> UILineRenderrer {
    UILineRenderrer {
        display: PanelFrame::new(width, height),
        line_buffer: vec![0u16; width as usize],
        draw_faults: 0,
    }
}

#[test]
fn full_width_line_write_matches_request_exactly() {
    let width: u16 = 320;
    let mut r = renderer(width, 240);
    let pattern: Vec<u16> =
        (0..width).map(|i| if i % 2 == 0 { 0xa5a5 } else { 0x5a5a }).collect();
    let req = ScanlineRequest { row: 7, col_start: 0, pixels: pattern.clone() };

    // The bounded write's rectangle matches the requested row and range, and
    // every pixel survives the 16-bit reinterpretation bit-identically.
    let w = build_line_write(req.row, req.col_start, &req.pixels);
    assert_eq!((w.x, w.y, w.width, w.height), (0, 7, width, 1));
    for (i, c) in w.pixels.iter().enumerate() {
        assert_eq!(c.into_storage(), pattern[i]);
    }

    r.process_line(&req, true);
    for x in 0..width {
        assert_eq!(r.display.word(x, 7), pattern[x as usize]);
    }
    // Neighbouring rows are untouched.
    for x in 0..width {
        assert_eq!(r.display.word(x, 6), 0);
        assert_eq!(r.display.word(x, 8), 0);
    }
    assert_eq!(r.draw_faults, 0);
}

#[test]
fn partial_range_line_write_lands_at_offset() {
    let mut r = renderer(16, 4);
    let req = ScanlineRequest { row: 2, col_start: 5, pixels: vec![0x1234, 0xffff, 0x0001] };
    r.process_line(&req, true);
    assert_eq!(r.display.word(5, 2), 0x1234);
    assert_eq!(r.display.word(6, 2), 0xffff);
    assert_eq!(r.display.word(7, 2), 0x0001);
    assert_eq!(r.display.word(4, 2), 0);
    assert_eq!(r.display.word(8, 2), 0);
}

#[test]
fn failed_line_does_not_abort_the_frame() {
    let mut r = renderer(8, 3);
    let requests = vec![
        ScanlineRequest { row: 0, col_start: 0, pixels: vec![0x1111; 8] },
        ScanlineRequest { row: 1, col_start: 0, pixels: vec![0x2222; 8] },
        ScanlineRequest { row: 2, col_start: 0, pixels: vec![0x3333; 8] },
    ];
    let bus_ok = vec![true, false, true];
    r.render_frame(&requests, &bus_ok);
    // The refused middle line left its row untouched; both its neighbours
    // rendered.
    for x in 0..8 {
        assert_eq!(r.display.word(x, 0), 0x1111);
        assert_eq!(r.display.word(x, 1), 0);
        assert_eq!(r.display.word(x, 2), 0x3333);
    }
    assert_eq!(r.draw_faults, 1);
}

#[test]
fn supervisor_faults_then_restarts_after_backoff() {
    let err = AppError::EspError(ESP_ERR_INVALID_STATE);
    let (s1, a1) = step(SupervisorState::Starting, SupervisorEvent::BringUpFailed(err));
    assert_eq!(s1, SupervisorState::Faulted(err));
    assert_eq!(a1, Some(SupervisorAction::LogFault(err, RESTART_BACKOFF_SECS)));

    let (s2, a2) = step(s1, SupervisorEvent::FaultLogged);
    assert_eq!(s2, SupervisorState::Restarting);
    assert_eq!(a2, Some(SupervisorAction::WaitBackoff(RESTART_BACKOFF_SECS)));

    // Before the backoff elapsed, nothing restarts and nothing re-enters
    // bring-up.
    for e in [
        SupervisorEvent::BringUpSucceeded,
        SupervisorEvent::TickCompleted,
        SupervisorEvent::FaultLogged,
    ] {
        let (s, a) = step(SupervisorState::Restarting, e);
        assert_eq!(s, SupervisorState::Restarting);
        assert_eq!(a, None);
    }

    let (s3, a3) = step(s2, SupervisorEvent::BackoffElapsed);
    assert_eq!(s3, SupervisorState::Restarting);
    assert_eq!(a3, Some(SupervisorAction::RestartDevice));
}

#[test]
fn supervisor_steady_state_ticks() {
    let (s, a) = step(SupervisorState::Starting, SupervisorEvent::BringUpSucceeded);
    assert_eq!(s, SupervisorState::Running);
    assert_eq!(a, Some(SupervisorAction::RenderAndSleep(TICK_INTERVAL_SECS)));
    let (s, a) = step(s, SupervisorEvent::TickCompleted);
    assert_eq!(s, SupervisorState::Running);
    assert_eq!(a, Some(SupervisorAction::RenderAndSleep(TICK_INTERVAL_SECS)));
}

#[test]
fn bring_up_composes_all_stages() {
    let mut set = PeripheralSet::new();
    let handle = run_bring_up(&mut set, None, &all_clear_probe(), Ok(())).unwrap();
    assert_eq!(handle.width, DISPLAY_WIDTH);
    assert_eq!(handle.height, DISPLAY_HEIGHT);

    // The consumed set fails the next attempt outright.
    assert_eq!(
        run_bring_up(&mut set, None, &all_clear_probe(), Ok(())).unwrap_err(),
        AppError::EspError(ESP_ERR_INVALID_STATE)
    );

    // A UI platform registration fault is fatal and re-classified.
    let mut set = PeripheralSet::new();
    assert_eq!(
        run_bring_up(&mut set, None, &all_clear_probe(), Err(UIInitError::SetPlatformError))
            .unwrap_err(),
        AppError::SetPlatformError
    );
}

#[test]
fn ui_error_classification() {
    assert_eq!(AppError::from(UIInitError::PlatformError), AppError::PlatformError);
    assert_eq!(AppError::from(UIInitError::SetPlatformError), AppError::SetPlatformError);
}

#[test]
fn intro_screen_clears_and_composes_text() {
    let config = AppConfig {
        serial_number: String::from("hb00000"),
        farm_codename: String::from("happy-farm"),
    };
    let lines = intro_lines(&config);
    assert_eq!(lines.len(), 3);
    assert_eq!(lines[0], "HBee");
    assert_eq!(lines[1], "Số sê-ri: hb00000");
    assert_eq!(lines[2], "Trang trại: happy-farm");

    let mut frame = PanelFrame::new(32, 16);
    let text = show_intro(&mut frame, &config);
    assert_eq!(text, "HBee\nSố sê-ri: hb00000\nTrang trại: happy-farm");
    for (x, y) in [(0u16, 0u16), (31, 15), (13, 7)] {
        assert_eq!(frame.word(x, y), INTRO_BACKGROUND);
    }
}

#[test]
fn intro_colors_match_the_css_palette() {
    assert_eq!(embedded_graphics::pixelcolor::Rgb565::CSS_GRAY.into_storage(), INTRO_BACKGROUND);
    assert_eq!(
        embedded_graphics::pixelcolor::Rgb565::CSS_CYAN.into_storage(),
        hbee::display::INTRO_TEXT_COLOR
    );
}

#[test]
fn region_fill_streams_row_major() {
    let mut frame = PanelFrame::new(8, 8);
    let patch = build_line_write(0, 0, &[0x0001, 0x0002, 0x0003, 0x0004, 0x0005, 0x0006]);
    // Re-shape the stream as a 3-wide, 2-high rectangle at (2, 5).
    let patch = hbee::ui::LineWrite { x: 2, y: 5, width: 3, height: 2, pixels: patch.pixels };
    frame.fill_region(&patch);
    assert_eq!(frame.word(2, 5), 0x0001);
    assert_eq!(frame.word(3, 5), 0x0002);
    assert_eq!(frame.word(4, 5), 0x0003);
    assert_eq!(frame.word(2, 6), 0x0004);
    assert_eq!(frame.word(3, 6), 0x0005);
    assert_eq!(frame.word(4, 6), 0x0006);
    assert_eq!(frame.word(1, 5), 0);
    assert_eq!(frame.word(5, 6), 0);
    assert_eq!(frame.word(2, 4), 0);
    assert_eq!(frame.word(2, 7), 0);
}

#[test]
fn window_system_sizes_to_the_logical_panel() {
    let window = hbee::ui::init_window(DISPLAY_WIDTH, DISPLAY_HEIGHT, Ok(())).unwrap();
    assert_eq!(window.display.width(), DISPLAY_WIDTH);
    assert_eq!(window.display.height(), DISPLAY_HEIGHT);
    assert_eq!(window.line_buffer.len(), DISPLAY_WIDTH as usize);
    assert_eq!(window.draw_faults, 0);

    let refused = hbee::ui::init_window(DISPLAY_WIDTH, DISPLAY_HEIGHT, Err(UIInitError::PlatformError));
    assert!(matches!(refused, Err(UIInitError::PlatformError)));
}

#[test]
fn tick_regenerates_and_renders() {
    let mut msg = SensorDataMessage::default();
    let mut renderer = hbee::ui::init_window(8, 2, Ok(())).unwrap();
    let requests = vec![
        ScanlineRequest { row: 0, col_start: 0, pixels: vec![0xbeef; 8] },
        ScanlineRequest { row: 1, col_start: 0, pixels: vec![0xcafe; 8] },
    ];
    let bus_ok = vec![true, true];
    let shown = hbee::supervisor::tick(&mut msg, &mut renderer, &requests, &bus_ok);
    assert!(shown.has_electrical_conductivity);
    assert!(shown.has_power_of_hydrogen);
    assert!(!shown.has_electrical_resistivity);
    assert_eq!(i32::from(msg.electrical_conductivity.unwrap()), shown.electrical_conductivity);
    for x in 0..8 {
        assert_eq!(renderer.display.word(x, 0), 0xbeef);
        assert_eq!(renderer.display.word(x, 1), 0xcafe);
    }
}
