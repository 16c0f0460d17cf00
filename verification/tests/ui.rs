use rgbcal::{Change, Idle, Knob, Rgbfps, Ui, UiState, BLUE, GREEN, RED};

// A reading of 4000 has level 5: 18 * 4000 / 10000 - 2 = 5.2.
const READING_OF_LEVEL_5: i16 = 4000;

#[test]
fn new_input_loop_holds_the_defaults() {
    let ui = Ui::new(Knob::new(), Idle::Hold);
    assert_eq!(ui.state().levels(), [15, 15, 15]);
    assert_eq!(ui.state().frame_rate(), 100);
    let ui = Ui::new(Knob::new(), Idle::FrameRate);
    assert_eq!(ui.state().levels(), [15, 15, 15]);
    assert_eq!(ui.state().frame_rate(), 100);
}

#[test]
fn default_state_is_full_brightness_at_rate_100() {
    let state = UiState::default();
    assert_eq!(state.levels(), [15, 15, 15]);
    assert_eq!(state.frame_rate(), 100);
}

#[test]
fn show_prints_levels_and_frame_rate() {
    let state = UiState::default();
    assert_eq!(state.show(), "\nred: 15\ngreen: 15\nblue: 15\nframe rate: 100\n");
}

#[test]
fn button_a_alone_sets_blue() {
    let mut ui = Ui::new(Knob::new(), Idle::Hold);
    let mut shared = Rgbfps::new();
    assert_eq!(shared.get_rgb_levels(), [15, 15, 15]);
    assert_eq!(shared.get_frame_rate(), 100);
    assert_eq!(Knob::new().measure(READING_OF_LEVEL_5), 5);

    let change: Option<Change> = ui.run(READING_OF_LEVEL_5, true, false);
    let change: Change = change.expect("the blue level changed");
    assert_eq!(change.status, "\nred: 15\ngreen: 15\nblue: 5\nframe rate: 100\n");
    assert_eq!(change.levels, Some([15, 15, 5]));
    assert_eq!(change.frame_rate, None);
    assert_eq!(ui.state().levels(), [15, 15, 5]);
    assert_eq!(ui.state().frame_rate(), 100);

    change.apply(&mut shared);
    assert_eq!(shared.get_rgb_levels(), [15, 15, 5]);
    assert_eq!(shared.get_frame_rate(), 100);
}

#[test]
fn neither_button_leaves_everything_alone() {
    let mut ui = Ui::new(Knob::new(), Idle::Hold);
    assert!(ui.run(0, false, false).is_none());
    assert!(ui.run(READING_OF_LEVEL_5, false, false).is_none());
    assert!(ui.run(0x7fff, false, false).is_none());
    assert!(ui.run(-7, false, false).is_none());
    assert_eq!(ui.state().levels(), [15, 15, 15]);
    assert_eq!(ui.state().frame_rate(), 100);
}

#[test]
fn both_buttons_set_red_and_button_b_alone_sets_green() {
    let mut ui = Ui::new(Knob::new(), Idle::Hold);
    let change: Change = ui.run(0, true, true).expect("the red level changed");
    assert_eq!(change.levels, Some([0, 15, 15]));
    assert_eq!(change.frame_rate, None);
    assert_eq!(change.status, "\nred: 0\ngreen: 15\nblue: 15\nframe rate: 100\n");
    let change: Change = ui.run(READING_OF_LEVEL_5, false, true).expect("the green level changed");
    assert_eq!(change.levels, Some([0, 5, 15]));
    assert_eq!(change.status, "\nred: 0\ngreen: 5\nblue: 15\nframe rate: 100\n");
    assert_eq!(ui.state().levels(), [0, 5, 15]);
}

#[test]
fn unchanged_level_publishes_nothing() {
    let mut ui = Ui::new(Knob::new(), Idle::Hold);
    assert!(ui.run(READING_OF_LEVEL_5, true, false).is_some());
    assert!(ui.run(READING_OF_LEVEL_5, true, false).is_none());
    // Another reading of the same level.
    assert!(ui.run(READING_OF_LEVEL_5 + 100, true, false).is_none());
    assert_eq!(ui.state().levels(), [15, 15, 5]);
    // The level that red and green hold since the loop was made.
    assert!(ui.run(0x7fff, true, true).is_none());
    assert!(ui.run(0x7fff, false, true).is_none());
    assert_eq!(ui.state().levels(), [15, 15, 5]);
}

#[test]
fn every_change_is_published_once() {
    let mut ui = Ui::new(Knob::new(), Idle::Hold);
    let mut shared = Rgbfps::new();
    let mut published: u32 = 0;
    let mut raw: i16 = 0;
    while raw < 10_000 {
        let before: [u32; 3] = ui.state().levels();
        let change: Option<Change> = ui.run(raw, true, true);
        let after: [u32; 3] = ui.state().levels();
        assert_eq!(change.is_some(), before != after);
        if let Some(change) = change {
            published += 1;
            change.apply(&mut shared);
        }
        assert_eq!(shared.get_rgb_levels(), after);
        raw += 1;
    }
    // From level 15 down to 0 at the first reading, then up through 1 to 15.
    assert_eq!(published, 16);
}

#[test]
fn start_sets_every_channel_and_always_publishes() {
    let mut ui = Ui::new(Knob::new(), Idle::Hold);
    let mut shared = Rgbfps::new();
    let change: Change = ui.start(READING_OF_LEVEL_5);
    assert_eq!(change.levels, Some([5, 5, 5]));
    assert_eq!(change.frame_rate, None);
    assert_eq!(change.status, "\nred: 5\ngreen: 5\nblue: 5\nframe rate: 100\n");
    assert_eq!(ui.state().levels(), [5, 5, 5]);
    assert_eq!(ui.state().frame_rate(), 100);
    change.apply(&mut shared);
    assert_eq!(shared.get_rgb_levels(), [5, 5, 5]);
    assert_eq!(shared.get_frame_rate(), 100);

    let mut ui = Ui::new(Knob::new(), Idle::Hold);
    let change: Change = ui.start(0x7fff);
    assert_eq!(change.levels, Some([15, 15, 15]));
    assert_eq!(change.status, "\nred: 15\ngreen: 15\nblue: 15\nframe rate: 100\n");
}

#[test]
fn start_sets_the_frame_rate_where_idle_readings_do() {
    let mut ui = Ui::new(Knob::new(), Idle::FrameRate);
    let mut shared = Rgbfps::new();
    let change: Change = ui.start(READING_OF_LEVEL_5);
    assert_eq!(change.levels, Some([5, 5, 5]));
    assert_eq!(change.frame_rate, Some(60));
    assert_eq!(change.status, "\nred: 5\ngreen: 5\nblue: 5\nframe rate: 60\n");
    assert_eq!(ui.state().frame_rate(), 60);
    change.apply(&mut shared);
    assert_eq!(shared.get_rgb_levels(), [5, 5, 5]);
    assert_eq!(shared.get_frame_rate(), 60);
}

#[test]
fn idle_reading_sets_the_frame_rate_where_asked() {
    let mut ui = Ui::new(Knob::new(), Idle::FrameRate);
    let mut shared = Rgbfps::new();
    let change: Change = ui.run(0, false, false).expect("the frame rate changed");
    assert_eq!(change.levels, None);
    assert_eq!(change.frame_rate, Some(10));
    assert_eq!(change.status, "\nred: 15\ngreen: 15\nblue: 15\nframe rate: 10\n");
    change.apply(&mut shared);
    assert_eq!(shared.get_rgb_levels(), [15, 15, 15]);
    assert_eq!(shared.get_frame_rate(), 10);
    assert!(ui.run(0, false, false).is_none());
    let change: Change = ui.run(0x7fff, false, false).expect("the frame rate changed");
    assert_eq!(change.frame_rate, Some(160));
    assert_eq!(ui.state().frame_rate(), 160);
    assert_eq!(ui.state().levels(), [15, 15, 15]);
    // With a button pressed the frame rate stays.
    let change: Change = ui.run(0, true, false).expect("the blue level changed");
    assert_eq!(change.frame_rate, None);
    assert_eq!(ui.state().frame_rate(), 160);
}

#[test]
fn idle_reading_of_the_held_frame_rate_publishes_nothing() {
    let mut ui = Ui::new(Knob::new(), Idle::FrameRate);
    // Level 9 selects 100 frames per second, which the loop holds.
    assert_eq!(Knob::new().measure(6200), 9);
    assert!(ui.run(6200, false, false).is_none());
    assert_eq!(ui.state().frame_rate(), 100);
}

#[test]
fn update_led_changes_one_channel() {
    let mut ui = Ui::new(Knob::new(), Idle::Hold);
    let change: Change = ui.update_led(3, GREEN).expect("the green level changed");
    assert_eq!(change.levels, Some([15, 3, 15]));
    assert_eq!(change.frame_rate, None);
    assert_eq!(change.status, "\nred: 15\ngreen: 3\nblue: 15\nframe rate: 100\n");
    assert!(ui.update_led(3, GREEN).is_none());
    assert!(ui.update_led(15, RED).is_none());
    assert!(ui.update_led(15, BLUE).is_none());
    assert!(ui.update_led(0, RED).is_some());
    assert!(ui.update_led(0, BLUE).is_some());
    assert_eq!(ui.state().levels(), [0, 3, 0]);
}

#[test]
fn update_frame_rate_is_ten_per_level_step() {
    let mut ui = Ui::new(Knob::new(), Idle::Hold);
    let mut level: u64 = 0;
    while level < 16 {
        let before: u64 = ui.state().frame_rate();
        let change: Option<Change> = ui.update_frame_rate(level);
        assert_eq!(ui.state().frame_rate(), 10 * (level + 1));
        assert_eq!(change.is_some(), before != 10 * (level + 1));
        if let Some(change) = change {
            assert_eq!(change.levels, None);
            assert_eq!(change.frame_rate, Some(10 * (level + 1)));
        }
        level += 1;
    }
    assert_eq!(ui.state().frame_rate(), 160);
    assert_eq!(ui.state().levels(), [15, 15, 15]);
}

#[test]
fn apply_writes_only_what_the_change_carries() {
    let mut shared = Rgbfps::new();
    let change = Change { status: String::new(), levels: None, frame_rate: None };
    change.apply(&mut shared);
    assert_eq!(shared.get_rgb_levels(), [15, 15, 15]);
    assert_eq!(shared.get_frame_rate(), 100);
    let change = Change { status: String::new(), levels: Some([1, 2, 3]), frame_rate: None };
    change.apply(&mut shared);
    assert_eq!(shared.get_rgb_levels(), [1, 2, 3]);
    assert_eq!(shared.get_frame_rate(), 100);
    let change = Change { status: String::new(), levels: None, frame_rate: Some(20) };
    change.apply(&mut shared);
    assert_eq!(shared.get_rgb_levels(), [1, 2, 3]);
    assert_eq!(shared.get_frame_rate(), 20);
    let change = Change { status: String::new(), levels: Some([4, 5, 6]), frame_rate: Some(30) };
    change.apply(&mut shared);
    assert_eq!(shared.get_rgb_levels(), [4, 5, 6]);
    assert_eq!(shared.get_frame_rate(), 30);
}

#[test]
fn published_levels_are_what_the_renderer_shows() {
    let mut ui = Ui::new(Knob::new(), Idle::Hold);
    let mut shared = Rgbfps::new();
    let mut rgb = rgbcal::Rgb::new(shared.get_frame_rate());
    ui.start(0).apply(&mut shared);
    if let Some(change) = ui.run(0x7fff, true, true) {
        change.apply(&mut shared);
    }
    let levels: [u32; 3] = shared.get_rgb_levels();
    assert!(rgbcal::levels::levels_valid(&levels));
    let frame = rgb.run(levels);
    assert_eq!(frame[RED].on_micros, 15 * 208);
    assert!(!frame[GREEN].lit);
    assert!(!frame[BLUE].lit);
}
