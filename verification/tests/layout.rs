use spinup::app_state::AppState;
use spinup::codec::{layout_label, ChannelLayout, SoundFileCodecData};
use spinup::layout::{
    decimal, info_lines, list_title, plan_layout, status_line, title_text, Rect, ScreenLayout,
    StatusLine, WIDTH_INFO_PANE,
};
use spinup::playback::TransportState;

#[test]
fn layout_with_information_pane() {
    assert_eq!(
        plan_layout(80, 24, true),
        ScreenLayout {
            title: Rect { x: 0, y: 0, width: 80, height: 1 },
            list: Rect { x: 0, y: 1, width: 55, height: 22 },
            status: Rect { x: 0, y: 23, width: 80, height: 1 },
            info: Some(Rect { x: 55, y: 1, width: 25, height: 5 }),
        }
    );
}

#[test]
fn layout_without_file_selected() {
    assert_eq!(
        plan_layout(80, 24, false),
        ScreenLayout {
            title: Rect { x: 0, y: 0, width: 80, height: 1 },
            list: Rect { x: 0, y: 1, width: 80, height: 22 },
            status: Rect { x: 0, y: 23, width: 80, height: 1 },
            info: None,
        }
    );
}

#[test]
fn layout_of_a_narrow_screen_has_no_pane() {
    assert_eq!(WIDTH_INFO_PANE, 25);
    assert_eq!(plan_layout(50, 24, true).info, None);
    assert_eq!(plan_layout(50, 24, true).list.width, 50);
    assert_eq!(plan_layout(51, 24, true).info, Some(Rect { x: 26, y: 1, width: 25, height: 5 }));
    assert_eq!(plan_layout(51, 24, true).list.width, 26);
}

#[test]
fn information_pane_height_is_between_three_and_five() {
    assert_eq!(plan_layout(80, 3, true).info.unwrap().height, 3);
    assert_eq!(plan_layout(80, 5, true).info.unwrap().height, 3);
    assert_eq!(plan_layout(80, 6, true).info.unwrap().height, 4);
    assert_eq!(plan_layout(80, 7, true).info.unwrap().height, 5);
    assert_eq!(plan_layout(80, 200, true).info.unwrap().height, 5);
}

#[test]
fn layout_of_a_tiny_screen() {
    let none = plan_layout(0, 0, false);
    assert_eq!(none.list, Rect { x: 0, y: 1, width: 0, height: 0 });
    assert_eq!(none.status, Rect { x: 0, y: 0, width: 0, height: 1 });
    let one = plan_layout(10, 1, false);
    assert_eq!(one.list.height, 0);
    assert_eq!(one.status.y, 0);
    let two = plan_layout(10, 2, false);
    assert_eq!(two.list.height, 0);
    assert_eq!(two.status.y, 1);
}

#[test]
fn layout_of_the_greatest_screen() {
    let layout = plan_layout(u16::MAX, u16::MAX, true);
    assert_eq!(layout.list.width, u16::MAX - 25);
    assert_eq!(layout.list.height, u16::MAX - 2);
    assert_eq!(layout.status.y, u16::MAX - 1);
    assert_eq!(layout.info, Some(Rect { x: u16::MAX - 25, y: 1, width: 25, height: 5 }));
}

#[test]
fn decimal_digits_of_numbers() {
    assert_eq!(decimal(0), "0");
    assert_eq!(decimal(7), "7");
    assert_eq!(decimal(10), "10");
    assert_eq!(decimal(44100), "44100");
    assert_eq!(decimal(1_000_000), "1000000");
    assert_eq!(decimal(u32::MAX), "4294967295");
    for n in [1u32, 9, 11, 99, 100, 101, 12345, 987654321] {
        assert_eq!(decimal(n), n.to_string());
    }
}

#[test]
fn layout_labels() {
    assert_eq!(layout_label(ChannelLayout::Mono), "Mono");
    assert_eq!(layout_label(ChannelLayout::Stereo), "Stereo");
    assert_eq!(layout_label(ChannelLayout::TwoPointOne), "2.1");
    assert_eq!(layout_label(ChannelLayout::FivePointOne), "5.1");
}

#[test]
fn info_lines_show_what_is_known() {
    let all = SoundFileCodecData {
        sample_rate: Some(44100),
        bit_depth: Some(16),
        file_layout: Some(ChannelLayout::Stereo),
    };
    assert_eq!(info_lines(all), vec!["Sample Rate: 44100", "Bit Depth: 16", "Layout: Stereo"]);
    let some = SoundFileCodecData {
        sample_rate: Some(48000),
        bit_depth: None,
        file_layout: Some(ChannelLayout::FivePointOne),
    };
    assert_eq!(info_lines(some), vec!["Sample Rate: 48000", "Layout: 5.1"]);
    assert!(info_lines(SoundFileCodecData::absent()).is_empty());
}

#[test]
fn list_title_names_the_directory() {
    assert_eq!(list_title("/home/me/music"), "Dir: /home/me/music");
    assert_eq!(list_title(""), "Dir: ");
}

#[test]
fn status_is_blank_when_idle() {
    let state: AppState<u8> = AppState::new();
    assert_eq!(status_line(&state, TransportState::Stopped), StatusLine::Blank);
    assert_eq!(status_line(&state, TransportState::Playing), StatusLine::Blank);
}

#[test]
fn status_shows_progress_while_playing() {
    let mut state = AppState::new();
    state.sound_started(Ok(1u8), 5_000_000_000);
    assert_eq!(
        status_line(&state, TransportState::Playing),
        StatusLine::Progress { elapsed_millis: 0, total_millis: 5000 }
    );
    state.tick(TransportState::Playing, 1_234_567_890);
    assert_eq!(
        status_line(&state, TransportState::Playing),
        StatusLine::Progress { elapsed_millis: 1234, total_millis: 5000 }
    );
    assert_eq!(status_line(&state, TransportState::Paused), StatusLine::Blank);
    assert_eq!(status_line(&state, TransportState::Finished), StatusLine::Blank);
}

#[test]
fn status_holds_progress_at_the_end() {
    let mut state = AppState::new();
    state.sound_started(Ok(1u8), 1_000_000_000);
    state.tick(TransportState::Playing, 1_000_999_999);
    assert_eq!(
        status_line(&state, TransportState::Playing),
        StatusLine::Progress { elapsed_millis: 1000, total_millis: 1000 }
    );
    state.tick(TransportState::Playing, 1);
    assert_eq!(
        status_line(&state, TransportState::Playing),
        StatusLine::Progress { elapsed_millis: 1000, total_millis: 1000 }
    );
    state.tick(TransportState::Playing, 5_000_000_000);
    assert_eq!(
        status_line(&state, TransportState::Playing),
        StatusLine::Progress { elapsed_millis: 1000, total_millis: 1000 }
    );
    state.tick(TransportState::Playing, u128::MAX);
    assert_eq!(
        status_line(&state, TransportState::Playing),
        StatusLine::Progress { elapsed_millis: 1000, total_millis: 1000 }
    );
    assert_eq!(status_line(&state, TransportState::Finished), StatusLine::Blank);
}

#[test]
fn status_hides_progress_of_a_sound_without_length() {
    let mut state = AppState::new();
    state.sound_started(Ok(1u8), 999_999);
    assert_eq!(status_line(&state, TransportState::Playing), StatusLine::Blank);
}

#[test]
fn status_shows_a_failure_before_progress() {
    let mut state = AppState::new();
    state.sound_started(Ok(1u8), 5_000_000_000);
    state.directory_unresolved("gone");
    assert_eq!(
        status_line(&state, TransportState::Playing),
        StatusLine::Failure("Couldn't build path to selection: gone".to_string())
    );
    state.clear_error();
    assert_eq!(
        status_line(&state, TransportState::Playing),
        StatusLine::Progress { elapsed_millis: 0, total_millis: 5000 }
    );
}

#[test]
fn title_names_the_keys() {
    assert_eq!(
        title_text(),
        "spinup:  (j)down | (k)up | (space) play or navigate dir | ((bksp)stop | (q)quit"
    );
}
