use spinup::app_state::{key_of, Action, AppState, Key, KeyPress};
use spinup::codec::{ChannelLayout, SoundFileCodecData};
use spinup::failure::FailureKind;
use spinup::listing::{DirEntry, EntryKind};
use spinup::playback::TransportState;

fn state_entry(name: &str, kind: EntryKind) -> DirEntry {
    DirEntry { name: name.to_string(), kind }
}

fn music_entries() -> Vec<DirEntry> {
    vec![
        state_entry("b.wav", EntryKind::File),
        state_entry("A.mp3", EntryKind::File),
        state_entry("sub", EntryKind::Directory),
    ]
}

/// A state in `/music`, which lists `<DIR> ..`, `<DIR> sub`, `A.mp3`, `b.wav`,
/// with the first entry selected.
fn music_state() -> AppState<&'static str> {
    let mut state = AppState::new();
    state.set_current_directory("/music");
    state.update_file_names(Ok(music_entries()), true);
    assert_eq!(state.select_list_item(0), Action::Nothing);
    state
}

fn stereo() -> SoundFileCodecData {
    SoundFileCodecData {
        sample_rate: Some(44100),
        bit_depth: Some(16),
        file_layout: Some(ChannelLayout::Stereo),
    }
}

#[test]
fn new_state_is_empty() {
    let state: AppState<u8> = AppState::new();
    assert_eq!(state.current_directory_path(), "");
    assert_eq!(state.last_error_msg(), "");
    assert_eq!(state.last_failure(), None);
    assert_eq!(state.listing().total_count(), 0);
    assert_eq!(state.selected(), None);
    assert_eq!(state.select_file_info(), SoundFileCodecData::absent());
    assert!(!state.has_session());
    assert!(!state.is_dir_selected());
    assert!(!state.is_file_selected());
    assert_eq!(state.get_selected_file_name(), None);
}

#[test]
fn startup_lists_and_selects_the_first_entry() {
    let state = music_state();
    assert_eq!(state.current_directory_path(), "/music");
    assert_eq!(
        state.listing().combined_names(),
        vec!["<DIR> ..", "<DIR> sub", "A.mp3", "b.wav"]
    );
    assert_eq!(state.selected(), Some(0));
    assert!(state.is_dir_selected());
    assert_eq!(state.get_selected_file_name(), Some("..".to_string()));
}

#[test]
fn update_file_names_waits_for_a_new_directory() {
    let mut state = music_state();
    state.update_file_names(Ok(vec![state_entry("other", EntryKind::Directory)]), false);
    assert_eq!(state.listing().total_count(), 4);
    assert_eq!(state.selected(), Some(0));
}

#[test]
fn update_file_names_selects_nothing() {
    let mut state = music_state();
    state.set_current_directory("/other");
    state.update_file_names(Ok(vec![state_entry("x.ogg", EntryKind::File)]), true);
    assert_eq!(state.selected(), None);
    assert_eq!(state.listing().combined_names(), vec!["<DIR> ..", "x.ogg"]);
    assert_eq!(state.last_error_msg(), "");
}

#[test]
fn unreadable_directory_is_reported_and_lists_nothing() {
    let mut state = music_state();
    state.set_current_directory("/locked");
    state.update_file_names(Err("Permission denied (os error 13)".to_string()), true);
    assert_eq!(
        state.last_error_msg(),
        "Failed to update directory list: Permission denied (os error 13)"
    );
    assert_eq!(state.listing().total_count(), 0);
    assert!(!state.listing().has_parent());
    assert_eq!(state.selected(), None);
    assert_eq!(state.select_list_item(0), Action::Nothing);
    assert_eq!(state.selected(), None);
    assert_eq!(state.handle_key(Key::Down), Action::Nothing);
    assert_eq!(state.selected(), None);
    assert_eq!(state.handle_key(Key::Activate), Action::Nothing);
}

#[test]
fn down_and_up_move_the_selection_with_wraparound() {
    let mut state = music_state();
    assert_eq!(state.handle_key(Key::Down), Action::Nothing);
    assert_eq!(state.selected(), Some(1));
    assert_eq!(state.handle_key(Key::Down), Action::ProbeFile("A.mp3".to_string()));
    assert_eq!(state.selected(), Some(2));
    assert_eq!(state.handle_key(Key::Down), Action::ProbeFile("b.wav".to_string()));
    assert_eq!(state.selected(), Some(3));
    assert_eq!(state.handle_key(Key::Down), Action::Nothing);
    assert_eq!(state.selected(), Some(0));
    assert_eq!(state.handle_key(Key::Up), Action::ProbeFile("b.wav".to_string()));
    assert_eq!(state.selected(), Some(3));
    assert_eq!(state.handle_key(Key::Up), Action::ProbeFile("A.mp3".to_string()));
    assert_eq!(state.selected(), Some(2));
}

#[test]
fn up_from_no_selection_selects_the_first_entry() {
    let mut state = music_state();
    state.unselect_list_item();
    assert_eq!(state.selected(), None);
    assert_eq!(state.handle_key(Key::Up), Action::Nothing);
    assert_eq!(state.selected(), Some(0));
    state.unselect_list_item();
    assert_eq!(state.handle_key(Key::Down), Action::Nothing);
    assert_eq!(state.selected(), Some(0));
}

#[test]
fn next_and_previous_list_item_alone_keep_the_codec() {
    let mut state = music_state();
    assert_eq!(state.select_list_item(2), Action::ProbeFile("A.mp3".to_string()));
    state.file_probed(Ok(stereo()));
    state.next_list_item();
    assert_eq!(state.selected(), Some(3));
    assert_eq!(state.select_file_info(), stereo());
    state.previous_list_item();
    assert_eq!(state.selected(), Some(2));
    assert_eq!(state.update_selected_file_info(), Action::ProbeFile("A.mp3".to_string()));
    assert_eq!(state.select_file_info(), SoundFileCodecData::absent());
}

#[test]
fn selecting_a_file_asks_for_its_codec() {
    let mut state = music_state();
    assert_eq!(state.select_list_item(3), Action::ProbeFile("b.wav".to_string()));
    assert!(state.is_file_selected());
    assert!(!state.is_dir_selected());
    assert_eq!(state.select_file_info(), SoundFileCodecData::absent());
    state.file_probed(Ok(stereo()));
    assert_eq!(state.select_file_info(), stereo());
    assert_eq!(state.select_file_info().sample_rate, Some(44100));
}

#[test]
fn selecting_a_directory_clears_the_codec() {
    let mut state = music_state();
    state.select_list_item(2);
    state.file_probed(Ok(stereo()));
    assert_eq!(state.select_list_item(1), Action::Nothing);
    assert_eq!(state.select_file_info(), SoundFileCodecData::absent());
    state.select_list_item(2);
    state.file_probed(Ok(stereo()));
    assert_eq!(state.handle_key(Key::Up), Action::Nothing);
    assert!(state.is_dir_selected());
    assert_eq!(state.select_file_info(), SoundFileCodecData::absent());
}

#[test]
fn a_probe_is_ignored_while_a_directory_is_selected() {
    let mut state = music_state();
    state.file_probed(Ok(stereo()));
    assert_eq!(state.select_file_info(), SoundFileCodecData::absent());
    state.file_probed(Err("late".to_string()));
    assert_eq!(state.last_error_msg(), "");
}

#[test]
fn a_failed_probe_is_reported_and_keeps_the_selection() {
    let mut state = music_state();
    state.select_list_item(2);
    state.file_probed(Err("unsupported format".to_string()));
    assert_eq!(state.last_error_msg(), "File Info Error: unsupported format");
    assert_eq!(state.selected(), Some(2));
    assert_eq!(state.select_file_info(), SoundFileCodecData::absent());
}

#[test]
fn selecting_past_the_list_selects_nothing() {
    let mut state = music_state();
    assert_eq!(state.select_list_item(4), Action::Nothing);
    assert_eq!(state.selected(), None);
    assert_eq!(state.get_selected_file_name(), None);
}

#[test]
fn every_key_clears_the_last_failure() {
    for key in [Key::Quit, Key::Down, Key::Up, Key::Stop, Key::Activate, Key::Other] {
        let mut state = music_state();
        state.directory_unresolved("gone");
        assert_eq!(state.last_error_msg(), "Couldn't build path to selection: gone");
        state.handle_key(key);
        assert_eq!(state.last_error_msg(), "");
    }
}

#[test]
fn quit_and_other_keys() {
    let mut state = music_state();
    assert_eq!(state.handle_key(Key::Quit), Action::Quit);
    assert_eq!(state.handle_key(Key::Other), Action::Nothing);
    assert_eq!(state.selected(), Some(0));
}

#[test]
fn activate_on_a_directory_asks_to_enter_it() {
    let mut state = music_state();
    assert_eq!(state.handle_key(Key::Activate), Action::EnterDirectory("..".to_string()));
    state.select_list_item(1);
    assert_eq!(state.handle_key(Key::Activate), Action::EnterDirectory("sub".to_string()));
    assert_eq!(state.current_directory_path(), "/music");
    assert_eq!(state.selected(), Some(1));
}

#[test]
fn activate_on_a_file_asks_to_load_it() {
    let mut state = music_state();
    state.select_list_item(3);
    assert_eq!(state.handle_key(Key::Activate), Action::LoadSound("b.wav".to_string()));
    assert!(!state.has_session());
}

#[test]
fn entering_a_directory_resets_the_selection() {
    let mut state = music_state();
    state.select_list_item(1);
    assert_eq!(state.selected(), Some(1));
    let action = state.directory_resolved(
        "/music/sub",
        Ok(vec![
            state_entry("inner", EntryKind::Directory),
            state_entry("song.flac", EntryKind::File),
        ]),
        true,
    );
    assert_eq!(action, Action::Nothing);
    assert_eq!(state.current_directory_path(), "/music/sub");
    assert_eq!(state.selected(), Some(0));
    assert_eq!(
        state.listing().combined_names(),
        vec!["<DIR> ..", "<DIR> inner", "song.flac"]
    );
    assert_eq!(state.last_error_msg(), "");
}

#[test]
fn entering_a_directory_of_files_only_probes_the_first() {
    let mut state = music_state();
    let action = state.directory_resolved(
        "/",
        Ok(vec![state_entry("z.ogg", EntryKind::File), state_entry("a.ogg", EntryKind::File)]),
        false,
    );
    assert_eq!(action, Action::ProbeFile("a.ogg".to_string()));
    assert_eq!(state.selected(), Some(0));
    assert!(state.is_file_selected());
}

#[test]
fn entering_an_unreadable_directory_reports_and_selects_nothing() {
    let mut state = music_state();
    state.select_list_item(2);
    state.file_probed(Ok(stereo()));
    let action = state.directory_resolved("/locked", Err("denied".to_string()), true);
    assert_eq!(action, Action::Nothing);
    assert_eq!(state.current_directory_path(), "/locked");
    assert_eq!(state.last_error_msg(), "Failed to update directory list: denied");
    assert_eq!(state.selected(), None);
    assert_eq!(state.listing().total_count(), 0);
    assert_eq!(state.select_file_info(), SoundFileCodecData::absent());
}

#[test]
fn an_unresolved_directory_changes_nothing_but_the_message() {
    let mut state = music_state();
    state.select_list_item(1);
    state.directory_unresolved("No such file or directory (os error 2)");
    assert_eq!(
        state.last_error_msg(),
        "Couldn't build path to selection: No such file or directory (os error 2)"
    );
    assert_eq!(state.current_directory_path(), "/music");
    assert_eq!(state.selected(), Some(1));
    assert_eq!(state.listing().total_count(), 4);
}

#[test]
fn playing_a_file_from_idle() {
    let mut state = music_state();
    state.select_list_item(2);
    assert_eq!(state.handle_key(Key::Activate), Action::LoadSound("A.mp3".to_string()));
    assert_eq!(state.sound_loaded(Ok(())), Action::PlaySound);
    state.sound_started(Ok("a"), 3_000_000_000);
    assert!(state.has_session());
    assert_eq!(state.play_time(), 0);
    assert_eq!(state.play_duration(), 3_000_000_000);
    assert_eq!(state.sound_handle_mut(), Some(&mut "a"));
    assert_eq!(state.last_error_msg(), "");
}

#[test]
fn playing_a_corrupt_file_keeps_the_session() {
    let mut state = music_state();
    state.sound_started(Ok("b"), 4_000_000_000);
    state.tick(TransportState::Playing, 1_000_000_000);
    state.select_list_item(2);
    assert_eq!(state.handle_key(Key::Activate), Action::LoadSound("A.mp3".to_string()));
    assert_eq!(state.sound_loaded(Err("corrupt data".to_string())), Action::Nothing);
    assert_eq!(state.last_error_msg(), "Playback Error: corrupt data");
    assert!(state.has_session());
    assert_eq!(state.sound_handle_mut(), Some(&mut "b"));
    assert_eq!(state.play_time(), 1_000_000_000);
    assert_eq!(state.play_duration(), 4_000_000_000);
}

#[test]
fn playing_a_corrupt_file_from_idle_leaves_no_session() {
    let mut state = music_state();
    state.select_list_item(2);
    state.handle_key(Key::Activate);
    assert_eq!(state.sound_loaded(Err("corrupt data".to_string())), Action::Nothing);
    assert_eq!(state.last_error_msg(), "Playback Error: corrupt data");
    assert!(!state.has_session());
    assert_eq!(state.sound_handle_mut(), None);
}

#[test]
fn a_new_sound_stops_the_old_one_first() {
    let mut state = music_state();
    state.sound_started(Ok("b"), 4_000_000_000);
    state.tick(TransportState::Playing, 1_000_000_000);
    state.select_list_item(2);
    assert_eq!(state.handle_key(Key::Activate), Action::LoadSound("A.mp3".to_string()));
    assert_eq!(state.sound_loaded(Ok(())), Action::StopBeforePlay);
    assert_eq!(state.sound_handle_mut(), Some(&mut "b"));
    assert_eq!(state.previous_sound_stopped(Ok(())), Action::PlaySound);
    assert!(!state.has_session());
    state.sound_started(Ok("a"), 2_000_000_000);
    assert_eq!(state.sound_handle_mut(), Some(&mut "a"));
    assert_eq!(state.play_time(), 0);
    assert_eq!(state.play_duration(), 2_000_000_000);
}

#[test]
fn an_old_sound_that_cannot_be_stopped_stays() {
    let mut state = music_state();
    state.sound_started(Ok("b"), 4_000_000_000);
    assert_eq!(state.sound_loaded(Ok(())), Action::StopBeforePlay);
    assert_eq!(state.previous_sound_stopped(Err("queue full".to_string())), Action::Nothing);
    assert_eq!(state.last_error_msg(), "Playback Error: queue full");
    assert_eq!(state.sound_handle_mut(), Some(&mut "b"));
}

#[test]
fn a_sound_that_cannot_be_started_leaves_no_session() {
    let mut state = music_state();
    state.sound_started(Ok("b"), 4_000_000_000);
    assert_eq!(state.sound_loaded(Ok(())), Action::StopBeforePlay);
    assert_eq!(state.previous_sound_stopped(Ok(())), Action::PlaySound);
    state.sound_started(Err("no output stream".to_string()), 2_000_000_000);
    assert_eq!(state.last_error_msg(), "Playback Error: no output stream");
    assert!(!state.has_session());
}

#[test]
fn stop_key_stops_the_session() {
    let mut state = music_state();
    assert_eq!(state.handle_key(Key::Stop), Action::Nothing);
    state.sound_started(Ok("b"), 4_000_000_000);
    state.tick(TransportState::Playing, 5);
    assert_eq!(state.handle_key(Key::Stop), Action::StopSound);
    assert!(state.has_session());
    state.sound_stopped(Ok(()));
    assert!(!state.has_session());
    assert_eq!(state.play_time(), 0);
    assert_eq!(state.last_error_msg(), "");
    state.sound_stopped(Ok(()));
    assert!(!state.has_session());
    assert_eq!(state.last_error_msg(), "");
}

#[test]
fn a_failed_stop_is_reported_and_keeps_the_session() {
    let mut state = music_state();
    state.sound_started(Ok("b"), 4_000_000_000);
    state.tick(TransportState::Playing, 5);
    assert_eq!(state.handle_key(Key::Stop), Action::StopSound);
    state.sound_stopped(Err("queue full".to_string()));
    assert_eq!(state.last_error_msg(), "Playback Stop Error: queue full");
    assert!(state.has_session());
    assert_eq!(state.play_time(), 5);
}

#[test]
fn tick_advances_only_while_playing() {
    let mut state = music_state();
    state.tick(TransportState::Playing, 66_000_000);
    assert_eq!(state.play_time(), 0);
    state.sound_started(Ok("b"), 4_000_000_000);
    state.tick(TransportState::Playing, 66_000_000);
    state.tick(TransportState::Playing, 66_000_000);
    assert_eq!(state.play_time(), 132_000_000);
    state.tick(TransportState::Paused, 66_000_000);
    state.tick(TransportState::Stopped, 66_000_000);
    state.tick(TransportState::Finished, 66_000_000);
    assert_eq!(state.play_time(), 132_000_000);
    state.tick(TransportState::Playing, u128::MAX);
    assert_eq!(state.play_time(), u128::MAX);
}

#[test]
fn poll_timeout_depends_on_playing() {
    let mut state = music_state();
    assert_eq!(state.poll_timeout_millis(TransportState::Playing), 1000);
    state.sound_started(Ok("b"), 4_000_000_000);
    assert_eq!(state.poll_timeout_millis(TransportState::Playing), 66);
    assert_eq!(state.poll_timeout_millis(TransportState::Paused), 1000);
    assert_eq!(state.poll_timeout_millis(TransportState::Finished), 1000);
    assert!(state.is_playing(TransportState::Playing));
    assert!(!state.is_playing(TransportState::Stopped));
}

#[test]
fn keys_leave_the_session_alone() {
    let mut state = music_state();
    state.sound_started(Ok("b"), 4_000_000_000);
    state.tick(TransportState::Playing, 9);
    for key in [Key::Down, Key::Up, Key::Activate, Key::Other, Key::Stop, Key::Quit] {
        state.handle_key(key);
        assert_eq!(state.sound_handle_mut(), Some(&mut "b"));
        assert_eq!(state.play_time(), 9);
    }
}

#[test]
fn keys_of_the_terminal() {
    assert_eq!(key_of(KeyPress::Char('q')), Key::Quit);
    assert_eq!(key_of(KeyPress::Char('j')), Key::Down);
    assert_eq!(key_of(KeyPress::Char('k')), Key::Up);
    assert_eq!(key_of(KeyPress::Char(' ')), Key::Activate);
    assert_eq!(key_of(KeyPress::Backspace), Key::Stop);
    assert_eq!(key_of(KeyPress::Other), Key::Other);
    assert_eq!(key_of(KeyPress::Char('Q')), Key::Other);
    assert_eq!(key_of(KeyPress::Char('x')), Key::Other);
}

#[test]
fn each_failure_has_its_kind() {
    let mut state = music_state();
    state.directory_unresolved("gone");
    assert_eq!(state.last_failure(), Some(FailureKind::PathResolution));
    state.select_list_item(2);
    state.file_probed(Err("unknown".to_string()));
    assert_eq!(state.last_failure(), Some(FailureKind::Probe));
    state.sound_loaded(Err("corrupt".to_string()));
    assert_eq!(state.last_failure(), Some(FailureKind::Playback));
    state.sound_started(Ok("b"), 1);
    state.sound_stopped(Err("busy".to_string()));
    assert_eq!(state.last_failure(), Some(FailureKind::PlaybackStop));
    state.previous_sound_stopped(Err("busy".to_string()));
    assert_eq!(state.last_failure(), Some(FailureKind::Playback));
    state.sound_stopped(Ok(()));
    state.sound_started(Err("no stream".to_string()), 1);
    assert_eq!(state.last_failure(), Some(FailureKind::Playback));
    state.directory_resolved("/locked", Err("denied".to_string()), true);
    assert_eq!(state.last_failure(), Some(FailureKind::Filesystem));
    state.handle_key(Key::Other);
    assert_eq!(state.last_failure(), None);
    assert_eq!(state.last_error_msg(), "");
}
