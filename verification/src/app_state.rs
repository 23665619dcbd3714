//! The state of the application, and what each key and each answer of the
//! outside world does to it.
//!
//! The library decides; its caller acts. A key yields an [`Action`]; the
//! caller performs it with the terminal, the file system and the audio
//! engine, and reports how it went, which may yield the next action.

use vstd::prelude::*;
use vstd::string::*;
use crate::codec::{no_codec_data, SoundFileCodecData};
use crate::failure::{failure_message, failure_text, FailureKind};
use crate::listing::{directory_part, file_part, DirEntry, DirectoryListing};
use crate::playback::{advanced, PlaybackSession, SoundState, TransportState};
use crate::selection::{
    first_index, first_of, in_range, kind_of, next_index, next_of, previous_index, previous_of,
    selected_kind, SelectedKind,
};

verus! {

/// The keys that the application knows.
#[derive(Clone, Copy, Debug, PartialEq, Eq)]
pub enum Key {
    /// Leave the application.
    Quit,
    /// Select the next entry.
    Down,
    /// Select the entry before.
    Up,
    /// Stop the sound.
    Stop,
    /// Play the selected file, or enter the selected directory.
    Activate,
    /// Any other key.
    Other,
}

/// A key as the terminal reports it.
#[derive(Clone, Copy, Debug, PartialEq, Eq)]
pub enum KeyPress {
    /// A character key.
    Char(char),
    /// The backspace key.
    Backspace,
    /// Any other key.
    Other,
}

/// The key of the application that a key of the terminal stands for: `q`
/// leaves, `j` steps down, `k` steps up, the space bar plays or enters, and
/// backspace stops.
pub open spec fn key_for(press: KeyPress) -> Key {
    match press {
        KeyPress::Char(c) => if c == 'q' {
            Key::Quit
        } else if c == 'j' {
            Key::Down
        } else if c == 'k' {
            Key::Up
        } else if c == ' ' {
            Key::Activate
        } else {
            Key::Other
        },
        KeyPress::Backspace => Key::Stop,
        KeyPress::Other => Key::Other,
    }
}

/// Tells which key of the application a key of the terminal stands for.
pub fn key_of(press: KeyPress) -> (key: Key)
    ensures
        key == key_for(press),
{
    match press {
        KeyPress::Char(c) => if c == 'q' {
            Key::Quit
        } else if c == 'j' {
            Key::Down
        } else if c == 'k' {
            Key::Up
        } else if c == ' ' {
            Key::Activate
        } else {
            Key::Other
        },
        KeyPress::Backspace => Key::Stop,
        KeyPress::Other => Key::Other,
    }
}

/// What the caller is to do next.
#[derive(Clone, Debug, PartialEq, Eq)]
pub enum Action {
    /// End the loop.
    Quit,
    /// Nothing.
    Nothing,
    /// Read the codec of the file of this name in the current directory, and
    /// report it with `file_probed`.
    ProbeFile(String),
    /// Tell the engine to stop the sound of the session at once, with a
    /// transition of `stop_fade_millis`, and report with `sound_stopped`.
    StopSound,
    /// Load and decode the file of this name in the current directory, and
    /// report with `sound_loaded`.
    LoadSound(String),
    /// Tell the engine to stop the sound of the session at once, with a
    /// transition of `stop_fade_millis`, and report with
    /// `previous_sound_stopped`.
    StopBeforePlay,
    /// Tell the engine to play the sound that was loaded, and report with
    /// `sound_started`.
    PlaySound,
    /// Resolve the directory of this name below the current directory and
    /// read it, and report with `directory_resolved` or, where the path
    /// cannot be resolved, with `directory_unresolved`.
    EnterDirectory(String),
}

/// An action, with names as their characters.
pub enum ActionModel {
    Quit,
    Nothing,
    ProbeFile(Seq<char>),
    StopSound,
    LoadSound(Seq<char>),
    StopBeforePlay,
    PlaySound,
    EnterDirectory(Seq<char>),
}

impl View for Action {
    type V = ActionModel;

    open spec fn view(&self) -> ActionModel {
        match self {
            Action::Quit => ActionModel::Quit,
            Action::Nothing => ActionModel::Nothing,
            Action::ProbeFile(name) => ActionModel::ProbeFile(name@),
            Action::StopSound => ActionModel::StopSound,
            Action::LoadSound(name) => ActionModel::LoadSound(name@),
            Action::StopBeforePlay => ActionModel::StopBeforePlay,
            Action::PlaySound => ActionModel::PlaySound,
            Action::EnterDirectory(name) => ActionModel::EnterDirectory(name@),
        }
    }
}

/// An answer of the outside world, with the words of a failure as their
/// characters.
pub open spec fn outcome<T>(answer: Result<T, String>) -> Result<T, Seq<char>> {
    match answer {
        Ok(value) => Ok(value),
        Err(detail) => Err(detail@),
    }
}

/// A name, where there is one, as its characters.
pub open spec fn name_view(name: Option<String>) -> Option<Seq<char>> {
    match name {
        Some(n) => Some(n@),
        None => None,
    }
}

/// How long the loop waits for a key, in milliseconds: a fifteenth of a
/// second while a sound is playing, a second else.
pub open spec fn timeout_millis(playing: bool) -> u64 {
    if playing {
        66
    } else {
        1000
    }
}

/// The state of the application as plain values.
pub struct AppModel<H> {
    /// The path of the current directory.
    pub current_directory: Seq<char>,
    /// Whether the listing is yet to be read for the current directory.
    pub needs_file_list_update: bool,
    /// The message of the last failure; empty where there was none.
    pub last_error: Seq<char>,
    /// The kind of the last failure.
    pub last_failure: Option<FailureKind>,
    /// The listing of the current directory.
    pub listing: DirectoryListing,
    /// The index of the selected entry of the combined list.
    pub selected: Option<usize>,
    /// What is known of the codec of the selected file.
    pub codec: SoundFileCodecData,
    /// The playback session.
    pub session: Option<PlaybackSession<H>>,
}

impl<H> AppModel<H> {
    /// What holds of every state: the listing is well formed and the
    /// selection lies within it.
    pub open spec fn wf(self) -> bool {
        self.listing.wf() && in_range(self.selected, self.listing.count())
    }

    /// What the selection points at.
    pub open spec fn kind(self) -> SelectedKind {
        kind_of(self.selected, self.listing.dirs().len())
    }

    /// The real name of the selected entry.
    pub open spec fn selected_name(self) -> Option<Seq<char>> {
        match self.selected {
            Some(i) => Some(self.listing.resolved(i as int)),
            None => None,
        }
    }

    /// The state with another selection, and with nothing known of a codec.
    pub open spec fn selecting(self, selected: Option<usize>) -> Self {
        AppModel { selected, codec: no_codec_data(), ..self }
    }

    /// The state with the message of a failure.
    pub open spec fn failing(self, kind: FailureKind, detail: Seq<char>) -> Self {
        AppModel { last_error: failure_text(kind, detail), last_failure: Some(kind), ..self }
    }

    /// What is to be done once an entry is selected: a file is probed.
    pub open spec fn refresh_action(self) -> ActionModel {
        match self.selected {
            Some(i) => if self.kind() is File {
                ActionModel::ProbeFile(self.listing.resolved(i as int))
            } else {
                ActionModel::Nothing
            },
            None => ActionModel::Nothing,
        }
    }

    /// The state without the last failure.
    pub open spec fn forgetting(self) -> Self {
        AppModel { last_error: Seq::empty(), last_failure: None, ..self }
    }

    /// The state after a key: the last failure is forgotten, and a step down
    /// or up moves the selection.
    pub open spec fn after_key(self, key: Key) -> Self {
        let cleared = self.forgetting();
        match key {
            Key::Down => cleared.selecting(next_of(self.selected, self.listing.count())),
            Key::Up => cleared.selecting(previous_of(self.selected, self.listing.count())),
            _ => cleared,
        }
    }

    /// What is to be done after a key.
    pub open spec fn key_action(self, key: Key) -> ActionModel {
        match key {
            Key::Quit => ActionModel::Quit,
            Key::Down => self.after_key(key).refresh_action(),
            Key::Up => self.after_key(key).refresh_action(),
            Key::Stop => if self.session is Some {
                ActionModel::StopSound
            } else {
                ActionModel::Nothing
            },
            Key::Activate => match self.selected {
                Some(i) => if self.kind() is File {
                    ActionModel::LoadSound(self.listing.resolved(i as int))
                } else {
                    ActionModel::EnterDirectory(self.listing.resolved(i as int))
                },
                None => ActionModel::Nothing,
            },
            Key::Other => ActionModel::Nothing,
        }
    }

    /// The state after the codec of the selected file was read: what was
    /// found is kept; a failure is reported and nothing is known. While no
    /// file is selected, nothing changes.
    pub open spec fn after_probe(self, probed: Result<SoundFileCodecData, Seq<char>>) -> Self {
        if self.kind() is File {
            match probed {
                Ok(codec) => AppModel { codec, ..self },
                Err(detail) => AppModel { codec: no_codec_data(), ..self }.failing(
                    FailureKind::Probe,
                    detail,
                ),
            }
        } else {
            self
        }
    }

    /// The state after the engine was told to stop the sound: the session
    /// ends, or it stays and the failure is reported as one of `kind`.
    /// Without a session, nothing changes.
    pub open spec fn after_stop(self, stopped: Result<(), Seq<char>>, kind: FailureKind) -> Self {
        if self.session is Some {
            match stopped {
                Ok(_) => AppModel { session: None, ..self },
                Err(detail) => self.failing(kind, detail),
            }
        } else {
            self
        }
    }

    /// The state after a file was loaded for playback: a failure is
    /// reported; the session is as it was.
    pub open spec fn after_load(self, loaded: Result<(), Seq<char>>) -> Self {
        match loaded {
            Ok(_) => self,
            Err(detail) => self.failing(FailureKind::Playback, detail),
        }
    }

    /// What is to be done after a file was loaded: the sound of the session
    /// is stopped first, where there is a session; else the new sound is
    /// played.
    pub open spec fn load_action(self, loaded: Result<(), Seq<char>>) -> ActionModel {
        match loaded {
            Ok(_) => if self.session is Some {
                ActionModel::StopBeforePlay
            } else {
                ActionModel::PlaySound
            },
            Err(_) => ActionModel::Nothing,
        }
    }

    /// What is to be done after the sound of the session was to be stopped
    /// for a new one: the new one is played unless the old one still is.
    pub open spec fn replace_action(self, stopped: Result<(), Seq<char>>) -> ActionModel {
        if self.session is Some && stopped is Err {
            ActionModel::Nothing
        } else {
            ActionModel::PlaySound
        }
    }

    /// The state after the engine was told to play a sound: the sound becomes
    /// the session, with no time played; a failure is reported.
    pub open spec fn after_start(self, started: Result<H, Seq<char>>, play_duration: u128) -> Self {
        match started {
            Ok(handle) => AppModel {
                session: Some(PlaybackSession { handle, play_duration, play_time: 0 }),
                ..self
            },
            Err(detail) => self.failing(FailureKind::Playback, detail),
        }
    }

    /// The state after `delta` nanoseconds have passed.
    pub open spec fn after_tick(self, transport: TransportState, delta: u128) -> Self {
        AppModel { session: advanced(self.session, transport, delta), ..self }
    }
}

/// The state of the application.
pub struct AppState<H> {
    needs_file_list_update: bool,
    current_directory_path: String,
    last_error_msg: String,
    last_error_kind: Option<FailureKind>,
    listing: DirectoryListing,
    selected: Option<usize>,
    select_file_info: SoundFileCodecData,
    sound_state: SoundState<H>,
}

impl<H> View for AppState<H> {
    type V = AppModel<H>;

    closed spec fn view(&self) -> AppModel<H> {
        AppModel {
            current_directory: self.current_directory_path@,
            needs_file_list_update: self.needs_file_list_update,
            last_error: self.last_error_msg@,
            last_failure: self.last_error_kind,
            listing: self.listing,
            selected: self.selected,
            codec: self.select_file_info,
            session: self.sound_state.session(),
        }
    }
}

impl<H> AppState<H> {
    /// The state at the start: no directory, an empty listing, nothing
    /// selected, no session, no failure.
    pub fn new() -> (state: Self)
        ensures
            state@.wf(),
            state@.current_directory == Seq::<char>::empty(),
            !state@.needs_file_list_update,
            state@.last_error == Seq::<char>::empty(),
            state@.last_failure is None,
            state@.listing.dirs() == Seq::<Seq<char>>::empty(),
            state@.listing.files() == Seq::<Seq<char>>::empty(),
            !state@.listing.parent_shown(),
            state@.selected is None,
            state@.codec == no_codec_data(),
            state@.session is None,
    {
        AppState {
            needs_file_list_update: false,
            current_directory_path: String::new(),
            last_error_msg: String::new(),
            last_error_kind: None,
            listing: DirectoryListing::empty(),
            selected: None,
            select_file_info: SoundFileCodecData::absent(),
            sound_state: SoundState::new(),
        }
    }

    /// The path of the current directory.
    pub fn current_directory_path(&self) -> (path: &String)
        ensures
            path@ == self@.current_directory,
    {
        &self.current_directory_path
    }

    /// The message of the last failure; empty where there was none.
    pub fn last_error_msg(&self) -> (message: &String)
        ensures
            message@ == self@.last_error,
    {
        &self.last_error_msg
    }

    /// The kind of the last failure, where there was one.
    pub fn last_failure(&self) -> (kind: Option<FailureKind>)
        ensures
            kind == self@.last_failure,
    {
        self.last_error_kind
    }

    /// The listing of the current directory.
    pub fn listing(&self) -> (listing: &DirectoryListing)
        ensures
            *listing == self@.listing,
    {
        &self.listing
    }

    /// The index of the selected entry.
    pub fn selected(&self) -> (selected: Option<usize>)
        ensures
            selected == self@.selected,
    {
        self.selected
    }

    /// What is known of the codec of the selected file.
    pub fn select_file_info(&self) -> (codec: SoundFileCodecData)
        ensures
            codec == self@.codec,
    {
        self.select_file_info
    }

    /// Whether a playback session is active.
    pub fn has_session(&self) -> (active: bool)
        ensures
            active == self@.session is Some,
    {
        self.sound_state.has_session()
    }

    /// The time that the session has played, in nanoseconds; zero without a
    /// session.
    pub fn play_time(&self) -> (nanos: u128)
        ensures
            nanos == match self@.session {
                Some(session) => session.play_time,
                None => 0,
            },
    {
        self.sound_state.play_time()
    }

    /// The whole length of the sound of the session, in nanoseconds; zero
    /// without a session.
    pub fn play_duration(&self) -> (nanos: u128)
        ensures
            nanos == match self@.session {
                Some(session) => session.play_duration,
                None => 0,
            },
    {
        self.sound_state.play_duration()
    }

    /// The handle of the session, to hand to the engine.
    pub fn sound_handle_mut(&mut self) -> (handle: Option<&mut H>)
        ensures
            match handle {
                Some(h) => old(self)@.session is Some && *h == old(self)@.session->0.handle
                    && final(self)@ == (AppModel {
                    session: Some(
                        PlaybackSession {
                            handle: *final(h),
                            play_duration: old(self)@.session->0.play_duration,
                            play_time: old(self)@.session->0.play_time,
                        },
                    ),
                    ..old(self)@
                }),
                None => old(self)@.session is None && final(self)@ == old(self)@,
            },
    {
        self.sound_state.handle_mut()
    }

    /// Whether a sound is playing: there is a session and the engine reports
    /// it as playing.
    pub fn is_playing(&self, transport: TransportState) -> (playing: bool)
        ensures
            playing == (self@.session is Some && transport is Playing),
    {
        self.sound_state.is_playing(transport)
    }

    /// How long the loop is to wait for a key, in milliseconds.
    pub fn poll_timeout_millis(&self, transport: TransportState) -> (millis: u64)
        ensures
            millis == timeout_millis(self@.session is Some && transport is Playing),
    {
        if self.sound_state.is_playing(transport) {
            66
        } else {
            1000
        }
    }

    /// Lets `delta` nanoseconds pass: while a sound is playing, the time
    /// played grows by them.
    pub fn tick(&mut self, transport: TransportState, delta: u128)
        ensures
            final(self)@ == old(self)@.after_tick(transport, delta),
    {
        self.sound_state.add_playtime(transport, delta);
    }

    /// Forgets the last failure.
    pub fn clear_error(&mut self)
        ensures
            final(self)@ == old(self)@.forgetting(),
    {
        self.last_error_msg = String::new();
        self.last_error_kind = None;
    }

    /// Reports a failure: its message takes the place of the last one.
    fn record_failure(&mut self, kind: FailureKind, detail: &str)
        ensures
            final(self)@ == old(self)@.failing(kind, detail@),
    {
        self.last_error_msg = failure_message(kind, detail);
        self.last_error_kind = Some(kind);
    }

    /// Makes `dir` the current directory; its listing is yet to be read.
    pub fn set_current_directory(&mut self, dir: &str)
        ensures
            final(self)@ == (AppModel {
                current_directory: dir@,
                needs_file_list_update: true,
                ..old(self)@
            }),
    {
        self.current_directory_path = dir.to_owned();
        self.needs_file_list_update = true;
    }

    /// Takes the listing of the current directory from what was read of it,
    /// where it is yet to be read, and selects nothing. Where the directory
    /// could not be read, the failure is reported and the listing is empty:
    /// no entry of another directory stays on show.
    pub fn update_file_names(&mut self, read: Result<Vec<DirEntry>, String>, has_parent: bool)
        requires
            old(self)@.wf(),
            read matches Ok(entries) ==> entries.len() < usize::MAX,
        ensures
            final(self)@.wf(),
            !old(self)@.needs_file_list_update ==> final(self)@ == old(self)@,
            old(self)@.needs_file_list_update ==> {
                &&& final(self)@.current_directory == old(self)@.current_directory
                &&& !final(self)@.needs_file_list_update
                &&& final(self)@.selected is None
                &&& final(self)@.codec == old(self)@.codec
                &&& final(self)@.session == old(self)@.session
                &&& match read {
                    Ok(entries) => {
                        &&& final(self)@.last_error == old(self)@.last_error
                        &&& final(self)@.last_failure == old(self)@.last_failure
                        &&& final(self)@.listing.dirs() == directory_part(entries@, has_parent)
                        &&& final(self)@.listing.files() == file_part(entries@)
                        &&& final(self)@.listing.parent_shown() == has_parent
                    },
                    Err(detail) => {
                        &&& final(self)@.last_error == failure_text(
                            FailureKind::Filesystem,
                            detail@,
                        )
                        &&& final(self)@.last_failure == Some(FailureKind::Filesystem)
                        &&& final(self)@.listing.dirs() == Seq::<Seq<char>>::empty()
                        &&& final(self)@.listing.files() == Seq::<Seq<char>>::empty()
                        &&& !final(self)@.listing.parent_shown()
                    },
                }
            },
    {
        if !self.needs_file_list_update {
            return ;
        }
        match read {
            Ok(entries) => {
                self.listing = DirectoryListing::list_directories_and_files(&entries, has_parent);
            },
            Err(detail) => {
                self.listing = DirectoryListing::empty();
                self.record_failure(FailureKind::Filesystem, detail.as_str());
            },
        }
        self.selected = None;
        self.needs_file_list_update = false;
    }

    /// Whether a directory is selected.
    pub fn is_dir_selected(&self) -> (selected: bool)
        ensures
            selected == self@.kind() is Directory,
    {
        match selected_kind(self.selected, self.listing.dir_count()) {
            SelectedKind::Directory => true,
            _ => false,
        }
    }

    /// Whether a file is selected.
    pub fn is_file_selected(&self) -> (selected: bool)
        ensures
            selected == self@.kind() is File,
    {
        match selected_kind(self.selected, self.listing.dir_count()) {
            SelectedKind::File => true,
            _ => false,
        }
    }

    /// The real name of the selected entry: the name of a file as it is
    /// listed, the name of a directory without the marker.
    pub fn get_selected_file_name(&self) -> (name: Option<String>)
        requires
            self@.wf(),
        ensures
            name_view(name) == self@.selected_name(),
    {
        match self.selected {
            Some(i) => Some(self.listing.resolve_name(i)),
            None => None,
        }
    }

    /// Forgets what was known of a codec, and tells whether a file is
    /// selected whose codec is to be read.
    pub fn update_selected_file_info(&mut self) -> (action: Action)
        requires
            old(self)@.wf(),
        ensures
            final(self)@ == old(self)@.selecting(old(self)@.selected),
            action@ == old(self)@.refresh_action(),
    {
        self.select_file_info = SoundFileCodecData::absent();
        if self.is_file_selected() {
            match self.get_selected_file_name() {
                Some(name) => Action::ProbeFile(name),
                None => Action::Nothing,
            }
        } else {
            Action::Nothing
        }
    }

    /// Selects the entry at an index of the combined list, or nothing where
    /// the list has no such entry.
    pub fn select_list_item(&mut self, i: usize) -> (action: Action)
        requires
            old(self)@.wf(),
        ensures
            final(self)@ == old(self)@.selecting(
                if i < old(self)@.listing.count() {
                    Some(i)
                } else {
                    None
                },
            ),
            final(self)@.wf(),
            action@ == final(self)@.refresh_action(),
    {
        if i < self.listing.total_count() {
            self.selected = Some(i);
        } else {
            self.selected = None;
        }
        self.update_selected_file_info()
    }

    /// Moves the selection one entry down, from the last entry to the first.
    pub fn next_list_item(&mut self)
        requires
            old(self)@.wf(),
        ensures
            final(self)@ == (AppModel {
                selected: next_of(old(self)@.selected, old(self)@.listing.count()),
                ..old(self)@
            }),
            final(self)@.wf(),
    {
        self.selected = next_index(self.selected, self.listing.total_count());
    }

    /// Moves the selection one entry up, from the first entry to the last.
    pub fn previous_list_item(&mut self)
        requires
            old(self)@.wf(),
        ensures
            final(self)@ == (AppModel {
                selected: previous_of(old(self)@.selected, old(self)@.listing.count()),
                ..old(self)@
            }),
            final(self)@.wf(),
    {
        self.selected = previous_index(self.selected, self.listing.total_count());
    }

    /// Selects nothing.
    pub fn unselect_list_item(&mut self)
        ensures
            final(self)@ == (AppModel { selected: None, ..old(self)@ }),
    {
        self.selected = None;
    }

    /// Takes a key: forgets the last failure, moves the selection on a step
    /// down or up, and tells what is to be done.
    pub fn handle_key(&mut self, key: Key) -> (action: Action)
        requires
            old(self)@.wf(),
        ensures
            final(self)@ == old(self)@.after_key(key),
            final(self)@.wf(),
            action@ == old(self)@.key_action(key),
    {
        self.clear_error();
        match key {
            Key::Quit => Action::Quit,
            Key::Down => {
                self.next_list_item();
                self.update_selected_file_info()
            },
            Key::Up => {
                self.previous_list_item();
                self.update_selected_file_info()
            },
            Key::Stop => {
                if self.sound_state.has_session() {
                    Action::StopSound
                } else {
                    Action::Nothing
                }
            },
            Key::Activate => {
                let file = self.is_file_selected();
                match self.get_selected_file_name() {
                    Some(name) => if file {
                        Action::LoadSound(name)
                    } else {
                        Action::EnterDirectory(name)
                    },
                    None => Action::Nothing,
                }
            },
            Key::Other => Action::Nothing,
        }
    }

    /// Takes what was read of the codec of the selected file.
    pub fn file_probed(&mut self, probed: Result<SoundFileCodecData, String>)
        ensures
            final(self)@ == old(self)@.after_probe(outcome(probed)),
    {
        if self.is_file_selected() {
            match probed {
                Ok(codec) => {
                    self.select_file_info = codec;
                },
                Err(detail) => {
                    self.select_file_info = SoundFileCodecData::absent();
                    self.record_failure(FailureKind::Probe, detail.as_str());
                },
            }
        }
    }

    /// Takes the answer of the engine to `Action::StopSound`.
    pub fn sound_stopped(&mut self, stopped: Result<(), String>)
        ensures
            final(self)@ == old(self)@.after_stop(outcome(stopped), FailureKind::PlaybackStop),
    {
        match self.sound_state.stop_sound(stopped) {
            Ok(()) => {},
            Err(detail) => {
                self.record_failure(FailureKind::PlaybackStop, detail.as_str());
            },
        }
    }

    /// Takes the answer to `Action::LoadSound`.
    pub fn sound_loaded(&mut self, loaded: Result<(), String>) -> (action: Action)
        ensures
            final(self)@ == old(self)@.after_load(outcome(loaded)),
            action@ == old(self)@.load_action(outcome(loaded)),
    {
        match loaded {
            Ok(()) => {
                if self.sound_state.has_session() {
                    Action::StopBeforePlay
                } else {
                    Action::PlaySound
                }
            },
            Err(detail) => {
                self.record_failure(FailureKind::Playback, detail.as_str());
                Action::Nothing
            },
        }
    }

    /// Takes the answer of the engine to `Action::StopBeforePlay`.
    pub fn previous_sound_stopped(&mut self, stopped: Result<(), String>) -> (action: Action)
        ensures
            final(self)@ == old(self)@.after_stop(outcome(stopped), FailureKind::Playback),
            action@ == old(self)@.replace_action(outcome(stopped)),
    {
        match self.sound_state.stop_sound(stopped) {
            Ok(()) => Action::PlaySound,
            Err(detail) => {
                self.record_failure(FailureKind::Playback, detail.as_str());
                Action::Nothing
            },
        }
    }

    /// Takes the answer of the engine to `Action::PlaySound`: the handle of
    /// the sound that plays, whose whole length is `play_duration`
    /// nanoseconds, or a failure.
    pub fn sound_started(&mut self, started: Result<H, String>, play_duration: u128)
        ensures
            final(self)@ == old(self)@.after_start(outcome(started), play_duration),
    {
        match started {
            Ok(handle) => {
                self.sound_state.started_sound(handle, play_duration);
            },
            Err(detail) => {
                self.record_failure(FailureKind::Playback, detail.as_str());
            },
        }
    }

    /// Takes the failure to resolve the path of the directory that was to be
    /// entered: it is reported, and nothing else changes.
    pub fn directory_unresolved(&mut self, detail: &str)
        ensures
            final(self)@ == old(self)@.failing(FailureKind::PathResolution, detail@),
    {
        self.record_failure(FailureKind::PathResolution, detail);
    }

    /// Enters a directory: `path` becomes the current directory, its listing
    /// is taken from what was read of it, and its first entry is selected.
    pub fn directory_resolved(
        &mut self,
        path: &str,
        read: Result<Vec<DirEntry>, String>,
        has_parent: bool,
    ) -> (action: Action)
        requires
            old(self)@.wf(),
            read matches Ok(entries) ==> entries.len() < usize::MAX,
        ensures
            final(self)@.wf(),
            final(self)@.current_directory == path@,
            !final(self)@.needs_file_list_update,
            final(self)@.selected == first_of(final(self)@.listing.count()),
            final(self)@.codec == no_codec_data(),
            final(self)@.session == old(self)@.session,
            match read {
                Ok(entries) => {
                    &&& final(self)@.last_error == old(self)@.last_error
                    &&& final(self)@.last_failure == old(self)@.last_failure
                    &&& final(self)@.listing.dirs() == directory_part(entries@, has_parent)
                    &&& final(self)@.listing.files() == file_part(entries@)
                    &&& final(self)@.listing.parent_shown() == has_parent
                },
                Err(detail) => {
                    &&& final(self)@.last_error == failure_text(FailureKind::Filesystem, detail@)
                    &&& final(self)@.last_failure == Some(FailureKind::Filesystem)
                    &&& final(self)@.listing.dirs() == Seq::<Seq<char>>::empty()
                    &&& final(self)@.listing.files() == Seq::<Seq<char>>::empty()
                    &&& !final(self)@.listing.parent_shown()
                },
            },
            action@ == final(self)@.refresh_action(),
    {
        self.set_current_directory(path);
        self.update_file_names(read, has_parent);
        self.select_list_item(0)
    }
}

/// Starting a sound while another has a session: the other is stopped
/// first, and once the new sound plays, the one session is its own, with no
/// time played.
pub proof fn lemma_one_session<H>(state: AppModel<H>, handle: H, play_duration: u128)
    requires
        state.session is Some,
    ensures
        state.load_action(Ok(())) == ActionModel::StopBeforePlay,
        state.after_load(Ok(())) == state,
        state.replace_action(Ok(())) == ActionModel::PlaySound,
        state.after_stop(Ok(()), FailureKind::Playback).session is None,
        state.after_stop(Ok(()), FailureKind::Playback).after_start(
            Ok(handle),
            play_duration,
        ).session == Some(PlaybackSession { handle, play_duration, play_time: 0 }),
{
}

/// A sound that cannot be loaded, stopped or started leaves the session as
/// it was, and the failure is reported.
pub proof fn lemma_failure_keeps_session<H>(state: AppModel<H>, detail: Seq<char>)
    ensures
        state.after_load(Err(detail)).session == state.session,
        state.after_load(Err(detail)).last_error == failure_text(FailureKind::Playback, detail),
        state.after_load(Err(detail)).last_failure == Some(FailureKind::Playback),
        state.load_action(Err(detail)) == ActionModel::Nothing,
        state.after_stop(Err(detail), FailureKind::Playback).session == state.session,
        state.after_start(Err(detail), 0).session == state.session,
{
}

/// While a directory is selected, or nothing, nothing is known of a codec,
/// whatever a probe may report.
pub proof fn lemma_no_codec_off_files<H>(
    state: AppModel<H>,
    selected: Option<usize>,
    probed: Result<SoundFileCodecData, Seq<char>>,
)
    requires
        !(state.selecting(selected).kind() is File),
    ensures
        state.selecting(selected).codec == no_codec_data(),
        state.selecting(selected).after_probe(probed).codec == no_codec_data(),
        state.selecting(selected).refresh_action() == ActionModel::Nothing,
{
}

/// After a key, a selected directory or no selection leaves nothing known of
/// a codec, and the selection of a state that is well formed stays within
/// the listing.
pub proof fn lemma_key_keeps_state<H>(state: AppModel<H>, key: Key)
    requires
        state.wf(),
    ensures
        state.after_key(key).wf(),
        (key is Down || key is Up) ==> state.after_key(key).codec == no_codec_data(),
        (key is Down || key is Up) && !(state.after_key(key).kind() is File) ==> state.key_action(
            key,
        ) == ActionModel::Nothing,
        state.listing.count() > 0 && (key is Down || key is Up) ==> state.after_key(
            key,
        ).selected is Some,
{
}

} // verus!
