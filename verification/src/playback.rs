//! The playback session: at most one sound, with the time it has played.

use vstd::prelude::*;

verus! {

/// What the audio engine reports of a sound that it was told to play.
#[derive(Clone, Copy, Debug, PartialEq, Eq)]
pub enum TransportState {
    Playing,
    Paused,
    Stopped,
    Finished,
}

/// A sound that is loaded for playback: the handle by which the engine knows
/// it, its whole length and the time it has played, both in nanoseconds.
pub struct PlaybackSession<H> {
    pub handle: H,
    pub play_duration: u128,
    pub play_time: u128,
}

/// The state of playback: one session or none.
pub struct SoundState<H> {
    session: Option<PlaybackSession<H>>,
}

/// The length of the transition by which the engine is told to stop a sound,
/// in milliseconds: none. A sound stops at once; it does not fade.
pub open spec fn stop_transition_millis() -> u64 {
    0
}

/// The length of the transition to hand to the engine with every stop, in
/// milliseconds.
pub fn stop_fade_millis() -> (millis: u64)
    ensures
        millis == stop_transition_millis(),
        millis == 0,
{
    0
}

/// The sum of two times, held at the greatest time that can be represented.
pub open spec fn saturating_sum(a: u128, b: u128) -> u128 {
    if a + b > u128::MAX {
        u128::MAX
    } else {
        (a + b) as u128
    }
}

impl<H> SoundState<H> {
    /// The session, if one is active.
    pub closed spec fn session(&self) -> Option<PlaybackSession<H>> {
        self.session
    }

    /// A sound is playing when there is a session and the engine reports it
    /// as playing.
    pub open spec fn playing(&self, transport: TransportState) -> bool {
        self.session() is Some && transport is Playing
    }

    /// The state without a session.
    pub fn new() -> (state: Self)
        ensures
            state.session() is None,
    {
        SoundState { session: None }
    }

    /// Whether a session is active.
    pub fn has_session(&self) -> (active: bool)
        ensures
            active == self.session() is Some,
    {
        self.session.is_some()
    }

    /// The handle of the active session, to hand to the engine.
    pub fn handle_mut(&mut self) -> (handle: Option<&mut H>)
        ensures
            match handle {
                Some(h) => old(self).session() is Some && *h == old(self).session()->0.handle
                    && final(self).session() == Some(
                    PlaybackSession {
                        handle: *final(h),
                        play_duration: old(self).session()->0.play_duration,
                        play_time: old(self).session()->0.play_time,
                    },
                ),
                None => old(self).session() is None && final(self).session() is None,
            },
    {
        match &mut self.session {
            Some(session) => Some(&mut session.handle),
            None => None,
        }
    }

    /// The time that the active session has played, in nanoseconds; zero
    /// without a session.
    pub fn play_time(&self) -> (nanos: u128)
        ensures
            nanos == match self.session() {
                Some(session) => session.play_time,
                None => 0,
            },
    {
        match &self.session {
            Some(session) => session.play_time,
            None => 0,
        }
    }

    /// The whole length of the sound of the active session, in nanoseconds;
    /// zero without a session.
    pub fn play_duration(&self) -> (nanos: u128)
        ensures
            nanos == match self.session() {
                Some(session) => session.play_duration,
                None => 0,
            },
    {
        match &self.session {
            Some(session) => session.play_duration,
            None => 0,
        }
    }

    /// Takes note of what the engine answered when it was told to stop the
    /// sound of the active session at once. Where the engine stopped it, the
    /// session ends; where it could not, the session stays and the failure is
    /// handed on. Without a session there was nothing to stop, which is no
    /// failure.
    pub fn stop_sound(&mut self, stopped: Result<(), String>) -> (result: Result<(), String>)
        ensures
            old(self).session() is None ==> result is Ok && final(self).session() is None,
            old(self).session() is Some && stopped is Ok ==> result is Ok && final(self).session() is None,
            old(self).session() is Some && stopped is Err ==> result == stopped && final(self).session() == old(self).session(),
    {
        if self.session.is_none() {
            return Ok(());
        }
        match stopped {
            Ok(()) => {
                self.session = None;
                Ok(())
            },
            Err(detail) => Err(detail),
        }
    }

    /// Takes note of a sound that the engine has started to play: it becomes
    /// the session, with no time played yet.
    pub fn started_sound(&mut self, handle: H, play_duration: u128)
        ensures
            final(self).session() == Some(PlaybackSession { handle, play_duration, play_time: 0 }),
    {
        self.session = Some(PlaybackSession { handle, play_duration, play_time: 0 });
    }

    /// Whether a sound is playing: there is a session and the engine reports
    /// it as playing.
    pub fn is_playing(&self, transport: TransportState) -> (playing: bool)
        ensures
            playing == self.playing(transport),
    {
        match transport {
            TransportState::Playing => self.session.is_some(),
            _ => false,
        }
    }

    /// Adds to the time played, while a sound is playing; the time stops at
    /// the greatest that can be represented.
    pub fn add_playtime(&mut self, transport: TransportState, delta: u128)
        ensures
            final(self).session() == advanced(old(self).session(), transport, delta),
    {
        match transport {
            TransportState::Playing => {
                match &mut self.session {
                    Some(session) => {
                        session.play_time = session.play_time.saturating_add(delta);
                    },
                    None => {},
                }
            },
            _ => {},
        }
    }
}

/// A session after `delta` nanoseconds have passed: while the engine reports
/// the sound as playing, the time played grows by `delta`; else nothing
/// changes.
pub open spec fn advanced<H>(
    session: Option<PlaybackSession<H>>,
    transport: TransportState,
    delta: u128,
) -> Option<PlaybackSession<H>> {
    match session {
        Some(s) => if transport is Playing {
            Some(
                PlaybackSession {
                    handle: s.handle,
                    play_duration: s.play_duration,
                    play_time: saturating_sum(s.play_time, delta),
                },
            )
        } else {
            session
        },
        None => None,
    }
}

/// The time played never falls: while a sound is playing it grows by exactly
/// `delta`, or to the greatest time that can be represented where the sum
/// would pass it; while none is playing it stays.
pub proof fn lemma_advance<H>(session: PlaybackSession<H>, transport: TransportState, delta: u128)
    ensures
        advanced(Some(session), transport, delta) is Some,
        advanced(Some(session), transport, delta)->0.play_time >= session.play_time,
        advanced(Some(session), transport, delta)->0.play_time <= u128::MAX,
        !(transport is Playing) ==> advanced(Some(session), transport, delta) == Some(session),
        transport is Playing && session.play_time + delta <= u128::MAX ==> advanced(
            Some(session),
            transport,
            delta,
        )->0.play_time == session.play_time + delta,
        transport is Playing && session.play_time + delta > u128::MAX ==> advanced(
            Some(session),
            transport,
            delta,
        )->0.play_time == u128::MAX,
{
}

} // verus!
