//! The playback state machine of one guild.
use super::{
    clone_track_opt, queue_pop, queue_push, queue_record, QueueError, QueueView, RepeatMode, Track,
    TrackQueue,
};
use vstd::prelude::*;

verus! {

/// Where playback stands.
#[derive(Debug, Clone, Copy, PartialEq, Eq, Structural)]
pub enum PlayerState {
    Idle,
    Loading,
    Playing,
    Paused,
    Stopped,
    Recovering,
    Failed,
}

/// The current track, the queue behind it, and the playback settings.
#[derive(Debug)]
pub struct Player {
    pub state: PlayerState,
    pub current: Option<Track>,
    pub queue: TrackQueue,
    pub repeat: RepeatMode,
    pub volume: u8,
    pub muted: bool,
    pub position_secs: u64,
}

/// The abstract state of a [`Player`].
pub struct PlayerView {
    pub state: PlayerState,
    pub current: Option<Track>,
    pub queue: QueueView,
    pub repeat: RepeatMode,
    pub volume: u8,
    pub muted: bool,
    pub position_secs: u64,
}

impl View for Player {
    type V = PlayerView;

    open spec fn view(&self) -> PlayerView {
        PlayerView {
            state: self.state,
            current: self.current,
            queue: self.queue@,
            repeat: self.repeat,
            volume: self.volume,
            muted: self.muted,
            position_secs: self.position_secs,
        }
    }
}

impl Clone for Player {
    /// A player in the same state, with a copy of the queue.
    fn clone(&self) -> (r: Self)
        ensures
            r@ == self@,
    {
        Player {
            state: self.state,
            current: clone_track_opt(&self.current),
            queue: self.queue.clone(),
            repeat: self.repeat,
            volume: self.volume,
            muted: self.muted,
            position_secs: self.position_secs,
        }
    }
}

/// The volume limit of the player.
pub const MAX_VOLUME: u8 = 100;

pub open spec fn clamp_volume(v: u8) -> u8 {
    if v > MAX_VOLUME {
        MAX_VOLUME
    } else {
        v
    }
}

/// A coherent player: the volume is within 0..=100, a playing or paused
/// player has a current track, and without a current track the position is
/// at zero.
pub open spec fn player_coherent(p: PlayerView) -> bool {
    &&& p.volume <= MAX_VOLUME
    &&& (p.state == PlayerState::Playing || p.state == PlayerState::Paused) ==> p.current is Some
    &&& p.current is None ==> p.position_secs == 0
}

pub open spec fn ok_track(r: Result<Track, QueueError>) -> Option<Track> {
    match r {
        Ok(t) => Some(t),
        Err(_) => None,
    }
}

/// The player once `next` has been made current: position reset, state
/// `Playing` or `Idle`, and a started track recorded in the history.
pub open spec fn player_begin(p: PlayerView, q: QueueView, next: Option<Track>) -> PlayerView {
    PlayerView {
        state: if next is Some {
            PlayerState::Playing
        } else {
            PlayerState::Idle
        },
        current: next,
        queue: match next {
            Some(t) => queue_record(q, t),
            None => q,
        },
        repeat: p.repeat,
        volume: p.volume,
        muted: p.muted,
        position_secs: 0,
    }
}

/// `start_next`: with a current track nothing changes and that track is
/// returned; otherwise the front of the queue (if any) becomes current.
pub open spec fn player_start_next(p: PlayerView) -> (PlayerView, Option<Track>) {
    if p.current is Some {
        (p, p.current)
    } else {
        let (q, r) = queue_pop(p.queue);
        let next = ok_track(r);
        (player_begin(p, q, next), next)
    }
}

/// `finish_current`: the current track ends and the next one is chosen by
/// the repeat mode. `Track` replays the ended track (or takes the front of
/// the queue if there was none), `Queue` sends the ended track to the back
/// (when there is room) before taking the front, `Off` takes the front.
pub open spec fn player_finish(p: PlayerView) -> (PlayerView, Option<Track>) {
    let previous = p.current;
    let (q, next) = match p.repeat {
        RepeatMode::Track => {
            if previous is Some {
                (p.queue, previous)
            } else {
                let (q1, r) = queue_pop(p.queue);
                (q1, ok_track(r))
            }
        },
        RepeatMode::Queue => {
            let q0 = match previous {
                Some(t) => queue_push(p.queue, t).0,
                None => p.queue,
            };
            let (q1, r) = queue_pop(q0);
            (q1, ok_track(r))
        },
        RepeatMode::Off => {
            let (q1, r) = queue_pop(p.queue);
            (q1, ok_track(r))
        },
    };
    (player_begin(p, q, next), next)
}

pub open spec fn player_with_state(p: PlayerView, s: PlayerState) -> PlayerView {
    PlayerView { state: s, ..p }
}

pub open spec fn player_pause(p: PlayerView) -> (PlayerView, bool) {
    if p.state == PlayerState::Playing {
        (player_with_state(p, PlayerState::Paused), true)
    } else {
        (p, false)
    }
}

pub open spec fn player_resume(p: PlayerView) -> (PlayerView, bool) {
    if p.state == PlayerState::Paused {
        (player_with_state(p, PlayerState::Playing), true)
    } else {
        (p, false)
    }
}

pub open spec fn player_stop(p: PlayerView) -> PlayerView {
    PlayerView { state: PlayerState::Stopped, current: None, position_secs: 0, ..p }
}

pub open spec fn player_skip(p: PlayerView) -> (PlayerView, Option<Track>) {
    player_start_next(PlayerView { current: None, ..p })
}

pub open spec fn player_set_volume(p: PlayerView, v: u8) -> (PlayerView, u8) {
    let vol = clamp_volume(v);
    (PlayerView { volume: vol, muted: vol == 0, ..p }, vol)
}

pub open spec fn player_toggle_mute(p: PlayerView) -> (PlayerView, bool) {
    (PlayerView { muted: !p.muted, ..p }, !p.muted)
}

/// Whole seconds of a duration, as `Duration::as_secs` reports them.
pub uninterp spec fn duration_secs(d: std::time::Duration) -> u64;

/// Calls `Duration::as_secs`, which returns the whole number of seconds of
/// the duration; the contract names that number.
#[verifier::external_body]
fn whole_seconds(d: std::time::Duration) -> (s: u64)
    ensures
        s == duration_secs(d),
{
    d.as_secs()
}

impl Player {
    pub open spec fn wf(&self) -> bool {
        self.queue.wf()
    }

    /// A fresh idle player; the volume is clamped to 100.
    pub fn new(max_queue: usize, volume: u8) -> (p: Player)
        ensures
            p.wf(),
            player_coherent(p@),
            p@.state == PlayerState::Idle,
            p@.current is None,
            p@.queue.items == Seq::<Track>::empty(),
            p@.queue.history == Seq::<Track>::empty(),
            p@.queue.max_size == max_queue,
            p@.repeat == RepeatMode::Off,
            p@.volume == clamp_volume(volume),
            !p@.muted,
            p@.position_secs == 0,
    {
        Player {
            state: PlayerState::Idle,
            current: None,
            queue: TrackQueue::new(max_queue),
            repeat: RepeatMode::Off,
            volume: if volume > MAX_VOLUME {
                MAX_VOLUME
            } else {
                volume
            },
            muted: false,
            position_secs: 0,
        }
    }

    /// Queues `track`; `Ok(true)` means nothing was playing, so the caller
    /// should start playback.
    pub fn enqueue(&mut self, track: Track) -> (r: Result<bool, QueueError>)
        requires
            old(self).wf(),
        ensures
            final(self).wf(),
            final(self)@ == (PlayerView { queue: queue_push(old(self)@.queue, track).0, ..old(self)@ }),
            r == (match queue_push(old(self)@.queue, track).1 {
                Ok(_) => Ok::<bool, QueueError>(old(self)@.current is None),
                Err(e) => Err(e),
            }),
            player_coherent(old(self)@) ==> player_coherent(final(self)@),
    {
        let start = self.current.is_none();
        match self.queue.push(track) {
            Ok(()) => Ok(start),
            Err(e) => Err(e),
        }
    }

    /// Starts the front track when nothing is current.
    pub fn start_next(&mut self) -> (r: Option<Track>)
        requires
            old(self).wf(),
        ensures
            final(self).wf(),
            (final(self)@, r) == player_start_next(old(self)@),
            player_coherent(old(self)@) ==> player_coherent(final(self)@),
    {
        if self.current.is_some() {
            return clone_track_opt(&self.current);
        }
        self.current = match self.queue.pop() {
            Ok(t) => Some(t),
            Err(_) => None,
        };
        self.position_secs = 0;
        self.state = if self.current.is_some() {
            PlayerState::Playing
        } else {
            PlayerState::Idle
        };
        if let Some(track) = clone_track_opt(&self.current) {
            self.queue.record_history(track);
        }
        clone_track_opt(&self.current)
    }

    /// Ends the current track and moves on according to the repeat mode.
    pub fn finish_current(&mut self) -> (r: Option<Track>)
        requires
            old(self).wf(),
        ensures
            final(self).wf(),
            (final(self)@, r) == player_finish(old(self)@),
            player_coherent(old(self)@) ==> player_coherent(final(self)@),
    {
        let previous = self.current.take();
        let next = match self.repeat {
            RepeatMode::Track => match previous {
                Some(t) => Some(t),
                None => match self.queue.pop() {
                    Ok(t) => Some(t),
                    Err(_) => None,
                },
            },
            RepeatMode::Queue => {
                if let Some(track) = previous {
                    let _ = self.queue.push(track);
                }
                match self.queue.pop() {
                    Ok(t) => Some(t),
                    Err(_) => None,
                }
            },
            RepeatMode::Off => match self.queue.pop() {
                Ok(t) => Some(t),
                Err(_) => None,
            },
        };
        self.current = clone_track_opt(&next);
        self.position_secs = 0;
        self.state = if next.is_some() {
            PlayerState::Playing
        } else {
            PlayerState::Idle
        };
        if let Some(track) = clone_track_opt(&next) {
            self.queue.record_history(track);
        }
        next
    }

    pub fn pause(&mut self) -> (r: bool)
        ensures
            (final(self)@, r) == player_pause(old(self)@),
            final(self).queue == old(self).queue,
            player_coherent(old(self)@) ==> player_coherent(final(self)@),
    {
        if self.state == PlayerState::Playing {
            self.state = PlayerState::Paused;
            true
        } else {
            false
        }
    }

    pub fn resume(&mut self) -> (r: bool)
        ensures
            (final(self)@, r) == player_resume(old(self)@),
            final(self).queue == old(self).queue,
            player_coherent(old(self)@) ==> player_coherent(final(self)@),
    {
        if self.state == PlayerState::Paused {
            self.state = PlayerState::Playing;
            true
        } else {
            false
        }
    }

    pub fn stop(&mut self)
        ensures
            final(self)@ == player_stop(old(self)@),
            final(self).queue == old(self).queue,
            player_coherent(old(self)@) ==> player_coherent(final(self)@),
    {
        self.state = PlayerState::Stopped;
        self.current = None;
        self.position_secs = 0;
    }

    /// Drops the current track and starts the front of the queue.
    pub fn skip(&mut self) -> (r: Option<Track>)
        requires
            old(self).wf(),
        ensures
            final(self).wf(),
            (final(self)@, r) == player_skip(old(self)@),
            player_coherent(old(self)@) ==> player_coherent(final(self)@),
    {
        self.current = None;
        self.start_next()
    }

    /// Moves the position within the current track; refused without one.
    pub fn seek(&mut self, position: std::time::Duration) -> (r: bool)
        ensures
            r == (old(self)@.current is Some),
            r ==> final(self)@ == (PlayerView { position_secs: duration_secs(position), ..old(self)@ }),
            !r ==> final(self)@ == old(self)@,
            final(self).queue == old(self).queue,
            player_coherent(old(self)@) ==> player_coherent(final(self)@),
    {
        if self.current.is_some() {
            self.position_secs = whole_seconds(position);
            true
        } else {
            false
        }
    }

    /// Sets the volume, clamped to 100; a volume of zero mutes, any other
    /// unmutes. Returns the volume now in effect.
    pub fn set_volume(&mut self, volume: u8) -> (r: u8)
        ensures
            (final(self)@, r) == player_set_volume(old(self)@, volume),
            final(self).queue == old(self).queue,
            player_coherent(old(self)@) ==> player_coherent(final(self)@),
    {
        self.volume = if volume > MAX_VOLUME {
            MAX_VOLUME
        } else {
            volume
        };
        self.muted = self.volume == 0;
        self.volume
    }

    pub fn toggle_mute(&mut self) -> (r: bool)
        ensures
            (final(self)@, r) == player_toggle_mute(old(self)@),
            final(self).queue == old(self).queue,
            player_coherent(old(self)@) ==> player_coherent(final(self)@),
    {
        self.muted = !self.muted;
        self.muted
    }

    pub fn set_repeat(&mut self, mode: RepeatMode)
        ensures
            final(self)@ == (PlayerView { repeat: mode, ..old(self)@ }),
            final(self).queue == old(self).queue,
            player_coherent(old(self)@) ==> player_coherent(final(self)@),
    {
        self.repeat = mode;
    }
}

} // verus!
