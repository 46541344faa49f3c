//! The state kept for one guild (server).
use crate::audio::player::{clamp_volume, player_coherent, PlayerView};
use crate::audio::queue_push;
use crate::audio::{Player, PlayerState, QueueError, RepeatMode, Track};
use crate::config::Config;
use vstd::prelude::*;

verus! {

/// One guild's channels and player.
#[derive(Debug)]
pub struct GuildSession {
    pub guild_id: u64,
    pub voice_channel_id: Option<u64>,
    pub text_channel_id: Option<u64>,
    pub player: Player,
}

impl Clone for GuildSession {
    /// A session with the same ids and a copy of the player.
    fn clone(&self) -> (r: Self)
        ensures
            r.guild_id == self.guild_id,
            r.voice_channel_id == self.voice_channel_id,
            r.text_channel_id == self.text_channel_id,
            r.player@ == self.player@,
    {
        GuildSession {
            guild_id: self.guild_id,
            voice_channel_id: self.voice_channel_id,
            text_channel_id: self.text_channel_id,
            player: self.player.clone(),
        }
    }
}

impl GuildSession {
    /// A session with no channels and an idle player sized and tuned by
    /// `config`.
    pub fn new(guild_id: u64, config: &Config) -> (s: GuildSession)
        ensures
            s.guild_id == guild_id,
            s.voice_channel_id is None,
            s.text_channel_id is None,
            s.player.wf(),
            player_coherent(s.player@),
            s.player@.state == PlayerState::Idle,
            s.player@.current is None,
            s.player@.queue.items == Seq::<Track>::empty(),
            s.player@.queue.history == Seq::<Track>::empty(),
            s.player@.queue.max_size == config.max_queue_size,
            s.player@.repeat == RepeatMode::Off,
            s.player@.volume == clamp_volume(config.default_volume),
            !s.player@.muted,
            s.player@.position_secs == 0,
    {
        GuildSession {
            guild_id,
            voice_channel_id: None,
            text_channel_id: None,
            player: Player::new(config.max_queue_size, config.default_volume),
        }
    }

    /// Queues `track` on the player (see [`Player::enqueue`]).
    pub fn enqueue(&mut self, track: Track) -> (r: Result<bool, QueueError>)
        requires
            old(self).player.wf(),
        ensures
            final(self).player.wf(),
            final(self).guild_id == old(self).guild_id,
            final(self).voice_channel_id == old(self).voice_channel_id,
            final(self).text_channel_id == old(self).text_channel_id,
            final(self).player@ == (PlayerView {
                queue: queue_push(old(self).player@.queue, track).0,
                ..old(self).player@
            }),
            r == (match queue_push(old(self).player@.queue, track).1 {
                Ok(_) => Ok::<bool, QueueError>(old(self).player@.current is None),
                Err(e) => Err(e),
            }),
    {
        self.player.enqueue(track)
    }

    /// Sets the repeat mode of the player.
    pub fn set_repeat(&mut self, mode: RepeatMode)
        ensures
            final(self).guild_id == old(self).guild_id,
            final(self).voice_channel_id == old(self).voice_channel_id,
            final(self).text_channel_id == old(self).text_channel_id,
            final(self).player.queue == old(self).player.queue,
            final(self).player@ == (PlayerView { repeat: mode, ..old(self).player@ }),
    {
        self.player.set_repeat(mode);
    }
}

} // verus!
