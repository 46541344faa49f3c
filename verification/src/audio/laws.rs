//! Properties of the queue and the player that span several operations.
use super::player::{
    player_finish, player_pause, player_start_next, player_resume, player_set_volume, player_skip, player_stop,
    player_toggle_mute, PlayerState, PlayerView,
};
use super::{
    history_after, queue_bounded, queue_move, queue_pop, queue_previous, queue_push,
    queue_push_front, queue_record, with_items, QueueError, QueueView, RepeatMode, Track,
    HISTORY_LIMIT,
};
use vstd::multiset::Multiset;
use vstd::prelude::*;

verus! {

broadcast use vstd::seq_lib::group_to_multiset_ensures;

/// The queue is first in, first out: after a track is queued at the back,
/// the next track taken is the old front (or that track, on an empty queue).
pub proof fn law_queue_fifo(q: QueueView, t: Track)
    requires
        q.items.len() < q.max_size,
    ensures
        queue_pop(queue_push(q, t).0) == (
            with_items(q, q.items.push(t).drop_first()),
            Ok::<Track, QueueError>(
                if q.items.len() == 0 {
                    t
                } else {
                    q.items[0]
                },
            ),
        ),
{
}

/// Taking the front track undoes queuing a track at the front.
pub proof fn law_push_front_then_pop(q: QueueView, t: Track)
    requires
        q.items.len() < q.max_size,
    ensures
        queue_pop(queue_push_front(q, t).0) == (q, Ok::<Track, QueueError>(t)),
{
    assert((seq![t] + q.items).drop_first() =~= q.items);
    assert(with_items(q, q.items) == q);
}

/// A full queue refuses a track and stays as it was.
pub proof fn law_full_queue_refuses(q: QueueView, t: Track)
    requires
        q.items.len() >= q.max_size,
    ensures
        queue_push(q, t) == (q, Err::<(), QueueError>(QueueError::Full)),
        queue_push_front(q, t) == (q, Err::<(), QueueError>(QueueError::Full)),
{
}

/// Moving a track reorders the queue without losing or adding a track.
pub proof fn law_move_keeps_tracks(q: QueueView, from: int, to: int)
    ensures
        queue_move(q, from, to).0.items.to_multiset() == q.items.to_multiset(),
        queue_move(q, from, to).0.items.len() == q.items.len(),
        queue_move(q, from, to).0.history == q.history,
{
    if 0 <= from < q.items.len() && 0 <= to < q.items.len() {
        let r = q.items.remove(from);
        vstd::seq_lib::to_multiset_remove(q.items, from);
        vstd::seq_lib::to_multiset_insert(r, to, q.items[from]);
        assert(q.items.to_multiset().remove(q.items[from]).insert(q.items[from])
            =~= q.items.to_multiset());
    }
}

/// Every queue operation keeps the queue within its limit and the history
/// within [`HISTORY_LIMIT`].
pub proof fn law_queue_stays_bounded(q: QueueView, t: Track, i: int, j: int)
    requires
        queue_bounded(q),
    ensures
        queue_bounded(queue_push(q, t).0),
        queue_bounded(queue_push_front(q, t).0),
        queue_bounded(queue_pop(q).0),
        queue_bounded(queue_move(q, i, j).0),
        queue_bounded(queue_record(q, t)),
        queue_bounded(queue_previous(q).0),
{
}

/// The history remembers the most recent started tracks, newest last: once
/// a track is recorded it is the last entry, and the entries before it are
/// the previous history, less its oldest entry when the limit is reached.
pub proof fn law_history_keeps_latest(h: Seq<Track>, t: Track)
    requires
        h.len() <= HISTORY_LIMIT,
    ensures
        history_after(h, t).len() <= HISTORY_LIMIT,
        history_after(h, t).last() == t,
        history_after(h, t).drop_last() == (if h.len() == HISTORY_LIMIT {
            h.drop_first()
        } else {
            h
        }),
{
    if h.len() == HISTORY_LIMIT {
        assert(h.push(t).drop_first().drop_last() =~= h.drop_first());
    } else {
        assert(h.push(t).drop_last() =~= h);
    }
}

/// Taking back the previous track undoes recording it, while the history is
/// below its limit.
pub proof fn law_previous_undoes_record(q: QueueView, t: Track)
    requires
        q.history.len() < HISTORY_LIMIT,
    ensures
        queue_previous(queue_record(q, t)) == (q, Some(t)),
{
    assert(q.history.push(t).drop_last() =~= q.history);
}

/// Pausing a playing player and resuming it gives back the same player.
pub proof fn law_pause_resume_round_trip(p: PlayerView)
    requires
        p.state == PlayerState::Playing,
    ensures
        player_pause(p).1,
        player_resume(player_pause(p).0) == (p, true),
{
}

/// Pausing only acts on a playing player, resuming only on a paused one.
pub proof fn law_pause_resume_guarded(p: PlayerView)
    ensures
        !player_pause(p).1 <==> p.state != PlayerState::Playing,
        !player_pause(p).1 ==> player_pause(p).0 == p,
        !player_resume(p).1 <==> p.state != PlayerState::Paused,
        !player_resume(p).1 ==> player_resume(p).0 == p,
{
}

/// Toggling mute twice restores the player.
pub proof fn law_toggle_mute_twice(p: PlayerView)
    ensures
        player_toggle_mute(player_toggle_mute(p).0).0 == p,
        player_toggle_mute(p).1 == !p.muted,
{
}

/// The volume never exceeds 100; a requested volume up to 100 is taken as
/// it is; the player is muted exactly when the volume is zero.
pub proof fn law_volume_bounds(p: PlayerView, v: u8)
    ensures
        player_set_volume(p, v).1 <= 100,
        player_set_volume(p, v).0.volume == player_set_volume(p, v).1,
        v <= 100 ==> player_set_volume(p, v).1 == v,
        v > 100 ==> player_set_volume(p, v).1 == 100,
        player_set_volume(p, v).0.muted <==> player_set_volume(p, v).1 == 0,
{
}

/// With `RepeatMode::Track`, the track that ends is played again and the
/// queue is not touched.
pub proof fn law_repeat_track_replays(p: PlayerView, t: Track)
    requires
        p.repeat == RepeatMode::Track,
        p.current == Some(t),
    ensures
        player_finish(p).1 == Some(t),
        player_finish(p).0.current == Some(t),
        player_finish(p).0.state == PlayerState::Playing,
        player_finish(p).0.queue.items == p.queue.items,
        player_finish(p).0.queue == queue_record(p.queue, t),
{
}

/// With `RepeatMode::Queue`, the track that ends goes to the back of the
/// queue (when there is room) and the front becomes current: no track is
/// lost, current and queued tracks together stay the same.
pub proof fn law_repeat_queue_cycles(p: PlayerView, t: Track)
    requires
        p.repeat == RepeatMode::Queue,
        p.current == Some(t),
        p.queue.items.len() < p.queue.max_size,
    ensures
        player_finish(p).1 == Some(if p.queue.items.len() == 0 {
            t
        } else {
            p.queue.items[0]
        }),
        player_finish(p).0.current == player_finish(p).1,
        player_finish(p).0.queue.items == p.queue.items.push(t).drop_first(),
        player_finish(p).0.queue.items.to_multiset().insert(player_finish(p).1->0)
            == p.queue.items.to_multiset().insert(t),
{
    let s = p.queue.items.push(t);
    assert(s =~= seq![s[0]] + s.drop_first());
    vstd::seq_lib::lemma_multiset_commutative(seq![s[0]], s.drop_first());
    assert(seq![s[0]].to_multiset() =~= Multiset::<Track>::empty().insert(s[0])) by {
        broadcast use vstd::multiset::group_multiset_axioms;

        assert(seq![s[0]].drop_first() =~= Seq::<Track>::empty());
    }
    assert(s.drop_first().to_multiset().insert(s[0]) =~= s.to_multiset()) by {
        broadcast use vstd::multiset::group_multiset_axioms;

    }
}

/// With `RepeatMode::Off`, the track that ends is dropped and the front of
/// the queue becomes current; an empty queue leaves the player idle.
pub proof fn law_repeat_off_advances(p: PlayerView)
    requires
        p.repeat == RepeatMode::Off,
    ensures
        p.queue.items.len() > 0 ==> player_finish(p).1 == Some(p.queue.items[0])
            && player_finish(p).0.queue.items == p.queue.items.drop_first(),
        p.queue.items.len() == 0 ==> player_finish(p).1 is None && player_finish(p).0.state
            == PlayerState::Idle && player_finish(p).0.current is None,
{
}

/// Whatever the repeat mode, the track that `finish_current` returns is the
/// one now playing: the player holds it as its current track, from position
/// zero, and is `Playing`; when none is returned the player has no current
/// track and is `Idle`. The repeat mode, the volume and the mute flag stay.
pub proof fn law_finish_plays_the_returned_track(p: PlayerView)
    ensures
        player_finish(p).0.current == player_finish(p).1,
        player_finish(p).0.state == (if player_finish(p).1 is Some {
            PlayerState::Playing
        } else {
            PlayerState::Idle
        }),
        player_finish(p).0.position_secs == 0,
        player_finish(p).0.repeat == p.repeat,
        player_finish(p).0.volume == p.volume,
        player_finish(p).0.muted == p.muted,
        p.repeat == RepeatMode::Track && p.current is Some ==> player_finish(p).1 == p.current,
        p.repeat == RepeatMode::Queue && p.current is Some && p.queue.items.len()
            < p.queue.max_size ==> player_finish(p).1 is Some,
        p.queue.items.len() > 0 ==> player_finish(p).1 is Some,
{
}

/// Starting the next track without a current one plays the track it
/// returns, in the same way: it becomes current, from position zero, and the
/// player is `Playing`; with an empty queue the player is `Idle`.
pub proof fn law_start_next_plays_the_returned_track(p: PlayerView)
    requires
        p.current is None,
    ensures
        player_start_next(p).0.current == player_start_next(p).1,
        player_start_next(p).0.state == (if player_start_next(p).1 is Some {
            PlayerState::Playing
        } else {
            PlayerState::Idle
        }),
        player_start_next(p).0.position_secs == 0,
        player_start_next(p).1 is Some <==> p.queue.items.len() > 0,
{
}

/// Skipping drops the current track, whatever the repeat mode, and starts
/// the front of the queue.
pub proof fn law_skip_takes_front(p: PlayerView)
    ensures
        player_skip(p).1 == (if p.queue.items.len() > 0 {
            Some(p.queue.items[0])
        } else {
            None::<Track>
        }),
        player_skip(p).0.current == player_skip(p).1,
{
}

/// Stopping forgets the current track and keeps the queue.
pub proof fn law_stop_keeps_queue(p: PlayerView)
    ensures
        player_stop(p).current is None,
        player_stop(p).state == PlayerState::Stopped,
        player_stop(p).queue == p.queue,
        player_stop(p).position_secs == 0,
{
}

} // verus!
