//! What the chat commands do to a guild session, and the replies they give.
use crate::audio::player::{
    player_skip, player_start_next, player_stop,
    PlayerView,
};
use crate::discord::runtime::{skip_reply, skip_text};
use crate::discord::{Command, CommandView};
use crate::audio::{
    queue_error_text, queue_previous, queue_push, queue_push_front, queue_remove,
    with_items, QueueError, QueueView, RepeatMode, Track,
};
use crate::guild::GuildSession;
use vstd::prelude::*;
use vstd::string::StringExecFns;

verus! {

broadcast use vstd::string::group_string_axioms;

/// The decimal digit character of `d`.
pub open spec fn digit_char(d: nat) -> char {
    if d == 0 {
        '0'
    } else if d == 1 {
        '1'
    } else if d == 2 {
        '2'
    } else if d == 3 {
        '3'
    } else if d == 4 {
        '4'
    } else if d == 5 {
        '5'
    } else if d == 6 {
        '6'
    } else if d == 7 {
        '7'
    } else if d == 8 {
        '8'
    } else {
        '9'
    }
}

/// The decimal representation of `n`, without leading zeros.
pub open spec fn decimal(n: nat) -> Seq<char>
    decreases n,
{
    if n < 10 {
        seq![digit_char(n)]
    } else {
        decimal(n / 10).push(digit_char(n % 10))
    }
}

fn digit_str(d: usize) -> (s: &'static str)
    requires
        d < 10,
    ensures
        s@ == seq![digit_char(d as nat)],
{
    proof {
        reveal_strlit("0");
        reveal_strlit("1");
        reveal_strlit("2");
        reveal_strlit("3");
        reveal_strlit("4");
        reveal_strlit("5");
        reveal_strlit("6");
        reveal_strlit("7");
        reveal_strlit("8");
        reveal_strlit("9");
    }
    let s = if d == 0 {
        "0"
    } else if d == 1 {
        "1"
    } else if d == 2 {
        "2"
    } else if d == 3 {
        "3"
    } else if d == 4 {
        "4"
    } else if d == 5 {
        "5"
    } else if d == 6 {
        "6"
    } else if d == 7 {
        "7"
    } else if d == 8 {
        "8"
    } else {
        "9"
    };
    assert(s@ =~= seq![digit_char(d as nat)]);
    s
}

/// Appends the decimal representation of `n` to `s`.
pub fn push_decimal(s: &mut String, n: usize)
    ensures
        final(s)@ == old(s)@ + decimal(n as nat),
    decreases n,
{
    if n >= 10 {
        push_decimal(s, n / 10);
    }
    s.append(digit_str(n % 10));
    assert(decimal(n as nat) == if n < 10 {
        seq![digit_char(n as nat)]
    } else {
        decimal((n / 10) as nat).push(digit_char((n % 10) as nat))
    });
    assert(final(s)@ =~= old(s)@ + decimal(n as nat)) by {
        if n < 10 {
            assert(n % 10 == n);
        }
    }
}

/// The player after each of `tracks` was queued in turn, stopping at the
/// first refusal, and that refusal if any.
pub open spec fn enqueue_all(p: PlayerView, tracks: Seq<Track>) -> (PlayerView, Result<(), QueueError>)
    decreases tracks.len(),
{
    if tracks.len() == 0 {
        (p, Ok(()))
    } else {
        let (p1, r) = enqueue_all(p, tracks.drop_last());
        if r is Err {
            (p1, r)
        } else {
            let (q, r2) = queue_push(p1.queue, tracks.last());
            (PlayerView { queue: q, ..p1 }, r2)
        }
    }
}

/// The reply to a successful play request for `count` tracks.
pub open spec fn added_reply(count: nat) -> Seq<char> {
    decimal(count) + " faixa(s) adicionada(s)"@
}

/// What `play_resolved` does: queue every track (stopping at the first
/// refusal, whose description is returned), then start playback when
/// nothing is current.
pub open spec fn play_outcome(p: PlayerView, tracks: Seq<Track>) -> (PlayerView, Result<Seq<char>, Seq<char>>) {
    let (p1, r) = enqueue_all(p, tracks);
    match r {
        Err(e) => (p1, Err(queue_error_text(e))),
        Ok(_) => {
            let p2 = if p1.current is None {
                player_start_next(p1).0
            } else {
                p1
            };
            (p2, Ok(added_reply(tracks.len())))
        },
    }
}

/// The part of a play request that follows resolution: queues the resolved
/// tracks on the session and starts playback when nothing is current.
pub fn play_resolved(session: &mut GuildSession, tracks: Vec<Track>) -> (r: Result<String, String>)
    requires
        old(session).player.wf(),
    ensures
        final(session).player.wf(),
        final(session).guild_id == old(session).guild_id,
        final(session).voice_channel_id == old(session).voice_channel_id,
        final(session).text_channel_id == old(session).text_channel_id,
        final(session).player@ == play_outcome(old(session).player@, tracks@).0,
        match (r, play_outcome(old(session).player@, tracks@).1) {
            (Ok(a), Ok(b)) => a@ == b,
            (Err(a), Err(b)) => a@ == b,
            _ => false,
        },
{
    let count = tracks.len();
    let ghost all = tracks@;
    let ghost p0 = session.player@;
    let mut i: usize = 0;
    while i < tracks.len()
        invariant
            count == all.len(),
            tracks@ == all,
            i <= count,
            session.player.wf(),
            session.guild_id == old(session).guild_id,
            session.voice_channel_id == old(session).voice_channel_id,
            session.text_channel_id == old(session).text_channel_id,
            p0 == old(session).player@,
            enqueue_all(p0, all.take(i as int)) == (session.player@, Ok::<(), QueueError>(())),
        decreases count - i,
    {
        let t = tracks[i].clone();
        assert(all.take(i + 1).drop_last() =~= all.take(i as int));
        match session.enqueue(t) {
            Ok(_) => {},
            Err(e) => {
                proof {
                    lemma_enqueue_all_stops(p0, all, i as int + 1);
                }
                return Err(e.message());
            },
        }
        i = i + 1;
    }
    assert(all.take(count as int) =~= all);
    if session.player.current.is_none() {
        let _ = session.player.start_next();
    }
    let mut reply = String::new();
    push_decimal(&mut reply, count);
    reply.append(" faixa(s) adicionada(s)");
    Ok(reply)
}

/// Once queuing has failed, queuing more tracks changes nothing.
proof fn lemma_enqueue_all_stops(p: PlayerView, all: Seq<Track>, k: int)
    requires
        0 < k <= all.len(),
        enqueue_all(p, all.take(k)).1 is Err,
    ensures
        enqueue_all(p, all) == enqueue_all(p, all.take(k)),
    decreases all.len() - k,
{
    if k == all.len() {
        assert(all.take(k) =~= all);
    } else {
        assert(all.take(k + 1).drop_last() =~= all.take(k));
        assert(enqueue_all(p, all.take(k + 1)) == enqueue_all(p, all.take(k)));
        lemma_enqueue_all_stops(p, all, k + 1);
    }
}

/// The reply once the queue was shuffled.
pub fn shuffle_queue(session: &mut GuildSession) -> (r: Result<String, String>)
    requires
        old(session).player.wf(),
    ensures
        final(session).guild_id == old(session).guild_id,
        final(session).voice_channel_id == old(session).voice_channel_id,
        final(session).text_channel_id == old(session).text_channel_id,
        final(session).player.wf(),
        final(session).player@.queue.items.to_multiset() == old(session).player@.queue.items.to_multiset(),
        final(session).player@.queue.items.len() == old(session).player@.queue.items.len(),
        final(session).player@.queue.history == old(session).player@.queue.history,
        final(session).player@.queue.max_size == old(session).player@.queue.max_size,
        final(session).player@ == (PlayerView { queue: final(session).player@.queue, ..old(session).player@ }),
        r matches Ok(m) && m@ == "fila embaralhada"@,
{
    session.player.queue.shuffle();
    Ok("fila embaralhada".to_owned())
}

/// The name of a repeat mode, as `Debug` prints it.
pub open spec fn repeat_name(m: RepeatMode) -> Seq<char> {
    match m {
        RepeatMode::Off => "Off"@,
        RepeatMode::Track => "Track"@,
        RepeatMode::Queue => "Queue"@,
    }
}

/// Sets the repeat mode and names it in the reply.
pub fn set_repeat_mode(session: &mut GuildSession, mode: RepeatMode) -> (r: Result<String, String>)
    ensures
        final(session).guild_id == old(session).guild_id,
        final(session).voice_channel_id == old(session).voice_channel_id,
        final(session).text_channel_id == old(session).text_channel_id,
        final(session).player@ == (PlayerView { repeat: mode, ..old(session).player@ }),
        final(session).player.queue == old(session).player.queue,
        r matches Ok(m) && m@ == "repeat definido para "@ + repeat_name(mode),
{
    session.set_repeat(mode);
    let mut s = "repeat definido para ".to_owned();
    let name = match mode {
        RepeatMode::Off => "Off",
        RepeatMode::Track => "Track",
        RepeatMode::Queue => "Queue",
    };
    s.append(name);
    Ok(s)
}

/// Removes the queued track at `index` and names it in the reply; an index
/// past the queue gives the description of the error.
pub fn remove_track(session: &mut GuildSession, index: usize) -> (r: Result<String, String>)
    requires
        old(session).player.wf(),
    ensures
        final(session).guild_id == old(session).guild_id,
        final(session).voice_channel_id == old(session).voice_channel_id,
        final(session).text_channel_id == old(session).text_channel_id,
        final(session).player.wf(),
        final(session).player@ == (PlayerView {
            queue: queue_remove(old(session).player@.queue, index as int).0,
            ..old(session).player@
        }),
        match queue_remove(old(session).player@.queue, index as int).1 {
            Ok(t) => r matches Ok(m) && m@ == "removido `"@ + t.title@ + "`"@,
            Err(e) => r matches Err(m) && m@ == queue_error_text(e),
        },
{
    match session.player.queue.remove(index) {
        Ok(track) => {
            let mut s = "removido `".to_owned();
            s.append(track.title.as_str());
            s.append("`");
            Ok(s)
        },
        Err(e) => Err(e.message()),
    }
}

/// Empties the queue.
pub fn clear_queue(session: &mut GuildSession) -> (r: Result<String, String>)
    requires
        old(session).player.wf(),
    ensures
        final(session).guild_id == old(session).guild_id,
        final(session).voice_channel_id == old(session).voice_channel_id,
        final(session).text_channel_id == old(session).text_channel_id,
        final(session).player.wf(),
        final(session).player@ == (PlayerView {
            queue: with_items(old(session).player@.queue, Seq::<Track>::empty()),
            ..old(session).player@
        }),
        r matches Ok(m) && m@ == "fila limpa"@,
{
    session.player.queue.clear();
    Ok("fila limpa".to_owned())
}

/// What `restore_previous` does to the queue: the most recent history entry
/// is taken back and put at the front of the queue (when there is room).
pub open spec fn restore_outcome(q: QueueView) -> (QueueView, Option<Track>) {
    let (q1, t) = queue_previous(q);
    match t {
        Some(x) => (queue_push_front(q1, x).0, t),
        None => (q1, None),
    }
}

/// Takes back the last started track and queues it at the front.
pub fn restore_previous(session: &mut GuildSession) -> (r: Result<String, String>)
    requires
        old(session).player.wf(),
    ensures
        final(session).guild_id == old(session).guild_id,
        final(session).voice_channel_id == old(session).voice_channel_id,
        final(session).text_channel_id == old(session).text_channel_id,
        final(session).player.wf(),
        final(session).player@ == (PlayerView {
            queue: restore_outcome(old(session).player@.queue).0,
            ..old(session).player@
        }),
        match restore_outcome(old(session).player@.queue).1 {
            Some(t) => r matches Ok(m) && m@ == "faixa anterior recuperada: `"@ + t.title@ + "`"@,
            None => r matches Err(m) && m@ == "não há histórico"@,
        },
{
    match session.player.queue.previous() {
        Some(track) => {
            let mut s = "faixa anterior recuperada: `".to_owned();
            s.append(track.title.as_str());
            s.append("`");
            let _ = session.player.queue.push_front(track);
            Ok(s)
        },
        None => Err("não há histórico".to_owned()),
    }
}

/// The titles of the first `n` tracks of `items`, joined by `, `.
pub open spec fn joined_titles(items: Seq<Track>, n: nat) -> Seq<char>
    decreases n,
{
    if n == 0 {
        Seq::empty()
    } else if n == 1 {
        items[0].title@
    } else {
        joined_titles(items, (n - 1) as nat) + ", "@ + items[n - 1].title@
    }
}

/// How many queued tracks the queue listing shows.
pub const QUEUE_LISTING: usize = 10;

pub open spec fn min_nat(a: nat, b: nat) -> nat {
    if a < b {
        a
    } else {
        b
    }
}

/// The queue listing: the current title (or `nada`) and the first ten
/// queued titles (or `vazia`).
pub open spec fn queue_summary_text(current: Option<Track>, items: Seq<Track>) -> Seq<char> {
    let cur = match current {
        Some(t) => t.title@,
        None => "nada"@,
    };
    let n = min_nat(items.len(), QUEUE_LISTING as nat);
    "atual: `"@ + cur + "`; fila: "@ + if n == 0 {
        "vazia"@
    } else {
        joined_titles(items, n)
    }
}

/// Describes the current track and the start of the queue.
pub fn queue_summary(session: &GuildSession) -> (r: Result<String, String>)
    ensures
        r matches Ok(m) && m@ == queue_summary_text(session.player@.current, session.player@.queue.items),
{
    let mut s = "atual: `".to_owned();
    match &session.player.current {
        Some(t) => s.append(t.title.as_str()),
        None => s.append("nada"),
    }
    s.append("`; fila: ");
    let ghost prefix = s@;
    let ghost items = session.player@.queue.items;
    let total = session.player.queue.len();
    let n = if total < QUEUE_LISTING {
        total
    } else {
        QUEUE_LISTING
    };
    if n == 0 {
        s.append("vazia");
        return Ok(s);
    }
    let mut i: usize = 0;
    while i < n
        invariant
            total == items.len(),
            items == session.player@.queue.items,
            0 < n <= QUEUE_LISTING,
            n <= total,
            i <= n,
            s@ == prefix + joined_titles(items, i as nat),
        decreases n - i,
    {
        let t = session.player.queue.get(i);
        if i > 0 {
            s.append(", ");
        }
        s.append(t.title.as_str());
        assert(s@ =~= prefix + joined_titles(items, (i + 1) as nat));
        i = i + 1;
    }
    Ok(s)
}

/// The reply for the track now playing, with the volume.
pub fn now_playing(session: &GuildSession) -> (r: Result<String, String>)
    ensures
        match session.player@.current {
            Some(t) => r matches Ok(m) && m@ == "tocando `"@ + t.title@ + "`; volume "@
                + decimal(session.player@.volume as nat) + "%"@,
            None => r matches Err(m) && m@ == "nada está tocando"@,
        },
{
    match &session.player.current {
        Some(t) => {
            let mut s = "tocando `".to_owned();
            s.append(t.title.as_str());
            s.append("`; volume ");
            push_decimal(&mut s, session.player.volume as usize);
            s.append("%");
            Ok(s)
        },
        None => Err("nada está tocando".to_owned()),
    }
}

/// The help reply.
pub fn help_text() -> (s: String)
    ensures
        s@ == help_reply(),
{
    "comandos: `!join`, `!leave`, `!play <busca/url>`, `!pause`, `!resume`, `!stop`, `!skip`, `!queue`, `!nowplaying`, `!shuffle`, `!volume <0-100>`, `!mute`, `!repeat off|track|queue`, `!remove <índice>`, `!clear`".to_owned()
}

/// A reply with its text as a character sequence.
pub open spec fn reply_view(r: Result<String, String>) -> Result<Seq<char>, Seq<char>> {
    match r {
        Ok(m) => Ok(m@),
        Err(m) => Err(m@),
    }
}

/// The reply to a now-playing request, as a result.
pub open spec fn now_playing_reply(p: PlayerView) -> Result<Seq<char>, Seq<char>> {
    match p.current {
        Some(t) => Ok(
            "tocando `"@ + t.title@ + "`; volume "@ + decimal(p.volume as nat) + "%"@,
        ),
        None => Err("nada está tocando"@),
    }
}

pub open spec fn help_reply() -> Seq<char> {
    "comandos: `!join`, `!leave`, `!play <busca/url>`, `!pause`, `!resume`, `!stop`, `!skip`, `!queue`, `!nowplaying`, `!shuffle`, `!volume <0-100>`, `!mute`, `!repeat off|track|queue`, `!remove <índice>`, `!clear`"@
}

/// The reply to a control of the audio being played (pause, resume,
/// volume, mute): success with `done` while a track is current, else the
/// report that no track is active.
pub open spec fn control_reply(p: PlayerView, done: Seq<char>) -> Result<Seq<char>, Seq<char>> {
    if p.current is Some {
        Ok(done)
    } else {
        Err("não há faixa ativa"@)
    }
}

/// What a command other than `Play` does to the player (`before` becomes
/// `after`) and what it replies. Pause, resume, volume and mute control the
/// audio of the current track and leave the player's state as it is; stop
/// and skip act on the player; the queue commands are those of this module.
/// A shuffle may leave the queued tracks in any order.
pub open spec fn command_effect(
    before: PlayerView,
    after: PlayerView,
    c: CommandView,
    reply: Result<Seq<char>, Seq<char>>,
) -> bool {
    match c {
        CommandView::Pause => after == before && reply == control_reply(before, "pausado"@),
        CommandView::Resume => after == before && reply == control_reply(before, "retomado"@),
        CommandView::Stop => after == player_stop(before) && reply == Ok::<Seq<char>, Seq<char>>(
            "parado"@,
        ),
        CommandView::Skip => after == player_skip(before).0 && reply == Ok::<Seq<char>, Seq<char>>(
            skip_text(player_skip(before).1),
        ),
        CommandView::Volume(v) => after == before && reply == control_reply(
            before,
            "volume ajustado para "@ + decimal(v as nat) + "%"@,
        ),
        CommandView::Mute => after == before && reply == control_reply(before, "mutado"@),
        CommandView::Queue => after == before && reply == Ok::<Seq<char>, Seq<char>>(
            queue_summary_text(before.current, before.queue.items),
        ),
        CommandView::NowPlaying => after == before && reply == now_playing_reply(before),
        CommandView::Shuffle => {
            &&& after == (PlayerView { queue: after.queue, ..before })
            &&& after.queue.items.to_multiset() == before.queue.items.to_multiset()
            &&& after.queue.items.len() == before.queue.items.len()
            &&& after.queue.history == before.queue.history
            &&& after.queue.max_size == before.queue.max_size
            &&& reply == Ok::<Seq<char>, Seq<char>>("fila embaralhada"@)
        },
        CommandView::Repeat(m) => after == (PlayerView { repeat: m, ..before }) && reply == Ok::<
            Seq<char>,
            Seq<char>,
        >("repeat definido para "@ + repeat_name(m)),
        CommandView::Remove(i) => after == (PlayerView {
            queue: queue_remove(before.queue, i as int).0,
            ..before
        }) && reply == match queue_remove(before.queue, i as int).1 {
            Ok(t) => Ok::<Seq<char>, Seq<char>>("removido `"@ + t.title@ + "`"@),
            Err(e) => Err::<Seq<char>, Seq<char>>(queue_error_text(e)),
        },
        CommandView::Clear => after == (PlayerView {
            queue: with_items(before.queue, Seq::<Track>::empty()),
            ..before
        }) && reply == Ok::<Seq<char>, Seq<char>>("fila limpa"@),
        CommandView::Previous => after == (PlayerView {
            queue: restore_outcome(before.queue).0,
            ..before
        }) && reply == match restore_outcome(before.queue).1 {
            Some(t) => Ok::<Seq<char>, Seq<char>>("faixa anterior recuperada: `"@ + t.title@ + "`"@),
            None => Err::<Seq<char>, Seq<char>>("não há histórico"@),
        },
        CommandView::Help => after == before && reply == Ok::<Seq<char>, Seq<char>>(help_reply()),
        CommandView::Play(_) => false,
    }
}

/// The reply to a control of the current track's audio.
fn control_result(session: &GuildSession, done: &str) -> (r: Result<String, String>)
    ensures
        reply_view(r) == control_reply(session.player@, done@),
{
    if session.player.current.is_some() {
        Ok(done.to_owned())
    } else {
        Err("não há faixa ativa".to_owned())
    }
}

/// Applies a chat command other than `Play` to the session and gives its
/// reply. (`Play` first needs its query resolved; see [`play_resolved`].)
pub fn apply_command(session: &mut GuildSession, command: Command) -> (r: Result<String, String>)
    requires
        old(session).player.wf(),
        !(command is Play),
    ensures
        final(session).player.wf(),
        final(session).guild_id == old(session).guild_id,
        final(session).voice_channel_id == old(session).voice_channel_id,
        final(session).text_channel_id == old(session).text_channel_id,
        command_effect(old(session).player@, final(session).player@, command@, reply_view(r)),
{
    match command {
        Command::Pause => control_result(session, "pausado"),
        Command::Resume => control_result(session, "retomado"),
        Command::Stop => {
            session.player.stop();
            Ok("parado".to_owned())
        },
        Command::Skip => {
            let next = session.player.skip();
            Ok(skip_reply(&next))
        },
        Command::Volume(value) => {
            let mut s = "volume ajustado para ".to_owned();
            push_decimal(&mut s, value as usize);
            s.append("%");
            control_result(session, s.as_str())
        },
        Command::Mute => control_result(session, "mutado"),
        Command::Queue => queue_summary(session),
        Command::NowPlaying => now_playing(session),
        Command::Shuffle => shuffle_queue(session),
        Command::Repeat(mode) => set_repeat_mode(session, mode),
        Command::Remove(index) => remove_track(session, index),
        Command::Clear => clear_queue(session),
        Command::Previous => restore_previous(session),
        Command::Help => Ok(help_text()),
        Command::Play(_) => Err("".to_owned()),
    }
}

/// Two play requests for one track each, served one after the other (as
/// the per-guild lock orders concurrent requests), keep both tracks on an
/// idle player with an empty queue: the first track plays and the second
/// waits in the queue.
pub proof fn law_two_plays_keep_both(p: PlayerView, a: Track, b: Track)
    requires
        p.current is None,
        p.queue.items.len() == 0,
        p.queue.max_size >= 1,
    ensures
        play_outcome(p, seq![a]).1 is Ok,
        play_outcome(play_outcome(p, seq![a]).0, seq![b]).1 is Ok,
        play_outcome(play_outcome(p, seq![a]).0, seq![b]).0.current == Some(a),
        play_outcome(play_outcome(p, seq![a]).0, seq![b]).0.queue.items == seq![b],
        play_outcome(play_outcome(p, seq![a]).0, seq![b]).0.state
            == crate::audio::PlayerState::Playing,
{
    reveal_with_fuel(enqueue_all, 2);
    assert(seq![a].drop_last() =~= Seq::<Track>::empty());
    assert(seq![b].drop_last() =~= Seq::<Track>::empty());
    assert(enqueue_all(p, Seq::<Track>::empty()) == (p, Ok::<(), QueueError>(())));
    let p1 = play_outcome(p, seq![a]).0;
    assert(Seq::<Track>::empty().push(a).drop_first() =~= Seq::<Track>::empty());
    assert(p1.queue.items =~= Seq::<Track>::empty());
    assert(p1.queue.items.push(b) =~= seq![b]);
}

} // verus!
