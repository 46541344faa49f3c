use musay::audio::{Player, PlayerState, QueueError, RepeatMode, SourceKind, Track, TrackQueue, HISTORY_LIMIT};
use std::time::Duration;

fn t(n: &str) -> Track {
    Track::new(n, &format!("https://example/{n}"), 9)
}

fn titles(q: &TrackQueue) -> Vec<String> {
    q.items().map(|t| t.title.clone()).collect()
}

#[test]
fn track_new_fills_fields() {
    let tr = Track::new("song", "https://x/y", 42);
    assert_eq!(tr.id, "https://x/y");
    assert_eq!(tr.url, "https://x/y");
    assert_eq!(tr.title, "song");
    assert_eq!(tr.author, None);
    assert_eq!(tr.duration_secs, None);
    assert_eq!(tr.source, SourceKind::Unknown);
    assert_eq!(tr.requested_by, 42);
    assert_eq!(tr.clone(), tr);
}

#[test]
fn queue_is_fifo_and_bounded() {
    let mut q = TrackQueue::new(2);
    assert!(q.is_empty());
    assert_eq!(q.max_size(), 2);
    q.push(t("a")).unwrap();
    q.push(t("b")).unwrap();
    assert_eq!(q.push(t("c")), Err(QueueError::Full));
    assert_eq!(q.push_front(t("c")), Err(QueueError::Full));
    assert_eq!(titles(&q), vec!["a", "b"]);
    assert_eq!(q.pop().unwrap().title, "a");
    assert_eq!(q.pop().unwrap().title, "b");
    assert_eq!(q.pop(), Err(QueueError::Empty));
}

#[test]
fn push_front_then_pop_round_trip() {
    let mut q = TrackQueue::new(3);
    q.push(t("a")).unwrap();
    q.push_front(t("z")).unwrap();
    assert_eq!(q.get(0).title, "z");
    assert_eq!(q.pop().unwrap().title, "z");
    assert_eq!(titles(&q), vec!["a"]);
}

#[test]
fn remove_and_move_check_indices() {
    let mut q = TrackQueue::new(5);
    for n in ["a", "b", "c"] {
        q.push(t(n)).unwrap();
    }
    assert_eq!(q.remove(3), Err(QueueError::InvalidIndex));
    assert_eq!(q.move_item(0, 3), Err(QueueError::InvalidIndex));
    assert_eq!(q.move_item(3, 0), Err(QueueError::InvalidIndex));
    q.move_item(0, 2).unwrap();
    assert_eq!(titles(&q), vec!["b", "c", "a"]);
    q.move_item(2, 0).unwrap();
    assert_eq!(titles(&q), vec!["a", "b", "c"]);
    assert_eq!(q.remove(1).unwrap().title, "b");
    assert_eq!(titles(&q), vec!["a", "c"]);
    q.clear();
    assert!(q.is_empty());
}

#[test]
fn shuffle_keeps_every_track() {
    let mut q = TrackQueue::new(50);
    for i in 0..40 {
        q.push(t(&i.to_string())).unwrap();
    }
    q.record_history(t("h"));
    q.shuffle();
    let mut got = titles(&q);
    got.sort();
    let mut want: Vec<String> = (0..40).map(|i| i.to_string()).collect();
    want.sort();
    assert_eq!(got, want);
    assert_eq!(q.history().len(), 1);
}

#[test]
fn history_keeps_the_latest_hundred() {
    let mut q = TrackQueue::new(1);
    for i in 0..(HISTORY_LIMIT + 5) {
        q.record_history(t(&i.to_string()));
    }
    assert_eq!(q.history().len(), HISTORY_LIMIT);
    assert_eq!(q.history()[0].title, "5");
    assert_eq!(q.history()[HISTORY_LIMIT - 1].title, (HISTORY_LIMIT + 4).to_string());
}

#[test]
fn previous_undoes_record() {
    let mut q = TrackQueue::new(1);
    q.record_history(t("a"));
    q.record_history(t("b"));
    assert_eq!(q.previous().unwrap().title, "b");
    assert_eq!(q.history().len(), 1);
    assert_eq!(q.previous().unwrap().title, "a");
    assert_eq!(q.previous(), None);
}

#[test]
fn new_player_clamps_volume() {
    let p = Player::new(3, 120);
    assert_eq!(p.volume, 100);
    assert_eq!(p.state, PlayerState::Idle);
    assert_eq!(p.repeat, RepeatMode::Off);
    assert!(!p.muted);
    assert_eq!(Player::new(3, 30).volume, 30);
}

#[test]
fn enqueue_signals_when_to_start() {
    let mut p = Player::new(1, 50);
    assert_eq!(p.enqueue(t("a")), Ok(true));
    assert_eq!(p.enqueue(t("b")), Err(QueueError::Full));
    assert_eq!(p.start_next().unwrap().title, "a");
    assert_eq!(p.enqueue(t("b")), Ok(false));
    // a current track is kept by start_next
    assert_eq!(p.start_next().unwrap().title, "a");
    assert_eq!(p.queue.len(), 1);
    assert_eq!(p.queue.history().len(), 1);
}

#[test]
fn start_next_on_empty_queue_goes_idle() {
    let mut p = Player::new(2, 50);
    assert_eq!(p.start_next(), None);
    assert_eq!(p.state, PlayerState::Idle);
}

#[test]
fn pause_resume_guards() {
    let mut p = Player::new(2, 50);
    assert!(!p.pause());
    assert!(!p.resume());
    p.enqueue(t("a")).unwrap();
    p.start_next();
    assert!(!p.resume());
    assert!(p.pause());
    assert_eq!(p.state, PlayerState::Paused);
    assert!(!p.pause());
    assert!(p.resume());
    assert_eq!(p.state, PlayerState::Playing);
}

#[test]
fn volume_and_mute() {
    let mut p = Player::new(2, 50);
    assert_eq!(p.set_volume(150), 100);
    assert!(!p.muted);
    assert_eq!(p.set_volume(0), 0);
    assert!(p.muted);
    assert_eq!(p.set_volume(7), 7);
    assert!(!p.muted);
    assert!(p.toggle_mute());
    assert!(!p.toggle_mute());
}

#[test]
fn seek_needs_a_current_track() {
    let mut p = Player::new(2, 50);
    assert!(!p.seek(Duration::from_secs(10)));
    assert_eq!(p.position_secs, 0);
    p.enqueue(t("a")).unwrap();
    p.start_next();
    assert!(p.seek(Duration::from_millis(42_900)));
    assert_eq!(p.position_secs, 42);
}

#[test]
fn stop_and_skip() {
    let mut p = Player::new(3, 50);
    for n in ["a", "b", "c"] {
        p.enqueue(t(n)).unwrap();
    }
    p.start_next();
    p.seek(Duration::from_secs(5));
    assert_eq!(p.skip().unwrap().title, "b");
    assert_eq!(p.position_secs, 0);
    p.stop();
    assert_eq!(p.state, PlayerState::Stopped);
    assert!(p.current.is_none());
    assert_eq!(p.queue.len(), 1);
    p.set_repeat(RepeatMode::Track);
    p.start_next();
    assert_eq!(p.skip(), None);
    assert_eq!(p.state, PlayerState::Idle);
}

#[test]
fn repeat_off_advances_and_ends_idle() {
    let mut p = Player::new(3, 50);
    p.enqueue(t("a")).unwrap();
    p.enqueue(t("b")).unwrap();
    p.start_next();
    assert_eq!(p.finish_current().unwrap().title, "b");
    assert_eq!(p.finish_current(), None);
    assert_eq!(p.state, PlayerState::Idle);
    assert!(p.current.is_none());
}

#[test]
fn repeat_queue_drops_the_ended_track_when_full() {
    let mut p = Player::new(1, 50);
    p.enqueue(t("a")).unwrap();
    p.start_next();
    p.enqueue(t("b")).unwrap();
    p.set_repeat(RepeatMode::Queue);
    assert_eq!(p.finish_current().unwrap().title, "b");
    assert_eq!(p.queue.len(), 0);
}

#[test]
fn repeat_track_without_current_takes_the_front() {
    let mut p = Player::new(2, 50);
    p.set_repeat(RepeatMode::Track);
    p.enqueue(t("a")).unwrap();
    assert_eq!(p.finish_current().unwrap().title, "a");
    assert_eq!(p.finish_current().unwrap().title, "a");
    assert_eq!(p.state, PlayerState::Playing);
}

#[test]
fn queue_error_messages() {
    assert_eq!(QueueError::Empty.message(), "queue is empty");
    assert_eq!(QueueError::InvalidIndex.message(), "index out of bounds");
    assert_eq!(QueueError::Full.message(), "queue limit reached");
}

#[test]
fn shuffle_reorders_a_long_queue() {
    let mut q = TrackQueue::new(64);
    for i in 0..40 {
        q.push(t(&i.to_string())).unwrap();
    }
    let before = titles(&q);
    q.shuffle();
    assert_ne!(titles(&q), before);
}
