use musay::audio::{AudioSource, BasicResolver, Player, PlayerState, RepeatMode, Track, TrackQueue};
use musay::config::{Config, ConfigSource};
use musay::discord::session_ops::play_resolved;
use musay::discord::{parse_command, Command};
use musay::guild::GuildSession;
use musay::permissions::PermissionPolicy;

fn t(n: &str) -> Track {
    Track::new(n, &format!("https://example/{n}"), 1)
}

#[test]
fn queue_ops() {
    let mut q = TrackQueue::new(3);
    q.push(t("a")).unwrap();
    q.push(t("b")).unwrap();
    q.move_item(0, 1).unwrap();
    assert_eq!(q.items().next().unwrap().title, "b");
    q.shuffle();
    assert_eq!(q.len(), 2);
}

#[test]
fn player_state_and_repeat() {
    let mut p = Player::new(5, 120);
    p.enqueue(t("a")).unwrap();
    p.start_next();
    assert_eq!(p.state, PlayerState::Playing);
    assert!(p.pause());
    assert!(p.resume());
    p.set_repeat(RepeatMode::Track);
    assert_eq!(p.finish_current().unwrap().title, "a");
    p.set_repeat(RepeatMode::Queue);
    p.enqueue(t("b")).unwrap();
    assert_eq!(p.finish_current().unwrap().title, "b");
    assert_eq!(p.finish_current().unwrap().title, "a");
    assert_eq!(p.queue.len(), 1);
}

#[test]
fn resolver_rejects_dangerous_inputs() {
    let resolver = BasicResolver;
    assert!(resolver.resolve("file:///etc/passwd", 1).is_err());
    assert!(resolver.resolve("http://127.0.0.1/admin", 1).is_err());
    assert!(resolver.resolve(&"x".repeat(2049), 1).is_err());
    assert!(resolver.resolve("https://example.com/audio", 1).is_ok());
}

#[test]
fn self_check_has_safe_defaults() {
    let c = Config::for_self_check(&ConfigSource::unset()).unwrap();
    assert_eq!(c.default_volume, 75);
    assert!(c.max_queue_size > 0);
}

#[test]
fn parses_commands() {
    assert_eq!(parse_command("!volume 40", "!"), Ok(Command::Volume(40)));
    assert_eq!(
        parse_command("!repeat queue", "!"),
        Ok(Command::Repeat(RepeatMode::Queue))
    );
    assert!(parse_command(&("!play ".to_owned() + &"x".repeat(2048)), "!").is_err());
}

#[test]
fn concurrent_play_operations_preserve_both_tracks() {
    let config = Config::for_self_check(&ConfigSource::unset()).unwrap();
    let mut session = GuildSession::new(7, &config);
    let resolver = BasicResolver;
    let first = resolver.resolve("first", 1).unwrap();
    let a = play_resolved(&mut session, first);
    let second = resolver.resolve("second", 2).unwrap();
    let b = play_resolved(&mut session, second);
    assert!(a.is_ok() && b.is_ok());
    assert_eq!(session.player.queue.len(), 1);
    assert!(session.player.current.is_some());
}

#[test]
fn policy_checks() {
    let mut p = PermissionPolicy::default();
    p.blocked_user_ids.insert(2);
    assert!(!p.can_use(2, 1, &[]));
    assert!(p.can_use(1, 1, &[]));
}
