use musay::audio::{PlayerState, RepeatMode, Track};
use musay::discord::tools::{local_dir_first, tool_check_step, ToolAction, ToolProbe, ToolStage};
use musay::discord::Command;
use musay::config::{Config, ConfigError, ConfigSource};
use musay::discord::runtime::{
    accepts_message, error_reply, playing_reply, queued_reply, reply_text, skip_reply, track_input,
    track_to_start, ytdlp_args, TrackInput,
};
use musay::discord::session_ops::{
    apply_command, clear_queue, help_text, now_playing, play_resolved, push_decimal, queue_summary,
    remove_track, restore_previous, set_repeat_mode, shuffle_queue,
};
use musay::guild::GuildSession;
use musay::permissions::PermissionPolicy;
use musay::persistence::{GuildData, JsonStore, PersistenceError, MAX_PERSISTED_BYTES};

fn with(f: impl FnOnce(&mut ConfigSource)) -> Result<Config, ConfigError> {
    let mut s = ConfigSource::unset();
    f(&mut s);
    Config::from_values("tok".to_owned(), &s)
}

fn some(s: &str) -> Option<String> {
    Some(s.to_owned())
}

#[test]
fn config_defaults() {
    let c = with(|_| {}).unwrap();
    assert_eq!(c.discord_token, "tok");
    assert_eq!(c.command_prefix, "!");
    assert_eq!(c.default_volume, 75);
    assert_eq!(c.max_queue_size, 100);
    assert_eq!(c.leave_on_empty_secs, 300);
    assert_eq!(c.database_path, "musay.json");
    let s = Config::for_self_check(&ConfigSource::unset()).unwrap();
    assert_eq!(s.discord_token, "self-check-token");
}

#[test]
fn config_errors() {
    assert_eq!(with(|s| s.command_prefix = some("")).unwrap_err(), ConfigError::OutOfRange("COMMAND_PREFIX".to_owned()));
    assert_eq!(with(|s| s.command_prefix = some(&"!".repeat(17))).unwrap_err(), ConfigError::OutOfRange("COMMAND_PREFIX".to_owned()));
    assert_eq!(with(|s| s.default_volume = some("abc")).unwrap_err(), ConfigError::InvalidNumber("DEFAULT_VOLUME".to_owned()));
    assert_eq!(with(|s| s.max_queue_size = some("-1")).unwrap_err(), ConfigError::InvalidNumber("MAX_QUEUE_SIZE".to_owned()));
    assert_eq!(with(|s| s.leave_on_empty_secs = some("")).unwrap_err(), ConfigError::InvalidNumber("LEAVE_ON_EMPTY_SECS".to_owned()));
    assert_eq!(with(|s| s.default_volume = some("101")).unwrap_err(), ConfigError::OutOfRange("DEFAULT_VOLUME".to_owned()));
    assert_eq!(with(|s| s.max_queue_size = some("0")).unwrap_err(), ConfigError::OutOfRange("MAX_QUEUE_SIZE".to_owned()));
    assert_eq!(with(|s| s.max_queue_size = some("10001")).unwrap_err(), ConfigError::OutOfRange("MAX_QUEUE_SIZE".to_owned()));
    assert_eq!(with(|s| s.leave_on_empty_secs = some("86401")).unwrap_err(), ConfigError::OutOfRange("LEAVE_ON_EMPTY_SECS".to_owned()));
    assert_eq!(with(|s| s.leave_on_empty_secs = some("0")).unwrap_err(), ConfigError::OutOfRange("LEAVE_ON_EMPTY_SECS".to_owned()));
    for bad in ["", "/etc/musay.json", "../x.json", "a/../b.json", "a/.."] {
        assert_eq!(with(|s| s.database_path = some(bad)).unwrap_err(), ConfigError::UnsafeDatabasePath, "{bad}");
    }
    // number errors come before range errors
    assert_eq!(
        with(|s| {
            s.default_volume = some("500");
            s.leave_on_empty_secs = some("x");
        })
        .unwrap_err(),
        ConfigError::InvalidNumber("LEAVE_ON_EMPTY_SECS".to_owned())
    );
}

#[test]
fn config_accepts_edges() {
    let c = with(|s| {
        s.command_prefix = some("!!!!!!!!!!!!!!!!");
        s.default_volume = some("0");
        s.max_queue_size = some("10000");
        s.leave_on_empty_secs = some("86400");
        s.database_path = some("data/...json");
    })
    .unwrap();
    assert_eq!(with(|s| s.database_path = some("a\\b")).unwrap().database_path, "a\\b");
    assert_eq!(c.max_queue_size, 10000);
    assert_eq!(c.database_path, "data/...json");
    assert_eq!(c.default_volume, 0);
}

#[test]
fn permission_rules() {
    let mut p = PermissionPolicy::default();
    assert!(p.can_use(1, 2, &[]));
    p.allowed_channel_ids.insert(5);
    assert!(!p.can_use(1, 2, &[]));
    assert!(p.can_use(1, 5, &[]));
    p.admin_role_ids.insert(9);
    assert!(!p.can_use(1, 5, &[3]));
    assert!(p.can_use(1, 5, &[3, 9]));
    p.blocked_user_ids.insert(1);
    assert!(!p.can_use(1, 5, &[9]));
    assert!(!p.can_play_track(1, "t"));
    assert!(p.can_play_track(2, "t"));
    p.blocked_track_ids.push("t".to_owned());
    assert!(!p.can_play_track(2, "t"));
    assert!(p.can_play_track(2, "u"));
}

#[test]
fn store_paths_and_limits() {
    assert_eq!(JsonStore::new("musay.json").unwrap().path(), "musay.json");
    assert!(matches!(JsonStore::new("/tmp/x.json"), Err(PersistenceError::UnsafePath)));
    assert!(matches!(JsonStore::new("../x.json"), Err(PersistenceError::UnsafePath)));
    assert!(matches!(JsonStore::new(""), Err(PersistenceError::UnsafePath)));
    assert!(JsonStore::new("a\\b").is_ok());
    assert!(JsonStore::new("data/musay.json").is_ok());
    assert!(JsonStore::new("1:x.json").is_ok());
    assert!(JsonStore::check_existing(false, MAX_PERSISTED_BYTES).is_ok());
    assert!(matches!(JsonStore::check_existing(false, MAX_PERSISTED_BYTES + 1), Err(PersistenceError::TooLarge)));
    assert!(matches!(JsonStore::check_existing(true, 0), Err(PersistenceError::UnsafePath)));
    assert!(JsonStore::check_serialized(16 * 1024 * 1024).is_ok());
    assert!(matches!(JsonStore::check_serialized(16 * 1024 * 1024 + 1), Err(PersistenceError::TooLarge)));
    let d = GuildData::default();
    assert!(d.saved_playlists.is_empty());
    assert_eq!(d.default_volume, None);
}

fn session(max: &str) -> GuildSession {
    let mut s = ConfigSource::unset();
    s.max_queue_size = some(max);
    s.default_volume = some("40");
    GuildSession::new(3, &Config::from_values("tok".to_owned(), &s).unwrap())
}

fn tr(n: &str) -> Track {
    Track::new(n, n, 1)
}

#[test]
fn guild_session_basics() {
    let mut g = session("2");
    assert_eq!(g.guild_id, 3);
    assert_eq!(g.player.volume, 40);
    assert_eq!(g.player.queue.max_size(), 2);
    assert!(g.voice_channel_id.is_none() && g.text_channel_id.is_none());
    assert_eq!(g.enqueue(tr("a")), Ok(true));
    g.set_repeat(RepeatMode::Queue);
    assert_eq!(g.player.repeat, RepeatMode::Queue);
}

#[test]
fn play_requests() {
    let mut g = session("2");
    assert_eq!(play_resolved(&mut g, vec![tr("a")]).unwrap(), "1 faixa(s) adicionada(s)");
    assert_eq!(g.player.current.as_ref().unwrap().title, "a");
    assert_eq!(play_resolved(&mut g, vec![tr("b"), tr("c")]).unwrap(), "2 faixa(s) adicionada(s)");
    assert_eq!(play_resolved(&mut g, vec![tr("d")]).unwrap_err(), "queue limit reached");
    assert_eq!(g.player.queue.len(), 2);
    assert_eq!(play_resolved(&mut g, vec![]).unwrap(), "0 faixa(s) adicionada(s)");
}

#[test]
fn session_commands() {
    let mut g = session("20");
    assert_eq!(now_playing(&g).unwrap_err(), "nada está tocando");
    assert_eq!(queue_summary(&g).unwrap(), "atual: `nada`; fila: vazia");
    assert_eq!(restore_previous(&mut g).unwrap_err(), "não há histórico");
    let tracks: Vec<Track> = (0..13).map(|i| tr(&format!("t{i}"))).collect();
    play_resolved(&mut g, tracks).unwrap();
    assert_eq!(
        queue_summary(&g).unwrap(),
        "atual: `t0`; fila: t1, t2, t3, t4, t5, t6, t7, t8, t9, t10"
    );
    assert_eq!(now_playing(&g).unwrap(), "tocando `t0`; volume 40%");
    assert_eq!(remove_track(&mut g, 0).unwrap(), "removido `t1`");
    assert_eq!(remove_track(&mut g, 50).unwrap_err(), "index out of bounds");
    assert_eq!(set_repeat_mode(&mut g, RepeatMode::Track).unwrap(), "repeat definido para Track");
    assert_eq!(shuffle_queue(&mut g).unwrap(), "fila embaralhada");
    assert_eq!(g.player.queue.len(), 11);
    assert_eq!(restore_previous(&mut g).unwrap(), "faixa anterior recuperada: `t0`");
    assert_eq!(g.player.queue.get(0).title, "t0");
    assert_eq!(clear_queue(&mut g).unwrap(), "fila limpa");
    assert!(g.player.queue.is_empty());
    assert!(help_text().starts_with("comandos: `!join`"));
}

#[test]
fn decimal_rendering() {
    for n in [0usize, 7, 10, 99, 12345, usize::MAX] {
        let mut s = "n=".to_owned();
        push_decimal(&mut s, n);
        assert_eq!(s, format!("n={n}"));
    }
}

#[test]
fn runtime_helpers() {
    assert_eq!(reply_text("oi"), "oi");
    let exact = "á".repeat(1900);
    assert_eq!(reply_text(&exact), exact);
    let long = "á".repeat(1901);
    let cut = reply_text(&long);
    assert_eq!(cut.chars().count(), 1881);
    assert!(cut.ends_with('…'));
    assert_eq!(track_input(&tr("search://lofi")), TrackInput::Search("lofi".to_owned()));
    assert_eq!(track_input(&tr("https://a/b")), TrackInput::Url("https://a/b".to_owned()));
    assert_eq!(
        ytdlp_args(),
        vec!["--socket-timeout", "15", "--retries", "2", "--fragment-retries", "2", "--no-playlist", "--js-runtimes", "deno"]
    );
}

#[test]
fn message_filter_and_error_reply() {
    assert!(accepts_message(false, "!play x", "!"));
    assert!(!accepts_message(true, "!play x", "!"));
    assert!(!accepts_message(false, "play x", "!"));
    assert!(!accepts_message(false, "!", "!!"));
    assert_eq!(error_reply("queue limit reached"), "erro: queue limit reached");
}

#[test]
fn play_decisions_and_replies() {
    let resolved = vec![tr("r1"), tr("r2")];
    assert_eq!(track_to_start(&Some(tr("cur")), &resolved).unwrap().title, "cur");
    assert_eq!(track_to_start(&None, &resolved).unwrap().title, "r1");
    assert_eq!(track_to_start(&None, &Vec::new()).unwrap_err(), "nenhuma faixa foi resolvida");
    assert_eq!(queued_reply("lofi"), "faixa adicionada à fila: `lofi`");
    assert_eq!(playing_reply(&tr("x")), "tocando `x`");
    assert_eq!(skip_reply(&Some(tr("y"))), "tocando a próxima: `y`");
    assert_eq!(skip_reply(&None), "faixa pulada; a fila está vazia");
}

#[test]
fn tool_check_steps() {
    assert_eq!(tool_check_step(ToolStage::YtDlp, ToolProbe::Succeeded), ToolAction::Probe(ToolStage::Deno));
    assert_eq!(tool_check_step(ToolStage::Deno, ToolProbe::Succeeded), ToolAction::Probe(ToolStage::Ffmpeg));
    assert_eq!(
        tool_check_step(ToolStage::YtDlp, ToolProbe::NotFound),
        ToolAction::Refuse("yt-dlp não foi encontrado. Coloque yt-dlp/yt-dlp.exe ao lado do executável ou no PATH".to_owned())
    );
    assert_eq!(
        tool_check_step(ToolStage::YtDlp, ToolProbe::TimedOut),
        ToolAction::Refuse("yt-dlp demorou demais para responder".to_owned())
    );
    assert_eq!(
        tool_check_step(ToolStage::YtDlp, ToolProbe::ExitedWithError),
        ToolAction::Refuse("yt-dlp foi encontrado, mas não conseguiu executar --version".to_owned())
    );
    assert_eq!(
        tool_check_step(ToolStage::Deno, ToolProbe::NotFound),
        ToolAction::Refuse("Deno não foi encontrado. Coloque deno/deno.exe ao lado do executável ou no PATH".to_owned())
    );
    assert_eq!(
        tool_check_step(ToolStage::Deno, ToolProbe::TimedOut),
        ToolAction::Refuse("Deno demorou demais para responder".to_owned())
    );
    assert_eq!(
        tool_check_step(ToolStage::Deno, ToolProbe::ExitedWithError),
        ToolAction::Refuse("Deno foi encontrado, mas não conseguiu executar --version".to_owned())
    );
    assert_eq!(tool_check_step(ToolStage::Ffmpeg, ToolProbe::NotFound), ToolAction::Ready { warn_ffmpeg: true });
    assert_eq!(tool_check_step(ToolStage::Ffmpeg, ToolProbe::Succeeded), ToolAction::Ready { warn_ffmpeg: false });
    assert_eq!(tool_check_step(ToolStage::Ffmpeg, ToolProbe::ExitedWithError), ToolAction::Ready { warn_ffmpeg: false });
    assert!(local_dir_first(true, false, false));
    assert!(local_dir_first(false, true, false));
    assert!(local_dir_first(false, false, true));
    assert!(!local_dir_first(false, false, false));
}

#[test]
fn applying_commands() {
    let mut g = session("5");
    assert_eq!(apply_command(&mut g, Command::Pause).unwrap_err(), "não há faixa ativa");
    assert_eq!(apply_command(&mut g, Command::Resume).unwrap_err(), "não há faixa ativa");
    assert_eq!(apply_command(&mut g, Command::Volume(3)).unwrap_err(), "não há faixa ativa");
    play_resolved(&mut g, vec![tr("a"), tr("b"), tr("c")]).unwrap();
    assert_eq!(apply_command(&mut g, Command::Pause).unwrap(), "pausado");
    assert_eq!(g.player.state, PlayerState::Playing);
    assert_eq!(apply_command(&mut g, Command::Resume).unwrap(), "retomado");
    assert_eq!(apply_command(&mut g, Command::Volume(200)).unwrap(), "volume ajustado para 200%");
    assert_eq!(g.player.volume, 40);
    assert_eq!(apply_command(&mut g, Command::Mute).unwrap(), "mutado");
    assert!(!g.player.muted);
    assert_eq!(apply_command(&mut g, Command::Skip).unwrap(), "tocando a próxima: `b`");
    assert_eq!(apply_command(&mut g, Command::NowPlaying).unwrap(), "tocando `b`; volume 40%");
    assert_eq!(apply_command(&mut g, Command::Queue).unwrap(), "atual: `b`; fila: c");
    assert_eq!(apply_command(&mut g, Command::Repeat(RepeatMode::Queue)).unwrap(), "repeat definido para Queue");
    assert_eq!(apply_command(&mut g, Command::Shuffle).unwrap(), "fila embaralhada");
    assert_eq!(apply_command(&mut g, Command::Remove(0)).unwrap(), "removido `c`");
    assert_eq!(apply_command(&mut g, Command::Previous).unwrap(), "faixa anterior recuperada: `b`");
    assert_eq!(apply_command(&mut g, Command::Clear).unwrap(), "fila limpa");
    assert_eq!(apply_command(&mut g, Command::Stop).unwrap(), "parado");
    assert_eq!(g.player.state, PlayerState::Stopped);
    assert_eq!(apply_command(&mut g, Command::Skip).unwrap(), "faixa pulada; a fila está vazia");
    assert_eq!(apply_command(&mut g, Command::Mute).unwrap_err(), "não há faixa ativa");
    assert!(apply_command(&mut g, Command::Help).unwrap().starts_with("comandos:"));
}
