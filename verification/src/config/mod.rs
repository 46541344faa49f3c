//! Validated bot configuration. The values come from the environment (read
//! by the caller) and are checked fail-closed: every accepted configuration
//! lies within the documented ranges.
use crate::text::{chars_of, parse_number, parse_unsigned};
use vstd::prelude::*;
use vstd::utf8::encode_utf8;

verus! {

broadcast use vstd::string::group_string_axioms;

/// The longest command prefix, in UTF-8 bytes.
pub const MAX_PREFIX_BYTES: usize = 16;

/// The largest queue limit that may be configured.
pub const MAX_QUEUE_SIZE: u64 = 10_000;

/// The longest idle time, in seconds, before leaving an empty channel; the
/// shortest is one second.
pub const MAX_LEAVE_ON_EMPTY_SECS: u64 = 86_400;

/// The settings of the bot.
#[derive(Debug)]
pub struct Config {
    pub discord_token: String,
    pub command_prefix: String,
    pub default_volume: u8,
    pub max_queue_size: usize,
    pub leave_on_empty_secs: u64,
    pub database_path: String,
}

pub struct ConfigView {
    pub discord_token: Seq<char>,
    pub command_prefix: Seq<char>,
    pub default_volume: u8,
    pub max_queue_size: usize,
    pub leave_on_empty_secs: u64,
    pub database_path: Seq<char>,
}

impl View for Config {
    type V = ConfigView;

    open spec fn view(&self) -> ConfigView {
        ConfigView {
            discord_token: self.discord_token@,
            command_prefix: self.command_prefix@,
            default_volume: self.default_volume,
            max_queue_size: self.max_queue_size,
            leave_on_empty_secs: self.leave_on_empty_secs,
            database_path: self.database_path@,
        }
    }
}

/// Why a configuration is refused; the payload names the setting.
#[derive(Debug, PartialEq, Eq)]
pub enum ConfigError {
    MissingToken,
    InvalidNumber(String),
    OutOfRange(String),
    Empty(String),
    UnsafeDatabasePath,
}

pub enum ConfigErrorView {
    MissingToken,
    InvalidNumber(Seq<char>),
    OutOfRange(Seq<char>),
    Empty(Seq<char>),
    UnsafeDatabasePath,
}

impl View for ConfigError {
    type V = ConfigErrorView;

    open spec fn view(&self) -> ConfigErrorView {
        match self {
            ConfigError::MissingToken => ConfigErrorView::MissingToken,
            ConfigError::InvalidNumber(k) => ConfigErrorView::InvalidNumber(k@),
            ConfigError::OutOfRange(k) => ConfigErrorView::OutOfRange(k@),
            ConfigError::Empty(k) => ConfigErrorView::Empty(k@),
            ConfigError::UnsafeDatabasePath => ConfigErrorView::UnsafeDatabasePath,
        }
    }
}

/// The settings as they were found, each absent when unset.
#[derive(Debug)]
pub struct ConfigSource {
    pub command_prefix: Option<String>,
    pub default_volume: Option<String>,
    pub max_queue_size: Option<String>,
    pub leave_on_empty_secs: Option<String>,
    pub database_path: Option<String>,
}

pub struct ConfigSourceView {
    pub command_prefix: Option<Seq<char>>,
    pub default_volume: Option<Seq<char>>,
    pub max_queue_size: Option<Seq<char>>,
    pub leave_on_empty_secs: Option<Seq<char>>,
    pub database_path: Option<Seq<char>>,
}

pub open spec fn opt_view(s: Option<String>) -> Option<Seq<char>> {
    match s {
        Some(v) => Some(v@),
        None => None,
    }
}

impl View for ConfigSource {
    type V = ConfigSourceView;

    open spec fn view(&self) -> ConfigSourceView {
        ConfigSourceView {
            command_prefix: opt_view(self.command_prefix),
            default_volume: opt_view(self.default_volume),
            max_queue_size: opt_view(self.max_queue_size),
            leave_on_empty_secs: opt_view(self.leave_on_empty_secs),
            database_path: opt_view(self.database_path),
        }
    }
}

impl Clone for Config {
    /// The same settings.
    fn clone(&self) -> (r: Self)
        ensures
            r@ == self@,
    {
        Config {
            discord_token: self.discord_token.clone(),
            command_prefix: self.command_prefix.clone(),
            default_volume: self.default_volume,
            max_queue_size: self.max_queue_size,
            leave_on_empty_secs: self.leave_on_empty_secs,
            database_path: self.database_path.clone(),
        }
    }
}

fn clone_opt_string(s: &Option<String>) -> (r: Option<String>)
    ensures
        r == *s,
{
    match s {
        Some(v) => Some(v.clone()),
        None => None,
    }
}

impl Clone for ConfigSource {
    /// The same settings, set or not.
    fn clone(&self) -> (r: Self)
        ensures
            r@ == self@,
    {
        ConfigSource {
            command_prefix: clone_opt_string(&self.command_prefix),
            default_volume: clone_opt_string(&self.default_volume),
            max_queue_size: clone_opt_string(&self.max_queue_size),
            leave_on_empty_secs: clone_opt_string(&self.leave_on_empty_secs),
            database_path: clone_opt_string(&self.database_path),
        }
    }
}

impl ConfigSource {
    /// A source in which nothing is set, so that every default applies.
    pub fn unset() -> (s: ConfigSource)
        ensures
            s@ == (ConfigSourceView {
                command_prefix: None,
                default_volume: None,
                max_queue_size: None,
                leave_on_empty_secs: None,
                database_path: None,
            }),
    {
        ConfigSource {
            command_prefix: None,
            default_volume: None,
            max_queue_size: None,
            leave_on_empty_secs: None,
            database_path: None,
        }
    }
}

pub open spec fn or_default(v: Option<Seq<char>>, d: Seq<char>) -> Seq<char> {
    match v {
        Some(s) => s,
        None => d,
    }
}

/// The path starts at the root, as POSIX reads it (`Path::is_absolute` on
/// Unix).
pub open spec fn path_is_absolute(p: Seq<char>) -> bool {
    p.len() > 0 && p[0] == '/'
}

/// A `..` component occurs at index `i`: two dots bounded by separators or
/// by the ends of the path.
pub open spec fn parent_at(p: Seq<char>, i: int) -> bool {
    &&& 0 <= i
    &&& i + 2 <= p.len()
    &&& p[i] == '.'
    &&& p[i + 1] == '.'
    &&& (i == 0 || p[i - 1] == '/')
    &&& (i + 2 == p.len() || p[i + 2] == '/')
}

/// The path has a `..` component (`Component::ParentDir`).
pub open spec fn has_parent_component(p: Seq<char>) -> bool {
    exists|i: int| parent_at(p, i)
}

/// A path the bot may write to: not empty, relative, with no `..`
/// component. Paths are read as on Unix, with `/` as the separator and the
/// root.
pub open spec fn path_is_safe(p: Seq<char>) -> bool {
    &&& p.len() > 0
    &&& !path_is_absolute(p)
    &&& !has_parent_component(p)
}

/// Only a path that starts at the root `/` is absolute; one that starts with
/// a dot, such as `./musay.json` or `.musay.json`, is relative. A path that
/// starts with `/` is never safe, and `./` in front of a safe path keeps it
/// safe. Any path that is not empty, does not start with `/` and has no two
/// dots in a row is safe, so a relative path made of `.` components and
/// ordinary names is accepted.
pub proof fn law_only_rooted_paths_are_absolute(p: Seq<char>)
    ensures
        path_is_absolute(p) <==> p.len() > 0 && p[0] == '/',
        p.len() > 0 && p[0] == '.' ==> !path_is_absolute(p),
        p.len() > 0 && p[0] == '/' ==> !path_is_safe(p),
        path_is_safe(p) ==> path_is_safe(seq!['.', '/'] + p),
        (p.len() > 0 && p[0] != '/' && forall|i: int, j: int|
            #![trigger p[i], p[j]]
            0 <= i && j == i + 1 && j < p.len() ==> !(p[i] == '.' && p[j] == '.'))
            ==> path_is_safe(p),
{
    let q = seq!['.', '/'] + p;
    if path_is_safe(p) {
        assert forall|i: int| !parent_at(q, i) by {
            if parent_at(q, i) {
                assert(i >= 2);
                assert(parent_at(p, i - 2));
            }
        }
    }
    if p.len() > 0 && p[0] != '/' && forall|i: int, j: int|
        #![trigger p[i], p[j]]
        0 <= i && j == i + 1 && j < p.len() ==> !(p[i] == '.' && p[j] == '.') {
        assert forall|i: int| !parent_at(p, i) by {
            if parent_at(p, i) {
                assert(p[i] == '.' && p[i + 1] == '.');
            }
        }
    }
}

/// The database paths of a local setup are safe: `./musay.json`,
/// `./data/musay.json` and the hidden file `.musay.json`.
pub proof fn law_dot_relative_paths_are_safe()
    ensures
        path_is_safe("./musay.json"@),
        path_is_safe("./data/musay.json"@),
        path_is_safe(".musay.json"@),
{
    reveal_strlit("./musay.json");
    reveal_strlit("./data/musay.json");
    reveal_strlit(".musay.json");
    let a = "./musay.json"@;
    let b = "./data/musay.json"@;
    let c = ".musay.json"@;
    assert forall|i: int| !parent_at(a, i) by {
        if 0 <= i && i + 2 <= a.len() && a[i] == '.' {
            assert(i == 0 || i == 7);
        }
    }
    assert forall|i: int| !parent_at(b, i) by {
        if 0 <= i && i + 2 <= b.len() && b[i] == '.' {
            assert(i == 0 || i == 12);
        }
    }
    assert forall|i: int| !parent_at(c, i) by {
        if 0 <= i && i + 2 <= c.len() && c[i] == '.' {
            assert(i == 0 || i == 6);
        }
    }
}

/// Whether `p` is a safe relative path.
pub fn safe_relative_path(p: &str) -> (b: bool)
    ensures
        b == path_is_safe(p@),
{
    let v = chars_of(p);
    let n = v.len();
    if n == 0 || v[0] == '/' {
        return false;
    }
    let mut i: usize = 0;
    while i < n && n - i >= 2
        invariant
            n == v@.len(),
            v@ == p@,
            forall|k: int| 0 <= k < i ==> !parent_at(p@, k),
        decreases n - i,
    {
        if v[i] == '.' && v[i + 1] == '.' && (i == 0 || v[i - 1] == '/') && (i + 2 == n || v[i
            + 2] == '/') {
            assert(parent_at(p@, i as int));
            return false;
        }
        i = i + 1;
    }
    assert forall|k: int| !parent_at(p@, k) by {
        if k >= i {
            assert(k + 2 > n);
        }

    }
    true
}

pub open spec fn parse_setting(v: Option<Seq<char>>, d: Seq<char>) -> Option<nat> {
    parse_unsigned(or_default(v, d), u64::MAX as nat)
}

/// Every accepted configuration lies within these bounds.
pub open spec fn config_in_range(c: ConfigView) -> bool {
    &&& c.command_prefix.len() > 0
    &&& encode_utf8(c.command_prefix).len() <= MAX_PREFIX_BYTES
    &&& c.default_volume <= 100
    &&& 1 <= c.max_queue_size <= MAX_QUEUE_SIZE
    &&& 1 <= c.leave_on_empty_secs <= MAX_LEAVE_ON_EMPTY_SECS
    &&& path_is_safe(c.database_path)
}

/// What `Config::from_values(token, source)` gives. The prefix defaults to
/// `!`, the volume to 75, the queue limit to 100, the idle time to 300 s and
/// the database path to `musay.json`. The checks run in this order: prefix,
/// the three numbers as numbers, the three numbers' ranges, the path.
pub open spec fn config_outcome(token: Seq<char>, s: ConfigSourceView) -> Result<ConfigView, ConfigErrorView> {
    let prefix = or_default(s.command_prefix, "!"@);
    let volume = parse_setting(s.default_volume, "75"@);
    let queue = parse_setting(s.max_queue_size, "100"@);
    let leave = parse_setting(s.leave_on_empty_secs, "300"@);
    let path = or_default(s.database_path, "musay.json"@);
    if prefix.len() == 0 || encode_utf8(prefix).len() > MAX_PREFIX_BYTES {
        Err(ConfigErrorView::OutOfRange("COMMAND_PREFIX"@))
    } else if volume is None {
        Err(ConfigErrorView::InvalidNumber("DEFAULT_VOLUME"@))
    } else if queue is None {
        Err(ConfigErrorView::InvalidNumber("MAX_QUEUE_SIZE"@))
    } else if leave is None {
        Err(ConfigErrorView::InvalidNumber("LEAVE_ON_EMPTY_SECS"@))
    } else if volume->0 > 100 {
        Err(ConfigErrorView::OutOfRange("DEFAULT_VOLUME"@))
    } else if !(1 <= queue->0 <= MAX_QUEUE_SIZE) {
        Err(ConfigErrorView::OutOfRange("MAX_QUEUE_SIZE"@))
    } else if !(1 <= leave->0 <= MAX_LEAVE_ON_EMPTY_SECS) {
        Err(ConfigErrorView::OutOfRange("LEAVE_ON_EMPTY_SECS"@))
    } else if !path_is_safe(path) {
        Err(ConfigErrorView::UnsafeDatabasePath)
    } else {
        Ok(
            ConfigView {
                discord_token: token,
                command_prefix: prefix,
                default_volume: volume->0 as u8,
                max_queue_size: queue->0 as usize,
                leave_on_empty_secs: leave->0 as u64,
                database_path: path,
            },
        )
    }
}

pub open spec fn config_result_view(r: Result<Config, ConfigError>) -> Result<ConfigView, ConfigErrorView> {
    match r {
        Ok(c) => Ok(c@),
        Err(e) => Err(e@),
    }
}

/// The value of a setting, or its default.
fn setting_or(v: &Option<String>, d: &str) -> (r: String)
    ensures
        r@ == or_default(opt_view(*v), d@),
{
    match v {
        Some(s) => s.clone(),
        None => d.to_owned(),
    }
}

/// A setting read as an unsigned number.
fn parse_u64_setting(v: &Option<String>, d: &str) -> (r: Option<u64>)
    ensures
        match parse_setting(opt_view(*v), d@) {
            Some(n) => r == Some(n as u64),
            None => r is None,
        },
{
    let s = setting_or(v, d);
    let c = chars_of(s.as_str());
    assert(c@.subrange(0, c@.len() as int) =~= c@);
    parse_number(&c, 0, c.len(), u64::MAX)
}

impl Config {
    /// Checks the settings of `source`, completed by their defaults, and
    /// builds the configuration with `token`.
    pub fn from_values(token: String, source: &ConfigSource) -> (r: Result<Config, ConfigError>)
        ensures
            config_result_view(r) == config_outcome(token@, source@),
            r matches Ok(c) ==> config_in_range(c@),
    {
        let command_prefix = setting_or(&source.command_prefix, "!");
        if command_prefix.as_str().is_empty() || command_prefix.as_str().as_bytes().len()
            > MAX_PREFIX_BYTES {
            return Err(ConfigError::OutOfRange("COMMAND_PREFIX".to_owned()));
        }
        let default_volume = match parse_u64_setting(&source.default_volume, "75") {
            Some(n) => n,
            None => {
                return Err(ConfigError::InvalidNumber("DEFAULT_VOLUME".to_owned()));
            },
        };
        let max_queue_size = match parse_u64_setting(&source.max_queue_size, "100") {
            Some(n) => n,
            None => {
                return Err(ConfigError::InvalidNumber("MAX_QUEUE_SIZE".to_owned()));
            },
        };
        let leave_on_empty_secs = match parse_u64_setting(&source.leave_on_empty_secs, "300") {
            Some(n) => n,
            None => {
                return Err(ConfigError::InvalidNumber("LEAVE_ON_EMPTY_SECS".to_owned()));
            },
        };
        if default_volume > 100 {
            return Err(ConfigError::OutOfRange("DEFAULT_VOLUME".to_owned()));
        }
        if !(1 <= max_queue_size && max_queue_size <= MAX_QUEUE_SIZE) {
            return Err(ConfigError::OutOfRange("MAX_QUEUE_SIZE".to_owned()));
        }
        if !(1 <= leave_on_empty_secs && leave_on_empty_secs <= MAX_LEAVE_ON_EMPTY_SECS) {
            return Err(ConfigError::OutOfRange("LEAVE_ON_EMPTY_SECS".to_owned()));
        }
        let database_path = setting_or(&source.database_path, "musay.json");
        if !safe_relative_path(database_path.as_str()) {
            return Err(ConfigError::UnsafeDatabasePath);
        }
        Ok(
            Config {
                discord_token: token,
                command_prefix,
                default_volume: default_volume as u8,
                max_queue_size: max_queue_size as usize,
                leave_on_empty_secs,
                database_path,
            },
        )
    }

    /// The configuration used by the start-up self check: a placeholder
    /// token, the other settings from `source`.
    pub fn for_self_check(source: &ConfigSource) -> (r: Result<Config, ConfigError>)
        ensures
            config_result_view(r) == config_outcome("self-check-token"@, source@),
            r matches Ok(c) ==> config_in_range(c@),
    {
        Config::from_values("self-check-token".to_owned(), source)
    }
}

/// With nothing set, every default applies and is accepted: prefix `!`,
/// volume 75, a queue of 100 tracks, 300 s before leaving an empty channel
/// and the database at `musay.json`.
pub proof fn law_defaults_are_accepted(token: Seq<char>)
    ensures
        config_outcome(
            token,
            ConfigSourceView {
                command_prefix: None,
                default_volume: None,
                max_queue_size: None,
                leave_on_empty_secs: None,
                database_path: None,
            },
        ) == Ok::<ConfigView, ConfigErrorView>(
            ConfigView {
                discord_token: token,
                command_prefix: "!"@,
                default_volume: 75,
                max_queue_size: 100,
                leave_on_empty_secs: 300,
                database_path: "musay.json"@,
            },
        ),
{
    reveal_strlit("!");
    reveal_strlit("75");
    reveal_strlit("100");
    reveal_strlit("300");
    reveal_strlit("musay.json");
    let bang = "!"@;
    assert(bang.drop_first().len() == 0);
    assert(encode_utf8(bang.drop_first()) == Seq::<u8>::empty());
    assert(encode_utf8(bang).len() == 1);
    let v = "75"@;
    assert(v.drop_last() =~= seq!['7']);
    assert(seq!['7'].drop_last() =~= Seq::<char>::empty());
    assert(crate::text::digits_value(Seq::<char>::empty()) == 0);
    assert(crate::text::digits_value(seq!['7']) == 7);
    assert(crate::text::digits_value(v) == 75);
    let q = "100"@;
    assert(q.drop_last() =~= seq!['1', '0']);
    assert(seq!['1', '0'].drop_last() =~= seq!['1']);
    assert(seq!['1'].drop_last() =~= Seq::<char>::empty());
    assert(crate::text::digits_value(seq!['1']) == 1);
    assert(crate::text::digits_value(seq!['1', '0']) == 10);
    assert(crate::text::digits_value(q) == 100);
    let l = "300"@;
    assert(l.drop_last() =~= seq!['3', '0']);
    assert(seq!['3', '0'].drop_last() =~= seq!['3']);
    assert(seq!['3'].drop_last() =~= Seq::<char>::empty());
    assert(crate::text::digits_value(seq!['3']) == 3);
    assert(crate::text::digits_value(seq!['3', '0']) == 30);
    assert(crate::text::digits_value(l) == 300);
    let p = "musay.json"@;
    assert forall|i: int| !parent_at(p, i) by {
        if 0 <= i && i + 2 <= p.len() && p[i] == '.' {
            assert(i == 5);
        }
    }
}

} // verus!
