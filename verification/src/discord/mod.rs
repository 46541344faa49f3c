//! The chat command language: parsing a message into a [`Command`], and
//! applying resolved tracks to a guild session.
use crate::audio::RepeatMode;
use crate::text::{chars_of, parse_number, parse_unsigned, starts_with, trim, trim_range};
use vstd::prelude::*;
use vstd::utf8::encode_utf8;

pub mod runtime;
pub mod session_ops;
pub mod tools;

verus! {

broadcast use vstd::string::group_string_axioms;

/// A chat command.
#[derive(Debug, Clone, PartialEq, Eq)]
pub enum Command {
    Play(String),
    Pause,
    Resume,
    Stop,
    Skip,
    Previous,
    Shuffle,
    Queue,
    NowPlaying,
    Volume(u8),
    Mute,
    Repeat(RepeatMode),
    Remove(usize),
    Clear,
    Help,
}

/// A [`Command`] with its text argument as a character sequence.
pub enum CommandView {
    Play(Seq<char>),
    Pause,
    Resume,
    Stop,
    Skip,
    Previous,
    Shuffle,
    Queue,
    NowPlaying,
    Volume(u8),
    Mute,
    Repeat(RepeatMode),
    Remove(usize),
    Clear,
    Help,
}

impl View for Command {
    type V = CommandView;

    open spec fn view(&self) -> CommandView {
        match self {
            Command::Play(q) => CommandView::Play(q@),
            Command::Pause => CommandView::Pause,
            Command::Resume => CommandView::Resume,
            Command::Stop => CommandView::Stop,
            Command::Skip => CommandView::Skip,
            Command::Previous => CommandView::Previous,
            Command::Shuffle => CommandView::Shuffle,
            Command::Queue => CommandView::Queue,
            Command::NowPlaying => CommandView::NowPlaying,
            Command::Volume(v) => CommandView::Volume(*v),
            Command::Mute => CommandView::Mute,
            Command::Repeat(m) => CommandView::Repeat(*m),
            Command::Remove(i) => CommandView::Remove(*i),
            Command::Clear => CommandView::Clear,
            Command::Help => CommandView::Help,
        }
    }
}

/// Why a message is not a command.
#[derive(Debug, Clone, Copy, PartialEq, Eq, Structural)]
pub enum CommandError {
    Unknown,
    MissingArgument,
    InvalidNumber,
    InvalidInput,
}

impl CommandError {
    /// The human-readable description of the error.
    pub fn message(&self) -> (s: String)
        ensures
            s@ == command_error_text(*self),
    {
        match self {
            CommandError::Unknown => "unknown command".to_owned(),
            CommandError::MissingArgument => "missing argument".to_owned(),
            CommandError::InvalidNumber => "invalid number".to_owned(),
            CommandError::InvalidInput => "invalid input".to_owned(),
        }
    }
}

pub open spec fn command_error_text(e: CommandError) -> Seq<char> {
    match e {
        CommandError::Unknown => "unknown command"@,
        CommandError::MissingArgument => "missing argument"@,
        CommandError::InvalidNumber => "invalid number"@,
        CommandError::InvalidInput => "invalid input"@,
    }
}

/// The longest message, in UTF-8 bytes, that is parsed.
pub const MAX_INPUT_BYTES: usize = 2048;

/// The longest command prefix, in UTF-8 bytes.
pub const MAX_PREFIX_BYTES: usize = 16;

/// ASCII upper-case letters to lower case, other characters unchanged
/// (`char::to_ascii_lowercase`).
pub open spec fn ascii_lower(c: char) -> char {
    if 'A' <= c && c <= 'Z' {
        ((c as u32) + 32) as char
    } else {
        c
    }
}

pub open spec fn lowercase(s: Seq<char>) -> Seq<char> {
    s.map_values(|c: char| ascii_lower(c))
}

/// The index of the first space in `s`, or its length when there is none.
pub open spec fn first_space(s: Seq<char>) -> nat
    decreases s.len(),
{
    if s.len() == 0 {
        0
    } else if s[0] == ' ' {
        0
    } else {
        1 + first_space(s.drop_first())
    }
}

/// The words of a message once the prefix is gone: the command name (the
/// text up to the first space, lower-cased) and its argument (the rest after
/// that space, trimmed, absent when empty).
pub open spec fn command_name(body: Seq<char>) -> Seq<char> {
    lowercase(body.take(first_space(body) as int))
}

pub open spec fn command_arg(body: Seq<char>) -> Option<Seq<char>> {
    let sp = first_space(body);
    if sp < body.len() {
        let a = trim(body.skip((sp + 1) as int));
        if a.len() == 0 {
            None
        } else {
            Some(a)
        }
    } else {
        None
    }
}

/// The message with surrounding white space trimmed and the prefix removed
/// when it starts with it.
pub open spec fn command_body(input: Seq<char>, prefix: Seq<char>) -> Seq<char> {
    let text = trim(input);
    if starts_with(text, prefix) {
        text.skip(prefix.len() as int)
    } else {
        text
    }
}

pub open spec fn number_arg(arg: Option<Seq<char>>, max: nat) -> Result<nat, CommandError> {
    match arg {
        None => Err(CommandError::MissingArgument),
        Some(a) => match parse_unsigned(a, max) {
            Some(n) => Ok(n),
            None => Err(CommandError::InvalidNumber),
        },
    }
}

/// The command that a name and an argument make.
pub open spec fn command_of(name: Seq<char>, arg: Option<Seq<char>>) -> Result<CommandView, CommandError> {
    if name == "play"@ || name == "p"@ {
        match arg {
            Some(a) => Ok(CommandView::Play(a)),
            None => Err(CommandError::MissingArgument),
        }
    } else if name == "pause"@ {
        Ok(CommandView::Pause)
    } else if name == "resume"@ || name == "unpause"@ {
        Ok(CommandView::Resume)
    } else if name == "stop"@ {
        Ok(CommandView::Stop)
    } else if name == "skip"@ || name == "next"@ {
        Ok(CommandView::Skip)
    } else if name == "previous"@ || name == "back"@ {
        Ok(CommandView::Previous)
    } else if name == "shuffle"@ {
        Ok(CommandView::Shuffle)
    } else if name == "queue"@ || name == "q"@ {
        Ok(CommandView::Queue)
    } else if name == "nowplaying"@ || name == "np"@ {
        Ok(CommandView::NowPlaying)
    } else if name == "volume"@ || name == "vol"@ {
        match number_arg(arg, u8::MAX as nat) {
            Ok(n) => Ok(CommandView::Volume(n as u8)),
            Err(e) => Err(e),
        }
    } else if name == "mute"@ {
        Ok(CommandView::Mute)
    } else if name == "repeat"@ || name == "loop"@ {
        repeat_of(arg)
    } else if name == "remove"@ {
        match number_arg(arg, usize::MAX as nat) {
            Ok(n) => Ok(CommandView::Remove(n as usize)),
            Err(e) => Err(e),
        }
    } else if name == "clear"@ {
        Ok(CommandView::Clear)
    } else if name == "help"@ {
        Ok(CommandView::Help)
    } else {
        Err(CommandError::Unknown)
    }
}

/// What `parse_command(input, prefix)` gives.
pub open spec fn parse_outcome(input: Seq<char>, prefix: Seq<char>) -> Result<CommandView, CommandError> {
    if encode_utf8(input).len() > MAX_INPUT_BYTES || encode_utf8(prefix).len() > MAX_PREFIX_BYTES {
        Err(CommandError::InvalidInput)
    } else {
        let body = command_body(input, prefix);
        command_of(command_name(body), command_arg(body))
    }
}

pub open spec fn command_result_view(r: Result<Command, CommandError>) -> Result<CommandView, CommandError> {
    match r {
        Ok(c) => Ok(c@),
        Err(e) => Err(e),
    }
}

proof fn lemma_first_space_at(s: Seq<char>, j: int)
    requires
        0 <= j <= s.len(),
        forall|k: int| 0 <= k < j ==> #[trigger] s[k] != ' ',
        j == s.len() || s[j] == ' ',
    ensures
        first_space(s) == j,
    decreases j,
{
    if j > 0 {
        let t = s.drop_first();
        assert forall|k: int| 0 <= k < j - 1 implies #[trigger] t[k] != ' ' by {
            assert(t[k] == s[k + 1]);
        }
        lemma_first_space_at(t, j - 1);
    }
}

/// Whether `v[lo..hi]`, lower-cased, is `lit`.
fn name_is(v: &Vec<char>, lo: usize, hi: usize, lit: &str) -> (b: bool)
    requires
        lo <= hi <= v@.len(),
    ensures
        b == (lowercase(v@.subrange(lo as int, hi as int)) == lit@),
{
    let p = chars_of(lit);
    let ghost s = v@.subrange(lo as int, hi as int);
    if hi - lo != p.len() {
        assert(lowercase(s).len() != lit@.len());
        return false;
    }
    let mut j: usize = 0;
    while j < p.len()
        invariant
            hi - lo == p@.len(),
            p@ == lit@,
            lo <= hi <= v@.len(),
            s == v@.subrange(lo as int, hi as int),
            j <= p@.len(),
            forall|k: int| 0 <= k < j ==> ascii_lower(s[k]) == p@[k],
        decreases p@.len() - j,
    {
        let c = v[lo + j];
        let lc = if 'A' <= c && c <= 'Z' {
            ((c as u8) + 32) as char
        } else {
            c
        };
        assert(lc == ascii_lower(s[j as int]));
        if lc != p[j] {
            assert(lowercase(s)[j as int] != lit@[j as int]);
            return false;
        }
        j = j + 1;
    }
    assert(lowercase(s) =~= lit@);
    true
}

/// Whether `v[lo..hi]` is exactly `lit`.
fn arg_is(v: &Vec<char>, lo: usize, hi: usize, lit: &str) -> (b: bool)
    requires
        lo <= hi <= v@.len(),
    ensures
        b == (v@.subrange(lo as int, hi as int) == lit@),
{
    let p = chars_of(lit);
    crate::text::range_equals(v, lo, hi, &p)
}

pub open spec fn arg_at(v: Seq<char>, has_arg: bool, c0: usize, c1: usize) -> Option<Seq<char>> {
    if has_arg {
        Some(v.subrange(c0 as int, c1 as int))
    } else {
        None
    }
}

fn volume_command(v: &Vec<char>, has_arg: bool, c0: usize, c1: usize) -> (r: Result<Command, CommandError>)
    requires
        has_arg ==> c0 < c1 <= v@.len(),
    ensures
        command_result_view(r) == (match number_arg(arg_at(v@, has_arg, c0, c1), u8::MAX as nat) {
            Ok(n) => Ok(CommandView::Volume(n as u8)),
            Err(e) => Err(e),
        }),
{
    if !has_arg {
        return Err(CommandError::MissingArgument);
    }
    match parse_number(v, c0, c1, 255) {
        Some(n) => Ok(Command::Volume(n as u8)),
        None => Err(CommandError::InvalidNumber),
    }
}

fn remove_command(v: &Vec<char>, has_arg: bool, c0: usize, c1: usize) -> (r: Result<Command, CommandError>)
    requires
        has_arg ==> c0 < c1 <= v@.len(),
    ensures
        command_result_view(r) == (match number_arg(arg_at(v@, has_arg, c0, c1), usize::MAX as nat) {
            Ok(n) => Ok(CommandView::Remove(n as usize)),
            Err(e) => Err(e),
        }),
{
    if !has_arg {
        return Err(CommandError::MissingArgument);
    }
    match parse_number(v, c0, c1, usize::MAX as u64) {
        Some(n) => Ok(Command::Remove(n as usize)),
        None => Err(CommandError::InvalidNumber),
    }
}

pub open spec fn repeat_of(arg: Option<Seq<char>>) -> Result<CommandView, CommandError> {
    let a = match arg {
        Some(a) => a,
        None => "off"@,
    };
    if a == "track"@ {
        Ok(CommandView::Repeat(RepeatMode::Track))
    } else if a == "queue"@ {
        Ok(CommandView::Repeat(RepeatMode::Queue))
    } else if a == "off"@ {
        Ok(CommandView::Repeat(RepeatMode::Off))
    } else {
        Err(CommandError::Unknown)
    }
}

fn repeat_command(v: &Vec<char>, has_arg: bool, c0: usize, c1: usize) -> (r: Result<Command, CommandError>)
    requires
        has_arg ==> c0 < c1 <= v@.len(),
    ensures
        command_result_view(r) == repeat_of(arg_at(v@, has_arg, c0, c1)),
{
    if has_arg {
        if arg_is(v, c0, c1, "track") {
            Ok(Command::Repeat(RepeatMode::Track))
        } else if arg_is(v, c0, c1, "queue") {
            Ok(Command::Repeat(RepeatMode::Queue))
        } else if arg_is(v, c0, c1, "off") {
            Ok(Command::Repeat(RepeatMode::Off))
        } else {
            Err(CommandError::Unknown)
        }
    } else {
        proof {
            reveal_strlit("off");
            reveal_strlit("track");
            reveal_strlit("queue");
            assert("off"@.len() == 3);
            assert("track"@.len() == 5);
            assert("queue"@.len() == 5);
            assert("off"@ != "track"@);
            assert("off"@ != "queue"@);
        }
        Ok(Command::Repeat(RepeatMode::Off))
    }
}

/// The command named by `v[s0..sp]`, with the argument `v[c0..c1]` when
/// `has_arg`.
#[verifier::rlimit(40)]
fn command_from(
    input: &str,
    v: &Vec<char>,
    s0: usize,
    sp: usize,
    has_arg: bool,
    c0: usize,
    c1: usize,
) -> (r: Result<Command, CommandError>)
    requires
        v@ == input@,
        s0 <= sp <= v@.len(),
        has_arg ==> c0 < c1 <= v@.len(),
    ensures
        command_result_view(r) == command_of(
            lowercase(v@.subrange(s0 as int, sp as int)),
            if has_arg {
                Some(v@.subrange(c0 as int, c1 as int))
            } else {
                None
            },
        ),
{
    if name_is(v, s0, sp, "play") || name_is(v, s0, sp, "p") {
        if has_arg {
            let q = input.substring_char(c0, c1);
            Ok(Command::Play(q.to_owned()))
        } else {
            Err(CommandError::MissingArgument)
        }
    } else if name_is(v, s0, sp, "pause") {
        Ok(Command::Pause)
    } else if name_is(v, s0, sp, "resume") || name_is(v, s0, sp, "unpause") {
        Ok(Command::Resume)
    } else if name_is(v, s0, sp, "stop") {
        Ok(Command::Stop)
    } else if name_is(v, s0, sp, "skip") || name_is(v, s0, sp, "next") {
        Ok(Command::Skip)
    } else if name_is(v, s0, sp, "previous") || name_is(v, s0, sp, "back") {
        Ok(Command::Previous)
    } else if name_is(v, s0, sp, "shuffle") {
        Ok(Command::Shuffle)
    } else if name_is(v, s0, sp, "queue") || name_is(v, s0, sp, "q") {
        Ok(Command::Queue)
    } else if name_is(v, s0, sp, "nowplaying") || name_is(v, s0, sp, "np") {
        Ok(Command::NowPlaying)
    } else if name_is(v, s0, sp, "volume") || name_is(v, s0, sp, "vol") {
        volume_command(v, has_arg, c0, c1)
    } else if name_is(v, s0, sp, "mute") {
        Ok(Command::Mute)
    } else if name_is(v, s0, sp, "repeat") || name_is(v, s0, sp, "loop") {
        repeat_command(v, has_arg, c0, c1)
    } else if name_is(v, s0, sp, "remove") {
        remove_command(v, has_arg, c0, c1)
    } else if name_is(v, s0, sp, "clear") {
        Ok(Command::Clear)
    } else if name_is(v, s0, sp, "help") {
        Ok(Command::Help)
    } else {
        Err(CommandError::Unknown)
    }
}

/// The bounds of the message body in `v`: trimmed, prefix removed.
fn body_bounds(v: &Vec<char>, p: &Vec<char>) -> (r: (usize, usize))
    ensures
        r.0 <= r.1 <= v@.len(),
        v@.subrange(r.0 as int, r.1 as int) == command_body(v@, p@),
{
    let (a, b) = trim_range(v, 0, v.len());
    assert(v@.subrange(0, v@.len() as int) =~= v@);
    let ghost text = trim(v@);
    assert(text == v@.subrange(a as int, b as int));
    if crate::text::matches_at(v, a, p) && p.len() <= b - a {
        let s0 = a + p.len();
        assert(text.take(p@.len() as int) =~= v@.subrange(a as int, a + p@.len()));
        assert(text.skip(p@.len() as int) =~= v@.subrange(s0 as int, b as int));
        (s0, b)
    } else {
        assert(!starts_with(text, p@)) by {
            if starts_with(text, p@) {
                assert(v@.subrange(a as int, a + p@.len()) =~= text.take(p@.len() as int));
            }
        }
        (a, b)
    }
}

/// Splits the body `v[s0..b]` at its first space: the end of the name, and
/// the bounds of the argument when there is one.
fn split_body(v: &Vec<char>, s0: usize, b: usize) -> (r: (usize, bool, usize, usize))
    requires
        s0 <= b <= v@.len(),
    ensures
        s0 <= r.0 <= b,
        r.0 - s0 == first_space(v@.subrange(s0 as int, b as int)),
        r.1 ==> r.2 < r.3 <= v@.len(),
        command_arg(v@.subrange(s0 as int, b as int)) == (if r.1 {
            Some(v@.subrange(r.2 as int, r.3 as int))
        } else {
            None
        }),
{
    let ghost body = v@.subrange(s0 as int, b as int);
    let mut sp = s0;
    while sp < b && v[sp] != ' '
        invariant
            s0 <= sp <= b <= v@.len(),
            forall|k: int| s0 <= k < sp ==> v@[k] != ' ',
        decreases b - sp,
    {
        sp = sp + 1;
    }
    proof {
        assert forall|k: int| 0 <= k < sp - s0 implies #[trigger] body[k] != ' ' by {
            assert(body[k] == v@[s0 + k]);
        }
        lemma_first_space_at(body, sp - s0);
    }
    if sp < b {
        let (x, y) = trim_range(v, sp + 1, b);
        assert(body.skip(sp - s0 + 1) =~= v@.subrange(sp + 1, b as int));
        if x < y {
            (sp, true, x, y)
        } else {
            (sp, false, 0, 0)
        }
    } else {
        (sp, false, 0, 0)
    }
}

/// Parses a chat message into a command. Messages over 2048 bytes or
/// prefixes over 16 bytes are refused; the prefix is optional.
pub fn parse_command(input: &str, prefix: &str) -> (r: Result<Command, CommandError>)
    ensures
        command_result_view(r) == parse_outcome(input@, prefix@),
{
    if input.as_bytes().len() > MAX_INPUT_BYTES || prefix.as_bytes().len() > MAX_PREFIX_BYTES {
        return Err(CommandError::InvalidInput);
    }
    let v = chars_of(input);
    let p = chars_of(prefix);
    let (s0, b) = body_bounds(&v, &p);
    let (sp, has_arg, c0, c1) = split_body(&v, s0, b);
    let ghost body = v@.subrange(s0 as int, b as int);
    assert(body.take(sp - s0) =~= v@.subrange(s0 as int, sp as int));
    command_from(input, &v, s0, sp, has_arg, c0, c1)
}

/// The prefix is optional: a message made of the prefix followed by a body
/// is the same command as the body alone, when the body is already trimmed
/// and does not itself start with the prefix, the prefix does not start with
/// white space, and both messages are within the size limits.
pub proof fn law_prefix_is_optional(prefix: Seq<char>, body: Seq<char>)
    requires
        prefix.len() > 0,
        !crate::text::is_space(prefix[0]),
        body.len() > 0,
        trim(body) == body,
        !starts_with(body, prefix),
        encode_utf8(prefix + body).len() <= MAX_INPUT_BYTES,
        encode_utf8(body).len() <= MAX_INPUT_BYTES,
        encode_utf8(prefix).len() <= MAX_PREFIX_BYTES,
    ensures
        parse_outcome(prefix + body, prefix) == parse_outcome(body, prefix),
        command_body(prefix + body, prefix) == body,
{
    let m = prefix + body;
    assert(m[0] == prefix[0]);
    assert(crate::text::trim_start(m) == m);
    assert(!crate::text::is_space(body.last())) by {
        let t = crate::text::trim_start(body);
        lemma_trim_start_suffix(body);
        lemma_trim_end_shorter(t);
        if t.len() == 0 {
            assert(crate::text::trim_end(t).len() == 0);
        } else {
            assert(t.last() == body.last());
        }
    }
    assert(m.last() == body.last());
    assert(crate::text::trim_end(m) == m);
    assert(trim(m) == m);
    assert(m.take(prefix.len() as int) =~= prefix);
    assert(m.skip(prefix.len() as int) =~= body);
}

/// `trim_start` drops a prefix: what remains is a suffix of its input.
proof fn lemma_trim_start_suffix(s: Seq<char>)
    ensures
        crate::text::trim_start(s).len() <= s.len(),
        crate::text::trim_start(s) == s.skip(s.len() - crate::text::trim_start(s).len()),
    decreases s.len(),
{
    if s.len() > 0 && crate::text::is_space(s[0]) {
        lemma_trim_start_suffix(s.drop_first());
        let t = crate::text::trim_start(s.drop_first());
        assert(s.drop_first().skip(s.drop_first().len() - t.len()) =~= s.skip(s.len() - t.len()));
    } else {
        assert(s.skip(0) =~= s);
    }
}

/// `trim_end` never lengthens its input.
proof fn lemma_trim_end_shorter(s: Seq<char>)
    ensures
        crate::text::trim_end(s).len() <= s.len(),
        s.len() > 0 && crate::text::is_space(s.last()) ==> crate::text::trim_end(s).len() < s.len(),
    decreases s.len(),
{
    if s.len() > 0 && crate::text::is_space(s.last()) {
        lemma_trim_end_shorter(s.drop_last());
    }
}

/// `loop` is another name for `repeat`: whatever follows it, a message
/// naming `loop` gives the same result as one naming `repeat`; and `repeat`
/// sets the mode its argument names (`off` when there is none).
pub proof fn law_loop_is_repeat(arg: Option<Seq<char>>)
    ensures
        command_of("loop"@, arg) == command_of("repeat"@, arg),
        command_of("repeat"@, Some("off"@)) == Ok::<CommandView, CommandError>(
            CommandView::Repeat(RepeatMode::Off),
        ),
        command_of("repeat"@, Some("track"@)) == Ok::<CommandView, CommandError>(
            CommandView::Repeat(RepeatMode::Track),
        ),
        command_of("repeat"@, Some("queue"@)) == Ok::<CommandView, CommandError>(
            CommandView::Repeat(RepeatMode::Queue),
        ),
        command_of("repeat"@, None) == Ok::<CommandView, CommandError>(
            CommandView::Repeat(RepeatMode::Off),
        ),
        command_of("loop"@, Some("off"@)) == Ok::<CommandView, CommandError>(
            CommandView::Repeat(RepeatMode::Off),
        ),
        command_of("loop"@, Some("queue"@)) == Ok::<CommandView, CommandError>(
            CommandView::Repeat(RepeatMode::Queue),
        ),
{
    reveal_strlit("loop");
    reveal_strlit("repeat");
    reveal_strlit("off");
    reveal_strlit("track");
    reveal_strlit("queue");
    reveal_strlit("play");
    reveal_strlit("p");
    reveal_strlit("pause");
    reveal_strlit("resume");
    reveal_strlit("unpause");
    reveal_strlit("stop");
    reveal_strlit("skip");
    reveal_strlit("next");
    reveal_strlit("previous");
    reveal_strlit("back");
    reveal_strlit("shuffle");
    reveal_strlit("q");
    reveal_strlit("nowplaying");
    reveal_strlit("np");
    reveal_strlit("volume");
    reveal_strlit("vol");
    reveal_strlit("mute");
    let l = "loop"@;
    let r = "repeat"@;
    assert(l[0] == 'l');
    assert("play"@[0] == 'p' && "stop"@[0] == 's' && "skip"@[0] == 's');
    assert("next"@[0] == 'n' && "back"@[0] == 'b' && "mute"@[0] == 'm');
    assert(l != "play"@);
    assert(l != "p"@);
    assert(l != "pause"@);
    assert(l != "resume"@);
    assert(l != "unpause"@);
    assert(l != "stop"@);
    assert(l != "skip"@);
    assert(l != "next"@);
    assert(l != "previous"@);
    assert(l != "back"@);
    assert(l != "shuffle"@ && l != "queue"@ && l != "q"@ && l != "nowplaying"@ && l != "np"@);
    assert(l != "volume"@ && l != "vol"@ && l != "mute"@);
    assert(r[2] == 'p' && "resume"@[2] == 's');
    assert(r.len() == 6 && "p"@.len() == 1 && "unpause"@.len() == 7);
    assert(r != "play"@);
    assert(r != "p"@);
    assert(r != "pause"@);
    assert(r != "resume"@);
    assert(r != "unpause"@);
    assert(r != "stop"@);
    assert(r != "skip"@);
    assert(r != "next"@);
    assert(r != "previous"@);
    assert(r != "back"@);
    assert(r != "shuffle"@ && r != "queue"@ && r != "q"@ && r != "nowplaying"@ && r != "np"@);
    assert(r != "volume"@ && r != "vol"@ && r != "mute"@);
    assert("off"@ != "track"@ && "off"@ != "queue"@ && "queue"@ != "track"@);
}

} // verus!
