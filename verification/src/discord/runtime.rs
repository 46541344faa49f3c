//! Decisions of the Discord runtime that do not touch the network: how a
//! reply is cut to fit a message, what a track is handed to the downloader
//! as, and the downloader's arguments.
use crate::audio::Track;
use crate::text::{chars_of, starts_with};
use vstd::prelude::*;
use vstd::string::{StrSliceExecFns, StringExecFns};

verus! {

broadcast use vstd::string::group_string_axioms;

/// Replies longer than this many characters are cut.
pub const REPLY_LIMIT: usize = 1900;

/// How many characters of a cut reply are kept before the ellipsis.
pub const REPLY_KEEP: usize = 1880;

/// A reply as it is sent: at most [`REPLY_LIMIT`] characters kept whole,
/// else the first [`REPLY_KEEP`] followed by `…`.
pub open spec fn reply_of(s: Seq<char>) -> Seq<char> {
    if s.len() > REPLY_LIMIT {
        s.take(REPLY_KEEP as int) + "…"@
    } else {
        s
    }
}

pub fn reply_text(content: &str) -> (r: String)
    ensures
        r@ == reply_of(content@),
{
    if content.unicode_len() > REPLY_LIMIT {
        let mut s = content.substring_char(0, REPLY_KEEP).to_owned();
        s.append("…");
        s
    } else {
        content.to_owned()
    }
}

/// What the downloader is asked for: a search, or a URL.
#[derive(Debug, Clone, PartialEq, Eq)]
pub enum TrackInput {
    Search(String),
    Url(String),
}

/// The prefix that marks a track's url as a search query.
pub open spec fn search_scheme() -> Seq<char> {
    "search://"@
}

/// A url that starts with `search://` is a search for the rest of it; any
/// other url is fetched as it is.
pub open spec fn input_of(url: Seq<char>) -> (bool, Seq<char>) {
    if starts_with(url, search_scheme()) {
        (true, url.skip(search_scheme().len() as int))
    } else {
        (false, url)
    }
}

pub fn track_input(track: &Track) -> (r: TrackInput)
    ensures
        match r {
            TrackInput::Search(q) => input_of(track.url@) == (true, q@),
            TrackInput::Url(u) => input_of(track.url@) == (false, u@),
        },
{
    let url = track.url.as_str();
    let v = chars_of(url);
    let p = chars_of("search://");
    if crate::text::matches_at(&v, 0, &p) {
        assert(v@.subrange(0, p@.len() as int) =~= v@.take(p@.len() as int));
        let q = url.substring_char(p.len(), v.len());
        assert(v@.subrange(p@.len() as int, v@.len() as int) =~= v@.skip(p@.len() as int));
        TrackInput::Search(q.to_owned())
    } else {
        assert(!starts_with(url@, search_scheme())) by {
            if starts_with(url@, search_scheme()) {
                assert(v@.subrange(0, p@.len() as int) =~= v@.take(p@.len() as int));
            }
        }
        TrackInput::Url(url.to_owned())
    }
}

/// The arguments passed to `yt-dlp`: short socket timeout, two retries, a
/// single video rather than a playlist, and Deno as the JavaScript runtime.
pub open spec fn ytdlp_arg_list() -> Seq<Seq<char>> {
    seq![
        "--socket-timeout"@,
        "15"@,
        "--retries"@,
        "2"@,
        "--fragment-retries"@,
        "2"@,
        "--no-playlist"@,
        "--js-runtimes"@,
        "deno"@,
    ]
}

pub fn ytdlp_args() -> (v: Vec<String>)
    ensures
        v@.len() == ytdlp_arg_list().len(),
        forall|i: int| 0 <= i < v@.len() ==> #[trigger] v@[i]@ == ytdlp_arg_list()[i],
{
    let mut v: Vec<String> = Vec::new();
    v.push("--socket-timeout".to_owned());
    v.push("15".to_owned());
    v.push("--retries".to_owned());
    v.push("2".to_owned());
    v.push("--fragment-retries".to_owned());
    v.push("2".to_owned());
    v.push("--no-playlist".to_owned());
    v.push("--js-runtimes".to_owned());
    v.push("deno".to_owned());
    v
}

/// Whether a chat message is for the bot: not written by a bot, and
/// starting with the command prefix.
pub fn accepts_message(from_bot: bool, content: &str, prefix: &str) -> (b: bool)
    ensures
        b == (!from_bot && starts_with(content@, prefix@)),
{
    if from_bot {
        return false;
    }
    let v = chars_of(content);
    let p = chars_of(prefix);
    let r = crate::text::matches_at(&v, 0, &p);
    proof {
        if p@.len() <= v@.len() {
            assert(v@.subrange(0, p@.len() as int) =~= v@.take(p@.len() as int));
        }
    }
    r
}

/// The reply that reports an error.
pub fn error_reply(error: &str) -> (r: String)
    ensures
        r@ == "erro: "@ + error@,
{
    let mut s = "erro: ".to_owned();
    s.append(error);
    s
}

/// The track that a play request starts when nothing is playing: the
/// player's current track, else the first resolved one.
pub open spec fn start_choice(current: Option<Track>, resolved: Seq<Track>) -> Option<Track> {
    match current {
        Some(t) => Some(t),
        None => if resolved.len() > 0 {
            Some(resolved[0])
        } else {
            None
        },
    }
}

pub fn track_to_start(current: &Option<Track>, resolved: &Vec<Track>) -> (r: Result<Track, String>)
    ensures
        match start_choice(*current, resolved@) {
            Some(t) => r == Ok::<Track, String>(t),
            None => r matches Err(m) && m@ == "nenhuma faixa foi resolvida"@,
        },
{
    match current {
        Some(t) => Ok(t.clone()),
        None => {
            if resolved.len() > 0 {
                Ok(resolved[0].clone())
            } else {
                Err("nenhuma faixa foi resolvida".to_owned())
            }
        },
    }
}

/// The reply when a request only adds to the queue of an active player.
pub fn queued_reply(query: &str) -> (r: String)
    ensures
        r@ == "faixa adicionada à fila: `"@ + query@ + "`"@,
{
    let mut s = "faixa adicionada à fila: `".to_owned();
    s.append(query);
    s.append("`");
    s
}

/// The reply when a track starts.
pub fn playing_reply(track: &Track) -> (r: String)
    ensures
        r@ == "tocando `"@ + track.title@ + "`"@,
{
    let mut s = "tocando `".to_owned();
    s.append(track.title.as_str());
    s.append("`");
    s
}

/// The reply to a skip, given the track that follows (if any).
pub open spec fn skip_text(next: Option<Track>) -> Seq<char> {
    match next {
        Some(t) => "tocando a próxima: `"@ + t.title@ + "`"@,
        None => "faixa pulada; a fila está vazia"@,
    }
}

pub fn skip_reply(next: &Option<Track>) -> (r: String)
    ensures
        r@ == skip_text(*next),
{
    match next {
        Some(t) => {
            let mut s = "tocando a próxima: `".to_owned();
            s.append(t.title.as_str());
            s.append("`");
            s
        },
        None => "faixa pulada; a fila está vazia".to_owned(),
    }
}

} // verus!
