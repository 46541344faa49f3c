//! Tracks, the bounded track queue with its history, the playback state
//! machine and the resolver that turns user input into tracks.
pub mod laws;
pub mod player;
pub mod resolver;

pub use player::{Player, PlayerState, PlayerView};
pub use resolver::{AudioSource, BasicResolver, SourceError};
use rand::seq::SliceRandom;
use std::collections::VecDeque;
use vstd::prelude::*;


verus! {

broadcast use vstd::std_specs::vecdeque::group_vec_dequeue_axioms;

/// Where a track comes from.
#[derive(Debug, Clone, Copy, PartialEq, Eq, Structural)]
pub enum SourceKind {
    YouTube,
    SoundCloud,
    Spotify,
    DirectUrl,
    LocalFile,
    Radio,
    Unknown,
}

/// A playable item.
#[derive(Debug, PartialEq, Eq)]
pub struct Track {
    pub id: String,
    pub title: String,
    pub url: String,
    pub author: Option<String>,
    pub duration_secs: Option<u64>,
    pub source: SourceKind,
    pub requested_by: u64,
}

/// The contents of a [`Track`], its strings taken as character sequences.
pub struct TrackView {
    pub id: Seq<char>,
    pub title: Seq<char>,
    pub url: Seq<char>,
    pub author: Option<Seq<char>>,
    pub duration_secs: Option<u64>,
    pub source: SourceKind,
    pub requested_by: u64,
}

pub open spec fn opt_string_view(s: Option<String>) -> Option<Seq<char>> {
    match s {
        Some(v) => Some(v@),
        None => None,
    }
}

impl View for Track {
    type V = TrackView;

    open spec fn view(&self) -> TrackView {
        TrackView {
            id: self.id@,
            title: self.title@,
            url: self.url@,
            author: opt_string_view(self.author),
            duration_secs: self.duration_secs,
            source: self.source,
            requested_by: self.requested_by,
        }
    }
}

impl Clone for Track {
    fn clone(&self) -> (r: Self)
        ensures
            r == *self,
    {
        let author = match &self.author {
            Some(a) => Some(a.clone()),
            None => None,
        };
        Track {
            id: self.id.clone(),
            title: self.title.clone(),
            url: self.url.clone(),
            author,
            duration_secs: self.duration_secs,
            source: self.source,
            requested_by: self.requested_by,
        }
    }
}

/// Clones an optional track; the copy is equal to the source value.
pub fn clone_track_opt(t: &Option<Track>) -> (r: Option<Track>)
    ensures
        r == *t,
{
    match t {
        Some(x) => Some(x.clone()),
        None => None,
    }
}

impl Track {
    /// A track whose id and url are `url`, with no author, no duration and
    /// an unknown source.
    pub fn new(title: &str, url: &str, requested_by: u64) -> (t: Track)
        ensures
            t@ == (TrackView {
                id: url@,
                title: title@,
                url: url@,
                author: None,
                duration_secs: None,
                source: SourceKind::Unknown,
                requested_by,
            }),
    {
        let url = url.to_owned();
        Track {
            id: url.clone(),
            title: title.to_owned(),
            url,
            author: None,
            duration_secs: None,
            source: SourceKind::Unknown,
            requested_by,
        }
    }
}

/// How playback continues when a track ends.
#[derive(Debug, Clone, Copy, PartialEq, Eq, Structural)]
pub enum RepeatMode {
    Off,
    Track,
    Queue,
}

/// Why a queue operation was refused.
#[derive(Debug, Clone, Copy, PartialEq, Eq, Structural)]
pub enum QueueError {
    Empty,
    InvalidIndex,
    Full,
}

impl QueueError {
    /// The human-readable description of the error.
    pub fn message(&self) -> (s: String)
        ensures
            s@ == queue_error_text(*self),
    {
        match self {
            QueueError::Empty => "queue is empty".to_owned(),
            QueueError::InvalidIndex => "index out of bounds".to_owned(),
            QueueError::Full => "queue limit reached".to_owned(),
        }
    }
}

pub open spec fn queue_error_text(e: QueueError) -> Seq<char> {
    match e {
        QueueError::Empty => "queue is empty"@,
        QueueError::InvalidIndex => "index out of bounds"@,
        QueueError::Full => "queue limit reached"@,
    }
}

/// How many played tracks the history keeps.
pub const HISTORY_LIMIT: usize = 100;

/// A bounded FIFO of upcoming tracks together with the history of started
/// tracks.
#[derive(Debug)]
pub struct TrackQueue {
    items: VecDeque<Track>,
    history: Vec<Track>,
    max_size: usize,
}

/// The abstract state of a [`TrackQueue`].
pub struct QueueView {
    pub items: Seq<Track>,
    pub history: Seq<Track>,
    pub max_size: nat,
}

impl View for TrackQueue {
    type V = QueueView;

    closed spec fn view(&self) -> QueueView {
        QueueView { items: self.items@, history: self.history@, max_size: self.max_size as nat }
    }
}

/// A queue state that respects its bounds: no more upcoming tracks than the
/// limit, and no more remembered tracks than [`HISTORY_LIMIT`].
pub open spec fn queue_bounded(q: QueueView) -> bool {
    &&& q.items.len() <= q.max_size
    &&& q.history.len() <= HISTORY_LIMIT
}

pub open spec fn with_items(q: QueueView, items: Seq<Track>) -> QueueView {
    QueueView { items, history: q.history, max_size: q.max_size }
}

pub open spec fn with_history(q: QueueView, history: Seq<Track>) -> QueueView {
    QueueView { items: q.items, history, max_size: q.max_size }
}

/// Appending at the back (or at the front) is refused with `Full` when the
/// queue already holds `max_size` tracks.
pub open spec fn queue_push(q: QueueView, t: Track) -> (QueueView, Result<(), QueueError>) {
    if q.items.len() >= q.max_size {
        (q, Err(QueueError::Full))
    } else {
        (with_items(q, q.items.push(t)), Ok(()))
    }
}

pub open spec fn queue_push_front(q: QueueView, t: Track) -> (QueueView, Result<(), QueueError>) {
    if q.items.len() >= q.max_size {
        (q, Err(QueueError::Full))
    } else {
        (with_items(q, seq![t] + q.items), Ok(()))
    }
}

/// Taking the front track; `Empty` on an empty queue.
pub open spec fn queue_pop(q: QueueView) -> (QueueView, Result<Track, QueueError>) {
    if q.items.len() == 0 {
        (q, Err(QueueError::Empty))
    } else {
        (with_items(q, q.items.drop_first()), Ok(q.items[0]))
    }
}

pub open spec fn queue_remove(q: QueueView, index: int) -> (QueueView, Result<Track, QueueError>) {
    if 0 <= index < q.items.len() {
        (with_items(q, q.items.remove(index)), Ok(q.items[index]))
    } else {
        (q, Err(QueueError::InvalidIndex))
    }
}

pub open spec fn queue_move(q: QueueView, from: int, to: int) -> (QueueView, Result<(), QueueError>) {
    if 0 <= from < q.items.len() && 0 <= to < q.items.len() {
        (with_items(q, q.items.remove(from).insert(to, q.items[from])), Ok(()))
    } else {
        (q, Err(QueueError::InvalidIndex))
    }
}

/// The history after `t` started: `t` is appended and, past the limit, the
/// oldest entry is dropped.
pub open spec fn history_after(h: Seq<Track>, t: Track) -> Seq<Track> {
    if h.len() + 1 > HISTORY_LIMIT {
        h.push(t).drop_first()
    } else {
        h.push(t)
    }
}

pub open spec fn queue_record(q: QueueView, t: Track) -> QueueView {
    with_history(q, history_after(q.history, t))
}

/// Taking back the most recent history entry.
pub open spec fn queue_previous(q: QueueView) -> (QueueView, Option<Track>) {
    if q.history.len() == 0 {
        (q, None)
    } else {
        (with_history(q, q.history.drop_last()), Some(q.history.last()))
    }
}

/// Shuffles `v` in place with the thread-local generator of `rand`.
/// What comes out is some permutation of what went in: the contract states
/// that the multiset of tracks and the length are kept, and says nothing of
/// the order, which is random.
#[verifier::external_body]
fn shuffle_tracks(v: &mut Vec<Track>)
    ensures
        final(v)@.to_multiset() == old(v)@.to_multiset(),
        final(v)@.len() == old(v)@.len(),
{
    v.shuffle(&mut rand::thread_rng());
}

/// A copy of `v`, track by track.
pub fn clone_tracks(v: &Vec<Track>) -> (r: Vec<Track>)
    ensures
        r@ == v@,
{
    let mut r: Vec<Track> = Vec::new();
    let n = v.len();
    let mut i: usize = 0;
    while i < n
        invariant
            n == v@.len(),
            i <= n,
            r@ == v@.take(i as int),
        decreases n - i,
    {
        r.push(v[i].clone());
        assert(r@ =~= v@.take(i + 1));
        i = i + 1;
    }
    assert(v@.take(n as int) =~= v@);
    r
}

impl Clone for TrackQueue {
    /// A queue with the same upcoming tracks, history and limit.
    fn clone(&self) -> (r: Self)
        ensures
            r@ == self@,
    {
        let mut items: VecDeque<Track> = VecDeque::new();
        let n = self.items.len();
        let mut i: usize = 0;
        while i < n
            invariant
                n == self.items@.len(),
                i <= n,
                items@ == self.items@.take(i as int),
            decreases n - i,
        {
            items.push_back(self.items[i].clone());
            assert(items@ =~= self.items@.take(i + 1));
            i = i + 1;
        }
        assert(self.items@.take(n as int) =~= self.items@);
        TrackQueue { items, history: clone_tracks(&self.history), max_size: self.max_size }
    }
}

impl TrackQueue {
    /// The queue respects its bounds (see [`queue_bounded`]).
    pub open spec fn wf(&self) -> bool {
        queue_bounded(self@)
    }

    pub fn new(max_size: usize) -> (q: TrackQueue)
        ensures
            q.wf(),
            q@.items == Seq::<Track>::empty(),
            q@.history == Seq::<Track>::empty(),
            q@.max_size == max_size,
    {
        TrackQueue { items: VecDeque::new(), history: Vec::new(), max_size }
    }

    pub fn len(&self) -> (n: usize)
        ensures
            n == self@.items.len(),
    {
        self.items.len()
    }

    pub fn is_empty(&self) -> (b: bool)
        ensures
            b == (self@.items.len() == 0),
    {
        self.items.len() == 0
    }

    pub fn max_size(&self) -> (n: usize)
        ensures
            n == self@.max_size,
    {
        self.max_size
    }

    /// The upcoming tracks, front first.
    pub fn items(&self) -> (it: std::collections::vec_deque::Iter<'_, Track>)
        ensures
            vstd::std_specs::iter::IteratorSpec::remaining(&it).unref() == self@.items,
    {
        let it = self.items.iter();
        proof {
            assert(vstd::std_specs::iter::IteratorSpec::remaining(&it) == self.items@.as_ref());
            assert(self.items@.as_ref().unref() =~= self.items@);
        }
        it
    }

    /// The upcoming track at `index` (0 is the front).
    pub fn get(&self, index: usize) -> (t: &Track)
        requires
            index < self@.items.len(),
        ensures
            *t == self@.items[index as int],
    {
        &self.items[index]
    }

    /// The started tracks, oldest first.
    pub fn history(&self) -> (h: &[Track])
        ensures
            h@ == self@.history,
    {
        self.history.as_slice()
    }

    pub fn push(&mut self, track: Track) -> (r: Result<(), QueueError>)
        requires
            old(self).wf(),
        ensures
            final(self).wf(),
            (final(self)@, r) == queue_push(old(self)@, track),
    {
        if self.items.len() >= self.max_size {
            return Err(QueueError::Full);
        }
        self.items.push_back(track);
        Ok(())
    }

    pub fn push_front(&mut self, track: Track) -> (r: Result<(), QueueError>)
        requires
            old(self).wf(),
        ensures
            final(self).wf(),
            (final(self)@, r) == queue_push_front(old(self)@, track),
    {
        if self.items.len() >= self.max_size {
            return Err(QueueError::Full);
        }
        self.items.push_front(track);
        Ok(())
    }

    pub fn pop(&mut self) -> (r: Result<Track, QueueError>)
        requires
            old(self).wf(),
        ensures
            final(self).wf(),
            (final(self)@, r) == queue_pop(old(self)@),
    {
        match self.items.pop_front() {
            Some(t) => Ok(t),
            None => Err(QueueError::Empty),
        }
    }

    pub fn remove(&mut self, index: usize) -> (r: Result<Track, QueueError>)
        requires
            old(self).wf(),
        ensures
            final(self).wf(),
            (final(self)@, r) == queue_remove(old(self)@, index as int),
    {
        match self.items.remove(index) {
            Some(t) => Ok(t),
            None => Err(QueueError::InvalidIndex),
        }
    }

    pub fn move_item(&mut self, from: usize, to: usize) -> (r: Result<(), QueueError>)
        requires
            old(self).wf(),
        ensures
            final(self).wf(),
            (final(self)@, r) == queue_move(old(self)@, from as int, to as int),
    {
        if from >= self.items.len() || to >= self.items.len() {
            return Err(QueueError::InvalidIndex);
        }
        let item = match self.items.remove(from) {
            Some(t) => t,
            None => {
                return Err(QueueError::InvalidIndex);
            },
        };
        self.items.insert(to, item);
        Ok(())
    }

    pub fn clear(&mut self)
        requires
            old(self).wf(),
        ensures
            final(self).wf(),
            final(self)@ == with_items(old(self)@, Seq::<Track>::empty()),
    {
        self.items.clear();
    }

    /// Puts the upcoming tracks in a random order.
    pub fn shuffle(&mut self)
        requires
            old(self).wf(),
        ensures
            final(self).wf(),
            final(self)@.items.to_multiset() == old(self)@.items.to_multiset(),
            final(self)@.items.len() == old(self)@.items.len(),
            final(self)@.history == old(self)@.history,
            final(self)@.max_size == old(self)@.max_size,
    {
        let ghost before = self.items@;
        let mut v: Vec<Track> = Vec::new();
        while self.items.len() > 0
            invariant
                v@ + self.items@ == before,
                self.history == old(self).history,
                self.max_size == old(self).max_size,
            decreases self.items@.len(),
        {
            match self.items.pop_front() {
                Some(t) => {
                    v.push(t);
                    assert(v@ + self.items@ =~= before);
                },
                None => {},
            }
        }
        assert(v@ =~= before);
        shuffle_tracks(&mut v);
        let ghost shuffled = v@;
        let mut i: usize = 0;
        let n = v.len();
        while i < n
            invariant
                n == v@.len(),
                v@ == shuffled,
                i <= n,
                self.history == old(self).history,
                self.max_size == old(self).max_size,
                self.items@ == shuffled.take(i as int),
            decreases n - i,
        {
            self.items.push_back(v[i].clone());
            assert(self.items@ =~= shuffled.take(i + 1));
            i = i + 1;
        }
        assert(self.items@ =~= shuffled);
    }

    /// Remembers `track` as started; the oldest entry goes once the history
    /// would exceed [`HISTORY_LIMIT`].
    pub fn record_history(&mut self, track: Track)
        requires
            old(self).wf(),
        ensures
            final(self).wf(),
            final(self)@ == queue_record(old(self)@, track),
    {
        self.history.push(track);
        if self.history.len() > HISTORY_LIMIT {
            let _ = self.history.remove(0);
        }
        assert(self.history@ =~= history_after(old(self)@.history, track));
    }

    /// Takes back the most recently started track.
    pub fn previous(&mut self) -> (r: Option<Track>)
        requires
            old(self).wf(),
        ensures
            final(self).wf(),
            (final(self)@, r) == queue_previous(old(self)@),
    {
        let r = self.history.pop();
        proof {
            if old(self)@.history.len() > 0 {
                assert(self.history@ =~= old(self)@.history.drop_last());
            }
        }
        r
    }
}

} // verus!
