//! The app-managed playback queue.
//!
//! The queue stores the full ordered track list of a context and hands it to
//! the player in batches. It only intervenes at batch boundaries: within a
//! batch the player moves from track to track by itself. Tracks are held by
//! integer ids.

use vstd::prelude::*;
use vstd::multiset::Multiset;

use rand::seq::SliceRandom;

use crate::clock;
use crate::model::{ContextId, ContextIdView};

verus! {

/// How long after a batch transition consistency checks are suppressed:
/// 3 seconds, in nanoseconds.
pub const BATCH_COOLDOWN_NANOS: u128 = 3_000_000_000;

/// The player's repeat setting.
#[derive(Clone, Copy, Debug, PartialEq, Eq, Structural)]
pub enum RepeatState {
    Off,
    Track,
    Context,
}

/// The repeat setting that follows `s` when the user cycles through them.
pub open spec fn next_repeat(s: RepeatState) -> RepeatState {
    match s {
        RepeatState::Off => RepeatState::Track,
        RepeatState::Track => RepeatState::Context,
        RepeatState::Context => RepeatState::Off,
    }
}

impl RepeatState {
    /// The next repeat setting: off, then track, then context, then off.
    pub fn cycled(self) -> (r: RepeatState)
        ensures
            r == next_repeat(self),
    {
        match self {
            RepeatState::Off => RepeatState::Track,
            RepeatState::Track => RepeatState::Context,
            RepeatState::Context => RepeatState::Off,
        }
    }
}

/// Cycling the repeat setting three times comes back to where it started,
/// and no fewer cycles do; from off it repeats the track first, then the
/// whole context.
pub proof fn law_repeat_cycle(s: RepeatState)
    ensures
        next_repeat(next_repeat(next_repeat(s))) == s,
        next_repeat(s) != s,
        next_repeat(next_repeat(s)) != s,
        s == RepeatState::Off ==> next_repeat(s) == RepeatState::Track && next_repeat(next_repeat(s))
            == RepeatState::Context,
{
}

/// Going back across the start of a batch loads the batch before it: the
/// new batch ends where the old one started and holds the
/// `max_batch_size` tracks before it (fewer at the start of the play
/// order), the position moves to the last of them, which is the track just
/// before the old batch, and that batch is handed back.
pub proof fn law_retreat_loads_previous_batch(q: QueueView)
    requires
        0 < q.position,
        q.batch_start <= q.position,
        q.position - 1 < q.batch_start <= q.order.len(),
        q.max_batch_size >= 1,
    ensures
        ({
            let (r, out) = q.retreated();
            &&& r.batch_end == q.batch_start
            &&& r.batch_end - r.batch_start == min_int(q.max_batch_size, q.batch_start)
            &&& r.position == q.position - 1
            &&& r.position == r.batch_end - 1
            &&& r.batch_start <= r.position < r.batch_end
            &&& out matches RetreatOutcome::PreviousBatch(b) && b.len() == min_int(q.max_batch_size, q.batch_start)
                && b.last() == q.order[q.batch_start - 1] && b == q.order.subrange(
                q.batch_start - min_int(q.max_batch_size, q.batch_start),
                q.batch_start,
            )
            &&& r.order == q.order
        }),
{
    let (r, out) = q.retreated();
    assert(q.position == q.batch_start);
    if let RetreatOutcome::PreviousBatch(b) = out {
        assert(b.len() == r.batch_end - r.batch_start);
        assert(b.last() == q.order[q.batch_start - 1]);
    }
}

/// Going back moves one track back within the batch, keeping it; at the
/// first track of the play order it wraps to the last track and its batch
/// (the last `max_batch_size` tracks, fewer when the order is shorter) when
/// the whole context repeats, and otherwise stays, saying so.
pub proof fn law_retreat_moves_one_back(q: QueueView)
    requires
        0 <= q.batch_start <= q.position,
        q.order.len() > 0,
        q.max_batch_size >= 1,
    ensures
        q.position > q.batch_start ==> q.retreated().1 is SameBatch && q.retreated().0 == (QueueView {
            position: q.position - 1,
            ..q
        }),
        q.position == 0 && q.repeat == RepeatState::Context ==> q.retreated().0.position == q.order.len() - 1
            && q.retreated().0.batch_end == q.order.len() && q.retreated().0.batch_end
            - q.retreated().0.batch_start == min_int(q.max_batch_size, q.order.len() as int),
        q.position == 0 && q.repeat == RepeatState::Context ==> (q.retreated().1 matches RetreatOutcome::PreviousBatch(
            b,
        ) && b.len() > 0 && b.last() == q.order.last()),
        q.position == 0 && q.repeat != RepeatState::Context ==> q.retreated().1 is BeginningOfQueue
            && q.retreated().0 == q,
{
    if q.position == 0 && q.repeat == RepeatState::Context {
        let r = q.retreated().0;
        let b = r.current_batch();
        assert(b.len() == r.batch_end - r.batch_start);
        assert(b.last() == q.order[q.order.len() - 1]);
    }
}

/// What the caller must do after the queue advanced by one track.
#[derive(Clone, Debug, PartialEq, Eq)]
pub enum AdvanceResult {
    /// The next track is in the current batch: the player handles it.
    SameBatch,
    /// The current batch is exhausted; this is the next batch to start.
    NewBatch(Vec<u64>),
    /// The queue is exhausted and autoplay is on: fetch radio tracks.
    NeedsRadioTracks,
    /// The queue is exhausted and autoplay is off.
    EndOfQueue,
}

/// An advance result with the batch as a sequence.
pub enum AdvanceOutcome {
    SameBatch,
    NewBatch(Seq<u64>),
    NeedsRadioTracks,
    EndOfQueue,
}

impl View for AdvanceResult {
    type V = AdvanceOutcome;

    open spec fn view(&self) -> AdvanceOutcome {
        match self {
            AdvanceResult::SameBatch => AdvanceOutcome::SameBatch,
            AdvanceResult::NewBatch(b) => AdvanceOutcome::NewBatch(b@),
            AdvanceResult::NeedsRadioTracks => AdvanceOutcome::NeedsRadioTracks,
            AdvanceResult::EndOfQueue => AdvanceOutcome::EndOfQueue,
        }
    }
}

/// What the caller must do after the queue went back by one track.
#[derive(Clone, Debug, PartialEq, Eq)]
pub enum RetreatResult {
    /// The previous track is in the current batch.
    SameBatch,
    /// The previous batch must be loaded; this is it.
    PreviousBatch(Vec<u64>),
    /// The queue is already at its first track.
    BeginningOfQueue,
}

/// A retreat result with the batch as a sequence.
pub enum RetreatOutcome {
    SameBatch,
    PreviousBatch(Seq<u64>),
    BeginningOfQueue,
}

impl View for RetreatResult {
    type V = RetreatOutcome;

    open spec fn view(&self) -> RetreatOutcome {
        match self {
            RetreatResult::SameBatch => RetreatOutcome::SameBatch,
            RetreatResult::PreviousBatch(b) => RetreatOutcome::PreviousBatch(b@),
            RetreatResult::BeginningOfQueue => RetreatOutcome::BeginningOfQueue,
        }
    }
}

/// The queue's shuffle mode.
#[derive(Clone, Debug, PartialEq, Eq)]
pub enum ShuffleMode {
    Off,
    /// Play the context's tracks in random order.
    Shuffle,
    /// Random order with these radio recommendations interleaved.
    SmartShuffle(Vec<u64>),
}

/// A shuffle mode with the radio tracks as a sequence.
pub enum ShuffleModeView {
    Off,
    Shuffle,
    SmartShuffle(Seq<u64>),
}

impl View for ShuffleMode {
    type V = ShuffleModeView;

    open spec fn view(&self) -> ShuffleModeView {
        match self {
            ShuffleMode::Off => ShuffleModeView::Off,
            ShuffleMode::Shuffle => ShuffleModeView::Shuffle,
            ShuffleMode::SmartShuffle(r) => ShuffleModeView::SmartShuffle(r@),
        }
    }
}

impl Default for ShuffleMode {
    fn default() -> (r: Self)
        ensures
            r@ == ShuffleModeView::Off,
    {
        ShuffleMode::Off
    }
}

/// Whether the cooldown after a batch transition still runs
/// `elapsed_nanos` nanoseconds after it.
pub open spec fn cooldown_running_at(elapsed_nanos: u128) -> bool {
    elapsed_nanos < BATCH_COOLDOWN_NANOS
}

/// Whether the cooldown after a batch transition still runs
/// `elapsed_nanos` nanoseconds after it: it lasts [`BATCH_COOLDOWN_NANOS`].
pub fn cooldown_running(elapsed_nanos: u128) -> (r: bool)
    ensures
        r == cooldown_running_at(elapsed_nanos),
{
    elapsed_nanos < BATCH_COOLDOWN_NANOS
}

/// App-managed playback queue.
#[derive(Debug)]
pub struct CustomQueue {
    original_tracks: Vec<u64>,
    play_order: Vec<u64>,
    position: usize,
    batch_start: usize,
    batch_end: usize,
    max_batch_size: usize,
    source_context: Option<ContextId>,
    repeat: RepeatState,
    shuffle_mode: ShuffleMode,
    autoplay: bool,
    last_batch_transition: Option<std::time::Instant>,
}

/// The state of a queue.
///
/// `order` is the play order; the current batch is
/// `order[batch_start..batch_end]`; `transitioned` tells whether a batch
/// transition has been recorded.
pub struct QueueView {
    pub original: Seq<u64>,
    pub order: Seq<u64>,
    pub position: int,
    pub batch_start: int,
    pub batch_end: int,
    pub max_batch_size: int,
    pub source_context: Option<ContextIdView>,
    pub repeat: RepeatState,
    pub shuffle: ShuffleModeView,
    pub autoplay: bool,
    pub transitioned: bool,
}

/// The smaller of two integers.
pub open spec fn min_int(a: int, b: int) -> int {
    if a <= b {
        a
    } else {
        b
    }
}

/// `a - b`, or 0 when `b` is larger.
pub open spec fn minus_or_zero(a: int, b: int) -> int {
    if a >= b {
        a - b
    } else {
        0
    }
}

/// The tracks of `s` other than `t`, in order.
pub open spec fn others(s: Seq<u64>, t: u64) -> Seq<u64> {
    s.filter(|x: u64| x != t)
}

/// The index of the first `t` in `s`, or 0 when `s` has none.
pub open spec fn first_index_or_zero(s: Seq<u64>, t: u64) -> int {
    if s.contains(t) {
        choose|i: int| 0 <= i < s.len() && s[i] == t && forall|j: int| 0 <= j < i ==> s[j] != t
    } else {
        0
    }
}

/// `order` with one radio track inserted after every fourth track (counting
/// the first track as number 0), while radio tracks last, and the remaining
/// radio tracks appended. `i` is the number of the first track of `order`.
pub open spec fn interleave_from(order: Seq<u64>, radio: Seq<u64>, i: int) -> Seq<u64>
    decreases order.len(),
{
    if order.len() == 0 {
        radio
    } else if i > 0 && i % 4 == 0 && radio.len() > 0 {
        seq![order[0], radio[0]] + interleave_from(order.drop_first(), radio.drop_first(), i + 1)
    } else {
        seq![order[0]] + interleave_from(order.drop_first(), radio, i + 1)
    }
}

impl QueueView {
    /// The tracks of the current batch.
    pub open spec fn current_batch(self) -> Seq<u64> {
        self.order.subrange(self.batch_start, self.batch_end)
    }

    /// The queue whose current batch starts at `start`, with `position`
    /// there, after a recorded batch transition.
    pub open spec fn batch_at(self, start: int) -> QueueView {
        QueueView {
            position: start,
            batch_start: start,
            batch_end: min_int(start + self.max_batch_size, self.order.len() as int),
            transitioned: true,
            ..self
        }
    }

    /// Advancing can be done without overflow.
    pub open spec fn can_advance(self) -> bool {
        &&& self.position < usize::MAX
        &&& (self.repeat != RepeatState::Track && self.position + 1 >= self.batch_end
            && self.position + 1 < self.order.len()) ==> self.position + 1 + self.max_batch_size
            <= usize::MAX
    }

    /// The state and outcome after advancing by one track.
    pub open spec fn advanced(self) -> (QueueView, AdvanceOutcome) {
        let next = self.position + 1;
        if self.repeat == RepeatState::Track {
            (self, AdvanceOutcome::SameBatch)
        } else if next < self.batch_end {
            (QueueView { position: next, ..self }, AdvanceOutcome::SameBatch)
        } else if next < self.order.len() {
            let q = self.batch_at(next);
            (q, AdvanceOutcome::NewBatch(q.current_batch()))
        } else if self.repeat == RepeatState::Context {
            let q = self.batch_at(0);
            (q, AdvanceOutcome::NewBatch(q.current_batch()))
        } else if self.autoplay {
            (self, AdvanceOutcome::NeedsRadioTracks)
        } else {
            (self, AdvanceOutcome::EndOfQueue)
        }
    }

    /// Going back can slice the previous batch.
    pub open spec fn can_retreat(self) -> bool {
        self.position > 0 && self.position - 1 < self.batch_start ==> self.batch_start
            <= self.order.len()
    }

    /// The state and outcome after going back by one track.
    pub open spec fn retreated(self) -> (QueueView, RetreatOutcome) {
        if self.position == 0 {
            if self.repeat == RepeatState::Context {
                let len = self.order.len() as int;
                let q = QueueView {
                    position: minus_or_zero(len, 1),
                    batch_end: len,
                    batch_start: minus_or_zero(len, self.max_batch_size),
                    transitioned: true,
                    ..self
                };
                (q, RetreatOutcome::PreviousBatch(q.current_batch()))
            } else {
                (self, RetreatOutcome::BeginningOfQueue)
            }
        } else {
            let prev = self.position - 1;
            if prev >= self.batch_start {
                (QueueView { position: prev, ..self }, RetreatOutcome::SameBatch)
            } else {
                let q = QueueView {
                    position: prev,
                    batch_end: self.batch_start,
                    batch_start: minus_or_zero(self.batch_start, self.max_batch_size),
                    transitioned: true,
                    ..self
                };
                (q, RetreatOutcome::PreviousBatch(q.current_batch()))
            }
        }
    }

    /// The state after the shuffle mode is turned off: the original order,
    /// at the first occurrence of the current track (or the start), which
    /// alone makes up the current batch.
    pub open spec fn unshuffled(self) -> QueueView {
        let current = self.order[self.position];
        let p = first_index_or_zero(self.original, current);
        QueueView {
            order: self.original,
            position: p,
            batch_start: p,
            batch_end: p + 1,
            shuffle: ShuffleModeView::Off,
            ..self
        }
    }

    /// `order` puts the current track first and then a permutation of the
    /// other original tracks.
    pub open spec fn is_shuffled_order(self, order: Seq<u64>) -> bool {
        let current = self.order[self.position];
        &&& order.len() > 0
        &&& order[0] == current
        &&& order.drop_first().to_multiset() == others(self.original, current).to_multiset()
    }
}

/// Calls `rand::seq::SliceRandom::shuffle` on `tracks` with the generator of
/// `rand::rng()`. The crate shuffles in place by swapping elements, so the
/// result is a permutation of the input; which one depends on chance and is
/// not stated.
#[verifier::external_body]
fn shuffle_tracks(tracks: &mut Vec<u64>)
    ensures
        final(tracks)@.len() == old(tracks)@.len(),
        final(tracks)@.to_multiset() == old(tracks)@.to_multiset(),
{
    let mut rng = rand::rng();
    tracks.shuffle(&mut rng);
}

impl View for CustomQueue {
    type V = QueueView;

    closed spec fn view(&self) -> QueueView {
        QueueView {
            original: self.original_tracks@,
            order: self.play_order@,
            position: self.position as int,
            batch_start: self.batch_start as int,
            batch_end: self.batch_end as int,
            max_batch_size: self.max_batch_size as int,
            source_context: match self.source_context {
                Some(c) => Some(c@),
                None => None,
            },
            repeat: self.repeat,
            shuffle: self.shuffle_mode@,
            autoplay: self.autoplay,
            transitioned: self.last_batch_transition is Some,
        }
    }
}

impl CustomQueue {
    /// A queue over `tracks`, playing from `start_position`, sending at most
    /// `max_batch_size` tracks per batch.
    pub fn new(
        tracks: Vec<u64>,
        start_position: usize,
        max_batch_size: usize,
        source_context: Option<ContextId>,
        autoplay: bool,
    ) -> (r: Self)
        requires
            start_position + max_batch_size <= usize::MAX,
        ensures
            r@ == (QueueView {
                original: tracks@,
                order: tracks@,
                position: start_position as int,
                batch_start: start_position as int,
                batch_end: min_int(start_position + max_batch_size, tracks@.len() as int),
                max_batch_size: max_batch_size as int,
                source_context: match source_context {
                    Some(c) => Some(c@),
                    None => None,
                },
                repeat: RepeatState::Off,
                shuffle: ShuffleModeView::Off,
                autoplay,
                transitioned: false,
            }),
    {
        let play_order = tracks.clone();
        let batch_start = start_position;
        let sum = batch_start + max_batch_size;
        let batch_end = if sum <= play_order.len() {
            sum
        } else {
            play_order.len()
        };
        CustomQueue {
            original_tracks: tracks,
            play_order,
            position: start_position,
            batch_start,
            batch_end,
            max_batch_size,
            source_context,
            repeat: RepeatState::Off,
            shuffle_mode: ShuffleMode::Off,
            autoplay,
            last_batch_transition: None,
        }
    }

    /// The tracks of the current batch.
    pub fn current_batch(&self) -> (r: &[u64])
        requires
            0 <= self@.batch_start <= self@.batch_end <= self@.order.len(),
        ensures
            r@ == self@.current_batch(),
    {
        &self.play_order.as_slice()[self.batch_start..self.batch_end]
    }

    /// The track playing now.
    pub fn current_track(&self) -> (r: &u64)
        requires
            self@.position < self@.order.len(),
        ensures
            *r == self@.order[self@.position],
    {
        &self.play_order[self.position]
    }

    /// The tracks after the current one.
    pub fn remaining_tracks(&self) -> (r: &[u64])
        requires
            self@.position < usize::MAX,
        ensures
            r@ == if self@.position + 1 >= self@.order.len() {
                Seq::<u64>::empty()
            } else {
                self@.order.subrange(self@.position + 1, self@.order.len() as int)
            },
    {
        let n = self.play_order.len();
        if self.position + 1 >= n {
            &self.play_order.as_slice()[n..n]
        } else {
            &self.play_order.as_slice()[self.position + 1..n]
        }
    }

    /// The context this queue was built from.
    pub fn source_context(&self) -> (r: Option<&ContextId>)
        ensures
            match r {
                Some(c) => self@.source_context == Some(c@),
                None => self@.source_context is None,
            },
    {
        match &self.source_context {
            Some(c) => Some(c),
            None => None,
        }
    }

    /// The shuffle mode.
    pub fn shuffle_mode(&self) -> (r: &ShuffleMode)
        ensures
            r@ == self@.shuffle,
    {
        &self.shuffle_mode
    }

    /// The repeat setting.
    pub fn repeat(&self) -> (r: RepeatState)
        ensures
            r == self@.repeat,
    {
        self.repeat
    }

    /// The position in the play order.
    pub fn position(&self) -> (r: usize)
        ensures
            r == self@.position,
    {
        self.position
    }

    /// Where the current batch starts.
    pub fn batch_start(&self) -> (r: usize)
        ensures
            r == self@.batch_start,
    {
        self.batch_start
    }

    /// Where the current batch ends (exclusive).
    pub fn batch_end(&self) -> (r: usize)
        ensures
            r == self@.batch_end,
    {
        self.batch_end
    }

    /// The whole play order.
    pub fn play_order(&self) -> (r: &[u64])
        ensures
            r@ == self@.order,
    {
        self.play_order.as_slice()
    }

    /// The number of tracks in the play order.
    pub fn len(&self) -> (r: usize)
        ensures
            r == self@.order.len(),
    {
        self.play_order.len()
    }

    /// Whether the play order is empty.
    pub fn is_empty(&self) -> (r: bool)
        ensures
            r == (self@.order.len() == 0),
    {
        self.play_order.len() == 0
    }

    /// When the last batch transition happened, if any.
    pub fn last_batch_transition(&self) -> (r: Option<std::time::Instant>)
        ensures
            r is Some == self@.transitioned,
    {
        self.last_batch_transition
    }

    /// Whether a batch transition happened less than
    /// [`BATCH_COOLDOWN_NANOS`] ago: never without one, else as
    /// `cooldown_running` decides on the time elapsed since, which the clock
    /// gives.
    pub fn in_batch_cooldown(&self) -> (r: bool)
        ensures
            r ==> self@.transitioned,
    {
        match &self.last_batch_transition {
            Some(t) => cooldown_running(clock::elapsed_nanos(t)),
            None => false,
        }
    }

    /// The track after the current one, if it is in the current batch.
    pub fn expected_next_track(&self) -> (r: Option<&u64>)
        requires
            self@.position < usize::MAX,
            self@.position + 1 < self@.batch_end ==> self@.position + 1 < self@.order.len(),
        ensures
            match r {
                Some(t) => self@.position + 1 < self@.batch_end && *t == self@.order[self@.position
                    + 1],
                None => self@.position + 1 >= self@.batch_end,
            },
    {
        let next = self.position + 1;
        if next < self.batch_end {
            Some(&self.play_order[next])
        } else {
            None
        }
    }

    /// Whether the current track is the last of its batch.
    pub fn is_at_batch_end(&self) -> (r: bool)
        requires
            self@.position < usize::MAX,
        ensures
            r == (self@.position + 1 >= self@.batch_end),
    {
        self.position + 1 >= self.batch_end
    }

    /// Whether the current track is the first of its batch.
    pub fn is_at_batch_start(&self) -> (r: bool)
        ensures
            r == (self@.position == self@.batch_start),
    {
        self.position == self.batch_start
    }

    /// The tracks of the current batch, copied.
    fn current_batch_vec(&self) -> (r: Vec<u64>)
        requires
            0 <= self@.batch_start <= self@.batch_end <= self@.order.len(),
        ensures
            r@ == self@.current_batch(),
    {
        let mut out: Vec<u64> = Vec::new();
        let mut i = self.batch_start;
        while i < self.batch_end
            invariant
                self.batch_start <= i <= self.batch_end <= self.play_order@.len(),
                out@ == self.play_order@.subrange(self.batch_start as int, i as int),
            decreases self.batch_end - i,
        {
            out.push(self.play_order[i]);
            i = i + 1;
            assert(out@ =~= self.play_order@.subrange(self.batch_start as int, i as int));
        }
        out
    }

    /// Moves to the batch starting at `start`.
    fn load_batch_at(&mut self, start: usize)
        requires
            start <= old(self)@.order.len(),
            start + old(self)@.max_batch_size <= usize::MAX,
        ensures
            final(self)@ == old(self)@.batch_at(start as int),
    {
        self.position = start;
        self.batch_start = start;
        let sum = start + self.max_batch_size;
        self.batch_end = if sum <= self.play_order.len() {
            sum
        } else {
            self.play_order.len()
        };
        self.mark_batch_transition();
    }

    /// Advances to the next track; the result says what the caller must do.
    pub fn advance(&mut self) -> (r: AdvanceResult)
        requires
            old(self)@.can_advance(),
        ensures
            (final(self)@, r@) == old(self)@.advanced(),
    {
        let next = self.position + 1;
        if self.repeat == RepeatState::Track {
            return AdvanceResult::SameBatch;
        }
        if next < self.batch_end {
            self.position = next;
            AdvanceResult::SameBatch
        } else if next < self.play_order.len() {
            self.load_batch_at(next);
            AdvanceResult::NewBatch(self.current_batch_vec())
        } else if self.repeat == RepeatState::Context {
            self.load_batch_at(0);
            AdvanceResult::NewBatch(self.current_batch_vec())
        } else if self.autoplay {
            AdvanceResult::NeedsRadioTracks
        } else {
            AdvanceResult::EndOfQueue
        }
    }

    /// Goes back to the previous track; the result says what the caller must
    /// do.
    pub fn retreat(&mut self) -> (r: RetreatResult)
        requires
            old(self)@.can_retreat(),
        ensures
            (final(self)@, r@) == old(self)@.retreated(),
    {
        if self.position == 0 {
            if self.repeat == RepeatState::Context {
                let len = self.play_order.len();
                self.position = len.saturating_sub(1);
                self.batch_end = len;
                self.batch_start = self.batch_end.saturating_sub(self.max_batch_size);
                self.mark_batch_transition();
                RetreatResult::PreviousBatch(self.current_batch_vec())
            } else {
                RetreatResult::BeginningOfQueue
            }
        } else {
            let prev = self.position - 1;
            if prev >= self.batch_start {
                self.position = prev;
                RetreatResult::SameBatch
            } else {
                self.position = prev;
                self.batch_end = self.batch_start;
                self.batch_start = self.batch_end.saturating_sub(self.max_batch_size);
                self.mark_batch_transition();
                RetreatResult::PreviousBatch(self.current_batch_vec())
            }
        }
    }

    /// Ends the current batch at the current track, so that the next track
    /// starts a new batch without interrupting the one playing.
    pub fn truncate_batch_to_current(&mut self)
        requires
            old(self)@.position < usize::MAX,
        ensures
            final(self)@ == (QueueView { batch_end: old(self)@.position + 1, ..old(self)@ }),
    {
        self.batch_end = self.position + 1;
    }

    /// Sets the repeat setting.
    pub fn set_repeat(&mut self, repeat: RepeatState)
        ensures
            final(self)@ == (QueueView { repeat, ..old(self)@ }),
    {
        self.repeat = repeat;
    }

    /// The original tracks other than `current`, in order.
    fn original_without(&self, current: u64) -> (r: Vec<u64>)
        ensures
            r@ == others(self@.original, current),
    {
        let mut out: Vec<u64> = Vec::new();
        let n = self.original_tracks.len();
        let mut i: usize = 0;
        while i < n
            invariant
                n == self.original_tracks@.len(),
                i <= n,
                out@ == others(self.original_tracks@.take(i as int), current),
            decreases n - i,
        {
            let t = self.original_tracks[i];
            proof {
                let s = self.original_tracks@.take(i + 1);
                assert(s.drop_last() =~= self.original_tracks@.take(i as int));
                assert(s.last() == t);
                reveal_with_fuel(Seq::filter, 1);
            }
            if t != current {
                out.push(t);
            }
            i = i + 1;
        }
        assert(self.original_tracks@.take(n as int) =~= self.original_tracks@);
        out
    }

    /// The current track first, then the other original tracks in random
    /// order.
    fn shuffled_front(&self, current: u64) -> (r: Vec<u64>)
        requires
            self@.position < self@.order.len(),
            current == self@.order[self@.position],
        ensures
            self@.is_shuffled_order(r@),
            r@.len() == others(self@.original, current).len() + 1,
    {
        let mut order = self.original_without(current);
        let ghost rest = order@;
        shuffle_tracks(&mut order);
        let ghost shuffled = order@;
        order.insert(0, current);
        assert(order@.drop_first() =~= shuffled);
        order
    }

    /// The first index of `current` in the original tracks, or 0.
    fn original_position(&self, current: u64) -> (r: usize)
        ensures
            r == first_index_or_zero(self@.original, current),
            r == 0 || r < self@.original.len(),
    {
        let n = self.original_tracks.len();
        let mut i: usize = 0;
        while i < n
            invariant
                n == self.original_tracks@.len(),
                i <= n,
                forall|j: int| 0 <= j < i ==> self.original_tracks@[j] != current,
            decreases n - i,
        {
            if self.original_tracks[i] == current {
                proof {
                    let s = self.original_tracks@;
                    assert(s.contains(current));
                    let c = choose|k: int|
                        0 <= k < s.len() && s[k] == current && forall|j: int|
                            0 <= j < k ==> s[j] != current;
                    assert(0 <= c < s.len() && s[c] == current && forall|j: int|
                        0 <= j < c ==> s[j] != current);
                    if c < i {
                    } else if c > i {
                        assert(s[i as int] == current);
                    }
                }
                return i;
            }
            i = i + 1;
        }
        0
    }

    /// `order` with a radio track after every fourth track, then the rest of
    /// the radio tracks.
    fn interleave(order: Vec<u64>, radio: &Vec<u64>) -> (r: Vec<u64>)
        requires
            order@.len() + radio@.len() <= usize::MAX,
        ensures
            r@ == interleave_from(order@, radio@, 0),
    {
        let mut out: Vec<u64> = Vec::with_capacity(order.len() + radio.len());
        let n = order.len();
        let m = radio.len();
        let mut r: usize = 0;
        let mut i: usize = 0;
        assert(order@.skip(0) =~= order@);
        assert(radio@.skip(0) =~= radio@);
        while i < n
            invariant
                n == order@.len(),
                m == radio@.len(),
                i <= n,
                r <= m,
                out@ + interleave_from(order@.skip(i as int), radio@.skip(r as int), i as int)
                    == interleave_from(order@, radio@, 0),
            decreases n - i,
        {
            let ghost rest = order@.skip(i as int);
            let ghost rest_radio = radio@.skip(r as int);
            assert(rest[0] == order@[i as int]);
            assert(rest.drop_first() =~= order@.skip(i + 1));
            out.push(order[i]);
            if i > 0 && i % 4 == 0 && r < m {
                assert(rest_radio[0] == radio@[r as int]);
                assert(rest_radio.drop_first() =~= radio@.skip(r + 1));
                out.push(radio[r]);
                r = r + 1;
            }
            i = i + 1;
        }
        assert(order@.skip(n as int) =~= Seq::<u64>::empty());
        while r < m
            invariant
                m == radio@.len(),
                r <= m,
                out@ + radio@.skip(r as int) == interleave_from(order@, radio@, 0),
            decreases m - r,
        {
            assert(radio@.skip(r as int) =~= seq![radio@[r as int]] + radio@.skip(r + 1));
            out.push(radio[r]);
            r = r + 1;
        }
        assert(radio@.skip(m as int) =~= Seq::<u64>::empty());
        assert(out@ =~= out@ + radio@.skip(m as int));
        out
    }

    /// Changes the shuffle mode. `Off` restores the original order at the
    /// current track; `Shuffle` plays the current track first and the other
    /// original tracks in random order; `SmartShuffle` does the same and then
    /// interleaves its radio tracks. The current track then makes up the
    /// current batch on its own (it is the batch's last entry), so the change
    /// takes effect from the next track on.
    pub fn set_shuffle_mode(&mut self, mode: ShuffleMode)
        requires
            old(self)@.position < old(self)@.order.len(),
            match mode {
                ShuffleMode::SmartShuffle(radio) => others(
                    old(self)@.original,
                    old(self)@.order[old(self)@.position],
                ).len() + 1 + radio@.len() <= usize::MAX,
                _ => true,
            },
        ensures
            final(self)@.batch_end == final(self)@.position + 1,
            final(self)@.batch_start == final(self)@.position,
            final(self)@.batch_start <= final(self)@.position < final(self)@.batch_end,
            final(self)@.shuffle == mode@,
            final(self)@.original == old(self)@.original,
            final(self)@.max_batch_size == old(self)@.max_batch_size,
            final(self)@.source_context == old(self)@.source_context,
            final(self)@.repeat == old(self)@.repeat,
            final(self)@.autoplay == old(self)@.autoplay,
            final(self)@.transitioned == old(self)@.transitioned,
            match mode@ {
                ShuffleModeView::Off => final(self)@ == old(self)@.unshuffled(),
                ShuffleModeView::Shuffle => final(self)@.position == 0 && old(
                    self,
                )@.is_shuffled_order(final(self)@.order),
                ShuffleModeView::SmartShuffle(radio) => final(self)@.position == 0 && exists|
                    front: Seq<u64>,
                |
                    old(self)@.is_shuffled_order(front) && final(self)@.order == interleave_from(
                        front,
                        radio,
                        0,
                    ),
            },
    {
        let current = self.play_order[self.position];
        let ghost mut witness: Seq<u64> = Seq::empty();
        match &mode {
            ShuffleMode::Off => {
                self.play_order = self.original_tracks.clone();
                self.position = self.original_position(current);
            },
            ShuffleMode::Shuffle => {
                let order = self.shuffled_front(current);
                self.play_order = order;
                self.position = 0;
            },
            ShuffleMode::SmartShuffle(radio_tracks) => {
                let order = self.shuffled_front(current);
                let ghost front = order@;
                proof {
                    witness = front;
                }
                if radio_tracks.len() == 0 {
                    proof {
                        lemma_interleave_no_radio(front, 0);
                        assert(radio_tracks@ =~= Seq::<u64>::empty());
                    }
                    self.play_order = order;
                } else {
                    self.play_order = Self::interleave(order, radio_tracks);
                }
                assert(self.play_order@ == interleave_from(front, radio_tracks@, 0));
                self.position = 0;
            },
        }
        self.shuffle_mode = mode;
        self.truncate_batch_to_current();
        self.batch_start = self.position;
        proof {
            match mode@ {
                ShuffleModeView::Off => {
                    assert(self@.order == old(self)@.unshuffled().order);
                    assert(self@.position == old(self)@.unshuffled().position);
                    assert(self@ == old(self)@.unshuffled());
                },
                ShuffleModeView::Shuffle => {
                    assert(old(self)@.is_shuffled_order(self@.order));
                },
                ShuffleModeView::SmartShuffle(radio) => {
                    assert(old(self)@.is_shuffled_order(witness) && self@.order == interleave_from(
                        witness,
                        radio,
                        0,
                    ));
                },
            }
        }
    }

    /// Appends radio recommendations for autoplay.
    pub fn append_radio_tracks(&mut self, tracks: Vec<u64>)
        ensures
            final(self)@ == (QueueView { order: old(self)@.order + tracks@, ..old(self)@ }),
    {
        let mut tracks = tracks;
        self.play_order.append(&mut tracks);
    }

    /// Loads the batch after the current one, if the play order goes on.
    pub fn next_batch(&mut self) -> (r: Option<Vec<u64>>)
        requires
            old(self)@.batch_end < old(self)@.order.len() ==> old(self)@.batch_end
                + old(self)@.max_batch_size <= usize::MAX,
        ensures
            old(self)@.batch_end >= old(self)@.order.len() ==> r is None && final(self)@ == old(
                self,
            )@,
            old(self)@.batch_end < old(self)@.order.len() ==> {
                let q = old(self)@.batch_at(old(self)@.batch_end);
                &&& final(self)@ == QueueView { position: old(self)@.position, ..q }
                &&& r matches Some(b) && b@ == q.current_batch()
            },
    {
        if self.batch_end >= self.play_order.len() {
            return None;
        }
        let start = self.batch_end;
        let position = self.position;
        self.load_batch_at(start);
        self.position = position;
        Some(self.current_batch_vec())
    }

    /// Records that a batch transition happened now.
    pub fn mark_batch_transition(&mut self)
        ensures
            final(self)@ == (QueueView { transitioned: true, ..old(self)@ }),
    {
        self.last_batch_transition = Some(clock::now());
    }
}

/// Without radio tracks, interleaving changes nothing.
proof fn lemma_interleave_no_radio(order: Seq<u64>, i: int)
    ensures
        interleave_from(order, Seq::<u64>::empty(), i) == order,
    decreases order.len(),
{
    if order.len() > 0 {
        lemma_interleave_no_radio(order.drop_first(), i + 1);
        assert(order =~= seq![order[0]] + order.drop_first());
    }
}


/// The current track is inside the current batch, which lies within the
/// play order, and batches hold at least one track.
pub open spec fn playing_within_batch(q: QueueView) -> bool {
    &&& q.max_batch_size >= 1
    &&& 0 <= q.batch_start <= q.position < q.batch_end <= q.order.len()
}

/// Advancing and going back keep the current track inside the current
/// batch, and advancing then going back returns to the same track.
pub proof fn law_batch_tracks_position(q: QueueView)
    requires
        playing_within_batch(q),
    ensures
        playing_within_batch(q.retreated().0),
        q.can_retreat(),
        q.repeat != RepeatState::Track && q.position + 1 < q.order.len() ==> q.advanced().0.position
            == q.position + 1 && q.advanced().0.retreated().0.position == q.position,
        q.order.len() > 0 ==> playing_within_batch(q.advanced().0),
        playing_within_batch(q.advanced().0) ==> q.advanced().0.can_retreat(),
{
}

/// With track repeat on, advancing changes nothing.
pub proof fn law_repeat_track_stays(q: QueueView)
    requires
        q.repeat == RepeatState::Track,
    ensures
        q.advanced().0 == q,
        q.advanced().1 == AdvanceOutcome::SameBatch,
{
}

/// A batch handed out when advancing holds at most the maximum number of
/// tracks, is the current batch, and starts with the new current track.
pub proof fn law_new_batches_are_bounded(q: QueueView)
    requires
        0 <= q.position,
        q.max_batch_size >= 1,
        q.order.len() > 0,
    ensures
        q.advanced().1 matches AdvanceOutcome::NewBatch(b) ==> {
            &&& b.len() <= q.max_batch_size
            &&& b == q.advanced().0.current_batch()
            &&& b.len() > 0 && b[0] == q.advanced().0.order[q.advanced().0.position]
        },
{
}

/// At the end of the play order, advancing wraps to the start with context
/// repeat on, asks for radio tracks with autoplay on, and ends otherwise.
pub proof fn law_end_of_queue(q: QueueView)
    requires
        q.repeat != RepeatState::Track,
        q.position + 1 >= q.batch_end,
        q.position + 1 >= q.order.len(),
    ensures
        q.repeat == RepeatState::Context ==> q.advanced().0.position == 0,
        q.repeat == RepeatState::Off && q.autoplay ==> q.advanced()
            == (q, AdvanceOutcome::NeedsRadioTracks),
        q.repeat == RepeatState::Off && !q.autoplay ==> q.advanced() == (q, AdvanceOutcome::EndOfQueue),
{
}

proof fn lemma_earliest_occurrence(s: Seq<u64>, t: u64, i: int)
    requires
        0 <= i < s.len(),
        s[i] == t,
    ensures
        exists|k: int| 0 <= k < s.len() && s[k] == t && forall|j: int| 0 <= j < k ==> s[j] != t,
    decreases i,
{
    if exists|j: int| 0 <= j < i && s[j] == t {
        let j = choose|j: int| 0 <= j < i && s[j] == t;
        lemma_earliest_occurrence(s, t, j);
    } else {
        assert(0 <= i < s.len() && s[i] == t && forall|j: int| 0 <= j < i ==> s[j] != t);
    }
}

proof fn lemma_first_index(s: Seq<u64>, t: u64)
    requires
        s.contains(t),
    ensures
        0 <= first_index_or_zero(s, t) < s.len(),
        s[first_index_or_zero(s, t)] == t,
        forall|j: int| 0 <= j < first_index_or_zero(s, t) ==> s[j] != t,
{
    let i = choose|i: int| 0 <= i < s.len() && s[i] == t;
    lemma_earliest_occurrence(s, t, i);
}

/// Turning shuffle off restores the original order; when the track playing
/// is one of the original tracks, it stays the current track.
pub proof fn law_shuffle_off_restores_order(q: QueueView)
    requires
        0 <= q.position < q.order.len(),
    ensures
        q.unshuffled().order == q.original,
        q.original.contains(q.order[q.position]) ==> q.unshuffled().order[q.unshuffled().position]
            == q.order[q.position],
        q.unshuffled().shuffle == ShuffleModeView::Off,
        q.unshuffled().batch_start == q.unshuffled().position,
        q.unshuffled().batch_end == q.unshuffled().position + 1,
{
    if q.original.contains(q.order[q.position]) {
        lemma_first_index(q.original, q.order[q.position]);
    }
}

proof fn lemma_others_counts(s: Seq<u64>, t: u64, x: u64)
    ensures
        others(s, t).to_multiset().count(x) == if x == t {
            0
        } else {
            s.to_multiset().count(x)
        },
    decreases s.len(),
{
    broadcast use vstd::seq_lib::group_to_multiset_ensures;

    reveal_with_fuel(Seq::filter, 1);
    if s.len() == 0 {
    } else {
        let init = s.drop_last();
        lemma_others_counts(init, t, x);
        assert(s =~= init.push(s.last()));
        if s.last() != t {
            assert(others(s, t) == others(init, t).push(s.last()));
        } else {
            assert(others(s, t) == others(init, t));
        }
    }
}

/// Shuffling keeps every track: when the track playing occurs once in the
/// original tracks, a shuffled order holds exactly the original tracks.
pub proof fn law_shuffle_keeps_tracks(q: QueueView, order: Seq<u64>)
    requires
        0 <= q.position < q.order.len(),
        q.original.to_multiset().count(q.order[q.position]) == 1,
        q.is_shuffled_order(order),
    ensures
        order.to_multiset() == q.original.to_multiset(),
        order.len() == q.original.len(),
{
    broadcast use vstd::seq_lib::group_to_multiset_ensures;

    let c = q.order[q.position];
    assert(order =~= seq![c] + order.drop_first());
    assert forall|x: u64| #[trigger] order.to_multiset().count(x) == q.original.to_multiset().count(
        x,
    ) by {
        lemma_others_counts(q.original, c, x);
        assert(order.drop_first().to_multiset().count(x) == others(q.original, c).to_multiset().count(
            x,
        ));
        assert(order =~= Seq::<u64>::empty().push(c) + order.drop_first());
        vstd::seq_lib::lemma_multiset_commutative(Seq::<u64>::empty().push(c), order.drop_first());
        assert(Seq::<u64>::empty().push(c).to_multiset() =~= Multiset::<u64>::empty().insert(c));
    }
    assert(order.to_multiset() =~= q.original.to_multiset());
    assert(order.to_multiset().len() == q.original.to_multiset().len());
}

/// Appending radio tracks keeps the track playing and the current batch.
pub proof fn law_append_keeps_current(q: QueueView, tracks: Seq<u64>)
    requires
        0 <= q.position < q.order.len(),
        0 <= q.batch_start <= q.batch_end <= q.order.len(),
    ensures
        ({
            let r = QueueView { order: q.order + tracks, ..q };
            &&& r.order[r.position] == q.order[q.position]
            &&& r.current_batch() == q.current_batch()
        }),
{
    let r = QueueView { order: q.order + tracks, ..q };
    assert(r.current_batch() =~= q.current_batch());
}

} // verus!
