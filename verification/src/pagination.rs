//! Backward pagination of a container's log. The time span of the loaded
//! lines estimates how far back the next batch reaches; where too few lines
//! come back, the window doubles until the batch is full or the container's
//! creation is reached. A window that reaches back to the Unix epoch without
//! filling the batch ends the search too, so that every search ends.

use crate::time::Timestamp;
use crate::types::{ContainerKey, LogEntry};
use vstd::arithmetic::power2::{lemma2_to64, lemma2_to64_rest, lemma_pow2_pos, lemma_pow2_unfold, pow2};
use vstd::prelude::*;

verus! {

/// Seconds in the first look-back window when the loaded lines span no
/// time: five minutes.
pub const FALLBACK_WINDOW_SECS: i64 = 300;

/// A request for the batch of lines before the loaded ones.
#[derive(Debug)]
pub struct OlderLogsRequest {
    /// The container whose log is paged.
    pub key: ContainerKey,
    /// Time of the oldest loaded line: the batch ends before it.
    pub before: Timestamp,
    /// Time of the newest loaded line.
    pub newest: Timestamp,
    /// When the container was created, if known: nothing is older.
    pub container_created: Option<Timestamp>,
    /// Lines wanted.
    pub batch_size: usize,
}

/// One fetch from the daemon: the lines written from `since` up to and
/// including `until`, both in seconds since the Unix epoch.
#[derive(Clone, Copy, Debug, PartialEq, Eq, Structural)]
pub struct FetchPlan {
    pub since: i64,
    pub until: i64,
    /// Whether the window starts at the container's creation, so that
    /// nothing older exists.
    pub is_final: bool,
}

/// What follows a fetch.
#[derive(Debug)]
pub enum PageOutcome {
    /// Hand these lines to the state machine.
    Deliver { entries: Vec<LogEntry>, has_more_history: bool },
    /// Too few lines: fetch again with this window, in seconds.
    Widen { window: i64 },
}

/// An integer held within the range of `i64`.
pub open spec fn clamped(x: int) -> i64 {
    if x > i64::MAX {
        i64::MAX
    } else if x < i64::MIN {
        i64::MIN
    } else {
        x as i64
    }
}

/// The first look-back window in seconds: the whole seconds that the
/// loaded lines span and a fifth more, rounded down; five minutes where
/// they span less than a second or stand in the wrong order.
pub open spec fn spec_initial_window(oldest: Timestamp, newest: Timestamp) -> i64 {
    let span = oldest.whole_seconds_until(newest);
    if span > 0 {
        clamped(span * 6 / 5)
    } else {
        FALLBACK_WINDOW_SECS
    }
}

/// The window after one that found too few lines: twice as long.
pub open spec fn spec_widened(window: i64) -> i64 {
    clamped(window * 2)
}

/// The fetch for a window of `window` seconds before `before`. Where the
/// window would start before the container's creation it starts there
/// instead, and the fetch is final. The fetch ends one second before
/// `before`, to leave out the loaded lines.
pub open spec fn spec_plan_fetch(
    before: Timestamp,
    created: Option<Timestamp>,
    window: i64,
) -> FetchPlan {
    let start = Timestamp { secs: clamped(before.secs - window), nanos: before.nanos };
    let until = clamped(before.secs - 1);
    if created is Some && start.earlier_than(created->0) {
        FetchPlan { since: created->0.secs, until, is_final: true }
    } else {
        FetchPlan { since: start.secs, until, is_final: false }
    }
}

/// Holds a wide integer within the range of `i64`.
fn clamp(x: i128) -> (r: i64)
    ensures
        r == clamped(x as int),
{
    if x > i64::MAX as i128 {
        i64::MAX
    } else if x < i64::MIN as i128 {
        i64::MIN
    } else {
        x as i64
    }
}

/// Estimates the first look-back window from the times of the oldest and
/// the newest loaded line.
pub fn initial_window(oldest: &Timestamp, newest: &Timestamp) -> (window: i64)
    ensures
        window == spec_initial_window(*oldest, *newest),
        window > 0,
{
    let borrow: i128 = if newest.nanos < oldest.nanos {
        1
    } else {
        0
    };
    let span: i128 = newest.secs as i128 - oldest.secs as i128 - borrow;
    if span > 0 {
        clamp(span * 6 / 5)
    } else {
        FALLBACK_WINDOW_SECS
    }
}

/// Doubles a window that found too few lines.
pub fn widened(window: i64) -> (r: i64)
    ensures
        r == spec_widened(window),
{
    clamp(window as i128 * 2)
}

/// Plans the fetch for one window.
pub fn plan_fetch(before: &Timestamp, created: &Option<Timestamp>, window: i64) -> (plan:
    FetchPlan)
    ensures
        plan == spec_plan_fetch(*before, *created, window),
{
    let start = Timestamp { secs: clamp(before.secs as i128 - window as i128), nanos: before.nanos };
    let until: i64 = clamp(before.secs as i128 - 1);
    match created {
        Some(c) => {
            if start.is_before(c) {
                FetchPlan { since: c.secs, until, is_final: true }
            } else {
                FetchPlan { since: start.secs, until, is_final: false }
            }
        },
        None => FetchPlan { since: start.secs, until, is_final: false },
    }
}

/// Decides what follows a fetch that brought `fetched`, oldest first. A
/// final fetch delivers all it found, however few, and ends the history. A
/// fetch that filled the batch delivers the newest `batch_size` lines and
/// leaves the older surplus to the next page. Any other fetch is repeated
/// with the window doubled.
pub fn conclude_fetch(plan: &FetchPlan, window: i64, fetched: Vec<LogEntry>, batch_size: usize) -> (r:
    PageOutcome)
    ensures
        match r {
            PageOutcome::Deliver { entries, has_more_history } => if plan.is_final {
                entries@ == fetched@ && !has_more_history
            } else {
                fetched@.len() >= batch_size && entries@ == fetched@.skip(
                    fetched@.len() - batch_size,
                ) && has_more_history
            },
            PageOutcome::Widen { window: w } => !plan.is_final && fetched@.len() < batch_size && w
                == spec_widened(window),
        },
{
    if plan.is_final {
        return PageOutcome::Deliver { entries: fetched, has_more_history: false };
    }
    let found: usize = fetched.len();
    if found >= batch_size {
        let mut older = fetched;
        let entries = older.split_off(found - batch_size);
        PageOutcome::Deliver { entries, has_more_history: true }
    } else {
        PageOutcome::Widen { window: widened(window) }
    }
}

/// The search for one page of history: it plans a fetch, looks at what the
/// fetch brought, and either delivers a page or plans a wider fetch.
#[derive(Debug)]
pub struct Paginator {
    /// Time of the oldest loaded line.
    pub before: Timestamp,
    /// When the container was created, if known.
    pub created: Option<Timestamp>,
    /// Lines wanted.
    pub batch_size: usize,
    /// Seconds that the next fetch looks back.
    pub window: i64,
}

/// Whether a window before `before` reaches back to the Unix epoch, before
/// which no container has written anything.
pub open spec fn reaches_epoch(before: Timestamp, window: i64) -> bool {
    before.secs - window <= 0
}

impl Paginator {
    /// The fetch that the search makes next: the fetch for its window.
    pub open spec fn plan(self) -> FetchPlan {
        spec_plan_fetch(self.before, self.created, self.window)
    }

    /// Whether a fetch that found `found` lines ends the history: a final
    /// fetch does, whatever it found; and so does one that found too few
    /// lines though its window reaches back to the Unix epoch, since no
    /// wider window could find more. The second keeps a search for a
    /// container whose creation is not known from widening for ever.
    pub open spec fn ends_history(self, found: nat) -> bool {
        self.plan().is_final || (found < self.batch_size && reaches_epoch(
            self.before,
            self.window,
        ))
    }

    /// The search that answers a request, with the first window estimated
    /// from the time that the loaded lines span.
    pub fn start(request: &OlderLogsRequest) -> (p: Paginator)
        ensures
            p == (Paginator {
                before: request.before,
                created: request.container_created,
                batch_size: request.batch_size,
                window: spec_initial_window(request.before, request.newest),
            }),
            p.window > 0,
    {
        Paginator {
            before: request.before,
            created: request.container_created,
            batch_size: request.batch_size,
            window: initial_window(&request.before, &request.newest),
        }
    }

    /// The fetch to make next.
    pub fn next_fetch(&self) -> (plan: FetchPlan)
        ensures
            plan == self.plan(),
    {
        plan_fetch(&self.before, &self.created, self.window)
    }

    /// Looks at what the next fetch brought, oldest first. Where the fetch
    /// ends the history, the page is all that it found, and no more
    /// history exists. Where it filled the batch, the page is the newest
    /// `batch_size` lines, and more history may exist. Else there is no
    /// page yet (`None`): the fetch has to be made again with the window
    /// doubled.
    pub fn conclude(&mut self, fetched: Vec<LogEntry>) -> (page: Option<(Vec<LogEntry>, bool)>)
        ensures
            match page {
                Some((entries, has_more_history)) => {
                    &&& *final(self) == *old(self)
                    &&& if old(self).ends_history(fetched@.len()) {
                        entries@ == fetched@ && !has_more_history
                    } else {
                        &&& fetched@.len() >= old(self).batch_size
                        &&& entries@ == fetched@.skip(fetched@.len() - old(self).batch_size)
                        &&& has_more_history
                    }
                },
                None => {
                    &&& !old(self).ends_history(fetched@.len())
                    &&& fetched@.len() < old(self).batch_size
                    &&& *final(self) == (Paginator {
                        window: spec_widened(old(self).window),
                        ..*old(self)
                    })
                },
            },
    {
        let plan = self.next_fetch();
        let at_epoch = self.before.secs as i128 - self.window as i128 <= 0;
        if !plan.is_final && fetched.len() < self.batch_size && at_epoch {
            return Some((fetched, false));
        }
        match conclude_fetch(&plan, self.window, fetched, self.batch_size) {
            PageOutcome::Deliver { entries, has_more_history } => Some((entries, has_more_history)),
            PageOutcome::Widen { window } => {
                self.window = window;
                None
            },
        }
    }
}

/// A window that found too few lines grows when it is doubled, as long as
/// it can grow.
pub proof fn lemma_widening_grows(window: i64)
    requires
        0 < window < i64::MAX,
    ensures
        spec_widened(window) > window,
{
}

/// The window of a search after `n` fetches that found too few lines.
pub open spec fn widened_times(window: i64, n: nat) -> i64
    decreases n,
{
    if n == 0 {
        window
    } else {
        spec_widened(widened_times(window, (n - 1) as nat))
    }
}

/// Doubling a positive window `n` times multiplies it by the `n`th power of
/// two, up to the longest window.
proof fn lemma_widened_times(window: i64, n: nat)
    requires
        window > 0,
    ensures
        widened_times(window, n) == clamped(window * pow2(n)),
    decreases n,
{
    lemma2_to64();
    if n == 0 {
        assert(window * pow2(0) == window) by (nonlinear_arith)
            requires
                pow2(0) == 1,
        ;
    } else {
        let half = window * pow2((n - 1) as nat);
        lemma_pow2_unfold(n);
        lemma_widened_times(window, (n - 1) as nat);
        lemma_pow2_pos((n - 1) as nat);
        assert(window * pow2(n) == 2 * half) by (nonlinear_arith)
            requires
                pow2(n) == 2 * pow2((n - 1) as nat),
                half == window * pow2((n - 1) as nat),
        ;
        assert(half > 0) by (nonlinear_arith)
            requires
                window > 0,
                pow2((n - 1) as nat) > 0,
                half == window * pow2((n - 1) as nat),
        ;
        assert(widened_times(window, n) == clamped(clamped(half) * 2));
    }
}

/// Every search comes to an end: after at most 63 fetches that found too
/// few lines the window reaches back to the Unix epoch, whatever the time of
/// the oldest loaded line, so that the next fetch brings a page, however
/// few lines it finds.
pub proof fn lemma_search_ends(p: Paginator, found: nat)
    requires
        p.window > 0,
    ensures
        widened_times(p.window, 63) == i64::MAX,
        found < p.batch_size ==> (Paginator { window: widened_times(p.window, 63), ..p }).ends_history(
            found,
        ),
{
    lemma_widened_times(p.window, 63);
    lemma2_to64_rest();
    assert(p.window * pow2(63) >= pow2(63)) by (nonlinear_arith)
        requires
            p.window >= 1,
    ;
}

/// Seconds since the Unix epoch as the daemon takes them: a count beyond
/// what it can take is held at the nearest that it can.
pub open spec fn spec_daemon_seconds(secs: i64) -> i32 {
    if secs > i32::MAX {
        i32::MAX
    } else if secs < i32::MIN {
        i32::MIN
    } else {
        secs as i32
    }
}

/// Seconds since the Unix epoch as the daemon takes them.
pub fn daemon_seconds(secs: i64) -> (r: i32)
    ensures
        r == spec_daemon_seconds(secs),
{
    if secs > i32::MAX as i64 {
        i32::MAX
    } else if secs < i32::MIN as i64 {
        i32::MIN
    } else {
        secs as i32
    }
}

/// Whether more history may exist beyond a first batch of lines: it may
/// when the batch came back full.
pub fn first_batch_has_more(loaded: usize, batch_size: usize) -> (r: bool)
    ensures
        r == (loaded >= batch_size),
{
    loaded >= batch_size
}

/// The second from which the live tail follows the log: that of the last
/// line of the first batch, or the epoch where the batch was empty.
pub fn follow_since(last: &Option<Timestamp>) -> (since: i64)
    ensures
        since == match *last {
            Some(t) => t.secs,
            None => 0,
        },
{
    match last {
        Some(t) => t.secs,
        None => 0,
    }
}

} // verus!
