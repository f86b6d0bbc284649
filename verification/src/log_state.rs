//! The state of one open log view: the loaded lines, the scroll position and
//! the guard that keeps one request for older lines in flight at a time.

use crate::time::Timestamp;
use crate::types::{ContainerKey, LogEntry};
use vstd::prelude::*;

verus! {

/// Lines from the top of the loaded buffer within which a scroll asks for
/// older lines.
pub const PAGINATION_THRESHOLD: usize = 10;

/// Lines asked for in one batch of history.
pub const LOG_BATCH_SIZE: usize = 1000;

/// The log of the container being viewed.
#[derive(Debug)]
pub struct LogState {
    /// The container whose log this is.
    pub key: ContainerKey,
    /// The loaded lines, oldest first.
    pub entries: Vec<LogEntry>,
    /// Time of the oldest line seen.
    pub oldest: Option<Timestamp>,
    /// Time of the newest line seen.
    pub newest: Option<Timestamp>,
    /// Lines scrolled down from the top of the buffer.
    pub scroll_offset: usize,
    /// Whether the view follows the newest line.
    pub is_at_bottom: bool,
    /// Whether older lines may exist beyond the loaded ones.
    pub has_more_history: bool,
    /// Whether a request for older lines is in flight.
    pub fetching_older: bool,
    /// Running total of lines loaded.
    pub total_loaded: usize,
}

/// The sum of two sizes, held at the largest size.
pub open spec fn capped_sum(a: usize, b: int) -> usize {
    if a + b > usize::MAX {
        usize::MAX
    } else {
        (a + b) as usize
    }
}

/// The difference of two sizes, held at zero.
pub open spec fn floored_difference(a: usize, b: usize) -> usize {
    if a >= b {
        (a - b) as usize
    } else {
        0
    }
}

impl LogState {
    /// An empty log of the given container that follows the newest line.
    pub open spec fn is_fresh(self, key: ContainerKey) -> bool {
        &&& self.key == key
        &&& self.entries@.len() == 0
        &&& self.oldest is None
        &&& self.newest is None
        &&& self.scroll_offset == 0
        &&& self.is_at_bottom
        &&& !self.has_more_history
        &&& !self.fetching_older
        &&& self.total_loaded == 0
    }

    /// Whether a request for older lines may go out: more history may
    /// exist, none is being fetched, and the time span of the loaded lines
    /// is known.
    pub open spec fn may_fetch_older(self) -> bool {
        self.has_more_history && !self.fetching_older && self.oldest is Some && self.newest
            is Some
    }

    /// Whether the scroll position is close enough to the top of the buffer
    /// to ask for older lines.
    pub open spec fn near_top(self) -> bool {
        self.scroll_offset < PAGINATION_THRESHOLD
    }

    /// The log one line up; at the top it stays as it is.
    pub open spec fn after_scroll_up(self) -> LogState {
        if self.scroll_offset > 0 {
            LogState {
                scroll_offset: (self.scroll_offset - 1) as usize,
                is_at_bottom: false,
                ..self
            }
        } else {
            self
        }
    }

    /// The log one line down.
    pub open spec fn after_scroll_down(self) -> LogState {
        LogState { scroll_offset: capped_sum(self.scroll_offset, 1), ..self }
    }

    /// The log at its oldest loaded line.
    pub open spec fn after_scroll_to_top(self) -> LogState {
        LogState { scroll_offset: 0, is_at_bottom: false, ..self }
    }

    /// The log following the newest line.
    pub open spec fn after_scroll_to_bottom(self) -> LogState {
        LogState { is_at_bottom: true, ..self }
    }

    /// The log half a page up.
    pub open spec fn after_page_up(self, viewport_height: usize) -> LogState {
        LogState {
            scroll_offset: floored_difference(self.scroll_offset, (viewport_height / 2) as usize),
            is_at_bottom: false,
            ..self
        }
    }

    /// The log half a page down.
    pub open spec fn after_page_down(self, viewport_height: usize) -> LogState {
        LogState {
            scroll_offset: capped_sum(self.scroll_offset, viewport_height as int / 2),
            ..self
        }
    }

    /// The log with the guard on fetching raised, where a request may go
    /// out; else as it is.
    pub open spec fn after_begin_fetch(self) -> LogState {
        if self.may_fetch_older() {
            LogState { fetching_older: true, ..self }
        } else {
            self
        }
    }

    /// `post` is the log after a line from the live tail was appended: it
    /// is the newest line seen, and the oldest if it is the first.
    pub open spec fn line_pushed(self, entry: LogEntry, post: LogState) -> bool {
        &&& post.entries@ == self.entries@.push(entry)
        &&& post.newest == Some(entry.timestamp)
        &&& post.oldest == if self.oldest is Some {
            self.oldest
        } else {
            Some(entry.timestamp)
        }
        &&& post.total_loaded == capped_sum(self.total_loaded, 1)
        &&& post == (LogState {
            entries: post.entries,
            newest: post.newest,
            oldest: post.oldest,
            total_loaded: post.total_loaded,
            ..self
        })
    }

    /// `post` is the log after a batch of older lines was put in front of
    /// the loaded ones. The scroll position moved down by the size of the
    /// batch, so that the line in view stays in view; the first line of
    /// the batch is the oldest seen, and its last the newest if none was
    /// seen; the guard on fetching is lifted.
    pub open spec fn batch_prepended(
        self,
        batch: Seq<LogEntry>,
        has_more_history: bool,
        post: LogState,
    ) -> bool {
        &&& post.entries@ == batch + self.entries@
        &&& post.scroll_offset == capped_sum(self.scroll_offset, batch.len() as int)
        &&& post.oldest == if batch.len() > 0 {
            Some(batch[0].timestamp)
        } else {
            self.oldest
        }
        &&& post.newest == if self.newest is None && batch.len() > 0 {
            Some(batch.last().timestamp)
        } else {
            self.newest
        }
        &&& post.has_more_history == has_more_history
        &&& !post.fetching_older
        &&& post.total_loaded == capped_sum(self.total_loaded, batch.len() as int)
        &&& post == (LogState {
            entries: post.entries,
            scroll_offset: post.scroll_offset,
            oldest: post.oldest,
            newest: post.newest,
            has_more_history: post.has_more_history,
            fetching_older: post.fetching_older,
            total_loaded: post.total_loaded,
            ..self
        })
    }

    /// An empty log that follows the newest line.
    pub fn new(key: ContainerKey) -> (r: LogState)
        ensures
            r.is_fresh(key),
    {
        LogState {
            key,
            entries: Vec::new(),
            oldest: None,
            newest: None,
            scroll_offset: 0,
            is_at_bottom: true,
            has_more_history: false,
            fetching_older: false,
            total_loaded: 0,
        }
    }

    /// Scrolls one line up. Returns whether the position changed.
    pub fn scroll_up(&mut self) -> (moved: bool)
        ensures
            moved == (old(self).scroll_offset > 0),
            *final(self) == old(self).after_scroll_up(),
    {
        if self.scroll_offset > 0 {
            self.scroll_offset = self.scroll_offset - 1;
            self.is_at_bottom = false;
            true
        } else {
            false
        }
    }

    /// Scrolls one line down. The view clamps the position to the end of
    /// the buffer when it draws.
    pub fn scroll_down(&mut self)
        ensures
            *final(self) == old(self).after_scroll_down(),
    {
        self.scroll_offset = self.scroll_offset.saturating_add(1);
    }

    /// Scrolls to the oldest loaded line.
    pub fn scroll_to_top(&mut self)
        ensures
            *final(self) == old(self).after_scroll_to_top(),
    {
        self.scroll_offset = 0;
        self.is_at_bottom = false;
    }

    /// Follows the newest line again.
    pub fn scroll_to_bottom(&mut self)
        ensures
            *final(self) == old(self).after_scroll_to_bottom(),
    {
        self.is_at_bottom = true;
    }

    /// Scrolls half a page up, for a page of `viewport_height` lines.
    pub fn scroll_page_up(&mut self, viewport_height: usize)
        ensures
            *final(self) == old(self).after_page_up(viewport_height),
    {
        let page: usize = viewport_height / 2;
        self.scroll_offset = self.scroll_offset.saturating_sub(page);
        self.is_at_bottom = false;
    }

    /// Scrolls half a page down, for a page of `viewport_height` lines.
    pub fn scroll_page_down(&mut self, viewport_height: usize)
        ensures
            *final(self) == old(self).after_page_down(viewport_height),
    {
        let page: usize = viewport_height / 2;
        self.scroll_offset = self.scroll_offset.saturating_add(page);
    }

    /// Appends a line from the live tail.
    pub fn push_line(&mut self, entry: LogEntry)
        ensures
            old(self).line_pushed(entry, *final(self)),
    {
        let at = entry.timestamp;
        self.entries.push(entry);
        self.newest = Some(at);
        if self.oldest.is_none() {
            self.oldest = Some(at);
        }
        self.total_loaded = self.total_loaded.saturating_add(1);
    }

    /// Puts a batch of older lines in front of the loaded ones.
    pub fn prepend_batch(&mut self, batch: Vec<LogEntry>, has_more_history: bool)
        ensures
            old(self).batch_prepended(batch@, has_more_history, *final(self)),
    {
        let count: usize = batch.len();
        if count > 0 {
            self.oldest = Some(batch[0].timestamp);
            if self.newest.is_none() {
                self.newest = Some(batch[count - 1].timestamp);
            }
        }
        let mut merged = batch;
        merged.append(&mut self.entries);
        self.entries = merged;
        self.scroll_offset = self.scroll_offset.saturating_add(count);
        self.has_more_history = has_more_history;
        self.fetching_older = false;
        self.total_loaded = self.total_loaded.saturating_add(count);
    }

    /// Raises the guard on fetching, if a request for older lines may go
    /// out. Returns the oldest and the newest time seen when it did.
    pub fn begin_fetch_older(&mut self) -> (span: Option<(Timestamp, Timestamp)>)
        ensures
            span is Some == old(self).may_fetch_older(),
            span matches Some(s) ==> Some(s.0) == old(self).oldest && Some(s.1) == old(
                self,
            ).newest,
            *final(self) == old(self).after_begin_fetch(),
    {
        if !self.has_more_history || self.fetching_older {
            return None;
        }
        match (self.oldest, self.newest) {
            (Some(oldest), Some(newest)) => {
                self.fetching_older = true;
                Some((oldest, newest))
            },
            _ => None,
        }
    }
}

} // verus!
