//! Reading a log line as the daemon sends it: an RFC 3339 timestamp, a
//! space, and the message.

use crate::text::{bytes_of, first_index_of, is_first_index_of, remove_char, without_char};
use crate::time::{parse_rfc3339, rfc3339_instant, Timestamp};
use crate::types::LogEntry;
use vstd::prelude::*;
use vstd::string::*;
use vstd::utf8::*;

verus! {

/// The byte that parts the timestamp from the message.
pub const SPACE: u8 = 32;

/// The offset of the first space among the bytes, if there is one.
pub open spec fn first_space(bytes: Seq<u8>) -> Option<int> {
    if exists|i: int| is_first_index_of(bytes, SPACE, i) {
        Some(choose|i: int| is_first_index_of(bytes, SPACE, i))
    } else {
        None
    }
}

/// What a log line holds: the instant that the text before its first space
/// denotes, and the text from that space on. `None` where the line has no
/// space or the text before it is no RFC 3339 timestamp.
pub open spec fn spec_parse(line: Seq<char>) -> Option<(Timestamp, Seq<char>)> {
    let bytes = bytes_of(line);
    match first_space(bytes) {
        Some(i) => match rfc3339_instant(decode_utf8(bytes.subrange(0, i))) {
            Some(t) => Some((t, decode_utf8(bytes.subrange(i, bytes.len() as int)))),
            None => None,
        },
        None => None,
    }
}

/// The first space of a byte string stands at one offset only.
proof fn lemma_first_space(bytes: Seq<u8>, i: int)
    requires
        is_first_index_of(bytes, SPACE, i),
    ensures
        first_space(bytes) == Some(i),
{
    let j = choose|j: int| is_first_index_of(bytes, SPACE, j);
    assert(is_first_index_of(bytes, SPACE, j));
    if j < i {
        assert(bytes[j] != SPACE);
    } else if i < j {
        assert(bytes[i] != SPACE);
    }
}

impl LogEntry {
    /// Reads one log line. The timestamp ends at the first space; the
    /// message keeps that space. A line without a space, or with a
    /// timestamp that is not in RFC 3339 notation, gives `None`.
    pub fn parse(log_line: &str) -> (r: Option<LogEntry>)
        ensures
            match spec_parse(log_line@) {
                Some((t, m)) => r matches Some(e) && e.timestamp == t && e.message@ == m,
                None => r is None,
            },
    {
        let bytes = log_line.as_bytes();
        let at: usize = match first_index_of(bytes, SPACE) {
            Some(i) => i,
            None => {
                assert(first_space(bytes@) is None);
                return None;
            },
        };
        proof {
            lemma_first_space(bytes@, at as int);
            encode_utf8_valid_utf8(log_line@);
            is_char_boundary_iff_not_is_continuation_byte(bytes@, at as int);
        }
        let (stamp, message) = log_line.split_at(at);
        proof {
            encode_utf8_decode_utf8(stamp@);
            encode_utf8_decode_utf8(message@);
        }
        match parse_rfc3339(stamp) {
            Some(timestamp) => Some(LogEntry { timestamp, message: String::from_str(message) }),
            None => None,
        }
    }
}

/// The character that ends a line on some terminals.
pub const CARRIAGE_RETURN: char = '\r';

/// Reads one line as it comes off the daemon's stream: the carriage returns
/// are taken out, and what is left is read as a log line. A line that
/// cannot be read gives `None`, and is then dropped.
pub fn read_line(raw: &str) -> (r: Option<LogEntry>)
    ensures
        match spec_parse(without_char(raw@, CARRIAGE_RETURN)) {
            Some((t, m)) => r matches Some(e) && e.timestamp == t && e.message@ == m,
            None => r is None,
        },
{
    let line = remove_char(raw, CARRIAGE_RETURN);
    LogEntry::parse(line.as_str())
}

} // verus!
