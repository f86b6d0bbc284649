//! Byte-level text primitives: lexicographic order, substring search and
//! trimming. Texts are ordered and searched by their UTF-8 bytes, which is
//! how `str` itself is ordered and searched.

use vstd::prelude::*;
use vstd::string::*;
use vstd::utf8::*;

verus! {

/// Specifies `String::push`: it appends the character to the end of the
/// string.
pub assume_specification[ String::push ](s: &mut String, c: char)
    ensures
        final(s)@ == old(s)@.push(c),
;

/// The UTF-8 bytes of a text.
pub open spec fn bytes_of(s: Seq<char>) -> Seq<u8> {
    encode_utf8(s)
}

/// Three-way lexicographic order of two byte strings: -1 when `a` comes
/// first, 0 when they are equal, 1 when `b` comes first. The first position
/// at which they differ decides; a proper prefix comes first.
pub open spec fn lex_order(a: Seq<u8>, b: Seq<u8>) -> int
    decreases a.len(),
{
    if a.len() == 0 {
        if b.len() == 0 {
            0
        } else {
            -1
        }
    } else if b.len() == 0 {
        1
    } else if a[0] < b[0] {
        -1
    } else if a[0] > b[0] {
        1
    } else {
        lex_order(a.drop_first(), b.drop_first())
    }
}

/// Three-way order of two texts by their UTF-8 bytes.
pub open spec fn text_order(a: Seq<char>, b: Seq<char>) -> int {
    lex_order(bytes_of(a), bytes_of(b))
}

/// `needle` stands in `hay` at byte offset `i`.
pub open spec fn occurs_at(hay: Seq<u8>, needle: Seq<u8>, i: int) -> bool {
    0 <= i && i + needle.len() <= hay.len() && hay.subrange(i, i + needle.len()) == needle
}

/// `needle` is a contiguous part of `hay`.
pub open spec fn occurs_in(hay: Seq<u8>, needle: Seq<u8>) -> bool {
    exists|i: int| occurs_at(hay, needle, i)
}

/// `needle` is a substring of `hay`.
pub open spec fn text_contains(hay: Seq<char>, needle: Seq<char>) -> bool {
    occurs_in(bytes_of(hay), bytes_of(needle))
}

/// `i` is the offset of the first byte equal to `b` in `s`.
pub open spec fn is_first_index_of(s: Seq<u8>, b: u8, i: int) -> bool {
    &&& 0 <= i < s.len()
    &&& s[i] == b
    &&& forall|k: int| 0 <= k < i ==> s[k] != b
}

/// `s` without its trailing run of `c`.
pub open spec fn without_trailing(s: Seq<char>, c: char) -> Seq<char>
    decreases s.len(),
{
    if s.len() > 0 && s.last() == c {
        without_trailing(s.drop_last(), c)
    } else {
        s
    }
}

/// The order of byte strings takes one of three values.
pub proof fn lemma_lex_order_range(a: Seq<u8>, b: Seq<u8>)
    ensures
        -1 <= lex_order(a, b) <= 1,
    decreases a.len(),
{
    if a.len() > 0 && b.len() > 0 && a[0] == b[0] {
        lemma_lex_order_range(a.drop_first(), b.drop_first());
    }
}

/// Two byte strings compare equal exactly when they are the same.
pub proof fn lemma_lex_order_zero(a: Seq<u8>, b: Seq<u8>)
    ensures
        lex_order(a, b) == 0 <==> a == b,
    decreases a.len(),
{
    if a.len() > 0 && b.len() > 0 && a[0] == b[0] {
        lemma_lex_order_zero(a.drop_first(), b.drop_first());
        if a.drop_first() == b.drop_first() {
            assert(a =~= seq![a[0]] + a.drop_first());
            assert(b =~= seq![b[0]] + b.drop_first());
        }
    } else if a.len() == 0 && b.len() == 0 {
        assert(a =~= b);
    }
}

/// Swapping the arguments negates the order.
pub proof fn lemma_lex_order_antisymmetric(a: Seq<u8>, b: Seq<u8>)
    ensures
        lex_order(b, a) == -lex_order(a, b),
    decreases a.len(),
{
    if a.len() > 0 && b.len() > 0 && a[0] == b[0] {
        lemma_lex_order_antisymmetric(a.drop_first(), b.drop_first());
    }
}

/// The order of byte strings is transitive, and strict as soon as one of
/// the two steps is.
pub proof fn lemma_lex_order_transitive(a: Seq<u8>, b: Seq<u8>, c: Seq<u8>)
    requires
        lex_order(a, b) <= 0,
        lex_order(b, c) <= 0,
    ensures
        lex_order(a, c) <= 0,
        lex_order(a, b) < 0 || lex_order(b, c) < 0 ==> lex_order(a, c) < 0,
    decreases a.len(),
{
    if a.len() > 0 && b.len() > 0 && c.len() > 0 && a[0] == b[0] && b[0] == c[0] {
        lemma_lex_order_transitive(a.drop_first(), b.drop_first(), c.drop_first());
    }
}

/// Compares two byte strings lexicographically.
pub fn compare_bytes(a: &[u8], b: &[u8]) -> (r: i8)
    ensures
        r == lex_order(a@, b@),
{
    let mut i: usize = 0;
    proof {
        assert(a@.skip(0) =~= a@);
        assert(b@.skip(0) =~= b@);
    }
    while i < a.len() && i < b.len()
        invariant
            i <= a.len(),
            i <= b.len(),
            lex_order(a@, b@) == lex_order(a@.skip(i as int), b@.skip(i as int)),
        decreases a.len() - i,
    {
        proof {
            assert(a@.skip(i as int).drop_first() =~= a@.skip(i + 1));
            assert(b@.skip(i as int).drop_first() =~= b@.skip(i + 1));
        }
        if a[i] < b[i] {
            return -1;
        }
        if a[i] > b[i] {
            return 1;
        }
        i = i + 1;
    }
    if i < b.len() {
        -1
    } else if i < a.len() {
        1
    } else {
        0
    }
}

/// Compares two texts by their UTF-8 bytes, as `str` orders them.
pub fn compare_text(a: &str, b: &str) -> (r: i8)
    ensures
        r == text_order(a@, b@),
{
    compare_bytes(a.as_bytes(), b.as_bytes())
}

/// Whether two texts are the same.
pub fn same_text(a: &str, b: &str) -> (r: bool)
    ensures
        r == (a@ == b@),
{
    let r = compare_text(a, b) == 0;
    proof {
        lemma_lex_order_zero(bytes_of(a@), bytes_of(b@));
        if bytes_of(a@) == bytes_of(b@) {
            encode_utf8_decode_utf8(a@);
            encode_utf8_decode_utf8(b@);
        }
    }
    r
}

/// Whether `needle` stands in `hay` at byte offset `i`.
fn matches_at(hay: &[u8], needle: &[u8], i: usize) -> (r: bool)
    requires
        i + needle@.len() <= hay@.len(),
    ensures
        r == occurs_at(hay@, needle@, i as int),
{
    let hay_len: usize = hay.len();
    let mut j: usize = 0;
    while j < needle.len()
        invariant
            j <= needle@.len(),
            i + needle@.len() <= hay@.len(),
            hay_len == hay@.len(),
            forall|m: int| 0 <= m < j ==> hay@[i + m] == needle@[m],
        decreases needle.len() - j,
    {
        if hay[i + j] != needle[j] {
            proof {
                let part = hay@.subrange(i as int, i + needle@.len());
                assert(part[j as int] == hay@[i + j]);
            }
            return false;
        }
        j = j + 1;
    }
    proof {
        assert(hay@.subrange(i as int, i + needle@.len()) =~= needle@);
    }
    true
}

/// Whether `needle` is a contiguous part of `hay`.
pub fn contains_bytes(hay: &[u8], needle: &[u8]) -> (r: bool)
    ensures
        r == occurs_in(hay@, needle@),
{
    if needle.len() > hay.len() {
        return false;
    }
    let last: usize = hay.len() - needle.len();
    let mut i: usize = 0;
    while i < last
        invariant
            i <= last,
            last == hay@.len() - needle@.len(),
            forall|k: int| 0 <= k < i ==> !occurs_at(hay@, needle@, k),
        decreases last - i,
    {
        if matches_at(hay, needle, i) {
            return true;
        }
        i = i + 1;
    }
    matches_at(hay, needle, last)
}

/// Whether `needle` is a substring of `hay`, as `str::contains` finds it.
pub fn contains_text(hay: &str, needle: &str) -> (r: bool)
    ensures
        r == text_contains(hay@, needle@),
{
    contains_bytes(hay.as_bytes(), needle.as_bytes())
}

/// The offset of the first byte equal to `b`, if there is one.
pub fn first_index_of(s: &[u8], b: u8) -> (r: Option<usize>)
    ensures
        match r {
            Some(i) => is_first_index_of(s@, b, i as int),
            None => forall|k: int| 0 <= k < s@.len() ==> s@[k] != b,
        },
{
    let mut i: usize = 0;
    while i < s.len()
        invariant
            i <= s@.len(),
            forall|k: int| 0 <= k < i ==> s@[k] != b,
        decreases s.len() - i,
    {
        if s[i] == b {
            return Some(i);
        }
        i = i + 1;
    }
    None
}

/// Removing the trailing run of `c` leaves a prefix that does not end in
/// `c`, followed in `s` by nothing but `c`.
pub proof fn lemma_without_trailing(s: Seq<char>, c: char, n: int)
    requires
        0 <= n <= s.len(),
        n > 0 ==> s[n - 1] != c,
        forall|k: int| n <= k < s.len() ==> s[k] == c,
    ensures
        without_trailing(s, c) == s.subrange(0, n),
    decreases s.len(),
{
    if s.len() > 0 && s.last() == c {
        assert(n < s.len());
        lemma_without_trailing(s.drop_last(), c, n);
        assert(s.drop_last().subrange(0, n) =~= s.subrange(0, n));
    } else {
        assert(n == s.len());
        assert(s.subrange(0, n) =~= s);
    }
}

/// `s` without its trailing run of `c`, as `str::trim_end_matches` gives it
/// for a single character.
pub fn trim_trailing(s: &str, c: char) -> (r: String)
    ensures
        r@ == without_trailing(s@, c),
{
    let mut n: usize = s.unicode_len();
    while n > 0 && s.get_char(n - 1) == c
        invariant
            n <= s@.len(),
            forall|k: int| n <= k < s@.len() ==> s@[k] == c,
        decreases n,
    {
        n = n - 1;
    }
    proof {
        lemma_without_trailing(s@, c, n as int);
    }
    String::from_str(s.substring_char(0, n))
}

/// `s` without its leading run of `c`.
pub open spec fn without_leading(s: Seq<char>, c: char) -> Seq<char>
    decreases s.len(),
{
    if s.len() > 0 && s[0] == c {
        without_leading(s.drop_first(), c)
    } else {
        s
    }
}

/// Removing the leading run of `c` leaves a suffix that does not start
/// with `c`, preceded in `s` by nothing but `c`.
pub proof fn lemma_without_leading(s: Seq<char>, c: char, n: int)
    requires
        0 <= n <= s.len(),
        n < s.len() ==> s[n] != c,
        forall|k: int| 0 <= k < n ==> s[k] == c,
    ensures
        without_leading(s, c) == s.subrange(n, s.len() as int),
    decreases s.len(),
{
    if s.len() > 0 && s[0] == c {
        assert(n > 0);
        lemma_without_leading(s.drop_first(), c, n - 1);
        assert(s.drop_first().subrange(n - 1, s.len() - 1) =~= s.subrange(n, s.len() as int));
    } else {
        assert(n == 0);
        assert(s.subrange(0, s.len() as int) =~= s);
    }
}

/// `s` without its leading run of `c`, as `str::trim_start_matches` gives
/// it for a single character.
pub fn trim_leading(s: &str, c: char) -> (r: String)
    ensures
        r@ == without_leading(s@, c),
{
    let len: usize = s.unicode_len();
    let mut n: usize = 0;
    while n < len && s.get_char(n) == c
        invariant
            n <= len,
            len == s@.len(),
            forall|k: int| 0 <= k < n ==> s@[k] == c,
        decreases len - n,
    {
        n = n + 1;
    }
    proof {
        lemma_without_leading(s@, c, n as int);
    }
    String::from_str(s.substring_char(n, len))
}

/// `s` without the occurrences of `c`.
pub open spec fn without_char(s: Seq<char>, c: char) -> Seq<char> {
    s.filter(|x: char| x != c)
}

/// A text without the occurrences of one character, as `str::replace`
/// gives it for a character and the empty text.
pub fn remove_char(s: &str, c: char) -> (r: String)
    ensures
        r@ == without_char(s@, c),
{
    let len: usize = s.unicode_len();
    let mut r = String::new();
    let mut n: usize = 0;
    proof {
        reveal(Seq::filter);
        assert(s@.take(0) =~= Seq::<char>::empty());
    }
    while n < len
        invariant
            n <= len,
            len == s@.len(),
            r@ == without_char(s@.take(n as int), c),
        decreases len - n,
    {
        let x = s.get_char(n);
        proof {
            reveal(Seq::filter);
            assert(s@.take(n + 1).drop_last() =~= s@.take(n as int));
            assert(s@.take(n + 1).last() == x);
        }
        if x != c {
            r.push(x);
        }
        n = n + 1;
    }
    proof {
        assert(s@.take(n as int) =~= s@);
    }
    r
}

/// The first `n` characters of `s`, or all of it where it has fewer.
pub open spec fn first_chars(s: Seq<char>, n: nat) -> Seq<char> {
    if s.len() <= n {
        s
    } else {
        s.subrange(0, n as int)
    }
}

/// The first `n` characters of a text, or all of it where it has fewer.
pub fn take_chars(s: &str, n: usize) -> (r: String)
    ensures
        r@ == first_chars(s@, n as nat),
{
    let len: usize = s.unicode_len();
    if len <= n {
        String::from_str(s)
    } else {
        String::from_str(s.substring_char(0, n))
    }
}

/// A text cut to at most `max_len` characters: the text itself where it
/// fits, else its first `max_len - 1` characters and an ellipsis.
pub open spec fn truncated(s: Seq<char>, max_len: nat) -> Seq<char> {
    if s.len() <= max_len {
        s
    } else if max_len == 0 {
        seq!['…']
    } else {
        s.subrange(0, max_len - 1).push('…')
    }
}

/// Cuts a text to `max_len` characters, with an ellipsis where something
/// was cut off.
pub fn truncate_string(s: &str, max_len: usize) -> (r: String)
    ensures
        r@ == truncated(s@, max_len as nat),
{
    let len: usize = s.unicode_len();
    if len <= max_len {
        String::from_str(s)
    } else {
        let keep: usize = if max_len == 0 {
            0
        } else {
            max_len - 1
        };
        let mut r = String::from_str(s.substring_char(0, keep));
        r.push('…');
        proof {
            assert(s@.subrange(0, 0) =~= Seq::<char>::empty());
            assert(Seq::<char>::empty().push('…') =~= seq!['…']);
        }
        r
    }
}

/// The lower-case form of a text, as `str::to_lowercase` gives it.
pub uninterp spec fn lowercase_of(s: Seq<char>) -> Seq<char>;

/// Calls `str::to_lowercase`. The result is named, not described: it is the
/// Unicode lower-case mapping of the whole text.
#[verifier::external_body]
pub(crate) fn lowercase(s: &str) -> (r: String)
    ensures
        r@ == lowercase_of(s@),
{
    s.to_lowercase()
}

} // verus!
