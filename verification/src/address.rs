//! The textual form of IPv4 and IPv6 addresses, and a check of it.
//!
//! An IPv4 address is written as four decimal octets joined by dots. An IPv6
//! address is written as eight pieces of sixteen bits joined by colons, each a
//! group of one to four hexadecimal digits; the last two pieces may be written
//! together as an IPv4 address, and one run of zero pieces may be left out and
//! marked by a double colon.

use vstd::prelude::*;
use vstd::string::*;

use crate::text::same_text;

verus! {

/// One of the characters `0` to `9`.
pub open spec fn is_digit(c: char) -> bool {
    '0' <= c && c <= '9'
}

/// A decimal digit or one of the letters `a` to `f`, in either case.
pub open spec fn is_hex_digit(c: char) -> bool {
    is_digit(c) || ('a' <= c && c <= 'f') || ('A' <= c && c <= 'F')
}

/// The number that a run of decimal digits writes.
pub open spec fn decimal_value(s: Seq<char>) -> nat
    decreases s.len(),
{
    if s.len() == 0 {
        0
    } else {
        decimal_value(s.drop_last()) * 10 + (s.last() as nat - '0' as nat) as nat
    }
}

/// The pieces of `s` that lie between the occurrences of `sep`, in order.
/// There is always one piece more than there are separators, so a text that
/// starts or ends with a separator, or holds two in a row, has an empty piece.
pub open spec fn split(s: Seq<char>, sep: char) -> Seq<Seq<char>>
    decreases s.len(),
{
    if s.len() == 0 {
        seq![Seq::empty()]
    } else {
        let parts = split(s.drop_last(), sep);
        if s.last() == sep {
            parts.push(Seq::empty())
        } else {
            parts.update(parts.len() - 1, parts.last().push(s.last()))
        }
    }
}

/// The pieces one behind the other, with `sep` between each two of them.
pub open spec fn joined_by(parts: Seq<Seq<char>>, sep: char) -> Seq<char>
    decreases parts.len(),
{
    if parts.len() == 0 {
        Seq::empty()
    } else if parts.len() == 1 {
        parts[0]
    } else {
        joined_by(parts.drop_last(), sep).push(sep) + parts.last()
    }
}

/// Splitting takes a text apart at its separators and nowhere else: there
/// is at least one piece, no piece holds a separator, and the pieces with
/// the separator between them are the text again.
pub proof fn law_split_takes_the_text_apart(s: Seq<char>, sep: char)
    ensures
        split(s, sep).len() >= 1,
        forall|k: int, i: int|
            0 <= k < split(s, sep).len() && 0 <= i < split(s, sep)[k].len() ==> #[trigger] split(
                s,
                sep,
            )[k][i] != sep,
        joined_by(split(s, sep), sep) == s,
    decreases s.len(),
{
    if s.len() == 0 {
        assert(joined_by(split(s, sep), sep) =~= s);
    } else {
        let before = split(s.drop_last(), sep);
        let after = split(s, sep);
        law_split_takes_the_text_apart(s.drop_last(), sep);
        if s.last() == sep {
            assert(after.drop_last() =~= before);
            assert(joined_by(after, sep) =~= s);
        } else if before.len() == 1 {
            assert(before[0] == s.drop_last());
            assert(after[0] =~= s);
        } else {
            let front = joined_by(before.drop_last(), sep).push(sep);
            assert(after.drop_last() =~= before.drop_last());
            assert(joined_by(before, sep) == front + before.last());
            assert(joined_by(after, sep) == front + before.last().push(s.last()));
            assert(front + before.last().push(s.last()) =~= (front + before.last()).push(
                s.last(),
            ));
            assert(s.drop_last().push(s.last()) =~= s);
        }
    }
}

/// One to three decimal digits that write a number of at most 255, with no
/// zero in front of another digit.
pub open spec fn is_octet_text(s: Seq<char>) -> bool {
    &&& 1 <= s.len() <= 3
    &&& forall|i: int| 0 <= i < s.len() ==> is_digit(#[trigger] s[i])
    &&& (s.len() > 1 ==> s[0] != '0')
    &&& decimal_value(s) <= 255
}

/// Four octets joined by dots.
pub open spec fn is_ipv4_text(s: Seq<char>) -> bool {
    let parts = split(s, '.');
    &&& parts.len() == 4
    &&& forall|k: int| 0 <= k < parts.len() ==> is_octet_text(#[trigger] parts[k])
}

/// One to four hexadecimal digits.
pub open spec fn is_group_text(s: Seq<char>) -> bool {
    &&& 1 <= s.len() <= 4
    &&& forall|i: int| 0 <= i < s.len() ==> is_hex_digit(#[trigger] s[i])
}

/// Every piece is a hexadecimal group.
pub open spec fn all_groups(parts: Seq<Seq<char>>) -> bool {
    forall|k: int| 0 <= k < parts.len() ==> is_group_text(#[trigger] parts[k])
}

/// How many sixteen-bit pieces the text in front of a double colon writes:
/// nothing, or hexadecimal groups joined by colons. `None` where the text is
/// neither.
pub open spec fn head_pieces(s: Seq<char>) -> Option<nat> {
    if s.len() == 0 {
        Some(0)
    } else if all_groups(split(s, ':')) {
        Some(split(s, ':').len())
    } else {
        None
    }
}

/// How many sixteen-bit pieces the text behind a double colon, or a text
/// without one, writes: nothing, or hexadecimal groups joined by colons, of
/// which the last may be replaced by an IPv4 address that counts for two.
/// `None` where the text is neither.
pub open spec fn tail_pieces(s: Seq<char>) -> Option<nat> {
    let parts = split(s, ':');
    if s.len() == 0 {
        Some(0)
    } else if all_groups(parts) {
        Some(parts.len())
    } else if all_groups(parts.drop_last()) && is_ipv4_text(parts.last()) {
        Some(parts.len() + 1)
    } else {
        None
    }
}

/// The text has a double colon at `at`, with well-formed text on both sides
/// that leaves at least one piece for the double colon to stand for.
pub open spec fn is_compressed_at(s: Seq<char>, at: int) -> bool {
    let head = head_pieces(s.subrange(0, at));
    let tail = tail_pieces(s.subrange(at + 2, s.len() as int));
    &&& 0 <= at && at + 2 <= s.len()
    &&& s[at] == ':' && s[at + 1] == ':'
    &&& head is Some
    &&& tail is Some
    &&& head->0 + tail->0 <= 7
}

/// Eight pieces written in full, or fewer around one double colon.
pub open spec fn is_ipv6_text(s: Seq<char>) -> bool {
    tail_pieces(s) == Some(8nat) || exists|at: int| #[trigger] is_compressed_at(s, at)
}

/// The text of an IPv4 or of an IPv6 address.
pub open spec fn is_ip_text(s: Seq<char>) -> bool {
    is_ipv4_text(s) || is_ipv6_text(s)
}

/// Splitting a text that is one character longer: a separator opens a new,
/// empty piece, any other character goes to the end of the last piece.
proof fn lemma_split_step(s: Seq<char>, sep: char, end: int)
    requires
        0 <= end < s.len(),
    ensures
        s[end] == sep ==> split(s.take(end + 1), sep) == split(s.take(end), sep).push(
            Seq::empty(),
        ),
        s[end] != sep ==> split(s.take(end + 1), sep) == split(s.take(end), sep).update(
            split(s.take(end), sep).len() - 1,
            split(s.take(end), sep).last().push(s[end]),
        ),
        split(s.take(end), sep).len() >= 1,
{
    assert(s.take(end + 1).drop_last() =~= s.take(end));
    lemma_split_nonempty(s.take(end), sep);
}

/// A split always has at least one piece.
proof fn lemma_split_nonempty(s: Seq<char>, sep: char)
    ensures
        split(s, sep).len() >= 1,
    decreases s.len(),
{
    if s.len() > 0 {
        lemma_split_nonempty(s.drop_last(), sep);
    }
}

/// The characters of `text` as a vector.
fn chars_of(text: &str) -> (v: Vec<char>)
    ensures
        v@ == text@,
{
    let mut v: Vec<char> = Vec::new();
    for c in it: text.chars()
        invariant
            it.seq() == text@,
            v@ == it.seq().take(it.index() as int),
    {
        assert(it.seq().take(it.index() + 1) =~= it.seq().take(it.index() as int).push(c));
        v.push(c);
    }
    assert(v@ =~= text@);
    v
}

/// Where the pieces of `text[lo..hi]` between separators begin and end.
fn piece_ranges(text: &Vec<char>, lo: usize, hi: usize, sep: char) -> (r: Vec<(usize, usize)>)
    requires
        lo <= hi <= text.len(),
    ensures
        r.len() >= 1,
        r.len() == split(text@.subrange(lo as int, hi as int), sep).len(),
        forall|k: int|
            0 <= k < r.len() ==> {
                &&& lo <= (#[trigger] r[k]).0 <= r[k].1 <= hi
                &&& split(text@.subrange(lo as int, hi as int), sep)[k] == text@.subrange(
                    r[k].0 as int,
                    r[k].1 as int,
                )
            },
{
    let ghost whole = text@.subrange(lo as int, hi as int);
    let mut ranges: Vec<(usize, usize)> = Vec::new();
    let mut start: usize = lo;
    let mut i: usize = lo;
    assert(whole.take(0) =~= Seq::<char>::empty());
    assert(text@.subrange(lo as int, lo as int) =~= Seq::<char>::empty());
    while i < hi
        invariant
            lo <= start <= i <= hi <= text.len(),
            whole == text@.subrange(lo as int, hi as int),
            ranges.len() + 1 == split(whole.take(i - lo), sep).len(),
            split(whole.take(i - lo), sep).last() == text@.subrange(start as int, i as int),
            forall|k: int|
                0 <= k < ranges.len() ==> {
                    &&& lo <= (#[trigger] ranges[k]).0 <= ranges[k].1 <= hi
                    &&& split(whole.take(i - lo), sep)[k] == text@.subrange(
                        ranges[k].0 as int,
                        ranges[k].1 as int,
                    )
                },
        decreases hi - i,
    {
        proof {
            lemma_split_step(whole, sep, i - lo);
        }
        if text[i] == sep {
            ranges.push((start, i));
            start = i + 1;
            assert(text@.subrange(start as int, start as int) =~= Seq::<char>::empty());
        } else {
            assert(text@.subrange(start as int, i + 1) =~= text@.subrange(
                start as int,
                i as int,
            ).push(text@[i as int]));
        }
        i = i + 1;
    }
    assert(whole.take(hi - lo) =~= whole);
    ranges.push((start, hi));
    ranges
}

/// Whether `text[lo..hi]` is a decimal octet.
fn octet_at(text: &Vec<char>, lo: usize, hi: usize) -> (r: bool)
    requires
        lo <= hi <= text.len(),
    ensures
        r == is_octet_text(text@.subrange(lo as int, hi as int)),
{
    let ghost piece = text@.subrange(lo as int, hi as int);
    if hi - lo < 1 || hi - lo > 3 {
        return false;
    }
    let mut value: u32 = 0;
    let mut i: usize = lo;
    assert(piece.take(0) =~= Seq::<char>::empty());
    while i < hi
        invariant
            lo <= i <= hi <= text.len(),
            hi - lo <= 3,
            piece == text@.subrange(lo as int, hi as int),
            forall|k: int| 0 <= k < i - lo ==> is_digit(#[trigger] piece[k]),
            value == decimal_value(piece.take(i - lo)),
            value <= 999,
            i - lo <= 2 ==> value <= 99,
            i - lo <= 1 ==> value <= 9,
            i - lo == 0 ==> value == 0,
        decreases hi - i,
    {
        let c = text[i];
        if !(c >= '0' && c <= '9') {
            assert(!is_digit(piece[i - lo]));
            return false;
        }
        assert(piece.take(i - lo + 1).drop_last() =~= piece.take(i - lo));
        value = value * 10 + (c as u32 - '0' as u32);
        i = i + 1;
    }
    assert(piece.take(hi - lo) =~= piece);
    if hi - lo > 1 && text[lo] == '0' {
        return false;
    }
    value <= 255
}

/// Whether `text[lo..hi]` is a hexadecimal group.
fn group_at(text: &Vec<char>, lo: usize, hi: usize) -> (r: bool)
    requires
        lo <= hi <= text.len(),
    ensures
        r == is_group_text(text@.subrange(lo as int, hi as int)),
{
    let ghost piece = text@.subrange(lo as int, hi as int);
    if hi - lo < 1 || hi - lo > 4 {
        return false;
    }
    let mut i: usize = lo;
    while i < hi
        invariant
            lo <= i <= hi <= text.len(),
            piece == text@.subrange(lo as int, hi as int),
            forall|k: int| 0 <= k < i - lo ==> is_hex_digit(#[trigger] piece[k]),
        decreases hi - i,
    {
        let c = text[i];
        let hex = (c >= '0' && c <= '9') || (c >= 'a' && c <= 'f') || (c >= 'A' && c <= 'F');
        if !hex {
            assert(!is_hex_digit(piece[i - lo]));
            return false;
        }
        i = i + 1;
    }
    true
}

/// Whether `text[lo..hi]` is an IPv4 address.
fn ipv4_at(text: &Vec<char>, lo: usize, hi: usize) -> (r: bool)
    requires
        lo <= hi <= text.len(),
    ensures
        r == is_ipv4_text(text@.subrange(lo as int, hi as int)),
{
    let ghost parts = split(text@.subrange(lo as int, hi as int), '.');
    let ranges = piece_ranges(text, lo, hi, '.');
    if ranges.len() != 4 {
        return false;
    }
    let mut k: usize = 0;
    while k < 4
        invariant
            k <= 4,
            ranges.len() == 4,
            parts.len() == 4,
            parts == split(text@.subrange(lo as int, hi as int), '.'),
            forall|j: int|
                0 <= j < 4 ==> {
                    &&& (#[trigger] ranges[j]).0 <= ranges[j].1 <= text.len()
                    &&& parts[j] == text@.subrange(ranges[j].0 as int, ranges[j].1 as int)
                },
            forall|j: int| 0 <= j < k ==> is_octet_text(#[trigger] parts[j]),
        decreases 4 - k,
    {
        let (from, to) = ranges[k];
        if !octet_at(text, from, to) {
            assert(!is_octet_text(parts[k as int]));
            return false;
        }
        k = k + 1;
    }
    true
}

/// How many pieces `text[lo..hi]` writes, as far as an address can hold
/// them: with `embedded` the text behind a double colon, without it the text
/// in front of one.
fn pieces_at(text: &Vec<char>, lo: usize, hi: usize, embedded: bool) -> (r: Option<usize>)
    requires
        lo <= hi <= text.len(),
    ensures
        ({
            let pieces = if embedded {
                tail_pieces(text@.subrange(lo as int, hi as int))
            } else {
                head_pieces(text@.subrange(lo as int, hi as int))
            };
            match r {
                Some(n) => n <= 9 && pieces == Some(n as nat),
                None => pieces is None || pieces->0 > 8,
            }
        }),
{
    let ghost parts = split(text@.subrange(lo as int, hi as int), ':');
    if lo == hi {
        return Some(0);
    }
    let ranges = piece_ranges(text, lo, hi, ':');
    let n = ranges.len();
    if n > 8 {
        return None;
    }
    let mut k: usize = 0;
    while k + 1 < n
        invariant
            1 <= n <= 8,
            k + 1 <= n,
            ranges.len() == n,
            parts.len() == n,
            parts == split(text@.subrange(lo as int, hi as int), ':'),
            forall|j: int|
                0 <= j < n ==> {
                    &&& (#[trigger] ranges[j]).0 <= ranges[j].1 <= text.len()
                    &&& parts[j] == text@.subrange(ranges[j].0 as int, ranges[j].1 as int)
                },
            forall|j: int| 0 <= j < k ==> is_group_text(#[trigger] parts[j]),
        decreases n - k,
    {
        let (from, to) = ranges[k];
        if !group_at(text, from, to) {
            assert(!is_group_text(parts[k as int]));
            assert(parts.drop_last()[k as int] == parts[k as int]);
            return None;
        }
        k = k + 1;
    }
    assert(all_groups(parts.drop_last())) by {
        assert forall|j: int| 0 <= j < parts.drop_last().len() implies is_group_text(
            #[trigger] parts.drop_last()[j],
        ) by {
            assert(parts.drop_last()[j] == parts[j]);
        }
    }
    let (from, to) = ranges[n - 1];
    if group_at(text, from, to) {
        Some(n)
    } else if embedded && ipv4_at(text, from, to) {
        Some(n + 1)
    } else {
        assert(!is_group_text(parts[n - 1]));
        None
    }
}

/// A text that ends with a separator has an empty last piece.
proof fn lemma_split_trailing(s: Seq<char>, sep: char)
    requires
        s.len() > 0,
        s.last() == sep,
    ensures
        split(s, sep).len() >= 1,
        split(s, sep).last().len() == 0,
{
    lemma_split_nonempty(s, sep);
}

/// A text with two separators in a row has an empty piece that is not its
/// last one.
proof fn lemma_split_doubled(s: Seq<char>, sep: char, at: int)
    requires
        0 <= at,
        at + 2 <= s.len(),
        s[at] == sep,
        s[at + 1] == sep,
    ensures
        exists|k: int| 0 <= k < split(s, sep).len() - 1 && (#[trigger] split(s, sep)[k]).len() == 0,
    decreases s.len(),
{
    let shorter = s.drop_last();
    lemma_split_nonempty(shorter, sep);
    if at + 2 == s.len() {
        lemma_split_trailing(shorter, sep);
        let k = split(shorter, sep).len() - 1;
        assert(split(s, sep)[k].len() == 0);
    } else {
        lemma_split_doubled(shorter, sep, at);
        let k = choose|k: int|
            0 <= k < split(shorter, sep).len() - 1 && (#[trigger] split(shorter, sep)[k]).len()
                == 0;
        assert(split(s, sep)[k].len() == 0);
    }
}

/// A text whose split has an empty piece writes no pieces of an address,
/// unless the text is empty itself.
proof fn lemma_empty_piece_spoils(s: Seq<char>, k: int)
    requires
        s.len() > 0,
        0 <= k < split(s, ':').len(),
        split(s, ':')[k].len() == 0,
        k < split(s, ':').len() - 1 || !is_ipv4_text(split(s, ':').last()),
    ensures
        head_pieces(s) is None,
        tail_pieces(s) is None,
{
    let parts = split(s, ':');
    assert(!is_group_text(parts[k]));
    if k < parts.len() - 1 {
        assert(parts.drop_last()[k] == parts[k]);
    }
}

/// The empty text is no IPv4 address.
proof fn lemma_empty_is_no_ipv4()
    ensures
        !is_ipv4_text(Seq::<char>::empty()),
{
    assert(split(Seq::<char>::empty(), '.').len() == 1);
}

/// Where the first double colon of `text` begins.
fn first_double_colon(text: &Vec<char>) -> (r: Option<usize>)
    ensures
        match r {
            Some(at) => {
                &&& at + 2 <= text.len()
                &&& text[at as int] == ':' && text[at + 1] == ':'
                &&& forall|j: int| 0 <= j < at ==> !(text[j] == ':' && #[trigger] text[j + 1] == ':')
            },
            None => forall|j: int|
                0 <= j && j + 2 <= text.len() ==> !(text[j] == ':' && #[trigger] text[j + 1] == ':'),
        },
{
    if text.len() < 2 {
        return None;
    }
    let mut i: usize = 0;
    while i < text.len() - 1
        invariant
            i <= text.len() - 1,
            forall|j: int| 0 <= j < i ==> !(text[j] == ':' && #[trigger] text[j + 1] == ':'),
        decreases text.len() - i,
    {
        if text[i] == ':' && text[i + 1] == ':' {
            return Some(i);
        }
        i = i + 1;
    }
    None
}

/// Whether the whole of `text` is an IPv6 address.
fn ipv6_text(text: &Vec<char>) -> (r: bool)
    ensures
        r == is_ipv6_text(text@),
{
    let n = text.len();
    assert(text@.subrange(0, n as int) =~= text@);
    match first_double_colon(text) {
        None => {
            let whole = pieces_at(text, 0, n, true);
            assert(forall|at: int| !is_compressed_at(text@, at));
            match whole {
                Some(count) => count == 8,
                None => false,
            }
        },
        Some(at) => {
            let head = pieces_at(text, 0, at, false);
            let tail = pieces_at(text, at + 2, n, true);
            proof {
                lemma_split_doubled(text@, ':', at as int);
                let k = choose|k: int|
                    0 <= k < split(text@, ':').len() - 1 && (#[trigger] split(text@, ':')[k]).len()
                        == 0;
                lemma_empty_piece_spoils(text@, k);
                assert forall|other: int| other != at implies !is_compressed_at(
                    text@,
                    other,
                ) by {
                    if 0 <= other && other + 2 <= n && text@[other] == ':' && text@[other + 1]
                        == ':' {
                        assert(other > at);
                        let front = text@.subrange(0, other);
                        if other == at + 1 {
                            assert(front.last() == ':');
                            lemma_split_trailing(front, ':');
                            lemma_empty_is_no_ipv4();
                            assert(split(front, ':').last() =~= Seq::<char>::empty());
                            lemma_empty_piece_spoils(front, split(front, ':').len() - 1);
                        } else {
                            assert(front[at as int] == ':' && front[at + 1] == ':');
                            lemma_split_doubled(front, ':', at as int);
                            let j = choose|j: int|
                                0 <= j < split(front, ':').len() - 1 && (#[trigger] split(
                                    front,
                                    ':',
                                )[j]).len() == 0;
                            lemma_empty_piece_spoils(front, j);
                        }
                    }
                }
            }
            match (head, tail) {
                (Some(h), Some(t)) => {
                    let fits = h + t <= 7;
                    assert(fits == is_compressed_at(text@, at as int));
                    fits
                },
                _ => {
                    assert(!is_compressed_at(text@, at as int));
                    false
                },
            }
        },
    }
}

/// Tells whether `ip` is the text of an IPv4 or of an IPv6 address.
pub fn is_ip(ip: &str) -> (r: bool)
    ensures
        r == is_ip_text(ip@),
{
    let text = chars_of(ip);
    assert(text@.subrange(0, text.len() as int) =~= text@);
    ipv4_at(&text, 0, text.len()) || ipv6_text(&text)
}

/// The text of an IPv4 or IPv6 address: a value of this type never holds
/// anything else.
#[derive(Debug, PartialEq, Eq)]
pub struct IpAddress {
    text: String,
}

impl View for IpAddress {
    type V = Seq<char>;

    closed spec fn view(&self) -> Seq<char> {
        self.text@
    }
}

impl IpAddress {
    #[verifier::type_invariant]
    spec fn well_formed(&self) -> bool {
        is_ip_text(self.text@)
    }

    /// Accepts `text` where it is the text of an address, and nothing else.
    pub fn parse(text: &str) -> (r: Option<IpAddress>)
        ensures
            r is Some <==> is_ip_text(text@),
            r matches Some(address) ==> address@ == text@,
    {
        if is_ip(text) {
            Some(IpAddress { text: String::from_str(text) })
        } else {
            None
        }
    }

    /// The address as text.
    pub fn as_str(&self) -> (r: &str)
        ensures
            r@ == self@,
            is_ip_text(r@),
    {
        proof {
            use_type_invariant(self);
        }
        self.text.as_str()
    }

    /// Another value that holds the same address.
    pub fn duplicate(&self) -> (r: IpAddress)
        ensures
            r@ == self@,
    {
        proof {
            use_type_invariant(self);
        }
        IpAddress { text: self.text.clone() }
    }

    /// Tells whether the two are written alike, character by character.
    pub fn same_as(&self, other: &IpAddress) -> (r: bool)
        ensures
            r == (self@ == other@),
    {
        same_text(self.text.as_str(), other.text.as_str())
    }
}

} // verus!
