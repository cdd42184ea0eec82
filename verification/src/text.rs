//! Text as sequences of characters: the predicates that the contracts of this crate are
//! written with, and the executable operations that compute them.

use vstd::prelude::*;
use vstd::string::*;

verus! {

/// `s` ends with `suffix`.
pub open spec fn ends_with(s: Seq<char>, suffix: Seq<char>) -> bool {
    suffix.len() <= s.len() && s.subrange(s.len() - suffix.len(), s.len() as int) == suffix
}

/// `s` begins with `prefix`.
pub open spec fn starts_with(s: Seq<char>, prefix: Seq<char>) -> bool {
    prefix.len() <= s.len() && s.subrange(0, prefix.len() as int) == prefix
}

/// `needle` occurs in `s` at position `at`.
pub open spec fn occurs_at(s: Seq<char>, needle: Seq<char>, at: int) -> bool {
    0 <= at && at + needle.len() <= s.len() && s.subrange(at, at + needle.len()) == needle
}

/// `needle` occurs somewhere in `s`. The empty text occurs in every text.
pub open spec fn contains(s: Seq<char>, needle: Seq<char>) -> bool {
    exists|at: int| occurs_at(s, needle, at)
}

/// `s` without `suffix` at its end, when it ends with it; `s` itself otherwise. The suffix
/// is taken off once.
pub open spec fn strip_suffix(s: Seq<char>, suffix: Seq<char>) -> Seq<char> {
    if ends_with(s, suffix) {
        s.subrange(0, s.len() - suffix.len())
    } else {
        s
    }
}

/// No character of `s` is `c`.
pub open spec fn free_of(s: Seq<char>, c: char) -> bool {
    forall|i: int| 0 <= i < s.len() ==> s[i] != c
}

/// `start` is where the last segment of `s` begins when `s` is cut at every `sep`: no
/// `sep` follows it, and it is either the beginning of `s` or the place just after a `sep`.
pub open spec fn is_last_segment_start(s: Seq<char>, sep: char, start: int) -> bool {
    &&& 0 <= start <= s.len()
    &&& start > 0 ==> s[start - 1] == sep
    &&& forall|j: int| start <= j < s.len() ==> s[j] != sep
}

/// Where the last segment of `s` begins.
pub open spec fn last_segment_start(s: Seq<char>, sep: char) -> int {
    choose|start: int| is_last_segment_start(s, sep, start)
}

/// What follows the last `sep` in `s`; all of `s` when it holds no `sep`.
pub open spec fn last_segment(s: Seq<char>, sep: char) -> Seq<char> {
    s.subrange(last_segment_start(s, sep), s.len() as int)
}

/// The texts of the strings, one for one.
pub open spec fn texts(lines: Seq<String>) -> Seq<Seq<char>> {
    lines.map_values(|line: String| line@)
}

/// The decimal digit that stands for `d`, for `d` below ten.
pub open spec fn digit_char(d: nat) -> char {
    if d == 0 {
        '0'
    } else if d == 1 {
        '1'
    } else if d == 2 {
        '2'
    } else if d == 3 {
        '3'
    } else if d == 4 {
        '4'
    } else if d == 5 {
        '5'
    } else if d == 6 {
        '6'
    } else if d == 7 {
        '7'
    } else if d == 8 {
        '8'
    } else {
        '9'
    }
}

/// `n` written in decimal, without sign and without leading zeros.
pub open spec fn decimal(n: nat) -> Seq<char>
    decreases n,
{
    if n < 10 {
        seq![digit_char(n)]
    } else {
        decimal(n / 10).push(digit_char(n % 10))
    }
}

/// Every text has exactly one place where its last segment begins.
pub proof fn lemma_last_segment_start(s: Seq<char>, sep: char)
    ensures
        is_last_segment_start(s, sep, last_segment_start(s, sep)),
        forall|start: int|
            is_last_segment_start(s, sep, start) ==> start == last_segment_start(s, sep),
{
    let found = find_last_segment_start(s, sep, s.len() as int);
    assert forall|start: int| is_last_segment_start(s, sep, start) implies start
        == last_segment_start(s, sep) by {
        lemma_last_segment_start_unique(s, sep, start, last_segment_start(s, sep));
    }
}

/// Two places that both qualify as the start of the last segment are the same place.
pub proof fn lemma_last_segment_start_unique(s: Seq<char>, sep: char, a: int, b: int)
    requires
        is_last_segment_start(s, sep, a),
        is_last_segment_start(s, sep, b),
    ensures
        a == b,
{
}

/// The last segment holds no separator, and a text without separator is its own last
/// segment.
pub proof fn lemma_last_segment_free(s: Seq<char>, sep: char)
    ensures
        free_of(last_segment(s, sep), sep),
        free_of(s, sep) ==> last_segment(s, sep) == s,
{
    lemma_last_segment_start(s, sep);
}

/// After `head`, a separator and a `tail` free of separators, the last segment is `tail`.
pub proof fn lemma_last_segment_of_joined(head: Seq<char>, sep: char, tail: Seq<char>)
    requires
        free_of(tail, sep),
    ensures
        last_segment(head.push(sep) + tail, sep) == tail,
{
    let s = head.push(sep) + tail;
    let start: int = head.len() as int + 1;
    assert(s[start - 1] == sep);
    assert forall|j: int| start <= j < s.len() implies s[j] != sep by {
    }
    lemma_last_segment_start(s, sep);
}

/// Walks back from `upto` to the place where the last segment of the first `upto`
/// characters begins.
proof fn find_last_segment_start(s: Seq<char>, sep: char, upto: int) -> (start: int)
    requires
        0 <= upto <= s.len(),
        forall|j: int| upto <= j < s.len() ==> s[j] != sep,
    ensures
        is_last_segment_start(s, sep, start),
    decreases upto,
{
    if upto == 0 || s[upto - 1] == sep {
        upto
    } else {
        find_last_segment_start(s, sep, upto - 1)
    }
}

/// The characters of `s`, in order.
pub fn chars_of(s: &str) -> (v: Vec<char>)
    ensures
        v@ == s@,
{
    let mut v: Vec<char> = Vec::new();
    let it = s.chars();
    for c in iter: it
        invariant
            v@ == iter.seq().take(iter.index() as int),
            iter.seq() == s@,
    {
        v.push(c);
    }
    v
}

/// Whether the characters of `s` from `from` on begin with `part`.
pub fn matches_at(s: &Vec<char>, from: usize, part: &Vec<char>) -> (found: bool)
    ensures
        found == occurs_at(s@, part@, from as int),
{
    if from > s.len() || part.len() > s.len() - from {
        return false;
    }
    let mut i: usize = 0;
    while i < part.len()
        invariant
            from + part.len() <= s.len(),
            i <= part.len(),
            forall|k: int| 0 <= k < i ==> s@[from + k] == part@[k],
        decreases part.len() - i,
    {
        if s[from + i] != part[i] {
            return false;
        }
        i += 1;
    }
    assert(s@.subrange(from as int, from + part.len()) =~= part@);
    true
}

/// Whether `part` occurs somewhere in `s`.
pub fn contains_chars(s: &Vec<char>, part: &Vec<char>) -> (found: bool)
    ensures
        found == contains(s@, part@),
{
    if part.len() > s.len() {
        return false;
    }
    let last: usize = s.len() - part.len();
    let mut at: usize = 0;
    loop
        invariant
            last == s.len() - part.len(),
            at <= last,
            forall|k: int| 0 <= k < at ==> !occurs_at(s@, part@, k),
        decreases last - at,
    {
        if matches_at(s, at, part) {
            return true;
        }
        if at == last {
            return false;
        }
        at += 1;
    }
}

/// Whether `needle` occurs somewhere in `s`.
pub fn str_contains(s: &str, needle: &str) -> (found: bool)
    ensures
        found == contains(s@, needle@),
{
    let hay = chars_of(s);
    let part = chars_of(needle);
    contains_chars(&hay, &part)
}

/// Whether the first `end` characters of `s` end with `suffix`.
pub(crate) fn ends_with_chars(s: &Vec<char>, end: usize, suffix: &Vec<char>) -> (found: bool)
    requires
        end <= s.len(),
    ensures
        found == ends_with(s@.subrange(0, end as int), suffix@),
{
    if suffix.len() > end {
        return false;
    }
    let from: usize = end - suffix.len();
    let found = matches_at(s, from, suffix);
    assert(s@.subrange(0, end as int).subrange(from as int, end as int) =~= s@.subrange(
        from as int,
        from + suffix.len(),
    ));
    found
}

/// Where the last segment of the characters `from..to` of `s` begins, counted in `s`.
pub(crate) fn last_segment_from(s: &Vec<char>, from: usize, to: usize, sep: char) -> (start: usize)
    requires
        from <= to <= s.len(),
    ensures
        from <= start <= to,
        start - from == last_segment_start(s@.subrange(from as int, to as int), sep),
{
    let mut start: usize = to;
    while start > from && s[start - 1] != sep
        invariant
            from <= start <= to <= s.len(),
            forall|j: int| start <= j < to ==> s@[j] != sep,
        decreases start,
    {
        start -= 1;
    }
    proof {
        let part = s@.subrange(from as int, to as int);
        assert(is_last_segment_start(part, sep, start - from));
        lemma_last_segment_start(part, sep);
    }
    start
}

/// `a` followed by `b`.
pub fn chain(a: &str, b: &str) -> (joined: String)
    ensures
        joined@ == a@ + b@,
{
    let mut joined = a.to_owned();
    joined.append(b);
    joined
}

/// `n` in decimal.
pub fn decimal_string(n: usize) -> (text: String)
    ensures
        text@ == decimal(n as nat),
    decreases n,
{
    let digit: &str = match n % 10 {
        0 => "0",
        1 => "1",
        2 => "2",
        3 => "3",
        4 => "4",
        5 => "5",
        6 => "6",
        7 => "7",
        8 => "8",
        _ => "9",
    };
    proof {
        reveal_strlit("0");
        reveal_strlit("1");
        reveal_strlit("2");
        reveal_strlit("3");
        reveal_strlit("4");
        reveal_strlit("5");
        reveal_strlit("6");
        reveal_strlit("7");
        reveal_strlit("8");
        reveal_strlit("9");
    }
    if n < 10 {
        digit.to_owned()
    } else {
        let mut text = decimal_string(n / 10);
        text.append(digit);
        text
    }
}

} // verus!
