//! Searching in sequences of characters.

use vstd::prelude::*;

verus! {

/// `needle` stands in `hay` at index `at`.
pub open spec fn occurs_at(hay: Seq<char>, needle: Seq<char>, at: int) -> bool {
    &&& 0 <= at
    &&& at + needle.len() <= hay.len()
    &&& hay.subrange(at, at + needle.len()) == needle
}

/// `needle` stands somewhere in `hay`.
pub open spec fn contains(hay: Seq<char>, needle: Seq<char>) -> bool {
    exists|at: int| occurs_at(hay, needle, at)
}

/// `at` is the least index at which `needle` stands in `hay`.
pub open spec fn is_first_occurrence(hay: Seq<char>, needle: Seq<char>, at: int) -> bool {
    &&& occurs_at(hay, needle, at)
    &&& forall|earlier: int| 0 <= earlier < at ==> !occurs_at(hay, needle, earlier)
}

/// The least index at which `needle` stands in `hay`, if it stands there at all.
pub open spec fn first_occurrence(hay: Seq<char>, needle: Seq<char>) -> Option<int> {
    if exists|at: int| is_first_occurrence(hay, needle, at) {
        Some(choose|at: int| is_first_occurrence(hay, needle, at))
    } else {
        None
    }
}

/// A character with the Unicode property `White_Space`.
pub open spec fn is_whitespace(c: char) -> bool {
    let n = c as u32;
    ||| 0x09 <= n <= 0x0d
    ||| n == 0x20
    ||| n == 0x85
    ||| n == 0xa0
    ||| n == 0x1680
    ||| 0x2000 <= n <= 0x200a
    ||| n == 0x2028
    ||| n == 0x2029
    ||| n == 0x202f
    ||| n == 0x205f
    ||| n == 0x3000
}

/// `line` has a character at index `at`, and it is not whitespace.
pub open spec fn holds_plain(line: Seq<char>, at: int) -> bool {
    0 <= at < line.len() && !is_whitespace(line[at])
}

/// `end` is where the run of characters that are not whitespace and that
/// begins at `from` ends: at the first whitespace character at or after
/// `from`, or at the end of `line` when none follows. A run that begins
/// beyond the end of `line` is empty.
pub open spec fn is_token_end(line: Seq<char>, from: int, end: int) -> bool {
    &&& from <= end
    &&& forall|k: int| from <= k < end ==> #[trigger] holds_plain(line, k)
    &&& end < line.len() ==> is_whitespace(line[end])
}

/// The index that `is_token_end` describes.
pub open spec fn token_end(line: Seq<char>, from: int) -> int {
    choose|end: int| is_token_end(line, from, end)
}

/// There is only one first occurrence, and `first_occurrence` names it.
pub proof fn lemma_first_occurrence_is(hay: Seq<char>, needle: Seq<char>, at: int)
    requires
        is_first_occurrence(hay, needle, at),
    ensures
        first_occurrence(hay, needle) == Some(at),
{
    let chosen = choose|i: int| is_first_occurrence(hay, needle, i);
    assert(is_first_occurrence(hay, needle, chosen));
    if chosen < at {
        assert(!occurs_at(hay, needle, chosen));
    }
    if at < chosen {
        assert(!occurs_at(hay, needle, at));
    }
}

/// Where `needle` stands nowhere in `hay`, there is no first occurrence.
pub proof fn lemma_first_occurrence_none(hay: Seq<char>, needle: Seq<char>)
    requires
        !contains(hay, needle),
    ensures
        first_occurrence(hay, needle) is None,
{
    assert forall|at: int| !is_first_occurrence(hay, needle, at) by {
        if is_first_occurrence(hay, needle, at) {
            assert(occurs_at(hay, needle, at));
        }
    }
}

/// There is only one token end, and `token_end` names it.
pub proof fn lemma_token_end_is(line: Seq<char>, from: int, end: int)
    requires
        0 <= from,
        is_token_end(line, from, end),
    ensures
        token_end(line, from) == end,
{
    let chosen = choose|e: int| is_token_end(line, from, e);
    assert(is_token_end(line, from, chosen));
    if chosen < end {
        assert(holds_plain(line, chosen));
    }
    if end < chosen {
        assert(holds_plain(line, end));
    }
}

/// The characters of `s`, in order.
pub fn chars_of(s: &str) -> (v: Vec<char>)
    ensures
        v@ == s@,
{
    let mut v: Vec<char> = Vec::new();
    for c in it: s.chars()
        invariant
            it.seq() == s@,
            v@ == it.seq().take(it.index() as int),
    {
        v.push(c);
    }
    v
}

/// Whether `c` is a whitespace character.
pub fn char_is_whitespace(c: char) -> (b: bool)
    ensures
        b == is_whitespace(c),
{
    let n: u32 = c as u32;
    (0x09 <= n && n <= 0x0d) || n == 0x20 || n == 0x85 || n == 0xa0 || n == 0x1680 || (0x2000 <= n
        && n <= 0x200a) || n == 0x2028 || n == 0x2029 || n == 0x202f || n == 0x205f || n == 0x3000
}

/// Whether `needle` stands in `hay` at index `at`.
pub fn stands_at(hay: &[char], needle: &[char], at: usize) -> (b: bool)
    ensures
        b == occurs_at(hay@, needle@, at as int),
{
    if needle.len() > hay.len() || at > hay.len() - needle.len() {
        return false;
    }
    let mut k: usize = 0;
    while k < needle.len()
        invariant
            k <= needle.len(),
            at + needle.len() <= hay.len(),
            forall|j: int| 0 <= j < k ==> hay@[at + j] == needle@[j],
        decreases needle.len() - k,
    {
        if hay[at + k] != needle[k] {
            assert(hay@.subrange(at as int, at + needle.len())[k as int] != needle@[k as int]);
            return false;
        }
        k += 1;
    }
    assert(hay@.subrange(at as int, at + needle.len()) =~= needle@);
    true
}

/// The least index at which `needle` stands in `hay`.
pub fn find(hay: &[char], needle: &[char]) -> (r: Option<usize>)
    ensures
        r is Some <==> contains(hay@, needle@),
        match r {
            Some(at) => first_occurrence(hay@, needle@) == Some(at as int),
            None => first_occurrence(hay@, needle@) is None,
        },
{
    if needle.len() > hay.len() {
        proof {
            lemma_first_occurrence_none(hay@, needle@);
        }
        return None;
    }
    let last: usize = hay.len() - needle.len();
    let mut at: usize = 0;
    loop
        invariant
            at <= last,
            last == hay.len() - needle.len(),
            forall|earlier: int| 0 <= earlier < at ==> !occurs_at(hay@, needle@, earlier),
        decreases last - at,
    {
        if stands_at(hay, needle, at) {
            proof {
                lemma_first_occurrence_is(hay@, needle@, at as int);
            }
            return Some(at);
        }
        if at == last {
            proof {
                lemma_first_occurrence_none(hay@, needle@);
            }
            return None;
        }
        at += 1;
    }
}

/// Whether `needle` stands somewhere in `hay`.
pub fn has(hay: &[char], needle: &[char]) -> (b: bool)
    ensures
        b == contains(hay@, needle@),
{
    find(hay, needle).is_some()
}

/// Where the run of characters that are not whitespace and that begins at
/// `from` ends.
pub fn find_token_end(line: &[char], from: usize) -> (end: usize)
    ensures
        end == token_end(line@, from as int),
        is_token_end(line@, from as int, end as int),
        from <= end,
        from <= line.len() ==> end <= line.len(),
{
    let mut end: usize = from;
    while end < line.len()
        invariant
            from <= end,
            from <= line.len() ==> end <= line.len(),
            forall|k: int| from <= k < end ==> #[trigger] holds_plain(line@, k),
        decreases line.len() - end,
    {
        if char_is_whitespace(line[end]) {
            proof {
                lemma_token_end_is(line@, from as int, end as int);
            }
            return end;
        }
        end += 1;
    }
    proof {
        lemma_token_end_is(line@, from as int, end as int);
    }
    end
}

} // verus!
