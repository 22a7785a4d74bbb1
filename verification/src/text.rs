//! Text scanning, stated over sequences of characters.

use vstd::prelude::*;

verus! {

/// The characters with the Unicode property `White_Space`.
pub open spec fn is_white_space(c: char) -> bool {
    let n = c as u32;
    ||| 0x9 <= n <= 0xd
    ||| n == 0x20
    ||| n == 0x85
    ||| n == 0xa0
    ||| n == 0x1680
    ||| 0x2000 <= n <= 0x200a
    ||| 0x2028 <= n <= 0x2029
    ||| n == 0x202f
    ||| n == 0x205f
    ||| n == 0x3000
}

/// `s` without its leading white space.
pub open spec fn trim_start_spec(s: Seq<char>) -> Seq<char>
    decreases s.len(),
{
    if s.len() > 0 && is_white_space(s[0]) {
        trim_start_spec(s.drop_first())
    } else {
        s
    }
}

/// `s` without its trailing white space.
pub open spec fn trim_end_spec(s: Seq<char>) -> Seq<char>
    decreases s.len(),
{
    if s.len() > 0 && is_white_space(s.last()) {
        trim_end_spec(s.drop_last())
    } else {
        s
    }
}

/// `s` without the white space on either side.
pub open spec fn trim_spec(s: Seq<char>) -> Seq<char> {
    trim_end_spec(trim_start_spec(s))
}

/// `s` without the copies of `c` at its end.
pub open spec fn trim_end_matches_spec(s: Seq<char>, c: char) -> Seq<char>
    decreases s.len(),
{
    if s.len() > 0 && s.last() == c {
        trim_end_matches_spec(s.drop_last(), c)
    } else {
        s
    }
}

/// `pattern` stands in `s` from position `i` on.
pub open spec fn occurs_at(s: Seq<char>, pattern: Seq<char>, i: int) -> bool {
    &&& 0 <= i
    &&& i + pattern.len() <= s.len()
    &&& s.subrange(i, i + pattern.len()) == pattern
}

/// `pattern` stands somewhere in `s`.
pub open spec fn contains_spec(s: Seq<char>, pattern: Seq<char>) -> bool {
    exists|i: int| occurs_at(s, pattern, i)
}

/// `s` begins with `prefix`.
pub open spec fn starts_with_spec(s: Seq<char>, prefix: Seq<char>) -> bool {
    occurs_at(s, prefix, 0)
}

/// Position `i` is the leftmost at which `pattern` stands in `s`.
pub open spec fn occurs_first_at(s: Seq<char>, pattern: Seq<char>, i: int) -> bool {
    &&& occurs_at(s, pattern, i)
    &&& forall|j: int| occurs_at(s, pattern, j) ==> i <= j
}

/// What stands before and after the leftmost `pattern` in `s`.
pub open spec fn split_once_spec(s: Seq<char>, pattern: Seq<char>) -> Option<
    (Seq<char>, Seq<char>),
> {
    if contains_spec(s, pattern) {
        let i = choose|i: int| occurs_first_at(s, pattern, i);
        Some((s.take(i), s.skip(i + pattern.len())))
    } else {
        None
    }
}

/// The second of the pieces into which the copies of `pattern`, taken from the left, cut `s`.
pub open spec fn second_piece_spec(s: Seq<char>, pattern: Seq<char>) -> Option<Seq<char>> {
    match split_once_spec(s, pattern) {
        None => None,
        Some((_, rest)) => match split_once_spec(rest, pattern) {
            None => Some(rest),
            Some((piece, _)) => Some(piece),
        },
    }
}

/// The texts in order, with `separator` between each and the next.
pub open spec fn joined(texts: Seq<Seq<char>>, separator: Seq<char>) -> Seq<char>
    decreases texts.len(),
{
    if texts.len() == 0 {
        Seq::empty()
    } else if texts.len() == 1 {
        texts.first()
    } else {
        joined(texts.drop_last(), separator) + separator + texts.last()
    }
}

/// The characters of each string of a list.
pub open spec fn texts(strings: Seq<String>) -> Seq<Seq<char>> {
    strings.map_values(|s: String| s@)
}

/// The characters of an optional string.
pub open spec fn text_of(string: Option<String>) -> Option<Seq<char>> {
    match string {
        Some(s) => Some(s@),
        None => None,
    }
}

/// There is only one leftmost position.
pub proof fn lemma_split_at_first(s: Seq<char>, pattern: Seq<char>, i: int)
    requires
        occurs_first_at(s, pattern, i),
    ensures
        split_once_spec(s, pattern) == Some((s.take(i), s.skip(i + pattern.len()))),
{
    let k = choose|k: int| occurs_first_at(s, pattern, k);
    assert(occurs_first_at(s, pattern, k));
    assert(k == i);
}

/// What is left of a text at its end is a first part of it with no white space at its end.
pub proof fn lemma_trim_end(s: Seq<char>)
    ensures
        trim_end_spec(s).len() <= s.len(),
        trim_end_spec(s) == s.take(trim_end_spec(s).len() as int),
        trim_end_spec(s).len() > 0 ==> !is_white_space(trim_end_spec(s).last()),
    decreases s.len(),
{
    if s.len() > 0 && is_white_space(s.last()) {
        lemma_trim_end(s.drop_last());
        let kept = trim_end_spec(s.drop_last());
        assert(s.drop_last().take(kept.len() as int) == s.take(kept.len() as int));
    } else {
        assert(s.take(s.len() as int) == s);
    }
}

/// What is left of a text at its start has no white space there.
pub proof fn lemma_trim_start(s: Seq<char>)
    ensures
        trim_start_spec(s).len() > 0 ==> !is_white_space(trim_start_spec(s)[0]),
    decreases s.len(),
{
    if s.len() > 0 && is_white_space(s[0]) {
        lemma_trim_start(s.drop_first());
    }
}

/// `s` is not empty and has no white space around it.
pub open spec fn is_tidy(s: Seq<char>) -> bool {
    &&& s.len() > 0
    &&& !is_white_space(s[0])
    &&& !is_white_space(s.last())
}

/// What is left of a text has no white space around it.
pub proof fn trimmed_text_is_tidy(s: Seq<char>)
    ensures
        trim_spec(s).len() == 0 || is_tidy(trim_spec(s)),
{
    lemma_trim_start(s);
    lemma_trim_end(trim_start_spec(s));
}

/// To trim twice is to trim once.
pub proof fn trimming_twice_is_trimming_once(s: Seq<char>)
    ensures
        trim_spec(trim_spec(s)) == trim_spec(s),
{
    trimmed_text_is_tidy(s);
}

/// Whether `c` is white space.
pub fn char_is_white_space(c: char) -> (yes: bool)
    ensures
        yes == is_white_space(c),
{
    let n: u32 = c as u32;
    (0x9 <= n && n <= 0xd) || n == 0x20 || n == 0x85 || n == 0xa0 || n == 0x1680 || (0x2000 <= n
        && n <= 0x200a) || (0x2028 <= n && n <= 0x2029) || n == 0x202f || n == 0x205f || n == 0x3000
}

/// The characters of `s`.
pub fn chars_of(s: &str) -> (chars: Vec<char>)
    ensures
        chars@ == s@,
{
    let mut chars: Vec<char> = Vec::new();
    for c in it: s.chars()
        invariant
            it.seq() == s@,
            chars@ == s@.take(it.index() as int),
    {
        chars.push(c);
        assert(s@.take(it.index() + 1) == s@.take(it.index() as int).push(c));
    }
    assert(s@.take(s@.len() as int) == s@);
    chars
}

/// `s` without the white space at its end.
pub fn trim_end(s: &str) -> (kept: &str)
    ensures
        kept@ == trim_end_spec(s@),
{
    let chars = chars_of(s);
    let mut end: usize = chars.len();
    assert(s@.take(end as int) == s@);
    while end > 0 && char_is_white_space(chars[end - 1])
        invariant
            end <= chars@.len(),
            chars@ == s@,
            trim_end_spec(s@) == trim_end_spec(s@.take(end as int)),
        decreases end,
    {
        assert(s@.take(end as int).drop_last() == s@.take(end - 1));
        end = end - 1;
    }
    s.substring_char(0, end)
}

/// `s` without the white space on either side.
pub fn trim(s: &str) -> (kept: &str)
    ensures
        kept@ == trim_spec(s@),
{
    let chars = chars_of(s);
    let len: usize = chars.len();
    let mut start: usize = 0;
    assert(s@.skip(0) == s@);
    while start < len && char_is_white_space(chars[start])
        invariant
            start <= len,
            len == chars@.len(),
            chars@ == s@,
            trim_start_spec(s@) == trim_start_spec(s@.skip(start as int)),
        decreases len - start,
    {
        assert(s@.skip(start as int).drop_first() == s@.skip(start + 1));
        start = start + 1;
    }
    assert(s@.skip(start as int) == s@.subrange(start as int, len as int));
    trim_end(s.substring_char(start, len))
}

/// `s` without the copies of `c` at its end.
pub fn trim_end_matches(s: &str, c: char) -> (kept: &str)
    ensures
        kept@ == trim_end_matches_spec(s@, c),
{
    let chars = chars_of(s);
    let mut end: usize = chars.len();
    assert(s@.take(end as int) == s@);
    while end > 0 && chars[end - 1] == c
        invariant
            end <= chars@.len(),
            chars@ == s@,
            trim_end_matches_spec(s@, c) == trim_end_matches_spec(s@.take(end as int), c),
        decreases end,
    {
        assert(s@.take(end as int).drop_last() == s@.take(end - 1));
        end = end - 1;
    }
    s.substring_char(0, end)
}

/// Whether `pattern` stands in `chars` from position `i` on.
fn stands_at(chars: &Vec<char>, pattern: &Vec<char>, i: usize) -> (yes: bool)
    requires
        i + pattern@.len() <= chars@.len(),
    ensures
        yes == occurs_at(chars@, pattern@, i as int),
{
    let len: usize = chars.len();
    let mut k: usize = 0;
    while k < pattern.len()
        invariant
            k <= pattern@.len(),
            len == chars@.len(),
            i + pattern@.len() <= chars@.len(),
            chars@.subrange(i as int, i + k) == pattern@.take(k as int),
        decreases pattern@.len() - k,
    {
        if chars[i + k] != pattern[k] {
            assert(chars@.subrange(i as int, i + pattern@.len())[k as int] != pattern@[k as int]);
            return false;
        }
        assert(chars@.subrange(i as int, i + k + 1) == chars@.subrange(i as int, i + k).push(
            chars@[i + k],
        ));
        assert(pattern@.take(k + 1) == pattern@.take(k as int).push(pattern@[k as int]));
        k = k + 1;
    }
    assert(pattern@.take(k as int) == pattern@);
    true
}

/// The leftmost position at which `pattern` stands in `chars`.
fn find(chars: &Vec<char>, pattern: &Vec<char>) -> (position: Option<usize>)
    ensures
        match position {
            Some(i) => occurs_first_at(chars@, pattern@, i as int),
            None => !contains_spec(chars@, pattern@),
        },
{
    if pattern.len() > chars.len() {
        return None;
    }
    let last: usize = chars.len() - pattern.len();
    let mut i: usize = 0;
    while i <= last
        invariant
            i <= last + 1,
            last + pattern@.len() == chars@.len(),
            forall|j: int| occurs_at(chars@, pattern@, j) ==> i <= j,
        decreases last + 1 - i,
    {
        if stands_at(chars, pattern, i) {
            return Some(i);
        }
        if i == last {
            return None;
        }
        i = i + 1;
    }
    None
}

/// Whether `pattern` stands somewhere in `s`.
pub fn contains(s: &str, pattern: &str) -> (yes: bool)
    ensures
        yes == contains_spec(s@, pattern@),
{
    let found = find(&chars_of(s), &chars_of(pattern));
    match found {
        Some(i) => {
            assert(occurs_at(s@, pattern@, i as int));
            true
        },
        None => false,
    }
}

/// Whether `s` begins with `prefix`.
pub fn starts_with(s: &str, prefix: &str) -> (yes: bool)
    ensures
        yes == starts_with_spec(s@, prefix@),
{
    let chars = chars_of(s);
    let pattern = chars_of(prefix);
    pattern.len() <= chars.len() && stands_at(&chars, &pattern, 0)
}

/// What stands before and after the leftmost `pattern` in `s`.
pub fn split_once<'a>(s: &'a str, pattern: &str) -> (parts: Option<(&'a str, &'a str)>)
    ensures
        match parts {
            Some((before, after)) => split_once_spec(s@, pattern@) == Some((before@, after@)),
            None => split_once_spec(s@, pattern@) is None,
        },
{
    let chars = chars_of(s);
    let sought = chars_of(pattern);
    let len: usize = chars.len();
    match find(&chars, &sought) {
        Some(i) => {
            proof {
                lemma_split_at_first(s@, pattern@, i as int);
                assert(s@.take(i as int) == s@.subrange(0, i as int));
                assert(s@.skip(i + pattern@.len()) == s@.subrange(
                    i + pattern@.len(),
                    s@.len() as int,
                ));
            }
            Some((s.substring_char(0, i), s.substring_char(i + sought.len(), len)))
        },
        None => None,
    }
}

/// The second of the pieces into which the copies of `pattern`, taken from the left, cut `s`.
pub fn second_piece<'a>(s: &'a str, pattern: &str) -> (piece: Option<&'a str>)
    ensures
        match piece {
            Some(p) => second_piece_spec(s@, pattern@) == Some(p@),
            None => second_piece_spec(s@, pattern@) is None,
        },
{
    match split_once(s, pattern) {
        None => None,
        Some((_, rest)) => match split_once(rest, pattern) {
            None => Some(rest),
            Some((piece, _)) => Some(piece),
        },
    }
}

/// Whether two texts hold the same characters.
pub fn same_text(a: &str, b: &str) -> (same: bool)
    ensures
        same == (a@ == b@),
{
    let left = chars_of(a);
    let right = chars_of(b);
    if left.len() != right.len() {
        return false;
    }
    let same = stands_at(&left, &right, 0);
    assert(a@.subrange(0, a@.len() as int) == a@);
    same
}

/// Whether two optional texts are both there with the same characters, or both missing.
pub fn same_optional_text(a: &Option<String>, b: &Option<String>) -> (same: bool)
    ensures
        same == (text_of(*a) == text_of(*b)),
{
    match (a, b) {
        (Some(left), Some(right)) => same_text(left.as_str(), right.as_str()),
        (None, None) => true,
        _ => false,
    }
}

/// Whether two lists hold the same texts in the same order.
pub fn same_texts(a: &Vec<String>, b: &Vec<String>) -> (same: bool)
    ensures
        same == (texts(a@) == texts(b@)),
{
    if a.len() != b.len() {
        assert(texts(a@).len() != texts(b@).len());
        return false;
    }
    let mut i: usize = 0;
    while i < a.len()
        invariant
            i <= a@.len(),
            a@.len() == b@.len(),
            forall|j: int| 0 <= j < i ==> #[trigger] texts(a@)[j] == texts(b@)[j],
        decreases a@.len() - i,
    {
        if !same_text(a[i].as_str(), b[i].as_str()) {
            assert(texts(a@)[i as int] != texts(b@)[i as int]);
            return false;
        }
        i = i + 1;
    }
    assert(texts(a@) =~= texts(b@));
    true
}

/// A copy of each string, in order.
pub fn copy_strings(strings: &Vec<String>) -> (copies: Vec<String>)
    ensures
        texts(copies@) == texts(strings@),
{
    let mut copies: Vec<String> = Vec::new();
    let mut i: usize = 0;
    while i < strings.len()
        invariant
            i <= strings@.len(),
            texts(copies@) == texts(strings@).take(i as int),
        decreases strings@.len() - i,
    {
        copies.push(strings[i].clone());
        assert(texts(strings@).take(i + 1) == texts(strings@).take(i as int).push(
            strings@[i as int]@,
        ));
        assert(texts(copies@) == texts(strings@).take(i + 1));
        i = i + 1;
    }
    assert(texts(strings@).take(i as int) == texts(strings@));
    copies
}

/// The strings in order, with `separator` between each and the next.
pub fn join(strings: &Vec<String>, separator: &str) -> (whole: String)
    ensures
        whole@ == joined(texts(strings@), separator@),
{
    let mut whole = String::new();
    let mut i: usize = 0;
    assert(texts(strings@).take(0) == Seq::<Seq<char>>::empty());
    while i < strings.len()
        invariant
            i <= strings@.len(),
            whole@ == joined(texts(strings@).take(i as int), separator@),
        decreases strings@.len() - i,
    {
        let ghost before = texts(strings@).take(i as int);
        let ghost after = texts(strings@).take(i + 1);
        if i > 0 {
            whole.append(separator);
        }
        whole.append(strings[i].as_str());
        assert(after.drop_last() == before);
        assert(after.last() == strings@[i as int]@);
        i = i + 1;
    }
    assert(texts(strings@).take(i as int) == texts(strings@));
    whole
}

/// `s` holds nothing but white space.
pub open spec fn all_white(s: Seq<char>) -> bool {
    forall|i: int| 0 <= i < s.len() ==> is_white_space(#[trigger] s[i])
}

/// `s` holds nothing but copies of `c`.
pub open spec fn all_are(s: Seq<char>, c: char) -> bool {
    forall|i: int| 0 <= i < s.len() ==> #[trigger] s[i] == c
}

/// `c` does not stand in `s`.
pub open spec fn holds_no(s: Seq<char>, c: char) -> bool {
    forall|i: int| 0 <= i < s.len() ==> #[trigger] s[i] != c
}

/// Trimming at the end undoes the adding of white space there, and takes nothing else.
pub proof fn trim_end_undoes_white_space(kept: Seq<char>, tail: Seq<char>)
    requires
        all_white(tail),
        kept.len() == 0 || !is_white_space(kept.last()),
    ensures
        trim_end_spec(kept + tail) == kept,
    decreases tail.len(),
{
    if tail.len() == 0 {
        assert(kept + tail == kept);
    } else {
        assert((kept + tail).last() == tail[tail.len() - 1]);
        assert((kept + tail).drop_last() == kept + tail.drop_last());
        trim_end_undoes_white_space(kept, tail.drop_last());
    }
}

/// Trimming at the start undoes the adding of white space there, and takes nothing else.
pub proof fn trim_start_undoes_white_space(lead: Seq<char>, kept: Seq<char>)
    requires
        all_white(lead),
        kept.len() == 0 || !is_white_space(kept[0]),
    ensures
        trim_start_spec(lead + kept) == kept,
    decreases lead.len(),
{
    if lead.len() == 0 {
        assert(lead + kept == kept);
    } else {
        assert((lead + kept)[0] == lead[0]);
        assert((lead + kept).drop_first() == lead.drop_first() + kept);
        trim_start_undoes_white_space(lead.drop_first(), kept);
    }
}

/// Trimming undoes the adding of white space on either side: every other character is kept.
pub proof fn trim_undoes_white_space(lead: Seq<char>, kept: Seq<char>, tail: Seq<char>)
    requires
        all_white(lead),
        all_white(tail),
        kept.len() == 0 || is_tidy(kept),
    ensures
        trim_spec(lead + kept + tail) == kept,
{
    assert(lead + kept + tail == lead + (kept + tail));
    if kept.len() == 0 {
        assert(kept + tail == tail);
        assert(all_white(lead + tail));
        assert(lead + tail == (lead + tail) + Seq::<char>::empty());
        trim_start_undoes_white_space(lead + tail, Seq::empty());
        trim_end_undoes_white_space(Seq::empty(), Seq::empty());
        assert(Seq::<char>::empty() + Seq::<char>::empty() == Seq::<char>::empty());
    } else {
        assert((kept + tail)[0] == kept[0]);
        trim_start_undoes_white_space(lead, kept + tail);
        trim_end_undoes_white_space(kept, tail);
    }
}

/// A text is what trimming leaves of it, with nothing but white space around that.
pub proof fn trim_takes_only_white_space(s: Seq<char>) -> (sides: (Seq<char>, Seq<char>))
    ensures
        all_white(sides.0),
        all_white(sides.1),
        s == sides.0 + trim_spec(s) + sides.1,
        trim_spec(s).len() == 0 || is_tidy(trim_spec(s)),
{
    let start = first_visible(s);
    let lead = s.take(start);
    let rest = s.skip(start);
    let end = last_visible(rest);
    let kept = rest.take(end);
    let tail = rest.skip(end);
    assert(s == lead + kept + tail);
    if kept.len() > 0 {
        assert(kept[0] == rest[0]);
    }
    trim_undoes_white_space(lead, kept, tail);
    (lead, tail)
}

/// The position of the first character that is not white space, or the length.
proof fn first_visible(s: Seq<char>) -> (start: int)
    ensures
        0 <= start <= s.len(),
        all_white(s.take(start)),
        start == s.len() || !is_white_space(s.skip(start)[0]),
    decreases s.len(),
{
    if s.len() > 0 && is_white_space(s[0]) {
        let k = first_visible(s.drop_first());
        assert forall|i: int| 0 <= i < k + 1 implies is_white_space(
            #[trigger] s.take(k + 1)[i],
        ) by {
            if i > 0 {
                assert(s.drop_first().take(k)[i - 1] == s[i]);
            }
        }
        assert(s.drop_first().skip(k) == s.skip(k + 1));
        k + 1
    } else {
        assert(s.skip(0) == s);
        0
    }
}

/// The position behind the last character that is not white space, or zero.
proof fn last_visible(s: Seq<char>) -> (end: int)
    ensures
        0 <= end <= s.len(),
        all_white(s.skip(end)),
        end == 0 || !is_white_space(s.take(end).last()),
    decreases s.len(),
{
    if s.len() > 0 && is_white_space(s.last()) {
        let k = last_visible(s.drop_last());
        assert forall|i: int| 0 <= i < s.len() - k implies is_white_space(
            #[trigger] s.skip(k)[i],
        ) by {
            if i < s.len() - k - 1 {
                assert(s.drop_last().skip(k)[i] == s[k + i]);
            }
        }
        assert(s.drop_last().take(k) == s.take(k));
        k
    } else {
        s.len() as int
    }
}

/// Trimming copies of a character undoes the adding of them at the end, and takes nothing else.
pub proof fn trim_end_matches_undoes_copies(kept: Seq<char>, tail: Seq<char>, c: char)
    requires
        all_are(tail, c),
        kept.len() == 0 || kept.last() != c,
    ensures
        trim_end_matches_spec(kept + tail, c) == kept,
    decreases tail.len(),
{
    if tail.len() == 0 {
        assert(kept + tail == kept);
    } else {
        assert((kept + tail).last() == tail[tail.len() - 1]);
        assert((kept + tail).drop_last() == kept + tail.drop_last());
        trim_end_matches_undoes_copies(kept, tail.drop_last(), c);
    }
}

/// A pattern stands in a text that is built around it.
pub proof fn pattern_is_contained(before: Seq<char>, pattern: Seq<char>, after: Seq<char>)
    ensures
        contains_spec(before + pattern + after, pattern),
        starts_with_spec(pattern + after, pattern),
{
    let s = before + pattern + after;
    let k = before.len() as int;
    assert(s.subrange(k, k + pattern.len()) == pattern);
    assert(occurs_at(s, pattern, k));
    assert((pattern + after).subrange(0, pattern.len() as int) == pattern);
}

/// A text in which a pattern stands is built around it.
pub proof fn contained_pattern_is_surrounded(s: Seq<char>, pattern: Seq<char>) -> (sides: (
    Seq<char>,
    Seq<char>,
))
    requires
        contains_spec(s, pattern),
    ensures
        s == sides.0 + pattern + sides.1,
{
    let i = choose|i: int| occurs_at(s, pattern, i);
    let before = s.take(i);
    let after = s.skip(i + pattern.len());
    assert(s == before + pattern + after) by {
        assert(s == s.take(i) + s.subrange(i, i + pattern.len()) + s.skip(i + pattern.len()));
    }
    (before, after)
}

/// A text begins with a prefix exactly where it is the prefix and something behind it.
pub proof fn prefix_and_rest(s: Seq<char>, prefix: Seq<char>)
    ensures
        starts_with_spec(s, prefix) <==> s.len() >= prefix.len() && s == prefix + s.skip(
            prefix.len() as int,
        ),
{
    if s.len() >= prefix.len() {
        assert(s == s.subrange(0, prefix.len() as int) + s.skip(prefix.len() as int));
        if s == prefix + s.skip(prefix.len() as int) {
            assert((prefix + s.skip(prefix.len() as int)).subrange(0, prefix.len() as int)
                == prefix);
        }
    }
}

/// One character as a pattern stands in a text exactly where the text holds it.
pub proof fn character_is_contained(s: Seq<char>, c: char)
    ensures
        contains_spec(s, seq![c]) <==> !holds_no(s, c),
{
    if contains_spec(s, seq![c]) {
        let i = choose|i: int| occurs_at(s, seq![c], i);
        assert(s.subrange(i, i + 1)[0] == s[i]);
        assert(seq![c][0] == c);
        assert(s[i] == c);
    }
    if !holds_no(s, c) {
        let i = choose|i: int| 0 <= i < s.len() && #[trigger] s[i] == c;
        assert(s.subrange(i, i + 1) == seq![c]);
        assert(occurs_at(s, seq![c], i));
    }
}

/// Where a pattern stands in a text, there is a leftmost place.
proof fn there_is_a_first(s: Seq<char>, pattern: Seq<char>, i: int) -> (first: int)
    requires
        occurs_at(s, pattern, i),
    ensures
        occurs_first_at(s, pattern, first),
    decreases i,
{
    if exists|j: int| occurs_at(s, pattern, j) && j < i {
        let j = choose|j: int| occurs_at(s, pattern, j) && j < i;
        there_is_a_first(s, pattern, j)
    } else {
        assert(occurs_first_at(s, pattern, i));
        i
    }
}

/// What stands before and after a pattern, with the pattern between, is the whole text, and the
/// pattern does not stand further left. There is nothing to part where it does not stand at all.
pub proof fn parts_make_the_whole(s: Seq<char>, pattern: Seq<char>)
    requires
        pattern.len() > 0,
    ensures
        match split_once_spec(s, pattern) {
            Some((before, after)) => s == before + pattern + after && !contains_spec(
                before + pattern.drop_last(),
                pattern,
            ),
            None => !contains_spec(s, pattern),
        },
{
    if contains_spec(s, pattern) {
        let first = there_is_a_first(s, pattern, choose|i: int| occurs_at(s, pattern, i));
        lemma_split_at_first(s, pattern, first);
        let before = s.take(first);
        let after = s.skip(first + pattern.len());
        assert(s == before + pattern + after) by {
            assert(s == s.take(first) + s.subrange(first, first + pattern.len()) + s.skip(
                first + pattern.len(),
            ));
        }
        let start = before + pattern.drop_last();
        if contains_spec(start, pattern) {
            let j = choose|j: int| occurs_at(start, pattern, j);
            assert(start == s.take(start.len() as int));
            assert(s.subrange(j, j + pattern.len()) == start.subrange(j, j + pattern.len()));
            assert(occurs_at(s, pattern, j));
        }
    }
}

/// A text that is built around the leftmost copy of a pattern is parted there.
pub proof fn parted_at_the_first(before: Seq<char>, pattern: Seq<char>, after: Seq<char>)
    requires
        pattern.len() > 0,
        !contains_spec(before + pattern.drop_last(), pattern),
    ensures
        split_once_spec(before + pattern + after, pattern) == Some((before, after)),
{
    let s = before + pattern + after;
    let k = before.len() as int;
    assert(s.subrange(k, k + pattern.len()) == pattern);
    assert(occurs_at(s, pattern, k));
    let start = before + pattern.drop_last();
    assert forall|j: int| occurs_at(s, pattern, j) implies k <= j by {
        if j < k {
            assert(start.subrange(j, j + pattern.len()) == s.subrange(j, j + pattern.len()));
            assert(occurs_at(start, pattern, j));
        }
    }
    assert(occurs_first_at(s, pattern, k));
    lemma_split_at_first(s, pattern, k);
    assert(s.take(k) == before);
    assert(s.skip(k + pattern.len()) == after);
}

/// A piece between the first and the second copy of a pattern, or behind the only copy, is the second
/// piece.
pub proof fn piece_behind_the_first(
    before: Seq<char>,
    pattern: Seq<char>,
    piece: Seq<char>,
    rest: Seq<char>,
)
    requires
        pattern.len() > 0,
        !contains_spec(before + pattern.drop_last(), pattern),
        !contains_spec(piece + pattern.drop_last(), pattern),
    ensures
        second_piece_spec(before + pattern + piece, pattern) == Some(piece),
        second_piece_spec(before + pattern + piece + pattern + rest, pattern) == Some(piece),
{
    parted_at_the_first(before, pattern, piece);
    if contains_spec(piece, pattern) {
        let j = choose|j: int| occurs_at(piece, pattern, j);
        let longer = piece + pattern.drop_last();
        assert(longer.subrange(j, j + pattern.len()) == piece.subrange(j, j + pattern.len()));
        assert(occurs_at(longer, pattern, j));
    }
    let behind = piece + pattern + rest;
    assert(before + pattern + piece + pattern + rest == before + pattern + behind);
    parted_at_the_first(before, pattern, behind);
    parted_at_the_first(piece, pattern, rest);
}

/// Where the first character of a pattern stands nowhere else in it, a copy of the pattern cannot
/// begin in a text and end in another copy behind it.
pub proof fn no_copy_across(before: Seq<char>, pattern: Seq<char>)
    requires
        pattern.len() > 0,
        holds_no(pattern.drop_first(), pattern[0]),
        !contains_spec(before, pattern),
    ensures
        !contains_spec(before + pattern.drop_last(), pattern),
{
    let s = before + pattern.drop_last();
    if contains_spec(s, pattern) {
        let j = choose|j: int| occurs_at(s, pattern, j);
        let k = before.len() as int;
        if j + pattern.len() <= k {
            assert(before.subrange(j, j + pattern.len()) == s.subrange(j, j + pattern.len()));
            assert(occurs_at(before, pattern, j));
        } else {
            assert(j < k);
            assert(s[k] == pattern[0]);
            assert(s.subrange(j, j + pattern.len())[k - j] == s[k]);
            assert(pattern.drop_first()[k - j - 1] == pattern[k - j]);
        }
    }
}

/// Joined lists with the separator between them are the joined list, and a text alone is itself.
pub proof fn joining_goes_part_by_part(
    first: Seq<Seq<char>>,
    second: Seq<Seq<char>>,
    separator: Seq<char>,
)
    ensures
        first.len() == 1 ==> joined(first, separator) == first[0],
        first.len() > 0 && second.len() > 0 ==> joined(first + second, separator) == joined(
            first,
            separator,
        ) + separator + joined(second, separator),
        second.len() == 0 ==> joined(first + second, separator) == joined(first, separator),
    decreases second.len(),
{
    if second.len() == 0 {
        assert(first + second == first);
    } else if first.len() > 0 {
        let shorter = second.drop_last();
        joining_goes_part_by_part(first, shorter, separator);
        assert((first + second).drop_last() == first + shorter);
        assert((first + second).last() == second.last());
        if second.len() == 1 {
            assert(first + shorter == first);
        } else {
            assert(joined(first, separator) + separator + joined(shorter, separator) + separator
                + second.last() == joined(first, separator) + separator + (joined(
                shorter,
                separator,
            ) + separator + second.last()));
        }
    }
}

/// The texts of strings are those of the strings, one by one, and an optional text is there exactly
/// where its string is.
pub proof fn texts_keep_the_strings(strings: Seq<String>, string: String)
    ensures
        texts(strings).len() == strings.len(),
        forall|i: int| 0 <= i < strings.len() ==> #[trigger] texts(strings)[i] == strings[i]@,
        text_of(Some(string)) == Some(string@),
        text_of(None) is None,
{
}

/// White space is the tab, the line feed, the vertical tab, the form feed, the carriage return, the
/// space and nineteen characters beyond ASCII, and nothing else.
pub proof fn white_space_one_by_one(c: char)
    ensures
        is_white_space(c) <==> seq![
            '\t',
            '\n',
            '\u{b}',
            '\u{c}',
            '\r',
            ' ',
            '\u{85}',
            '\u{a0}',
            '\u{1680}',
            '\u{2000}',
            '\u{2001}',
            '\u{2002}',
            '\u{2003}',
            '\u{2004}',
            '\u{2005}',
            '\u{2006}',
            '\u{2007}',
            '\u{2008}',
            '\u{2009}',
            '\u{200a}',
            '\u{2028}',
            '\u{2029}',
            '\u{202f}',
            '\u{205f}',
            '\u{3000}',
        ].contains(c),
{
    let all = seq![
        '\t',
        '\n',
        '\u{b}',
        '\u{c}',
        '\r',
        ' ',
        '\u{85}',
        '\u{a0}',
        '\u{1680}',
        '\u{2000}',
        '\u{2001}',
        '\u{2002}',
        '\u{2003}',
        '\u{2004}',
        '\u{2005}',
        '\u{2006}',
        '\u{2007}',
        '\u{2008}',
        '\u{2009}',
        '\u{200a}',
        '\u{2028}',
        '\u{2029}',
        '\u{202f}',
        '\u{205f}',
        '\u{3000}',
    ];
    assert(all[0] == '\t' && all[1] == '\n' && all[2] == '\u{b}' && all[3] == '\u{c}');
    assert(all[4] == '\r' && all[5] == ' ' && all[6] == '\u{85}' && all[7] == '\u{a0}');
    assert(all[8] == '\u{1680}' && all[9] == '\u{2000}' && all[10] == '\u{2001}');
    assert(all[11] == '\u{2002}' && all[12] == '\u{2003}' && all[13] == '\u{2004}');
    assert(all[14] == '\u{2005}' && all[15] == '\u{2006}' && all[16] == '\u{2007}');
    assert(all[17] == '\u{2008}' && all[18] == '\u{2009}' && all[19] == '\u{200a}');
    assert(all[20] == '\u{2028}' && all[21] == '\u{2029}' && all[22] == '\u{202f}');
    assert(all[23] == '\u{205f}' && all[24] == '\u{3000}');
}

/// What is left of a text at its end is the text without a tail of white space.
pub proof fn trim_end_takes_only_white_space(s: Seq<char>) -> (tail: Seq<char>)
    ensures
        s == trim_end_spec(s) + tail,
        all_white(tail),
        trim_end_spec(s).len() > 0 ==> !is_white_space(trim_end_spec(s).last()),
    decreases s.len(),
{
    if s.len() > 0 && is_white_space(s.last()) {
        let shorter = trim_end_takes_only_white_space(s.drop_last());
        let tail = shorter.push(s.last());
        assert(s =~= s.drop_last().push(s.last()));
        assert(s.drop_last() + seq![s.last()] =~= trim_end_spec(s) + tail);
        tail
    } else {
        assert(s =~= s + Seq::<char>::empty());
        Seq::empty()
    }
}

} // verus!
