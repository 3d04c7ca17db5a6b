//! Text as a sequence of characters: trimming, splitting and searching.
//!
//! Strings enter through [`chars_of`] and leave through [`string_of`]; in
//! between, every function works on slices of characters.

use vstd::prelude::*;
use vstd::slice::slice_subrange;

verus! {

/// `String::push` of std: the character is appended to the end of the string.
pub assume_specification[ String::push ](s: &mut String, c: char)
    ensures
        final(s)@ == old(s)@.push(c),
;

/// The characters with the Unicode property `White_Space`.
pub open spec fn is_whitespace(c: char) -> bool {
    let n = c as u32;
    ||| 0x09 <= n <= 0x0d
    ||| n == 0x20
    ||| n == 0x85
    ||| n == 0xa0
    ||| n == 0x1680
    ||| 0x2000 <= n <= 0x200a
    ||| n == 0x2028
    ||| n == 0x2029
    ||| n == 0x202f
    ||| n == 0x205f
    ||| n == 0x3000
}

/// The characters of the Unicode general category `Cc`.
pub open spec fn is_control(c: char) -> bool {
    let n = c as u32;
    n <= 0x1f || 0x7f <= n <= 0x9f
}

/// The ten ASCII digits.
pub open spec fn is_digit(c: char) -> bool {
    '0' <= c <= '9'
}

/// The text without the whitespace at its beginning.
pub open spec fn trim_start(s: Seq<char>) -> Seq<char>
    decreases s.len(),
{
    if s.len() > 0 && is_whitespace(s[0]) {
        trim_start(s.skip(1))
    } else {
        s
    }
}

/// The text without the whitespace at its end.
pub open spec fn trim_end(s: Seq<char>) -> Seq<char>
    decreases s.len(),
{
    if s.len() > 0 && is_whitespace(s.last()) {
        trim_end(s.drop_last())
    } else {
        s
    }
}

/// The text without the whitespace at either end.
pub open spec fn trim(s: Seq<char>) -> Seq<char> {
    trim_end(trim_start(s))
}

/// Whether the text begins with `p`.
pub open spec fn starts_with(s: Seq<char>, p: Seq<char>) -> bool {
    p.len() <= s.len() && s.take(p.len() as int) == p
}

/// Whether `p` occurs somewhere in the text.
pub open spec fn contains(s: Seq<char>, p: Seq<char>) -> bool {
    exists|i: int|
        0 <= i <= s.len() - p.len() && #[trigger] s.subrange(i, i + p.len()) == p
}

/// The position of the first occurrence of `p`, if there is one.
pub open spec fn find(s: Seq<char>, p: Seq<char>) -> Option<nat>
    decreases s.len(),
{
    if starts_with(s, p) {
        Some(0nat)
    } else if s.len() == 0 {
        None
    } else {
        match find(s.skip(1), p) {
            Some(i) => Some(i + 1),
            None => None,
        }
    }
}

/// How many characters stand before the first `c`; all of them if there is none.
pub open spec fn index_of(s: Seq<char>, c: char) -> nat
    decreases s.len(),
{
    if s.len() == 0 || s[0] == c {
        0
    } else {
        1 + index_of(s.skip(1), c)
    }
}

/// The text before the first `c`; all of it if there is none.
pub open spec fn before(s: Seq<char>, c: char) -> Seq<char> {
    s.take(index_of(s, c) as int)
}

/// The text behind the first `c`; nothing if there is none.
pub open spec fn behind(s: Seq<char>, c: char) -> Seq<char> {
    if index_of(s, c) < s.len() {
        s.skip(index_of(s, c) as int + 1)
    } else {
        Seq::empty()
    }
}

/// The pieces between the occurrences of `c`, of which there is always one.
pub open spec fn split(s: Seq<char>, c: char) -> Seq<Seq<char>>
    decreases s.len(),
    via split_decreases
{
    if index_of(s, c) < s.len() {
        seq![before(s, c)] + split(behind(s, c), c)
    } else {
        seq![s]
    }
}

#[via_fn]
proof fn split_decreases(s: Seq<char>, c: char) {
}

/// The text without the copies of `p` at its beginning.
pub open spec fn strip_leading(s: Seq<char>, p: Seq<char>) -> Seq<char>
    decreases s.len(),
{
    if p.len() > 0 && starts_with(s, p) {
        strip_leading(s.skip(p.len() as int), p)
    } else {
        s
    }
}

/// The text without the characters `c` at its beginning.
pub open spec fn strip_leading_char(s: Seq<char>, c: char) -> Seq<char>
    decreases s.len(),
{
    if s.len() > 0 && s[0] == c {
        strip_leading_char(s.skip(1), c)
    } else {
        s
    }
}

/// Whether some character of the text is whitespace or a control character.
pub open spec fn has_space_or_control(s: Seq<char>) -> bool {
    exists|i: int|
        0 <= i < s.len() && (is_whitespace(#[trigger] s[i]) || is_control(s[i]))
}

/// The views of a list of strings.
pub open spec fn views(list: Seq<String>) -> Seq<Seq<char>> {
    list.map_values(|s: String| s@)
}

/// The view of an optional string.
pub open spec fn view_opt(s: Option<String>) -> Option<Seq<char>> {
    match s {
        Some(t) => Some(t@),
        None => None,
    }
}

/// `Some(s)` unless `s` is empty.
pub open spec fn non_empty(s: Seq<char>) -> Option<Seq<char>> {
    if s.len() == 0 {
        None
    } else {
        Some(s)
    }
}

/// Trimming leaves a text whose ends are not whitespace.
pub proof fn trim_has_no_outer_whitespace(s: Seq<char>)
    ensures
        trim(s).len() > 0 ==> !is_whitespace(trim(s)[0]) && !is_whitespace(trim(s).last()),
{
    trim_start_facts(s);
    trim_end_facts(trim_start(s));
}

/// Trimming twice is trimming once.
pub proof fn trim_is_idempotent(s: Seq<char>)
    ensures
        trim(trim(s)) == trim(s),
{
    trim_has_no_outer_whitespace(s);
}

/// A text whose ends are not whitespace is its own trimmed form.
pub proof fn trim_keeps_trimmed(s: Seq<char>)
    requires
        s.len() > 0 ==> !is_whitespace(s[0]) && !is_whitespace(s.last()),
    ensures
        trim(s) == s,
{
}

proof fn trim_start_facts(s: Seq<char>)
    ensures
        trim_start(s).len() <= s.len(),
        trim_start(s) == s.skip(s.len() - trim_start(s).len()),
        trim_start(s).len() > 0 ==> !is_whitespace(trim_start(s)[0]),
    decreases s.len(),
{
    if s.len() > 0 && is_whitespace(s[0]) {
        trim_start_facts(s.skip(1));
        assert(s.skip(1).skip(s.skip(1).len() - trim_start(s.skip(1)).len()) =~= s.skip(
            s.len() - trim_start(s).len(),
        ));
    } else {
        assert(s.skip(0) =~= s);
    }
}

proof fn trim_end_facts(s: Seq<char>)
    ensures
        trim_end(s).len() <= s.len(),
        trim_end(s) == s.take(trim_end(s).len() as int),
        trim_end(s).len() > 0 ==> !is_whitespace(trim_end(s).last()),
    decreases s.len(),
{
    if s.len() > 0 && is_whitespace(s.last()) {
        trim_end_facts(s.drop_last());
        assert(s.drop_last().take(trim_end(s).len() as int) =~= s.take(trim_end(s).len() as int));
    } else {
        assert(s.take(s.len() as int) =~= s);
    }
}

/// [`index_of`] counts at most the whole text, stops at `c` and skips no `c`.
pub proof fn index_of_facts(s: Seq<char>, c: char)
    ensures
        index_of(s, c) <= s.len(),
        index_of(s, c) < s.len() ==> s[index_of(s, c) as int] == c,
        forall|i: int| 0 <= i < index_of(s, c) ==> s[i] != c,
    decreases s.len(),
{
    if s.len() > 0 && s[0] != c {
        index_of_facts(s.skip(1), c);
        assert forall|i: int| 0 <= i < index_of(s, c) implies s[i] != c by {
            if i > 0 {
                assert(s.skip(1)[i - 1] != c);
            }
        }
    }
}

/// The first `c` stands where the text has one and has none before.
pub proof fn index_of_is(s: Seq<char>, c: char, n: nat)
    requires
        n <= s.len(),
        n < s.len() ==> s[n as int] == c,
        forall|i: int| 0 <= i < n ==> s[i] != c,
    ensures
        index_of(s, c) == n,
    decreases s.len(),
{
    if n > 0 {
        assert forall|i: int| 0 <= i < n - 1 implies s.skip(1)[i] != c by {
            assert(s[i + 1] != c);
        }
        index_of_is(s.skip(1), c, (n - 1) as nat);
    }
}

/// The characters of a string.
pub fn chars_of(s: &str) -> (r: Vec<char>)
    ensures
        r@ == s@,
{
    let mut out: Vec<char> = Vec::new();
    for c in it: s.chars()
        invariant
            out@ == it.seq().take(it.index() as int),
            it.seq() == s@,
    {
        out.push(c);
    }
    assert(s@.take(s@.len() as int) =~= s@);
    out
}

/// The string made of the given characters.
pub fn string_of(chars: &[char]) -> (r: String)
    ensures
        r@ == chars@,
{
    let mut out = String::new();
    let mut i: usize = 0;
    while i < chars.len()
        invariant
            i <= chars.len(),
            out@ == chars@.take(i as int),
        decreases chars.len() - i,
    {
        out.push(chars[i]);
        i += 1;
        assert(chars@.take(i as int) =~= chars@.take(i - 1).push(chars@[i - 1]));
    }
    assert(chars@.take(i as int) =~= chars@);
    out
}

/// Whether the character has the Unicode property `White_Space`.
pub fn char_is_whitespace(c: char) -> (r: bool)
    ensures
        r == is_whitespace(c),
{
    let n: u32 = c as u32;
    (0x09 <= n && n <= 0x0d) || n == 0x20 || n == 0x85 || n == 0xa0 || n == 0x1680 || (0x2000 <= n
        && n <= 0x200a) || n == 0x2028 || n == 0x2029 || n == 0x202f || n == 0x205f || n == 0x3000
}

/// Whether the character is a control character.
pub fn char_is_control(c: char) -> (r: bool)
    ensures
        r == is_control(c),
{
    let n: u32 = c as u32;
    n <= 0x1f || (0x7f <= n && n <= 0x9f)
}

/// The characters from `from` on.
pub fn skip_chars(s: &[char], from: usize) -> (r: &[char])
    requires
        from <= s@.len(),
    ensures
        r@ == s@.skip(from as int),
{
    let r = slice_subrange(s, from, s.len());
    assert(r@ =~= s@.skip(from as int));
    r
}

/// The first `count` characters.
pub fn take_chars(s: &[char], count: usize) -> (r: &[char])
    requires
        count <= s@.len(),
    ensures
        r@ == s@.take(count as int),
{
    let r = slice_subrange(s, 0, count);
    assert(r@ =~= s@.take(count as int));
    r
}

/// Whether two texts are the same.
pub fn same_chars(a: &[char], b: &[char]) -> (r: bool)
    ensures
        r == (a@ == b@),
{
    if a.len() != b.len() {
        return false;
    }
    let mut i: usize = 0;
    while i < a.len()
        invariant
            i <= a.len(),
            a.len() == b.len(),
            forall|j: int| 0 <= j < i ==> a@[j] == b@[j],
        decreases a.len() - i,
    {
        if a[i] != b[i] {
            return false;
        }
        i += 1;
    }
    assert(a@ =~= b@);
    true
}

/// Whether a string holds the text `t`.
pub fn same_text(s: &str, t: &str) -> (r: bool)
    ensures
        r == (s@ == t@),
{
    let a = chars_of(s);
    let b = chars_of(t);
    same_chars(a.as_slice(), b.as_slice())
}

/// The text without the whitespace at its beginning.
pub fn trim_start_chars(s: &[char]) -> (r: &[char])
    ensures
        r@ == trim_start(s@),
{
    let mut i: usize = 0;
    assert(s@.skip(0) =~= s@);
    while i < s.len() && char_is_whitespace(s[i])
        invariant
            i <= s.len(),
            trim_start(s@.skip(i as int)) == trim_start(s@),
        decreases s.len() - i,
    {
        assert(s@.skip(i as int).skip(1) =~= s@.skip(i + 1));
        i += 1;
    }
    skip_chars(s, i)
}

/// The text without the whitespace at its end.
pub fn trim_end_chars(s: &[char]) -> (r: &[char])
    ensures
        r@ == trim_end(s@),
{
    let mut n: usize = s.len();
    assert(s@.take(n as int) =~= s@);
    while n > 0 && char_is_whitespace(s[n - 1])
        invariant
            n <= s.len(),
            trim_end(s@.take(n as int)) == trim_end(s@),
        decreases n,
    {
        assert(s@.take(n as int).drop_last() =~= s@.take(n - 1));
        n -= 1;
    }
    take_chars(s, n)
}

/// The text without the whitespace at either end.
pub fn trim_chars(s: &[char]) -> (r: &[char])
    ensures
        r@ == trim(s@),
{
    trim_end_chars(trim_start_chars(s))
}

/// The trimmed form of a string.
pub fn trimmed(s: &str) -> (r: String)
    ensures
        r@ == trim(s@),
{
    let chars = chars_of(s);
    string_of(trim_chars(chars.as_slice()))
}

/// Whether the text begins with `p`.
pub fn chars_start_with(s: &[char], p: &[char]) -> (r: bool)
    ensures
        r == starts_with(s@, p@),
{
    if p.len() > s.len() {
        return false;
    }
    same_chars(take_chars(s, p.len()), p)
}

/// Whether a string begins with `p`.
pub fn text_starts_with(s: &str, p: &str) -> (r: bool)
    ensures
        r == starts_with(s@, p@),
{
    let a = chars_of(s);
    let b = chars_of(p);
    chars_start_with(a.as_slice(), b.as_slice())
}

/// The position of the first occurrence of `p`, if there is one.
pub fn find_chars(s: &[char], p: &[char]) -> (r: Option<usize>)
    ensures
        match r {
            Some(i) => find(s@, p@) == Some(i as nat) && i + p@.len() <= s@.len(),
            None => find(s@, p@) is None,
        },
{
    let mut i: usize = 0;
    assert(s@.skip(0) =~= s@);
    loop
        invariant
            i <= s.len(),
            match find(s@.skip(i as int), p@) {
                Some(k) => find(s@, p@) == Some((k + i) as nat),
                None => find(s@, p@) is None,
            },
        decreases s.len() - i,
    {
        let rest = skip_chars(s, i);
        if chars_start_with(rest, p) {
            return Some(i);
        }
        if i == s.len() {
            return None;
        }
        assert(s@.skip(i as int).skip(1) =~= s@.skip(i + 1));
        i += 1;
    }
}

/// A text contains `p` exactly if `p` can be found in it.
pub proof fn contains_is_find(s: Seq<char>, p: Seq<char>)
    ensures
        contains(s, p) == (find(s, p) is Some),
    decreases s.len(),
{
    if starts_with(s, p) {
        assert(s.subrange(0, 0int + p.len()) =~= p);
    } else if s.len() > 0 {
        contains_is_find(s.skip(1), p);
        if contains(s.skip(1), p) {
            let i = choose|i: int|
                0 <= i <= s.skip(1).len() - p.len() && #[trigger] s.skip(1).subrange(
                    i,
                    i + p.len(),
                ) == p;
            assert(s.subrange(i + 1, i + 1 + p.len()) =~= s.skip(1).subrange(i, i + p.len()));
        }
        if contains(s, p) {
            let i = choose|i: int|
                0 <= i <= s.len() - p.len() && #[trigger] s.subrange(i, i + p.len()) == p;
            if i == 0 {
                assert(s.take(p.len() as int) =~= s.subrange(0, 0int + p.len()));
            } else {
                assert(s.skip(1).subrange(i - 1, i - 1 + p.len()) =~= s.subrange(i, i + p.len()));
            }
        }
    } else if contains(s, p) {
        let i = choose|i: int|
            0 <= i <= s.len() - p.len() && #[trigger] s.subrange(i, i + p.len()) == p;
        assert(s.take(p.len() as int) =~= p);
    }
}

/// What [`find`] finds is an occurrence.
pub proof fn find_is_occurrence(s: Seq<char>, p: Seq<char>)
    requires
        find(s, p) is Some,
    ensures
        find(s, p).unwrap() + p.len() <= s.len(),
        s.subrange(find(s, p).unwrap() as int, (find(s, p).unwrap() + p.len()) as int) == p,
    decreases s.len(),
{
    if starts_with(s, p) {
        assert(s.subrange(0, 0int + p.len()) =~= p);
    } else {
        find_is_occurrence(s.skip(1), p);
        let i = find(s.skip(1), p).unwrap() as int;
        assert(s.subrange(i + 1, i + 1 + p.len()) =~= s.skip(1).subrange(i, i + p.len()));
    }
}

/// Whether `p` occurs in a string.
pub fn mentions(s: &str, p: &str) -> (r: bool)
    ensures
        r == contains(s@, p@),
{
    let a = chars_of(s);
    let b = chars_of(p);
    proof {
        contains_is_find(s@, p@);
    }
    find_chars(a.as_slice(), b.as_slice()).is_some()
}

/// How many characters stand before the first `c`.
pub fn index_of_char(s: &[char], c: char) -> (r: usize)
    ensures
        r == index_of(s@, c),
        r <= s@.len(),
{
    let mut i: usize = 0;
    while i < s.len() && s[i] != c
        invariant
            i <= s.len(),
            forall|j: int| 0 <= j < i ==> s@[j] != c,
        decreases s.len() - i,
    {
        i += 1;
    }
    proof {
        index_of_is(s@, c, i as nat);
    }
    i
}

/// The text before the first `c`; all of it if there is none.
pub fn chars_before(s: &[char], c: char) -> (r: &[char])
    ensures
        r@ == before(s@, c),
{
    take_chars(s, index_of_char(s, c))
}

/// The text behind the first `c`; nothing if there is none.
pub fn chars_behind(s: &[char], c: char) -> (r: &[char])
    ensures
        r@ == behind(s@, c),
{
    let i: usize = index_of_char(s, c);
    if i < s.len() {
        skip_chars(s, i + 1)
    } else {
        let r = skip_chars(s, i);
        assert(r@ =~= Seq::empty());
        r
    }
}

/// The text without the copies of `p` at its beginning.
pub fn strip_leading_chars<'a>(s: &'a [char], p: &[char]) -> (r: &'a [char])
    ensures
        r@ == strip_leading(s@, p@),
{
    let mut i: usize = 0;
    assert(s@.skip(0) =~= s@);
    if p.len() > 0 {
        while chars_start_with(skip_chars(s, i), p)
            invariant
                i <= s.len(),
                p@.len() > 0,
                strip_leading(s@.skip(i as int), p@) == strip_leading(s@, p@),
            decreases s.len() - i,
        {
            assert(s@.skip(i as int).skip(p@.len() as int) =~= s@.skip(i + p@.len()));
            i += p.len();
        }
    }
    skip_chars(s, i)
}

/// The text without the characters `c` at its beginning.
pub fn strip_leading_char_chars(s: &[char], c: char) -> (r: &[char])
    ensures
        r@ == strip_leading_char(s@, c),
{
    let mut i: usize = 0;
    assert(s@.skip(0) =~= s@);
    while i < s.len() && s[i] == c
        invariant
            i <= s.len(),
            strip_leading_char(s@.skip(i as int), c) == strip_leading_char(s@, c),
        decreases s.len() - i,
    {
        assert(s@.skip(i as int).skip(1) =~= s@.skip(i + 1));
        i += 1;
    }
    skip_chars(s, i)
}

/// Whether some character of the text is whitespace or a control character.
pub fn chars_have_space_or_control(s: &[char]) -> (r: bool)
    ensures
        r == has_space_or_control(s@),
{
    let mut i: usize = 0;
    while i < s.len()
        invariant
            i <= s.len(),
            forall|j: int| 0 <= j < i ==> !is_whitespace(s@[j]) && !is_control(s@[j]),
        decreases s.len() - i,
    {
        if char_is_whitespace(s[i]) || char_is_control(s[i]) {
            return true;
        }
        i += 1;
    }
    false
}

/// The pieces between the occurrences of `c`.
pub fn split_chars(s: &[char], c: char) -> (r: Vec<&[char]>)
    ensures
        r@.len() == split(s@, c).len(),
        forall|i: int| 0 <= i < r@.len() ==> (#[trigger] r@[i])@ == split(s@, c)[i],
{
    let mut out: Vec<&[char]> = Vec::new();
    let mut rest: &[char] = s;
    let ghost mut done: Seq<Seq<char>> = Seq::empty();
    assert(done + split(rest@, c) =~= split(s@, c));
    loop
        invariant
            done.len() == out@.len(),
            forall|i: int| 0 <= i < out@.len() ==> (#[trigger] out@[i])@ == done[i],
            done + split(rest@, c) == split(s@, c),
        decreases rest@.len(),
    {
        let i: usize = index_of_char(rest, c);
        if i == rest.len() {
            out.push(rest);
            assert(split(s@, c) =~= done.push(rest@));
            return out;
        }
        let piece = take_chars(rest, i);
        let next = skip_chars(rest, i + 1);
        proof {
            assert(next@ == behind(rest@, c));
            assert(done.push(piece@) + split(next@, c) =~= done + split(rest@, c));
            done = done.push(piece@);
        }
        out.push(piece);
        rest = next;
    }
}

/// A copy of an optional string.
pub fn copy_opt(s: &Option<String>) -> (r: Option<String>)
    ensures
        r == *s,
{
    match s {
        Some(t) => Some(t.clone()),
        None => None,
    }
}

/// The string itself, unless it is empty.
pub fn keep_non_empty(s: String) -> (r: Option<String>)
    ensures
        r == (if s@.len() == 0 {
            None::<String>
        } else {
            Some(s)
        }),
{
    if s.as_str().is_empty() {
        None
    } else {
        Some(s)
    }
}

/// Splitting at a character: what stands on its left, without that character, and
/// what stands on its right.
pub proof fn parts_around(left: Seq<char>, c: char, right: Seq<char>)
    requires
        !left.contains(c),
    ensures
        before(left + seq![c] + right, c) == left,
        behind(left + seq![c] + right, c) == right,
        split(left + seq![c] + right, c) == seq![left] + split(right, c),
        before(left, c) == left,
        behind(left, c) == Seq::<char>::empty(),
        split(left, c) == seq![left],
{
    let s = left + seq![c] + right;
    assert forall|i: int| 0 <= i < left.len() implies s[i] != c && left[i] != c by {
        assert(left.contains(left[i]));
    }
    index_of_is(s, c, left.len());
    index_of_is(left, c, left.len());
    assert(s.take(left.len() as int) =~= left);
    assert(s.skip(left.len() as int + 1) =~= right);
    assert(left.take(left.len() as int) =~= left);
}

/// Trimming takes away whitespace at both ends and nothing else: what is left of a
/// text between two blanks is that text, and of a blank nothing is left.
pub proof fn trimming_takes_the_blanks(left: Seq<char>, s: Seq<char>, right: Seq<char>)
    requires
        is_blank(left),
        is_blank(right),
        s.len() > 0 ==> !is_whitespace(s[0]) && !is_whitespace(s.last()),
    ensures
        trim(left + s + right) == s,
        trim(left) == Seq::<char>::empty(),
{
    blank_start(left, s + right);
    assert(left + (s + right) =~= left + s + right);
    if s.len() > 0 {
        assert((s + right)[0] == s[0]);
        assert(trim_start(s + right) == s + right);
        blank_end(s, right);
        assert(trim_end(s) == s);
    } else {
        assert(s + right =~= right);
        assert(right + Seq::<char>::empty() =~= right);
        blank_start(right, Seq::empty());
        assert(trim_start(Seq::<char>::empty()) == Seq::<char>::empty());
        assert(s =~= Seq::empty());
    }
    assert(left + Seq::<char>::empty() =~= left);
    blank_start(left, Seq::empty());
}

/// Every text is its trimmed form between two blanks.
pub proof fn trimming_takes_only_blanks(s: Seq<char>) -> (r: (Seq<char>, Seq<char>))
    ensures
        is_blank(r.0),
        is_blank(r.1),
        s == r.0 + trim(s) + r.1,
{
    let a = blank_before(s);
    let b = blank_behind(trim_start(s));
    assert(s =~= a + trim(s) + b);
    (a, b)
}

/// Whether a text is nothing but whitespace.
pub open spec fn is_blank(s: Seq<char>) -> bool {
    forall|i: int| 0 <= i < s.len() ==> is_whitespace(#[trigger] s[i])
}

proof fn blank_before(s: Seq<char>) -> (r: Seq<char>)
    ensures
        is_blank(r),
        s == r + trim_start(s),
    decreases s.len(),
{
    if s.len() > 0 && is_whitespace(s[0]) {
        let rest = blank_before(s.skip(1));
        let r = seq![s[0]] + rest;
        assert(s =~= seq![s[0]] + s.skip(1));
        assert(s =~= r + trim_start(s));
        r
    } else {
        assert(s =~= Seq::<char>::empty() + s);
        Seq::empty()
    }
}

proof fn blank_behind(s: Seq<char>) -> (r: Seq<char>)
    ensures
        is_blank(r),
        s == trim_end(s) + r,
    decreases s.len(),
{
    if s.len() > 0 && is_whitespace(s.last()) {
        let rest = blank_behind(s.drop_last());
        let r = rest.push(s.last());
        assert(s =~= s.drop_last().push(s.last()));
        assert(s =~= trim_end(s) + r);
        r
    } else {
        assert(s =~= s + Seq::<char>::empty());
        Seq::empty()
    }
}

proof fn blank_start(left: Seq<char>, s: Seq<char>)
    requires
        is_blank(left),
    ensures
        trim_start(left + s) == trim_start(s),
    decreases left.len(),
{
    if left.len() > 0 {
        let t = left + s;
        assert(t[0] == left[0]);
        assert(t.skip(1) =~= left.skip(1) + s);
        blank_start(left.skip(1), s);
    } else {
        assert(left + s =~= s);
    }
}

proof fn blank_end(s: Seq<char>, right: Seq<char>)
    requires
        is_blank(right),
    ensures
        trim_end(s + right) == trim_end(s),
    decreases right.len(),
{
    if right.len() > 0 {
        let t = s + right;
        assert(t.last() == right.last());
        assert(t.drop_last() =~= s + right.drop_last());
        blank_end(s, right.drop_last());
    } else {
        assert(s + right =~= s);
    }
}

/// What ends a line is whitespace, and what can be seen in ASCII is not.
pub proof fn visible_characters_are_not_whitespace(c: char)
    ensures
        c == ' ' || c == '\t' || c == '\n' || c == '\r' || c as u32 == 0x3000 || c as u32 == 0xa0
            ==> is_whitespace(c),
        0x21 <= c as u32 <= 0x7e ==> !is_whitespace(c) && !is_control(c),
        0x4e00 <= c as u32 ==> !is_whitespace(c) && !is_control(c),
        (c as u32) < 0x20 || c as u32 == 0x7f ==> is_control(c),
{
}

/// A text contains every text that it was put together around.
pub proof fn parts_are_contained(left: Seq<char>, p: Seq<char>, right: Seq<char>)
    ensures
        contains(left + p + right, p),
        starts_with(p + right, p),
{
    let s = left + p + right;
    assert(s.subrange(left.len() as int, left.len() as int + p.len()) =~= p);
    assert((p + right).take(p.len() as int) =~= p);
}

/// A leading part that is repeated is taken away as often as it is there.
pub proof fn leading_parts_are_stripped(p: Seq<char>, s: Seq<char>)
    requires
        p.len() > 0,
    ensures
        strip_leading(p + s, p) == strip_leading(s, p),
        !starts_with(s, p) ==> strip_leading(s, p) == s,
{
    assert((p + s).take(p.len() as int) =~= p);
    assert((p + s).skip(p.len() as int) =~= s);
}

/// A leading character that is repeated is taken away as often as it is there.
pub proof fn leading_characters_are_stripped(c: char, s: Seq<char>)
    ensures
        strip_leading_char(seq![c] + s, c) == strip_leading_char(s, c),
        s.len() == 0 || s[0] != c ==> strip_leading_char(s, c) == s,
{
    assert((seq![c] + s).skip(1) =~= s);
}

} // verus!
