//! The `assistantResponseEvent` of a response stream.

use vstd::prelude::*;

use crate::text::{
    chars_of, contains, contains_is_find, find, find_chars, find_is_occurrence,
    index_of, index_of_char, index_of_facts, index_of_is, is_whitespace, parts_around, skip_chars,
    starts_with,
    string_of, take_chars, trim, trim_chars, trim_has_no_outer_whitespace,
};
use crate::text::char_is_whitespace;

verus! {

/// The beginning of a tool call written out as XML.
pub open spec fn open_mark() -> Seq<char> {
    "<tool_use"@
}

/// The end of a tool call written out as XML.
pub open spec fn close_mark() -> Seq<char> {
    "</tool_use>"@
}

/// Whether `tag`, which begins with the opening mark, only looks like a tag: the
/// mark is followed by something else than whitespace or `>`, as in
/// `<tool_user>`. A mark at the end of the text may be a tag that was cut off.
pub open spec fn is_lookalike(tag: Seq<char>) -> bool {
    let n = open_mark().len() as int;
    tag.len() > n && tag[n] != '>' && !is_whitespace(tag[n])
}

/// The text without the tool calls that leaked into it as XML. A tag that is
/// not closed takes everything behind it along; a mark that only looks like a
/// tag stays.
pub open spec fn without_leaks(s: Seq<char>) -> Seq<char>
    decreases s.len(),
    via without_leaks_decreases
{
    match find(s, open_mark()) {
        None => s,
        Some(start) => {
            let tag = s.skip(start as int);
            let end = index_of(tag, '>');
            let mark_end = start + open_mark().len();
            if is_lookalike(tag) {
                s.take(mark_end as int) + without_leaks(s.skip(mark_end as int))
            } else if end >= tag.len() {
                s.take(start as int)
            } else {
                let body = tag.skip(end as int + 1);
                match find(body, close_mark()) {
                    None => s.take(start as int),
                    Some(close) => s.take(start as int) + without_leaks(
                        body.skip((close + close_mark().len()) as int),
                    ),
                }
            }
        },
    }
}

#[via_fn]
proof fn without_leaks_decreases(s: Seq<char>) {
    if find(s, open_mark()) is Some {
        mark_lengths();
        find_is_occurrence(s, open_mark());
        let start = find(s, open_mark()).unwrap();
        let tag = s.skip(start as int);
        let end = index_of(tag, '>');
        if end < tag.len() {
            let body = tag.skip(end as int + 1);
            if find(body, close_mark()) is Some {
                find_is_occurrence(body, close_mark());
            }
        }
    }
}

proof fn mark_lengths()
    ensures
        open_mark().len() == 9,
        close_mark().len() == 11,
{
    reveal_strlit("<tool_use");
    reveal_strlit("</tool_use>");
}

/// Where the opening mark stands, the next `>` comes behind it.
proof fn tag_end_behind_mark(s: Seq<char>, start: nat)
    requires
        find(s, open_mark()) == Some(start),
    ensures
        start + 9 <= s.len(),
        index_of(s.skip(start as int), '>') >= 9,
{
    mark_lengths();
    find_is_occurrence(s, open_mark());
    let tag = s.skip(start as int);
    index_of_facts(tag, '>');
    let end = index_of(tag, '>');
    if end < 9 {
        reveal_strlit("<tool_use");
        assert(tag[end as int] == s.subrange(start as int, start as int + 9)[end as int]);
        assert(false);
    }
}

/// Removes the tool calls that leaked into assistant text as literal XML, and
/// trims what is left. The real calls travel as structured events, so the XML
/// is noise that a client should not see.
pub fn strip_tool_use_xml_leaks(content: &str) -> (r: String)
    ensures
        r@ == trim(without_leaks(content@)),
{
    let chars = chars_of(content);
    let open = chars_of("<tool_use");
    let close = chars_of("</tool_use>");
    let mut out: Vec<char> = Vec::new();
    let mut rest: &[char] = chars.as_slice();
    proof {
        mark_lengths();
        assert(out@ + without_leaks(rest@) =~= without_leaks(content@));
    }
    loop
        invariant
            open@ == open_mark(),
            close@ == close_mark(),
            open@.len() == 9,
            close@.len() == 11,
            out@ + without_leaks(rest@) == without_leaks(content@),
        ensures
            out@ + rest@ == without_leaks(content@),
        decreases rest@.len(),
    {
        let start: usize = match find_chars(rest, open.as_slice()) {
            Some(start) => start,
            None => break,
        };
        let ghost whole = rest@;
        let ghost kept = out@;
        proof {
            tag_end_behind_mark(rest@, start as nat);
        }
        let tag = skip_chars(rest, start);
        let end: usize = index_of_char(tag, '>');
        let total: usize = rest.len();
        if tag.len() > 9 && tag[9] != '>' && !char_is_whitespace(tag[9]) {
            append_chars(&mut out, take_chars(rest, start + 9));
            rest = skip_chars(rest, start + 9);
            assert(out@ + without_leaks(rest@) =~= kept + (whole.take(start + 9) + without_leaks(
                rest@,
            )));
            continue;
        }
        if end == tag.len() {
            append_chars(&mut out, take_chars(rest, start));
            rest = skip_chars(rest, total);
            assert(out@ + rest@ =~= kept + whole.take(start as int));
            break;
        }
        append_chars(&mut out, take_chars(rest, start));
        let body = skip_chars(tag, end + 1);
        match find_chars(body, close.as_slice()) {
            Some(stop) => {
                rest = skip_chars(body, stop + 11);
                assert(out@ + without_leaks(rest@) =~= kept + (whole.take(start as int)
                    + without_leaks(rest@)));
            },
            None => {
                rest = skip_chars(rest, total);
                assert(out@ + rest@ =~= kept + whole.take(start as int));
                break;
            },
        }
    }
    append_chars(&mut out, rest);
    string_of(trim_chars(out.as_slice()))
}

fn append_chars(out: &mut Vec<char>, more: &[char])
    ensures
        final(out)@ == old(out)@ + more@,
{
    let mut i: usize = 0;
    let ghost start = out@;
    while i < more.len()
        invariant
            i <= more.len(),
            out@ == start + more@.take(i as int),
        decreases more.len() - i,
    {
        out.push(more[i]);
        i += 1;
        assert(more@.take(i as int) =~= more@.take(i - 1).push(more@[i - 1]));
    }
    assert(more@.take(i as int) =~= more@);
}

/// What is left of a text begins and ends with no whitespace.
pub proof fn stripped_text_is_trimmed(s: Seq<char>)
    ensures
        ({
            let r = trim(without_leaks(s));
            r.len() > 0 ==> !is_whitespace(r[0]) && !is_whitespace(r.last())
        }),
{
    trim_has_no_outer_whitespace(without_leaks(s));
}

/// A text without the opening mark is only trimmed.
pub proof fn clean_text_is_kept(s: Seq<char>)
    requires
        !contains(s, open_mark()),
    ensures
        trim(without_leaks(s)) == trim(s),
{
    contains_is_find(s, open_mark());
}

/// A leaked call, from its opening tag to its closing tag, disappears. The text
/// before it stays, and what follows is treated in the same way.
pub proof fn leaked_call_is_removed(
    left: Seq<char>,
    attributes: Seq<char>,
    body: Seq<char>,
    right: Seq<char>,
)
    requires
        !contains(left, open_mark()),
        attributes.len() > 0 ==> is_whitespace(attributes[0]),
        !attributes.contains('>'),
        !contains(body, close_mark()),
    ensures
        trim(
            without_leaks(
                left + open_mark() + attributes + seq!['>'] + body + close_mark() + right,
            ),
        ) == trim(left + without_leaks(right)),
{
    let s = left + open_mark() + attributes + seq!['>'] + body + close_mark() + right;
    mark_lengths();
    reveal_with_fuel(without_leaks, 2);
    let tail = attributes + seq!['>'] + body + close_mark() + right;
    assert(s =~= left + open_mark() + tail);
    first_mark_is_found(left, open_mark(), tail);
    let tag = s.skip(left.len() as int);
    assert(tag =~= open_mark() + attributes + seq!['>'] + (body + close_mark() + right));
    tag_ends_at(attributes, body + close_mark() + right);
    let inner = tag.skip((9 + attributes.len()) as int + 1);
    assert(inner =~= body + close_mark() + right);
    first_mark_is_found(body, close_mark(), right);
    assert(inner.skip((body.len() + 11) as int) =~= right);
    assert(s.take(left.len() as int) =~= left);
    if attributes.len() > 0 {
        assert(tag[9] == attributes[0]);
    } else {
        assert(tag[9] == '>');
    }
}

/// An opening tag that is cut off, or that nothing closes, takes the rest of
/// the text along.
pub proof fn unclosed_call_drops_the_rest(left: Seq<char>, rest: Seq<char>)
    requires
        !contains(left, open_mark()),
        rest.len() > 0 ==> rest[0] == '>' || is_whitespace(rest[0]),
        rest.contains('>') ==> !contains(rest.skip(index_of(rest, '>') as int + 1), close_mark()),
    ensures
        trim(without_leaks(left + open_mark() + rest)) == trim(left),
{
    let s = left + open_mark() + rest;
    mark_lengths();
    first_mark_is_found(left, open_mark(), rest);
    let tag = s.skip(left.len() as int);
    assert(tag =~= open_mark() + rest);
    assert(s.take(left.len() as int) =~= left);
    index_of_facts(rest, '>');
    let end = index_of(rest, '>');
    reveal_strlit("<tool_use");
    assert forall|i: int| 0 <= i < 9 + end implies tag[i] != '>' by {
        if i < 9 {
            assert(tag[i] == open_mark()[i]);
        } else {
            assert(tag[i] == rest[i - 9]);
        }
    }
    index_of_is(tag, '>', 9 + end);
    if end < rest.len() {
        assert(rest.contains(rest[end as int]));
        assert(tag.skip((9 + end) as int + 1) =~= rest.skip(end as int + 1));
        contains_is_find(rest.skip(end as int + 1), close_mark());
    }
    if rest.len() > 0 {
        assert(tag[9] == rest[0]);
    }
}

/// A mark that only looks like a tag, such as `<tool_user>`, stays, and what
/// follows is treated in the same way.
pub proof fn lookalike_is_kept(left: Seq<char>, rest: Seq<char>)
    requires
        !contains(left, open_mark()),
        rest.len() > 0,
        rest[0] != '>' && !is_whitespace(rest[0]),
    ensures
        trim(without_leaks(left + open_mark() + rest)) == trim(
            left + open_mark() + without_leaks(rest),
        ),
{
    let s = left + open_mark() + rest;
    mark_lengths();
    reveal_with_fuel(without_leaks, 2);
    first_mark_is_found(left, open_mark(), rest);
    let tag = s.skip(left.len() as int);
    assert(tag =~= open_mark() + rest);
    assert(tag[9] == rest[0]);
    assert(s.skip((left.len() + 9) as int) =~= rest);
    assert(s.take((left.len() + 9) as int) =~= left + open_mark());
}

/// The mark that begins with `<` and has no other `<` is found right behind a
/// text that does not contain it.
proof fn first_mark_is_found(left: Seq<char>, mark: Seq<char>, right: Seq<char>)
    requires
        mark == open_mark() || mark == close_mark(),
        !contains(left, mark),
    ensures
        find(left + mark + right, mark) == Some(left.len()),
    decreases left.len(),
{
    mark_lengths();
    reveal_strlit("<tool_use");
    reveal_strlit("</tool_use>");
    let s = left + mark + right;
    if left.len() == 0 {
        assert(s.take(mark.len() as int) =~= mark);
    } else {
        if starts_with(s, mark) {
            if left.len() >= mark.len() {
                assert(left.subrange(0, 0int + mark.len()) =~= s.take(mark.len() as int));
                assert(false);
            } else {
                let i = left.len() as int;
                assert(s.take(mark.len() as int)[i] == mark[0]);
                assert(mark[i] == '<');
                assert(false);
            }
        }
        let shorter = left.skip(1);
        if contains(shorter, mark) {
            let i = choose|i: int|
                0 <= i <= shorter.len() - mark.len() && #[trigger] shorter.subrange(
                    i,
                    i + mark.len(),
                ) == mark;
            assert(left.subrange(i + 1, i + 1 + mark.len()) =~= mark);
        }
        first_mark_is_found(shorter, mark, right);
        assert(s.skip(1) =~= shorter + mark + right);
    }
}

proof fn tag_ends_at(attributes: Seq<char>, rest: Seq<char>)
    requires
        !attributes.contains('>'),
    ensures
        index_of(open_mark() + attributes + seq!['>'] + rest, '>') == 9 + attributes.len(),
{
    mark_lengths();
    reveal_strlit("<tool_use");
    let s = open_mark() + attributes + seq!['>'] + rest;
    assert forall|i: int| 0 <= i < 9 + attributes.len() implies s[i] != '>' by {
        if i < 9 {
            assert(s[i] == open_mark()[i]);
        } else {
            assert(s[i] == attributes[i - 9]);
        }
    }
    index_of_is(s, '>', (9 + attributes.len()) as nat);
}

/// A piece of the assistant's answer.
#[derive(Debug)]
pub struct AssistantResponseEvent {
    /// The text of the piece.
    pub content: String,
}

impl AssistantResponseEvent {
    /// The event as text: its content.
    pub fn to_text(&self) -> (r: String)
        ensures
            r@ == self.content@,
    {
        self.content.clone()
    }
}

impl Default for AssistantResponseEvent {
    fn default() -> (r: Self)
        ensures
            r.content@.len() == 0,
    {
        AssistantResponseEvent { content: String::new() }
    }
}

impl Clone for AssistantResponseEvent {
    fn clone(&self) -> (r: Self)
        ensures
            r == *self,
    {
        AssistantResponseEvent { content: self.content.clone() }
    }
}

/// Tool calls that leaked into a text as XML are taken out of it, from the opening tag to
/// the closing one; the text on both sides stays, and only the blanks around the whole are
/// taken away.
pub proof fn leaked_calls_are_taken_out(
    content: &str,
    left: Seq<char>,
    attributes: Seq<char>,
    body: Seq<char>,
    right: Seq<char>,
    r: String,
)
    requires
        call_ensures(strip_tool_use_xml_leaks, (content,), r),
        !contains(left, "<tool_use"@),
        !contains(right, "<tool_use"@),
        attributes.len() > 0 ==> is_whitespace(attributes[0]),
        !attributes.contains('>'),
        !contains(body, "</tool_use>"@),
    ensures
        content@ == left + "<tool_use"@ + attributes + seq!['>'] + body + "</tool_use>"@ + right
            ==> r@ == trim(left + right),
        content@ == left ==> r@ == trim(left),
        content@ == left + "<tool_use"@ ==> r@ == trim(left),
        content@ == left + "<tool_use"@ + (attributes + seq!['>'] + body) ==> r@ == trim(left),
{
    leaked_call_is_removed(left, attributes, body, right);
    contains_is_find(right, open_mark());
    assert(without_leaks(right) == right);
    clean_text_is_kept(left);
    if content@ == left + "<tool_use"@ {
        assert(content@ =~= left + open_mark() + Seq::<char>::empty());
        unclosed_call_drops_the_rest(left, Seq::empty());
    }
    if content@ == left + "<tool_use"@ + (attributes + seq!['>'] + body) {
        let rest = attributes + seq!['>'] + body;
        parts_around(attributes, '>', body);
        index_of_is_len(attributes, body);
        assert(rest.skip(attributes.len() as int + 1) =~= body);
        if attributes.len() > 0 {
            assert(rest[0] == attributes[0]);
        } else {
            assert(rest[0] == '>');
        }
        unclosed_call_drops_the_rest(left, rest);
    }
}

proof fn index_of_is_len(attributes: Seq<char>, body: Seq<char>)
    requires
        !attributes.contains('>'),
    ensures
        index_of(attributes + seq!['>'] + body, '>') == attributes.len(),
{
    let s = attributes + seq!['>'] + body;
    assert forall|i: int| 0 <= i < attributes.len() implies s[i] != '>' by {
        assert(attributes.contains(attributes[i]));
    }
    index_of_is(s, '>', attributes.len());
}

/// What only looks like a tool call, such as `<tool_user>`, stays in the text.
pub proof fn lookalikes_stay(content: &str, left: Seq<char>, rest: Seq<char>, r: String)
    requires
        call_ensures(strip_tool_use_xml_leaks, (content,), r),
        !contains(left, "<tool_use"@),
        !contains(rest, "<tool_use"@),
        rest.len() > 0 && rest[0] != '>' && !is_whitespace(rest[0]),
        content@ == left + "<tool_use"@ + rest,
    ensures
        r@ == trim(content@),
{
    lookalike_is_kept(left, rest);
    contains_is_find(rest, open_mark());
}

} // verus!
