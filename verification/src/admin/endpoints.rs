//! The names of the endpoints that credentials can use.

use vstd::prelude::*;

use crate::encoding::{debug_notation, debug_text};
use crate::text::{chars_of, same_text, views};

verus! {

/// Whether one text comes before another: at the first place where they differ,
/// or by being the beginning of the other.
pub open spec fn sorts_before(a: Seq<char>, b: Seq<char>) -> bool
    decreases a.len(),
{
    if b.len() == 0 {
        false
    } else if a.len() == 0 {
        true
    } else if a[0] != b[0] {
        a[0] < b[0]
    } else {
        sorts_before(a.skip(1), b.skip(1))
    }
}

/// Whether some texts are in order and none is there twice.
pub open spec fn strictly_sorted(list: Seq<Seq<char>>) -> bool {
    forall|i: int, j: int|
        0 <= i < j < list.len() ==> sorts_before(#[trigger] list[i], #[trigger] list[j])
}

/// Some items with commas between them, in square brackets.
pub open spec fn bracketed(items: Seq<Seq<char>>) -> Seq<char> {
    "["@ + separated(items) + "]"@
}

/// Some items with commas between them.
pub open spec fn separated(items: Seq<Seq<char>>) -> Seq<char>
    decreases items.len(),
{
    if items.len() == 0 {
        Seq::empty()
    } else if items.len() == 1 {
        items[0]
    } else {
        separated(items.drop_last()) + ", "@ + items.last()
    }
}

/// A list of texts in debug notation.
pub open spec fn debug_list(list: Seq<Seq<char>>) -> Seq<char> {
    bracketed(list.map_values(|s: Seq<char>| debug_text(s)))
}

/// Puts commas between some items, and square brackets around them.
pub fn bracket(items: &Vec<String>) -> (r: String)
    ensures
        r@ == bracketed(views(items@)),
{
    let mut out = "[".to_string();
    let ghost names = views(items@);
    assert("["@ + separated(names.take(0)) =~= "["@);
    let mut i: usize = 0;
    while i < items.len()
        invariant
            names == views(items@),
            i <= names.len(),
            out@ == "["@ + separated(names.take(i as int)),
        decreases names.len() - i,
    {
        proof {
            assert(names.take(i + 1).drop_last() =~= names.take(i as int));
            assert(names.take(i + 1).last() == names[i as int]);
            if i == 0 {
                assert("["@ + separated(names.take(0)) =~= "["@);
            }
        }
        if i > 0 {
            out.append(", ");
        }
        out.append(items[i].as_str());
        assert(out@ =~= "["@ + separated(names.take(i + 1)));
        i = i + 1;
    }
    assert(names.take(i as int) =~= names);
    out.append("]");
    out
}

/// No text comes before itself, two different texts come one before the other,
/// and the order is passed on.
pub proof fn texts_are_ordered(a: Seq<char>, b: Seq<char>, c: Seq<char>)
    ensures
        !sorts_before(a, a),
        a != b ==> sorts_before(a, b) || sorts_before(b, a),
        !(sorts_before(a, b) && sorts_before(b, a)),
        sorts_before(a, b) && sorts_before(b, c) ==> sorts_before(a, c),
    decreases a.len() + b.len() + c.len(),
{
    if a.len() > 0 {
        texts_are_ordered(
            a.skip(1),
            if b.len() > 0 {
                b.skip(1)
            } else {
                b
            },
            if c.len() > 0 {
                c.skip(1)
            } else {
                c
            },
        );
        if b.len() > 0 && a[0] == b[0] && a != b {
            if a.skip(1) == b.skip(1) {
                assert(a =~= seq![a[0]] + a.skip(1));
                assert(b =~= seq![b[0]] + b.skip(1));
            }
        }
    } else if b.len() == 0 {
        assert(a =~= b);
    }
}

fn text_sorts_before(a: &str, b: &str) -> (r: bool)
    ensures
        r == sorts_before(a@, b@),
{
    let x = chars_of(a);
    let y = chars_of(b);
    let mut i: usize = 0;
    assert(x@.skip(0) =~= x@ && y@.skip(0) =~= y@);
    while i < x.len() && i < y.len()
        invariant
            x@ == a@,
            y@ == b@,
            i <= x@.len(),
            i <= y@.len(),
            sorts_before(a@, b@) == sorts_before(x@.skip(i as int), y@.skip(i as int)),
        decreases x@.len() - i,
    {
        assert(x@.skip(i as int)[0] == x@[i as int]);
        assert(y@.skip(i as int)[0] == y@[i as int]);
        assert(x@.skip(i as int).skip(1) =~= x@.skip(i + 1));
        assert(y@.skip(i as int).skip(1) =~= y@.skip(i + 1));
        if x[i] != y[i] {
            return x[i] < y[i];
        }
        i = i + 1;
    }
    i < y.len()
}

/// The names of the endpoints, each once.
#[derive(Debug)]
pub struct EndpointSet {
    names: Vec<String>,
}

impl View for EndpointSet {
    type V = Set<Seq<char>>;

    closed spec fn view(&self) -> Set<Seq<char>> {
        views(self.names@).to_set()
    }
}

impl EndpointSet {
    /// The names in order.
    pub closed spec fn in_order(self) -> Seq<Seq<char>> {
        views(self.names@)
    }

    /// Whether the names are in order, each once.
    pub open spec fn wf(self) -> bool {
        strictly_sorted(self.in_order()) && self.in_order().to_set() == self@
    }

    /// Collects names.
    pub fn new(list: Vec<String>) -> (r: Self)
        ensures
            r.wf(),
            r@ == views(list@).to_set(),
    {
        let mut set = EndpointSet { names: Vec::new() };
        let mut i: usize = 0;
        while i < list.len()
            invariant
                i <= list@.len(),
                set.wf(),
                set@ == views(list@).take(i as int).to_set(),
            decreases list@.len() - i,
        {
            let ghost seen = views(list@).take(i as int);
            set.insert(list[i].clone());
            proof {
                assert(views(list@).take(i + 1) =~= seen.push(list@[i as int]@));
                push_is_insert(seen, list@[i as int]@);
            }
            i = i + 1;
        }
        assert(views(list@).take(i as int) =~= views(list@));
        set
    }

    fn insert(&mut self, name: String)
        requires
            old(self).wf(),
        ensures
            final(self).wf(),
            final(self)@ == old(self)@.insert(name@),
    {
        let ghost before = self.in_order();
        let mut i: usize = 0;
        while i < self.names.len() && text_sorts_before(self.names[i].as_str(), name.as_str())
            invariant
                before == self.in_order(),
                *self == *old(self),
                i <= self.names@.len(),
                forall|j: int| 0 <= j < i ==> sorts_before(#[trigger] before[j], name@),
            decreases self.names@.len() - i,
        {
            i = i + 1;
        }
        if i < self.names.len() && same_text(self.names[i].as_str(), name.as_str()) {
            proof {
                assert(before[i as int] == name@);
                assert(before.to_set().contains(name@));
                assert(self@.insert(name@) =~= self@);
            }
            return;
        }
        proof {
            let after = before.insert(i as int, name@);
            assert forall|j: int| i <= j < before.len() implies sorts_before(
                name@,
                #[trigger] before[j],
            ) by {
                texts_are_ordered(name@, before[i as int], before[j]);
                texts_are_ordered(before[i as int], name@, name@);
                if j > i {
                    assert(sorts_before(before[i as int], before[j]));
                }
            }
            assert forall|j: int, k: int| 0 <= j < k < after.len() implies sorts_before(
                #[trigger] after[j],
                #[trigger] after[k],
            ) by {
                let j0 = if j < i {
                    j
                } else {
                    j - 1
                };
                let k0 = if k < i {
                    k
                } else {
                    k - 1
                };
                if j == i {
                    assert(after[k] == before[k0]);
                } else if k == i {
                    assert(after[j] == before[j0]);
                } else {
                    assert(after[j] == before[j0] && after[k] == before[k0]);
                }
            }
            assert forall|s: Seq<char>| after.contains(s) == before.to_set().insert(name@).contains(
                s,
            ) by {
                if after.contains(s) {
                    let j = choose|j: int| 0 <= j < after.len() && after[j] == s;
                    if j < i {
                        assert(before[j] == s);
                    } else if j > i {
                        assert(before[j - 1] == s);
                    }
                }
                assert(after[i as int] == name@);
                if before.contains(s) {
                    let j = choose|j: int| 0 <= j < before.len() && before[j] == s;
                    if j < i {
                        assert(after[j] == s);
                    } else {
                        assert(after[j + 1] == s);
                    }
                }
            }
            assert(after.to_set() =~= before.to_set().insert(name@));
            assert(views(self.names@.insert(i as int, name)) =~= after);
        }
        self.names.insert(i, name);
    }

    /// Whether a name is there.
    pub fn has_name(&self, name: &str) -> (r: bool)
        ensures
            r == self@.contains(name@),
    {
        let mut i: usize = 0;
        while i < self.names.len()
            invariant
                i <= self.names@.len(),
                forall|j: int| 0 <= j < i ==> (#[trigger] self.names@[j])@ != name@,
            decreases self.names@.len() - i,
        {
            if same_text(self.names[i].as_str(), name) {
                assert(views(self.names@)[i as int] == name@);
                return true;
            }
            i = i + 1;
        }
        assert(!views(self.names@).contains(name@)) by {
            if views(self.names@).contains(name@) {
                let j = choose|j: int|
                    0 <= j < views(self.names@).len() && views(self.names@)[j] == name@;
                assert(self.names@[j]@ == name@);
            }
        }
        false
    }

    /// The names in order, in debug notation.
    pub fn listed(&self) -> (r: String)
        ensures
            r@ == debug_list(self.in_order()),
    {
        let mut items: Vec<String> = Vec::new();
        let ghost all = self.in_order().map_values(|s: Seq<char>| debug_text(s));
        let mut i: usize = 0;
        while i < self.names.len()
            invariant
                all == views(self.names@).map_values(|s: Seq<char>| debug_text(s)),
                i <= self.names@.len(),
                views(items@) == all.take(i as int),
            decreases self.names@.len() - i,
        {
            let ghost before = items@;
            let item = debug_notation(self.names[i].as_str());
            items.push(item);
            proof {
                assert(views(items@) =~= views(before).push(item@));
                assert(all.take(i + 1) =~= all.take(i as int).push(all[i as int]));
            }
            i = i + 1;
        }
        assert(all.take(i as int) =~= all);
        bracket(&items)
    }
}

proof fn push_is_insert(list: Seq<Seq<char>>, s: Seq<char>)
    ensures
        list.push(s).to_set() == list.to_set().insert(s),
{
    assert forall|t: Seq<char>| list.push(s).contains(t) == list.to_set().insert(s).contains(t) by {
        if list.push(s).contains(t) {
            let j = choose|j: int| 0 <= j < list.push(s).len() && list.push(s)[j] == t;
            if j < list.len() {
                assert(list[j] == t);
            }
        }
        if list.contains(t) {
            let j = choose|j: int| 0 <= j < list.len() && list[j] == t;
            assert(list.push(s)[j] == t);
        }
        assert(list.push(s)[list.len() as int] == s);
    }
    assert(list.push(s).to_set() =~= list.to_set().insert(s));
}

/// A set of endpoints has the names that it was made of and no others, and lists each of
/// them once, in order.
pub proof fn endpoints_are_those_that_were_given(
    list: Vec<String>,
    set: EndpointSet,
    name: &str,
    r: bool,
    shown: String,
)
    requires
        call_ensures(EndpointSet::new, (list,), set),
        call_ensures(EndpointSet::has_name, (&set, name), r),
        call_ensures(EndpointSet::listed, (&set,), shown),
    ensures
        r <==> exists|i: int| 0 <= i < list@.len() && (#[trigger] list@[i])@ == name@,
        set.in_order().contains(name@) <==> r,
        forall|i: int, j: int|
            0 <= i < j < set.in_order().len() ==> set.in_order()[i] != set.in_order()[j],
        shown@ == debug_list(set.in_order()),
{
    let all = views(list@);
    if r {
        assert(all.to_set().contains(name@));
        let i = choose|i: int| 0 <= i < all.len() && all[i] == name@;
        assert(list@[i]@ == name@);
    }
    if exists|i: int| 0 <= i < list@.len() && (#[trigger] list@[i])@ == name@ {
        let i = choose|i: int| 0 <= i < list@.len() && (#[trigger] list@[i])@ == name@;
        assert(all[i] == name@);
        assert(all.contains(name@));
    }
    assert(set.in_order().contains(name@) == set.in_order().to_set().contains(name@));
    assert forall|i: int, j: int| 0 <= i < j < set.in_order().len() implies set.in_order()[i]
        != set.in_order()[j] by {
        assert(sorts_before(set.in_order()[i], set.in_order()[j]));
        texts_are_ordered(set.in_order()[i], set.in_order()[i], set.in_order()[i]);
    }
}

/// Items are shown with commas between them, in square brackets.
pub proof fn items_are_shown_in_brackets(items: Seq<Seq<char>>, item: Seq<char>)
    ensures
        bracketed(Seq::empty()) == "["@ + Seq::<char>::empty() + "]"@,
        bracketed(seq![item]) == "["@ + item + "]"@,
        items.len() > 0 ==> bracketed(items.push(item)) == "["@ + (separated(items) + ", "@ + item)
            + "]"@,
{
    assert(items.push(item).drop_last() =~= items);
}

/// Names are ordered by the first character in which they differ, and a name comes before
/// those that it begins.
pub proof fn names_are_ordered_by_their_characters(
    common: Seq<char>,
    a: char,
    b: char,
    one: Seq<char>,
    other: Seq<char>,
)
    ensures
        a < b ==> sorts_before(common + (seq![a] + one), common + (seq![b] + other)),
        sorts_before(common, common + (seq![a] + one)),
    decreases common.len(),
{
    let x = common + (seq![a] + one);
    let y = common + (seq![b] + other);
    if common.len() > 0 {
        names_are_ordered_by_their_characters(common.skip(1), a, b, one, other);
        assert(x.skip(1) =~= common.skip(1) + (seq![a] + one));
        assert(y.skip(1) =~= common.skip(1) + (seq![b] + other));
        assert(x[0] == common[0] && y[0] == common[0]);
    } else {
        assert(x[0] == a && y[0] == b);
    }
}

} // verus!
