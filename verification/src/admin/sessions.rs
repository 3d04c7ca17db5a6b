//! Logins that are under way.

use vstd::prelude::*;

use crate::clock::Timestamp;
use crate::text::same_text;

verus! {

/// A login that is under way.
#[derive(Debug)]
pub struct Slot<S> {
    /// The name of the session.
    pub id: String,
    /// When it ends by itself.
    pub expires_at: Timestamp,
    /// What it holds.
    pub session: S,
}

/// The logins that are under way, each under a name of its own.
#[derive(Debug)]
pub struct SessionTable<S> {
    slots: Vec<Slot<S>>,
}

/// Whether one of the slots has this name.
spec fn taken<S>(slots: Seq<Slot<S>>, id: Seq<char>) -> bool {
    exists|i: int| 0 <= i < slots.len() && (#[trigger] slots[i]).id@ == id
}

spec fn position<S>(slots: Seq<Slot<S>>, id: Seq<char>) -> int {
    choose|i: int| 0 <= i < slots.len() && (#[trigger] slots[i]).id@ == id
}

spec fn table<S>(slots: Seq<Slot<S>>) -> Map<Seq<char>, (Timestamp, S)> {
    Map::new(
        |id: Seq<char>| taken(slots, id),
        |id: Seq<char>|
            (slots[position(slots, id)].expires_at, slots[position(slots, id)].session),
    )
}

spec fn distinct<S>(slots: Seq<Slot<S>>) -> bool {
    forall|i: int, j: int|
        0 <= i < j < slots.len() ==> (#[trigger] slots[i]).id@ != (#[trigger] slots[j]).id@
}

/// The sessions that have not ended at a point in time.
pub open spec fn live<S>(m: Map<Seq<char>, (Timestamp, S)>, now: Timestamp) -> Map<
    Seq<char>,
    (Timestamp, S),
> {
    m.restrict(
        Set::new(|id: Seq<char>| m.dom().contains(id) && !now.at_or_after(m[id].0)),
    )
}

impl<S> View for SessionTable<S> {
    type V = Map<Seq<char>, (Timestamp, S)>;

    closed spec fn view(&self) -> Map<Seq<char>, (Timestamp, S)> {
        table(self.slots@)
    }
}

proof fn slot_is_in_table<S>(slots: Seq<Slot<S>>, i: int)
    requires
        distinct(slots),
        0 <= i < slots.len(),
    ensures
        table(slots).dom().contains(slots[i].id@),
        table(slots)[slots[i].id@] == (slots[i].expires_at, slots[i].session),
{
    let p = position(slots, slots[i].id@);
    assert(slots[i].id@ == slots[i].id@);
    assert(0 <= p < slots.len() && slots[p].id@ == slots[i].id@);
    if p < i {
        assert(slots[p].id@ != slots[i].id@);
    }
    if i < p {
        assert(slots[i].id@ != slots[p].id@);
    }
}

proof fn slot_removed<S>(slots: Seq<Slot<S>>, i: int)
    requires
        distinct(slots),
        0 <= i < slots.len(),
    ensures
        distinct(slots.remove(i)),
        table(slots.remove(i)) == table(slots).remove(slots[i].id@),
{
    let rest = slots.remove(i);
    let m = table(slots);
    let gone = slots[i].id@;
    assert forall|j: int, k: int| 0 <= j < k < rest.len() implies (#[trigger] rest[j]).id@ != (
    #[trigger] rest[k]).id@ by {
        let j0 = if j < i {
            j
        } else {
            j + 1
        };
        let k0 = if k < i {
            k
        } else {
            k + 1
        };
        assert(rest[j] == slots[j0] && rest[k] == slots[k0]);
    }
    assert forall|id: Seq<char>| table(rest).dom().contains(id) == m.remove(gone).dom().contains(
        id,
    ) by {
        if taken(rest, id) {
            let j = position(rest, id);
            let j0 = if j < i {
                j
            } else {
                j + 1
            };
            assert(rest[j] == slots[j0]);
            slot_is_in_table(slots, j0);
            if j0 < i {
                assert(slots[j0].id@ != slots[i].id@);
            } else {
                assert(slots[i].id@ != slots[j0].id@);
            }
        }
        if taken(slots, id) && id != gone {
            let j = position(slots, id);
            let j1 = if j < i {
                j
            } else {
                j - 1
            };
            assert(rest[j1] == slots[j]);
        }
    }
    assert forall|id: Seq<char>| table(rest).dom().contains(id) implies table(rest)[id] == m.remove(
        gone,
    )[id] by {
        let j = position(rest, id);
        let j0 = if j < i {
            j
        } else {
            j + 1
        };
        assert(rest[j] == slots[j0]);
        slot_is_in_table(slots, j0);
        slot_is_in_table(rest, j);
    }
    assert(table(rest) =~= m.remove(gone));
}

proof fn slot_added<S>(slots: Seq<Slot<S>>, slot: Slot<S>)
    requires
        distinct(slots),
        !taken(slots, slot.id@),
    ensures
        distinct(slots.push(slot)),
        table(slots.push(slot)) == table(slots).insert(slot.id@, (slot.expires_at, slot.session)),
{
    let more = slots.push(slot);
    let m = table(slots);
    assert forall|j: int, k: int| 0 <= j < k < more.len() implies (#[trigger] more[j]).id@ != (
    #[trigger] more[k]).id@ by {
        assert(more[j] == slots[j]);
        if k == slots.len() {
            assert(slots[j].id@ != slot.id@);
        }
    }
    let wanted = m.insert(slot.id@, (slot.expires_at, slot.session));
    assert forall|id: Seq<char>| table(more).dom().contains(id) == wanted.dom().contains(id) by {
        if taken(slots, id) {
            let j = position(slots, id);
            assert(more[j] == slots[j]);
        }
        assert(more[slots.len() as int] == slot);
        if taken(more, id) && id != slot.id@ {
            let j = position(more, id);
            assert(more[j] == slots[j]);
        }
    }
    assert forall|id: Seq<char>| table(more).dom().contains(id) implies table(more)[id]
        == wanted[id] by {
        let j = position(more, id);
        slot_is_in_table(more, j);
        if j < slots.len() {
            slot_is_in_table(slots, j);
        }
    }
    assert(table(more) =~= wanted);
}

impl<S> SessionTable<S> {
    /// Whether no two logins have the same name.
    pub closed spec fn wf(self) -> bool {
        distinct(self.slots@)
    }

    /// No logins.
    pub fn new() -> (r: Self)
        ensures
            r.wf(),
            r@ == Map::<Seq<char>, (Timestamp, S)>::empty(),
    {
        let r = SessionTable { slots: Vec::new() };
        assert(r@ =~= Map::<Seq<char>, (Timestamp, S)>::empty());
        r
    }

    fn find(&self, id: &str) -> (r: Option<usize>)
        ensures
            match r {
                Some(i) => i < self.slots@.len() && self.slots@[i as int].id@ == id@,
                None => !taken(self.slots@, id@),
            },
    {
        let mut i: usize = 0;
        while i < self.slots.len()
            invariant
                i <= self.slots@.len(),
                forall|j: int| 0 <= j < i ==> (#[trigger] self.slots@[j]).id@ != id@,
            decreases self.slots@.len() - i,
        {
            if same_text(self.slots[i].id.as_str(), id) {
                return Some(i);
            }
            i = i + 1;
        }
        None
    }

    /// The login under a name, if there is one.
    pub fn get(&self, id: &str) -> (r: Option<&Slot<S>>)
        requires
            self.wf(),
        ensures
            match r {
                Some(slot) => {
                    &&& self@.dom().contains(id@)
                    &&& slot.id@ == id@
                    &&& self@[id@] == (slot.expires_at, slot.session)
                },
                None => !self@.dom().contains(id@),
            },
    {
        match self.find(id) {
            Some(i) => {
                proof {
                    slot_is_in_table(self.slots@, i as int);
                }
                Some(&self.slots[i])
            },
            None => None,
        }
    }

    /// Takes the login under a name out, if there is one.
    pub fn remove(&mut self, id: &str) -> (r: Option<Slot<S>>)
        requires
            old(self).wf(),
        ensures
            final(self).wf(),
            final(self)@ == old(self)@.remove(id@),
            match r {
                Some(slot) => {
                    &&& old(self)@.dom().contains(id@)
                    &&& slot.id@ == id@
                    &&& old(self)@[id@] == (slot.expires_at, slot.session)
                },
                None => !old(self)@.dom().contains(id@),
            },
    {
        match self.find(id) {
            Some(i) => {
                proof {
                    slot_is_in_table(self.slots@, i as int);
                    slot_removed(self.slots@, i as int);
                }
                Some(self.slots.remove(i))
            },
            None => {
                assert(self@.remove(id@) =~= self@);
                None
            },
        }
    }

    /// Puts a login under a name, in place of the one that was there.
    pub fn insert(&mut self, id: String, expires_at: Timestamp, session: S)
        requires
            old(self).wf(),
        ensures
            final(self).wf(),
            final(self)@ == old(self)@.insert(id@, (expires_at, session)),
    {
        let ghost before = self@;
        let gone = self.remove(id.as_str());
        let slot = Slot { id, expires_at, session };
        proof {
            assert(!self@.dom().contains(slot.id@));
            slot_added(self.slots@, slot);
            assert(self@.insert(slot.id@, (expires_at, session)) =~= before.insert(
                slot.id@,
                (expires_at, session),
            ));
        }
        self.slots.push(slot);
    }

    /// Forgets the logins that have ended.
    pub fn purge(&mut self, now: &Timestamp)
        requires
            old(self).wf(),
        ensures
            final(self).wf(),
            final(self)@ == live(old(self)@, *now),
    {
        let mut i: usize = 0;
        while i < self.slots.len()
            invariant
                self.wf(),
                i <= self.slots@.len(),
                forall|j: int|
                    0 <= j < i ==> !now.at_or_after((#[trigger] self.slots@[j]).expires_at),
                live(self@, *now) == live(old(self)@, *now),
            decreases self.slots@.len() - i,
        {
            if now.is_at_or_after(&self.slots[i].expires_at) {
                proof {
                    slot_is_in_table(self.slots@, i as int);
                    slot_removed(self.slots@, i as int);
                    assert(live(self@.remove(self.slots@[i as int].id@), *now) =~= live(
                        self@,
                        *now,
                    ));
                }
                self.slots.remove(i);
            } else {
                i = i + 1;
            }
        }
        proof {
            assert forall|id: Seq<char>| self@.dom().contains(id) implies !now.at_or_after(
                self@[id].0,
            ) by {
                let j = position(self.slots@, id);
                slot_is_in_table(self.slots@, j);
            }
            assert(live(self@, *now) =~= self@);
        }
    }
}

/// A login that is put under a name is found under it, with its end and what it holds,
/// until it is taken out; logins under other names are not touched.
pub proof fn a_login_is_found_under_its_name<S>(
    before: SessionTable<S>,
    kept: SessionTable<S>,
    taken_out: SessionTable<S>,
    id: String,
    expires_at: Timestamp,
    session: S,
    name: &str,
    other: Seq<char>,
    found: Option<&Slot<S>>,
    gone: Option<Slot<S>>,
    nothing: Option<&Slot<S>>,
)
    requires
        before.wf(),
        exists|t: &mut SessionTable<S>| #[trigger]
            call_ensures(SessionTable::<S>::insert, (t, id, expires_at, session), ()) && *t
                == before && *final(t) == kept,
        name@ == id@ && other != id@,
        call_ensures(SessionTable::<S>::get, (&kept, name), found),
        exists|t: &mut SessionTable<S>| #[trigger]
            call_ensures(SessionTable::<S>::remove, (t, name), gone) && *t == kept && *final(t)
                == taken_out,
        call_ensures(SessionTable::<S>::get, (&taken_out, name), nothing),
    ensures
        found matches Some(slot) && slot.id@ == id@ && slot.expires_at == expires_at && slot.session
            == session,
        gone matches Some(slot) && slot.expires_at == expires_at && slot.session == session,
        nothing is None,
        kept@.dom().contains(other) <==> before@.dom().contains(other),
        taken_out@.dom().contains(other) <==> before@.dom().contains(other),
        before@.dom().contains(other) ==> kept@[other] == before@[other] && taken_out@[other]
            == before@[other],
        kept.wf() && taken_out.wf(),
{
}

/// Forgetting the logins that have ended keeps exactly the others.
pub proof fn forgetting_keeps_the_others<S>(
    before: SessionTable<S>,
    after: SessionTable<S>,
    now: Timestamp,
    id: Seq<char>,
)
    requires
        exists|t: &mut SessionTable<S>| #[trigger]
            call_ensures(SessionTable::<S>::purge, (t, &now), ()) && *t == before && *final(t)
                == after,
    ensures
        after@.dom().contains(id) <==> before@.dom().contains(id) && !now.at_or_after(
            before@[id].0,
        ),
        after@.dom().contains(id) ==> after@[id] == before@[id],
{
}

} // verus!
