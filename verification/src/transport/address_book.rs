//! Addresses of actors that the signaling server has told of.
use crate::protocol::{ActrId, ActrIdView};
use vstd::prelude::*;

verus! {

/// Addresses by actor.
#[derive(Debug)]
pub struct AddressBook {
    entries: Vec<(ActrId, String)>,
}

/// The actor of entry `i` occurs once.
spec fn distinct(entries: Seq<(ActrId, String)>) -> bool {
    forall|i: int, j: int|
        0 <= i < j < entries.len() ==> (#[trigger] entries[i]).0@ != (#[trigger] entries[j]).0@
}

/// The addresses of the first `n` entries.
spec fn book(entries: Seq<(ActrId, String)>, n: int) -> Map<ActrIdView, Seq<char>>
    decreases n,
{
    if n <= 0 {
        Map::empty()
    } else {
        book(entries, n - 1).insert(entries[n - 1].0@, entries[n - 1].1@)
    }
}

impl View for AddressBook {
    type V = Map<ActrIdView, Seq<char>>;

    closed spec fn view(&self) -> Map<ActrIdView, Seq<char>> {
        book(self.entries@, self.entries@.len() as int)
    }
}

proof fn lemma_book_entry(entries: Seq<(ActrId, String)>, n: int, i: int)
    requires
        distinct(entries),
        0 <= i < n <= entries.len(),
    ensures
        book(entries, n).contains_key(entries[i].0@),
        book(entries, n)[entries[i].0@] == entries[i].1@,
    decreases n,
{
    if i < n - 1 {
        lemma_book_entry(entries, n - 1, i);
        assert(entries[i].0@ != entries[n - 1].0@);
    }
}

proof fn lemma_book_absent(entries: Seq<(ActrId, String)>, n: int, id: ActrIdView)
    requires
        0 <= n <= entries.len(),
        forall|i: int| 0 <= i < n ==> (#[trigger] entries[i]).0@ != id,
    ensures
        !book(entries, n).contains_key(id),
    decreases n,
{
    if n > 0 {
        lemma_book_absent(entries, n - 1, id);
        assert(entries[n - 1].0@ != id);
    }
}

proof fn lemma_book_same(a: Seq<(ActrId, String)>, b: Seq<(ActrId, String)>, n: int)
    requires
        n <= a.len(),
        n <= b.len(),
        forall|i: int| 0 <= i < n ==> a[i] == b[i],
    ensures
        book(a, n) == book(b, n),
    decreases n,
{
    if n > 0 {
        lemma_book_same(a, b, n - 1);
    }
}

proof fn lemma_book_replaced(
    a: Seq<(ActrId, String)>,
    b: Seq<(ActrId, String)>,
    at: int,
    n: int,
)
    requires
        distinct(a),
        0 <= at < n <= a.len(),
        a.len() == b.len(),
        b[at].0@ == a[at].0@,
        forall|i: int| 0 <= i < a.len() && i != at ==> a[i] == b[i],
    ensures
        book(b, n) == book(a, n).insert(a[at].0@, b[at].1@),
    decreases n,
{
    if at == n - 1 {
        lemma_book_same(a, b, n - 1);
        assert(book(b, n) =~= book(a, n).insert(a[at].0@, b[at].1@));
    } else {
        lemma_book_replaced(a, b, at, n - 1);
        assert(a[n - 1].0@ != a[at].0@);
        assert(book(b, n) =~= book(a, n).insert(a[at].0@, b[at].1@));
    }
}

impl AddressBook {
    #[verifier::type_invariant]
    spec fn no_actor_twice(self) -> bool {
        distinct(self.entries@)
    }

    /// A book without addresses.
    pub fn new() -> (b: Self)
        ensures
            b@ == Map::<ActrIdView, Seq<char>>::empty(),
    {
        AddressBook { entries: Vec::new() }
    }

    fn position(&self, id: &ActrId) -> (r: Option<usize>)
        ensures
            match r {
                Some(i) => i < self.entries@.len() && self.entries@[i as int].0@ == id@,
                None => forall|i: int|
                    0 <= i < self.entries@.len() ==> (#[trigger] self.entries@[i]).0@ != id@,
            },
    {
        let mut i: usize = 0;
        while i < self.entries.len()
            invariant
                i <= self.entries@.len(),
                forall|k: int| 0 <= k < i ==> (#[trigger] self.entries@[k]).0@ != id@,
            decreases self.entries@.len() - i,
        {
            if self.entries[i].0.same_as(id) {
                return Some(i);
            }
            i = i + 1;
        }
        None
    }

    /// The address of an actor, if it is known.
    pub fn get(&self, id: &ActrId) -> (r: Option<String>)
        ensures
            match r {
                Some(address) => self@.contains_key(id@) && self@[id@] == address@,
                None => !self@.contains_key(id@),
            },
    {
        proof {
            use_type_invariant(self);
        }
        match self.position(id) {
            Some(i) => {
                proof {
                    lemma_book_entry(self.entries@, self.entries@.len() as int, i as int);
                }
                Some(self.entries[i].1.clone())
            },
            None => {
                proof {
                    lemma_book_absent(self.entries@, self.entries@.len() as int, id@);
                }
                None
            },
        }
    }

    /// Notes the address of an actor, in place of an earlier one.
    pub fn insert(&mut self, id: ActrId, address: String)
        ensures
            final(self)@ == old(self)@.insert(id@, address@),
    {
        proof {
            use_type_invariant(&*self);
        }
        let at: Option<usize> = self.position(&id);
        let mut entries: Vec<(ActrId, String)> = Vec::new();
        std::mem::swap(&mut entries, &mut self.entries);
        let ghost before = entries@;
        match at {
            Some(i) => {
                entries.set(i, (id, address));
                proof {
                    lemma_book_replaced(before, entries@, i as int, before.len() as int);
                    assert(entries@[i as int].0@ == before[i as int].0@);
                    assert forall|j: int, k: int| 0 <= j < k < entries@.len() implies (
                    #[trigger] entries@[j]).0@ != (#[trigger] entries@[k]).0@ by {
                        assert(before[j].0@ != before[k].0@);
                    }
                }
            },
            None => {
                entries.push((id, address));
                proof {
                    lemma_book_same(before, entries@, before.len() as int);
                }
            },
        }
        self.entries = entries;
        assert(self@ =~= old(self)@.insert(id@, address@));
    }
}

// ── Laws ──────────────────────────────────────────────────────────────────────

/// An address that was noted is that of its actor, in place of any earlier one; those of other
/// actors stay, and a new book knows none.
pub proof fn a_noted_address_is_found(
    book: &mut AddressBook,
    id: ActrId,
    address: String,
    wanted: ActrId,
    before: Option<String>,
    after: Option<String>,
    same: bool,
    fresh: AddressBook,
    none: Option<String>,
)
    requires
        call_ensures(AddressBook::get, (&*old(book), &wanted), before),
        call_ensures(AddressBook::insert, (book, id, address), ()),
        call_ensures(AddressBook::get, (&*final(book), &wanted), after),
        call_ensures(ActrId::same_as, (&wanted, &id), same),
        call_ensures(AddressBook::new, (), fresh),
        call_ensures(AddressBook::get, (&fresh, &wanted), none),
    ensures
        same ==> after is Some && after->0@ == address@,
        !same ==> (after is Some <==> before is Some) && (after is Some ==> after->0@
            == before->0@),
        none is None,
{
}

}
