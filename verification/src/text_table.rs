//! Values by name, in the order in which the names were first entered.
use crate::text::same;
use vstd::prelude::*;

verus! {

/// Values by name. No name occurs twice.
#[derive(Debug)]
pub struct TextTable<V> {
    entries: Vec<(String, V)>,
}

/// The values of the first `n` entries by name.
pub open spec fn table_of<V>(entries: Seq<(String, V)>, n: int) -> Map<Seq<char>, V>
    decreases n,
{
    if n <= 0 {
        Map::empty()
    } else {
        table_of(entries, n - 1).insert(entries[n - 1].0@, entries[n - 1].1)
    }
}

/// No name occurs twice.
pub open spec fn names_distinct<V>(entries: Seq<(String, V)>) -> bool {
    forall|i: int, j: int|
        0 <= i < j < entries.len() ==> (#[trigger] entries[i]).0@ != (#[trigger] entries[j]).0@
}

/// The entries once a value has been entered under a name: at the place of that name, or
/// else at the end.
pub open spec fn entered<V>(entries: Seq<(String, V)>, name: String, value: V) -> Seq<(String, V)> {
    if exists|i: int| 0 <= i < entries.len() && (#[trigger] entries[i]).0@ == name@ {
        entries.map_values(
            |e: (String, V)|
                if e.0@ == name@ {
                    (name, value)
                } else {
                    e
                },
        )
    } else {
        entries.push((name, value))
    }
}

/// The entries once the first `n` of `more` have been entered.
pub open spec fn all_entered<V>(entries: Seq<(String, V)>, more: Seq<(String, V)>, n: int) -> Seq<
    (String, V),
>
    decreases n,
{
    if n <= 0 {
        entries
    } else {
        entered(all_entered(entries, more, n - 1), more[n - 1].0, more[n - 1].1)
    }
}

impl<V> View for TextTable<V> {
    type V = Map<Seq<char>, V>;

    closed spec fn view(&self) -> Map<Seq<char>, V> {
        table_of(self.entries@, self.entries@.len() as int)
    }
}

proof fn lemma_entry<V>(entries: Seq<(String, V)>, n: int, i: int)
    requires
        names_distinct(entries),
        0 <= i < n <= entries.len(),
    ensures
        table_of(entries, n).contains_key(entries[i].0@),
        table_of(entries, n)[entries[i].0@] == entries[i].1,
    decreases n,
{
    if i < n - 1 {
        lemma_entry(entries, n - 1, i);
        assert(entries[i].0@ != entries[n - 1].0@);
    }
}

proof fn lemma_absent<V>(entries: Seq<(String, V)>, n: int, name: Seq<char>)
    requires
        0 <= n <= entries.len(),
        forall|i: int| 0 <= i < n ==> (#[trigger] entries[i]).0@ != name,
    ensures
        !table_of(entries, n).contains_key(name),
    decreases n,
{
    if n > 0 {
        lemma_absent(entries, n - 1, name);
        assert(entries[n - 1].0@ != name);
    }
}

proof fn lemma_same<V>(a: Seq<(String, V)>, b: Seq<(String, V)>, n: int)
    requires
        n <= a.len(),
        n <= b.len(),
        forall|i: int| 0 <= i < n ==> a[i] == b[i],
    ensures
        table_of(a, n) == table_of(b, n),
    decreases n,
{
    if n > 0 {
        lemma_same(a, b, n - 1);
    }
}

proof fn lemma_replaced<V>(a: Seq<(String, V)>, b: Seq<(String, V)>, at: int, n: int)
    requires
        names_distinct(a),
        0 <= at < n <= a.len(),
        a.len() == b.len(),
        b[at].0@ == a[at].0@,
        forall|i: int| 0 <= i < a.len() && i != at ==> a[i] == b[i],
    ensures
        table_of(b, n) == table_of(a, n).insert(a[at].0@, b[at].1),
    decreases n,
{
    if at == n - 1 {
        lemma_same(a, b, n - 1);
        assert(table_of(b, n) =~= table_of(a, n).insert(a[at].0@, b[at].1));
    } else {
        lemma_replaced(a, b, at, n - 1);
        assert(a[n - 1].0@ != a[at].0@);
        assert(table_of(b, n) =~= table_of(a, n).insert(a[at].0@, b[at].1));
    }
}

impl<V> TextTable<V> {
    #[verifier::type_invariant]
    spec fn no_name_twice(self) -> bool {
        names_distinct(self.entries@)
    }

    /// The entries, in the order in which their names were first entered.
    pub closed spec fn listing(&self) -> Seq<(String, V)> {
        self.entries@
    }

    /// A table without entries.
    pub fn new() -> (t: Self)
        ensures
            t@ == Map::<Seq<char>, V>::empty(),
            t.listing() == Seq::<(String, V)>::empty(),
    {
        TextTable { entries: Vec::new() }
    }

    /// The entries, in the order in which their names were first entered.
    pub fn entries(&self) -> (v: &Vec<(String, V)>)
        ensures
            v@ == self.listing(),
            names_distinct(v@),
            self@ == table_of(v@, v@.len() as int),
    {
        proof {
            use_type_invariant(self);
        }
        &self.entries
    }

    fn position(&self, name: &str) -> (r: Option<usize>)
        ensures
            match r {
                Some(i) => i < self.entries@.len() && self.entries@[i as int].0@ == name@,
                None => forall|i: int|
                    0 <= i < self.entries@.len() ==> (#[trigger] self.entries@[i]).0@ != name@,
            },
    {
        let mut i: usize = 0;
        while i < self.entries.len()
            invariant
                i <= self.entries@.len(),
                forall|k: int| 0 <= k < i ==> (#[trigger] self.entries@[k]).0@ != name@,
            decreases self.entries@.len() - i,
        {
            if same(self.entries[i].0.as_str(), name) {
                return Some(i);
            }
            i = i + 1;
        }
        None
    }

    /// The value under a name, if there is one.
    pub fn get(&self, name: &str) -> (r: Option<&V>)
        ensures
            match r {
                Some(v) => self@.contains_key(name@) && self@[name@] == *v,
                None => !self@.contains_key(name@),
            },
    {
        proof {
            use_type_invariant(self);
        }
        match self.position(name) {
            Some(i) => {
                proof {
                    lemma_entry(self.entries@, self.entries@.len() as int, i as int);
                }
                Some(&self.entries[i].1)
            },
            None => {
                proof {
                    lemma_absent(self.entries@, self.entries@.len() as int, name@);
                }
                None
            },
        }
    }

    /// Enters a value under a name, in place of an earlier one.
    pub fn insert(&mut self, name: String, value: V)
        ensures
            final(self)@ == old(self)@.insert(name@, value),
            final(self).listing() == entered(old(self).listing(), name, value),
    {
        proof {
            use_type_invariant(&*self);
        }
        let at: Option<usize> = self.position(name.as_str());
        let mut entries: Vec<(String, V)> = Vec::new();
        std::mem::swap(&mut entries, &mut self.entries);
        let ghost before = entries@;
        match at {
            Some(i) => {
                entries.set(i, (name, value));
                proof {
                    assert forall|j: int| 0 <= j < before.len() implies (#[trigger] before[j]).0@
                        == name@ ==> j == i by {
                        assert(before[i as int].0@ == name@);
                    }
                    assert(entries@ =~= entered(before, name, value));
                    lemma_replaced(before, entries@, i as int, before.len() as int);
                    assert forall|j: int, k: int| 0 <= j < k < entries@.len() implies (
                    #[trigger] entries@[j]).0@ != (#[trigger] entries@[k]).0@ by {
                        assert(before[j].0@ != before[k].0@);
                    }
                }
            },
            None => {
                entries.push((name, value));
                proof {
                    lemma_same(before, entries@, before.len() as int);
                }
            },
        }
        self.entries = entries;
        assert(self@ =~= old(self)@.insert(name@, value));
    }

    /// Enters every entry of `other`, in place of earlier ones under the same names.
    pub fn extend(&mut self, other: TextTable<V>)
        ensures
            final(self)@ == old(self)@.union_prefer_right(other@),
            final(self).listing() == all_entered(
                old(self).listing(),
                other.listing(),
                other.listing().len() as int,
            ),
    {
        proof {
            use_type_invariant(&other);
        }
        let ghost theirs = other.entries@;
        let ghost mine = self@;
        let ghost listed = self.listing();
        let mut rest: Vec<(String, V)> = other.entries;
        let mut reversed: Vec<(String, V)> = Vec::new();
        while rest.len() > 0
            invariant
                rest@.len() + reversed@.len() == theirs.len(),
                forall|i: int| 0 <= i < rest@.len() ==> rest@[i] == theirs[i],
                forall|i: int|
                    0 <= i < reversed@.len() ==> #[trigger] reversed@[i] == theirs[theirs.len() - 1
                        - i],
            decreases rest@.len(),
        {
            if let Some(entry) = rest.pop() {
                reversed.push(entry);
            }
        }
        assert(self@ =~= mine.union_prefer_right(table_of(theirs, 0)));
        while reversed.len() > 0
            invariant
                reversed@.len() <= theirs.len(),
                forall|i: int|
                    0 <= i < reversed@.len() ==> #[trigger] reversed@[i] == theirs[theirs.len() - 1
                        - i],
                self@ == mine.union_prefer_right(
                    table_of(theirs, theirs.len() - reversed@.len()),
                ),
                self.listing() == all_entered(listed, theirs, theirs.len() - reversed@.len()),
            decreases reversed@.len(),
        {
            let ghost n = theirs.len() - reversed@.len();
            if let Some(entry) = reversed.pop() {
                assert(entry == theirs[n]);
                self.insert(entry.0, entry.1);
                assert(self@ =~= mine.union_prefer_right(table_of(theirs, n + 1)));
            }
        }
    }
}

impl<V: Clone> Clone for TextTable<V> {
    fn clone(&self) -> (t: Self)
        ensures
            t.listing().len() == self.listing().len(),
            forall|i: int|
                0 <= i < t.listing().len() ==> (#[trigger] t.listing()[i]).0@
                    == self.listing()[i].0@ && cloned(self.listing()[i].1, t.listing()[i].1),
    {
        proof {
            use_type_invariant(self);
        }
        let mut entries: Vec<(String, V)> = Vec::new();
        let mut i: usize = 0;
        while i < self.entries.len()
            invariant
                i <= self.entries@.len(),
                entries@.len() == i,
                forall|k: int|
                    0 <= k < i ==> (#[trigger] entries@[k]).0@ == self.entries@[k].0@ && cloned(
                        self.entries@[k].1,
                        entries@[k].1,
                    ),
            decreases self.entries@.len() - i,
        {
            let entry = &self.entries[i];
            entries.push((entry.0.clone(), entry.1.clone()));
            i = i + 1;
        }
        assert forall|j: int, k: int| 0 <= j < k < entries@.len() implies (
        #[trigger] entries@[j]).0@ != (#[trigger] entries@[k]).0@ by {
            assert(self.entries@[j].0@ != self.entries@[k].0@);
        }
        TextTable { entries }
    }
}

// ── Laws ──────────────────────────────────────────────────────────────────────

/// A value that was entered is found under its name, in place of any other; what is under
/// other names stays.
pub proof fn an_entered_value_is_found<V>(
    t: &mut TextTable<V>,
    name: String,
    value: V,
    wanted: &str,
    before: Option<&V>,
    after: Option<&V>,
)
    requires
        call_ensures(TextTable::<V>::get, (&*old(t), wanted), before),
        call_ensures(TextTable::<V>::insert, (t, name, value), ()),
        call_ensures(TextTable::<V>::get, (&*final(t), wanted), after),
    ensures
        after == if wanted@ == name@ {
            Some(&value)
        } else {
            before
        },
{
}

/// A table without entries holds nothing under any name.
pub proof fn a_new_table_is_empty<V>(t: TextTable<V>, wanted: &str, r: Option<&V>)
    requires
        call_ensures(TextTable::<V>::new, (), t),
        call_ensures(TextTable::<V>::get, (&t, wanted), r),
    ensures
        r is None,
        t.listing().len() == 0,
{
}

/// Where two tables are put together, a name that is in the second is the second's, and any
/// other is the first's.
pub proof fn the_second_table_comes_first<V>(
    t: &mut TextTable<V>,
    other: TextTable<V>,
    wanted: &str,
    mine: Option<&V>,
    theirs: Option<&V>,
    both: Option<&V>,
)
    requires
        call_ensures(TextTable::<V>::get, (&*old(t), wanted), mine),
        call_ensures(TextTable::<V>::get, (&other, wanted), theirs),
        call_ensures(TextTable::<V>::extend, (t, other), ()),
        call_ensures(TextTable::<V>::get, (&*final(t), wanted), both),
    ensures
        theirs is Some ==> both == theirs,
        theirs is None ==> both == mine,
{
}

/// Entering a value keeps the other entries in their places: a new name goes to the end, and
/// one that is there stays where it is.
pub proof fn entries_keep_their_places<V>(
    t: &mut TextTable<V>,
    name: String,
    value: V,
    i: int,
)
    requires
        call_ensures(TextTable::<V>::insert, (t, name, value), ()),
        0 <= i < old(t).listing().len(),
    ensures
        final(t).listing()[i] == if old(t).listing()[i].0@ == name@ {
            (name, value)
        } else {
            old(t).listing()[i]
        },
        old(t).listing()[i].0@ == name@ ==> final(t).listing().len() == old(t).listing().len(),
        (forall|k: int|
            0 <= k < old(t).listing().len() ==> (#[trigger] old(t).listing()[k]).0@ != name@)
            ==> final(t).listing() == old(t).listing().push((name, value)),
{
}

/// Every entry that is listed is found under its name, and no name is listed twice.
pub proof fn a_listed_entry_is_found<V>(
    t: TextTable<V>,
    v: &Vec<(String, V)>,
    i: int,
    j: int,
    name: &str,
    r: Option<&V>,
)
    requires
        call_ensures(TextTable::<V>::entries, (&t,), v),
        0 <= i < v@.len(),
        0 <= j < v@.len(),
        name@ == v@[i].0@,
        call_ensures(TextTable::<V>::get, (&t, name), r),
    ensures
        r == Some(&v@[i].1),
        v@[i].0@ == v@[j].0@ ==> i == j,
{
    lemma_entry(v@, v@.len() as int, i);
}

}
