//! Environment tables: names to values, each name once.

use vstd::prelude::*;
use vstd::string::*;

use crate::text;

verus! {

/// A table of environment variables. Each name occurs once.
#[derive(Debug, Clone)]
pub struct EnvMap {
    pub entries: Vec<(String, String)>,
}

/// The entries as plain values.
pub open spec fn pairs(entries: Seq<(String, String)>) -> Seq<(Seq<char>, Seq<char>)> {
    entries.map_values(|e: (String, String)| (e.0@, e.1@))
}

/// The table that a list of assignments leaves: a later one replaces an
/// earlier one of the same name.
pub open spec fn assigned(list: Seq<(Seq<char>, Seq<char>)>) -> Map<Seq<char>, Seq<char>>
    decreases list.len(),
{
    if list.len() == 0 {
        Map::empty()
    } else {
        assigned(list.drop_last()).insert(list.last().0, list.last().1)
    }
}

/// No name stands in the list twice.
pub open spec fn names_once(list: Seq<(Seq<char>, Seq<char>)>) -> bool {
    forall|i: int, j: int|
        0 <= i < j < list.len() ==> (#[trigger] list[i]).0 != (#[trigger] list[j]).0
}

impl View for EnvMap {
    type V = Map<Seq<char>, Seq<char>>;

    open spec fn view(&self) -> Map<Seq<char>, Seq<char>> {
        assigned(pairs(self.entries@))
    }
}

pub proof fn lemma_assigned_domain(list: Seq<(Seq<char>, Seq<char>)>, name: Seq<char>)
    ensures
        assigned(list).contains_key(name) <==> exists|i: int|
            0 <= i < list.len() && (#[trigger] list[i]).0 == name,
    decreases list.len(),
{
    if list.len() > 0 {
        lemma_assigned_domain(list.drop_last(), name);
        if assigned(list).contains_key(name) {
            if list.last().0 == name {
                assert(list[list.len() - 1].0 == name);
            } else {
                let i = choose|i: int|
                    0 <= i < list.drop_last().len() && (#[trigger] list.drop_last()[i]).0 == name;
                assert(list[i].0 == name);
            }
        }
        if exists|i: int| 0 <= i < list.len() && (#[trigger] list[i]).0 == name {
            let i = choose|i: int| 0 <= i < list.len() && (#[trigger] list[i]).0 == name;
            if i < list.len() - 1 {
                assert(list.drop_last()[i].0 == name);
            }
        }
    }
}

proof fn lemma_assigned_at(list: Seq<(Seq<char>, Seq<char>)>, at: int)
    requires
        names_once(list),
        0 <= at < list.len(),
    ensures
        assigned(list).contains_key(list[at].0),
        assigned(list)[list[at].0] == list[at].1,
    decreases list.len(),
{
    if at < list.len() - 1 {
        assert(list.drop_last()[at] == list[at]);
        assert(names_once(list.drop_last())) by {
            assert forall|i: int, j: int| 0 <= i < j < list.drop_last().len() implies (
            #[trigger] list.drop_last()[i]).0 != (#[trigger] list.drop_last()[j]).0 by {
                assert(list[i].0 != list[j].0);
            }
        }
        lemma_assigned_at(list.drop_last(), at);
        assert(list[at].0 != list[list.len() - 1].0);
    }
}

proof fn lemma_assigned_update(list: Seq<(Seq<char>, Seq<char>)>, at: int, value: Seq<char>)
    requires
        names_once(list),
        0 <= at < list.len(),
    ensures
        assigned(list.update(at, (list[at].0, value))) == assigned(list).insert(list[at].0, value),
    decreases list.len(),
{
    let changed = list.update(at, (list[at].0, value));
    if at == list.len() - 1 {
        assert(changed.drop_last() =~= list.drop_last());
        assert(assigned(changed) =~= assigned(list).insert(list[at].0, value));
    } else {
        assert(changed.drop_last() =~= list.drop_last().update(at, (list[at].0, value)));
        assert(names_once(list.drop_last())) by {
            assert forall|i: int, j: int| 0 <= i < j < list.drop_last().len() implies (
            #[trigger] list.drop_last()[i]).0 != (#[trigger] list.drop_last()[j]).0 by {
                assert(list[i].0 != list[j].0);
            }
        }
        lemma_assigned_update(list.drop_last(), at, value);
        assert(list[at].0 != list[list.len() - 1].0);
        assert(assigned(changed) =~= assigned(list).insert(list[at].0, value));
    }
}

proof fn lemma_assigned_len(list: Seq<(Seq<char>, Seq<char>)>)
    requires
        names_once(list),
    ensures
        assigned(list).dom().finite(),
        assigned(list).dom().len() == list.len(),
    decreases list.len(),
{
    if list.len() > 0 {
        assert(names_once(list.drop_last())) by {
            assert forall|i: int, j: int| 0 <= i < j < list.drop_last().len() implies (
            #[trigger] list.drop_last()[i]).0 != (#[trigger] list.drop_last()[j]).0 by {
                assert(list[i].0 != list[j].0);
            }
        }
        lemma_assigned_len(list.drop_last());
        lemma_assigned_domain(list.drop_last(), list.last().0);
        assert forall|i: int| 0 <= i < list.drop_last().len() implies (
        #[trigger] list.drop_last()[i]).0 != list.last().0 by {
            assert(list[i].0 != list[list.len() - 1].0);
        }
    }
}

impl EnvMap {
    /// Each name occurs once.
    pub open spec fn wf(&self) -> bool {
        names_once(pairs(self.entries@))
    }

    pub fn new() -> (out: EnvMap)
        ensures
            out.wf(),
            out@ == Map::<Seq<char>, Seq<char>>::empty(),
    {
        EnvMap { entries: Vec::new() }
    }

    /// The position of a name.
    fn position(&self, name: &str) -> (r: Option<usize>)
        requires
            self.wf(),
        ensures
            match r {
                Some(i) => i < self.entries@.len() && self.entries@[i as int].0@ == name@
                    && self@.contains_key(name@) && self@[name@] == self.entries@[i as int].1@,
                None => !self@.contains_key(name@) && forall|i: int|
                    0 <= i < self.entries@.len() ==> (#[trigger] self.entries@[i]).0@ != name@,
            },
    {
        let ghost list = pairs(self.entries@);
        for i in 0..self.entries.len()
            invariant
                self.wf(),
                list == pairs(self.entries@),
                forall|j: int| 0 <= j < i ==> (#[trigger] self.entries@[j]).0@ != name@,
        {
            if text::same(self.entries[i].0.as_str(), name) {
                proof {
                    assert(list[i as int] == (
                        self.entries@[i as int].0@,
                        self.entries@[i as int].1@,
                    ));
                    lemma_assigned_at(list, i as int);
                }
                return Some(i);
            }
        }
        proof {
            lemma_assigned_domain(list, name@);
            if self@.contains_key(name@) {
                let i = choose|i: int| 0 <= i < list.len() && (#[trigger] list[i]).0 == name@;
                assert(self.entries@[i].0@ == name@);
            }
        }
        None
    }

    /// Set a variable, replacing what it held.
    pub fn insert(&mut self, name: String, value: String)
        requires
            old(self).wf(),
        ensures
            final(self).wf(),
            final(self)@ == old(self)@.insert(name@, value@),
    {
        let ghost before = pairs(self.entries@);
        match self.position(name.as_str()) {
            Some(i) => {
                proof {
                    assert(before[i as int].0 == name@);
                    lemma_assigned_update(before, i as int, value@);
                }
                let ghost held = value@;
                self.entries.set(i, (name, value));
                proof {
                    assert(pairs(self.entries@) =~= before.update(i as int, (before[i as int].0, held)));
                    assert forall|a: int, b: int| 0 <= a < b < pairs(self.entries@).len() implies (
                    #[trigger] pairs(self.entries@)[a]).0 != (#[trigger] pairs(
                        self.entries@,
                    )[b]).0 by {
                        assert(before[a].0 != before[b].0);
                    }
                }
            },
            None => {
                let ghost entries = self.entries@;
                let ghost set = (name@, value@);
                self.entries.push((name, value));
                proof {
                    assert(pairs(self.entries@) =~= before.push(set));
                    assert(pairs(self.entries@).drop_last() =~= before);
                    assert forall|a: int, b: int| 0 <= a < b < pairs(self.entries@).len() implies (
                    #[trigger] pairs(self.entries@)[a]).0 != (#[trigger] pairs(
                        self.entries@,
                    )[b]).0 by {
                        if b < before.len() {
                            assert(before[a].0 != before[b].0);
                        } else {
                            assert(entries[a].0@ != set.0);
                        }
                    }
                }
            },
        }
    }

    /// What a variable is set to.
    pub fn get(&self, name: &str) -> (r: Option<&str>)
        requires
            self.wf(),
        ensures
            match r {
                Some(value) => self@.contains_key(name@) && self@[name@] == value@,
                None => !self@.contains_key(name@),
            },
    {
        match self.position(name) {
            Some(i) => Some(self.entries[i].1.as_str()),
            None => None,
        }
    }

    /// How many variables are set.
    pub fn len(&self) -> (r: usize)
        requires
            self.wf(),
        ensures
            self@.dom().finite(),
            r == self@.dom().len(),
    {
        proof {
            lemma_assigned_len(pairs(self.entries@));
        }
        self.entries.len()
    }

    /// Set every variable of `over` too; where both hold a name, `over` wins.
    pub fn extend(&mut self, over: &EnvMap)
        requires
            old(self).wf(),
            over.wf(),
        ensures
            final(self).wf(),
            final(self)@ == old(self)@.union_prefer_right(over@),
    {
        let ghost base = self@;
        let ghost list = pairs(over.entries@);
        assert(self@ =~= base.union_prefer_right(assigned(list.take(0))));
        for i in 0..over.entries.len()
            invariant
                self.wf(),
                over.wf(),
                list == pairs(over.entries@),
                self@ == base.union_prefer_right(assigned(list.take(i as int))),
        {
            let entry = &over.entries[i];
            self.insert(entry.0.clone(), entry.1.clone());
            proof {
                assert(list.take(i + 1).drop_last() =~= list.take(i as int));
                assert(list.take(i + 1).last() == (entry.0@, entry.1@));
                assert(self@ =~= base.union_prefer_right(assigned(list.take(i + 1))));
            }
        }
        assert(list.take(list.len() as int) =~= list);
    }
}

} // verus!
