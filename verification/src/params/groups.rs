//! Clauses grouped by the relation that joins them.

use vstd::prelude::*;

verus! {

/// The groups after one more clause came under `relation`: it joins the group
/// of that relation, or starts one at the end.
pub open spec fn groups_with<R, Q>(groups: Seq<(R, Seq<Q>)>, relation: R, query: Q) -> Seq<
    (R, Seq<Q>),
> {
    if exists|i: int| 0 <= i < groups.len() && groups[i].0 == relation {
        let i = choose|i: int| 0 <= i < groups.len() && groups[i].0 == relation;
        groups.update(i, (relation, groups[i].1.push(query)))
    } else {
        groups.push((relation, seq![query]))
    }
}

/// Whether no relation has two groups.
pub open spec fn relations_distinct<R, Q>(groups: Seq<(R, Seq<Q>)>) -> bool {
    forall|i: int, j: int|
        0 <= i < j < groups.len() ==> (#[trigger] groups[i]).0 != (#[trigger] groups[j]).0
}

/// What tells the groups apart.
pub(crate) trait Relation: Copy {
    /// Whether two relations are the same.
    fn same(&self, other: &Self) -> (r: bool)
        ensures
            r == (*self == *other),
    ;
}

/// The clauses that share one relation.
#[derive(Debug)]
struct Group<R, Q> {
    relation: R,
    queries: Vec<Q>,
}

/// Clauses grouped by relation. A relation has at most one group; groups
/// stand in the order in which their first clause came, clauses in the order
/// in which they came.
#[derive(Debug)]
pub(crate) struct Groups<R, Q> {
    groups: Vec<Group<R, Q>>,
}

impl<R, Q> View for Groups<R, Q> {
    type V = Seq<(R, Seq<Q>)>;

    closed spec fn view(&self) -> Self::V {
        Seq::new(self.groups@.len(), |i: int| (self.groups@[i].relation, self.groups@[i].queries@))
    }
}

impl<R, Q> Groups<R, Q> {
    #[verifier::type_invariant]
    spec fn distinct(self) -> bool {
        relations_distinct(self@)
    }
}

impl<R: Relation, Q> Groups<R, Q> {
    pub(crate) fn new() -> (r: Self)
        ensures
            r@ == Seq::<(R, Seq<Q>)>::empty(),
            relations_distinct(r@),
    {
        let r = Groups { groups: Vec::new() };
        assert(r@ =~= Seq::empty());
        r
    }

    /// The number of groups.
    pub(crate) fn len(&self) -> (n: usize)
        ensures
            n == self@.len(),
            relations_distinct(self@),
    {
        proof {
            use_type_invariant(self);
        }
        self.groups.len()
    }

    /// The relation of the group at `i`.
    pub(crate) fn relation_at(&self, i: usize) -> (r: R)
        requires
            i < self@.len(),
        ensures
            r == self@[i as int].0,
    {
        self.groups[i].relation
    }

    /// The clauses of the group at `i`.
    pub(crate) fn queries_at(&self, i: usize) -> (r: &Vec<Q>)
        requires
            i < self@.len(),
        ensures
            r@ == self@[i as int].1,
    {
        &self.groups[i].queries
    }

    /// The clauses under `relation`, if it has any.
    pub(crate) fn get(&self, relation: &R) -> (r: Option<&Vec<Q>>)
        ensures
            match r {
                Some(queries) => exists|i: int|
                    0 <= i < self@.len() && (#[trigger] self@[i]).0 == *relation && self@[i].1
                        == queries@,
                None => forall|i: int| 0 <= i < self@.len() ==> (#[trigger] self@[i]).0 != *relation,
            },
    {
        let mut i: usize = 0;
        while i < self.groups.len()
            invariant
                i <= self.groups@.len(),
                forall|j: int| 0 <= j < i ==> (#[trigger] self@[j]).0 != *relation,
            decreases self.groups@.len() - i,
        {
            if self.groups[i].relation.same(relation) {
                assert(self@[i as int].0 == *relation && self@[i as int].1
                    == self.groups@[i as int].queries@);
                return Some(&self.groups[i].queries);
            }
            i = i + 1;
        }
        None
    }

    /// Files `query` under `relation`.
    pub(crate) fn add(self, relation: R, query: Q) -> (r: Self)
        ensures
            r@ == groups_with(self@, relation, query),
            relations_distinct(r@),
    {
        proof {
            use_type_invariant(&self);
        }
        let ghost before = self@;
        let mut groups = self.groups;
        let mut i: usize = 0;
        while i < groups.len() && !groups[i].relation.same(&relation)
            invariant
                i <= groups@.len(),
                groups == self.groups,
                before == self@,
                forall|j: int| 0 <= j < i ==> (#[trigger] before[j]).0 != relation,
            decreases groups@.len() - i,
        {
            i = i + 1;
        }
        if i < groups.len() {
            let mut group = groups.remove(i);
            group.queries.push(query);
            groups.insert(i, group);
            proof {
                assert(before[i as int].0 == relation);
                let k = choose|k: int| 0 <= k < before.len() && before[k].0 == relation;
                assert(k == i) by {
                    if k < i {
                        assert(before[k].0 != relation);
                    } else if k > i {
                        assert(before[i as int].0 != before[k].0);
                    }
                }
                let after = Seq::new(
                    groups@.len(),
                    |j: int| (groups@[j].relation, groups@[j].queries@),
                );
                assert(after =~= before.update(
                    i as int,
                    (relation, before[i as int].1.push(query)),
                ));
                assert forall|a: int, b: int| 0 <= a < b < after.len() implies (
                #[trigger] after[a]).0 != (#[trigger] after[b]).0 by {
                    assert(before[a].0 != before[b].0);
                }
            }
            Groups { groups }
        } else {
            let mut queries: Vec<Q> = Vec::new();
            queries.push(query);
            groups.push(Group { relation, queries });
            proof {
                assert(queries@ =~= seq![query]);
                let after = Seq::new(
                    groups@.len(),
                    |j: int| (groups@[j].relation, groups@[j].queries@),
                );
                assert(after =~= before.push((relation, seq![query])));
                assert forall|a: int, b: int| 0 <= a < b < after.len() implies (
                #[trigger] after[a]).0 != (#[trigger] after[b]).0 by {
                    if b < before.len() {
                        assert(before[a].0 != before[b].0);
                    } else {
                        assert(before[a].0 != relation);
                    }
                }
            }
            Groups { groups }
        }
    }
}

} // verus!
