//! The votes cast on an issue, keyed by participant name.

use crate::vote::Vote;
use vstd::prelude::*;

verus! {

/// What a reader named `viewer` may see of `votes` while voting is open:
/// the same names, the reader's own vote as cast, `Secret` for every other.
pub open spec fn blinded_votes(votes: Map<Seq<char>, Vote>, viewer: Option<Seq<char>>) -> Map<
    Seq<char>,
    Vote,
> {
    Map::new(
        |name: Seq<char>| votes.contains_key(name),
        |name: Seq<char>|
            if viewer == Some(name) {
                votes[name]
            } else {
                Vote::Secret
            },
    )
}

/// The view of an optional name.
pub open spec fn name_view(name: Option<&String>) -> Option<Seq<char>> {
    match name {
        Some(n) => Some(n@),
        None => None,
    }
}

/// No two entries carry the same name.
pub open spec fn names_distinct(entries: Seq<(String, Vote)>) -> bool {
    forall|i: int, j: int|
        0 <= i < j < entries.len() ==> (#[trigger] entries[i]).0@ != (#[trigger] entries[j]).0@
}

/// Whether some entry carries `name`.
pub open spec fn has_name(entries: Seq<(String, Vote)>, name: Seq<char>) -> bool {
    exists|i: int| 0 <= i < entries.len() && (#[trigger] entries[i]).0@ == name
}

/// The position of an entry that carries `name`.
pub open spec fn position_of(entries: Seq<(String, Vote)>, name: Seq<char>) -> int {
    choose|i: int| 0 <= i < entries.len() && (#[trigger] entries[i]).0@ == name
}

/// The mapping that a list of entries stands for.
pub open spec fn entries_map(entries: Seq<(String, Vote)>) -> Map<Seq<char>, Vote> {
    Map::new(
        |name: Seq<char>| has_name(entries, name),
        |name: Seq<char>| entries[position_of(entries, name)].1,
    )
}

/// With distinct names, the entry at `i` is the one its name maps to.
pub proof fn lemma_entry_is_mapped(entries: Seq<(String, Vote)>, i: int)
    requires
        names_distinct(entries),
        0 <= i < entries.len(),
    ensures
        entries_map(entries).contains_key(entries[i].0@),
        entries_map(entries)[entries[i].0@] == entries[i].1,
{
    let name = entries[i].0@;
    assert(has_name(entries, name));
    let p = position_of(entries, name);
    assert(0 <= p < entries.len() && entries[p].0@ == name);
    if p < i {
        assert(entries[p].0@ != entries[i].0@);
    } else if i < p {
        assert(entries[i].0@ != entries[p].0@);
    }
}

/// Two lists with the same names in the same places hold the same names.
pub proof fn lemma_same_names(a: Seq<(String, Vote)>, b: Seq<(String, Vote)>)
    requires
        a.len() == b.len(),
        forall|i: int| 0 <= i < a.len() ==> (#[trigger] a[i]).0@ == b[i].0@,
    ensures
        names_distinct(a) <==> names_distinct(b),
        forall|name: Seq<char>| has_name(a, name) <==> has_name(b, name),
{
    assert forall|name: Seq<char>| has_name(a, name) <==> has_name(b, name) by {
        if has_name(a, name) {
            let p = position_of(a, name);
            assert(a[p].0@ == b[p].0@);
        }
        if has_name(b, name) {
            let p = position_of(b, name);
            assert(a[p].0@ == b[p].0@);
        }
    }
    if names_distinct(a) {
        assert forall|i: int, j: int| 0 <= i < j < b.len() implies (#[trigger] b[i]).0@ != (
        #[trigger] b[j]).0@ by {
            assert(a[i].0@ == b[i].0@ && a[j].0@ == b[j].0@);
        }
    }
    if names_distinct(b) {
        assert forall|i: int, j: int| 0 <= i < j < a.len() implies (#[trigger] a[i]).0@ != (
        #[trigger] a[j]).0@ by {
            assert(a[i].0@ == b[i].0@ && a[j].0@ == b[j].0@);
        }
    }
}

/// Two lists with the same names and votes in the same places stand for
/// the same mapping.
pub proof fn lemma_same_entries(a: Seq<(String, Vote)>, b: Seq<(String, Vote)>)
    requires
        a.len() == b.len(),
        names_distinct(b),
        forall|i: int| 0 <= i < a.len() ==> (#[trigger] a[i]).0@ == b[i].0@ && a[i].1 == b[i].1,
    ensures
        names_distinct(a),
        entries_map(a) == entries_map(b),
{
    lemma_same_names(a, b);
    assert forall|name: Seq<char>| has_name(a, name) implies entries_map(a)[name] == entries_map(
        b,
    )[name] by {
        let p = position_of(a, name);
        lemma_entry_is_mapped(a, p);
        lemma_entry_is_mapped(b, p);
    }
    assert(entries_map(a) =~= entries_map(b));
}

/// A list of distinct names stands for a finite mapping with one key for
/// each entry.
pub proof fn lemma_entries_map_len(entries: Seq<(String, Vote)>)
    requires
        names_distinct(entries),
    ensures
        entries_map(entries).dom().finite(),
        entries_map(entries).len() == entries.len(),
    decreases entries.len(),
{
    if entries.len() == 0 {
        assert(entries_map(entries) =~= Map::<Seq<char>, Vote>::empty());
    } else {
        let front = entries.drop_last();
        let last = entries.last();
        assert forall|i: int, j: int| 0 <= i < j < front.len() implies (#[trigger] front[i]).0@ != (
        #[trigger] front[j]).0@ by {
            assert(entries[i].0@ != entries[j].0@);
        }
        lemma_entries_map_len(front);
        assert(!has_name(front, last.0@)) by {
            if has_name(front, last.0@) {
                let p = position_of(front, last.0@);
                assert(entries[p].0@ != entries[entries.len() - 1].0@);
            }
        }
        assert(entries_map(entries).dom() =~= entries_map(front).dom().insert(last.0@)) by {
            assert forall|name: Seq<char>| has_name(entries, name) <==> (has_name(front, name)
                || name == last.0@) by {
                if has_name(entries, name) {
                    let p = position_of(entries, name);
                    if p < front.len() {
                        assert(front[p].0@ == name);
                    }
                }
                if has_name(front, name) {
                    let p = position_of(front, name);
                    assert(entries[p].0@ == name);
                }
                if name == last.0@ {
                    assert(entries[entries.len() - 1].0@ == name);
                }
            }
        }
    }
}

/// A mapping from participant names to votes, each name held once.
#[derive(Debug)]
pub struct VoteMap {
    entries: Vec<(String, Vote)>,
}

impl View for VoteMap {
    type V = Map<Seq<char>, Vote>;

    closed spec fn view(&self) -> Map<Seq<char>, Vote> {
        entries_map(self.entries@)
    }
}

impl VoteMap {
    #[verifier::type_invariant]
    spec fn well_formed(self) -> bool {
        names_distinct(self.entries@)
    }

    /// An empty mapping.
    pub fn new() -> (votes: VoteMap)
        ensures
            votes@ == Map::<Seq<char>, Vote>::empty(),
    {
        let votes = VoteMap { entries: Vec::new() };
        assert(votes@ =~= Map::<Seq<char>, Vote>::empty());
        votes
    }

    /// How many names have a vote.
    pub fn len(&self) -> (count: usize)
        ensures
            count == self@.len(),
            self@.dom().finite(),
    {
        proof {
            use_type_invariant(self);
            lemma_entries_map_len(self.entries@);
        }
        self.entries.len()
    }

    /// The names and their votes, each name once.
    pub fn entries(&self) -> (list: Vec<(String, Vote)>)
        ensures
            names_distinct(list@),
            entries_map(list@) == self@,
            list@.len() == self@.len(),
    {
        proof {
            use_type_invariant(self);
            lemma_entries_map_len(self.entries@);
        }
        let mut list: Vec<(String, Vote)> = Vec::new();
        let mut i: usize = 0;
        while i < self.entries.len()
            invariant
                i <= self.entries@.len(),
                list@.len() == i,
                forall|k: int|
                    0 <= k < i ==> (#[trigger] list@[k]).0@ == self.entries@[k].0@ && list@[k].1
                        == self.entries@[k].1,
            decreases self.entries@.len() - i,
        {
            list.push((self.entries[i].0.clone(), self.entries[i].1));
            i += 1;
        }
        proof {
            lemma_same_entries(list@, self.entries@);
        }
        list
    }

    /// The position of the entry for `name`, if there is one.
    fn find(&self, name: &String) -> (found: Option<usize>)
        ensures
            match found {
                Some(i) => i < self.entries@.len() && self.entries@[i as int].0@ == name@,
                None => !has_name(self.entries@, name@),
            },
    {
        let mut i: usize = 0;
        while i < self.entries.len()
            invariant
                i <= self.entries@.len(),
                forall|k: int| 0 <= k < i ==> (#[trigger] self.entries@[k]).0@ != name@,
            decreases self.entries@.len() - i,
        {
            if self.entries[i].0 == *name {
                return Some(i);
            }
            i += 1;
        }
        None
    }

    /// Whether `name` has a vote.
    pub fn contains_key(&self, name: &String) -> (present: bool)
        ensures
            present == self@.contains_key(name@),
    {
        self.find(name).is_some()
    }

    /// The vote recorded for `name`.
    pub fn get(&self, name: &String) -> (vote: Option<Vote>)
        ensures
            vote == if self@.contains_key(name@) {
                Some(self@[name@])
            } else {
                None
            },
    {
        proof {
            use_type_invariant(self);
        }
        match self.find(name) {
            Some(i) => {
                proof {
                    lemma_entry_is_mapped(self.entries@, i as int);
                }
                Some(self.entries[i].1)
            },
            None => None,
        }
    }

    /// Records `vote` for `name`, replacing an earlier vote of that name.
    pub fn insert(&mut self, name: String, vote: Vote)
        ensures
            final(self)@ == old(self)@.insert(name@, vote),
    {
        proof {
            use_type_invariant(&*self);
        }
        let ghost before = self.entries@;
        let ghost key = name@;
        let found = self.find(&name);
        let mut entries: Vec<(String, Vote)> = Vec::new();
        std::mem::swap(&mut entries, &mut self.entries);
        match found {
            Some(i) => {
                entries.set(i, (name, vote));
                proof {
                    let after = entries@;
                    assert(names_distinct(after)) by {
                        assert forall|a: int, b: int| 0 <= a < b < after.len() implies (
                        #[trigger] after[a]).0@ != (#[trigger] after[b]).0@ by {
                            assert(before[a].0@ != before[b].0@);
                        }
                    }
                    assert forall|n: Seq<char>| has_name(after, n) <==> has_name(before, n) by {
                        if has_name(after, n) {
                            let p = position_of(after, n);
                            assert(before[p].0@ == n);
                        }
                        if has_name(before, n) {
                            let p = position_of(before, n);
                            assert(after[p].0@ == n);
                        }
                    }
                    assert forall|n: Seq<char>| has_name(after, n) implies entries_map(after)[n]
                        == entries_map(before).insert(key, vote)[n] by {
                        let p = position_of(after, n);
                        lemma_entry_is_mapped(after, p);
                        lemma_entry_is_mapped(before, p);
                    }
                    assert(before[i as int].0@ == key);
                    assert(has_name(before, key));
                    assert(entries_map(after) =~= entries_map(before).insert(key, vote));
                }
            },
            None => {
                entries.push((name, vote));
                proof {
                    let after = entries@;
                    let last = after.len() - 1;
                    assert(names_distinct(after)) by {
                        assert forall|a: int, b: int| 0 <= a < b < after.len() implies (
                        #[trigger] after[a]).0@ != (#[trigger] after[b]).0@ by {
                            if b < last {
                                assert(before[a].0@ != before[b].0@);
                            } else {
                                assert(before[a].0@ == after[a].0@);
                                assert(!has_name(before, key));
                            }
                        }
                    }
                    assert(after[last].0@ == key);
                    assert forall|n: Seq<char>| has_name(after, n) <==> (has_name(before, n) || n
                        == key) by {
                        if has_name(after, n) {
                            let p = position_of(after, n);
                            if p < last {
                                assert(before[p].0@ == n);
                            }
                        }
                        if has_name(before, n) {
                            let p = position_of(before, n);
                            assert(after[p].0@ == n);
                        }
                    }
                    assert forall|n: Seq<char>| has_name(after, n) implies entries_map(after)[n]
                        == entries_map(before).insert(key, vote)[n] by {
                        let p = position_of(after, n);
                        lemma_entry_is_mapped(after, p);
                        if p < last {
                            assert(before[p] == after[p]);
                            lemma_entry_is_mapped(before, p);
                        }
                    }
                    assert(entries_map(after) =~= entries_map(before).insert(key, vote));
                }
            },
        }
        self.entries = entries;
    }

    /// The votes as a reader named `viewer` may see them while voting is
    /// open: the reader's own vote as cast, `Secret` in place of the others.
    pub fn blinded(&self, viewer: Option<&String>) -> (shown: VoteMap)
        ensures
            shown@ == blinded_votes(self@, name_view(viewer)),
    {
        proof {
            use_type_invariant(self);
        }
        let mut entries: Vec<(String, Vote)> = Vec::new();
        let mut i: usize = 0;
        while i < self.entries.len()
            invariant
                i <= self.entries@.len(),
                entries@.len() == i,
                forall|k: int|
                    0 <= k < i ==> (#[trigger] entries@[k]).0@ == self.entries@[k].0@
                        && entries@[k].1 == if name_view(viewer) == Some(self.entries@[k].0@) {
                        self.entries@[k].1
                    } else {
                        Vote::Secret
                    },
            decreases self.entries@.len() - i,
        {
            let own = match viewer {
                Some(name) => *name == self.entries[i].0,
                None => false,
            };
            let vote = if own {
                self.entries[i].1
            } else {
                Vote::Secret
            };
            entries.push((self.entries[i].0.clone(), vote));
            i += 1;
        }
        proof {
            let cast = self.entries@;
            let shown = entries@;
            lemma_same_names(shown, cast);
            assert forall|name: Seq<char>| has_name(shown, name) implies entries_map(shown)[name]
                == blinded_votes(entries_map(cast), name_view(viewer))[name] by {
                let p = position_of(shown, name);
                lemma_entry_is_mapped(shown, p);
                lemma_entry_is_mapped(cast, p);
            }
            assert(entries_map(shown) =~= blinded_votes(entries_map(cast), name_view(viewer)));
        }
        VoteMap { entries }
    }
}

impl Clone for VoteMap {
    fn clone(&self) -> (copy: VoteMap)
        ensures
            copy@ == self@,
    {
        let entries = self.entries();
        VoteMap { entries }
    }
}

} // verus!
