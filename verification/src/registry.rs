//! The registry of bound variables.

use vstd::prelude::*;

verus! {

/// One variable and the file that backs it.
#[derive(Debug)]
struct Binding {
    name: String,
    path: String,
}

/// The mapping that a list of bindings stands for. Where a name stood twice,
/// the later binding would count.
spec fn paths_of(entries: Seq<Binding>) -> Map<Seq<char>, Seq<char>>
    decreases entries.len(),
{
    if entries.len() == 0 {
        Map::empty()
    } else {
        paths_of(entries.drop_last()).insert(entries.last().name@, entries.last().path@)
    }
}

/// No name stands twice in the list.
spec fn distinct_names(entries: Seq<Binding>) -> bool {
    forall|i: int, j: int|
        0 <= i < j < entries.len() ==> (#[trigger] entries[i]).name@ != (#[trigger] entries[j]).name@
}

/// A name is mapped exactly if some binding carries it.
proof fn lemma_paths_domain(entries: Seq<Binding>, name: Seq<char>)
    ensures
        paths_of(entries).contains_key(name) <==> exists|i: int|
            0 <= i < entries.len() && (#[trigger] entries[i]).name@ == name,
    decreases entries.len(),
{
    if entries.len() > 0 {
        let front = entries.drop_last();
        lemma_paths_domain(front, name);
        if paths_of(entries).contains_key(name) {
            if entries.last().name@ == name {
                assert(entries[entries.len() - 1].name@ == name);
            } else {
                let i = choose|i: int| 0 <= i < front.len() && (#[trigger] front[i]).name@ == name;
                assert(entries[i].name@ == name);
            }
        } else {
            if exists|i: int| 0 <= i < entries.len() && (#[trigger] entries[i]).name@ == name {
                let i = choose|i: int|
                    0 <= i < entries.len() && (#[trigger] entries[i]).name@ == name;
                assert(i < entries.len() - 1);
                assert(front[i].name@ == name);
            }
        }
    }
}

/// With distinct names, each binding's name is mapped to that binding's path.
proof fn lemma_paths_value(entries: Seq<Binding>, i: int)
    requires
        distinct_names(entries),
        0 <= i < entries.len(),
    ensures
        paths_of(entries).contains_key(entries[i].name@),
        paths_of(entries)[entries[i].name@] == entries[i].path@,
    decreases entries.len(),
{
    let front = entries.drop_last();
    if i < entries.len() - 1 {
        assert(distinct_names(front)) by {
            assert forall|a: int, b: int| 0 <= a < b < front.len() implies (#[trigger] front[a]).name@
                != (#[trigger] front[b]).name@ by {
                assert(entries[a].name@ != entries[b].name@);
            }
        }
        lemma_paths_value(front, i);
        assert(entries[i].name@ != entries[entries.len() - 1].name@);
    }
}

/// Putting a new path in the place of a binding's path is an insertion under
/// that binding's name, and leaves the names distinct.
proof fn lemma_paths_update(entries: Seq<Binding>, i: int, binding: Binding)
    requires
        distinct_names(entries),
        0 <= i < entries.len(),
        binding.name@ == entries[i].name@,
    ensures
        distinct_names(entries.update(i, binding)),
        paths_of(entries.update(i, binding)) == paths_of(entries).insert(
            binding.name@,
            binding.path@,
        ),
    decreases entries.len(),
{
    let updated = entries.update(i, binding);
    assert(distinct_names(updated)) by {
        assert forall|a: int, b: int| 0 <= a < b < updated.len() implies (#[trigger] updated[a]).name@
            != (#[trigger] updated[b]).name@ by {
            assert(entries[a].name@ != entries[b].name@);
        }
    }
    let front = entries.drop_last();
    if i == entries.len() - 1 {
        assert(updated.drop_last() =~= front);
        assert(paths_of(updated) =~= paths_of(entries).insert(binding.name@, binding.path@));
    } else {
        assert(distinct_names(front)) by {
            assert forall|a: int, b: int| 0 <= a < b < front.len() implies (#[trigger] front[a]).name@
                != (#[trigger] front[b]).name@ by {
                assert(entries[a].name@ != entries[b].name@);
            }
        }
        lemma_paths_update(front, i, binding);
        assert(updated.drop_last() =~= front.update(i, binding));
        assert(updated.last() == entries.last());
        assert(entries[i].name@ != entries[entries.len() - 1].name@);
        assert(paths_of(updated) =~= paths_of(entries).insert(binding.name@, binding.path@));
    }
}

/// Which variables are kept in step with which files: a mapping from a
/// variable's name to the path of its file. A name is bound to one path at a
/// time.
#[derive(Debug)]
pub struct BoundVariables {
    entries: Vec<Binding>,
}

impl View for BoundVariables {
    type V = Map<Seq<char>, Seq<char>>;

    /// The file paths by variable name.
    closed spec fn view(&self) -> Map<Seq<char>, Seq<char>> {
        paths_of(self.entries@)
    }
}

impl BoundVariables {
    #[verifier::type_invariant]
    spec fn names_are_distinct(self) -> bool {
        distinct_names(self.entries@)
    }

    /// A registry in which nothing is bound.
    pub fn new() -> (result: Self)
        ensures
            result@ == Map::<Seq<char>, Seq<char>>::empty(),
    {
        BoundVariables { entries: Vec::new() }
    }

    /// The place of the binding that carries the name.
    fn position(&self, var_name: &str) -> (found: Option<usize>)
        ensures
            match found {
                Some(i) => i < self.entries.len() && self.entries[i as int].name@ == var_name@,
                None => forall|j: int|
                    0 <= j < self.entries.len() ==> (#[trigger] self.entries[j]).name@
                        != var_name@,
            },
    {
        let wanted = var_name.to_owned();
        let mut i: usize = 0;
        while i < self.entries.len()
            invariant
                i <= self.entries.len(),
                wanted@ == var_name@,
                forall|j: int| 0 <= j < i ==> (#[trigger] self.entries[j]).name@ != var_name@,
            decreases self.entries.len() - i,
        {
            if self.entries[i].name == wanted {
                return Some(i);
            }
            i += 1;
        }
        None
    }

    /// Binds the variable to the path. An earlier binding of the name gives
    /// way; every other binding stays.
    pub fn register(&mut self, name: String, path: String)
        ensures
            final(self)@ == old(self)@.insert(name@, path@),
    {
        proof {
            use_type_invariant(&*self);
        }
        let found = self.position(name.as_str());
        let mut entries: Vec<Binding> = Vec::new();
        core::mem::swap(&mut self.entries, &mut entries);
        match found {
            Some(i) => {
                proof {
                    lemma_paths_update(entries@, i as int, Binding { name, path });
                }
                entries.set(i, Binding { name, path });
            },
            None => {
                proof {
                    let pushed = entries@.push(Binding { name, path });
                    assert(pushed.drop_last() =~= entries@);
                    assert(distinct_names(pushed));
                }
                entries.push(Binding { name, path });
            },
        }
        core::mem::swap(&mut self.entries, &mut entries);
    }

    /// Whether the variable is bound to a file.
    pub fn is_bound(&self, var_name: &str) -> (result: bool)
        ensures
            result == self@.contains_key(var_name@),
    {
        let found = self.position(var_name);
        proof {
            lemma_paths_domain(self.entries@, var_name@);
        }
        found.is_some()
    }

    /// The path of the file that the variable is bound to.
    pub fn resolve(&self, var_name: &str) -> (path: Option<&String>)
        ensures
            match path {
                Some(p) => self@.contains_key(var_name@) && p@ == self@[var_name@],
                None => !self@.contains_key(var_name@),
            },
    {
        proof {
            use_type_invariant(self);
            lemma_paths_domain(self.entries@, var_name@);
        }
        match self.position(var_name) {
            Some(i) => {
                proof {
                    lemma_paths_value(self.entries@, i as int);
                }
                Some(&self.entries[i].path)
            },
            None => None,
        }
    }
}

impl Clone for BoundVariables {
    /// A registry with the same bindings.
    fn clone(&self) -> (result: Self)
        ensures
            result@ == self@,
    {
        proof {
            use_type_invariant(self);
        }
        let mut entries: Vec<Binding> = Vec::new();
        let mut i: usize = 0;
        while i < self.entries.len()
            invariant
                i <= self.entries.len(),
                entries@ == self.entries@.subrange(0, i as int),
            decreases self.entries.len() - i,
        {
            let name = self.entries[i].name.clone();
            let path = self.entries[i].path.clone();
            entries.push(Binding { name, path });
            assert(entries@ =~= self.entries@.subrange(0, i + 1));
            i += 1;
        }
        assert(entries@ =~= self.entries@);
        BoundVariables { entries }
    }
}

impl Default for BoundVariables {
    fn default() -> (result: Self)
        ensures
            result@ == Map::<Seq<char>, Seq<char>>::empty(),
    {
        BoundVariables::new()
    }
}

} // verus!
