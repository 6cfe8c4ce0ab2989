//! The environment variables of a process to be started.
//!
//! Names and values are byte strings, as the operating system has them.
use vstd::prelude::*;

verus! {

/// Names and values of variables, in the order in which they are set.
pub type Assignments = Seq<(Seq<u8>, Seq<u8>)>;

/// What `assignments` say of the variables.
pub open spec fn assignments_view(assignments: Seq<(Vec<u8>, Vec<u8>)>) -> Assignments {
    assignments.map_values(|a: (Vec<u8>, Vec<u8>)| (a.0@, a.1@))
}

/// The variables once `assignments` were made one after the other: of two values for one name
/// the later one counts.
pub open spec fn assigned(
    variables: Map<Seq<u8>, Seq<u8>>,
    assignments: Assignments,
) -> Map<Seq<u8>, Seq<u8>>
    decreases assignments.len(),
{
    if assignments.len() == 0 {
        variables
    } else {
        assigned(variables, assignments.drop_last()).insert(
            assignments.last().0,
            assignments.last().1,
        )
    }
}

/// Whether no name is assigned twice.
pub open spec fn names_distinct(assignments: Assignments) -> bool {
    forall|i: int, j: int|
        0 <= i < j < assignments.len() ==> (#[trigger] assignments[i]).0 != (
        #[trigger] assignments[j]).0
}

/// Assignments are looked at as the names and the values that they hold, one by one.
pub proof fn law_assignments_are_names_and_values(assignments: Seq<(Vec<u8>, Vec<u8>)>)
    ensures
        assignments_view(assignments).len() == assignments.len(),
        forall|i: int|
            0 <= i < assignments.len() ==> (#[trigger] assignments_view(assignments)[i]).0
                == assignments[i].0@ && assignments_view(assignments)[i].1 == assignments[i].1@,
{
}

/// A variable has the value that was assigned to it last, and one to which nothing was assigned
/// is as it was before. So the other assignments do not matter to it.
pub proof fn law_a_variable_has_its_last_value(
    variables: Map<Seq<u8>, Seq<u8>>,
    assignments: Assignments,
    name: Seq<u8>,
)
    ensures
        forall|i: int|
            0 <= i < assignments.len() && (#[trigger] assignments[i]).0 == name && (forall|j: int|
                i < j < assignments.len() ==> (#[trigger] assignments[j]).0 != name) ==> assigned(
                variables,
                assignments,
            ).contains_key(name) && assigned(variables, assignments)[name] == assignments[i].1,
        (forall|j: int| 0 <= j < assignments.len() ==> (#[trigger] assignments[j]).0 != name) ==> {
            &&& assigned(variables, assignments).contains_key(name) == variables.contains_key(name)
            &&& variables.contains_key(name) ==> assigned(variables, assignments)[name]
                == variables[name]
        },
    decreases assignments.len(),
{
    if assignments.len() > 0 {
        let rest = assignments.drop_last();
        law_a_variable_has_its_last_value(variables, rest, name);
        assert forall|i: int|
            0 <= i < assignments.len() && (#[trigger] assignments[i]).0 == name && (forall|j: int|
                i < j < assignments.len() ==> (#[trigger] assignments[j]).0 != name) implies (
        assigned(variables, assignments).contains_key(name) && assigned(variables, assignments)[name]
            == assignments[i].1) by {
            if i < rest.len() {
                assert(rest[i] == assignments[i]);
                assert(assignments[assignments.len() - 1].0 != name);
                assert forall|j: int| i < j < rest.len() implies (#[trigger] rest[j]).0 != name by {
                    assert(assignments[j].0 != name);
                }
            }
        }
        if forall|j: int| 0 <= j < assignments.len() ==> (#[trigger] assignments[j]).0 != name {
            assert(assignments[assignments.len() - 1].0 != name);
            assert forall|j: int| 0 <= j < rest.len() implies (#[trigger] rest[j]).0 != name by {
                assert(assignments[j].0 != name);
            }
        }
    }
}

/// Names are distinct exactly where each of them stands in one place only.
pub proof fn law_distinct_names_stand_once(assignments: Assignments)
    ensures
        names_distinct(assignments) <==> forall|i: int, j: int|
            0 <= i < assignments.len() && 0 <= j < assignments.len() && (
            #[trigger] assignments[i]).0 == (#[trigger] assignments[j]).0 ==> i == j,
{
}

/// It makes no difference whether assignments are made in one go or in two.
pub proof fn law_assignments_add_up(
    variables: Map<Seq<u8>, Seq<u8>>,
    first: Assignments,
    last: Assignments,
)
    ensures
        assigned(variables, first + last) == assigned(assigned(variables, first), last),
    decreases last.len(),
{
    if last.len() == 0 {
        assert(first + last =~= first);
    } else {
        assert((first + last).drop_last() =~= first + last.drop_last());
        law_assignments_add_up(variables, first, last.drop_last());
    }
}

/// Of two values for one variable the later one counts, whatever else is assigned before or between.
pub proof fn law_the_later_value_counts(
    variables: Map<Seq<u8>, Seq<u8>>,
    assignments: Assignments,
    name: Seq<u8>,
    value: Seq<u8>,
)
    ensures
        assigned(variables, assignments.push((name, value))).contains_key(name),
        assigned(variables, assignments.push((name, value)))[name] == value,
{
    assert(assignments.push((name, value)).drop_last() =~= assignments);
}

/// The variables are those that are named, and where no name occurs twice, each has the value
/// that stands beside its name.
proof fn lemma_assigned(assignments: Assignments)
    ensures
        forall|name: Seq<u8>| #[trigger]
            assigned(Map::empty(), assignments).contains_key(name) <==> exists|i: int|
                0 <= i < assignments.len() && (#[trigger] assignments[i]).0 == name,
        names_distinct(assignments) ==> forall|i: int|
            0 <= i < assignments.len() ==> assigned(Map::empty(), assignments)[(
            #[trigger] assignments[i]).0] == assignments[i].1,
    decreases assignments.len(),
{
    if assignments.len() > 0 {
        let rest = assignments.drop_last();
        lemma_assigned(rest);
        let all = assigned(Map::empty(), assignments);
        assert forall|name: Seq<u8>| #[trigger] all.contains_key(name) <==> exists|i: int|
            0 <= i < assignments.len() && (#[trigger] assignments[i]).0 == name by {
            if assigned(Map::empty(), rest).contains_key(name) {
                let i = choose|i: int| 0 <= i < rest.len() && (#[trigger] rest[i]).0 == name;
                assert(assignments[i].0 == name);
            }
            if name == assignments.last().0 {
                assert(assignments[assignments.len() - 1].0 == name);
            }
            if exists|i: int| 0 <= i < assignments.len() && (#[trigger] assignments[i]).0 == name {
                let i = choose|i: int|
                    0 <= i < assignments.len() && (#[trigger] assignments[i]).0 == name;
                if i < rest.len() {
                    assert(rest[i].0 == name);
                }
            }
        }
        if names_distinct(assignments) {
            assert forall|i: int, j: int| 0 <= i < j < rest.len() implies (#[trigger] rest[i]).0
                != (#[trigger] rest[j]).0 by {
                assert(assignments[i].0 != assignments[j].0);
            }
            assert forall|i: int| 0 <= i < assignments.len() implies all[(
            #[trigger] assignments[i]).0] == assignments[i].1 by {
                if i < rest.len() {
                    assert(rest[i] == assignments[i]);
                    assert(assignments[i].0 != assignments[assignments.len() - 1].0);
                }
            }
        }
    }
}

/// Environment variables by their names.
#[derive(Debug)]
pub struct Environment {
    variables: Vec<(Vec<u8>, Vec<u8>)>,
}

impl View for Environment {
    type V = Map<Seq<u8>, Seq<u8>>;

    closed spec fn view(&self) -> Map<Seq<u8>, Seq<u8>> {
        assigned(Map::empty(), assignments_view(self.variables@))
    }
}

/// Tells whether two byte strings are the same.
fn bytes_equal(a: &Vec<u8>, b: &Vec<u8>) -> (r: bool)
    ensures
        r == (a@ == b@),
{
    if a.len() != b.len() {
        return false;
    }
    let mut i: usize = 0;
    while i < a.len()
        invariant
            i <= a@.len(),
            a@.len() == b@.len(),
            forall|j: int| 0 <= j < i ==> a@[j] == b@[j],
        decreases a@.len() - i,
    {
        if a[i] != b[i] {
            return false;
        }
        i = i + 1;
    }
    assert(a@ =~= b@);
    true
}

impl Environment {
    /// No name is there twice.
    pub closed spec fn wf(self) -> bool {
        names_distinct(assignments_view(self.variables@))
    }

    /// No variables.
    pub fn new() -> (r: Self)
        ensures
            r.wf(),
            r@ == Map::<Seq<u8>, Seq<u8>>::empty(),
    {
        Environment { variables: Vec::new() }
    }

    /// Where the variable `name` stands, if it is set.
    fn find(&self, name: &Vec<u8>) -> (r: Option<usize>)
        ensures
            match r {
                Some(i) => i < self.variables@.len() && self.variables@[i as int].0@ == name@,
                None => forall|i: int|
                    0 <= i < self.variables@.len() ==> (#[trigger] self.variables@[i]).0@ != name@,
            },
    {
        let mut i: usize = 0;
        while i < self.variables.len()
            invariant
                i <= self.variables@.len(),
                forall|j: int| 0 <= j < i ==> (#[trigger] self.variables@[j]).0@ != name@,
            decreases self.variables@.len() - i,
        {
            if bytes_equal(&self.variables[i].0, name) {
                return Some(i);
            }
            i = i + 1;
        }
        None
    }

    /// Sets the variable `name`, in place of any value that it had.
    pub fn set(&mut self, name: Vec<u8>, value: Vec<u8>)
        requires
            old(self).wf(),
        ensures
            final(self).wf(),
            final(self)@ == old(self)@.insert(name@, value@),
    {
        let ghost before = assignments_view(self.variables@);
        match self.find(&name) {
            Some(i) => {
                self.variables.set(i, (name, value));
                let ghost after = assignments_view(self.variables@);
                proof {
                    assert(after =~= before.update(i as int, (name@, value@)));
                    assert forall|j: int, k: int| 0 <= j < k < after.len() implies (
                    #[trigger] after[j]).0 != (#[trigger] after[k]).0 by {
                        assert(before[j].0 != before[k].0);
                    }
                    lemma_assigned(before);
                    lemma_assigned(after);
                    assert forall|n: Seq<u8>|
                        self@.contains_key(n) <==> old(self)@.insert(name@, value@).contains_key(
                            n,
                        ) by {
                        if self@.contains_key(n) {
                            let j = choose|j: int|
                                0 <= j < after.len() && (#[trigger] after[j]).0 == n;
                            assert(before[j].0 == n);
                        }
                        if old(self)@.contains_key(n) {
                            let j = choose|j: int|
                                0 <= j < before.len() && (#[trigger] before[j]).0 == n;
                            assert(after[j].0 == n);
                        }
                        assert(after[i as int].0 == name@);
                    }
                    assert forall|n: Seq<u8>| self@.contains_key(n) implies self@[n] == old(
                        self,
                    )@.insert(name@, value@)[n] by {
                        let j = choose|j: int| 0 <= j < after.len() && (#[trigger] after[j]).0 == n;
                        assert(self@[after[j].0] == after[j].1);
                        assert(old(self)@[before[j].0] == before[j].1);
                        if j != i {
                            assert(after[i as int].0 != after[j].0);
                        }
                    }
                    assert(self@ =~= old(self)@.insert(name@, value@));
                }
            },
            None => {
                self.variables.push((name, value));
                proof {
                    let after = assignments_view(self.variables@);
                    assert(after.drop_last() =~= before);
                    assert forall|j: int, k: int| 0 <= j < k < after.len() implies (
                    #[trigger] after[j]).0 != (#[trigger] after[k]).0 by {
                        if k < before.len() {
                            assert(before[j].0 != before[k].0);
                        } else {
                            assert(old(self).variables@[j].0@ != name@);
                        }
                    }
                }
            },
        }
    }

    /// Makes assignments one after the other.
    pub fn set_all(&mut self, assignments: Vec<(Vec<u8>, Vec<u8>)>)
        requires
            old(self).wf(),
        ensures
            final(self).wf(),
            final(self)@ == assigned(old(self)@, assignments_view(assignments@)),
    {
        let ghost all = assignments_view(assignments@);
        let mut i: usize = 0;
        assert(all.take(0) =~= Seq::empty());
        while i < assignments.len()
            invariant
                i <= assignments@.len(),
                all == assignments_view(assignments@),
                self.wf(),
                self@ == assigned(old(self)@, all.take(i as int)),
            decreases assignments@.len() - i,
        {
            let name = assignments[i].0.clone();
            let value = assignments[i].1.clone();
            assert(name@ =~= assignments@[i as int].0@);
            assert(value@ =~= assignments@[i as int].1@);
            self.set(name, value);
            assert(all.take(i + 1).drop_last() =~= all.take(i as int));
            i = i + 1;
        }
        assert(all.take(all.len() as int) =~= all);
    }

    /// The names and the values of the variables, no name twice.
    pub fn assignments(&self) -> (r: Vec<(Vec<u8>, Vec<u8>)>)
        requires
            self.wf(),
        ensures
            names_distinct(assignments_view(r@)),
            assigned(Map::empty(), assignments_view(r@)) == self@,
            // every variable is there, with its value, and nothing else
            forall|i: int|
                0 <= i < r@.len() ==> self@.contains_key((#[trigger] r@[i]).0@) && self@[r@[i].0@]
                    == r@[i].1@,
            forall|name: Seq<u8>| #[trigger]
                self@.contains_key(name) ==> exists|i: int|
                    0 <= i < r@.len() && (#[trigger] r@[i]).0@ == name,
            forall|i: int, j: int|
                0 <= i < j < r@.len() ==> (#[trigger] r@[i]).0@ != (#[trigger] r@[j]).0@,
    {
        let r = self.copied();
        proof {
            let listed = assignments_view(r@);
            lemma_assigned(listed);
            assert forall|i: int| 0 <= i < r@.len() implies self@.contains_key(
                (#[trigger] r@[i]).0@,
            ) && self@[r@[i].0@] == r@[i].1@ by {
                assert(listed[i] == (r@[i].0@, r@[i].1@));
            }
            assert forall|name: Seq<u8>| #[trigger] self@.contains_key(name) implies exists|i: int|
                0 <= i < r@.len() && (#[trigger] r@[i]).0@ == name by {
                let i = choose|i: int| 0 <= i < listed.len() && (#[trigger] listed[i]).0 == name;
                assert(r@[i].0@ == name);
            }
            assert forall|i: int, j: int| 0 <= i < j < r@.len() implies (#[trigger] r@[i]).0@ != (
            #[trigger] r@[j]).0@ by {
                assert(listed[i].0 != listed[j].0);
            }
        }
        r
    }

    /// The names and the values of the variables, as they are stored.
    fn copied(&self) -> (r: Vec<(Vec<u8>, Vec<u8>)>)
        ensures
            assignments_view(r@) == assignments_view(self.variables@),
    {
        let mut listed: Vec<(Vec<u8>, Vec<u8>)> = Vec::new();
        let mut i: usize = 0;
        while i < self.variables.len()
            invariant
                i <= self.variables@.len(),
                listed@.len() == i,
                forall|j: int|
                    0 <= j < i ==> (#[trigger] listed@[j]).0@ == self.variables@[j].0@
                        && listed@[j].1@ == self.variables@[j].1@,
            decreases self.variables@.len() - i,
        {
            let name = self.variables[i].0.clone();
            let value = self.variables[i].1.clone();
            assert(name@ =~= self.variables@[i as int].0@);
            assert(value@ =~= self.variables@[i as int].1@);
            listed.push((name, value));
            i = i + 1;
        }
        assert(assignments_view(listed@) =~= assignments_view(self.variables@));
        listed
    }
}

impl Clone for Environment {
    fn clone(&self) -> (r: Self)
        ensures
            r@ == self@,
            r.wf() == self.wf(),
    {
        Environment { variables: self.copied() }
    }
}

} // verus!
