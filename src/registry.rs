//! The skill registry: an immutable catalog of nodes, in registration order, with their
//! declared connections.
use vstd::prelude::*;
use crate::utils::{contains_name, list_contains, str_eq};

verus! {

/// Highest skill level.
pub const MAX_LEVEL: u8 = 100;

/// One node of the widget. Its id is its position in the registry.
#[derive(Clone, Debug)]
pub struct Skill {
    pub name: String,
    pub category: String,
    pub color: String,
    pub level: u8,
    pub description: String,
    /// Names this node declares an edge to; they need not be registered.
    pub connections: Vec<String>,
}

/// Why a list of skills was refused.
#[derive(Debug)]
pub enum RegistryError {
    /// Two entries share this name.
    DuplicateName(String),
    /// The entry at this position has a level above `MAX_LEVEL`.
    LevelOutOfRange(usize),
}

/// Whether entry `j` is refused given the entries before it.
pub open spec fn entry_faulty(s: Seq<Skill>, j: int) -> bool {
    s[j].level > MAX_LEVEL || exists|i: int| 0 <= i < j && #[trigger] s[i].name@ == s[j].name@
}

/// Entries whose levels are in range and whose names are pairwise distinct.
pub open spec fn valid_entries(s: Seq<Skill>) -> bool {
    forall|j: int| 0 <= j < s.len() ==> !#[trigger] entry_faulty(s, j)
}

/// The error that refusing entry `j` reports.
pub open spec fn reports_fault(s: Seq<Skill>, j: int, e: RegistryError) -> bool {
    if s[j].level > MAX_LEVEL {
        e == RegistryError::LevelOutOfRange(j as usize)
    } else {
        e is DuplicateName && e->DuplicateName_0@ == s[j].name@
    }
}

/// Whether nodes `a` and `b` are connected: either one lists the other's name.
pub open spec fn connected(s: Seq<Skill>, a: int, b: int) -> bool {
    contains_name(s[a].connections@, s[b].name@) || contains_name(s[b].connections@, s[a].name@)
}

/// Whether two registered names belong to connected nodes.
pub open spec fn names_connected(s: Seq<Skill>, a: Seq<char>, b: Seq<char>) -> bool {
    exists|i: int, j: int|
        0 <= i < s.len() && 0 <= j < s.len() && #[trigger] s[i].name@ == a && #[trigger] s[j].name@
            == b && connected(s, i, j)
}

/// The catalog of nodes, read-only once built.
pub struct SkillRegistry {
    skills: Vec<Skill>,
}

impl SkillRegistry {
    #[verifier::type_invariant]
    spec fn inv(&self) -> bool {
        valid_entries(self.skills@)
    }

    /// The registered nodes, in registration order.
    pub closed spec fn entries(&self) -> Seq<Skill> {
        self.skills@
    }

    /// Builds the registry, refusing the first entry (in list order) whose level is above
    /// `MAX_LEVEL` or whose name an earlier entry already has.
    pub fn build(skills: Vec<Skill>) -> (r: Result<SkillRegistry, RegistryError>)
        ensures
            r is Ok <==> valid_entries(skills@),
            r is Ok ==> r->Ok_0.entries() == skills@,
            r is Err ==> exists|j: int|
                0 <= j < skills@.len() && entry_faulty(skills@, j) && (forall|k: int|
                    0 <= k < j ==> !#[trigger] entry_faulty(skills@, k)) && reports_fault(
                    skills@,
                    j,
                    r->Err_0,
                ),
    {
        let n = skills.len();
        let mut j: usize = 0;
        while j < n
            invariant
                n == skills@.len(),
                j <= n,
                forall|k: int| 0 <= k < j ==> !#[trigger] entry_faulty(skills@, k),
            decreases n - j,
        {
            if skills[j].level > MAX_LEVEL {
                assert(entry_faulty(skills@, j as int));
                return Err(RegistryError::LevelOutOfRange(j));
            }
            let mut i: usize = 0;
            while i < j
                invariant
                    n == skills@.len(),
                    i <= j < n,
                    skills@[j as int].level <= MAX_LEVEL,
                    forall|k: int| 0 <= k < j ==> !#[trigger] entry_faulty(skills@, k),
                    forall|k: int| 0 <= k < i ==> #[trigger] skills@[k].name@ != skills@[j as int].name@,
                decreases j - i,
            {
                if str_eq(skills[i].name.as_str(), skills[j].name.as_str()) {
                    let name = skills[j].name.clone();
                    assert(skills@[i as int].name@ == skills@[j as int].name@);
                    assert(entry_faulty(skills@, j as int));
                    let e = RegistryError::DuplicateName(name);
                    assert(reports_fault(skills@, j as int, e));
                    return Err(e);
                }
                i = i + 1;
            }
            j = j + 1;
        }
        Ok(SkillRegistry { skills })
    }

    /// Number of registered nodes.
    pub fn len(&self) -> (n: usize)
        ensures
            n == self.entries().len(),
            valid_entries(self.entries()),
    {
        proof {
            use_type_invariant(self);
        }
        self.skills.len()
    }

    /// The node with id `index`, if there is one.
    pub fn get(&self, index: usize) -> (r: Option<&Skill>)
        ensures
            index < self.entries().len() ==> r == Some(&self.entries()[index as int]),
            index >= self.entries().len() ==> r is None,
    {
        if index < self.skills.len() {
            Some(&self.skills[index])
        } else {
            None
        }
    }

    /// The id of the node named `name`, if one is registered.
    pub fn index_of(&self, name: &str) -> (r: Option<usize>)
        ensures
            r matches Some(i) ==> i < self.entries().len() && self.entries()[i as int].name@ == name@,
            r is None ==> forall|i: int|
                0 <= i < self.entries().len() ==> #[trigger] self.entries()[i].name@ != name@,
    {
        let mut i: usize = 0;
        while i < self.skills.len()
            invariant
                i <= self.skills@.len(),
                forall|k: int| 0 <= k < i ==> #[trigger] self.skills@[k].name@ != name@,
            decreases self.skills@.len() - i,
        {
            if str_eq(self.skills[i].name.as_str(), name) {
                return Some(i);
            }
            i = i + 1;
        }
        None
    }

    /// Whether nodes `a` and `b` are connected, whichever of them declared the edge.
    pub fn is_connected(&self, a: usize, b: usize) -> (r: bool)
        requires
            a < self.entries().len(),
            b < self.entries().len(),
        ensures
            r == connected(self.entries(), a as int, b as int),
    {
        list_contains(&self.skills[a].connections, self.skills[b].name.as_str())
            || list_contains(&self.skills[b].connections, self.skills[a].name.as_str())
    }

    /// Whether the nodes named `a` and `b` are connected; false when either is not registered.
    pub fn are_connected(&self, a: &str, b: &str) -> (r: bool)
        ensures
            r == names_connected(self.entries(), a@, b@),
    {
        proof {
            use_type_invariant(self);
        }
        match (self.index_of(a), self.index_of(b)) {
            (Some(i), Some(j)) => {
                let r = self.is_connected(i, j);
                proof {
                    let s = self.entries();
                    if names_connected(s, a@, b@) {
                        let (i2, j2) = choose|i2: int, j2: int|
                            0 <= i2 < s.len() && 0 <= j2 < s.len() && #[trigger] s[i2].name@ == a@
                                && #[trigger] s[j2].name@ == b@ && connected(s, i2, j2);
                        lemma_same_name_same_index(s, i as int, i2);
                        lemma_same_name_same_index(s, j as int, j2);
                    }
                }
                r
            },
            _ => false,
        }
    }
}

/// In a valid registry, a name belongs to one node only.
pub proof fn lemma_same_name_same_index(s: Seq<Skill>, i: int, j: int)
    requires
        valid_entries(s),
        0 <= i < s.len(),
        0 <= j < s.len(),
        s[i].name@ == s[j].name@,
    ensures
        i == j,
{
    if i < j {
        assert(entry_faulty(s, j));
    } else if j < i {
        assert(entry_faulty(s, i));
    }
}

/// Connection is symmetric: it does not matter which of the two nodes declared the edge.
pub proof fn lemma_connection_symmetric(s: Seq<Skill>, a: int, b: int)
    ensures
        connected(s, a, b) == connected(s, b, a),
{
}

} // verus!
