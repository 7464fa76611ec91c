//! The registry of test cases: a name for each unit of logic.
//!
//! A name is an identifier: one or more ASCII letters, digits and
//! underscores, the first of them no digit. A name is registered at most
//! once. A second registration under a name that is taken is rejected and
//! changes nothing; so is a registration under a name that is no
//! identifier. Registering never runs the logic.

use vstd::prelude::*;
use vstd::string::*;

verus! {

/// Whether a name may begin with `c`.
pub open spec fn is_name_start(c: char) -> bool {
    ('a' <= c <= 'z') || ('A' <= c <= 'Z') || c == '_'
}

/// Whether a name may hold `c`.
pub open spec fn is_name_part(c: char) -> bool {
    is_name_start(c) || ('0' <= c <= '9')
}

/// Whether `name` is an identifier.
pub open spec fn is_valid_name(name: Seq<char>) -> bool {
    &&& name.len() > 0
    &&& is_name_start(name[0])
    &&& forall|i: int| 0 <= i < name.len() ==> is_name_part(#[trigger] name[i])
}

/// The test of a name for beginning with `prefix`.
pub open spec fn begins_with(prefix: Seq<char>) -> spec_fn(Seq<char>) -> bool {
    |name: Seq<char>| prefix.is_prefix_of(name)
}

/// Tells whether `name` is an identifier.
pub fn name_is_valid(name: &str) -> (valid: bool)
    ensures
        valid == is_valid_name(name@),
{
    let length: usize = name.unicode_len();
    if length == 0 {
        return false;
    }
    let first = name.get_char(0);
    if !(('a' <= first && first <= 'z') || ('A' <= first && first <= 'Z') || first == '_') {
        return false;
    }
    let mut at: usize = 1;
    while at < length
        invariant
            1 <= at <= length,
            length == name@.len(),
            is_name_start(name@[0]),
            forall|i: int| 0 <= i < at ==> is_name_part(#[trigger] name@[i]),
        decreases length - at,
    {
        let c = name.get_char(at);
        if !(('a' <= c && c <= 'z') || ('A' <= c && c <= 'Z') || c == '_' || ('0' <= c && c <= '9')) {
            return false;
        }
        at += 1;
    }
    true
}

/// Tells whether `text` begins with `prefix`.
pub fn has_prefix(text: &str, prefix: &str) -> (begins: bool)
    ensures
        begins == prefix@.is_prefix_of(text@),
{
    let length: usize = prefix.unicode_len();
    if text.unicode_len() < length {
        return false;
    }
    let mut at: usize = 0;
    while at < length
        invariant
            at <= length,
            length == prefix@.len(),
            length <= text@.len(),
            forall|i: int| 0 <= i < at ==> prefix@[i] == text@[i],
        decreases length - at,
    {
        if prefix.get_char(at) != text.get_char(at) {
            return false;
        }
        at += 1;
    }
    true
}

/// Why a registration was rejected.
#[derive(Clone, Copy, Debug, PartialEq, Eq, Structural)]
pub enum RegistryError {
    /// The name is no identifier.
    InvalidName,
    /// The name is taken by an earlier registration.
    DuplicateName,
}

/// Whether `names` may stand in a registry together: every one of them is
/// an identifier and none occurs twice.
pub open spec fn names_are_apart(names: Seq<Seq<char>>) -> bool {
    &&& names.no_duplicates()
    &&& forall|i: int| 0 <= i < names.len() ==> is_valid_name(#[trigger] names[i])
}

/// What becomes of the registered `names` when a test case asks to be
/// registered under `name`: the names with `name` behind them, or why the
/// registration is rejected.
pub open spec fn registration(names: Seq<Seq<char>>, name: Seq<char>) -> Result<
    Seq<Seq<char>>,
    RegistryError,
> {
    if !is_valid_name(name) {
        Err(RegistryError::InvalidName)
    } else if names.contains(name) {
        Err(RegistryError::DuplicateName)
    } else {
        Ok(names.push(name))
    }
}

/// A name is registered at most once: once a test case is registered
/// under a name, every further registration under that name is rejected as
/// a duplicate, whatever was registered in between.
pub proof fn second_registration_is_rejected(
    names: Seq<Seq<char>>,
    name: Seq<char>,
    between: Seq<Seq<char>>,
)
    requires
        registration(names, name) is Ok,
    ensures
        registration(registration(names, name)->Ok_0 + between, name) == Err::<
            Seq<Seq<char>>,
            RegistryError,
        >(RegistryError::DuplicateName),
{
    let grown = registration(names, name)->Ok_0 + between;
    assert(grown[names.len() as int] == name);
}

/// Registrations keep the registered names valid and apart: where every
/// name is an identifier and none occurs twice, the same holds after a
/// registration that is accepted.
pub proof fn registration_keeps_names_apart(names: Seq<Seq<char>>, name: Seq<char>)
    requires
        names_are_apart(names),
        registration(names, name) is Ok,
    ensures
        names_are_apart(registration(names, name)->Ok_0),
{
}

/// The empty prefix selects every name, in the order given.
pub proof fn empty_prefix_selects_all(names: Seq<Seq<char>>)
    ensures
        names.filter(begins_with(Seq::<char>::empty())) == names,
    decreases names.len(),
{
    reveal(Seq::filter);
    if names.len() > 0 {
        empty_prefix_selects_all(names.drop_last());
        assert(names.drop_last().push(names.last()) =~= names);
    }
}

/// A prefix selects the names that begin with it and no others, and keeps
/// them in the order given.
pub proof fn prefix_selects_what_begins_with_it(names: Seq<Seq<char>>, prefix: Seq<char>)
    ensures
        forall|name: Seq<char>|
            names.filter(begins_with(prefix)).contains(name) <==> names.contains(name)
                && prefix.is_prefix_of(name),
        forall|i: int, j: int|
            0 <= i < j < names.filter(begins_with(prefix)).len() ==> exists|k: int, l: int|
                0 <= k < l < names.len() && names[k] == #[trigger] names.filter(
                    begins_with(prefix),
                )[i] && names[l] == #[trigger] names.filter(begins_with(prefix))[j],
    decreases names.len(),
{
    reveal(Seq::filter);
    let pick = begins_with(prefix);
    let selected = names.filter(pick);
    if names.len() > 0 {
        let rest = names.drop_last();
        let last = names.last();
        prefix_selects_what_begins_with_it(rest, prefix);
        assert forall|name: Seq<char>|
            selected.contains(name) <==> names.contains(name) && prefix.is_prefix_of(name) by {
            if selected.contains(name) {
                let at: int = choose|at: int| 0 <= at < selected.len() && selected[at] == name;
                if pick(last) && at == selected.len() - 1 {
                    assert(names[names.len() - 1] == name);
                } else {
                    assert(rest.filter(pick)[at] == name);
                    assert(rest.filter(pick).contains(name));
                    let from: int = choose|from: int| 0 <= from < rest.len() && rest[from] == name;
                    assert(names[from] == name);
                }
            }
            if names.contains(name) && prefix.is_prefix_of(name) {
                let from: int = choose|from: int| 0 <= from < names.len() && names[from] == name;
                if from == names.len() - 1 {
                    assert(selected[selected.len() - 1] == name);
                } else {
                    assert(rest[from] == name);
                    assert(rest.contains(name));
                    let at: int = choose|at: int|
                        0 <= at < rest.filter(pick).len() && rest.filter(pick)[at] == name;
                    assert(selected[at] == name);
                }
            }
        }
        assert forall|i: int, j: int| 0 <= i < j < selected.len() implies exists|k: int, l: int|
            0 <= k < l < names.len() && names[k] == #[trigger] selected[i] && names[l]
                == #[trigger] selected[j] by {
            if pick(last) && j == selected.len() - 1 {
                assert(rest.filter(pick)[i] == selected[i]);
                assert(rest.filter(pick).contains(selected[i]));
                let k: int = choose|k: int| 0 <= k < rest.len() && rest[k] == selected[i];
                assert(names[k] == selected[i] && names[names.len() - 1] == selected[j]);
            } else {
                let (k, l): (int, int) = choose|k: int, l: int|
                    0 <= k < l < rest.len() && rest[k] == #[trigger] rest.filter(pick)[i] && rest[l]
                        == #[trigger] rest.filter(pick)[j];
                assert(names[k] == selected[i] && names[l] == selected[j]);
            }
        }
    }
}

/// A test case: a unit of logic under a name.
#[derive(Debug)]
pub struct TestCase<L> {
    pub name: String,
    pub logic: L,
}

/// The test cases that were registered and have not been taken out to run,
/// in the order of their registration.
#[derive(Debug)]
pub struct Registry<L> {
    cases: Vec<TestCase<L>>,
}

impl<L> Registry<L> {
    /// The test cases, the first registered first.
    pub closed spec fn cases(self) -> Seq<TestCase<L>> {
        self.cases@
    }

    /// The names of the test cases, the first registered first.
    pub open spec fn names(self) -> Seq<Seq<char>> {
        self.cases().map_values(|case: TestCase<L>| case.name@)
    }

    /// The logic of the test cases, the first registered first.
    pub open spec fn logic(self) -> Seq<L> {
        self.cases().map_values(|case: TestCase<L>| case.logic)
    }

    /// Every name is an identifier and no name occurs twice.
    pub open spec fn wf(self) -> bool {
        names_are_apart(self.names())
    }

    /// A registry without test cases.
    pub fn new() -> (empty: Registry<L>)
        ensures
            empty.wf(),
            empty.cases() == Seq::<TestCase<L>>::empty(),
    {
        Registry { cases: Vec::new() }
    }

    /// The number of test cases.
    pub fn len(&self) -> (count: usize)
        ensures
            count == self.cases().len(),
    {
        self.cases.len()
    }

    /// Finds the test case of the given name: where it stands in the order
    /// of registration, or nothing where no test case has that name.
    pub fn position(&self, name: &str) -> (found: Option<usize>)
        ensures
            found is Some <==> self.names().contains(name@),
            found is Some ==> found->0 < self.names().len() && self.names()[found->0 as int]
                == name@,
    {
        let sought = name.to_owned();
        let mut at: usize = 0;
        while at < self.cases.len()
            invariant
                at <= self.cases@.len(),
                sought@ == name@,
                forall|i: int| 0 <= i < at ==> self.names()[i] != name@,
            decreases self.cases@.len() - at,
        {
            if self.cases[at].name == sought {
                assert(self.names()[at as int] == name@);
                return Some(at);
            }
            at += 1;
        }
        None
    }

    /// Registers `logic` under `name` and does not run it. The registration
    /// is rejected, and the registry stays as it is, where `name` is no
    /// identifier or is taken already; else the test case is added behind
    /// those that were registered before.
    pub fn register(&mut self, name: &str, logic: L) -> (outcome: Result<(), RegistryError>)
        requires
            old(self).wf(),
        ensures
            final(self).wf(),
            outcome is Ok ==> registration(old(self).names(), name@) == Ok::<
                Seq<Seq<char>>,
                RegistryError,
            >(final(self).names()),
            outcome is Ok ==> final(self).logic() == old(self).logic().push(logic),
            outcome is Err ==> registration(old(self).names(), name@) == Err::<
                Seq<Seq<char>>,
                RegistryError,
            >(outcome->Err_0),
            outcome is Err ==> final(self).cases() == old(self).cases(),
    {
        if !name_is_valid(name) {
            return Err(RegistryError::InvalidName);
        }
        if self.position(name).is_some() {
            return Err(RegistryError::DuplicateName);
        }
        self.cases.push(TestCase { name: name.to_owned(), logic });
        assert(self.names() =~= old(self).names().push(name@));
        Ok(())
    }

    /// The names that begin with `prefix`, in the order of registration.
    /// The empty prefix selects every test case.
    pub fn matching(&self, prefix: &str) -> (selected: Vec<String>)
        ensures
            selected.deep_view() == self.names().filter(begins_with(prefix@)),
    {
        let mut selected: Vec<String> = Vec::new();
        let mut at: usize = 0;
        while at < self.cases.len()
            invariant
                at <= self.cases@.len(),
                selected.deep_view() == self.names().take(at as int).filter(begins_with(prefix@)),
            decreases self.cases@.len() - at,
        {
            proof {
                let seen = self.names().take(at as int);
                assert(self.names().take(at + 1) =~= seen.push(self.names()[at as int]));
                seen.lemma_filter_push(self.names()[at as int], begins_with(prefix@));
            }
            if has_prefix(self.cases[at].name.as_str(), prefix) {
                selected.push(self.cases[at].name.clone());
            }
            at += 1;
        }
        assert(self.names().take(at as int) =~= self.names());
        selected
    }

    /// Takes the test case of the given name out of the registry, to be
    /// run. Where no test case has that name, nothing is taken and the
    /// registry stays as it is.
    pub fn take(&mut self, name: &str) -> (taken: Option<TestCase<L>>)
        requires
            old(self).wf(),
        ensures
            final(self).wf(),
            taken is Some <==> old(self).names().contains(name@),
            taken is Some ==> taken->0.name@ == name@,
            taken is Some ==> taken->0.logic == old(self).logic()[old(self).names().index_of(name@)],
            taken is Some ==> final(self).names() == old(self).names().remove(
                old(self).names().index_of(name@),
            ),
            taken is Some ==> final(self).logic() == old(self).logic().remove(
                old(self).names().index_of(name@),
            ),
            taken is None ==> final(self).cases() == old(self).cases(),
    {
        match self.position(name) {
            Some(at) => {
                let case = self.cases.remove(at);
                assert(self.names() =~= old(self).names().remove(at as int));
                assert(old(self).names().index_of(name@) == at);
                Some(case)
            },
            None => None,
        }
    }
}

} // verus!
