//! The registry of server spaces: a mapping from a space's name to its
//! record, in which no name occurs twice.

use crate::utils::same_text;
use vstd::prelude::*;

verus! {

/// A named deployment target. The password is held as the vault sealed it.
#[derive(Debug, PartialEq, Eq)]
pub struct ServerSpace {
    pub name: String,
    pub host: String,
    pub path: String,
    pub user: String,
    pub pass: String,
}

/// What a server space holds, as plain text.
pub struct SpaceRecord {
    pub name: Seq<char>,
    pub host: Seq<char>,
    pub path: Seq<char>,
    pub user: Seq<char>,
    pub pass: Seq<char>,
}

impl View for ServerSpace {
    type V = SpaceRecord;

    open spec fn view(&self) -> SpaceRecord {
        SpaceRecord {
            name: self.name@,
            host: self.host@,
            path: self.path@,
            user: self.user@,
            pass: self.pass@,
        }
    }
}

impl ServerSpace {
    /// A server space with the five fields given.
    pub fn new(name: &str, host: &str, path: &str, user: &str, pass: &str) -> (r: Self)
        ensures
            r@ == (SpaceRecord { name: name@, host: host@, path: path@, user: user@, pass: pass@ }),
    {
        Self {
            name: name.to_owned(),
            host: host.to_owned(),
            path: path.to_owned(),
            user: user.to_owned(),
            pass: pass.to_owned(),
        }
    }

    /// An independent copy of this server space.
    pub fn copy(&self) -> (r: Self)
        ensures
            r@ == self@,
    {
        Self {
            name: self.name.clone(),
            host: self.host.clone(),
            path: self.path.clone(),
            user: self.user.clone(),
            pass: self.pass.clone(),
        }
    }
}

/// Why the registry refused a change.
#[derive(Debug, Clone, Copy, PartialEq, Eq)]
pub enum RegistryError {
    /// A space of that name is registered already.
    DuplicateName,
    /// No space of that name is registered.
    NotFound,
}

/// The registry as a mapping from names to records.
pub type Registry = Map<Seq<char>, SpaceRecord>;

/// The names of `spaces`, in their order.
pub open spec fn names_of(spaces: Seq<SpaceRecord>) -> Seq<Seq<char>> {
    spaces.map_values(|space: SpaceRecord| space.name)
}

/// The mapping that `spaces` stands for: each name to the first record that
/// bears it.
pub open spec fn mapping_of(spaces: Seq<SpaceRecord>) -> Registry {
    Map::new(
        |name: Seq<char>| names_of(spaces).contains(name),
        |name: Seq<char>| spaces[names_of(spaces).index_of(name)],
    )
}

/// Every record of the mapping stands under its own name.
pub proof fn lemma_records_bear_their_names(spaces: Seq<SpaceRecord>)
    ensures
        forall|name: Seq<char>| #[trigger]
            mapping_of(spaces).contains_key(name) ==> mapping_of(spaces)[name].name == name,
{
    assert forall|name: Seq<char>| #[trigger]
        mapping_of(spaces).contains_key(name) implies mapping_of(spaces)[name].name == name by {
        let at = names_of(spaces).index_of(name);
        assert(names_of(spaces)[at] == name);
    }
}

/// In a sequence without duplicates, a value is found where it stands.
pub proof fn lemma_index_of_unique(names: Seq<Seq<char>>, at: int)
    requires
        names.no_duplicates(),
        0 <= at < names.len(),
    ensures
        names.index_of(names[at]) == at,
{
    let found = names.index_of(names[at]);
    assert(0 <= found < names.len() && names[found] == names[at]);
}

/// Registering a record under a new name inserts it into the mapping and
/// keeps the names distinct.
pub proof fn lemma_push_is_insert(spaces: Seq<SpaceRecord>, space: SpaceRecord)
    requires
        names_of(spaces).no_duplicates(),
        !names_of(spaces).contains(space.name),
    ensures
        names_of(spaces.push(space)).no_duplicates(),
        names_of(spaces.push(space)) == names_of(spaces).push(space.name),
        mapping_of(spaces.push(space)) == mapping_of(spaces).insert(space.name, space),
{
    let before = names_of(spaces);
    let grown = spaces.push(space);
    let after = names_of(grown);
    assert(after =~= before.push(space.name));
    assert forall|i: int, j: int| 0 <= i < after.len() && 0 <= j < after.len() && i != j implies after[i]
        != after[j] by {
        if i < before.len() && j < before.len() {
            assert(before[i] != before[j]);
        } else if i < before.len() {
            assert(before.contains(before[i]));
        } else {
            assert(before.contains(before[j]));
        }
    }
    let left = mapping_of(grown);
    let right = mapping_of(spaces).insert(space.name, space);
    assert forall|name: Seq<char>| left.contains_key(name) == right.contains_key(name) by {
        if before.contains(name) {
            let i = before.index_of(name);
            assert(after[i] == name);
        }
        if name == space.name {
            assert(after[before.len() as int] == name);
        }
        if after.contains(name) {
            let i = after.index_of(name);
            if i < before.len() {
                assert(before[i] == name);
            }
        }
    }
    assert forall|name: Seq<char>| left.contains_key(name) implies left[name] == right[name] by {
        let i = after.index_of(name);
        lemma_index_of_unique(after, i);
        if i < before.len() {
            assert(before[i] == name);
            lemma_index_of_unique(before, i);
        }
    }
    assert(left =~= right);
}

/// Dropping the record at `at` removes its name from the mapping and keeps
/// the names distinct.
pub proof fn lemma_remove_is_remove(spaces: Seq<SpaceRecord>, at: int)
    requires
        names_of(spaces).no_duplicates(),
        0 <= at < spaces.len(),
    ensures
        names_of(spaces.remove(at)).no_duplicates(),
        names_of(spaces.remove(at)) == names_of(spaces).remove(at),
        mapping_of(spaces.remove(at)) == mapping_of(spaces).remove(spaces[at].name),
{
    let before = names_of(spaces);
    let shrunk = spaces.remove(at);
    let after = names_of(shrunk);
    let gone = spaces[at].name;
    assert(before[at] == gone);
    assert(after =~= before.remove(at));
    assert forall|i: int, j: int| 0 <= i < after.len() && 0 <= j < after.len() && i != j implies after[i]
        != after[j] by {
        let a = if i < at { i } else { i + 1 };
        let b = if j < at { j } else { j + 1 };
        assert(after[i] == before[a] && after[j] == before[b]);
    }
    let left = mapping_of(shrunk);
    let right = mapping_of(spaces).remove(gone);
    assert forall|name: Seq<char>| left.contains_key(name) == right.contains_key(name) by {
        if after.contains(name) {
            let i = after.index_of(name);
            let a = if i < at { i } else { i + 1 };
            assert(before[a] == name);
            assert(a != at);
        }
        if before.contains(name) && name != gone {
            let a = before.index_of(name);
            let i = if a < at { a } else { a - 1 };
            assert(after[i] == name);
        }
    }
    assert forall|name: Seq<char>| left.contains_key(name) implies left[name] == right[name] by {
        let i = after.index_of(name);
        let a = if i < at { i } else { i + 1 };
        assert(before[a] == name);
        lemma_index_of_unique(before, a);
    }
    assert(left =~= right);
}

/// The registry.
#[derive(Debug)]
pub struct Config {
    server_space_list: Vec<ServerSpace>,
}

impl View for Config {
    type V = Registry;

    /// The mapping from each registered name to its record.
    open spec fn view(&self) -> Registry {
        mapping_of(self.spaces())
    }
}

impl Default for Config {
    fn default() -> (r: Self)
        ensures
            r.wf(),
            r.spaces() == Seq::<SpaceRecord>::empty(),
            r@ == Map::<Seq<char>, SpaceRecord>::empty(),
    {
        Config::new()
    }
}

impl Config {
    /// The records in the order in which they were registered.
    pub closed spec fn spaces(&self) -> Seq<SpaceRecord> {
        self.server_space_list@.map_values(|space: ServerSpace| space@)
    }

    /// The registered names in the order in which they were registered.
    pub open spec fn names(&self) -> Seq<Seq<char>> {
        names_of(self.spaces())
    }

    /// The registry is well formed: no name is registered twice.
    pub open spec fn wf(&self) -> bool {
        self.names().no_duplicates()
    }

    /// A registry without spaces.
    pub fn new() -> (r: Self)
        ensures
            r.wf(),
            r.spaces() == Seq::<SpaceRecord>::empty(),
            r@ == Map::<Seq<char>, SpaceRecord>::empty(),
    {
        let r = Config { server_space_list: Vec::new() };
        assert(r.spaces() =~= Seq::<SpaceRecord>::empty());
        assert(r@ =~= Map::<Seq<char>, SpaceRecord>::empty());
        r
    }

    /// Where the space named `name` stands, if it is registered.
    fn position(&self, name: &str) -> (r: Option<usize>)
        ensures
            match r {
                Some(at) => at < self.spaces().len() && self.names()[at as int] == name@
                    && at < self.server_space_list@.len(),
                None => !self.names().contains(name@),
            },
    {
        let mut at: usize = 0;
        while at < self.server_space_list.len()
            invariant
                at <= self.server_space_list@.len(),
                forall|i: int| 0 <= i < at ==> self.names()[i] != name@,
            decreases self.server_space_list@.len() - at,
        {
            if same_text(self.server_space_list[at].name.as_str(), name) {
                return Some(at);
            }
            at = at + 1;
        }
        None
    }

    /// Whether a space may still be registered under `name`: no space bears
    /// it yet.
    pub fn check_server_space_name_available(&self, name: &str) -> (r: bool)
        ensures
            r == !self@.contains_key(name@),
    {
        self.position(name).is_none()
    }

    /// Registers `server_space` unless its name is taken. A refusal leaves
    /// the registry as it was.
    pub fn add_server_space(&mut self, server_space: ServerSpace) -> (r: Result<(), RegistryError>)
        requires
            old(self).wf(),
        ensures
            final(self).wf(),
            match r {
                Ok(()) => {
                    &&& !old(self)@.contains_key(server_space.name@)
                    &&& final(self)@ == old(self)@.insert(server_space.name@, server_space@)
                    &&& final(self).spaces() == old(self).spaces().push(server_space@)
                },
                Err(e) => {
                    &&& e == RegistryError::DuplicateName
                    &&& old(self)@.contains_key(server_space.name@)
                    &&& final(self)@ == old(self)@
                    &&& final(self).spaces() == old(self).spaces()
                },
            },
    {
        match self.position(server_space.name.as_str()) {
            Some(_) => Err(RegistryError::DuplicateName),
            None => {
                proof {
                    lemma_push_is_insert(self.spaces(), server_space@);
                    assert(self.server_space_list@.push(server_space).map_values(
                        |space: ServerSpace| space@,
                    ) =~= self.spaces().push(server_space@));
                }
                self.server_space_list.push(server_space);
                Ok(())
            },
        }
    }

    /// The registered names, in the order in which they were registered.
    /// Together they are the names that the mapping knows.
    pub fn list_server_space(&self) -> (r: Vec<String>)
        requires
            self.wf(),
        ensures
            r@.map_values(|name: String| name@) == self.names(),
            self.names().to_set() == self@.dom(),
    {
        let mut r: Vec<String> = Vec::new();
        let mut at: usize = 0;
        while at < self.server_space_list.len()
            invariant
                at <= self.server_space_list@.len(),
                r@.map_values(|name: String| name@) == self.names().take(at as int),
            decreases self.server_space_list@.len() - at,
        {
            let name = self.server_space_list[at].name.clone();
            proof {
                assert(self.names()[at as int] == name@);
                assert(self.names().take(at + 1) =~= self.names().take(at as int).push(name@));
                assert(r@.push(name).map_values(|name: String| name@) =~= r@.map_values(
                    |name: String| name@,
                ).push(name@));
            }
            r.push(name);
            at = at + 1;
        }
        assert(self.names().take(at as int) =~= self.names());
        assert(self.names().to_set() =~= self@.dom());
        r
    }

    /// A copy of the space named `server_space_name`, or `None` where none is
    /// registered under that name.
    pub fn server_space_detail(&self, server_space_name: &str) -> (r: Option<ServerSpace>)
        requires
            self.wf(),
        ensures
            match r {
                Some(space) => self@.contains_key(server_space_name@) && space@
                    == self@[server_space_name@],
                None => !self@.contains_key(server_space_name@),
            },
    {
        match self.position(server_space_name) {
            Some(at) => {
                proof {
                    lemma_index_of_unique(self.names(), at as int);
                }
                Some(self.server_space_list[at].copy())
            },
            None => None,
        }
    }

    /// Drops the space named `server_space_name`. Where none is registered
    /// under that name, the registry stays as it was.
    pub fn remove_server_space(&mut self, server_space_name: &str) -> (r: Result<(), RegistryError>)
        requires
            old(self).wf(),
        ensures
            final(self).wf(),
            match r {
                Ok(()) => {
                    &&& old(self)@.contains_key(server_space_name@)
                    &&& final(self)@ == old(self)@.remove(server_space_name@)
                    &&& final(self).spaces() == old(self).spaces().remove(
                        old(self).names().index_of(server_space_name@),
                    )
                },
                Err(e) => {
                    &&& e == RegistryError::NotFound
                    &&& !old(self)@.contains_key(server_space_name@)
                    &&& final(self)@ == old(self)@
                    &&& final(self).spaces() == old(self).spaces()
                },
            },
    {
        match self.position(server_space_name) {
            Some(at) => {
                proof {
                    lemma_index_of_unique(self.names(), at as int);
                    lemma_remove_is_remove(self.spaces(), at as int);
                    assert(self.server_space_list@.remove(at as int).map_values(
                        |space: ServerSpace| space@,
                    ) =~= self.spaces().remove(at as int));
                }
                self.server_space_list.remove(at);
                Ok(())
            },
            None => Err(RegistryError::NotFound),
        }
    }
}

} // verus!
