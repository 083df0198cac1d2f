use crate::text::order::{
    lemma_precedes_irreflexive, lemma_precedes_transitive, precedes, rank, Rank,
};
use vstd::prelude::*;

verus! {

/// A name that stands for a query.
#[derive(Debug, PartialEq, Eq)]
pub struct Alias {
    pub name: String,
    pub query: String,
}

impl Clone for Alias {
    fn clone(&self) -> (copy: Alias)
        ensures
            copy == *self,
    {
        Alias { name: self.name.clone(), query: self.query.clone() }
    }
}

/// Whether the names of `entries` strictly ascend; no name then occurs twice.
pub open spec fn sorted_by_name(entries: Seq<Alias>) -> bool {
    forall|i: int, j: int|
        #![trigger entries[i], entries[j]]
        0 <= i < j < entries.len() ==> precedes(entries[i].name@, entries[j].name@)
}

/// Whether one of `entries` has the name `name`.
pub open spec fn lists(entries: Seq<Alias>, name: Seq<char>) -> bool {
    exists|i: int| 0 <= i < entries.len() && (#[trigger] entries[i]).name@ == name
}

/// The place of an entry named `name` among `entries`.
pub open spec fn position_of(entries: Seq<Alias>, name: Seq<char>) -> int {
    choose|i: int| 0 <= i < entries.len() && (#[trigger] entries[i]).name@ == name
}

/// The mapping from names to queries that `entries` write down.
pub open spec fn map_of(entries: Seq<Alias>) -> Map<Seq<char>, Seq<char>> {
    Map::new(
        |name: Seq<char>| lists(entries, name),
        |name: Seq<char>| entries[position_of(entries, name)].query@,
    )
}

/// In a sorted list each entry's name is mapped to that entry's query.
pub proof fn lemma_map_of_entry(entries: Seq<Alias>, i: int)
    requires
        sorted_by_name(entries),
        0 <= i < entries.len(),
    ensures
        map_of(entries).contains_key(entries[i].name@),
        map_of(entries)[entries[i].name@] == entries[i].query@,
{
    let name = entries[i].name@;
    let k = position_of(entries, name);
    assert(entries[k].name@ == name);
    lemma_precedes_irreflexive(name);
    if k < i {
        assert(precedes(entries[k].name@, entries[i].name@));
    } else if i < k {
        assert(precedes(entries[i].name@, entries[k].name@));
    }
}

/// The aliases that a user has defined, each name once, kept in the order of the names.
#[derive(Debug, PartialEq, Eq)]
pub struct AliasBook {
    entries: Vec<Alias>,
}

impl View for AliasBook {
    type V = Map<Seq<char>, Seq<char>>;

    closed spec fn view(&self) -> Map<Seq<char>, Seq<char>> {
        map_of(self.entries@)
    }
}

impl AliasBook {
    #[verifier::type_invariant]
    spec fn well_formed(&self) -> bool {
        sorted_by_name(self.entries@)
    }

    /// A book without aliases.
    pub fn new() -> (book: AliasBook)
        ensures
            book@ == Map::<Seq<char>, Seq<char>>::empty(),
    {
        let book = AliasBook { entries: Vec::new() };
        assert(book@ =~= Map::<Seq<char>, Seq<char>>::empty());
        book
    }

    /// Where `name` stands, or would stand, among the entries, and whether it is there.
    fn locate(&self, name: &str) -> (place: (usize, bool))
        ensures
            place.0 <= self.entries.len(),
            forall|i: int| 0 <= i < place.0 ==> precedes((#[trigger] self.entries@[i]).name@, name@),
            place.1 ==> place.0 < self.entries.len() && self.entries@[place.0 as int].name@
                == name@,
            !place.1 ==> !lists(self.entries@, name@),
            !place.1 ==> forall|i: int|
                place.0 <= i < self.entries.len() ==> precedes(
                    name@,
                    (#[trigger] self.entries@[i]).name@,
                ),
    {
        proof {
            use_type_invariant(self);
        }
        let mut p: usize = 0;
        let mut found = false;
        let mut passed = false;
        while p < self.entries.len() && !found && !passed
            invariant
                p <= self.entries.len(),
                sorted_by_name(self.entries@),
                forall|i: int| 0 <= i < p ==> precedes((#[trigger] self.entries@[i]).name@, name@),
                found ==> p < self.entries.len() && self.entries@[p as int].name@ == name@,
                passed ==> p < self.entries.len() && precedes(name@, self.entries@[p as int].name@),
                !(found && passed),
            decreases self.entries.len() - p + if found || passed { 0int } else { 1int },
        {
            match rank(self.entries[p].name.as_str(), name) {
                Rank::Before => {
                    p += 1;
                },
                Rank::Same => {
                    found = true;
                },
                Rank::After => {
                    passed = true;
                },
            }
        }
        proof {
            if !found {
                assert forall|i: int| p <= i < self.entries.len() implies precedes(
                    name@,
                    (#[trigger] self.entries@[i]).name@,
                ) by {
                    if i > p {
                        assert(precedes(self.entries@[p as int].name@, self.entries@[i].name@));
                        lemma_precedes_transitive(
                            name@,
                            self.entries@[p as int].name@,
                            self.entries@[i].name@,
                        );
                    }
                }
                assert forall|i: int| 0 <= i < self.entries.len() implies (
                #[trigger] self.entries@[i]).name@ != name@ by {
                    lemma_precedes_irreflexive(name@);
                }
            }
        }
        (p, found)
    }

    /// The query that `name` stands for, if the book has it.
    pub fn get(&self, name: &str) -> (query: Option<String>)
        ensures
            match query {
                Some(q) => self@.contains_key(name@) && self@[name@] == q@,
                None => !self@.contains_key(name@),
            },
    {
        proof {
            use_type_invariant(self);
        }
        let (p, found) = self.locate(name);
        if found {
            proof {
                lemma_map_of_entry(self.entries@, p as int);
            }
            Some(self.entries[p].query.clone())
        } else {
            None
        }
    }

    /// Lets `name` stand for `query`, in place of what it stood for before.
    pub fn insert(&mut self, name: &str, query: &str)
        ensures
            final(self)@ == old(self)@.insert(name@, query@),
    {
        proof {
            use_type_invariant(&*self);
        }
        let (p, found) = self.locate(name);
        let alias = Alias { name: String::from_str(name), query: String::from_str(query) };
        let ghost before = self.entries@;
        let mut entries: Vec<Alias> = Vec::new();
        std::mem::swap(&mut self.entries, &mut entries);
        if found {
            entries.set(p, alias);
        } else {
            entries.insert(p, alias);
        }
        proof {
            let after = entries@;
            let shift: int = if found { 0 } else { 1 };
            assert forall|i: int, j: int|
                #![trigger after[i], after[j]]
                0 <= i < j < after.len() implies precedes(after[i].name@, after[j].name@) by {
                if i < p && j > p {
                    assert(precedes(before[i].name@, before[j - shift].name@));
                } else if i < p && j < p {
                    assert(precedes(before[i].name@, before[j].name@));
                } else if i > p {
                    assert(precedes(before[i - shift].name@, before[j - shift].name@));
                } else if i == p {
                    assert(precedes(name@, before[j - shift].name@)) by {
                        if found {
                            assert(precedes(before[p as int].name@, before[j].name@));
                        }
                    }
                }
            }
            assert forall|k: Seq<char>| #[trigger] map_of(after).contains_key(k) implies map_of(
                before,
            ).insert(name@, query@).contains_key(k) by {
                let i = position_of(after, k);
                if i < p {
                    assert(before[i].name@ == k);
                } else if i > p {
                    assert(before[i - shift].name@ == k);
                }
            }
            assert forall|k: Seq<char>| #[trigger] map_of(before).insert(
                name@,
                query@,
            ).contains_key(k) implies map_of(after).contains_key(k) && map_of(after)[k] == map_of(
                before,
            ).insert(name@, query@)[k] by {
                if k == name@ {
                    assert(after[p as int].name@ == k);
                    lemma_map_of_entry(after, p as int);
                } else {
                    let i = position_of(before, k);
                    lemma_map_of_entry(before, i);
                    let to = if i < p { i } else { i + shift };
                    assert(after[to].name@ == k);
                    lemma_map_of_entry(after, to);
                }
            }
            assert(map_of(after) =~= map_of(before).insert(name@, query@));
        }
        self.entries = entries;
    }

    /// Takes `name` out of the book, if it is there.
    pub fn remove(&mut self, name: &str)
        ensures
            final(self)@ == old(self)@.remove(name@),
    {
        proof {
            use_type_invariant(&*self);
        }
        let (p, found) = self.locate(name);
        let ghost before = self.entries@;
        if found {
            let mut entries: Vec<Alias> = Vec::new();
            std::mem::swap(&mut self.entries, &mut entries);
            entries.remove(p);
            proof {
                let after = entries@;
                assert forall|i: int, j: int|
                    #![trigger after[i], after[j]]
                    0 <= i < j < after.len() implies precedes(after[i].name@, after[j].name@) by {
                    let from_i = if i < p { i } else { i + 1 };
                    let from_j = if j < p { j } else { j + 1 };
                    assert(precedes(before[from_i].name@, before[from_j].name@));
                }
                assert forall|k: Seq<char>| #[trigger] map_of(after).contains_key(k) implies map_of(
                    before,
                ).remove(name@).contains_key(k) && map_of(after)[k] == map_of(before).remove(
                    name@,
                )[k] by {
                    let i = position_of(after, k);
                    let from = if i < p { i } else { i + 1 };
                    assert(before[from].name@ == k);
                    lemma_map_of_entry(after, i);
                    lemma_map_of_entry(before, from);
                    lemma_precedes_irreflexive(k);
                    if from < p {
                        assert(precedes(before[from].name@, before[p as int].name@));
                    } else {
                        assert(precedes(before[p as int].name@, before[from].name@));
                    }
                }
                assert forall|k: Seq<char>| #[trigger] map_of(before).remove(name@).contains_key(
                    k,
                ) implies map_of(after).contains_key(k) by {
                    let i = position_of(before, k);
                    let to = if i < p { i } else { i - 1 };
                    assert(after[to].name@ == k);
                }
                assert(map_of(after) =~= map_of(before).remove(name@));
            }
            self.entries = entries;
        } else {
            assert(map_of(before) =~= map_of(before).remove(name@));
        }
    }

    /// The aliases in the order of their names.
    pub fn entries(&self) -> (list: &Vec<Alias>)
        ensures
            sorted_by_name(list@),
            map_of(list@) == self@,
    {
        proof {
            use_type_invariant(self);
        }
        &self.entries
    }

    /// Tells whether the book has no alias.
    pub fn is_empty(&self) -> (empty: bool)
        ensures
            empty == (self@ == Map::<Seq<char>, Seq<char>>::empty()),
    {
        proof {
            use_type_invariant(self);
            if self.entries.len() > 0 {
                lemma_map_of_entry(self.entries@, 0);
            } else {
                assert(self@ =~= Map::<Seq<char>, Seq<char>>::empty());
            }
        }
        self.entries.len() == 0
    }
}

/// What the user has set up: the credentials of the catalog's API and the aliases.
#[derive(Debug, PartialEq, Eq)]
pub struct Config {
    pub client_id: Option<String>,
    pub client_secret: Option<String>,
    pub aliases: Option<AliasBook>,
}

impl Default for Config {
    /// The settings of a user who has set up nothing.
    fn default() -> (config: Config)
        ensures
            config.client_id is None,
            config.client_secret is None,
            config.aliases is None,
    {
        Config { client_id: None, client_secret: None, aliases: None }
    }
}

impl Config {
    /// The aliases as a mapping from names to queries; empty where none were ever set.
    pub open spec fn alias_map(&self) -> Map<Seq<char>, Seq<char>> {
        match self.aliases {
            Some(book) => book@,
            None => Map::empty(),
        }
    }

    /// The query that is searched for when the user asks for `query`: what `query`
    /// stands for where it is the name of an alias, and `query` itself where it is not.
    pub open spec fn resolved(&self, query: Seq<char>) -> Seq<char> {
        if self.alias_map().contains_key(query) {
            self.alias_map()[query]
        } else {
            query
        }
    }

    /// Tells whether both client credentials are set up.
    pub fn has_credentials(&self) -> (has: bool)
        ensures
            has == (self.client_id is Some && self.client_secret is Some),
    {
        self.client_id.is_some() && self.client_secret.is_some()
    }

    /// Replaces the name of an alias by the query it stands for.
    pub fn resolve(&self, query: &str) -> (resolved: String)
        ensures
            resolved@ == self.resolved(query@),
    {
        let found = match &self.aliases {
            Some(book) => book.get(query),
            None => None,
        };
        match found {
            Some(q) => q,
            None => String::from_str(query),
        }
    }
}

/// Once `name` stands for `query`, asking for `name` searches for `query`, and every
/// other query is searched for as before.
pub proof fn lemma_added_alias_is_substituted(
    before: Config,
    after: Config,
    name: Seq<char>,
    query: Seq<char>,
)
    requires
        after.alias_map() == before.alias_map().insert(name, query),
    ensures
        after.resolved(name) == query,
        forall|other: Seq<char>| other != name ==> after.resolved(other) == before.resolved(other),
{
}

/// Once the alias `name` is forgotten, asking for `name` searches for `name` itself,
/// and every other query is searched for as before.
pub proof fn lemma_removed_alias_is_not_substituted(before: Config, after: Config, name: Seq<char>)
    requires
        after.alias_map() == before.alias_map().remove(name),
    ensures
        after.resolved(name) == name,
        forall|other: Seq<char>| other != name ==> after.resolved(other) == before.resolved(other),
{
}

/// Without aliases every query is searched for as it is.
pub proof fn lemma_no_alias_no_substitution(config: Config, query: Seq<char>)
    requires
        config.alias_map() == Map::<Seq<char>, Seq<char>>::empty(),
    ensures
        config.resolved(query) == query,
{
}

} // verus!
