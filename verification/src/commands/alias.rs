use crate::config::{map_of, sorted_by_name, Alias, AliasBook, Config};
use vstd::prelude::*;

verus! {

/// Lets `name` stand for `query` from now on, in place of what it stood for before.
/// Nothing else of the settings changes.
pub fn add(config: &mut Config, name: &str, query: &str)
    ensures
        final(config).aliases is Some,
        final(config).alias_map() == old(config).alias_map().insert(name@, query@),
        final(config).client_id == old(config).client_id,
        final(config).client_secret == old(config).client_secret,
{
    let mut aliases: Option<AliasBook> = None;
    std::mem::swap(&mut config.aliases, &mut aliases);
    let mut book = match aliases {
        Some(book) => book,
        None => AliasBook::new(),
    };
    book.insert(name, query);
    config.aliases = Some(book);
}

/// Forgets the alias `name`, if there is one. Nothing else of the settings changes.
pub fn remove(config: &mut Config, name: &str)
    ensures
        final(config).aliases is Some <==> old(config).aliases is Some,
        final(config).alias_map() == old(config).alias_map().remove(name@),
        final(config).client_id == old(config).client_id,
        final(config).client_secret == old(config).client_secret,
{
    let mut aliases: Option<AliasBook> = None;
    std::mem::swap(&mut config.aliases, &mut aliases);
    match aliases {
        Some(mut book) => {
            book.remove(name);
            config.aliases = Some(book);
        },
        None => {
            assert(old(config).alias_map() =~= old(config).alias_map().remove(name@));
        },
    }
}

/// The aliases in the order of their names, each once; none where none were set.
pub fn list(config: &Config) -> (aliases: Vec<Alias>)
    ensures
        sorted_by_name(aliases@),
        map_of(aliases@) == config.alias_map(),
{
    let mut aliases: Vec<Alias> = Vec::new();
    match &config.aliases {
        Some(book) => {
            let entries = book.entries();
            let mut i: usize = 0;
            while i < entries.len()
                invariant
                    i <= entries.len(),
                    aliases@ == entries@.take(i as int),
                decreases entries.len() - i,
            {
                aliases.push(entries[i].clone());
                assert(aliases@ =~= entries@.take(i + 1));
                i += 1;
            }
            assert(aliases@ =~= entries@);
        },
        None => {
            assert(map_of(aliases@) =~= Map::<Seq<char>, Seq<char>>::empty());
        },
    }
    aliases
}

} // verus!
