//! Substitution of device aliases by identifiers.

use vstd::prelude::*;

use crate::text::str_eq;

verus! {

/// What `input` resolves to among `entries`: the target of the first entry
/// whose alias equals it, else `input` itself.
pub open spec fn alias_target(entries: Seq<(Seq<char>, Seq<char>)>, input: Seq<char>) -> Seq<char>
    decreases entries.len(),
{
    if entries.len() == 0 {
        input
    } else if entries[0].0 == input {
        entries[0].1
    } else {
        alias_target(entries.drop_first(), input)
    }
}

proof fn lemma_alias_target_skip(entries: Seq<(Seq<char>, Seq<char>)>, input: Seq<char>, i: int)
    requires
        0 <= i <= entries.len(),
        forall|j: int| 0 <= j < i ==> (#[trigger] entries[j]).0 != input,
    ensures
        alias_target(entries, input) == alias_target(entries.skip(i), input),
    decreases i,
{
    if i > 0 {
        lemma_alias_target_skip(entries, input, i - 1);
        assert(entries.skip(i - 1).drop_first() =~= entries.skip(i));
        assert(entries.skip(i - 1)[0] == entries[i - 1]);
    } else {
        assert(entries.skip(0) =~= entries);
    }
}

/// Maps user-chosen aliases to device identifiers; anything that is no
/// alias stands for itself.
#[derive(Debug)]
pub struct AliasResolver {
    aliases: Vec<(String, String)>,
}

impl View for AliasResolver {
    type V = Seq<(Seq<char>, Seq<char>)>;

    closed spec fn view(&self) -> Seq<(Seq<char>, Seq<char>)> {
        self.aliases@.map_values(|p: (String, String)| (p.0@, p.1@))
    }
}

impl AliasResolver {
    /// A resolver over `(alias, identifier)` pairs.
    pub fn new(aliases: Vec<(String, String)>) -> (r: Self)
        ensures
            r@ == aliases@.map_values(|p: (String, String)| (p.0@, p.1@)),
    {
        AliasResolver { aliases }
    }

    pub fn resolve<'a>(&'a self, input: &'a str) -> (r: &'a str)
        ensures
            r@ == alias_target(self@, input@),
    {
        let ghost entries = self@;
        let n = self.aliases.len();
        let mut i: usize = 0;
        while i < n
            invariant
                i <= n,
                n == entries.len(),
                entries == self@,
                forall|j: int| 0 <= j < i ==> (#[trigger] entries[j]).0 != input@,
            decreases n - i,
        {
            let entry = &self.aliases[i];
            assert(entries[i as int] == (entry.0@, entry.1@));
            if str_eq(entry.0.as_str(), input) {
                proof {
                    lemma_alias_target_skip(entries, input@, i as int);
                    assert(entries.skip(i as int)[0] == entries[i as int]);
                }
                return entry.1.as_str();
            }
            i = i + 1;
        }
        proof {
            lemma_alias_target_skip(entries, input@, n as int);
        }
        input
    }
}

} // verus!
