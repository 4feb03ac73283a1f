//! The plugin registry: an in-memory mapping from lower-cased plugin name
//! to plugin source text, populated in one batch from a sequence of
//! `(candidate name, raw bytes)` pairs.

use vstd::prelude::*;
use crate::text::{decode_text, lower_of, lowercase};

verus! {

/// The mapping that a sequence of `(key, text)` entries stands for: every
/// entry is present, and a later entry with the same key shadows an
/// earlier one.
pub open spec fn map_of(entries: Seq<(Seq<char>, Seq<char>)>) -> Map<Seq<char>, Seq<char>>
    decreases entries.len(),
{
    if entries.len() == 0 {
        Map::empty()
    } else {
        map_of(entries.drop_last()).insert(entries.last().0, entries.last().1)
    }
}

/// The registry that a batch of `(candidate name, raw bytes)` sources
/// loads to: each source whose bytes decode as UTF-8 is registered under
/// the lower-cased candidate name, a later source wins a key collision,
/// and a source that does not decode is skipped without disturbing the
/// rest.
pub open spec fn load_model(sources: Seq<(Seq<char>, Seq<u8>)>) -> Map<Seq<char>, Seq<char>>
    decreases sources.len(),
{
    if sources.len() == 0 {
        Map::empty()
    } else if vstd::utf8::valid_utf8(sources.last().1) {
        load_model(sources.drop_last()).insert(
            lower_of(sources.last().0),
            vstd::utf8::decode_utf8(sources.last().1),
        )
    } else {
        load_model(sources.drop_last())
    }
}

/// The in-memory plugin registry.  Its abstract value is a map from
/// lower-cased plugin name to plugin source text.
#[derive(Debug, Clone)]
pub struct PluginRegistry {
    entries: Vec<(String, String)>,
}

impl View for PluginRegistry {
    type V = Map<Seq<char>, Seq<char>>;

    closed spec fn view(&self) -> Map<Seq<char>, Seq<char>> {
        map_of(self.entries.deep_view())
    }
}

/// In the map an entry sequence stands for, a key is present exactly when
/// some entry carries it, and the value is the one of the last such entry.
proof fn lemma_map_of_last_match(entries: Seq<(Seq<char>, Seq<char>)>, i: int)
    requires
        0 <= i < entries.len(),
        forall|j: int| i < j < entries.len() ==> entries[j].0 != entries[i].0,
    ensures
        map_of(entries).contains_key(entries[i].0),
        map_of(entries)[entries[i].0] == entries[i].1,
    decreases entries.len(),
{
    if i < entries.len() - 1 {
        assert(entries.drop_last()[i] == entries[i]);
        lemma_map_of_last_match(entries.drop_last(), i);
    }
}

/// A key that no entry carries is absent from the map the entries stand
/// for.
proof fn lemma_map_of_absent(entries: Seq<(Seq<char>, Seq<char>)>, key: Seq<char>)
    requires
        forall|j: int| 0 <= j < entries.len() ==> entries[j].0 != key,
    ensures
        !map_of(entries).contains_key(key),
    decreases entries.len(),
{
    if entries.len() > 0 {
        lemma_map_of_absent(entries.drop_last(), key);
    }
}

impl PluginRegistry {
    /// An empty registry, with no plugin registered.
    pub fn new() -> (r: Self)
        ensures
            r@ == Map::<Seq<char>, Seq<char>>::empty(),
    {
        PluginRegistry { entries: Vec::new() }
    }

    /// Registers one source text under an already-normalized key; a later
    /// insertion with the same key shadows this one.
    fn insert(&mut self, key: String, source: String)
        ensures
            final(self)@ == old(self)@.insert(key@, source@),
    {
        let ghost prev = self.entries.deep_view();
        let ghost k = key@;
        let ghost v = source@;
        self.entries.push((key, source));
        proof {
            assert(self.entries.deep_view().drop_last() =~= prev);
            assert(self.entries.deep_view().last() == (k, v));
        }
    }

    /// Populates a registry from a batch of `(candidate name, raw bytes)`
    /// sources, as `load_model` describes: undecodable sources are
    /// skipped, the rest are registered under their lower-cased name, and
    /// on a collision the later source wins.
    pub fn load(sources: Vec<(String, Vec<u8>)>) -> (r: Self)
        ensures
            r@ == load_model(sources.deep_view()),
    {
        let ghost all = sources.deep_view();
        let mut rest = sources;
        let mut reg = PluginRegistry::new();
        let ghost k: int = 0;
        while rest.len() > 0
            invariant
                0 <= k <= all.len(),
                rest.deep_view() == all.skip(k),
                reg@ == load_model(all.take(k)),
            decreases rest.len(),
        {
            let ghost prev = rest@;
            proof {
                assert(rest.deep_view().len() == prev.len());
                assert(all.skip(k).len() == all.len() - k);
                assert(k < all.len());
                assert(rest.deep_view()[0] == all.skip(k)[0]);
                assert(all.skip(k)[0] == all[k]);
            }
            let (name, bytes) = rest.remove(0);
            proof {
                assert((name, bytes) == prev[0]);
                assert(name@ == prev[0].deep_view().0);
                assert(name@ == all[k].0);
                assert(bytes@ == all[k].1);
                assert forall|i: int| 0 <= i < rest.deep_view().len()
                    implies rest.deep_view()[i] == all.skip(k + 1)[i] by {
                    assert(rest@[i] == prev[i + 1]);
                    assert(rest@[i].deep_view() == Seq::new(prev.len(), |m: int| prev[m].deep_view())[i + 1]);
                    assert(all.skip(k)[i + 1] == all[k + 1 + i]);
                    assert(all.skip(k + 1)[i] == all[k + 1 + i]);
                }
                assert(rest.deep_view() =~= all.skip(k + 1));
            }
            match decode_text(bytes) {
                Some(text) => {
                    let key = lowercase(name.as_str());
                    reg.insert(key, text);
                },
                None => {},
            }
            proof {
                k = k + 1;
                assert(all.take(k).drop_last() =~= all.take(k - 1));
                assert(all.take(k).last() == all[k - 1]);
            }
        }
        proof {
            assert(all.take(k) =~= all);
        }
        reg
    }

    /// Re-populates the registry from a fresh batch of sources, replacing
    /// the mapping as a whole: no plugin of the old population survives.
    pub fn refresh(&mut self, sources: Vec<(String, Vec<u8>)>)
        ensures
            final(self)@ == load_model(sources.deep_view()),
    {
        *self = PluginRegistry::load(sources);
    }

    /// Case-insensitive exact lookup: the name is lower-cased and matched
    /// exactly against the registered keys; no partial matching, no
    /// fallback.
    pub fn lookup(&self, name: &str) -> (r: Option<String>)
        ensures
            r is Some <==> self@.contains_key(lower_of(name@)),
            r matches Some(s) ==> s@ == self@[lower_of(name@)],
    {
        let key = lowercase(name);
        let mut i: usize = self.entries.len();
        while i > 0
            invariant
                i <= self.entries.len(),
                key@ == lower_of(name@),
                forall|j: int| i <= j < self.entries.len()
                    ==> self.entries.deep_view()[j].0 != key@,
            decreases i,
        {
            i = i - 1;
            if self.entries[i].0 == key {
                proof {
                    lemma_map_of_last_match(self.entries.deep_view(), i as int);
                }
                return Some(self.entries[i].1.clone());
            }
        }
        proof {
            lemma_map_of_absent(self.entries.deep_view(), key@);
        }
        None
    }
}

/// Law: the last decodable source carrying a given key decides what that
/// key maps to — a later collision always wins, whatever came before.
pub proof fn lemma_load_last_write_wins(sources: Seq<(Seq<char>, Seq<u8>)>, j: int)
    requires
        0 <= j < sources.len(),
        vstd::utf8::valid_utf8(sources[j].1),
        forall|m: int| j < m < sources.len() ==> (vstd::utf8::valid_utf8(sources[m].1)
            ==> lower_of(sources[m].0) != lower_of(sources[j].0)),
    ensures
        load_model(sources).contains_key(lower_of(sources[j].0)),
        load_model(sources)[lower_of(sources[j].0)] == vstd::utf8::decode_utf8(sources[j].1),
    decreases sources.len(),
{
    if j < sources.len() - 1 {
        assert(sources.drop_last()[j] == sources[j]);
        lemma_load_last_write_wins(sources.drop_last(), j);
    }
}

/// Law: a source whose bytes do not decode as UTF-8 is skipped wherever
/// it stands in the batch — the registry loads exactly as if the source
/// had not been offered at all.
pub proof fn lemma_load_skips_undecodable(
    before: Seq<(Seq<char>, Seq<u8>)>,
    bad: (Seq<char>, Seq<u8>),
    after: Seq<(Seq<char>, Seq<u8>)>,
)
    requires
        !vstd::utf8::valid_utf8(bad.1),
    ensures
        load_model(before + seq![bad] + after) == load_model(before + after),
    decreases after.len(),
{
    if after.len() == 0 {
        assert((before + seq![bad] + after).drop_last() =~= before);
        assert(before + after =~= before);
    } else {
        lemma_load_skips_undecodable(before, bad, after.drop_last());
        assert((before + seq![bad] + after).drop_last() =~= before + seq![bad]
            + after.drop_last());
        assert((before + after).drop_last() =~= before + after.drop_last());
        assert((before + seq![bad] + after).last() == after.last());
        assert((before + after).last() == after.last());
    }
}

} // verus!
