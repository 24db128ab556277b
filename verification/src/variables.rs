//! The variable mapping a source yields, and the aggregation of several
//! mappings into one. On a key collision the later mapping wins, in the
//! order the mappings are merged — for plugin sources, the plugin list
//! order.

use vstd::prelude::*;
use crate::model::{ServiceOrPlugins, SourceModel};

verus! {

/// The variable fetches a resolved source demands, in the order they must
/// be issued: exactly one for a service, one per plugin in plugin list
/// order — possibly none — for a plugins source.
pub fn sources_to_fetch(source: &ServiceOrPlugins) -> (r: Vec<String>)
    ensures
        r.deep_view() == match source@ {
            SourceModel::Service(id) => seq![id],
            SourceModel::Plugins(ids) => ids,
        },
{
    match source {
        ServiceOrPlugins::Service(id) => {
            let mut r: Vec<String> = Vec::new();
            r.push(id.clone());
            proof {
                assert(r.deep_view() =~= seq![id@]);
            }
            r
        },
        ServiceOrPlugins::Plugins(ids) => {
            let mut r: Vec<String> = Vec::new();
            let mut i: usize = 0;
            while i < ids.len()
                invariant
                    i <= ids@.len(),
                    r@.len() == i,
                    forall|j: int| 0 <= j < i ==> r@[j]@ == ids@[j]@,
                decreases ids@.len() - i,
            {
                r.push(ids[i].clone());
                i += 1;
            }
            proof {
                assert(r.deep_view() =~= ids.deep_view());
            }
            r
        },
    }
}

/// The mapping denoted by a sequence of name/value pairs read left to
/// right, a later pair overwriting an earlier one with the same name.
pub open spec fn map_of_pairs(entries: Seq<(String, String)>) -> Map<Seq<char>, Seq<char>>
    decreases entries.len(),
{
    if entries.len() == 0 {
        Map::empty()
    } else {
        map_of_pairs(entries.drop_last()).insert(entries.last().0@, entries.last().1@)
    }
}

/// A mapping from variable names to variable values. Abstractly a map;
/// which entry of the underlying sequence wins is fixed by `map_of_pairs`:
/// the latest one.
#[derive(Debug)]
pub struct VariableMapping {
    entries: Vec<(String, String)>,
}

impl View for VariableMapping {
    type V = Map<Seq<char>, Seq<char>>;

    closed spec fn view(&self) -> Map<Seq<char>, Seq<char>> {
        map_of_pairs(self.entries@)
    }
}

impl DeepView for VariableMapping {
    type V = Map<Seq<char>, Seq<char>>;

    open spec fn deep_view(&self) -> Map<Seq<char>, Seq<char>> {
        self.view()
    }
}

/// If `entries[i]` carries `key` and no later entry does, the denoted map
/// takes `key` to that entry's value.
proof fn lemma_pairs_latest(entries: Seq<(String, String)>, key: Seq<char>, i: int)
    requires
        0 <= i < entries.len(),
        entries[i].0@ == key,
        forall|j: int| i < j < entries.len() ==> entries[j].0@ != key,
    ensures
        map_of_pairs(entries).contains_key(key),
        map_of_pairs(entries)[key] == entries[i].1@,
    decreases entries.len(),
{
    if i == entries.len() - 1 {
    } else {
        let front = entries.drop_last();
        assert(forall|j: int| i < j < front.len() ==> front[j].0@ != key);
        assert(front[i] == entries[i]);
        lemma_pairs_latest(front, key, i);
        assert(entries.last().0@ != key);
    }
}

/// If no entry carries `key`, the denoted map has no entry for `key`.
proof fn lemma_pairs_absent(entries: Seq<(String, String)>, key: Seq<char>)
    requires
        forall|j: int| 0 <= j < entries.len() ==> entries[j].0@ != key,
    ensures
        !map_of_pairs(entries).contains_key(key),
    decreases entries.len(),
{
    if entries.len() > 0 {
        let front = entries.drop_last();
        assert(forall|j: int| 0 <= j < front.len() ==> front[j].0@ != key);
        lemma_pairs_absent(front, key);
    }
}

/// Appending pair sequences denotes the union of their maps, the appended
/// one winning on collision.
proof fn lemma_pairs_append(a: Seq<(String, String)>, b: Seq<(String, String)>)
    ensures
        map_of_pairs(a + b) == map_of_pairs(a).union_prefer_right(map_of_pairs(b)),
    decreases b.len(),
{
    if b.len() == 0 {
        assert(a + b =~= a);
        assert(map_of_pairs(a).union_prefer_right(Map::empty()) =~= map_of_pairs(a));
    } else {
        let front = b.drop_last();
        lemma_pairs_append(a, front);
        assert((a + b).drop_last() =~= a + front);
        assert((a + b).last() == b.last());
        assert(map_of_pairs(a).union_prefer_right(map_of_pairs(front)).insert(
            b.last().0@,
            b.last().1@,
        ) =~= map_of_pairs(a).union_prefer_right(
            map_of_pairs(front).insert(b.last().0@, b.last().1@),
        ));
    }
}

impl VariableMapping {
    /// The empty mapping.
    pub fn new() -> (r: Self)
        ensures
            r@ == Map::<Seq<char>, Seq<char>>::empty(),
    {
        VariableMapping { entries: Vec::new() }
    }

    /// Set `name` to `value`, overwriting any earlier value of `name`.
    pub fn set(&mut self, name: String, value: String)
        ensures
            final(self)@ == old(self)@.insert(name@, value@),
    {
        self.entries.push((name, value));
        proof {
            assert(self.entries@.drop_last() =~= old(self).entries@);
        }
    }

    /// The value of `name`, if the mapping has one.
    pub fn get(&self, name: &String) -> (r: Option<&String>)
        ensures
            match r {
                Some(v) => self@.contains_key(name@) && v@ == self@[name@],
                None => !self@.contains_key(name@),
            },
    {
        let mut i: usize = self.entries.len();
        while i > 0
            invariant
                i <= self.entries@.len(),
                forall|j: int| i <= j < self.entries@.len() ==> self.entries@[j].0@ != name@,
            decreases i,
        {
            i = i - 1;
            if self.entries[i].0 == *name {
                proof {
                    lemma_pairs_latest(self.entries@, name@, i as int);
                }
                return Some(&self.entries[i].1);
            }
        }
        proof {
            lemma_pairs_absent(self.entries@, name@);
        }
        None
    }

    /// Fold another mapping into this one; on a key collision the other
    /// mapping — the later-fetched one — wins.
    pub fn merge_from(&mut self, other: &VariableMapping)
        ensures
            final(self)@ == old(self)@.union_prefer_right(other@),
    {
        let ghost orig = old(self).entries@;
        let mut i: usize = 0;
        while i < other.entries.len()
            invariant
                i <= other.entries@.len(),
                self.entries@ == orig + other.entries@.subrange(0, i as int),
            decreases other.entries@.len() - i,
        {
            let name = other.entries[i].0.clone();
            let value = other.entries[i].1.clone();
            self.entries.push((name, value));
            proof {
                assert(self.entries@.last() == other.entries@[i as int]);
                assert(self.entries@ =~= orig + other.entries@.subrange(0, i + 1));
            }
            i += 1;
        }
        proof {
            assert(other.entries@.subrange(0, other.entries@.len() as int) =~= other.entries@);
            lemma_pairs_append(orig, other.entries@);
        }
    }

    /// The mapping a fetched list of name/value pairs denotes, a later pair
    /// overwriting an earlier one with the same name.
    pub fn from_pairs(pairs: Vec<(String, String)>) -> (r: Self)
        ensures
            r@ == map_of_pairs(pairs@),
    {
        VariableMapping { entries: pairs }
    }

    /// The name/value pairs of the mapping, for the unverified caller that
    /// hands them to the child process. They denote exactly this mapping.
    pub fn into_pairs(self) -> (r: Vec<(String, String)>)
        ensures
            map_of_pairs(r@) == self@,
    {
        self.entries
    }
}

/// What a merge does to each key: on a collision the later mapping's value
/// wins, a key found in only one mapping keeps its value, and no key is
/// dropped or invented.
pub proof fn lemma_merge_later_wins(
    earlier: Map<Seq<char>, Seq<char>>,
    later: Map<Seq<char>, Seq<char>>,
    key: Seq<char>,
)
    ensures
        later.contains_key(key) ==> earlier.union_prefer_right(later)[key] == later[key],
        !later.contains_key(key) && earlier.contains_key(key)
            ==> earlier.union_prefer_right(later)[key] == earlier[key],
        earlier.union_prefer_right(later).contains_key(key) == (earlier.contains_key(key)
            || later.contains_key(key)),
{
}

/// The merge of a list of fetched mappings, in fetch order, a later mapping
/// overwriting an earlier one on key collision.
pub open spec fn merged_model(maps: Seq<Map<Seq<char>, Seq<char>>>) -> Map<Seq<char>, Seq<char>>
    decreases maps.len(),
{
    if maps.len() == 0 {
        Map::empty()
    } else {
        merged_model(maps.drop_last()).union_prefer_right(maps.last())
    }
}

/// Fold a list of fetched mappings — one per plugin, in plugin list order —
/// into a single mapping, later mappings overwriting earlier ones.
pub fn merge_all(mappings: &Vec<VariableMapping>) -> (r: VariableMapping)
    ensures
        r@ == merged_model(mappings.deep_view()),
{
    let mut r = VariableMapping::new();
    let mut i: usize = 0;
    proof {
        assert(mappings.deep_view().subrange(0, 0) =~= Seq::<Map<Seq<char>, Seq<char>>>::empty());
    }
    while i < mappings.len()
        invariant
            i <= mappings@.len(),
            mappings.deep_view().len() == mappings@.len(),
            r@ == merged_model(mappings.deep_view().subrange(0, i as int)),
        decreases mappings@.len() - i,
    {
        r.merge_from(&mappings[i]);
        proof {
            let all = mappings.deep_view();
            assert(all.subrange(0, i + 1).drop_last() =~= all.subrange(0, i as int));
            assert(all.subrange(0, i + 1).last() == all[i as int]);
            assert(all[i as int] == mappings@[i as int]@);
        }
        i += 1;
    }
    proof {
        assert(mappings.deep_view().subrange(0, mappings.deep_view().len() as int) =~= mappings.deep_view());
    }
    r
}

} // verus!
