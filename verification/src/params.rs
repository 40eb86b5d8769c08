//! Launch parameters: a small mapping from names to values that one launch
//! hands to the next when it asks to be restarted.

use vstd::prelude::*;
use vstd::string::*;
use crate::error::Error;

verus! {

/// Name of the parameter that switches vertical synchronisation.
pub const VSYNC: &'static str = "vsync";

/// The mapping that a list of entries stands for: where a name occurs more
/// than once, the entry nearest to the end counts.
pub open spec fn mapping_of(entries: Seq<(Seq<char>, Seq<char>)>) -> Map<Seq<char>, Seq<char>>
    decreases entries.len(),
{
    if entries.len() == 0 {
        Map::empty()
    } else {
        mapping_of(entries.drop_last()).insert(entries.last().0, entries.last().1)
    }
}

/// The truth value that `text` spells: `true` or `false`, nothing else.
pub open spec fn truth_value(text: Seq<char>) -> Option<bool> {
    if text == "true"@ {
        Some(true)
    } else if text == "false"@ {
        Some(false)
    } else {
        None
    }
}

/// The spelling of a truth value.
pub open spec fn truth_text(value: bool) -> Seq<char> {
    if value {
        "true"@
    } else {
        "false"@
    }
}

/// Whether vertical synchronisation is on under `parameters`: on unless the
/// parameter says otherwise; `None` where its value is no truth value.
pub open spec fn vsync_under(parameters: Map<Seq<char>, Seq<char>>) -> Option<bool> {
    if parameters.contains_key(VSYNC@) {
        truth_value(parameters[VSYNC@])
    } else {
        Some(true)
    }
}

/// `over` laid upon `base`: every name of either, with the value of `over`
/// where both have one.
pub open spec fn merged(base: Map<Seq<char>, Seq<char>>, over: Map<Seq<char>, Seq<char>>) -> Map<
    Seq<char>,
    Seq<char>,
> {
    base.union_prefer_right(over)
}

/// A string-keyed, string-valued mapping.
#[derive(Debug, Clone, PartialEq, Eq)]
pub struct Parameters {
    entries: Vec<(String, String)>,
}

/// The texts of a list of entries.
pub closed spec fn texts(entries: Seq<(String, String)>) -> Seq<(Seq<char>, Seq<char>)> {
    Seq::new(entries.len(), |i: int| (entries[i].0@, entries[i].1@))
}

impl View for Parameters {
    type V = Map<Seq<char>, Seq<char>>;

    closed spec fn view(&self) -> Map<Seq<char>, Seq<char>> {
        mapping_of(texts(self.entries@))
    }
}

proof fn lemma_texts_push(entries: Seq<(String, String)>, entry: (String, String))
    ensures
        texts(entries.push(entry)) == texts(entries).push((entry.0@, entry.1@)),
        texts(entries.push(entry)).drop_last() == texts(entries),
{
    assert(texts(entries.push(entry)) =~= texts(entries).push((entry.0@, entry.1@)));
    assert(texts(entries.push(entry)).drop_last() =~= texts(entries));
}

/// Looking a name up from the end of the list gives what the mapping holds.
proof fn lemma_lookup(entries: Seq<(Seq<char>, Seq<char>)>, key: Seq<char>, i: int)
    requires
        0 <= i <= entries.len(),
        forall|j: int| i <= j < entries.len() ==> entries[j].0 != key,
    ensures
        i > 0 && entries[i - 1].0 == key ==> mapping_of(entries).contains_key(key) && mapping_of(
            entries,
        )[key] == entries[i - 1].1,
        i == 0 ==> !mapping_of(entries).contains_key(key),
        mapping_of(entries).contains_key(key) == mapping_of(entries.take(i)).contains_key(key),
        mapping_of(entries).contains_key(key) ==> mapping_of(entries)[key] == mapping_of(
            entries.take(i),
        )[key],
    decreases entries.len() - i,
{
    if i == entries.len() {
        assert(entries.take(i) =~= entries);
    } else {
        lemma_lookup(entries.drop_last(), key, i);
        assert(entries.drop_last().take(i) =~= entries.take(i));
    }
    if i > 0 && entries[i - 1].0 == key {
        assert(entries.take(i).drop_last() =~= entries.take(i - 1));
        assert(entries.take(i).last() == entries[i - 1]);
    }
    if i == 0 {
        assert(entries.take(0).len() == 0);
    }
}

impl Parameters {
    /// The empty mapping.
    pub fn new() -> (parameters: Parameters)
        ensures
            parameters@ == Map::<Seq<char>, Seq<char>>::empty(),
    {
        let parameters = Parameters { entries: Vec::new() };
        assert(texts(parameters.entries@).len() == 0);
        parameters
    }

    /// Gives `key` the value `value`, whatever it had before.
    pub fn insert(&mut self, key: &str, value: &str)
        ensures
            final(self)@ == old(self)@.insert(key@, value@),
    {
        let entry: (String, String) = (String::from_str(key), String::from_str(value));
        proof {
            lemma_texts_push(self.entries@, entry);
        }
        self.entries.push(entry);
    }

    /// The value of `key`, if it has one.
    pub fn get(&self, key: &str) -> (value: Option<String>)
        ensures
            value is Some <==> self@.contains_key(key@),
            value matches Some(v) ==> v@ == self@[key@],
    {
        let wanted: String = String::from_str(key);
        let mut i: usize = self.entries.len();
        while i > 0
            invariant
                i <= self.entries@.len(),
                wanted@ == key@,
                forall|j: int|
                    i <= j < self.entries@.len() ==> (#[trigger] texts(self.entries@)[j]).0 != key@,
            decreases i,
        {
            if self.entries[i - 1].0 == wanted {
                proof {
                    lemma_lookup(texts(self.entries@), key@, i as int);
                }
                return Some(self.entries[i - 1].1.clone());
            }
            i = i - 1;
        }
        proof {
            lemma_lookup(texts(self.entries@), key@, 0);
        }
        None
    }

    /// Lays `over` upon `self`: every parameter of `over` is taken over, and
    /// those that only `self` has stay.
    pub fn merge(&mut self, over: &Parameters)
        ensures
            final(self)@ == merged(old(self)@, over@),
    {
        let mut i: usize = 0;
        while i < over.entries.len()
            invariant
                i <= over.entries@.len(),
                self@ == merged(old(self)@, mapping_of(texts(over.entries@).take(i as int))),
            decreases over.entries@.len() - i,
        {
            let entry: (String, String) = (over.entries[i].0.clone(), over.entries[i].1.clone());
            proof {
                lemma_texts_push(self.entries@, entry);
                let prefix = texts(over.entries@).take(i + 1);
                assert(prefix.drop_last() =~= texts(over.entries@).take(i as int));
                assert(prefix.last() == (entry.0@, entry.1@));
                assert(merged(old(self)@, mapping_of(prefix)) =~= merged(
                    old(self)@,
                    mapping_of(prefix.drop_last()),
                ).insert(entry.0@, entry.1@));
            }
            self.entries.push(entry);
            i = i + 1;
        }
        proof {
            assert(texts(over.entries@).take(i as int) =~= texts(over.entries@));
        }
    }
}

/// Whether vertical synchronisation is on under `parameters`.
///
/// It is on unless the parameter [`VSYNC`] is `false`. A value that is
/// neither `true` nor `false` is an error. Other parameters are ignored.
pub fn vsync_setting(parameters: &Parameters) -> (vsync: Result<bool, Error>)
    ensures
        vsync is Ok <==> vsync_under(parameters@) is Some,
        vsync matches Ok(on) ==> vsync_under(parameters@) == Some(on),
        vsync matches Err(e) ==> e@ == "provided string was not `true` or `false`"@,
{
    match parameters.get(VSYNC) {
        None => Ok(true),
        Some(value) => {
            if value == String::from_str("true") {
                Ok(true)
            } else if value == String::from_str("false") {
                Ok(false)
            } else {
                Err(Error::new("provided string was not `true` or `false`"))
            }
        },
    }
}

/// The parameters with which a launch asks to be started again with
/// vertical synchronisation switched to `vsync`.
pub fn vsync_request(vsync: bool) -> (parameters: Parameters)
    ensures
        parameters@ == Map::<Seq<char>, Seq<char>>::empty().insert(VSYNC@, truth_text(vsync)),
{
    let mut parameters = Parameters::new();
    if vsync {
        parameters.insert(VSYNC, "true");
    } else {
        parameters.insert(VSYNC, "false");
    }
    parameters
}

} // verus!
