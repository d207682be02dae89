//! Maps from names to strings, written as an object whose values are strings.

use vstd::prelude::*;
use crate::error::SchemaError;
use crate::json::{distinct_keys, lemma_object_view, same_text, Fields, Json, JsonView};
use crate::wire::{Wire, WireSound};

verus! {

/// Named strings, in the order in which they are written.
#[derive(Debug, Clone)]
pub struct StringMap {
    pub entries: Vec<(String, String)>,
}

impl DeepView for StringMap {
    type V = Seq<(Seq<char>, Seq<char>)>;

    open spec fn deep_view(&self) -> Seq<(Seq<char>, Seq<char>)> {
        self.entries.deep_view()
    }
}

/// The members that are written for the named strings `m`.
pub open spec fn string_members(m: Seq<(Seq<char>, Seq<char>)>) -> Fields {
    Seq::new(m.len(), |i: int| (m[i].0, JsonView::String(m[i].1)))
}

/// Every value in `o` is a string.
pub open spec fn all_strings(o: Fields) -> bool {
    forall|i: int| 0 <= i < o.len() ==> (#[trigger] o[i]).1 is String
}

/// The named strings that the members `o` stand for.
pub open spec fn named_strings(o: Fields) -> Seq<(Seq<char>, Seq<char>)> {
    Seq::new(o.len(), |i: int| (o[i].0, o[i].1->String_0))
}

/// Some entry of `m` has the name `name`.
pub open spec fn has_name(m: Seq<(Seq<char>, Seq<char>)>, name: Seq<char>) -> bool {
    exists|i: int| 0 <= i < m.len() && #[trigger] m[i].0 == name
}

impl StringMap {
    /// The map without entries.
    pub fn new() -> (r: StringMap)
        ensures
            r.deep_view().len() == 0,
    {
        StringMap { entries: Vec::new() }
    }

    pub fn len(&self) -> (n: usize)
        ensures
            n == self.deep_view().len(),
    {
        self.entries.len()
    }

    /// The string under `name`: that of the last entry with the name.
    pub fn get(&self, name: &str) -> (r: Option<&String>)
        ensures
            match r {
                Some(s) => exists|i: int|
                    0 <= i < self.deep_view().len() && self.deep_view()[i] == (name@, s@)
                        && forall|k: int|
                        i < k < self.deep_view().len() ==> self.deep_view()[k].0 != name@,
                None => forall|i: int|
                    0 <= i < self.deep_view().len() ==> self.deep_view()[i].0 != name@,
            },
    {
        let mut i: usize = self.entries.len();
        while i > 0
            invariant
                i <= self.entries.len(),
                forall|k: int| i <= k < self.deep_view().len() ==> self.deep_view()[k].0 != name@,
            decreases i,
        {
            i -= 1;
            if same_text(self.entries[i].0.as_str(), name) {
                assert(self.deep_view()[i as int] == (name@, self.entries[i as int].1@));
                return Some(&self.entries[i].1);
            }
        }
        None
    }

    /// Puts `value` under `name`: in the place of the first entry with that
    /// name, or at the end where there is none.
    pub fn insert(&mut self, name: String, value: String)
        ensures
            has_name(old(self).deep_view(), name@) ==> exists|i: int|
                0 <= i < old(self).deep_view().len() && old(self).deep_view()[i].0 == name@
                    && final(self).deep_view() == old(self).deep_view().update(
                    i,
                    (name@, value@),
                ),
            !has_name(old(self).deep_view(), name@) ==> final(self).deep_view() == old(
                self,
            ).deep_view().push((name@, value@)),
            StringMap::valid(old(self).deep_view()) ==> StringMap::valid(final(self).deep_view()),
    {
        let ghost before = self.deep_view();
        let mut i: usize = 0;
        while i < self.entries.len()
            invariant
                i <= self.entries.len(),
                self.deep_view() == before,
                before == old(self).deep_view(),
                forall|k: int| 0 <= k < i ==> before[k].0 != name@,
            decreases self.entries.len() - i,
        {
            if same_text(self.entries[i].0.as_str(), name.as_str()) {
                self.entries.set(i, (name, value));
                assert(self.deep_view() =~= before.update(i as int, (name@, value@)));
                assert(before[i as int].0 == name@);
                return ;
            }
            i += 1;
        }
        self.entries.push((name, value));
        assert(self.deep_view() =~= before.push((name@, value@)));
    }
}

impl Wire for StringMap {
    /// No name occurs twice.
    open spec fn valid(v: Seq<(Seq<char>, Seq<char>)>) -> bool {
        forall|i: int, j: int| 0 <= i < j < v.len() ==> v[i].0 != v[j].0
    }

    open spec fn encode(v: Seq<(Seq<char>, Seq<char>)>) -> JsonView {
        JsonView::Object(string_members(v))
    }

    open spec fn decode(j: JsonView) -> Result<Seq<(Seq<char>, Seq<char>)>, SchemaError> {
        match j {
            JsonView::Object(o) => if all_strings(o) {
                Ok(named_strings(o))
            } else {
                Err(SchemaError::ParamsShapeMismatch)
            },
            _ => Err(SchemaError::ParamsShapeMismatch),
        }
    }

    fn to_json(&self) -> (j: Json) {
        let mut out: Vec<(String, Json)> = Vec::new();
        let mut i: usize = 0;
        while i < self.entries.len()
            invariant
                i <= self.entries.len(),
                out.len() == i,
                forall|k: int|
                    0 <= k < i ==> out[k].deep_view() == (
                        self.entries[k].0@,
                        JsonView::String(self.entries[k].1@),
                    ),
            decreases self.entries.len() - i,
        {
            out.push((self.entries[i].0.clone(), Json::String(self.entries[i].1.clone())));
            i += 1;
        }
        proof {
            lemma_object_view(out);
            assert(out.deep_view() =~= string_members(self.deep_view()));
        }
        Json::Object(out)
    }

    fn from_json(j: &Json) -> (r: Result<StringMap, SchemaError>) {
        match j {
            Json::Object(entries) => {
                proof {
                    lemma_object_view(*entries);
                }
                let ghost o = entries.deep_view();
                let mut out: Vec<(String, String)> = Vec::new();
                let mut i: usize = 0;
                while i < entries.len()
                    invariant
                        i <= entries.len(),
                        out.len() == i,
                        o == entries.deep_view(),
                        j@ == JsonView::Object(o),
                        forall|k: int| 0 <= k < i ==> (#[trigger] o[k]).1 is String,
                        forall|k: int|
                            0 <= k < i ==> out[k].deep_view() == (o[k].0, o[k].1->String_0),
                    decreases entries.len() - i,
                {
                    match &entries[i].1 {
                        Json::String(s) => {
                            out.push((entries[i].0.clone(), s.clone()));
                        },
                        _ => {
                            assert(!(o[i as int].1 is String));
                            return Err(SchemaError::ParamsShapeMismatch);
                        },
                    }
                    i += 1;
                }
                assert(out.deep_view() =~= named_strings(o));
                Ok(StringMap { entries: out })
            },
            _ => Err(SchemaError::ParamsShapeMismatch),
        }
    }

    proof fn lemma_round_trip(v: Seq<(Seq<char>, Seq<char>)>) {
        let o = string_members(v);
        assert(named_strings(o) =~= v);
        assert(distinct_keys(o));
        assert forall|i: int| 0 <= i < o.len() implies (#[trigger] o[i]).1.wf() by {
            assert(o[i].1 == JsonView::String(v[i].1));
        }
    }
}

impl WireSound for StringMap {
    proof fn lemma_decoded_valid(j: JsonView) {
    }
}

} // verus!
