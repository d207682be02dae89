//! Records: objects with declared fields and an open set of further members.
//!
//! A record is written as its declared fields, in their order, followed by
//! its other members as they are. It is read by looking up each declared
//! name; what no field declares is kept. [`Layout`] states this of every
//! record type, and the laws of this module follow from it.

use vstd::prelude::*;
use crate::error::SchemaError;
use crate::json::{
    avoids, collides, copy_of, distinct_keys, fields_wf, find, get, has_key, lemma_get_none,
    lemma_object_view, same_text, without, Fields, Json, JsonView,
};
use crate::wire::{Wire, WireSound};

verus! {

/// A JSON object: named values in the order in which they are written. The
/// members that a record does not declare are kept in one, as they were read.
#[derive(Debug)]
pub struct JsonObject {
    pub entries: Vec<(String, Json)>,
}

impl DeepView for JsonObject {
    type V = Fields;

    open spec fn deep_view(&self) -> Fields {
        self.entries.deep_view()
    }
}

impl Clone for JsonObject {
    fn clone(&self) -> (r: JsonObject)
        ensures
            r.deep_view() == self.deep_view(),
    {
        JsonObject { entries: crate::json::clone_entries(&self.entries) }
    }
}

impl Default for JsonObject {
    fn default() -> (r: JsonObject)
        ensures
            r.deep_view() == Seq::<(Seq<char>, JsonView)>::empty(),
    {
        JsonObject::new()
    }
}

impl JsonObject {
    /// The object without members.
    pub fn new() -> (r: JsonObject)
        ensures
            r.deep_view() == Seq::<(Seq<char>, JsonView)>::empty(),
    {
        let r = JsonObject { entries: Vec::new() };
        assert(r.deep_view() =~= Seq::empty());
        r
    }

    pub fn len(&self) -> (n: usize)
        ensures
            n == self.deep_view().len(),
    {
        self.entries.len()
    }

    pub fn is_empty(&self) -> (b: bool)
        ensures
            b == (self.deep_view().len() == 0),
    {
        self.entries.len() == 0
    }

    /// The value under `key`.
    pub fn get(&self, key: &str) -> (r: Option<&Json>)
        ensures
            match r {
                Some(j) => get(self.deep_view(), key@) == Some(j@),
                None => get(self.deep_view(), key@) is None,
            },
    {
        find(&self.entries, key)
    }

    /// Puts `value` under `key`: in the place of the first member with that
    /// key, or at the end where there is none.
    pub fn insert(&mut self, key: String, value: Json)
        ensures
            has_key(old(self).deep_view(), key@) ==> exists|i: int|
                0 <= i < old(self).deep_view().len() && old(self).deep_view()[i].0 == key@
                    && final(self).deep_view() == old(self).deep_view().update(
                    i,
                    (key@, value@),
                ),
            !has_key(old(self).deep_view(), key@) ==> final(self).deep_view() == old(
                self,
            ).deep_view().push((key@, value@)),
            distinct_keys(old(self).deep_view()) ==> distinct_keys(final(self).deep_view()),
    {
        let ghost before = self.deep_view();
        let mut i: usize = 0;
        while i < self.entries.len()
            invariant
                i <= self.entries.len(),
                self.deep_view() == before,
                before == old(self).deep_view(),
                forall|k: int| 0 <= k < i ==> before[k].0 != key@,
            decreases self.entries.len() - i,
        {
            if same_text(self.entries[i].0.as_str(), key.as_str()) {
                self.entries.set(i, (key, value));
                assert(self.deep_view() =~= before.update(i as int, (key@, value@)));
                assert(before[i as int].0 == key@);
                return ;
            }
            i += 1;
        }
        self.entries.push((key, value));
        assert(self.deep_view() =~= before.push((key@, value@)));
    }
}

impl Wire for JsonObject {
    open spec fn valid(v: Fields) -> bool {
        fields_wf(v)
    }

    open spec fn encode(v: Fields) -> JsonView {
        JsonView::Object(v)
    }

    open spec fn decode(j: JsonView) -> Result<Fields, SchemaError> {
        match j {
            JsonView::Object(o) => Ok(o),
            _ => Err(SchemaError::ParamsShapeMismatch),
        }
    }

    fn to_json(&self) -> (j: Json) {
        let entries = crate::json::clone_entries(&self.entries);
        proof {
            lemma_object_view(entries);
        }
        Json::Object(entries)
    }

    fn from_json(j: &Json) -> (r: Result<JsonObject, SchemaError>) {
        match j {
            Json::Object(entries) => {
                proof {
                    lemma_object_view(*entries);
                }
                Ok(JsonObject { entries: crate::json::clone_entries(entries) })
            },
            _ => Err(SchemaError::ParamsShapeMismatch),
        }
    }

    proof fn lemma_round_trip(v: Fields) {
    }
}

impl WireSound for JsonObject {
    proof fn lemma_decoded_valid(j: JsonView) {
    }
}

/// What a required field is read as: the member under `key`, read as a `T`.
/// A record without that member does not have the shape.
pub open spec fn field<T: Wire>(o: Fields, key: Seq<char>) -> Result<T::V, SchemaError> {
    match get(o, key) {
        Some(x) => T::decode(x),
        None => Err(SchemaError::ParamsShapeMismatch),
    }
}

/// What an optional field is read as: nothing where the member is missing or
/// `null`, and else the member read as a `T`.
pub open spec fn opt_field<T: Wire>(o: Fields, key: Seq<char>) -> Result<
    Option<T::V>,
    SchemaError,
> {
    match get(o, key) {
        None => Ok(None),
        Some(JsonView::Null) => Ok(None),
        Some(x) => match T::decode(x) {
            Ok(v) => Ok(Some(v)),
            Err(e) => Err(e),
        },
    }
}

/// `o` with the required field `key` written after it.
pub open spec fn with<T: Wire>(o: Fields, key: Seq<char>, v: T::V) -> Fields {
    o.push((key, T::encode(v)))
}

/// `o` with the optional field `key` written after it: a member where the
/// field holds a value, nothing where it holds none.
pub open spec fn with_opt<T: Wire>(o: Fields, key: Seq<char>, v: Option<T::V>) -> Fields {
    match v {
        Some(x) => o.push((key, T::encode(x))),
        None => o,
    }
}

/// An optional field is valid when it is empty, or holds a valid value
/// whose JSON form is not `null`.
pub open spec fn valid_opt<T: Wire>(v: Option<T::V>) -> bool {
    match v {
        Some(x) => T::valid(x) && T::encode(x) !is Null,
        None => true,
    }
}

pub fn read_field<T: Wire>(entries: &Vec<(String, Json)>, key: &str) -> (r: Result<T, SchemaError>)
    ensures
        match r {
            Ok(v) => field::<T>(entries.deep_view(), key@) == Ok::<T::V, SchemaError>(
                v.deep_view(),
            ),
            Err(e) => field::<T>(entries.deep_view(), key@) == Err::<T::V, SchemaError>(e),
        },
{
    match find(entries, key) {
        Some(x) => T::from_json(x),
        None => Err(SchemaError::ParamsShapeMismatch),
    }
}

pub fn read_opt_field<T: Wire>(entries: &Vec<(String, Json)>, key: &str) -> (r: Result<
    Option<T>,
    SchemaError,
>)
    ensures
        match r {
            Ok(v) => opt_field::<T>(entries.deep_view(), key@) == Ok::<Option<T::V>, SchemaError>(
                v.deep_view(),
            ),
            Err(e) => opt_field::<T>(entries.deep_view(), key@) == Err::<
                Option<T::V>,
                SchemaError,
            >(e),
        },
{
    match find(entries, key) {
        None => Ok(None),
        Some(Json::Null) => Ok(None),
        Some(x) => match T::from_json(x) {
            Ok(v) => Ok(Some(v)),
            Err(e) => Err(e),
        },
    }
}

pub fn write_field<T: Wire>(out: &mut Vec<(String, Json)>, key: &str, value: &T)
    ensures
        final(out).deep_view() == with::<T>(old(out).deep_view(), key@, value.deep_view()),
{
    let ghost before = out.deep_view();
    let member = (key.to_owned(), value.to_json());
    out.push(member);
    assert(out.deep_view() =~= before.push((key@, T::encode(value.deep_view()))));
}

pub fn write_opt_field<T: Wire>(out: &mut Vec<(String, Json)>, key: &str, value: &Option<T>)
    ensures
        final(out).deep_view() == with_opt::<T>(old(out).deep_view(), key@, value.deep_view()),
{
    match value {
        Some(x) => write_field::<T>(out, key, x),
        None => {},
    }
}

/// An empty list of members, to write a record into.
pub fn no_members() -> (out: Vec<(String, Json)>)
    ensures
        out.deep_view() == Seq::<(Seq<char>, JsonView)>::empty(),
{
    let out: Vec<(String, Json)> = Vec::new();
    assert(out.deep_view() =~= Seq::empty());
    out
}

/// Writes the members of `rest` after those of `out`.
pub fn write_rest(out: &mut Vec<(String, Json)>, rest: &JsonObject)
    ensures
        final(out).deep_view() == old(out).deep_view() + rest.deep_view(),
{
    let ghost before = out.deep_view();
    let mut i: usize = 0;
    assert(out.deep_view() =~= before + rest.deep_view().subrange(0, 0));
    while i < rest.entries.len()
        invariant
            i <= rest.entries.len(),
            out.deep_view() == before + rest.deep_view().subrange(0, i as int),
        decreases rest.entries.len() - i,
    {
        let ghost prev = out.deep_view();
        let member = (rest.entries[i].0.clone(), copy_of(&rest.entries[i].1));
        out.push(member);
        assert(out.deep_view() =~= prev.push(rest.deep_view()[i as int]));
        assert(out.deep_view() =~= before + rest.deep_view().subrange(0, i + 1));
        i += 1;
    }
    assert(rest.deep_view().subrange(0, i as int) =~= rest.deep_view());
}

/// A record type: it declares the names of its fields as they are written.
pub trait Record {
    /// The names of the declared fields, as they are written.
    spec fn names() -> Set<Seq<char>>;

    /// Whether `key` is the name of a declared field.
    fn declares(key: &str) -> (b: bool)
        ensures
            b == Self::names().contains(key@),
    ;
}

/// The members that `R` does not declare.
pub fn rest<R: Record>(entries: &Vec<(String, Json)>) -> (r: JsonObject)
    ensures
        r.deep_view() == without(entries.deep_view(), R::names()),
{
    let ghost o = entries.deep_view();
    let mut out: Vec<(String, Json)> = Vec::new();
    let mut i: usize = 0;
    assert(o.subrange(0, 0) =~= Seq::empty());
    assert(out.deep_view() =~= Seq::empty());
    while i < entries.len()
        invariant
            i <= entries.len(),
            o == entries.deep_view(),
            out.deep_view() == without(o.subrange(0, i as int), R::names()),
        decreases entries.len() - i,
    {
        proof {
            let part = o.subrange(0, i + 1);
            assert(part.drop_last() =~= o.subrange(0, i as int));
            assert(part.last() == o[i as int]);
        }
        if !R::declares(entries[i].0.as_str()) {
            let ghost prev = out.deep_view();
            let member = (entries[i].0.clone(), copy_of(&entries[i].1));
            out.push(member);
            assert(out.deep_view() =~= prev.push(o[i as int]));
        }
        i += 1;
    }
    assert(o.subrange(0, i as int) =~= o);
    JsonObject { entries: out }
}

/// Whether a name that `R` declares occurs twice.
pub fn repeats<R: Record>(entries: &Vec<(String, Json)>) -> (b: bool)
    ensures
        b == collides(entries.deep_view(), R::names()),
{
    let ghost o = entries.deep_view();
    let mut j: usize = 0;
    while j < entries.len()
        invariant
            j <= entries.len(),
            o == entries.deep_view(),
            forall|a: int, b: int|
                0 <= a < b < j ==> !(#[trigger] o[a].0 == #[trigger] o[b].0 && R::names().contains(
                    o[a].0,
                )),
        decreases entries.len() - j,
    {
        if R::declares(entries[j].0.as_str()) {
            let mut i: usize = 0;
            while i < j
                invariant
                    i <= j < entries.len(),
                    o == entries.deep_view(),
                    R::names().contains(o[j as int].0),
                    forall|a: int| 0 <= a < i ==> #[trigger] o[a].0 != o[j as int].0,
                decreases j - i,
            {
                if same_text(entries[i].0.as_str(), entries[j].0.as_str()) {
                    assert(o[i as int].0 == o[j as int].0 && R::names().contains(o[i as int].0));
                    return true;
                }
                i += 1;
            }
        }
        j += 1;
    }
    false
}

/// The members of a well-formed object are well formed.
pub broadcast proof fn lemma_get_wf(o: Fields, key: Seq<char>)
    requires
        fields_wf(o),
    ensures
        (#[trigger] get(o, key)) matches Some(x) ==> x.wf(),
    decreases o.len(),
{
    if o.len() > 0 {
        assert(o[o.len() - 1].1.wf());
        if o.last().0 != key {
            let front = o.drop_last();
            assert forall|i: int| 0 <= i < front.len() implies (#[trigger] front[i]).1.wf() by {
                assert(front[i] == o[i]);
            }
            assert forall|i: int, j: int| 0 <= i < j < front.len() implies front[i].0
                != front[j].0 by {
                assert(front[i] == o[i] && front[j] == o[j]);
            }
            lemma_get_wf(front, key);
        }
    }
}

/// Every key of `o` is in `names`.
pub open spec fn within(o: Fields, names: Set<Seq<char>>) -> bool {
    forall|i: int| 0 <= i < o.len() ==> names.contains(#[trigger] o[i].0)
}

/// Writing one more member keeps the keys within the names if its key is one
/// of them.
pub broadcast proof fn lemma_within_push(
    o: Fields,
    e: (Seq<char>, JsonView),
    names: Set<Seq<char>>,
)
    ensures
        #[trigger] within(o.push(e), names) == (within(o, names) && names.contains(e.0)),
{
    let p = o.push(e);
    if within(p, names) {
        assert(p[o.len() as int].0 == e.0);
        assert forall|i: int| 0 <= i < o.len() implies names.contains(#[trigger] o[i].0) by {
            assert(p[i] == o[i]);
        }
    }
}

/// Writing one more member keeps an object well formed if the key is new and
/// the value well formed.
pub broadcast proof fn lemma_wf_push(o: Fields, e: (Seq<char>, JsonView))
    ensures
        #[trigger] fields_wf(o.push(e)) == (fields_wf(o) && get(o, e.0) is None && e.1.wf()),
{
    let p = o.push(e);
    lemma_get_none(o, e.0);
    if fields_wf(p) {
        assert(p[o.len() as int] == e);
        assert forall|i: int| 0 <= i < o.len() implies (#[trigger] o[i]).1.wf() by {
            assert(p[i] == o[i]);
        }
        assert forall|i: int, j: int| 0 <= i < j < o.len() implies o[i].0 != o[j].0 by {
            assert(p[i] == o[i] && p[j] == o[j]);
        }
        if has_key(o, e.0) {
            let i = choose|i: int| 0 <= i < o.len() && #[trigger] o[i].0 == e.0;
            assert(p[i].0 == p[o.len() as int].0);
        }
    }
    if fields_wf(o) && !has_key(o, e.0) && e.1.wf() {
        assert forall|i: int, j: int| 0 <= i < j < p.len() implies p[i].0 != p[j].0 by {
            assert(p[i] == o[i]);
            if j < o.len() {
                assert(p[j] == o[j]);
            }
        }
        assert forall|i: int| 0 <= i < p.len() implies (#[trigger] p[i]).1.wf() by {
            if i < o.len() {
                assert(p[i] == o[i]);
            }
        }
    }
}

/// An object made of members with declared names followed by members
/// without: each declared name reads from the first part, the second part is
/// what is left, nothing collides, and the whole is well formed.
pub proof fn lemma_written_fields(declared: Fields, extra: Fields, names: Set<Seq<char>>)
    requires
        fields_wf(declared),
        within(declared, names),
        fields_wf(extra),
        avoids(extra, names),
    ensures
        fields_wf(declared + extra),
        !collides(declared + extra, names),
        without(declared + extra, names) == extra,
        forall|key: Seq<char>|
            names.contains(key) ==> get(declared + extra, key) == #[trigger] get(declared, key),
{
    broadcast use crate::json::group_fields;

    let o = declared + extra;
    lemma_without_within(declared, names);
    assert(Seq::<(Seq<char>, JsonView)>::empty() + extra =~= extra);
    assert forall|i: int, j: int| 0 <= i < j < o.len() implies o[i].0 != o[j].0 by {
        if j < declared.len() {
            assert(o[i] == declared[i] && o[j] == declared[j]);
        } else if i < declared.len() {
            assert(o[i] == declared[i] && o[j] == extra[j - declared.len()]);
        } else {
            assert(o[i] == extra[i - declared.len()] && o[j] == extra[j - declared.len()]);
        }
    }
    assert forall|i: int| 0 <= i < o.len() implies (#[trigger] o[i]).1.wf() by {
        if i < declared.len() {
            assert(o[i] == declared[i]);
        } else {
            assert(o[i] == extra[i - declared.len()]);
        }
    }
    assert forall|key: Seq<char>| names.contains(key) implies get(o, key) == #[trigger] get(
        declared,
        key,
    ) by {
        if has_key(extra, key) {
            let i = choose|i: int| 0 <= i < extra.len() && #[trigger] extra[i].0 == key;
            assert(!names.contains(extra[i].0));
        }
    }
}

/// Dropping the names from members that all have one of them leaves nothing.
pub proof fn lemma_without_within(o: Fields, names: Set<Seq<char>>)
    requires
        within(o, names),
    ensures
        without(o, names) == Seq::<(Seq<char>, JsonView)>::empty(),
    decreases o.len(),
{
    if o.len() > 0 {
        let front = o.drop_last();
        assert forall|i: int| 0 <= i < front.len() implies names.contains(
            #[trigger] front[i].0,
        ) by {
            assert(front[i] == o[i]);
        }
        assert(names.contains(o[o.len() - 1].0));
        lemma_without_within(front, names);
    }
}

/// The declared fields of a record, each with the value that is written for
/// it, or none where an optional field is empty.
pub type Members = Seq<(Seq<char>, Option<JsonView>)>;

/// A required field and what is written for it.
pub open spec fn member<T: Wire>(key: Seq<char>, v: T::V) -> (Seq<char>, Option<JsonView>) {
    (key, Some(T::encode(v)))
}

/// An optional field and what is written for it.
pub open spec fn opt_member<T: Wire>(key: Seq<char>, v: Option<T::V>) -> (
    Seq<char>,
    Option<JsonView>,
) {
    (
        key,
        match v {
            Some(x) => Some(T::encode(x)),
            None => None,
        },
    )
}

/// The members that are written for `m`: those with a value, in their order.
pub open spec fn present(m: Members) -> Fields
    decreases m.len(),
{
    if m.len() == 0 {
        Seq::empty()
    } else {
        match m.last().1 {
            Some(x) => present(m.drop_last()).push((m.last().0, x)),
            None => present(m.drop_last()),
        }
    }
}

/// The value that `m` gives the field `key`.
pub open spec fn lookup(m: Members, key: Seq<char>) -> Option<JsonView>
    decreases m.len(),
{
    if m.len() == 0 {
        None
    } else if m.last().0 == key {
        m.last().1
    } else {
        lookup(m.drop_last(), key)
    }
}

/// `key` is the name of one of the fields of `m`.
pub open spec fn mentions(m: Members, key: Seq<char>) -> bool
    decreases m.len(),
{
    m.len() > 0 && (m.last().0 == key || mentions(m.drop_last(), key))
}

/// The fields of `m` have names of their own, all of them in `names`, and
/// well-formed values.
pub open spec fn members_ok(m: Members, names: Set<Seq<char>>) -> bool
    decreases m.len(),
{
    m.len() == 0 || {
        &&& members_ok(m.drop_last(), names)
        &&& names.contains(m.last().0)
        &&& !mentions(m.drop_last(), m.last().0)
        &&& m.last().1 matches Some(x) ==> x.wf()
    }
}

pub broadcast proof fn lemma_present_push(m: Members, e: (Seq<char>, Option<JsonView>))
    ensures
        #[trigger] present(m.push(e)) == match e.1 {
            Some(x) => present(m).push((e.0, x)),
            None => present(m),
        },
{
    assert(m.push(e).drop_last() =~= m);
}

pub broadcast proof fn lemma_lookup_push(
    m: Members,
    e: (Seq<char>, Option<JsonView>),
    key: Seq<char>,
)
    ensures
        #[trigger] lookup(m.push(e), key) == if e.0 == key {
            e.1
        } else {
            lookup(m, key)
        },
{
    assert(m.push(e).drop_last() =~= m);
}

pub broadcast proof fn lemma_mentions_push(
    m: Members,
    e: (Seq<char>, Option<JsonView>),
    key: Seq<char>,
)
    ensures
        #[trigger] mentions(m.push(e), key) == (e.0 == key || mentions(m, key)),
{
    assert(m.push(e).drop_last() =~= m);
}

pub broadcast proof fn lemma_members_ok_push(
    m: Members,
    e: (Seq<char>, Option<JsonView>),
    names: Set<Seq<char>>,
)
    ensures
        #[trigger] members_ok(m.push(e), names) == {
            &&& members_ok(m, names)
            &&& names.contains(e.0)
            &&& !mentions(m, e.0)
            &&& e.1 matches Some(x) ==> x.wf()
        },
{
    assert(m.push(e).drop_last() =~= m);
}

/// What is written for fields with names of their own is well formed, and
/// each name reads as the value of its field.
pub proof fn lemma_present(m: Members, names: Set<Seq<char>>)
    requires
        members_ok(m, names),
    ensures
        fields_wf(present(m)),
        within(present(m), names),
        forall|key: Seq<char>| #[trigger] get(present(m), key) == lookup(m, key),
        forall|key: Seq<char>| !mentions(m, key) ==> #[trigger] lookup(m, key) is None,
    decreases m.len(),
{
    broadcast use {crate::json::group_fields, lemma_wf_push, lemma_within_push};

    if m.len() > 0 {
        lemma_present(m.drop_last(), names);
        assert forall|key: Seq<char>| !mentions(m, key) implies #[trigger] lookup(
            m,
            key,
        ) is None by {
            assert(lookup(m.drop_last(), key) is None);
        }
    }
}

/// A record written as its declared fields followed by its other members
/// reads back: each declared name reads as the value of its field, the other
/// members are what is left, nothing collides, and the whole is well formed.
pub proof fn lemma_written_record(m: Members, extra: Fields, names: Set<Seq<char>>)
    requires
        members_ok(m, names),
        fields_wf(extra),
        avoids(extra, names),
    ensures
        fields_wf(present(m) + extra),
        !collides(present(m) + extra, names),
        without(present(m) + extra, names) == extra,
        forall|key: Seq<char>|
            names.contains(key) ==> #[trigger] get(present(m) + extra, key) == lookup(m, key),
        forall|key: Seq<char>|
            !names.contains(key) ==> #[trigger] get(present(m) + extra, key) == get(extra, key),
{
    broadcast use crate::json::lemma_get_concat;

    lemma_present(m, names);
    lemma_written_fields(present(m), extra, names);
    assert forall|key: Seq<char>| !names.contains(key) implies #[trigger] get(
        present(m) + extra,
        key,
    ) == get(extra, key) by {
        lemma_get_none(present(m), key);
        if has_key(present(m), key) {
            let i = choose|i: int| 0 <= i < present(m).len() && #[trigger] present(m)[i].0 == key;
            assert(names.contains(present(m)[i].0));
        }
    }
    assert forall|key: Seq<char>| names.contains(key) implies #[trigger] get(
        present(m) + extra,
        key,
    ) == lookup(m, key) by {
        assert(get(present(m), key) == lookup(m, key));
    }
}

/// Each field reads as the value that it gives.
pub proof fn lemma_member_at(m: Members, names: Set<Seq<char>>, i: int)
    requires
        members_ok(m, names),
        0 <= i < m.len(),
    ensures
        lookup(m, m[i].0) == m[i].1,
    decreases m.len(),
{
    if i < m.len() - 1 {
        let front = m.drop_last();
        lemma_member_at(front, names, i);
        lemma_present(front, names);
        assert(front[i] == m[i]);
        if m.last().0 == m[i].0 {
            assert(!mentions(front, m[i].0));
            lemma_mentions_at(front, i);
        }
    }
}

/// A list of fields mentions the name of each of them.
pub proof fn lemma_mentions_at(m: Members, i: int)
    requires
        0 <= i < m.len(),
    ensures
        mentions(m, m[i].0),
    decreases m.len(),
{
    if i < m.len() - 1 {
        assert(m.drop_last()[i] == m[i]);
        lemma_mentions_at(m.drop_last(), i);
    }
}

/// A record type that is written as its declared fields followed by its
/// other members.
pub trait Layout: Wire + Record {
    /// The declared fields of `v`, each with what is written for it.
    spec fn layout(v: Self::V) -> Members;

    /// The other members of `v`.
    spec fn others(v: Self::V) -> Fields;

    /// What is written for a valid value is its declared fields, then its
    /// other members. The fields have names of their own, all of them
    /// declared, and the other members have none of these names.
    proof fn lemma_layout(v: Self::V)
        requires
            Self::valid(v),
        ensures
            Self::encode(v) == JsonView::Object(present(Self::layout(v)) + Self::others(v)),
            members_ok(Self::layout(v), Self::names()),
            fields_wf(Self::others(v)),
            avoids(Self::others(v), Self::names()),
    ;
}

/// A declared field that gives no value is no member of what is written: an
/// empty optional field is left out, and is not written as `null` either.
pub proof fn lemma_empty_field_omitted<R: Layout>(v: R::V, key: Seq<char>)
    requires
        R::valid(v),
        R::names().contains(key),
        lookup(R::layout(v), key) is None,
    ensures
        R::encode(v) is Object,
        !has_key(R::encode(v)->Object_0, key),
{
    R::lemma_layout(v);
    let m = R::layout(v);
    let extra = R::others(v);
    let o = present(m) + extra;
    lemma_present(m, R::names());
    lemma_get_none(present(m), key);
    assert(get(present(m), key) == lookup(m, key));
    if has_key(o, key) {
        let i = choose|i: int| 0 <= i < o.len() && #[trigger] o[i].0 == key;
        if i < present(m).len() {
            assert(present(m)[i].0 == key);
        } else {
            assert(extra[i - present(m).len()].0 == key);
        }
    }
}

/// A field that holds a value is a member of what is written, with the
/// JSON form of the value.
pub proof fn lemma_full_field_written<R: Layout>(v: R::V, key: Seq<char>)
    requires
        R::valid(v),
        R::names().contains(key),
        lookup(R::layout(v), key) is Some,
    ensures
        R::encode(v) is Object,
        get(R::encode(v)->Object_0, key) == lookup(R::layout(v), key),
{
    R::lemma_layout(v);
    lemma_written_record(R::layout(v), R::others(v), R::names());
}

/// An optional field gives a value exactly when it holds one.
pub proof fn lemma_optional_member<T: Wire>(m: Members, key: Seq<char>, v: Option<T::V>)
    ensures
        lookup(m.push(opt_member::<T>(key, v)), key) is None <==> v is None,
{
    lemma_lookup_push(m, opt_member::<T>(key, v), key);
}

/// Writing a required field after the fields of `m`.
pub broadcast proof fn lemma_present_member<T: Wire>(m: Members, key: Seq<char>, v: T::V)
    ensures
        #[trigger] present(m.push(member::<T>(key, v))) == with::<T>(present(m), key, v),
{
    lemma_present_push(m, member::<T>(key, v));
}

/// Writing an optional field after the fields of `m`.
pub broadcast proof fn lemma_present_opt_member<T: Wire>(
    m: Members,
    key: Seq<char>,
    v: Option<T::V>,
)
    ensures
        #[trigger] present(m.push(opt_member::<T>(key, v))) == with_opt::<T>(present(m), key, v),
{
    lemma_present_push(m, opt_member::<T>(key, v));
}

/// The lemmas by which a record's laws are proved.
pub broadcast group group_record {
    lemma_get_wf,
    lemma_lookup_push,
    lemma_mentions_push,
    lemma_members_ok_push,
}

/// The lemmas by which what a record's writer wrote is known.
pub broadcast group group_writer {
    lemma_present_member,
    lemma_present_opt_member,
}

} // verus!
