//! JSON values as plain data, and the object operations that the record
//! layer is built on.

use vstd::prelude::*;

verus! {

/// `serde_json::Number`, which Verus does not look into.
#[verifier::external_type_specification]
#[verifier::external_body]
pub struct ExNumber(serde_json::Number);

/// How a number of `serde_json` is held here: as `PosInt` if it is held as
/// a `u64` there, as `NegInt` if it is held as an `i64`, which is then
/// negative, and as `Float`, with the number itself, if it is a fraction.
pub uninterp spec fn number_content(n: serde_json::Number) -> JsonNumber;

/// `Number::is_f64` of `serde_json`: whether the number is held as a
/// fraction, and not as a `u64` or an `i64`.
#[verifier::external_body]
pub(crate) fn number_is_fraction(n: &serde_json::Number) -> (b: bool)
    ensures
        b == (number_content(*n) == JsonNumber::Float(*n)),
        b == (number_content(*n) is Float),
{
    n.is_f64()
}

/// `Number::as_u64` of `serde_json`: the integer, if the number is held as a
/// `u64`.
#[verifier::external_body]
pub(crate) fn number_as_u64(n: &serde_json::Number) -> (r: Option<u64>)
    ensures
        match r {
            Some(u) => number_content(*n) == JsonNumber::PosInt(u),
            None => !(number_content(*n) is PosInt),
        },
{
    n.as_u64()
}

/// `Number::as_i64` of `serde_json`: the integer, if the number is held as
/// an integer that fits an `i64`. One that is held as an `i64` is negative.
#[verifier::external_body]
pub(crate) fn number_as_i64(n: &serde_json::Number) -> (r: Option<i64>)
    ensures
        r == match number_content(*n).int_value() {
            Some(i) if i64::MIN <= i <= i64::MAX => Some(i as i64),
            _ => None,
        },
        r is Some && number_content(*n) is NegInt ==> r->Some_0 < 0,
{
    n.as_i64()
}

/// `From<u64>` for `serde_json::Number`: the number that holds the integer
/// as a `u64`.
#[verifier::external_body]
pub(crate) fn number_from_u64(u: u64) -> (r: serde_json::Number)
    ensures
        number_content(r) == JsonNumber::PosInt(u),
{
    serde_json::Number::from(u)
}

/// `From<i64>` for `serde_json::Number`: the number that holds the integer,
/// as an `i64` if it is negative and as a `u64` if it is not.
#[verifier::external_body]
pub(crate) fn number_from_i64(i: i64) -> (r: serde_json::Number)
    ensures
        number_content(r) == JsonNumber::of_int(i),
{
    serde_json::Number::from(i)
}

/// `Clone` of `serde_json::Number`: the same number.
#[verifier::external_body]
pub(crate) fn clone_number(n: &serde_json::Number) -> (r: serde_json::Number)
    ensures
        r == *n,
{
    n.clone()
}

/// A JSON number: a non-negative integer, a negative integer, or a fraction,
/// which is carried as `serde_json` holds it.
#[derive(Debug)]
pub enum JsonNumber {
    PosInt(u64),
    NegInt(i64),
    Float(serde_json::Number),
}

impl Clone for JsonNumber {
    fn clone(&self) -> (r: JsonNumber)
        ensures
            r == *self,
    {
        match self {
            JsonNumber::PosInt(u) => JsonNumber::PosInt(*u),
            JsonNumber::NegInt(i) => JsonNumber::NegInt(*i),
            JsonNumber::Float(n) => JsonNumber::Float(clone_number(n)),
        }
    }
}

impl DeepView for JsonNumber {
    type V = JsonNumber;

    open spec fn deep_view(&self) -> JsonNumber {
        *self
    }
}

impl JsonNumber {
    /// A number is well formed when it is written in the one way that stands
    /// for it: `NegInt` holds only negative integers, `Float` only fractions.
    pub open spec fn wf(self) -> bool {
        match self {
            JsonNumber::PosInt(_) => true,
            JsonNumber::NegInt(i) => i < 0,
            JsonNumber::Float(n) => number_content(n) == JsonNumber::Float(n),
        }
    }

    /// Whether the number is well formed.
    pub fn is_wf(&self) -> (b: bool)
        ensures
            b == self.wf(),
    {
        match self {
            JsonNumber::PosInt(_) => true,
            JsonNumber::NegInt(i) => *i < 0,
            JsonNumber::Float(n) => number_is_fraction(n),
        }
    }

    /// The integer that the number stands for, where it is one.
    pub open spec fn int_value(self) -> Option<int> {
        match self {
            JsonNumber::PosInt(u) => Some(u as int),
            JsonNumber::NegInt(i) => Some(i as int),
            JsonNumber::Float(_) => None,
        }
    }

    /// The well-formed number that stands for the integer `n`.
    pub open spec fn of_int(n: i64) -> JsonNumber {
        if n >= 0 {
            JsonNumber::PosInt(n as u64)
        } else {
            JsonNumber::NegInt(n)
        }
    }

    /// The number that stands for the integer `n`.
    pub fn from_i64(n: i64) -> (r: JsonNumber)
        ensures
            r == JsonNumber::of_int(n),
            r.wf(),
            r.int_value() == Some(n as int),
    {
        if n >= 0 {
            JsonNumber::PosInt(n as u64)
        } else {
            JsonNumber::NegInt(n)
        }
    }

    /// How `serde_json` holds the number. A number that is well formed
    /// comes back from it as it is.
    pub fn to_number(&self) -> (r: serde_json::Number)
        ensures
            self.wf() ==> number_content(r) == *self,
    {
        match self {
            JsonNumber::PosInt(u) => number_from_u64(*u),
            JsonNumber::NegInt(i) => number_from_i64(*i),
            JsonNumber::Float(n) => clone_number(n),
        }
    }

    /// The number that `serde_json` holds. It is well formed.
    pub fn from_number(n: &serde_json::Number) -> (r: JsonNumber)
        ensures
            r == number_content(*n),
            r.wf(),
    {
        if number_is_fraction(n) {
            JsonNumber::Float(clone_number(n))
        } else {
            match number_as_u64(n) {
                Some(u) => JsonNumber::PosInt(u),
                None => match number_as_i64(n) {
                    Some(i) => JsonNumber::NegInt(i),
                    None => JsonNumber::Float(clone_number(n)),
                },
            }
        }
    }

    /// The number as an `i64`, if it is an integer in that range.
    pub fn as_i64(&self) -> (r: Option<i64>)
        ensures
            r == match self.int_value() {
                Some(n) if i64::MIN <= n <= i64::MAX => Some(n as i64),
                _ => None,
            },
    {
        match self {
            JsonNumber::PosInt(u) => if *u <= 0x7fff_ffff_ffff_ffff {
                Some(*u as i64)
            } else {
                None
            },
            JsonNumber::NegInt(i) => Some(*i),
            JsonNumber::Float(_) => None,
        }
    }
}

/// A JSON value. An object is the list of its members in the order in which
/// they are written.
#[derive(Debug)]
pub enum Json {
    Null,
    Bool(bool),
    Number(JsonNumber),
    String(String),
    Array(Vec<Json>),
    Object(Vec<(String, Json)>),
}

/// The members of a JSON object, as mathematics sees them.
pub type Fields = Seq<(Seq<char>, JsonView)>;

/// The mathematical value of a [`Json`].
pub enum JsonView {
    Null,
    Bool(bool),
    Number(JsonNumber),
    String(Seq<char>),
    Array(Seq<JsonView>),
    Object(Fields),
}

/// The mathematical value of `j`, member by member.
pub open spec fn value_of(j: &Json) -> JsonView
    decreases j,
{
    match j {
        Json::Null => JsonView::Null,
        Json::Bool(b) => JsonView::Bool(*b),
        Json::Number(n) => JsonView::Number(*n),
        Json::String(s) => JsonView::String(s@),
        Json::Array(items) => JsonView::Array(
            Seq::new(
                items.len() as nat,
                |i: int|
                    if 0 <= i < items.len() {
                        value_of(&items[i])
                    } else {
                        JsonView::Null
                    },
            ),
        ),
        Json::Object(entries) => JsonView::Object(
            Seq::new(
                entries.len() as nat,
                |i: int|
                    if 0 <= i < entries.len() {
                        (entries[i].0@, value_of(&entries[i].1))
                    } else {
                        (Seq::empty(), JsonView::Null)
                    },
            ),
        ),
    }
}

impl View for Json {
    type V = JsonView;

    open spec fn view(&self) -> JsonView {
        value_of(self)
    }
}

impl DeepView for Json {
    type V = JsonView;

    open spec fn deep_view(&self) -> JsonView {
        self@
    }
}

/// No key occurs twice.
pub open spec fn distinct_keys(o: Fields) -> bool {
    forall|i: int, j: int| 0 <= i < j < o.len() ==> o[i].0 != o[j].0
}

/// Some member of `o` has the key `key`.
pub open spec fn has_key(o: Fields, key: Seq<char>) -> bool {
    exists|i: int| 0 <= i < o.len() && #[trigger] o[i].0 == key
}

/// The value of the last member of `o` with the key `key`.
pub open spec fn get(o: Fields, key: Seq<char>) -> Option<JsonView>
    decreases o.len(),
{
    if o.len() == 0 {
        None
    } else if o.last().0 == key {
        Some(o.last().1)
    } else {
        get(o.drop_last(), key)
    }
}

/// The members of `o` whose key is not in `names`, in their order.
pub open spec fn without(o: Fields, names: Set<Seq<char>>) -> Fields
    decreases o.len(),
{
    if o.len() == 0 {
        Seq::empty()
    } else if names.contains(o.last().0) {
        without(o.drop_last(), names)
    } else {
        without(o.drop_last(), names).push(o.last())
    }
}

/// Some key in `names` occurs more than once in `o`.
pub open spec fn collides(o: Fields, names: Set<Seq<char>>) -> bool {
    exists|i: int, j: int|
        0 <= i < j < o.len() && #[trigger] o[i].0 == #[trigger] o[j].0 && names.contains(o[i].0)
}

/// No key of `o` is in `names`.
pub open spec fn avoids(o: Fields, names: Set<Seq<char>>) -> bool {
    forall|i: int| 0 <= i < o.len() ==> !names.contains(#[trigger] o[i].0)
}

impl JsonView {
    /// A value is well formed when its numbers are, and no object in it has
    /// two members with one key.
    pub open spec fn wf(self) -> bool
        decreases self,
    {
        match self {
            JsonView::Number(n) => n.wf(),
            JsonView::Array(items) => forall|i: int|
                0 <= i < items.len() ==> (#[trigger] items[i]).wf(),
            JsonView::Object(o) => distinct_keys(o) && forall|i: int|
                0 <= i < o.len() ==> (#[trigger] o[i]).1.wf(),
            _ => true,
        }
    }
}

/// Every value in `o` is well formed and no key occurs twice.
pub open spec fn fields_wf(o: Fields) -> bool {
    JsonView::Object(o).wf()
}

/// Reading a key after one more member was written.
pub broadcast proof fn lemma_get_push(o: Fields, e: (Seq<char>, JsonView), key: Seq<char>)
    ensures
        #[trigger] get(o.push(e), key) == if e.0 == key {
            Some(e.1)
        } else {
            get(o, key)
        },
{
    assert(o.push(e).drop_last() =~= o);
}

/// A key that no member has reads as nothing, and the other way round.
pub broadcast proof fn lemma_get_none(o: Fields, key: Seq<char>)
    ensures
        #[trigger] get(o, key) is None <==> !has_key(o, key),
    decreases o.len(),
{
    if o.len() > 0 {
        let front = o.drop_last();
        lemma_get_none(front, key);
        if o.last().0 == key {
            assert(o[o.len() - 1].0 == key);
        } else if has_key(o, key) {
            let i = choose|i: int| 0 <= i < o.len() && #[trigger] o[i].0 == key;
            assert(front[i].0 == key);
        } else if has_key(front, key) {
            let i = choose|i: int| 0 <= i < front.len() && #[trigger] front[i].0 == key;
            assert(o[i].0 == key);
        }
    }
}

/// Reading from two lists written one after the other: the later list wins.
pub broadcast proof fn lemma_get_concat(a: Fields, b: Fields, key: Seq<char>)
    ensures
        #[trigger] get(a + b, key) == match get(b, key) {
            Some(x) => Some(x),
            None => get(a, key),
        },
    decreases b.len(),
{
    if b.len() == 0 {
        assert(a + b =~= a);
    } else {
        assert((a + b).drop_last() =~= a + b.drop_last());
        lemma_get_concat(a, b.drop_last(), key);
    }
}

/// Dropping the declared names after one more member was written.
pub broadcast proof fn lemma_without_push(
    o: Fields,
    e: (Seq<char>, JsonView),
    names: Set<Seq<char>>,
)
    ensures
        #[trigger] without(o.push(e), names) == if names.contains(e.0) {
            without(o, names)
        } else {
            without(o, names).push(e)
        },
{
    assert(o.push(e).drop_last() =~= o);
}

/// Dropping the declared names from two lists written one after the other.
pub broadcast proof fn lemma_without_concat(a: Fields, b: Fields, names: Set<Seq<char>>)
    ensures
        #[trigger] without(a + b, names) == without(a, names) + without(b, names),
    decreases b.len(),
{
    if b.len() == 0 {
        assert(a + b =~= a);
        assert(without(a, names) + without(b, names) =~= without(a, names));
    } else {
        assert((a + b).drop_last() =~= a + b.drop_last());
        lemma_without_concat(a, b.drop_last(), names);
        let front = without(a, names) + without(b.drop_last(), names);
        if !names.contains(b.last().0) {
            assert(front.push(b.last()) =~= without(a, names) + without(b, names));
        }
    }
}

/// A list that holds none of the names loses nothing.
pub broadcast proof fn lemma_without_avoids(o: Fields, names: Set<Seq<char>>)
    requires
        avoids(o, names),
    ensures
        #[trigger] without(o, names) == o,
    decreases o.len(),
{
    if o.len() > 0 {
        let front = o.drop_last();
        assert forall|i: int| 0 <= i < front.len() implies !names.contains(
            #[trigger] front[i].0,
        ) by {
            assert(front[i] == o[i]);
        }
        lemma_without_avoids(front, names);
        assert(o[o.len() - 1] == o.last());
        assert(front.push(o.last()) =~= o);
    }
}

/// What is left after dropping the names: each member comes from `o`, none
/// has a dropped name, and the members keep their order.
pub proof fn lemma_without_members(o: Fields, names: Set<Seq<char>>)
    ensures
        avoids(without(o, names), names),
        without(o, names).len() <= o.len(),
        forall|i: int|
            0 <= i < without(o, names).len() ==> exists|j: int|
                i <= j < o.len() && o[j] == #[trigger] without(o, names)[i],
        distinct_keys(o) ==> distinct_keys(without(o, names)),
        fields_wf(o) ==> fields_wf(without(o, names)),
    decreases o.len(),
{
    let w = without(o, names);
    if o.len() > 0 {
        let front = o.drop_last();
        let wf = without(front, names);
        lemma_without_members(front, names);
        assert forall|i: int| 0 <= i < w.len() implies exists|j: int|
            i <= j < o.len() && o[j] == #[trigger] w[i] by {
            if i < wf.len() {
                let j = choose|j: int| i <= j < front.len() && front[j] == wf[i];
                assert(o[j] == w[i]);
            } else {
                assert(o[o.len() - 1] == w[i]);
            }
        }
        if distinct_keys(o) {
            assert forall|i: int, j: int| 0 <= i < j < front.len() implies front[i].0
                != front[j].0 by {
                assert(front[i] == o[i] && front[j] == o[j]);
            }
            assert forall|i: int, j: int| 0 <= i < j < w.len() implies w[i].0 != w[j].0 by {
                if j >= wf.len() {
                    let k = choose|k: int| i <= k < front.len() && front[k] == wf[i];
                    assert(o[k] == w[i]);
                    assert(o[o.len() - 1] == w[j]);
                }
            }
        }
        if fields_wf(o) {
            assert forall|i: int| 0 <= i < w.len() implies (#[trigger] w[i]).1.wf() by {
                let j = choose|j: int| i <= j < o.len() && o[j] == w[i];
                assert(o[j].1.wf());
            }
        }
    }
}

/// The lemmas by which a record is read back from its own members.
pub broadcast group group_fields {
    lemma_get_push,
    lemma_get_none,
    lemma_get_concat,
    lemma_without_push,
    lemma_without_concat,
    lemma_without_avoids,
}

/// `==` of std on two string slices: whether they hold the same characters.
#[verifier::external_body]
pub(crate) fn same_text(a: &str, b: &str) -> (r: bool)
    ensures
        r == (a@ == b@),
{
    a == b
}

/// The view of an array is the list of its items' views.
pub proof fn lemma_array_view(items: Vec<Json>)
    ensures
        Json::Array(items)@ == JsonView::Array(items.deep_view()),
{
    assert(Json::Array(items)@->Array_0 =~= items.deep_view());
}

/// The view of an object is the list of its members' views.
pub proof fn lemma_object_view(entries: Vec<(String, Json)>)
    ensures
        Json::Object(entries)@ == JsonView::Object(entries.deep_view()),
{
    assert(Json::Object(entries)@->Object_0 =~= entries.deep_view());
}

impl Clone for Json {
    fn clone(&self) -> (r: Json)
        ensures
            r@ == self@,
    {
        copy_of(self)
    }
}

/// A copy of a value.
#[verifier::loop_isolation(false)]
pub fn copy_of(j: &Json) -> (r: Json)
    ensures
        r@ == j@,
    decreases j,
{
    match j {
        Json::Null => Json::Null,
        Json::Bool(b) => Json::Bool(*b),
        Json::Number(n) => Json::Number(n.clone()),
        Json::String(s) => Json::String(s.clone()),
        Json::Array(items) => {
            let mut out: Vec<Json> = Vec::new();
            let mut i: usize = 0;
            while i < items.len()
                invariant
                    i <= items.len(),
                    out.len() == i,
                    forall|k: int| 0 <= k < i ==> out[k]@ == items[k]@,
                decreases items.len() - i,
            {
                let item = copy_of(&items[i]);
                out.push(item);
                i += 1;
            }
            proof {
                lemma_array_view(out);
                lemma_array_view(*items);
                assert(out.deep_view() =~= items.deep_view());
            }
            Json::Array(out)
        },
        Json::Object(entries) => {
            let mut out: Vec<(String, Json)> = Vec::new();
            let mut i: usize = 0;
            while i < entries.len()
                invariant
                    i <= entries.len(),
                    out.len() == i,
                    forall|k: int| 0 <= k < i ==> out[k].deep_view() == entries[k].deep_view(),
                decreases entries.len() - i,
            {
                let key = entries[i].0.clone();
                let value = copy_of(&entries[i].1);
                out.push((key, value));
                i += 1;
            }
            proof {
                lemma_object_view(out);
                lemma_object_view(*entries);
                assert(out.deep_view() =~= entries.deep_view());
            }
            Json::Object(out)
        },
    }
}

/// A copy of a list of members.
pub fn clone_entries(entries: &Vec<(String, Json)>) -> (out: Vec<(String, Json)>)
    ensures
        out.deep_view() == entries.deep_view(),
{
    let mut out: Vec<(String, Json)> = Vec::new();
    let mut i: usize = 0;
    while i < entries.len()
        invariant
            i <= entries.len(),
            out.len() == i,
            forall|k: int| 0 <= k < i ==> out[k].deep_view() == entries[k].deep_view(),
        decreases entries.len() - i,
    {
        let key = entries[i].0.clone();
        let value = copy_of(&entries[i].1);
        out.push((key, value));
        i += 1;
    }
    assert(out.deep_view() =~= entries.deep_view());
    out
}

/// The value of the last member with the key `key`.
pub fn find<'a>(entries: &'a Vec<(String, Json)>, key: &str) -> (r: Option<&'a Json>)
    ensures
        match r {
            Some(j) => get(entries.deep_view(), key@) == Some(j@),
            None => get(entries.deep_view(), key@) is None,
        },
{
    let ghost o = entries.deep_view();
    let mut i: usize = entries.len();
    assert(o.subrange(0, i as int) =~= o);
    while i > 0
        invariant
            i <= entries.len(),
            o == entries.deep_view(),
            get(o, key@) == get(o.subrange(0, i as int), key@),
        decreases i,
    {
        i -= 1;
        proof {
            let part = o.subrange(0, i + 1);
            assert(part.last() == o[i as int]);
            assert(part.drop_last() =~= o.subrange(0, i as int));
        }
        if same_text(entries[i].0.as_str(), key) {
            return Some(&entries[i].1);
        }
    }
    None
}

impl Json {
    pub fn is_null(&self) -> (b: bool)
        ensures
            b == (self@ is Null),
    {
        match self {
            Json::Null => true,
            _ => false,
        }
    }

    pub fn is_object(&self) -> (b: bool)
        ensures
            b == (self@ is Object),
    {
        match self {
            Json::Object(_) => true,
            _ => false,
        }
    }

    /// The boolean, if the value is one.
    pub fn as_bool(&self) -> (r: Option<bool>)
        ensures
            r == match self@ {
                JsonView::Bool(b) => Some(b),
                _ => None,
            },
    {
        match self {
            Json::Bool(b) => Some(*b),
            _ => None,
        }
    }

    /// The integer, if the value is one that fits 64 bits with a sign.
    pub fn as_i64(&self) -> (r: Option<i64>)
        ensures
            r == match self@ {
                JsonView::Number(n) => match n.int_value() {
                    Some(i) if i64::MIN <= i <= i64::MAX => Some(i as i64),
                    _ => None,
                },
                _ => None,
            },
    {
        match self {
            Json::Number(n) => n.as_i64(),
            _ => None,
        }
    }

    /// The number, if the value is one.
    pub fn as_number(&self) -> (r: Option<&JsonNumber>)
        ensures
            match r {
                Some(n) => self@ == JsonView::Number(*n),
                None => !(self@ is Number),
            },
    {
        match self {
            Json::Number(n) => Some(n),
            _ => None,
        }
    }

    /// The string, if the value is one.
    pub fn as_str(&self) -> (r: Option<&str>)
        ensures
            match r {
                Some(s) => self@ == JsonView::String(s@),
                None => !(self@ is String),
            },
    {
        match self {
            Json::String(s) => Some(s.as_str()),
            _ => None,
        }
    }

    /// The items, if the value is an array.
    pub fn as_array(&self) -> (r: Option<&Vec<Json>>)
        ensures
            match r {
                Some(items) => self@ == JsonView::Array(items.deep_view()),
                None => !(self@ is Array),
            },
    {
        match self {
            Json::Array(items) => {
                proof {
                    lemma_array_view(*items);
                }
                Some(items)
            },
            _ => None,
        }
    }

    /// The members, if the value is an object.
    pub fn as_object(&self) -> (r: Option<&Vec<(String, Json)>>)
        ensures
            match r {
                Some(entries) => self@ == JsonView::Object(entries.deep_view()),
                None => !(self@ is Object),
            },
    {
        match self {
            Json::Object(entries) => {
                proof {
                    lemma_object_view(*entries);
                }
                Some(entries)
            },
            _ => None,
        }
    }

    /// The member under `key`, if the value is an object that has one: the
    /// last, where several have the key.
    pub fn get(&self, key: &str) -> (r: Option<&Json>)
        ensures
            match r {
                Some(x) => self@ matches JsonView::Object(o) && get(o, key@) == Some(x@),
                None => self@ matches JsonView::Object(o) ==> get(o, key@) is None,
            },
    {
        match self {
            Json::Object(entries) => {
                proof {
                    lemma_object_view(*entries);
                }
                find(entries, key)
            },
            _ => None,
        }
    }
}

} // verus!
