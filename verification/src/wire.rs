//! The contract between a typed value and its JSON form, and the types that
//! every record is made of.

use vstd::prelude::*;
use crate::error::SchemaError;
use crate::json::{Fields, Json, JsonNumber, JsonView};

verus! {

/// A type with a JSON form.
///
/// `encode` says which JSON value stands for a value of the type, `decode`
/// which value, or which error, a JSON value is read as. `to_json` and
/// `from_json` compute exactly these. `valid` picks out the values for which
/// reading what was written gives the value back.
pub trait Wire: Sized + DeepView {
    /// The values that the type is meant to hold.
    spec fn valid(v: Self::V) -> bool;

    /// The JSON value that stands for `v`.
    spec fn encode(v: Self::V) -> JsonView;

    /// What `j` is read as.
    spec fn decode(j: JsonView) -> Result<Self::V, SchemaError>;

    /// The JSON value that stands for the value.
    fn to_json(&self) -> (j: Json)
        ensures
            j@ == Self::encode(self.deep_view()),
    ;

    /// The value that `j` is read as, or the error.
    fn from_json(j: &Json) -> (r: Result<Self, SchemaError>)
        ensures
            match r {
                Ok(v) => Self::decode(j@) == Ok::<Self::V, SchemaError>(v.deep_view()),
                Err(e) => Self::decode(j@) == Err::<Self::V, SchemaError>(e),
            },
    ;

    /// Reading what was written for a valid value gives the value back, and
    /// what is written for it is well formed.
    proof fn lemma_round_trip(v: Self::V)
        requires
            Self::valid(v),
        ensures
            Self::decode(Self::encode(v)) == Ok::<Self::V, SchemaError>(v),
            Self::encode(v).wf(),
    ;
}

/// A type whose reader gives only valid values.
pub trait WireSound: Wire {
    /// What is read from a well-formed JSON value is valid, and is written
    /// as `null` only if it was read from `null`.
    proof fn lemma_decoded_valid(j: JsonView)
        requires
            j.wf(),
            Self::decode(j) is Ok,
        ensures
            Self::valid(Self::decode(j)->Ok_0),
            j !is Null ==> Self::encode(Self::decode(j)->Ok_0) !is Null,
    ;
}

impl Wire for String {
    open spec fn valid(v: Seq<char>) -> bool {
        true
    }

    open spec fn encode(v: Seq<char>) -> JsonView {
        JsonView::String(v)
    }

    open spec fn decode(j: JsonView) -> Result<Seq<char>, SchemaError> {
        match j {
            JsonView::String(s) => Ok(s),
            _ => Err(SchemaError::ParamsShapeMismatch),
        }
    }

    fn to_json(&self) -> (j: Json) {
        Json::String(self.clone())
    }

    fn from_json(j: &Json) -> (r: Result<String, SchemaError>) {
        match j {
            Json::String(s) => Ok(s.clone()),
            _ => Err(SchemaError::ParamsShapeMismatch),
        }
    }

    proof fn lemma_round_trip(v: Seq<char>) {
    }
}

impl WireSound for String {
    proof fn lemma_decoded_valid(j: JsonView) {
    }
}

impl Wire for bool {
    open spec fn valid(v: bool) -> bool {
        true
    }

    open spec fn encode(v: bool) -> JsonView {
        JsonView::Bool(v)
    }

    open spec fn decode(j: JsonView) -> Result<bool, SchemaError> {
        match j {
            JsonView::Bool(b) => Ok(b),
            _ => Err(SchemaError::ParamsShapeMismatch),
        }
    }

    fn to_json(&self) -> (j: Json) {
        Json::Bool(*self)
    }

    fn from_json(j: &Json) -> (r: Result<bool, SchemaError>) {
        match j {
            Json::Bool(b) => Ok(*b),
            _ => Err(SchemaError::ParamsShapeMismatch),
        }
    }

    proof fn lemma_round_trip(v: bool) {
    }
}

impl WireSound for bool {
    proof fn lemma_decoded_valid(j: JsonView) {
    }
}

impl Wire for i64 {
    open spec fn valid(v: i64) -> bool {
        true
    }

    open spec fn encode(v: i64) -> JsonView {
        JsonView::Number(JsonNumber::of_int(v))
    }

    open spec fn decode(j: JsonView) -> Result<i64, SchemaError> {
        match j {
            JsonView::Number(n) => match n.int_value() {
                Some(i) if i64::MIN <= i <= i64::MAX => Ok(i as i64),
                _ => Err(SchemaError::ParamsShapeMismatch),
            },
            _ => Err(SchemaError::ParamsShapeMismatch),
        }
    }

    fn to_json(&self) -> (j: Json) {
        Json::Number(JsonNumber::from_i64(*self))
    }

    fn from_json(j: &Json) -> (r: Result<i64, SchemaError>) {
        match j {
            Json::Number(n) => match n.as_i64() {
                Some(i) => Ok(i),
                None => Err(SchemaError::ParamsShapeMismatch),
            },
            _ => Err(SchemaError::ParamsShapeMismatch),
        }
    }

    proof fn lemma_round_trip(v: i64) {
    }
}

impl WireSound for i64 {
    proof fn lemma_decoded_valid(j: JsonView) {
    }
}

impl Wire for i32 {
    open spec fn valid(v: i32) -> bool {
        true
    }

    open spec fn encode(v: i32) -> JsonView {
        JsonView::Number(JsonNumber::of_int(v as i64))
    }

    open spec fn decode(j: JsonView) -> Result<i32, SchemaError> {
        match j {
            JsonView::Number(n) => match n.int_value() {
                Some(i) if i32::MIN <= i <= i32::MAX => Ok(i as i32),
                _ => Err(SchemaError::ParamsShapeMismatch),
            },
            _ => Err(SchemaError::ParamsShapeMismatch),
        }
    }

    fn to_json(&self) -> (j: Json) {
        Json::Number(JsonNumber::from_i64(*self as i64))
    }

    fn from_json(j: &Json) -> (r: Result<i32, SchemaError>) {
        match j {
            Json::Number(n) => match n.as_i64() {
                Some(i) => if -0x8000_0000 <= i && i <= 0x7fff_ffff {
                    Ok(i as i32)
                } else {
                    Err(SchemaError::ParamsShapeMismatch)
                },
                None => Err(SchemaError::ParamsShapeMismatch),
            },
            _ => Err(SchemaError::ParamsShapeMismatch),
        }
    }

    proof fn lemma_round_trip(v: i32) {
    }
}

impl WireSound for i32 {
    proof fn lemma_decoded_valid(j: JsonView) {
    }
}

/// A number of any kind, as a field that holds a fraction is read and
/// written.
impl Wire for JsonNumber {
    open spec fn valid(v: JsonNumber) -> bool {
        v.wf()
    }

    open spec fn encode(v: JsonNumber) -> JsonView {
        JsonView::Number(v)
    }

    open spec fn decode(j: JsonView) -> Result<JsonNumber, SchemaError> {
        match j {
            JsonView::Number(n) => Ok(n),
            _ => Err(SchemaError::ParamsShapeMismatch),
        }
    }

    fn to_json(&self) -> (j: Json) {
        Json::Number(self.clone())
    }

    fn from_json(j: &Json) -> (r: Result<JsonNumber, SchemaError>) {
        match j {
            Json::Number(n) => Ok(n.clone()),
            _ => Err(SchemaError::ParamsShapeMismatch),
        }
    }

    proof fn lemma_round_trip(v: JsonNumber) {
    }
}

impl WireSound for JsonNumber {
    proof fn lemma_decoded_valid(j: JsonView) {
    }
}

/// A JSON value carried as it is.
impl Wire for Json {
    open spec fn valid(v: JsonView) -> bool {
        v.wf()
    }

    open spec fn encode(v: JsonView) -> JsonView {
        v
    }

    open spec fn decode(j: JsonView) -> Result<JsonView, SchemaError> {
        Ok(j)
    }

    fn to_json(&self) -> (j: Json) {
        self.clone()
    }

    fn from_json(j: &Json) -> (r: Result<Json, SchemaError>) {
        Ok(j.clone())
    }

    proof fn lemma_round_trip(v: JsonView) {
    }
}

impl WireSound for Json {
    proof fn lemma_decoded_valid(j: JsonView) {
    }
}

/// The JSON forms of the items of `items`, in their order.
pub open spec fn encode_items<T: Wire>(items: Seq<T::V>) -> Seq<JsonView> {
    Seq::new(items.len(), |i: int| T::encode(items[i]))
}

/// The items that `items` are read as, or the error of the first item that
/// is not accepted.
pub open spec fn decode_items<T: Wire>(items: Seq<JsonView>) -> Result<Seq<T::V>, SchemaError>
    decreases items.len(),
{
    if items.len() == 0 {
        Ok(Seq::empty())
    } else {
        match decode_items::<T>(items.drop_last()) {
            Err(e) => Err(e),
            Ok(front) => match T::decode(items.last()) {
                Err(e) => Err(e),
                Ok(x) => Ok(front.push(x)),
            },
        }
    }
}

/// An error in a prefix of a list is the error of the whole list.
pub proof fn lemma_decode_items_prefix<T: Wire>(items: Seq<JsonView>, n: int)
    requires
        0 <= n <= items.len(),
        decode_items::<T>(items.subrange(0, n)) is Err,
    ensures
        decode_items::<T>(items) == decode_items::<T>(items.subrange(0, n)),
    decreases items.len(),
{
    if n < items.len() {
        assert(items.drop_last().subrange(0, n) =~= items.subrange(0, n));
        lemma_decode_items_prefix::<T>(items.drop_last(), n);
    } else {
        assert(items.subrange(0, n) =~= items);
    }
}

/// What is read from a list has as many items as the list.
pub proof fn lemma_decode_items_len<T: Wire>(items: Seq<JsonView>)
    requires
        decode_items::<T>(items) is Ok,
    ensures
        decode_items::<T>(items)->Ok_0.len() == items.len(),
        forall|i: int|
            0 <= i < items.len() ==> T::decode(#[trigger] items[i]) == Ok::<T::V, SchemaError>(
                decode_items::<T>(items)->Ok_0[i],
            ),
    decreases items.len(),
{
    if items.len() > 0 {
        lemma_decode_items_len::<T>(items.drop_last());
        let front = decode_items::<T>(items.drop_last())->Ok_0;
        assert forall|i: int| 0 <= i < items.len() implies T::decode(#[trigger] items[i]) == Ok::<
            T::V,
            SchemaError,
        >(decode_items::<T>(items)->Ok_0[i]) by {
            if i < items.len() - 1 {
                assert(items.drop_last()[i] == items[i]);
            }
        }
    }
}

/// Reading the written forms of valid items gives the items back.
pub proof fn lemma_items_round_trip<T: Wire>(items: Seq<T::V>)
    requires
        forall|i: int| 0 <= i < items.len() ==> T::valid(#[trigger] items[i]),
    ensures
        decode_items::<T>(encode_items::<T>(items)) == Ok::<Seq<T::V>, SchemaError>(items),
        forall|i: int|
            0 <= i < items.len() ==> (#[trigger] encode_items::<T>(items)[i]).wf(),
    decreases items.len(),
{
    let enc = encode_items::<T>(items);
    if items.len() == 0 {
        assert(items =~= Seq::empty());
    } else {
        let front = items.drop_last();
        assert(enc.drop_last() =~= encode_items::<T>(front));
        lemma_items_round_trip::<T>(front);
        T::lemma_round_trip(items.last());
        assert(front.push(items.last()) =~= items);
        assert forall|i: int| 0 <= i < items.len() implies (#[trigger] enc[i]).wf() by {
            if i < items.len() - 1 {
                assert(enc[i] == encode_items::<T>(front)[i]);
            }
        }
    }
}

impl<T: Wire> Wire for Vec<T> {
    open spec fn valid(v: Seq<T::V>) -> bool {
        forall|i: int| 0 <= i < v.len() ==> T::valid(#[trigger] v[i])
    }

    open spec fn encode(v: Seq<T::V>) -> JsonView {
        JsonView::Array(encode_items::<T>(v))
    }

    open spec fn decode(j: JsonView) -> Result<Seq<T::V>, SchemaError> {
        match j {
            JsonView::Array(items) => decode_items::<T>(items),
            _ => Err(SchemaError::ParamsShapeMismatch),
        }
    }

    fn to_json(&self) -> (j: Json) {
        let mut out: Vec<Json> = Vec::new();
        let mut i: usize = 0;
        while i < self.len()
            invariant
                i <= self.len(),
                out.len() == i,
                forall|k: int| 0 <= k < i ==> out[k]@ == T::encode(self[k].deep_view()),
            decreases self.len() - i,
        {
            let item = self[i].to_json();
            out.push(item);
            i += 1;
        }
        proof {
            crate::json::lemma_array_view(out);
            assert(out.deep_view() =~= encode_items::<T>(self.deep_view()));
        }
        Json::Array(out)
    }

    fn from_json(j: &Json) -> (r: Result<Vec<T>, SchemaError>) {
        match j {
            Json::Array(items) => {
                proof {
                    crate::json::lemma_array_view(*items);
                }
                let ghost all = items.deep_view();
                let mut out: Vec<T> = Vec::new();
                let mut i: usize = 0;
                assert(all.subrange(0, 0) =~= Seq::empty());
                assert(out.deep_view() =~= Seq::empty());
                while i < items.len()
                    invariant
                        i <= items.len(),
                        all == items.deep_view(),
                        j@ == JsonView::Array(all),
                        decode_items::<T>(all.subrange(0, i as int)) == Ok::<
                            Seq<T::V>,
                            SchemaError,
                        >(out.deep_view()),
                    decreases items.len() - i,
                {
                    proof {
                        let part = all.subrange(0, i + 1);
                        assert(part.drop_last() =~= all.subrange(0, i as int));
                        assert(part.last() == items[i as int]@);
                    }
                    match T::from_json(&items[i]) {
                        Ok(x) => {
                            let ghost before = out.deep_view();
                            out.push(x);
                            assert(out.deep_view() =~= before.push(x.deep_view()));
                        },
                        Err(e) => {
                            proof {
                                assert(decode_items::<T>(all.subrange(0, i + 1)) == Err::<
                                    Seq<T::V>,
                                    SchemaError,
                                >(e));
                                lemma_decode_items_prefix::<T>(all, i + 1);
                            }
                            return Err(e);
                        },
                    }
                    i += 1;
                }
                assert(all.subrange(0, i as int) =~= all);
                Ok(out)
            },
            _ => Err(SchemaError::ParamsShapeMismatch),
        }
    }

    proof fn lemma_round_trip(v: Seq<T::V>) {
        lemma_items_round_trip::<T>(v);
    }
}

impl<T: WireSound> WireSound for Vec<T> {
    proof fn lemma_decoded_valid(j: JsonView) {
        let items = j->Array_0;
        let v = decode_items::<T>(items)->Ok_0;
        lemma_decode_items_len::<T>(items);
        assert forall|i: int| 0 <= i < v.len() implies T::valid(#[trigger] v[i]) by {
            assert(items[i].wf());
            T::lemma_decoded_valid(items[i]);
        }
    }
}

} // verus!
