//! Structural decoding of JSON documents parsed by `serde_json`.
//!
//! A parsed document is an opaque `serde_json::Value`; what the decoders read
//! of it is named by the spec functions below, one for each accessor used.
use crate::error::RequestError;
use crate::request::text_eq;
use vstd::prelude::*;
use vstd::string::StringExecFns;

verus! {

/// `serde_json::Value`, a parsed JSON document, carried opaquely.
#[verifier::external_type_specification]
#[verifier::external_body]
pub struct ExJsonValue(serde_json::Value);

/// `serde_json::Error`, the failure of a parse, carried opaquely.
#[verifier::external_type_specification]
#[verifier::external_body]
pub struct ExJsonError(serde_json::Error);

/// The document that `serde_json` parses from a text, if the text is JSON.
pub uninterp spec fn parsed_json(text: Seq<char>) -> Option<serde_json::Value>;

/// The text of a JSON string.
pub uninterp spec fn json_str(v: serde_json::Value) -> Option<Seq<char>>;

/// The value of a JSON integer that fits in an `i64`.
pub uninterp spec fn json_int(v: serde_json::Value) -> Option<i64>;

/// The value of a JSON boolean.
pub uninterp spec fn json_bool(v: serde_json::Value) -> Option<bool>;

/// The elements of a JSON array.
pub uninterp spec fn json_items(v: serde_json::Value) -> Option<Seq<serde_json::Value>>;

/// Whether a value is JSON `null`.
pub uninterp spec fn json_is_null(v: serde_json::Value) -> bool;

/// Whether a value is a JSON object.
pub uninterp spec fn json_is_object(v: serde_json::Value) -> bool;

/// The member of a JSON object under a key.
pub uninterp spec fn json_field(v: serde_json::Value, key: Seq<char>) -> Option<serde_json::Value>;

/// The keys of a JSON object, in the order the object's map holds them.
pub uninterp spec fn json_keys(v: serde_json::Value) -> Option<Seq<Seq<char>>>;

/// The literal texts `null` and `[]`.
pub open spec fn null_or_empty_array(text: Seq<char>) -> bool {
    text == "null"@ || text == "[]"@
}

/// Relies on `serde_json::from_str::<Value>`: it parses a JSON text, or fails.
/// The texts `null` and `[]` parse, to the null value and to an empty array,
/// neither of which is an object.
#[verifier::external_body]
pub(crate) fn parse_json(text: &str) -> (r: Result<serde_json::Value, serde_json::Error>)
    ensures
        r is Ok <==> parsed_json(text@) is Some,
        r matches Ok(v) ==> v == parsed_json(text@)->Some_0,
        r is Ok || !null_or_empty_array(text@),
        r matches Ok(v) ==> (null_or_empty_array(text@) ==> !json_is_object(v)),
{
    serde_json::from_str(text)
}

/// Relies on the `Display` of `serde_json::Error`: a description of the failure.
#[verifier::external_body]
pub(crate) fn json_error_message(e: &serde_json::Error) -> String {
    e.to_string()
}

/// Relies on `serde_json::Value::as_str`: the text of a string value.
pub assume_specification[ serde_json::Value::as_str ](v: &serde_json::Value) -> (r: Option<&str>)
    ensures
        r is Some <==> json_str(*v) is Some,
        r matches Some(s) ==> s@ == json_str(*v)->Some_0,
;

/// Relies on `serde_json::Value::as_i64`: an integer value that fits in `i64`.
pub assume_specification[ serde_json::Value::as_i64 ](v: &serde_json::Value) -> (r: Option<i64>)
    ensures
        r == json_int(*v),
;

/// Relies on `serde_json::Value::as_bool`: the value of a boolean.
pub assume_specification[ serde_json::Value::as_bool ](v: &serde_json::Value) -> (r: Option<bool>)
    ensures
        r == json_bool(*v),
;

/// Relies on `serde_json::Value::as_array`: the elements of an array.
pub assume_specification[ serde_json::Value::as_array ](v: &serde_json::Value) -> (r: Option<
    &Vec<serde_json::Value>,
>)
    ensures
        r is Some <==> json_items(*v) is Some,
        r matches Some(a) ==> a@ == json_items(*v)->Some_0,
;

/// Relies on `serde_json::Value::is_null`: whether the value is `null`.
pub assume_specification[ serde_json::Value::is_null ](v: &serde_json::Value) -> (r: bool)
    ensures
        r == json_is_null(*v),
;

/// Relies on `serde_json::Value::is_object`: whether the value is an object.
pub assume_specification[ serde_json::Value::is_object ](v: &serde_json::Value) -> (r: bool)
    ensures
        r == json_is_object(*v),
;

/// Relies on the `Clone` of `serde_json::Value`: an equal copy.
pub assume_specification[ <serde_json::Value as Clone>::clone ](v: &serde_json::Value) -> (r:
    serde_json::Value)
    ensures
        r == *v,
;

/// Relies on `serde_json::Value::get` with a string key: the member under that
/// key if the value is an object that has it.
#[verifier::external_body]
pub(crate) fn json_get<'a>(v: &'a serde_json::Value, key: &str) -> (r: Option<&'a serde_json::Value>)
    ensures
        r is Some <==> json_field(*v, key@) is Some,
        r matches Some(f) ==> *f == json_field(*v, key@)->Some_0,
{
    v.get(key)
}

/// Relies on `serde_json::Map::keys` of an object: its keys, each once, in the map's order.
#[verifier::external_body]
pub(crate) fn json_object_keys(v: &serde_json::Value) -> (r: Option<Vec<String>>)
    ensures
        r is Some <==> json_keys(*v) is Some,
        r matches Some(ks) ==> ks@.len() == json_keys(*v)->Some_0.len() && forall|i: int|
            0 <= i < ks@.len() ==> #[trigger] ks@[i]@ == json_keys(*v)->Some_0[i],
        r matches Some(ks) ==> forall|i: int, j: int|
            0 <= i < j < ks@.len() ==> (#[trigger] ks@[i])@ != (#[trigger] ks@[j])@,
{
    v.as_object().map(|m| m.keys().cloned().collect())
}

/// The error for a body that is JSON but not of the expected shape.
pub fn shape_error() -> (e: RequestError)
    ensures
        e is Body,
{
    RequestError::Body(String::from_str("response body does not have the expected shape"))
}

/// A type that a JSON value decodes into, by the names of its fields.
pub trait JsonDecode: Sized {
    /// The values that decode into this type.
    spec fn json_shape(v: serde_json::Value) -> bool;

    /// `x` is what `v` decodes into.
    spec fn json_decodes(v: serde_json::Value, x: Self) -> bool;

    fn from_json(v: &serde_json::Value) -> (r: Result<Self, RequestError>)
        ensures
            r is Ok <==> Self::json_shape(*v),
            r matches Ok(x) ==> Self::json_decodes(*v, x),
            r matches Err(e) ==> e is Body,
    ;
}

impl JsonDecode for String {
    open spec fn json_shape(v: serde_json::Value) -> bool {
        json_str(v) is Some
    }

    open spec fn json_decodes(v: serde_json::Value, x: String) -> bool {
        json_str(v) == Some(x@)
    }

    fn from_json(v: &serde_json::Value) -> (r: Result<String, RequestError>) {
        match v.as_str() {
            Some(s) => Ok(String::from_str(s)),
            None => Err(shape_error()),
        }
    }
}

impl JsonDecode for i64 {
    open spec fn json_shape(v: serde_json::Value) -> bool {
        json_int(v) is Some
    }

    open spec fn json_decodes(v: serde_json::Value, x: i64) -> bool {
        json_int(v) == Some(x)
    }

    fn from_json(v: &serde_json::Value) -> (r: Result<i64, RequestError>) {
        match v.as_i64() {
            Some(n) => Ok(n),
            None => Err(shape_error()),
        }
    }
}

impl JsonDecode for bool {
    open spec fn json_shape(v: serde_json::Value) -> bool {
        json_bool(v) is Some
    }

    open spec fn json_decodes(v: serde_json::Value, x: bool) -> bool {
        json_bool(v) == Some(x)
    }

    fn from_json(v: &serde_json::Value) -> (r: Result<bool, RequestError>) {
        match v.as_bool() {
            Some(b) => Ok(b),
            None => Err(shape_error()),
        }
    }
}

impl JsonDecode for serde_json::Value {
    open spec fn json_shape(v: serde_json::Value) -> bool {
        true
    }

    open spec fn json_decodes(v: serde_json::Value, x: serde_json::Value) -> bool {
        x == v
    }

    fn from_json(v: &serde_json::Value) -> (r: Result<serde_json::Value, RequestError>) {
        Ok(v.clone())
    }
}

impl<T: JsonDecode> JsonDecode for Vec<T> {
    open spec fn json_shape(v: serde_json::Value) -> bool {
        json_items(v) matches Some(items) && forall|i: int|
            0 <= i < items.len() ==> T::json_shape(#[trigger] items[i])
    }

    open spec fn json_decodes(v: serde_json::Value, x: Vec<T>) -> bool {
        json_items(v) matches Some(items) && items.len() == x@.len() && forall|i: int|
            0 <= i < items.len() ==> T::json_decodes(#[trigger] items[i], x@[i])
    }

    fn from_json(v: &serde_json::Value) -> (r: Result<Vec<T>, RequestError>) {
        match v.as_array() {
            None => Err(shape_error()),
            Some(items) => {
                let mut out: Vec<T> = Vec::new();
                let mut i: usize = 0;
                while i < items.len()
                    invariant
                        json_items(*v) == Some(items@),
                        i <= items@.len(),
                        out@.len() == i,
                        forall|j: int|
                            0 <= j < i ==> T::json_shape(#[trigger] items@[j]) && T::json_decodes(
                                items@[j],
                                out@[j],
                            ),
                    decreases items.len() - i,
                {
                    match T::from_json(&items[i]) {
                        Ok(x) => out.push(x),
                        Err(e) => {
                            assert(!T::json_shape(items@[i as int]));
                            assert(json_items(*v) matches Some(its) && !T::json_shape(its[i as int]));
                            return Err(e);
                        },
                    }
                    i += 1;
                }
                Ok(out)
            },
        }
    }
}

/// The object `v` has a member `key` that decodes into `T`.
pub open spec fn field_shape<T: JsonDecode>(v: serde_json::Value, key: Seq<char>) -> bool {
    json_field(v, key) matches Some(f) && T::json_shape(f)
}

/// `x` is what the member `key` of `v` decodes into.
pub open spec fn field_decodes<T: JsonDecode>(v: serde_json::Value, key: Seq<char>, x: T) -> bool {
    json_field(v, key) matches Some(f) && T::json_decodes(f, x)
}

/// An object that lacks a required member never decodes: its decoder, and so
/// `from_body` on any body that parses to it, ends in a body error.
pub proof fn lemma_missing_member_rejected<T: JsonDecode>(v: serde_json::Value, key: Seq<char>)
    requires
        json_field(v, key) is None,
    ensures
        !field_shape::<T>(v, key),
{
}

/// An optional member: absent or `null`, or a value that decodes into `T`.
pub open spec fn opt_field_shape<T: JsonDecode>(v: serde_json::Value, key: Seq<char>) -> bool {
    match json_field(v, key) {
        None => true,
        Some(f) => json_is_null(f) || T::json_shape(f),
    }
}

/// `x` is what the optional member `key` of `v` decodes into.
pub open spec fn opt_field_decodes<T: JsonDecode>(
    v: serde_json::Value,
    key: Seq<char>,
    x: Option<T>,
) -> bool {
    match json_field(v, key) {
        None => x is None,
        Some(f) => if json_is_null(f) {
            x is None
        } else {
            x matches Some(y) && T::json_decodes(f, y)
        },
    }
}

/// Decodes the required member `key` of the object `v`.
pub fn decode_field<T: JsonDecode>(v: &serde_json::Value, key: &str) -> (r: Result<T, RequestError>)
    ensures
        r is Ok <==> field_shape::<T>(*v, key@),
        r matches Ok(x) ==> field_decodes(*v, key@, x),
        r matches Err(e) ==> e is Body,
{
    match json_get(v, key) {
        Some(f) => T::from_json(f),
        None => Err(shape_error()),
    }
}

/// Decodes the optional member `key` of the object `v`.
pub fn decode_opt_field<T: JsonDecode>(v: &serde_json::Value, key: &str) -> (r: Result<
    Option<T>,
    RequestError,
>)
    ensures
        r is Ok <==> opt_field_shape::<T>(*v, key@),
        r matches Ok(x) ==> opt_field_decodes(*v, key@, x),
        r matches Err(e) ==> e is Body,
{
    match json_get(v, key) {
        None => Ok(None),
        Some(f) => {
            if f.is_null() {
                Ok(None)
            } else {
                match T::from_json(f) {
                    Ok(x) => Ok(Some(x)),
                    Err(e) => Err(e),
                }
            }
        },
    }
}

/// An object whose members are all strings.
pub open spec fn string_map_shape(v: serde_json::Value) -> bool {
    json_keys(v) matches Some(ks) && forall|i: int|
        0 <= i < ks.len() ==> field_shape::<String>(v, #[trigger] ks[i])
}

/// No key appears twice.
pub open spec fn keys_unique(m: Seq<(String, String)>) -> bool {
    forall|i: int, j: int| 0 <= i < j < m.len() ==> (#[trigger] m[i]).0@ != (#[trigger] m[j]).0@
}

/// `m` holds the members of the object `v`, key and string value, in the order
/// of its keys, each key once.
pub open spec fn string_map_decodes(v: serde_json::Value, m: Seq<(String, String)>) -> bool {
    &&& json_keys(v) matches Some(ks) && ks.len() == m.len() && forall|i: int|
        0 <= i < ks.len() ==> (#[trigger] m[i]).0@ == ks[i] && field_decodes::<String>(v, ks[i], m[i].1)
    &&& keys_unique(m)
}

/// Pairs of strings, (key, value), in which no key appears twice.
#[derive(Debug, PartialEq)]
pub struct StringPairs {
    pairs: Vec<(String, String)>,
}

impl View for StringPairs {
    type V = Seq<(String, String)>;

    closed spec fn view(&self) -> Seq<(String, String)> {
        self.pairs@
    }
}

impl Clone for StringPairs {
    fn clone(&self) -> (r: StringPairs)
        ensures
            r@ == self@,
    {
        proof {
            use_type_invariant(self);
        }
        let mut out: Vec<(String, String)> = Vec::new();
        let mut i: usize = 0;
        while i < self.pairs.len()
            invariant
                i <= self.pairs@.len(),
                out@ =~= self.pairs@.subrange(0, i as int),
            decreases self.pairs.len() - i,
        {
            out.push((self.pairs[i].0.clone(), self.pairs[i].1.clone()));
            i += 1;
        }
        assert(out@ =~= self.pairs@);
        StringPairs { pairs: out }
    }
}

impl StringPairs {
    #[verifier::type_invariant]
    spec fn unique_keys(self) -> bool {
        keys_unique(self.pairs@)
    }

    /// The pairs, if no key appears twice.
    pub fn from_pairs(pairs: Vec<(String, String)>) -> (r: Option<StringPairs>)
        ensures
            r is Some <==> keys_unique(pairs@),
            r matches Some(p) ==> p@ == pairs@,
    {
        let mut i: usize = 0;
        while i < pairs.len()
            invariant
                i <= pairs@.len(),
                forall|a: int, b: int|
                    0 <= a < b < i ==> (#[trigger] pairs@[a]).0@ != (#[trigger] pairs@[b]).0@,
            decreases pairs.len() - i,
        {
            let mut j: usize = 0;
            while j < i
                invariant
                    i < pairs@.len(),
                    j <= i,
                    forall|a: int| 0 <= a < j ==> (#[trigger] pairs@[a]).0@ != pairs@[i as int].0@,
                decreases i - j,
            {
                if text_eq(pairs[j].0.as_str(), pairs[i].0.as_str()) {
                    assert(pairs@[j as int].0@ == pairs@[i as int].0@);
                    return None;
                }
                j += 1;
            }
            i += 1;
        }
        Some(StringPairs { pairs })
    }

    /// The pairs, in order.
    pub fn entries(&self) -> (r: &Vec<(String, String)>)
        ensures
            r@ == self@,
            keys_unique(self@),
    {
        proof {
            use_type_invariant(self);
        }
        &self.pairs
    }
}

/// Decodes an object of strings into its (key, value) pairs.
pub fn decode_string_map(v: &serde_json::Value) -> (r: Result<StringPairs, RequestError>)
    ensures
        r is Ok <==> string_map_shape(*v),
        r matches Ok(m) ==> string_map_decodes(*v, m@),
        r matches Err(e) ==> e is Body,
{
    match json_object_keys(v) {
        None => Err(shape_error()),
        Some(keys) => {
            let ghost ks = json_keys(*v)->Some_0;
            let mut out: Vec<(String, String)> = Vec::new();
            let mut i: usize = 0;
            while i < keys.len()
                invariant
                    json_keys(*v) == Some(ks),
                    keys@.len() == ks.len(),
                    forall|j: int| 0 <= j < keys@.len() ==> #[trigger] keys@[j]@ == ks[j],
                    forall|a: int, b: int|
                        0 <= a < b < keys@.len() ==> (#[trigger] keys@[a])@ != (#[trigger] keys@[b])@,
                    i <= keys@.len(),
                    out@.len() == i,
                    forall|j: int|
                        0 <= j < i ==> field_shape::<String>(*v, #[trigger] ks[j]) && out@[j].0@
                            == ks[j] && field_decodes::<String>(*v, ks[j], out@[j].1),
                decreases keys.len() - i,
            {
                let key = &keys[i];
                assert(key@ == ks[i as int]);
                match decode_field::<String>(v, key.as_str()) {
                    Ok(s) => out.push((key.clone(), s)),
                    Err(e) => {
                        assert(!field_shape::<String>(*v, ks[i as int]));
                        assert(json_keys(*v) matches Some(k2) && !field_shape::<String>(*v, k2[i as int]));
                        return Err(e);
                    },
                }
                i += 1;
            }
            assert forall|a: int, b: int| 0 <= a < b < out@.len() implies (#[trigger] out@[a]).0@
                != (#[trigger] out@[b]).0@ by {
                assert(out@[a].0@ == keys@[a]@);
                assert(out@[b].0@ == keys@[b]@);
            }
            Ok(StringPairs { pairs: out })
        },
    }
}

} // verus!
