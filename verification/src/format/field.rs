//! How the members of a JSON object are read as the fields of a record: which
//! members must be there, which may be missing, and what each must hold.

use vstd::prelude::*;
use vstd::string::*;
use crate::error::{CargoError, CargoErrorView, ErrorKind};
use crate::json::{lemma_array_view, Json, JsonView};

verus! {

/// Whether two strings hold the same characters.
pub fn same_text(a: &str, b: &str) -> (r: bool)
    ensures
        r == (a@ == b@),
{
    a.to_owned() == b.to_owned()
}

/// The failure for the member `key` where it is missing or holds the wrong
/// kind of value.
pub open spec fn field_failure(key: Seq<char>) -> CargoErrorView {
    CargoErrorView {
        kind: ErrorKind::InvalidOutput,
        context: None,
        cause: Some("missing or invalid field `"@ + key + "`"@),
    }
}

/// The failure for a member that is missing or holds the wrong kind of value.
pub fn bad_field(key: &str) -> (e: CargoError)
    ensures
        e@ == field_failure(key@),
{
    let cause = String::from_str("missing or invalid field `").concat(key).concat("`");
    CargoError::new(ErrorKind::InvalidOutput).set_cause(cause)
}

/// The member `key`, where `null` counts as missing.
pub open spec fn present(j: JsonView, key: Seq<char>) -> Option<JsonView> {
    match j.member(key) {
        Some(JsonView::Null) => None,
        other => other,
    }
}

/// The strings of an array of strings; `None` for every other value.
pub open spec fn texts_of(v: JsonView) -> Option<Seq<Seq<char>>> {
    match v {
        JsonView::Array(items) => if forall|i: int| 0 <= i < items.len() ==> items[i] is Str {
            Some(Seq::new(items.len(), |i: int| items[i]->Str_0))
        } else {
            None
        },
        _ => None,
    }
}

/// An unsigned integer that fits `u32`.
pub open spec fn u32_of(v: JsonView) -> Option<u32> {
    match v {
        JsonView::Unsigned(n) => if n <= u32::MAX {
            Some(n as u32)
        } else {
            None
        },
        _ => None,
    }
}

/// An unsigned integer that fits `usize`.
pub open spec fn usize_of(v: JsonView) -> Option<usize> {
    match v {
        JsonView::Unsigned(n) => if n <= usize::MAX {
            Some(n as usize)
        } else {
            None
        },
        _ => None,
    }
}

/// A member that must be there and hold a string.
pub open spec fn text_at(j: JsonView, key: Seq<char>) -> Option<Seq<char>> {
    match j.member(key) {
        Some(v) => v.text(),
        None => None,
    }
}

/// A member that holds a string where it is there, and stands for `default`
/// where it is missing.
pub open spec fn text_or_at(j: JsonView, key: Seq<char>, default: Seq<char>) -> Option<Seq<char>> {
    match j.member(key) {
        Some(v) => v.text(),
        None => Some(default),
    }
}

/// A member that may be missing or `null`, and holds a string otherwise.
pub open spec fn opt_text_at(j: JsonView, key: Seq<char>) -> Option<Option<Seq<char>>> {
    match present(j, key) {
        Some(v) => match v.text() {
            Some(t) => Some(Some(t)),
            None => None,
        },
        None => Some(None),
    }
}

/// A member that must be there and hold a boolean.
pub open spec fn flag_at(j: JsonView, key: Seq<char>) -> Option<bool> {
    match j.member(key) {
        Some(v) => v.flag(),
        None => None,
    }
}

/// A member that holds a boolean where it is there, and stands for `false`
/// where it is missing.
pub open spec fn flag_or_false_at(j: JsonView, key: Seq<char>) -> Option<bool> {
    match j.member(key) {
        Some(v) => v.flag(),
        None => Some(false),
    }
}

/// A member that may be missing or `null`, and holds a boolean otherwise.
pub open spec fn opt_flag_at(j: JsonView, key: Seq<char>) -> Option<Option<bool>> {
    match present(j, key) {
        Some(v) => match v.flag() {
            Some(b) => Some(Some(b)),
            None => None,
        },
        None => Some(None),
    }
}

/// A member that must be there and hold an array of strings.
pub open spec fn texts_at(j: JsonView, key: Seq<char>) -> Option<Seq<Seq<char>>> {
    match j.member(key) {
        Some(v) => texts_of(v),
        None => None,
    }
}

/// A member that holds an array of strings where it is there, and stands for
/// the empty list where it is missing.
pub open spec fn texts_or_empty_at(j: JsonView, key: Seq<char>) -> Option<Seq<Seq<char>>> {
    match j.member(key) {
        Some(v) => texts_of(v),
        None => Some(Seq::empty()),
    }
}

/// A member that must be there and hold an unsigned integer that fits `usize`.
pub open spec fn usize_at(j: JsonView, key: Seq<char>) -> Option<usize> {
    match j.member(key) {
        Some(v) => usize_of(v),
        None => None,
    }
}

/// A member that may be missing or `null`, and holds an unsigned integer that
/// fits `usize` otherwise.
pub open spec fn opt_usize_at(j: JsonView, key: Seq<char>) -> Option<Option<usize>> {
    match present(j, key) {
        Some(v) => match usize_of(v) {
            Some(n) => Some(Some(n)),
            None => None,
        },
        None => Some(None),
    }
}

/// A member that may be missing or `null`, and holds an unsigned integer that
/// fits `u32` otherwise.
pub open spec fn opt_u32_at(j: JsonView, key: Seq<char>) -> Option<Option<u32>> {
    match present(j, key) {
        Some(v) => match u32_of(v) {
            Some(n) => Some(Some(n)),
            None => None,
        },
        None => Some(None),
    }
}

/// The member `key`, where `null` counts as missing.
pub fn get_present<'a>(j: &'a Json, key: &str) -> (r: Option<&'a Json>)
    ensures
        r is Some <==> present(j@, key@) is Some,
        r is Some ==> r->Some_0@ == present(j@, key@)->Some_0,
{
    match j.get(key) {
        Some(v) => if v.is_null() {
            None
        } else {
            Some(v)
        },
        None => None,
    }
}

/// Reads an array of strings.
pub fn read_texts(v: &Json, key: &str) -> (r: Result<Vec<String>, CargoError>)
    ensures
        match texts_of(v@) {
            Some(t) => r is Ok && r->Ok_0.deep_view() == t,
            None => r is Err && r->Err_0@ == field_failure(key@),
        },
{
    match v {
        Json::Array(items) => {
            proof {
                lemma_array_view(*v);
            }
            let mut texts: Vec<String> = Vec::new();
            let mut i: usize = 0;
            while i < items.len()
                invariant
                    i <= items@.len(),
                    v@ is Array,
                    v@->Array_0.len() == items@.len(),
                    forall|k: int|
                        0 <= k < items@.len() ==> (#[trigger] v@->Array_0[k]) == items@[k]@,
                    texts@.len() == i,
                    forall|k: int| 0 <= k < i ==> (#[trigger] v@->Array_0[k]) is Str,
                    forall|k: int|
                        0 <= k < i ==> (#[trigger] texts@[k])@ == v@->Array_0[k]->Str_0,
                decreases items@.len() - i,
            {
                match items[i].as_str() {
                    Some(s) => {
                        texts.push(s.to_owned());
                    },
                    None => {
                        proof {
                            assert(!(v@->Array_0[i as int] is Str));
                        }
                        return Err(bad_field(key));
                    },
                }
                i += 1;
            }
            proof {
                assert(texts.deep_view() =~= texts_of(v@)->Some_0);
            }
            Ok(texts)
        },
        _ => Err(bad_field(key)),
    }
}

/// Reads an unsigned integer that fits `u32`.
pub fn read_u32(v: &Json, key: &str) -> (r: Result<u32, CargoError>)
    ensures
        match u32_of(v@) {
            Some(n) => r == Ok::<u32, CargoError>(n),
            None => r is Err && r->Err_0@ == field_failure(key@),
        },
{
    match v.as_u64() {
        Some(n) => if n <= u32::MAX as u64 {
            Ok(n as u32)
        } else {
            Err(bad_field(key))
        },
        None => Err(bad_field(key)),
    }
}

/// Reads an unsigned integer that fits `usize`.
pub fn read_usize(v: &Json, key: &str) -> (r: Result<usize, CargoError>)
    ensures
        match usize_of(v@) {
            Some(n) => r == Ok::<usize, CargoError>(n),
            None => r is Err && r->Err_0@ == field_failure(key@),
        },
{
    match v.as_u64() {
        Some(n) => if n <= usize::MAX as u64 {
            Ok(n as usize)
        } else {
            Err(bad_field(key))
        },
        None => Err(bad_field(key)),
    }
}

/// Reads a member that must be there and hold a string.
pub fn text_field(j: &Json, key: &str) -> (r: Result<String, CargoError>)
    ensures
        match text_at(j@, key@) {
            Some(t) => r is Ok && r->Ok_0@ == t,
            None => r is Err && r->Err_0@ == field_failure(key@),
        },
{
    match j.get(key) {
        Some(v) => match v.as_str() {
            Some(s) => Ok(s.to_owned()),
            None => Err(bad_field(key)),
        },
        None => Err(bad_field(key)),
    }
}

/// Reads a member that holds a string, or stands for `default` where it is
/// missing.
pub fn text_or_field(j: &Json, key: &str, default: &str) -> (r: Result<String, CargoError>)
    ensures
        match text_or_at(j@, key@, default@) {
            Some(t) => r is Ok && r->Ok_0@ == t,
            None => r is Err && r->Err_0@ == field_failure(key@),
        },
{
    match j.get(key) {
        Some(v) => match v.as_str() {
            Some(s) => Ok(s.to_owned()),
            None => Err(bad_field(key)),
        },
        None => Ok(default.to_owned()),
    }
}

/// Reads a member that may be missing or `null`, and holds a string
/// otherwise.
pub fn opt_text_field(j: &Json, key: &str) -> (r: Result<Option<String>, CargoError>)
    ensures
        match opt_text_at(j@, key@) {
            Some(t) => r is Ok && r->Ok_0.deep_view() == t,
            None => r is Err && r->Err_0@ == field_failure(key@),
        },
{
    match get_present(j, key) {
        Some(v) => match v.as_str() {
            Some(s) => Ok(Some(s.to_owned())),
            None => Err(bad_field(key)),
        },
        None => Ok(None),
    }
}

/// Reads a member that must be there and hold a boolean.
pub fn flag_field(j: &Json, key: &str) -> (r: Result<bool, CargoError>)
    ensures
        match flag_at(j@, key@) {
            Some(b) => r == Ok::<bool, CargoError>(b),
            None => r is Err && r->Err_0@ == field_failure(key@),
        },
{
    match j.get(key) {
        Some(v) => match v.as_bool() {
            Some(b) => Ok(b),
            None => Err(bad_field(key)),
        },
        None => Err(bad_field(key)),
    }
}

/// Reads a member that holds a boolean, or stands for `false` where it is
/// missing.
pub fn flag_or_false_field(j: &Json, key: &str) -> (r: Result<bool, CargoError>)
    ensures
        match flag_or_false_at(j@, key@) {
            Some(b) => r == Ok::<bool, CargoError>(b),
            None => r is Err && r->Err_0@ == field_failure(key@),
        },
{
    match j.get(key) {
        Some(v) => match v.as_bool() {
            Some(b) => Ok(b),
            None => Err(bad_field(key)),
        },
        None => Ok(false),
    }
}

/// Reads a member that may be missing or `null`, and holds a boolean
/// otherwise.
pub fn opt_flag_field(j: &Json, key: &str) -> (r: Result<Option<bool>, CargoError>)
    ensures
        match opt_flag_at(j@, key@) {
            Some(b) => r == Ok::<Option<bool>, CargoError>(b),
            None => r is Err && r->Err_0@ == field_failure(key@),
        },
{
    match get_present(j, key) {
        Some(v) => match v.as_bool() {
            Some(b) => Ok(Some(b)),
            None => Err(bad_field(key)),
        },
        None => Ok(None),
    }
}

/// Reads a member that must be there and hold an array of strings.
pub fn texts_field(j: &Json, key: &str) -> (r: Result<Vec<String>, CargoError>)
    ensures
        match texts_at(j@, key@) {
            Some(t) => r is Ok && r->Ok_0.deep_view() == t,
            None => r is Err && r->Err_0@ == field_failure(key@),
        },
{
    match j.get(key) {
        Some(v) => read_texts(v, key),
        None => Err(bad_field(key)),
    }
}

/// Reads a member that holds an array of strings, or stands for the empty
/// list where it is missing.
pub fn texts_or_empty_field(j: &Json, key: &str) -> (r: Result<Vec<String>, CargoError>)
    ensures
        match texts_or_empty_at(j@, key@) {
            Some(t) => r is Ok && r->Ok_0.deep_view() == t,
            None => r is Err && r->Err_0@ == field_failure(key@),
        },
{
    match j.get(key) {
        Some(v) => read_texts(v, key),
        None => {
            let texts: Vec<String> = Vec::new();
            proof {
                assert(texts.deep_view() =~= Seq::<Seq<char>>::empty());
            }
            Ok(texts)
        },
    }
}

/// Reads a member that must be there and hold an unsigned integer that fits
/// `usize`.
pub fn usize_field(j: &Json, key: &str) -> (r: Result<usize, CargoError>)
    ensures
        match usize_at(j@, key@) {
            Some(n) => r == Ok::<usize, CargoError>(n),
            None => r is Err && r->Err_0@ == field_failure(key@),
        },
{
    match j.get(key) {
        Some(v) => read_usize(v, key),
        None => Err(bad_field(key)),
    }
}

/// Reads a member that may be missing or `null`, and holds an unsigned
/// integer that fits `usize` otherwise.
pub fn opt_usize_field(j: &Json, key: &str) -> (r: Result<Option<usize>, CargoError>)
    ensures
        match opt_usize_at(j@, key@) {
            Some(n) => r == Ok::<Option<usize>, CargoError>(n),
            None => r is Err && r->Err_0@ == field_failure(key@),
        },
{
    match get_present(j, key) {
        Some(v) => match read_usize(v, key) {
            Ok(n) => Ok(Some(n)),
            Err(e) => Err(e),
        },
        None => Ok(None),
    }
}

/// Reads a member that may be missing or `null`, and holds an unsigned
/// integer that fits `u32` otherwise.
pub fn opt_u32_field(j: &Json, key: &str) -> (r: Result<Option<u32>, CargoError>)
    ensures
        match opt_u32_at(j@, key@) {
            Some(n) => r == Ok::<Option<u32>, CargoError>(n),
            None => r is Err && r->Err_0@ == field_failure(key@),
        },
{
    match get_present(j, key) {
        Some(v) => match read_u32(v, key) {
            Ok(n) => Ok(Some(n)),
            Err(e) => Err(e),
        },
        None => Ok(None),
    }
}

} // verus!
