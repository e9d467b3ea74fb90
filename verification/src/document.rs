//! JSON documents: the model by which contracts speak of a `JsonValue`, and
//! the calls into the `json` crate.

use vstd::prelude::*;
use vstd::string::*;
use crate::scalar::Numeral;

verus! {

/// A JSON document, as a mathematical value.
pub enum Tree {
    Null,
    Text(Seq<char>),
    Number(Numeral),
    Boolean(bool),
    Object(Map<Seq<char>, Tree>),
    Array(Seq<Tree>),
}

/// `json::JsonValue`, a JSON document of the `json` crate. Nothing is known
/// of a value but what `json_tree` says of it.
#[verifier::external_type_specification]
#[verifier::external_body]
pub struct ExJsonValue(json::JsonValue);

/// `json::Error`, the reason why a text is no JSON document. It is carried
/// and never read.
#[verifier::external_type_specification]
#[verifier::external_body]
pub struct ExJsonError(json::Error);

/// The document that a `JsonValue` holds: its own variant, with the members
/// of an array in their order, the values of an object under their keys, and
/// the sign, mantissa and exponent of a number.
pub uninterp spec fn json_tree(value: json::JsonValue) -> Tree;

/// The document that `json::parse` reads from a text, where it reads one.
pub uninterp spec fn json_text(source: Seq<char>) -> Option<Tree>;

/// The members of an array. Anything else has none.
pub open spec fn members_of(tree: Tree) -> Seq<Tree> {
    match tree {
        Tree::Array(items) => items,
        _ => Seq::empty(),
    }
}

/// The value that an object holds under `key`. An object without that key,
/// and anything that is no object, gives `Null`.
pub open spec fn field_of(tree: Tree, key: Seq<char>) -> Tree {
    match tree {
        Tree::Object(fields) => if fields.dom().contains(key) {
            fields[key]
        } else {
            Tree::Null
        },
        _ => Tree::Null,
    }
}

/// The numeral of a number. Anything else has none.
pub open spec fn numeral_of(tree: Tree) -> Option<Numeral> {
    match tree {
        Tree::Number(numeral) => Some(numeral),
        _ => None,
    }
}

/// `JsonValue::is_array`: whether the value is an array.
#[verifier::external_body]
pub(crate) fn is_array(value: &json::JsonValue) -> (b: bool)
    ensures
        b == (json_tree(*value) is Array),
{
    value.is_array()
}

/// `JsonValue::members`: the members of an array in their order, and nothing
/// for a value that is no array.
#[verifier::external_body]
pub(crate) fn members<'a>(value: &'a json::JsonValue) -> (items: Vec<&'a json::JsonValue>)
    ensures
        items@.len() == members_of(json_tree(*value)).len(),
        forall|i: int|
            0 <= i < items@.len() ==> json_tree(*#[trigger] items@[i]) == members_of(
                json_tree(*value),
            )[i],
{
    value.members().collect()
}

/// Indexing a `JsonValue` by a string: the value under that key of an
/// object, and `Null` where the key is absent or the value is no object.
#[verifier::external_body]
pub(crate) fn field<'a>(value: &'a json::JsonValue, key: &str) -> (item: &'a json::JsonValue)
    ensures
        json_tree(*item) == field_of(json_tree(*value), key@),
{
    &value[key]
}

/// `JsonValue::as_number`, with the number taken apart by `Number::is_nan`
/// and `Number::as_parts`: the numeral of a number, and `None` for any other
/// value.
#[verifier::external_body]
pub(crate) fn number(value: &json::JsonValue) -> (numeral: Option<Numeral>)
    ensures
        numeral == numeral_of(json_tree(*value)),
{
    match value.as_number() {
        Some(n) => Some(
            Numeral {
                nan: n.is_nan(),
                positive: n.as_parts().0,
                mantissa: n.as_parts().1,
                exponent: n.as_parts().2,
            },
        ),
        None => None,
    }
}

/// The longest run of decimal digits in a text that `json::parse` is handed.
/// The reader counts the digits of a fraction down in a 16-bit exponent,
/// which a longer run can take below its least value.
pub const MAX_DIGIT_RUN: usize = 32767;

/// The byte is an ASCII decimal digit.
pub open spec fn is_digit(byte: u8) -> bool {
    48 <= byte <= 57
}

/// The number of decimal digits that stand directly before position `i`.
pub open spec fn digits_before(bytes: Seq<u8>, i: int) -> nat
    decreases i,
{
    if 0 < i <= bytes.len() && is_digit(bytes[i - 1]) {
        digits_before(bytes, i - 1) + 1
    } else {
        0
    }
}

/// No run of decimal digits in the text is longer than `MAX_DIGIT_RUN`.
pub open spec fn digit_runs_fit(bytes: Seq<u8>) -> bool {
    forall|i: int| 0 <= i <= bytes.len() ==> #[trigger] digits_before(bytes, i) <= MAX_DIGIT_RUN
}

/// Whether no run of decimal digits in `source` is longer than
/// `MAX_DIGIT_RUN`.
pub fn digit_runs_fit_in(source: &str) -> (ok: bool)
    ensures
        ok == digit_runs_fit(source.spec_bytes()),
{
    let bytes = source.as_bytes();
    let mut run: usize = 0;
    let mut i: usize = 0;
    while i < bytes.len()
        invariant
            i <= bytes.len(),
            bytes@ == source.spec_bytes(),
            run == digits_before(bytes@, i as int),
            forall|j: int| 0 <= j <= i ==> #[trigger] digits_before(bytes@, j) <= MAX_DIGIT_RUN,
        decreases bytes.len() - i,
    {
        let byte = bytes[i];
        if 48 <= byte && byte <= 57 {
            if run == MAX_DIGIT_RUN {
                assert(digits_before(bytes@, i + 1) == MAX_DIGIT_RUN + 1);
                return false;
            }
            run += 1;
        } else {
            run = 0;
        }
        i += 1;
    }
    true
}

/// `json::parse`: the document that the text holds, or an error where the
/// text is no JSON document. The result depends on the text alone. Texts
/// with a run of more than `MAX_DIGIT_RUN` digits are kept from the reader.
#[verifier::external_body]
pub(crate) fn parse_text(source: &str) -> (parsed: Result<json::JsonValue, json::Error>)
    requires
        digit_runs_fit(source.spec_bytes()),
    ensures
        parsed is Ok <==> json_text(source@) is Some,
        parsed matches Ok(value) ==> json_text(source@) == Some(json_tree(value)),
{
    json::parse(source)
}

} // verus!
