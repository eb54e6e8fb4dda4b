//! What is read out of a JSON text: single members of its top-level object, and its indented form.
use crate::number;
use crate::text;
use serde_json::Value;
use vstd::prelude::*;

verus! {

/// The value of one member of a JSON object: a string, or the compact JSON text of anything else.
#[derive(Debug)]
pub enum JsonMember {
    Text(String),
    Other(String),
}

/// A `JsonMember` with its text as a sequence of characters.
pub enum MemberView {
    Text(Seq<char>),
    Other(Seq<char>),
}

impl View for JsonMember {
    type V = MemberView;

    open spec fn view(&self) -> MemberView {
        match self {
            JsonMember::Text(text) => MemberView::Text(text@),
            JsonMember::Other(text) => MemberView::Other(text@),
        }
    }
}

/// The view of a member that may be missing.
pub open spec fn member_view(member: Option<JsonMember>) -> Option<MemberView> {
    match member {
        Some(value) => Some(value@),
        None => None,
    }
}

/// Whether `serde_json::from_slice` reads `bytes` as a JSON value.
pub uninterp spec fn json_valid(bytes: Seq<u8>) -> bool;

/// What `Value::get` finds under `key` in the JSON value that `bytes` write.
pub uninterp spec fn json_member(bytes: Seq<u8>, key: Seq<char>) -> Option<MemberView>;

/// The text that `serde_json::to_string_pretty` makes of the JSON value that `bytes` write.
pub uninterp spec fn json_pretty(bytes: Seq<u8>) -> Seq<char>;

/// `serde_json::from_slice`, then `Value::get` for each of `keys`: `None` where the bytes are not
/// JSON, else the member under each key. A string is handed over as it is, any other value in the
/// compact form that `Value`'s `Display` gives it. All of it depends on the bytes and the key alone,
/// and blanks behind the JSON text change nothing, as they are skipped.
#[verifier::external_body]
pub(crate) fn read_members(bytes: &[u8], keys: &Vec<&str>) -> (members: Option<
    Vec<Option<JsonMember>>,
>)
    ensures
        members is Some <==> json_valid(bytes@),
        members matches Some(found) ==> found@.len() == keys@.len(),
        members matches Some(found) ==> forall|i: int|
            0 <= i < keys@.len() ==> member_view(#[trigger] found@[i]) == json_member(
                bytes@,
                keys@[i]@,
            ),
        forall|content: Seq<u8>| #[trigger]
            text::is_padded(bytes@, content) ==> (members is Some <==> json_valid(content)),
        members matches Some(found) ==> forall|content: Seq<u8>, i: int|
            #![trigger text::is_padded(bytes@, content), found@[i]]
            text::is_padded(bytes@, content) && 0 <= i < keys@.len() ==> member_view(found@[i])
                == json_member(content, keys@[i]@),
{
    let value: Value = serde_json::from_slice(bytes).ok()?;
    let member = |key: &&str| match value.get(*key) {
        Some(Value::String(text)) => Some(JsonMember::Text(text.clone())),
        Some(other) => Some(JsonMember::Other(other.to_string())),
        None => None,
    };
    Some(keys.iter().map(member).collect())
}

/// Where a byte of a JSON text stands: outside of its strings, in one of them, or in one of them
/// right behind a backslash.
pub enum Spot {
    Outside,
    Inside,
    Escaped,
}

/// Where byte `n` of a JSON text stands.
pub open spec fn spot(bytes: Seq<u8>, n: int) -> Spot
    decreases n,
{
    if n <= 0 {
        Spot::Outside
    } else {
        let quote = bytes[n - 1] == 34;
        let backslash = bytes[n - 1] == 92;
        match spot(bytes, n - 1) {
            Spot::Outside => if quote {
                Spot::Inside
            } else {
                Spot::Outside
            },
            Spot::Inside => if quote {
                Spot::Outside
            } else if backslash {
                Spot::Escaped
            } else {
                Spot::Inside
            },
            Spot::Escaped => Spot::Inside,
        }
    }
}

/// Whether `b` is an ASCII digit.
pub open spec fn is_digit_byte(b: u8) -> bool {
    48 <= b <= 57
}

/// The number that the digits from `i` up to `j` spell.
pub open spec fn spelled(bytes: Seq<u8>, i: int, j: int) -> nat {
    number::digits_value(text::ascii_from(bytes.subrange(i, j), 0))
}

/// Whether the numbers of a JSON text are all integers of 64 bits: none has a fraction or an
/// exponent, none is a negative zero, and none is too large.
pub open spec fn holds_no_float(bytes: Seq<u8>) -> bool {
    &&& forall|i: int|
        0 <= i < bytes.len() && #[trigger] spot(bytes, i) is Outside ==> {
            &&& bytes[i] != 46
            &&& bytes[i] == 69 || bytes[i] == 101 ==> i == 0 || !is_digit_byte(bytes[i - 1])
            &&& bytes[i] == 45 && i + 1 < bytes.len() ==> bytes[i + 1] != 48
        }
    &&& forall|i: int, j: int|
        #![trigger spot(bytes, i), bytes.subrange(i, j)]
        0 <= i < j <= bytes.len() && spot(bytes, i) is Outside && (forall|k: int|
            i <= k < j ==> is_digit_byte(#[trigger] bytes[k])) ==> spelled(bytes, i, j) <= if i > 0
            && bytes[i - 1] == 45 {
            0x8000_0000_0000_0000
        } else {
            u64::MAX as nat
        }
}

/// Whether `text` is JSON that writes the same value as `bytes`: it has the same members, and its
/// indented form is itself.
pub open spec fn reads_back(text: Seq<char>, bytes: Seq<u8>) -> bool {
    let again = vstd::utf8::encode_utf8(text);
    &&& json_valid(again)
    &&& json_pretty(again) == text
    &&& forall|key: Seq<char>| #[trigger] json_member(again, key) == json_member(bytes, key)
}

/// `serde_json::from_slice`, then `serde_json::to_string_pretty`: the indented form of the JSON
/// value that `bytes` write, `None` where they are not JSON. A `Value` can always be written, and
/// without floating-point numbers, which may lose a digit on the way, it is read back as it was.
#[verifier::external_body]
pub(crate) fn pretty_json(bytes: &[u8]) -> (text: Option<String>)
    ensures
        text is Some <==> json_valid(bytes@),
        text matches Some(pretty) ==> pretty@ == json_pretty(bytes@),
        text matches Some(pretty) ==> holds_no_float(bytes@) ==> reads_back(pretty@, bytes@),
{
    let value: Value = serde_json::from_slice(bytes).ok()?;
    serde_json::to_string_pretty(&value).ok()
}

/// A member is seen as it is: whether it is there, whether it is a string, and its text.
pub proof fn members_are_seen_as_they_are(member: Option<JsonMember>)
    ensures
        member is None <==> member_view(member) is None,
        member matches Some(JsonMember::Text(text)) ==> member_view(member) == Some(
            MemberView::Text(text@),
        ),
        member matches Some(JsonMember::Other(text)) ==> member_view(member) == Some(
            MemberView::Other(text@),
        ),
{
}

} // verus!
