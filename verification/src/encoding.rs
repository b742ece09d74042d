//! Text encodings and entropy that the library takes from other crates.
//!
//! The functions that call into those crates are not proved: each states
//! what the crate behind it is relied on for, and the rest of the library,
//! the framing of JSON records in this module included, is verified against
//! these statements.

use vstd::prelude::*;

verus! {

/// The padded, standard-alphabet base64 text of `data`.
pub uninterp spec fn base64_standard(data: Seq<u8>) -> Seq<char>;

/// Whether the encoder can size the output for an input of `len` bytes.
pub open spec fn base64_fits(len: nat) -> bool {
    4 * (len / 3) + 4 <= usize::MAX
}

/// Calls `Engine::encode` of the crate `base64` on its `STANDARD` engine.
/// That method panics when the encoded length does not fit in `usize`, which
/// the precondition rules out. Its result depends on the input bytes alone,
/// and is what `base64_standard` stands for.
#[verifier::external_body]
pub(crate) fn base64_encode(data: &[u8]) -> (text: String)
    requires
        base64_fits(data@.len()),
    ensures
        text@ == base64_standard(data@),
{
    base64::Engine::encode(&base64::engine::general_purpose::STANDARD, data)
}

/// The base64 text of `data`, or `None` where the encoder cannot size its
/// output for so long an input.
pub fn encode_base64(data: &[u8]) -> (text: Option<String>)
    ensures
        base64_fits(data@.len()) ==> (text matches Some(t) && t@ == base64_standard(data@)),
        !base64_fits(data@.len()) ==> text is None,
{
    if data.len() / 3 <= (usize::MAX - 4) / 4 {
        Some(base64_encode(data))
    } else {
        None
    }
}

/// The JSON string literal for `text`: quoted, with the escapes JSON asks for.
pub uninterp spec fn json_string_literal(text: Seq<char>) -> Seq<char>;

#[verifier::external_type_specification]
#[verifier::external_body]
pub struct ExJsonError(serde_json::Error);

/// Calls `serde_json::to_string` on a string slice. The crate documents two
/// causes of failure, a `Serialize` impl that fails and a map with keys that
/// are not strings; neither can occur for a string slice, and the text is
/// written to a `Vec`, so the call succeeds. Its result is the compact JSON
/// text of that string, which depends on the string alone and is what
/// `json_string_literal` stands for.
#[verifier::external_body]
pub(crate) fn json_quote(text: &str) -> (quoted: Result<String, serde_json::Error>)
    ensures
        quoted is Ok,
        quoted matches Ok(literal) ==> literal@ == json_string_literal(text@),
{
    serde_json::to_string(text)
}

#[verifier::external_type_specification]
#[verifier::external_body]
pub struct ExRandError(rand::Error);

/// Calls `RngCore::try_fill_bytes` of the crate `rand` on `OsRng`, the
/// operating system's entropy source, over a fresh array of `N` bytes.
/// Nothing is claimed about the bytes, nor about when the source fails.
#[verifier::external_body]
pub(crate) fn os_random<const N: usize>() -> (drawn: Result<[u8; N], rand::Error>) {
    let mut bytes = [0u8; N];
    let filled = rand::RngCore::try_fill_bytes(&mut rand::rngs::OsRng, &mut bytes);
    filled.map(|_| bytes)
}

/// The hyphenated lower-case text of the version 4 UUID made from 16 random bytes.
pub uninterp spec fn uuid_v4_text(random: Seq<u8>) -> Seq<char>;

/// Calls `Builder::from_random_bytes` of the crate `uuid`, which sets the
/// version and variant bits over the given bytes, and formats the UUID with
/// its `Display` impl. The text depends on the bytes alone, and is what
/// `uuid_v4_text` stands for.
#[verifier::external_body]
pub(crate) fn uuid_v4(random: [u8; 16]) -> (text: String)
    ensures
        text@ == uuid_v4_text(random@),
{
    uuid::Builder::from_random_bytes(random).into_uuid().to_string()
}

/// One member of a JSON object whose value is a string: `"name":"value"`.
pub open spec fn json_member(name: Seq<char>, value: Seq<char>) -> Seq<char> {
    json_string_literal(name) + ":"@ + json_string_literal(value)
}

/// The members of a JSON object, separated by commas, in the order given.
pub open spec fn json_members(members: Seq<(Seq<char>, Seq<char>)>) -> Seq<char>
    decreases members.len(),
{
    if members.len() == 0 {
        Seq::empty()
    } else if members.len() == 1 {
        json_member(members[0].0, members[0].1)
    } else {
        json_members(members.drop_last()) + ","@ + json_member(
            members.last().0,
            members.last().1,
        )
    }
}

/// The compact JSON text of an object whose members are all strings.
pub open spec fn json_object(members: Seq<(Seq<char>, Seq<char>)>) -> Seq<char> {
    "{"@ + json_members(members) + "}"@
}

/// The names and values of `members` as mathematical sequences.
pub open spec fn members_view(members: Seq<(String, String)>) -> Seq<(Seq<char>, Seq<char>)> {
    Seq::new(members.len(), |i: int| (members[i].0@, members[i].1@))
}

/// Writes a record of string members as one compact JSON object.
pub(crate) fn json_record(members: &Vec<(String, String)>) -> (text: Result<
    String,
    serde_json::Error,
>)
    ensures
        text matches Ok(t) && t@ == json_object(members_view(members@)),
{
    let mut text = String::from_str("{");
    let ghost all = members_view(members@);
    let mut i: usize = 0;
    while i < members.len()
        invariant
            i <= members.len(),
            all == members_view(members@),
            text@ == "{"@ + json_members(all.take(i as int)),
        decreases members.len() - i,
    {
        let ghost before = all.take(i as int);
        let ghost now = all.take(i + 1);
        assert(now.drop_last() == before);
        assert(now.last() == (members@[i as int].0@, members@[i as int].1@));
        if i > 0 {
            text.append(",");
        }
        let name = json_quote(members[i].0.as_str())?;
        let value = json_quote(members[i].1.as_str())?;
        text.append(name.as_str());
        text.append(":");
        text.append(value.as_str());
        i = i + 1;
    }
    assert(all.take(i as int) == all);
    text.append("}");
    Ok(text)
}

} // verus!
