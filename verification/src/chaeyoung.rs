//! Names of places, translated to paths by the `c-trans` tool.
//!
//! A disk is looked up by its alias in braces, `{alias}`; the tool prints
//! the path.  The library builds the query and reads the tool's answer; the
//! program runs the tool.

use vstd::prelude::*;
use vstd::string::*;
use vstd::utf8::{decode_utf8, encode_utf8, valid_utf8};

verus! {

/// The query for the path of a disk: its alias between braces.
pub open spec fn query_text(alias: Seq<char>) -> Seq<char> {
    seq!['{'] + alias + seq!['}']
}

/// The query that asks `c-trans` where the disk with this alias is.
pub fn disk_query(alias: &str) -> (query: String)
    ensures
        query@ == query_text(alias@),
        query@.len() == alias@.len() + 2,
        query@[0] == '{',
        query@[query@.len() - 1] == '}',
        query@.subrange(1, query@.len() - 1) == alias@,
{
    let mut query = String::from_str("{");
    query.append(alias);
    query.append("}");
    proof {
        reveal_strlit("{");
        reveal_strlit("}");
    }
    query
}

/// The query holds the whole alias, unchanged, between an opening and a
/// closing brace, and nothing else.
pub proof fn lemma_query_holds_alias(alias: Seq<char>)
    ensures
        query_text(alias).len() == alias.len() + 2,
        query_text(alias)[0] == '{',
        query_text(alias)[query_text(alias).len() - 1] == '}',
        query_text(alias).subrange(1, query_text(alias).len() - 1) == alias,
{
    assert(query_text(alias).subrange(1, query_text(alias).len() - 1) =~= alias);
}

/// What `String::from_utf8_lossy` makes of these bytes.
pub uninterp spec fn utf8_lossy(bytes: Seq<u8>) -> Seq<char>;

/// The byte read as an ASCII character.
pub open spec fn ascii_char(b: u8) -> char {
    b as char
}

/// Calls `String::from_utf8_lossy` and takes the text it gives.  The
/// result is named `utf8_lossy` of the bytes; as the documentation says
/// that valid UTF-8 comes out as it is, bytes that are valid UTF-8 come out
/// as the characters they encode, and bytes that are all ASCII as the same
/// characters.  How invalid bytes are replaced is left unsaid.
#[verifier::external_body]
fn decode_lossy(bytes: &[u8]) -> (text: String)
    ensures
        text@ == utf8_lossy(bytes@),
        valid_utf8(bytes@) ==> text@ == decode_utf8(bytes@),
        (forall|i: int| 0 <= i < bytes@.len() ==> #[trigger] bytes@[i] < 128) ==> text@
            == bytes@.map_values(|b: u8| ascii_char(b)),
{
    String::from_utf8_lossy(bytes).to_string()
}

/// The answer of the translation: the text the tool printed when it ran,
/// decoded leniently; the reason when it could not be run.
pub open spec fn translation(outcome: Result<Seq<u8>, Seq<char>>) -> Result<Seq<char>, Seq<char>> {
    match outcome {
        Ok(bytes) => Ok(utf8_lossy(bytes)),
        Err(reason) => Err(reason),
    }
}

/// When the tool could not be run, the reason is passed on unchanged.
pub proof fn lemma_failure_passes_on(reason: Seq<char>)
    ensures
        translation(Err(reason)) == Err::<Seq<char>, Seq<char>>(reason),
{
}

/// The view of what running the tool gave.
pub open spec fn outcome_view(outcome: Result<Vec<u8>, String>) -> Result<Seq<u8>, Seq<char>> {
    match outcome {
        Ok(bytes) => Ok(bytes@),
        Err(reason) => Err(reason@),
    }
}

/// The view of a translation.
pub open spec fn answer_view(answer: Result<String, String>) -> Result<Seq<char>, Seq<char>> {
    match answer {
        Ok(path) => Ok(path@),
        Err(reason) => Err(reason@),
    }
}

/// Reads the outcome of running `c-trans`: the standard output it printed,
/// or the reason it could not be run.  Output that is valid UTF-8 comes
/// back as the text it encodes, and output that is all ASCII as the same
/// characters, trailing newline and all.
pub fn chaeyoung_translate(outcome: Result<Vec<u8>, String>) -> (answer: Result<String, String>)
    ensures
        answer_view(answer) == translation(outcome_view(outcome)),
        forall|s: Seq<char>|
            outcome_view(outcome) == Ok::<Seq<u8>, Seq<char>>(#[trigger] encode_utf8(s))
                ==> answer_view(answer) == Ok::<Seq<char>, Seq<char>>(s),
        outcome matches Ok(bytes) ==> (valid_utf8(bytes@) ==> answer_view(answer) == Ok::<
            Seq<char>,
            Seq<char>,
        >(decode_utf8(bytes@))),
        outcome matches Err(reason) ==> answer_view(answer) == Err::<Seq<char>, Seq<char>>(
            reason@,
        ),
        outcome matches Ok(bytes) ==> ((forall|i: int|
            0 <= i < bytes@.len() ==> #[trigger] bytes@[i] < 128) ==> answer_view(answer) == Ok::<
            Seq<char>,
            Seq<char>,
        >(bytes@.map_values(|b: u8| ascii_char(b)))),
{
    match outcome {
        Ok(bytes) => {
            proof {
                broadcast use vstd::utf8::encode_utf8_valid_utf8, vstd::utf8::encode_utf8_decode_utf8;

            }
            Ok(decode_lossy(bytes.as_slice()))
        },
        Err(reason) => Err(reason),
    }
}

} // verus!
