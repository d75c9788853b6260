//! The calls into other crates and into parts of std that carry no contract of their own.
use vstd::prelude::*;
use vstd::string::*;
use vstd::utf8::{decode_utf8, valid_utf8};
use crate::firmware::{
    define_replaced, keeps_around_define, version_defined, VERSION_CAPTURE, VERSION_LINE,
};
use crate::ids::{is_letter, numbered, ID_PATTERN};
use crate::number::is_digit;
use crate::text::opt_view;

verus! {

/// What `str::to_lowercase` returns.
pub uninterp spec fn lowercase(s: Seq<char>) -> Seq<char>;

/// What `str::to_uppercase` returns.
pub uninterp spec fn uppercase(s: Seq<char>) -> Seq<char>;

/// `str::to_lowercase`: the result depends on the text alone.
pub assume_specification[ str::to_lowercase ](s: &str) -> (r: String)
    ensures
        r@ == lowercase(s@),
;

/// `str::to_uppercase`: the result depends on the text alone.
pub assume_specification[ str::to_uppercase ](s: &str) -> (r: String)
    ensures
        r@ == uppercase(s@),
;

/// The groups that `regex::Regex::captures` reports of the first match of a pattern in a text;
/// the group of index 0 is the whole match.
pub uninterp spec fn regex_groups(pattern: Seq<char>, text: Seq<char>) -> Option<
    Seq<Option<Seq<char>>>,
>;

/// The texts of captured groups.
pub open spec fn groups_view(groups: Option<Vec<Option<String>>>) -> Option<
    Seq<Option<Seq<char>>>,
> {
    match groups {
        Some(g) => Some(g@.map_values(|s: Option<String>| opt_view(s))),
        None => None,
    }
}

/// `regex::Regex::captures`, on one of the two patterns of this crate that capture.
///
/// The groups depend on the pattern and the text alone. For the pattern of the version they are
/// what [`version_defined`] says: the leftmost match counts, and the run of version characters
/// ends at the quotation mark, which is none of them. For the pattern of the ids a match is the
/// whole text, ASCII letters and then decimal digits, at least one of each; `\d` takes digits of
/// other scripts too, and which those are is not stated.
#[verifier::external_body]
pub(crate) fn captures(pattern: &str, text: &str) -> (r: Option<Vec<Option<String>>>)
    requires
        pattern@ == VERSION_CAPTURE@ || pattern@ == ID_PATTERN@,
    ensures
        groups_view(r) == regex_groups(pattern@, text@),
        pattern@ == VERSION_CAPTURE@ ==> match groups_view(r) {
            Some(g) => g.len() == 2 && g[1] is Some && g[1] == version_defined(text@),
            None => version_defined(text@) is None,
        },
        pattern@ == ID_PATTERN@ ==> match groups_view(r) {
            Some(g) => {
                &&& g.len() == 3
                &&& g[1] is Some
                &&& g[2] is Some
                &&& g[1]->0.len() > 0
                &&& g[2]->0.len() > 0
                &&& g[1]->0 + g[2]->0 == text@
                &&& forall|i: int| 0 <= i < g[1]->0.len() ==> is_letter(#[trigger] g[1]->0[i])
                &&& forall|i: int|
                    0 <= i < g[2]->0.len() && (#[trigger] g[2]->0[i] as int) < 128 ==> is_digit(
                        g[2]->0[i],
                    )
            },
            None => forall|k: int| !#[trigger] numbered(text@, k),
        },
{
    regex::Regex::new(pattern).unwrap().captures(text).map(
        |c| c.iter().map(|g| g.map(|m| m.as_str().to_string())).collect(),
    )
}

/// What `regex::Regex::replace` makes of a text, given a pattern and a replacement.
pub uninterp spec fn regex_replaced(
    pattern: Seq<char>,
    text: Seq<char>,
    replacement: Seq<char>,
) -> Seq<char>;

/// `regex::Regex::replace`, on the pattern of the line that defines the version.
///
/// The result depends on the pattern, the text and the replacement alone. Without a match it is
/// the text. With one, what stands before and after the leftmost match stays; the match gives way
/// to the replacement, if that holds no `$`. What `$` references expand to is not stated.
#[verifier::external_body]
pub(crate) fn replace_first(pattern: &str, text: &str, replacement: &str) -> (r: String)
    requires
        pattern@ == VERSION_LINE@,
    ensures
        r@ == regex_replaced(pattern@, text@, replacement@),
        version_defined(text@) is None ==> r@ == text@,
        !replacement@.contains('$') ==> r@ == define_replaced(text@, replacement@),
        keeps_around_define(text@, r@),
{
    regex::Regex::new(pattern).unwrap().replace(text, replacement).to_string()
}

/// What `String::from_utf8_lossy` reads from bytes.
pub uninterp spec fn lossy_text(bytes: Seq<u8>) -> Seq<char>;

/// `String::from_utf8_lossy`: the result depends on the bytes alone, and bytes that are UTF-8 are
/// read as what they encode. How malformed bytes are cut up for replacement is not stated.
#[verifier::external_body]
pub(crate) fn utf8_lossy(bytes: &[u8]) -> (r: String)
    ensures
        r@ == lossy_text(bytes@),
        valid_utf8(bytes@) ==> r@ == decode_utf8(bytes@),
{
    String::from_utf8_lossy(bytes).to_string()
}

/// `serde_json::Error`, which is only passed on.
#[verifier::external_type_specification]
#[verifier::external_body]
pub struct ExJsonError(serde_json::Error);

/// What `serde_json` reads from a body: `None` where it is no JSON, else the text in the field
/// `key`, if the value has such a field and it holds a string, and the value in debug notation.
pub uninterp spec fn json_field(body: Seq<u8>, key: Seq<char>) -> Option<
    (Option<Seq<char>>, Seq<char>),
>;

/// `serde_json::from_slice` into a `serde_json::Value`, and of that value one field as text
/// (`Index::index`, `Value::as_str`) and its debug notation. All of it depends on the body and
/// the key alone.
#[verifier::external_body]
pub(crate) fn json_text_field(body: &[u8], key: &str) -> (r: Result<
    (Option<String>, String),
    serde_json::Error,
>)
    ensures
        match r {
            Ok(f) => json_field(body@, key@) == Some((opt_view(f.0), f.1@)),
            Err(_) => json_field(body@, key@) is None,
        },
{
    let value: serde_json::Value = serde_json::from_slice(body)?;
    Ok((value[key].as_str().map(|s| s.to_string()), format!("{:?}", value)))
}

/// `chrono::Utc::now` and `chrono::DateTime::to_rfc3339`: the present time, which differs from
/// call to call. In UTC the text ends in the offset `+00:00`.
#[verifier::external_body]
pub(crate) fn utc_now() -> (r: String)
    ensures
        "+00:00"@.is_suffix_of(r@),
{
    chrono::Utc::now().to_rfc3339()
}

/// `dirs::home_dir`: the home directory of the user, which depends on the machine. Nothing is
/// stated of it.
#[verifier::external_body]
pub(crate) fn home_dir() -> (r: Option<String>) {
    dirs::home_dir().map(|h| h.to_string_lossy().to_string())
}

} // verus!
