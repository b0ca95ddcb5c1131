//! Small string helpers used by the parsers and formatters of the library.

use vstd::prelude::*;
use vstd::string::*;

verus! {

/// The Unicode lower-case mapping of a string, as `str::to_lowercase`
/// computes it.
pub uninterp spec fn unicode_lowercase(s: Seq<char>) -> Seq<char>;

/// Whether every character of `s` is ASCII.
pub open spec fn all_ascii(s: Seq<char>) -> bool {
    forall|i: int| 0 <= i < s.len() ==> (s[i] as u32) < 128
}

/// The ASCII lower-case of one character.
pub open spec fn ascii_lower_char(c: char) -> char {
    if 'A' <= c && c <= 'Z' {
        ((c as u32) + 32) as char
    } else {
        c
    }
}

/// The ASCII lower-case of a string.
pub open spec fn ascii_lowercase(s: Seq<char>) -> Seq<char> {
    s.map_values(|c: char| ascii_lower_char(c))
}

/// Calls `str::to_lowercase`.
///
/// Its result is named `unicode_lowercase`; of an ASCII string the standard
/// library documents the mapping as the ASCII one, which is stated too.
#[verifier::external_body]
pub(crate) fn to_lowercase(s: &str) -> (lower: String)
    ensures
        lower@ == unicode_lowercase(s@),
        all_ascii(s@) ==> lower@ == ascii_lowercase(s@),
{
    s.to_lowercase()
}

/// Whether a string holds exactly the characters of a string slice.
pub fn equals_str(s: &String, literal: &str) -> (equal: bool)
    ensures
        equal == (s@ == literal@),
{
    let other = String::from_str(literal);
    *s == other
}

/// The concatenation of two string slices.
pub fn concat_str(a: &str, b: &str) -> (joined: String)
    ensures
        joined@ == a@ + b@,
{
    let mut joined = String::from_str(a);
    joined.append(b);
    joined
}

} // verus!

verus! {

/// The ASCII digit of a value below ten.
pub open spec fn digit_char(d: nat) -> char {
    ((('0' as u32) + d) as u32) as char
}

/// The decimal digits of a natural number.
pub open spec fn decimal(n: nat) -> Seq<char>
    decreases n,
{
    if n < 10 {
        seq![digit_char(n)]
    } else {
        decimal(n / 10).push(digit_char(n % 10))
    }
}

/// Formats an integer with `{:?}`, which for integers gives their decimal
/// digits.
#[verifier::external_body]
pub(crate) fn integer_debug_text(n: u64) -> (text: String)
    ensures
        text@ == decimal(n as nat),
{
    format!("{:?}", n)
}

/// The `{:?}` text of a string: the string in double quotes, with quotes,
/// backslashes and unprintable characters escaped.
pub uninterp spec fn string_debug_text(s: Seq<char>) -> Seq<char>;

/// Whether every character is printable ASCII other than a double quote or
/// a backslash, which `{:?}` leaves as they are.
pub open spec fn plain_ascii(s: Seq<char>) -> bool {
    forall|i: int| 0 <= i < s.len() ==> ' ' <= #[trigger] s[i] && s[i] <= '~' && s[i] != '"' && s[i] != '\\'
}

/// Formats a string with `{:?}`.
///
/// The escaping rules are named by `string_debug_text`; of a string of plain
/// printable ASCII the result is the string in double quotes.
#[verifier::external_body]
pub(crate) fn string_debug(s: &String) -> (text: String)
    ensures
        text@ == string_debug_text(s@),
        plain_ascii(s@) ==> text@ == "\""@ + s@ + "\""@,
{
    format!("{:?}", s)
}

/// The concatenation of three string slices.
pub fn concat3(a: &str, b: &str, c: &str) -> (joined: String)
    ensures
        joined@ == a@ + b@ + c@,
{
    let mut joined = String::from_str(a);
    joined.append(b);
    joined.append(c);
    joined
}

} // verus!

verus! {

/// The fields of a string between the separators, as `str::split` gives
/// them (an empty string has one empty field).
pub open spec fn split_fields(s: Seq<char>, separator: char) -> Seq<Seq<char>>
    decreases s.len(),
{
    if s.len() == 0 {
        seq![Seq::<char>::empty()]
    } else {
        let fields = split_fields(s.drop_last(), separator);
        if s.last() == separator {
            fields.push(Seq::<char>::empty())
        } else {
            fields.update(fields.len() - 1, fields.last().push(s.last()))
        }
    }
}

/// Calls `str::split` with a separator character, collecting the fields.
#[verifier::external_body]
pub(crate) fn split(s: &str, separator: char) -> (fields: Vec<String>)
    ensures
        fields@.map_values(|f: String| f@) == split_fields(s@, separator),
{
    s.split(separator).map(|field| field.to_string()).collect()
}

/// A string without its leading and trailing whitespace, as `str::trim`
/// gives it.
pub uninterp spec fn trimmed(s: Seq<char>) -> Seq<char>;

/// Calls `str::trim`.
#[verifier::external_body]
pub(crate) fn trim(s: &str) -> (result: String)
    ensures
        result@ == trimmed(s@),
{
    s.trim().to_string()
}

} // verus!
