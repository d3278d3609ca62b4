//! Regular expressions of the `regex` crate.
//!
//! The functions of `regex` that are used here are not verified: their contracts are taken on
//! trust.

use vstd::prelude::*;

verus! {

/// `regex::Regex`, which is given by the texts it matches, [`matched_texts`].
#[verifier::external_type_specification]
#[verifier::external_body]
pub struct ExRegex(regex::Regex);

/// `regex::Error`, whose message is given by [`regex_error_text`].
#[verifier::external_type_specification]
#[verifier::external_body]
pub struct ExRegexError(regex::Error);

/// The texts in which a compiled regular expression finds a match.
pub uninterp spec fn matched_texts(regex: regex::Regex) -> Set<Seq<char>>;

/// What compiling `pattern` gives on a machine whose words have `word_bits` bits: the texts in
/// which it finds a match, or, where it does not compile, the message that says why.
pub uninterp spec fn compiled_on(pattern: Seq<char>, word_bits: u32) -> Result<
    Set<Seq<char>>,
    Seq<char>,
>;

/// What compiling `pattern` gives here.
pub open spec fn compiled(pattern: Seq<char>) -> Result<Set<Seq<char>>, Seq<char>> {
    compiled_on(pattern, usize::BITS)
}

/// The message of a compile error.
pub uninterp spec fn regex_error_text(error: regex::Error) -> Seq<char>;

/// `regex::Regex::new`: whether a pattern compiles, and what it then matches, depends on the
/// pattern alone, but for the size of machine words: a compiled pattern may only take up so many
/// bytes.
pub assume_specification[ regex::Regex::new ](re: &str) -> (r: Result<regex::Regex, regex::Error>)
    ensures
        match r {
            Ok(regex) => compiled_on(re@, usize::BITS) == Ok::<Set<Seq<char>>, Seq<char>>(
                matched_texts(regex),
            ),
            Err(error) => compiled_on(re@, usize::BITS) == Err::<Set<Seq<char>>, Seq<char>>(
                regex_error_text(error),
            ),
        },
;

/// `regex::Regex::is_match`: whether a match stands anywhere in the text.
pub assume_specification[ regex::Regex::is_match ](regex: &regex::Regex, haystack: &str) -> (r:
    bool)
    ensures
        r == matched_texts(*regex).contains(haystack@),
;

/// `Display` of `regex::Error`: the error's message.
#[verifier::external_body]
pub(crate) fn regex_error_message(error: &regex::Error) -> (text: String)
    ensures
        text@ == regex_error_text(*error),
{
    error.to_string()
}

/// What a pattern matches here is what it matches on machines with words of this size; the
/// pattern is compiled as it stands.
pub proof fn patterns_are_compiled_as_they_stand(pattern: Seq<char>)
    ensures
        compiled(pattern) == compiled_on(pattern, usize::BITS),
{
}

} // verus!
