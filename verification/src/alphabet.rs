//! The validity rule for dictionary entries.
//!
//! An entry is a run of at least two letters of the Hebrew alphabet block
//! (alef through tav) and nothing else. The letter test is delegated to a
//! regular expression that is compiled once and then reused.

use regex::Regex;
use vstd::prelude::*;
use vstd::string::*;

verus! {

/// The pattern an entry has to match: one contiguous run of letters from
/// alef (U+05D0) to tav (U+05EA), anchored at both ends.
pub open spec fn alphabet_pattern() -> Seq<char> {
    "^[\u{5d0}-\u{5ea}]+$"@
}

/// Whether `c` lies in the Hebrew alphabet block.
pub open spec fn is_letter(c: char) -> bool {
    0x5d0 <= c as u32 <= 0x5ea
}

/// Whether `s` is a non-empty run of Hebrew letters.
pub open spec fn is_letter_run(s: Seq<char>) -> bool {
    s.len() >= 1 && forall|i: int| 0 <= i < s.len() ==> is_letter(#[trigger] s[i])
}

/// Whether `s` qualifies as a dictionary entry: only Hebrew letters, and
/// more than one of them.
pub open spec fn is_entry(s: Seq<char>) -> bool {
    s.len() >= 2 && forall|i: int| 0 <= i < s.len() ==> is_letter(#[trigger] s[i])
}

/// Whether `Regex::new` accepts `pattern`.
pub uninterp spec fn pattern_compiles(pattern: Seq<char>) -> bool;

/// The pattern text a regular expression was compiled from by `Regex::new`,
/// that is with the engine's default options. A regular expression built in
/// another way, with options that change what its pattern means, is not
/// what this name speaks of; the crate builds none.
pub uninterp spec fn regex_source(re: Regex) -> Seq<char>;

#[verifier::external_type_specification]
#[verifier::external_body]
pub struct ExRegex(regex::Regex);

#[verifier::external_type_specification]
#[verifier::external_body]
pub struct ExRegexError(regex::Error);

/// `regex::Regex::new`: compilation succeeds exactly on the patterns that
/// `pattern_compiles` names, and the compiled expression keeps the text it
/// was built from (what `Regex::as_str` hands back).
pub assume_specification[ regex::Regex::new ](re: &str) -> (compiled: Result<
    regex::Regex,
    regex::Error,
>)
    ensures
        compiled is Ok <==> pattern_compiles(re@),
        compiled matches Ok(regex) ==> regex_source(regex) == re@,
;

/// `regex::Regex::is_match`, as far as the alphabet pattern goes. The regex
/// syntax fixes the answer for that pattern: `^` and `$` match only at the
/// two ends of the haystack, the class `[a-b]` matches one character in the
/// range, and `+` asks for one or more of them, so the haystack matches
/// exactly when it is a non-empty run of letters. Nothing is claimed about
/// other patterns.
pub assume_specification[ regex::Regex::is_match ](re: &regex::Regex, haystack: &str) -> (found:
    bool)
    ensures
        regex_source(*re) == alphabet_pattern() ==> found == is_letter_run(haystack@),
;

/// The compiled entry pattern.
#[derive(Debug)]
pub struct Alphabet {
    re: Regex,
}

impl Alphabet {
    #[verifier::type_invariant]
    spec fn holds_alphabet_pattern(self) -> bool {
        regex_source(self.re) == alphabet_pattern()
    }

    /// Compiles the entry pattern. The result is `Some` exactly when the
    /// regex engine accepts the pattern.
    pub fn new() -> (alphabet: Option<Alphabet>)
        ensures
            alphabet is Some <==> pattern_compiles(alphabet_pattern()),
    {
        match Regex::new("^[\u{5d0}-\u{5ea}]+$") {
            Ok(re) => Some(Alphabet { re }),
            Err(_) => None,
        }
    }

    /// Decides whether `word` is a dictionary entry.
    pub fn accepts(&self, word: &str) -> (ok: bool)
        ensures
            ok == is_entry(word@),
    {
        proof {
            use_type_invariant(self);
        }
        self.re.is_match(word) && word.unicode_len() > 1
    }
}

} // verus!
