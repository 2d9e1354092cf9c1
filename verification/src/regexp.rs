//! Regular expressions, compiled and run by the `regex` crate.
//!
//! Verus does not look inside a compiled expression. What a search returns is
//! therefore named, as a function of the expression's source text and of the
//! text searched, and the rest of the library is proved about that name.

use regex::Regex;
use vstd::prelude::*;
use vstd::std_specs::cmp::PartialEqSpecImpl;

verus! {

/// `regex::Regex`, a compiled regular expression, as an opaque type.
#[verifier::external_type_specification]
#[verifier::external_body]
pub struct ExRegex(Regex);

/// What `Regex::captures` returns for the expression compiled from `source` by
/// `Regex::new`, searched in `haystack`: `None` where the expression matches
/// nowhere; else the capture groups of the leftmost match in the order of their
/// opening parentheses, group 0 being the whole match, each with the text it
/// matched, or `None` where the group took no part in the match. Of a source
/// that does not compile the name says nothing: no [`CompiledRegex`] has it as
/// its view.
pub uninterp spec fn regex_captures(source: Seq<char>, haystack: Seq<char>) -> Option<
    Seq<Option<Seq<char>>>,
>;

/// What a search returned: `None` for no match, else the text of every capture
/// group in order, `None` for a group that took no part in the match.
pub type Captures = Option<Vec<Option<String>>>;

/// `Regex::clone`: another handle on the same compiled expression. The type is
/// opaque, so nothing is claimed of it.
pub assume_specification[ <Regex as Clone>::clone ](regex: &Regex) -> Regex;

/// A source text that `Regex::new` refused.
#[derive(Debug, PartialEq, Eq)]
pub struct InvalidRegex {
    /// The text that was to be compiled.
    pub source: String,
    /// What the `regex` crate reported, as it displays it.
    pub reason: String,
}

/// A regular expression together with the source text it was compiled from.
///
/// The fields are private and `new` is the only way to a value, so `compiled`
/// is always what `Regex::new` made of `source`.
#[derive(Debug)]
pub struct CompiledRegex {
    source: String,
    compiled: Regex,
}

impl View for CompiledRegex {
    type V = Seq<char>;

    /// The source text.
    closed spec fn view(&self) -> Seq<char> {
        self.source@
    }
}

impl Clone for InvalidRegex {
    fn clone(&self) -> (r: Self)
        ensures
            r == *self,
    {
        InvalidRegex { source: self.source.clone(), reason: self.reason.clone() }
    }
}

impl PartialEq for CompiledRegex {
    /// Two expressions are equal where their source texts are.
    fn eq(&self, other: &Self) -> (r: bool) {
        self.source == other.source
    }
}

impl PartialEqSpecImpl for CompiledRegex {
    open spec fn obeys_eq_spec() -> bool {
        true
    }

    open spec fn eq_spec(&self, other: &Self) -> bool {
        self@ == other@
    }
}

impl Eq for CompiledRegex {
}

impl Clone for CompiledRegex {
    fn clone(&self) -> (r: Self)
        ensures
            r@ == self@,
    {
        CompiledRegex { source: self.source.clone(), compiled: self.compiled.clone() }
    }
}

/// `Regex::new`: compiles `source` with the default options. Where the crate
/// refuses it, its error comes back as the text that the error displays.
/// Nothing is claimed of the outcome.
#[verifier::external_body]
fn compile(source: &str) -> (outcome: Result<Regex, String>) {
    Regex::new(source).map_err(|reason| reason.to_string())
}

impl CompiledRegex {
    /// Compiles `source`. Whether it compiles is for the `regex` crate to say;
    /// what comes back, an expression or a refusal, holds `source`.
    pub fn new(source: &str) -> (r: Result<CompiledRegex, InvalidRegex>)
        ensures
            r matches Ok(regex) ==> regex@ == source@,
            r matches Err(refused) ==> refused.source@ == source@,
    {
        match compile(source) {
            Ok(compiled) => Ok(CompiledRegex { source: source.to_owned(), compiled }),
            Err(reason) => Err(InvalidRegex { source: source.to_owned(), reason }),
        }
    }

    /// The source text of the expression.
    pub fn as_str(&self) -> (s: &str)
        ensures
            s@ == self@,
    {
        self.source.as_str()
    }

    /// `Regex::captures` on `haystack`, each group of the match handed out as
    /// the text it matched (`Match::as_str`). The contract names the result
    /// after the source text: `self.compiled` is `Regex::new` of that text, and
    /// a search depends on nothing but the expression and the haystack.
    #[verifier::external_body]
    pub(crate) fn captures(&self, haystack: &str) -> (r: Captures)
        ensures
            r.deep_view() == regex_captures(self@, haystack@),
    {
        self.compiled.captures(haystack).map(
            |found| found.iter().map(|group| group.map(|m| m.as_str().to_owned())).collect(),
        )
    }
}

} // verus!
