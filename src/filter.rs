//! Selection of containers by a regular expression on their names, with an
//! optional leading `!` that inverts the selection.
use vstd::prelude::*;
use regex::Regex;

verus! {

#[verifier::external_type_specification]
#[verifier::external_body]
pub struct ExRegex(Regex);

#[verifier::external_type_specification]
#[verifier::external_body]
pub struct ExRegexError(regex::Error);

/// Whether `Regex::new` accepts `pattern`.
pub uninterp spec fn regex_compiles(pattern: Seq<char>) -> bool;

/// The message of the error that `Regex::new` gives for `pattern`.
pub uninterp spec fn regex_error_text(pattern: Seq<char>) -> Seq<char>;

/// What the `Display` of a regex error writes.
pub uninterp spec fn error_display(e: regex::Error) -> Seq<char>;

/// Whether the regex that `Regex::new` builds from `pattern` matches
/// anywhere in `text`.
pub uninterp spec fn regex_finds(pattern: Seq<char>, text: Seq<char>) -> bool;

/// The pattern a compiled regex was built from, as `Regex::as_str` returns it.
pub uninterp spec fn regex_source(re: Regex) -> Seq<char>;

/// Whether a regex was built by `Regex::new`, with its default options (a
/// `RegexBuilder` can build regexes that match otherwise for the same pattern).
pub uninterp spec fn built_by_regex_new(re: Regex) -> bool;

/// Relies on `regex::Regex::new`: it succeeds exactly on the patterns it
/// accepts and fails with an error determined by the pattern (both depend
/// on the pattern alone under the default options and limits); the regex
/// keeps the pattern it was built from.
#[verifier::external_body]
fn compile_regex(pattern: &str) -> (r: Result<Regex, regex::Error>)
    ensures
        r is Ok == regex_compiles(pattern@),
        r matches Ok(re) ==> regex_source(re) == pattern@ && built_by_regex_new(re),
        r matches Err(e) ==> error_display(e) == regex_error_text(pattern@),
{
    Regex::new(pattern)
}

/// Relies on `regex::Regex::is_match`: whether there is a match anywhere in
/// `text`; for a regex built by `Regex::new` this depends on its pattern alone.
#[verifier::external_body]
fn regex_is_match(re: &Regex, text: &str) -> (r: bool)
    requires
        built_by_regex_new(*re),
    ensures
        r == regex_finds(regex_source(*re), text@),
{
    re.is_match(text)
}

/// Relies on the `Display` of `regex::Error` for a readable message.
#[verifier::external_body]
fn regex_error_message(e: &regex::Error) -> (r: String)
    ensures
        r@ == error_display(*e),
{
    e.to_string()
}

/// Relies on `regex::Regex::as_str`: the pattern the regex was built from.
pub assume_specification[ Regex::as_str ](re: &Regex) -> (r: &str)
    ensures
        r@ == regex_source(*re),
;

/// Relies on the derived `Clone` of `regex::Regex`: the copy keeps the
/// pattern and the compiled matcher, so also how it was built.
pub assume_specification[ <Regex as Clone>::clone ](re: &Regex) -> (r: Regex)
    ensures
        regex_source(r) == regex_source(*re),
        built_by_regex_new(r) == built_by_regex_new(*re),
;

/// The pattern and the invert flag that a filter string stands for: a
/// leading `!` is removed and inverts the match.
pub open spec fn split_negation(s: Seq<char>) -> (Seq<char>, bool) {
    if s.len() > 0 && s[0] == '!' {
        (s.drop_first(), true)
    } else {
        (s, false)
    }
}

/// Whether a filter on `pattern`, inverted or not, selects `text`.
pub open spec fn filter_selects(pattern: Seq<char>, invert: bool, text: Seq<char>) -> bool {
    invert != regex_finds(pattern, text)
}

/// Why a filter string was refused.
pub enum FilterError {
    /// The pattern is not a regular expression that compiles; the message says why.
    InvalidPattern(String),
}

impl FilterError {
    /// The message that describes the error.
    pub fn message(&self) -> (r: String)
        ensures
            r@ == match self {
                FilterError::InvalidPattern(m) => m@,
            },
    {
        match self {
            FilterError::InvalidPattern(m) => m.clone(),
        }
    }
}

/// A regular expression, compiled by `Regex::new`, and a flag that inverts
/// its result. Filters are made by reading a filter string (`parse`).
#[derive(Debug)]
pub struct EnvVarsFilter {
    regex: Regex,
    invert: bool,
}

impl EnvVarsFilter {
    #[verifier::type_invariant]
    spec fn compiled_by_new(&self) -> bool {
        built_by_regex_new(self.regex)
    }

    /// The pattern the filter matches with.
    pub closed spec fn pattern_view(&self) -> Seq<char> {
        regex_source(self.regex)
    }

    /// Whether the match is inverted.
    pub closed spec fn inverted(&self) -> bool {
        self.invert
    }

    /// Whether this filter selects `text`.
    pub open spec fn selects(&self, text: Seq<char>) -> bool {
        filter_selects(self.pattern_view(), self.inverted(), text)
    }

    fn new(regex: Regex, invert: bool) -> (r: Self)
        requires
            built_by_regex_new(regex),
        ensures
            r.pattern_view() == regex_source(regex),
            r.inverted() == invert,
    {
        EnvVarsFilter { regex, invert }
    }

    /// Whether the regex matches `text` anywhere, flipped when inverted.
    pub fn matches(&self, text: &str) -> (r: bool)
        ensures
            r == self.selects(text@),
    {
        proof {
            use_type_invariant(self);
        }
        let found = regex_is_match(&self.regex, text);
        if self.invert {
            !found
        } else {
            found
        }
    }

    /// The pattern the filter matches with, without any leading `!`.
    pub fn pattern(&self) -> (r: &str)
        ensures
            r@ == self.pattern_view(),
    {
        self.regex.as_str()
    }

    /// Whether the match is inverted (the filter string began with `!`).
    pub fn is_inverted(&self) -> (r: bool)
        ensures
            r == self.inverted(),
    {
        self.invert
    }

    /// Reads a filter string: a leading `!` is dropped and inverts the
    /// match; the rest must compile as a regular expression, else the error
    /// carries the regex parser's message.
    pub fn parse(s: &str) -> (r: Result<EnvVarsFilter, FilterError>)
        ensures
            r is Ok == regex_compiles(split_negation(s@).0),
            r matches Ok(f) ==> f.pattern_view() == split_negation(s@).0 && f.inverted() == split_negation(s@).1,
            r matches Err(FilterError::InvalidPattern(m)) ==> m@ == regex_error_text(split_negation(s@).0),
    {
        let n = s.unicode_len();
        let negated = n > 0 && s.get_char(0) == '!';
        let pattern = if negated {
            s.substring_char(1, n)
        } else {
            s
        };
        proof {
            if negated {
                assert(pattern@ =~= s@.drop_first());
            }
        }
        match compile_regex(pattern) {
            Ok(regex) => Ok(EnvVarsFilter::new(regex, negated)),
            Err(e) => Err(FilterError::InvalidPattern(regex_error_message(&e))),
        }
    }
}

impl Clone for EnvVarsFilter {
    fn clone(&self) -> (r: Self)
        ensures
            r.pattern_view() == self.pattern_view(),
            r.inverted() == self.inverted(),
    {
        proof {
            use_type_invariant(self);
        }
        EnvVarsFilter { regex: self.regex.clone(), invert: self.invert }
    }
}

impl std::str::FromStr for EnvVarsFilter {
    type Err = String;

    fn from_str(s: &str) -> (r: Result<EnvVarsFilter, String>)
        ensures
            r is Ok == regex_compiles(split_negation(s@).0),
            r matches Ok(f) ==> f.pattern_view() == split_negation(s@).0 && f.inverted() == split_negation(s@).1,
            r matches Err(m) ==> m@ == regex_error_text(split_negation(s@).0),
    {
        match EnvVarsFilter::parse(s) {
            Ok(f) => Ok(f),
            Err(e) => Err(e.message()),
        }
    }
}

/// Putting `!` before a pattern inverts the filter: the filter read from
/// `!p` selects exactly the names that the filter read from `p` does not.
/// A pattern that itself starts with `!` is already inverted, and `!!p`
/// reads as the inverted pattern `!p`, so such patterns are left out.
pub proof fn lemma_negation_inverts(p: Seq<char>, s: Seq<char>)
    requires
        p.len() == 0 || p[0] != '!',
    ensures
        split_negation(seq!['!'] + p) == (p, true),
        split_negation(p) == (p, false),
        filter_selects(p, true, s) == !filter_selects(p, false, s),
{
    assert((seq!['!'] + p).drop_first() =~= p);
}

} // verus!
