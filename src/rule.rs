//! The rule language of redirect records.
//!
//! A record's text is split on whitespace. `rewrite <pattern> <replacement>
//! [status]` substitutes into the request path; `return <url...>` names the
//! target directly; anything else is itself the target. A malformed rule
//! never fails: it falls back to a literal target.
use vstd::prelude::*;

use crate::status::{match_status, status_of_token, Status};
use crate::text::{join_tokens, join_with, split_tokens, text_eq, tokens, views};

verus! {

/// Whether `regex::Regex::new` accepts the pattern.
pub uninterp spec fn regex_compiles(pattern: Seq<char>) -> bool;

/// What `regex::Regex::replace` returns for a compiled pattern: the haystack
/// with its leftmost match replaced by the expanded replacement template.
pub uninterp spec fn regex_replace(
    pattern: Seq<char>,
    haystack: Seq<char>,
    replacement: Seq<char>,
) -> Seq<char>;

#[verifier::external_type_specification]
#[verifier::external_body]
pub struct ExRegex(regex::Regex);

/// A compiled regular expression together with its source text.
#[derive(Debug)]
pub struct Pattern {
    source: String,
    re: regex::Regex,
}

impl View for Pattern {
    type V = Seq<char>;

    closed spec fn view(&self) -> Seq<char> {
        self.source@
    }
}

/// Relies on `regex::Regex::new`: it returns `Ok` exactly for the patterns
/// that compile. The source kept beside the regex is the pattern itself.
#[verifier::external_body]
fn compile(pattern: &str) -> (r: Option<Pattern>)
    ensures
        r is Some <==> regex_compiles(pattern@),
        r matches Some(p) ==> p@ == pattern@,
{
    match regex::Regex::new(pattern) {
        Ok(re) => Some(Pattern { source: pattern.to_string(), re }),
        Err(_) => None,
    }
}

/// Relies on `regex::Regex::replace`: a single leftmost substitution, with
/// capture references such as `$1` expanded in the replacement.
#[verifier::external_body]
fn replace_first(p: &Pattern, haystack: &str, replacement: &str) -> (r: String)
    ensures
        r@ == regex_replace(p@, haystack@, replacement@),
{
    p.re.replace(haystack, replacement).into_owned()
}

/// A parsed rule, as values.
pub enum RuleView {
    Literal(Seq<char>),
    Rewrite { pattern: Seq<char>, replacement: Seq<char>, status: Status },
    Return(Seq<char>),
}

/// A parsed redirect rule.
#[derive(Debug)]
pub enum Rule {
    /// The target itself, sent with "moved permanently".
    Literal(String),
    /// A substitution into the request path.
    Rewrite { pattern: Pattern, replacement: String, status: Status },
    /// The target given after the `return` verb, sent with "moved permanently".
    Return(String),
}

impl View for Rule {
    type V = RuleView;

    open spec fn view(&self) -> RuleView {
        match self {
            Rule::Literal(u) => RuleView::Literal(u@),
            Rule::Rewrite { pattern, replacement, status } => RuleView::Rewrite {
                pattern: pattern@,
                replacement: replacement@,
                status: *status,
            },
            Rule::Return(u) => RuleView::Return(u@),
        }
    }
}

/// The rule that the tokens of a `rewrite` record stand for.
pub open spec fn rewrite_rule_of(t: Seq<Seq<char>>) -> RuleView {
    if t.len() < 3 || t.len() > 4 || !regex_compiles(t[1]) {
        RuleView::Literal(join_with(t, ' '))
    } else {
        RuleView::Rewrite {
            pattern: t[1],
            replacement: t[2],
            status: if t.len() == 4 {
                status_of_token(t[3])
            } else {
                Status::MovedPermanently
            },
        }
    }
}

/// The rule that a record's text stands for.
pub open spec fn rule_of(line: Seq<char>) -> RuleView {
    let t = tokens(line);
    if t.len() == 0 {
        RuleView::Literal(line)
    } else if t[0] == "rewrite"@ {
        rewrite_rule_of(t)
    } else if t[0] == "return"@ {
        RuleView::Return(join_with(t.subrange(1, t.len() as int), ' '))
    } else {
        RuleView::Literal(line)
    }
}

/// The target and status that a rule gives for a request path.
pub open spec fn target_of(r: RuleView, path: Seq<char>) -> (Seq<char>, Status) {
    match r {
        RuleView::Literal(u) => (u, Status::MovedPermanently),
        RuleView::Rewrite { pattern, replacement, status } => (
            regex_replace(pattern, path, replacement),
            status,
        ),
        RuleView::Return(u) => (u, Status::MovedPermanently),
    }
}

/// The target and status that a record's text gives for a request path.
pub open spec fn location(path: Seq<char>, line: Seq<char>) -> (Seq<char>, Status) {
    target_of(rule_of(line), path)
}

/// Builds the rule of a record whose first token is `rewrite`.
pub fn parse_rewrite(parts: &Vec<String>) -> (r: Rule)
    ensures
        r@ == rewrite_rule_of(views(parts@)),
{
    let n = parts.len();
    assert(views(parts@).subrange(0, n as int) =~= views(parts@));
    if n < 3 || n > 4 {
        return Rule::Literal(join_tokens(parts, 0));
    }
    match compile(parts[1].as_str()) {
        None => Rule::Literal(join_tokens(parts, 0)),
        Some(pattern) => {
            let status = if n == 4 {
                match_status(parts[3].as_str())
            } else {
                Status::MovedPermanently
            };
            Rule::Rewrite { pattern, replacement: parts[2].clone(), status }
        },
    }
}

/// Parses a record's text into a rule.
pub fn parse_rule(line: &str) -> (r: Rule)
    ensures
        r@ == rule_of(line@),
{
    let parts = split_tokens(line);
    if parts.len() == 0 {
        Rule::Literal(line.to_owned())
    } else if text_eq(parts[0].as_str(), "rewrite") {
        parse_rewrite(&parts)
    } else if text_eq(parts[0].as_str(), "return") {
        Rule::Return(join_tokens(&parts, 1))
    } else {
        Rule::Literal(line.to_owned())
    }
}

impl Rule {
    /// The target and status for a request path.
    pub fn target(&self, path: &str) -> (r: (String, Status))
        ensures
            (r.0@, r.1) == target_of(self@, path@),
    {
        match self {
            Rule::Literal(u) => (u.clone(), Status::MovedPermanently),
            Rule::Rewrite { pattern, replacement, status } => (
                replace_first(pattern, path, replacement.as_str()),
                *status,
            ),
            Rule::Return(u) => (u.clone(), Status::MovedPermanently),
        }
    }
}

/// The target and status that a record's text gives for a request path.
pub fn get_location_url(path: &str, line: &str) -> (r: (String, Status))
    ensures
        (r.0@, r.1) == location(path@, line@),
{
    parse_rule(line).target(path)
}

/// Text whose first token is neither `rewrite` nor `return` is itself the
/// target, sent with "moved permanently".
pub proof fn lemma_unrecognized_verb_is_literal(path: Seq<char>, line: Seq<char>)
    requires
        tokens(line).len() == 0 || (tokens(line)[0] != "rewrite"@ && tokens(line)[0]
            != "return"@),
    ensures
        location(path, line) == (line, Status::MovedPermanently),
{
}

/// A `rewrite` rule with other than three or four tokens falls back to its
/// tokens joined with single spaces, sent with "moved permanently".
pub proof fn lemma_rewrite_wrong_arity_is_literal(path: Seq<char>, line: Seq<char>)
    requires
        tokens(line).len() > 0,
        tokens(line)[0] == "rewrite"@,
        tokens(line).len() < 3 || tokens(line).len() > 4,
    ensures
        location(path, line) == (join_with(tokens(line), ' '), Status::MovedPermanently),
{
}

/// A `rewrite` rule whose pattern does not compile falls back to its tokens
/// joined with single spaces, sent with "moved permanently".
pub proof fn lemma_rewrite_bad_pattern_is_literal(path: Seq<char>, line: Seq<char>)
    requires
        3 <= tokens(line).len() <= 4,
        tokens(line)[0] == "rewrite"@,
        !regex_compiles(tokens(line)[1]),
    ensures
        location(path, line) == (join_with(tokens(line), ' '), Status::MovedPermanently),
{
}

/// A well-formed `rewrite` rule substitutes its replacement into the request
/// path, with the status its fourth token names, or "moved permanently"
/// without one.
pub proof fn lemma_rewrite_substitutes(path: Seq<char>, line: Seq<char>)
    requires
        3 <= tokens(line).len() <= 4,
        tokens(line)[0] == "rewrite"@,
        regex_compiles(tokens(line)[1]),
    ensures
        location(path, line).0 == regex_replace(tokens(line)[1], path, tokens(line)[2]),
        tokens(line).len() == 4 ==> location(path, line).1 == status_of_token(tokens(line)[3]),
        tokens(line).len() == 3 ==> location(path, line).1 == Status::MovedPermanently,
{
}

/// A `return` rule sends the tokens after the verb, joined with single
/// spaces, with "moved permanently" whatever they say.
pub proof fn lemma_return_is_moved_permanently(path: Seq<char>, line: Seq<char>)
    requires
        tokens(line).len() > 0,
        tokens(line)[0] == "return"@,
    ensures
        location(path, line) == (
            join_with(tokens(line).subrange(1, tokens(line).len() as int), ' '),
            Status::MovedPermanently,
        ),
{
    reveal_strlit("return");
    reveal_strlit("rewrite");
    assert("return"@[2] != "rewrite"@[2]);
}

} // verus!
