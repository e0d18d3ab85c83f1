//! Task-name filters: a user-supplied pattern is compiled into a regular
//! expression plus an invert flag. A pattern starting with `!` inverts the
//! match; a pattern not starting with `^` is matched anywhere in the name.
//!
//! The regular-expression engine itself is the `regex` crate; what it
//! decides is named by uninterpreted spec functions, and everything around
//! it (stripping, anchoring, inversion, the AND over a filter list) is
//! verified against those names.

use vstd::prelude::*;
use vstd::string::StrSliceExecFns;
use vstd::string::StringExecFns;

use crate::strutil::starts_with_char;
use crate::Error;

verus! {

#[verifier::external_type_specification]
#[verifier::external_body]
pub struct ExRegex(regex::Regex);

/// The pattern a compiled regular expression was built from (what
/// `regex::Regex::as_str` hands back).
pub uninterp spec fn regex_source(re: regex::Regex) -> Seq<char>;

/// Whether `regex::Regex::new` accepts `pattern` under its default
/// configuration.
pub uninterp spec fn regex_valid(pattern: Seq<char>) -> bool;

/// What `regex::Regex::is_match` decides for a compiled `pattern` against
/// `text`; a function of the two strings alone.
pub uninterp spec fn regex_match(pattern: Seq<char>, text: Seq<char>) -> bool;

/// Relies on regex::Regex::new: it returns Ok exactly when the pattern
/// compiles under the default configuration, and the compiled expression
/// keeps its source pattern.
#[verifier::external_body]
fn regex_new(pattern: &str) -> (r: Option<regex::Regex>)
    ensures
        r is Some <==> regex_valid(pattern@),
        r matches Some(re) ==> regex_source(re) == pattern@,
{
    regex::Regex::new(pattern).ok()
}

/// Relies on regex::Regex::is_match: the result depends on the compiled
/// pattern and the haystack alone.
#[verifier::external_body]
fn regex_is_match(re: &regex::Regex, haystack: &str) -> (r: bool)
    ensures
        r == regex_match(regex_source(*re), haystack@),
{
    re.is_match(haystack)
}

/// A pattern starting with `!` asks for the match result to be inverted.
pub open spec fn pattern_inverted(p: Seq<char>) -> bool {
    p.len() > 0 && p[0] == '!'
}

/// The pattern with a leading `!` stripped, if it had one.
pub open spec fn pattern_body(p: Seq<char>) -> Seq<char> {
    if pattern_inverted(p) {
        p.skip(1)
    } else {
        p
    }
}

/// A body not anchored with `^` is wrapped so that it may match anywhere
/// in the name; an anchored body is kept as it is.
pub open spec fn anchored_contains(body: Seq<char>) -> Seq<char> {
    if body.len() > 0 && body[0] == '^' {
        body
    } else {
        "^.*(?:"@ + body + ")"@
    }
}

/// The regular expression actually compiled for a raw pattern `p`.
pub open spec fn effective_pattern(p: Seq<char>) -> Seq<char> {
    anchored_contains(pattern_body(p))
}

/// What evaluating a compiled pattern `p` against `name` yields: the raw
/// match of the effective expression, inverted when `p` started with `!`.
pub open spec fn spec_evaluate(p: Seq<char>, name: Seq<char>) -> bool {
    regex_match(effective_pattern(p), name) != pattern_inverted(p)
}

/// A compiled task-name filter: a regular expression and an invert flag.
pub struct TaskFilter {
    filter_re: regex::Regex,
    invert: bool,
}

impl TaskFilter {
    /// The pattern the inner regular expression was compiled from.
    pub closed spec fn re_source(self) -> Seq<char> {
        regex_source(self.filter_re)
    }

    /// Whether this filter inverts the raw match result.
    pub closed spec fn inverted(self) -> bool {
        self.invert
    }

    /// This filter is what compiling the raw pattern `p` produces.
    pub open spec fn is_compiled_from(self, p: Seq<char>) -> bool {
        self.re_source() == effective_pattern(p) && self.inverted() == pattern_inverted(p)
    }

    /// Whether this filter accepts `name`.
    pub open spec fn accepts(self, name: Seq<char>) -> bool {
        regex_match(self.re_source(), name) != self.inverted()
    }

    /// Compile a raw filter pattern: strip a leading `!` (recording the
    /// inversion), anchor an unanchored body, and hand the result to the
    /// regular-expression engine. Fails exactly when the effective
    /// expression is not valid regular-expression syntax.
    pub fn new(filter_str: &str) -> (r: Result<TaskFilter, Error>)
        ensures
            r is Ok <==> regex_valid(effective_pattern(filter_str@)),
            r matches Ok(f) ==> f.is_compiled_from(filter_str@),
            r matches Err(e) ==> e == Error::InvalidFilter,
    {
        let invert = starts_with_char(filter_str, '!');
        let n = filter_str.unicode_len();
        let body: String = if invert {
            let stripped = filter_str.substring_char(1, n);
            assert(stripped@ =~= pattern_body(filter_str@));
            stripped.to_owned()
        } else {
            filter_str.to_owned()
        };
        let anchored: String = if starts_with_char(body.as_str(), '^') {
            body
        } else {
            let mut wrapped = String::from_str("^.*(?:");
            wrapped.append(body.as_str());
            wrapped.append(")");
            wrapped
        };
        assert(anchored@ == effective_pattern(filter_str@));
        match regex_new(anchored.as_str()) {
            Some(filter_re) => Ok(TaskFilter { filter_re, invert }),
            None => Err(Error::InvalidFilter),
        }
    }

    /// Evaluate this filter against a task name: the raw regular-expression
    /// match, inverted when the filter asked for it.
    pub fn is_match(&self, name: &str) -> (r: bool)
        ensures
            r == self.accepts(name@),
    {
        let raw = regex_is_match(&self.filter_re, name);
        if self.invert {
            !raw
        } else {
            raw
        }
    }
}

/// A list of filters accepts a name when every filter in it does.
pub open spec fn all_accept(filters: Seq<TaskFilter>, name: Seq<char>) -> bool {
    forall|i: int| 0 <= i < filters.len() ==> filters[i].accepts(name)
}

/// Evaluate every filter in a list against `name`, AND-combined.
pub fn name_matches_filters(name: &str, task_filters: &Vec<TaskFilter>) -> (r: bool)
    ensures
        r == all_accept(task_filters@, name@),
{
    let mut i: usize = 0;
    while i < task_filters.len()
        invariant
            i <= task_filters@.len(),
            forall|k: int| 0 <= k < i ==> task_filters@[k].accepts(name@),
        decreases task_filters@.len() - i,
    {
        if !task_filters[i].is_match(name) {
            return false;
        }
        i += 1;
    }
    true
}

/// A filter compiled from `p` evaluates on every name exactly as the
/// pattern-level model `spec_evaluate` says.
pub proof fn lemma_compiled_evaluates(f: TaskFilter, p: Seq<char>, name: Seq<char>)
    requires
        f.is_compiled_from(p),
    ensures
        f.accepts(name) == spec_evaluate(p, name),
{
}

/// A pattern without a leading `!` evaluates exactly as the raw
/// regular-expression match of its anchored-contains form.
pub proof fn lemma_evaluate_uninverted(p: Seq<char>, name: Seq<char>)
    requires
        !pattern_inverted(p),
    ensures
        spec_evaluate(p, name) == regex_match(effective_pattern(p), name),
{
}

/// Prefixing `!` to a pattern that does not itself start with `!` keeps the
/// effective expression, and negates the evaluation on every name.
pub proof fn lemma_invert_negates(p: Seq<char>, name: Seq<char>)
    requires
        !pattern_inverted(p),
    ensures
        effective_pattern(seq!['!'] + p) == effective_pattern(p),
        spec_evaluate(seq!['!'] + p, name) == !spec_evaluate(p, name),
{
    let q = seq!['!'] + p;
    assert(q[0] == '!');
    assert(pattern_body(q) =~= p);
}

/// A two-filter list accepts a name exactly when both filters accept it.
pub proof fn lemma_pair_accepts(f1: TaskFilter, f2: TaskFilter, name: Seq<char>)
    ensures
        all_accept(seq![f1, f2], name) == (f1.accepts(name) && f2.accepts(name)),
{
    let fs = seq![f1, f2];
    assert(fs[0] == f1);
    assert(fs[1] == f2);
    if f1.accepts(name) && f2.accepts(name) {
        assert forall|i: int| 0 <= i < fs.len() implies fs[i].accepts(name) by {
            if i == 0 {
            } else {
                assert(i == 1);
            }
        }
    }
}

} // verus!
