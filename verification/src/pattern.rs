//! Address patterns: `*`-wildcard patterns over actor names, compiled into
//! anchored regular expressions.
//!
//! A pattern is turned into a regular expression by anchoring it (`^...$`)
//! and replacing every `*` by `(\S+)`; every other character keeps its regular
//! expression meaning. The regular-expression engine itself is the `regex`
//! crate, reached through the two trusted items below.
use vstd::prelude::*;

verus! {

/// A compiled regular expression of the `regex` crate (carried, never inspected).
#[verifier::external_type_specification]
#[verifier::external_body]
pub struct ExRegex(regex::Regex);

/// Whether `regex::Regex::new` accepts `pattern`.
pub uninterp spec fn regex_compiles(pattern: Seq<char>) -> bool;

/// Whether the regex compiled from `pattern` finds a match in `haystack`
/// (`regex::Regex::is_match`).
pub uninterp spec fn regex_is_match(pattern: Seq<char>, haystack: Seq<char>) -> bool;

/// The text that replaces each `*` of a wildcard pattern.
pub open spec fn star_expansion() -> Seq<char> {
    seq!['(', '\\', 'S', '+', ')']
}

/// A wildcard pattern with every `*` replaced by `(\S+)`.
pub open spec fn expand_wildcards(p: Seq<char>) -> Seq<char>
    decreases p.len(),
{
    if p.len() == 0 {
        Seq::empty()
    } else {
        let prefix = expand_wildcards(p.drop_last());
        if p.last() == '*' {
            prefix + star_expansion()
        } else {
            prefix.push(p.last())
        }
    }
}

/// Expansion rewrites `*` and nothing else: a pattern without `*` is copied
/// unchanged, every character other than `*` stands for itself, and the
/// expansion of two pieces one after the other is the expansion of each,
/// one after the other.
pub proof fn lemma_expand_rewrites_only_stars(p: Seq<char>, q: Seq<char>, c: char)
    ensures
        !p.contains('*') ==> expand_wildcards(p) == p,
        c != '*' ==> expand_wildcards(p.push(c)) == expand_wildcards(p).push(c),
        expand_wildcards(p.push('*')) == expand_wildcards(p) + seq!['(', '\\', 'S', '+', ')'],
        anchored_regex(p) == seq!['^'] + expand_wildcards(p) + seq!['$'],
        expand_wildcards(p + q) == expand_wildcards(p) + expand_wildcards(q),
    decreases p.len() + q.len(),
{
    assert(p.push(c).drop_last() =~= p);
    assert(p.push('*').drop_last() =~= p);
    if p.len() > 0 {
        let rest = p.drop_last();
        lemma_expand_rewrites_only_stars(rest, Seq::empty(), c);
        if !p.contains('*') {
            assert(!rest.contains('*')) by {
                if rest.contains('*') {
                    let j = choose|j: int| 0 <= j < rest.len() && rest[j] == '*';
                    assert(p[j] == '*');
                }
            }
            assert(p.last() != '*') by {
                assert(p[p.len() - 1] == p.last());
            }
            assert(rest.push(p.last()) =~= p);
        }
    } else {
        assert(p =~= Seq::<char>::empty());
    }
    if q.len() > 0 {
        let qr = q.drop_last();
        lemma_expand_rewrites_only_stars(p, qr, c);
        assert((p + q).drop_last() =~= p + qr);
        assert((p + q).last() == q.last());
        assert(expand_wildcards(p + q) =~= expand_wildcards(p) + expand_wildcards(q));
    } else {
        assert(p + q =~= p);
        assert(expand_wildcards(q) =~= Seq::<char>::empty());
    }
}

/// The anchored regular expression that a wildcard pattern stands for.
pub open spec fn anchored_regex(p: Seq<char>) -> Seq<char> {
    seq!['^'] + expand_wildcards(p) + seq!['$']
}

/// Whether the wildcard pattern `p` compiles.
pub open spec fn wildcard_compiles(p: Seq<char>) -> bool {
    regex_compiles(anchored_regex(p))
}

/// Whether the actor name `name` matches the wildcard pattern `p`.
pub open spec fn wildcard_matches(p: Seq<char>, name: Seq<char>) -> bool {
    regex_is_match(anchored_regex(p), name)
}

/// Builds the anchored regular expression of a wildcard pattern:
/// `^` + the pattern with each `*` replaced by `(\S+)` + `$`.
pub fn wildcard_to_regex(pattern: &str) -> (r: String)
    ensures
        r@ == anchored_regex(pattern@),
        !pattern@.contains('*') ==> r@ == seq!['^'] + pattern@ + seq!['$'],
{
    proof {
        lemma_expand_rewrites_only_stars(pattern@, Seq::empty(), ' ');
    }
    proof {
        reveal_strlit("^");
        reveal_strlit("$");
        reveal_strlit("(\\S+)");
    }
    let mut out = String::from_str("^");
    let n = pattern.unicode_len();
    let mut i: usize = 0;
    assert(pattern@.take(0) =~= Seq::<char>::empty());
    while i < n
        invariant
            n == pattern@.len(),
            i <= n,
            out@ == seq!['^'] + expand_wildcards(pattern@.take(i as int)),
            "(\\S+)"@ == star_expansion(),
        decreases n - i,
    {
        let c = pattern.get_char(i);
        let piece = pattern.substring_char(i, i + 1);
        assert(pattern@.take(i + 1).drop_last() =~= pattern@.take(i as int));
        assert(pattern@.take(i + 1).last() == c);
        if c == '*' {
            out.append("(\\S+)");
            assert(out@ =~= seq!['^'] + expand_wildcards(pattern@.take(i + 1)));
        } else {
            assert(piece@ =~= seq![c]);
            out.append(piece);
            assert(out@ =~= seq!['^'] + expand_wildcards(pattern@.take(i + 1)));
        }
        i = i + 1;
    }
    assert(pattern@.take(n as int) =~= pattern@);
    out.append("$");
    out
}

/// `regex::Regex::new`: compiles `pattern` and keeps its text beside the
/// compiled regex. The contract states exactly when the crate accepts the
/// pattern (by name) and that the result holds the regex of `pattern` itself;
/// which error it reports otherwise is left unsaid.
#[verifier::external_body]
fn regex_new(pattern: String) -> (r: Result<AddressPattern, regex::Error>)
    ensures
        r.is_ok() == regex_compiles(pattern@),
        r matches Ok(p) ==> p.source() == pattern@,
{
    match regex::Regex::new(&pattern) {
        Ok(compiled) => Ok(AddressPattern { source: pattern, compiled }),
        Err(e) => Err(e),
    }
}

/// `regex::Regex::is_match` on the regex held by `pattern`, which `regex_new`
/// compiled from `pattern`'s source text: the result is the named match
/// relation of that source text and `haystack`.
#[verifier::external_body]
fn regex_find_match(pattern: &AddressPattern, haystack: &str) -> (b: bool)
    ensures
        b == regex_is_match(pattern.source(), haystack@),
{
    pattern.compiled.is_match(haystack)
}

/// A compiled wildcard pattern: the text of an anchored regular expression
/// and the regex compiled from that very text. Only `regex_new` builds one.
pub struct AddressPattern {
    source: String,
    compiled: regex::Regex,
}

impl AddressPattern {
    /// The anchored regular expression this pattern was compiled from.
    pub closed spec fn source(&self) -> Seq<char> {
        self.source@
    }

    /// Compiles a `*`-wildcard pattern. Fails exactly when the regex engine
    /// rejects the anchored regular expression.
    pub fn compile(wildcard: &str) -> (r: Result<AddressPattern, regex::Error>)
        ensures
            r.is_ok() == wildcard_compiles(wildcard@),
            r matches Ok(p) ==> p.source() == anchored_regex(wildcard@),
    {
        regex_new(wildcard_to_regex(wildcard))
    }

    /// Whether `name` matches this pattern.
    pub fn matches(&self, name: &str) -> (b: bool)
        ensures
            b == regex_is_match(self.source(), name@),
    {
        regex_find_match(self, name)
    }
}

} // verus!
