//! Glob patterns, compiled and matched by the `globset` crate.
use globset::{Error as GlobError, Glob, GlobSet, GlobSetBuilder};
use vstd::prelude::*;

verus! {

#[verifier::external_type_specification]
#[verifier::external_body]
pub struct ExGlob(Glob);

#[verifier::external_type_specification]
#[verifier::external_body]
pub struct ExGlobSet(GlobSet);

#[verifier::external_type_specification]
#[verifier::external_body]
pub struct ExGlobSetBuilder(GlobSetBuilder);

#[verifier::external_type_specification]
#[verifier::external_body]
pub struct ExGlobError(GlobError);

/// Whether `pattern` is well-formed glob syntax (balanced classes and
/// alternates, no dangling escape).
pub uninterp spec fn glob_syntax_ok(pattern: Seq<char>) -> bool;

/// Whether the glob `pattern`, with default options, matches `path`.
pub uninterp spec fn glob_matches(pattern: Seq<char>, path: Seq<char>) -> bool;

/// The pattern text that a compiled glob was built from.
pub uninterp spec fn glob_text(g: Glob) -> Seq<char>;

/// The pattern texts added to a builder, in order of addition.
pub uninterp spec fn builder_patterns(b: GlobSetBuilder) -> Seq<Seq<char>>;

/// The pattern texts that a compiled set was built from.
pub uninterp spec fn set_patterns(s: GlobSet) -> Seq<Seq<char>>;

/// Whether well-formed patterns, taken together, compile into one set.
pub uninterp spec fn set_builds(patterns: Seq<Seq<char>>) -> bool;

/// A glob parsed with default options. Only [`parse_glob`] makes one.
pub struct Pattern {
    pub(crate) glob: Glob,
}

/// Patterns gathered to be compiled together.
pub struct PatternBuilder {
    pub(crate) builder: GlobSetBuilder,
}

/// A compiled set of default-option globs, matched in one pass.
pub struct PatternSet {
    pub(crate) set: GlobSet,
}

impl Pattern {
    /// The text the pattern was parsed from.
    pub closed spec fn text(&self) -> Seq<char> {
        glob_text(self.glob)
    }
}

impl PatternBuilder {
    /// The texts of the patterns added so far, in order.
    pub closed spec fn patterns(&self) -> Seq<Seq<char>> {
        builder_patterns(self.builder)
    }
}

impl PatternSet {
    /// The texts of the patterns the set was compiled from.
    pub closed spec fn patterns(&self) -> Seq<Seq<char>> {
        set_patterns(self.set)
    }
}

/// A path matches a list of patterns when at least one of them matches it.
pub open spec fn matches_any(patterns: Seq<Seq<char>>, path: Seq<char>) -> bool {
    exists|i: int| 0 <= i < patterns.len() && glob_matches(#[trigger] patterns[i], path)
}

/// Relies on `Glob::new`: it parses `pattern` with default options, fails
/// exactly on malformed syntax, and keeps the text (`Glob::glob`).
#[verifier::external_body]
pub(crate) fn parse_glob(pattern: &str) -> (r: Result<Pattern, GlobError>)
    ensures
        r is Ok <==> glob_syntax_ok(pattern@),
        r matches Ok(p) ==> glob_text(p.glob) == pattern@,
        r matches Ok(p) ==> p.text() == pattern@,
{
    match Glob::new(pattern) {
        Ok(glob) => Ok(Pattern { glob }),
        Err(e) => Err(e),
    }
}

/// Relies on `GlobSetBuilder::new`: a builder that holds no pattern.
#[verifier::external_body]
pub(crate) fn new_builder() -> (r: PatternBuilder)
    ensures
        builder_patterns(r.builder) == Seq::<Seq<char>>::empty(),
        r.patterns() == Seq::<Seq<char>>::empty(),
{
    PatternBuilder { builder: GlobSetBuilder::new() }
}

/// Relies on `GlobSetBuilder::add`: appends the glob to the builder's list.
#[verifier::external_body]
pub(crate) fn builder_add(b: &mut PatternBuilder, p: Pattern)
    ensures
        builder_patterns(final(b).builder) == builder_patterns(old(b).builder).push(
            glob_text(p.glob),
        ),
        final(b).patterns() == old(b).patterns().push(p.text()),
{
    b.builder.add(p.glob);
}

/// Relies on `GlobSetBuilder::build`: whether it succeeds depends on the
/// globs added, which all carry default options, so on their texts alone;
/// on success the set holds those globs.
#[verifier::external_body]
pub(crate) fn builder_build(b: &PatternBuilder) -> (r: Result<PatternSet, GlobError>)
    ensures
        r is Ok <==> set_builds(builder_patterns(b.builder)),
        r matches Ok(s) ==> set_patterns(s.set) == builder_patterns(b.builder),
        r is Ok <==> set_builds(b.patterns()),
        r matches Ok(s) ==> s.patterns() == b.patterns(),
{
    match b.builder.build() {
        Ok(set) => Ok(PatternSet { set }),
        Err(e) => Err(e),
    }
}

/// Relies on `GlobSet::is_match`: true if any glob of the set matches `path`.
/// Every glob in a [`PatternSet`] has default options.
#[verifier::external_body]
pub(crate) fn set_is_match(s: &PatternSet, path: &str) -> (r: bool)
    ensures
        r == (exists|i: int|
            0 <= i < set_patterns(s.set).len() && glob_matches(
                #[trigger] set_patterns(s.set)[i],
                path@,
            )),
        r == matches_any(s.patterns(), path@),
{
    s.set.is_match(path)
}

} // verus!
