//! Glob patterns and sets of them. Everything here is stated of the
//! `globset` crate and taken on trust.

use vstd::prelude::*;
use globset::{Glob, GlobSet, GlobSetBuilder};

verus! {

/// `globset::Glob`: one parsed glob pattern.
#[verifier::external_type_specification]
#[verifier::external_body]
pub struct ExGlob(globset::Glob);

/// `globset::GlobSetBuilder`: the patterns that a set is to be built from.
#[verifier::external_type_specification]
#[verifier::external_body]
pub struct ExGlobSetBuilder(globset::GlobSetBuilder);

/// `globset::GlobSet`: a set of glob patterns that are matched at once.
#[verifier::external_type_specification]
#[verifier::external_body]
pub struct ExGlobSet(globset::GlobSet);

/// The pattern text that a glob was made from.
pub uninterp spec fn glob_pattern(glob: Glob) -> Seq<char>;

/// The patterns added to a builder so far, in order.
pub uninterp spec fn builder_patterns(builder: GlobSetBuilder) -> Seq<Seq<char>>;

/// The patterns that a set was built from, in order.
pub uninterp spec fn glob_set_patterns(set: GlobSet) -> Seq<Seq<char>>;

/// Whether `globset` accepts a text as a glob pattern.
pub uninterp spec fn glob_is_valid(pattern: Seq<char>) -> bool;

/// Whether `globset` can build a set from these patterns.
pub uninterp spec fn glob_set_builds(patterns: Seq<Seq<char>>) -> bool;

/// Whether a set built from these patterns matches a path.
pub uninterp spec fn glob_set_matches(patterns: Seq<Seq<char>>, path: Seq<char>) -> bool;

/// `Glob::new`: parses a pattern with the default options. The glob
/// remembers the text it was made from.
#[verifier::external_body]
pub(crate) fn glob_new(pattern: &str) -> (glob: Option<Glob>)
    ensures
        glob.is_some() == glob_is_valid(pattern@),
        glob.is_some() ==> glob_pattern(glob.unwrap()) == pattern@,
{
    match Glob::new(pattern) {
        Ok(glob) => Some(glob),
        Err(_) => None,
    }
}

/// `GlobSetBuilder::new`: a builder without patterns.
#[verifier::external_body]
pub(crate) fn builder_new() -> (builder: GlobSetBuilder)
    ensures
        builder_patterns(builder) == Seq::<Seq<char>>::empty(),
{
    GlobSetBuilder::new()
}

/// `GlobSetBuilder::add`: appends one pattern.
#[verifier::external_body]
pub(crate) fn builder_add(builder: &mut GlobSetBuilder, glob: Glob)
    ensures
        builder_patterns(*final(builder)) == builder_patterns(*old(builder)).push(glob_pattern(glob)),
{
    builder.add(glob);
}

/// `GlobSetBuilder::build`: a set of the patterns added so far, where
/// one can be built.
#[verifier::external_body]
pub(crate) fn builder_build(builder: &GlobSetBuilder) -> (set: Option<GlobSet>)
    ensures
        set.is_some() == glob_set_builds(builder_patterns(*builder)),
        set.is_some() ==> glob_set_patterns(set.unwrap()) == builder_patterns(*builder),
{
    match builder.build() {
        Ok(set) => Some(set),
        Err(_) => None,
    }
}

/// `GlobSet::is_match`: whether any pattern of the set matches the path.
#[verifier::external_body]
pub(crate) fn glob_set_is_match(set: &GlobSet, path: &str) -> (matched: bool)
    ensures
        matched == glob_set_matches(glob_set_patterns(*set), path@),
{
    set.is_match(path)
}

} // verus!
