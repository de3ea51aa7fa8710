//! Selection of repository files by accept and reject glob sets.
use vstd::prelude::*;
use crate::download::append_char;
use crate::text::chars_of;

verus! {

#[verifier::external_type_specification]
#[verifier::external_body]
pub struct ExGlob(globset::Glob);

#[verifier::external_type_specification]
#[verifier::external_body]
pub struct ExGlobSet(globset::GlobSet);

#[verifier::external_type_specification]
#[verifier::external_body]
pub struct ExGlobSetBuilder(globset::GlobSetBuilder);

#[verifier::external_type_specification]
#[verifier::external_body]
pub struct ExGlobError(globset::Error);

/// The pattern a compiled glob was made from.
pub uninterp spec fn glob_source(g: globset::Glob) -> Seq<char>;

/// The patterns added to a builder, in order.
pub uninterp spec fn builder_globs(b: globset::GlobSetBuilder) -> Seq<Seq<char>>;

/// The patterns a glob set was built from, in order.
pub uninterp spec fn set_globs(s: globset::GlobSet) -> Seq<Seq<char>>;

/// Whether `Glob::new` accepts a pattern.
pub uninterp spec fn glob_parses(p: Seq<char>) -> bool;

/// Whether `GlobSetBuilder::build` succeeds on a list of patterns.
pub uninterp spec fn globs_build(g: Seq<Seq<char>>) -> bool;

/// Whether a path matches any of a list of glob patterns, as `GlobSet::is_match` decides.
pub uninterp spec fn globs_match(globs: Seq<Seq<char>>, path: Seq<char>) -> bool;

/// Relies on `globset::Glob::new`: success depends on the pattern alone, and
/// a compiled glob keeps its source pattern.
#[verifier::external_body]
fn glob_new(pattern: &str) -> (r: Result<globset::Glob, globset::Error>)
    ensures
        r is Ok <==> glob_parses(pattern@),
        r matches Ok(g) ==> glob_source(g) == pattern@,
{
    globset::Glob::new(pattern)
}

/// Relies on `globset::GlobSetBuilder::new`: a builder starts empty.
#[verifier::external_body]
fn builder_new() -> (r: globset::GlobSetBuilder)
    ensures
        builder_globs(r) == Seq::<Seq<char>>::empty(),
{
    globset::GlobSetBuilder::new()
}

/// Relies on `globset::GlobSetBuilder::add`: the glob joins the builder's list.
#[verifier::external_body]
fn builder_add(b: &mut globset::GlobSetBuilder, g: globset::Glob)
    ensures
        builder_globs(*final(b)) == builder_globs(*old(b)).push(glob_source(g)),
{
    b.add(g);
}

/// Relies on `globset::GlobSetBuilder::build`: success depends on the
/// builder's globs alone, and the set holds them.
#[verifier::external_body]
fn builder_build(b: &globset::GlobSetBuilder) -> (r: Result<globset::GlobSet, globset::Error>)
    ensures
        r is Ok <==> globs_build(builder_globs(*b)),
        r matches Ok(s) ==> set_globs(s) == builder_globs(*b),
{
    b.build()
}

/// Relies on `globset::GlobSet::is_match`: the answer depends on the set's globs and the path alone.
#[verifier::external_body]
fn set_is_match(s: &globset::GlobSet, path: &str) -> (r: bool)
    ensures
        r == globs_match(set_globs(*s), path@),
{
    s.is_match(path)
}

/// A glob pattern that did not compile.
#[derive(Debug)]
pub struct GlobError {
    pub pattern: String,
}

/// Compiles patterns into one set; no patterns give no set (everything passes).
pub fn compile_globset(patterns: &Vec<String>) -> (r: Result<Option<globset::GlobSet>, GlobError>)
    ensures
        patterns@.len() == 0 ==> (r matches Ok(None)),
        r matches Ok(Some(s)) ==> set_globs(s) == patterns@.map_values(|p: String| p@),
        r matches Ok(Some(_)) ==> patterns@.len() > 0,
        patterns@.len() > 0 && (forall|i: int| 0 <= i < patterns@.len() ==> glob_parses(#[trigger] patterns@[i]@))
            && globs_build(patterns@.map_values(|p: String| p@)) ==> r is Ok,
        (exists|i: int| 0 <= i < patterns@.len() && !glob_parses(#[trigger] patterns@[i]@)) ==> r is Err,
{
    if patterns.len() == 0 {
        return Ok(None);
    }
    let mut b = builder_new();
    let mut i: usize = 0;
    while i < patterns.len()
        invariant
            i <= patterns@.len(),
            forall|k: int| 0 <= k < i ==> glob_parses(#[trigger] patterns@[k]@),
            builder_globs(b) == patterns@.map_values(|p: String| p@).subrange(0, i as int),
        decreases patterns@.len() - i,
    {
        match glob_new(patterns[i].as_str()) {
            Ok(g) => {
                builder_add(&mut b, g);
            },
            Err(_) => {
                return Err(GlobError { pattern: patterns[i].clone() });
            },
        }
        i = i + 1;
        assert(builder_globs(b) =~= patterns@.map_values(|p: String| p@).subrange(0, i as int));
    }
    assert(patterns@.map_values(|p: String| p@).subrange(0, patterns@.len() as int) =~= patterns@.map_values(|p: String| p@));
    match builder_build(&b) {
        Ok(s) => Ok(Some(s)),
        Err(_) => Err(GlobError { pattern: String::new() }),
    }
}

/// A path passes when the accept set (if any) matches it and the reject set
/// (if any) does not.
pub open spec fn wanted(accept: Option<globset::GlobSet>, reject: Option<globset::GlobSet>, path: Seq<char>) -> bool {
    &&& (accept matches Some(a) ==> globs_match(set_globs(a), path))
    &&& !(reject matches Some(x) && globs_match(set_globs(x), path))
}

pub fn is_wanted(accept: &Option<globset::GlobSet>, reject: &Option<globset::GlobSet>, path: &str) -> (r: bool)
    ensures
        r == wanted(*accept, *reject, path@),
{
    if let Some(a) = accept {
        if !set_is_match(a, path) {
            return false;
        }
    }
    if let Some(x) = reject {
        if set_is_match(x, path) {
            return false;
        }
    }
    true
}

/// `\` replaced by `/`.
pub open spec fn slashed(s: Seq<char>) -> Seq<char> {
    Seq::new(s.len(), |i: int| if s[i] == '\\' { '/' } else { s[i] })
}

/// A repository path with backslashes turned into slashes.
pub fn normalize_separators(p: &str) -> (r: String)
    ensures
        r@ == slashed(p@),
{
    let v = chars_of(p);
    let mut out = String::new();
    let mut i: usize = 0;
    while i < v.len()
        invariant
            i <= v@.len(),
            v@ == p@,
            out@ == slashed(p@).subrange(0, i as int),
        decreases v@.len() - i,
    {
        append_char(&mut out, if v[i] == '\\' { '/' } else { v[i] });
        i = i + 1;
        assert(out@ =~= slashed(p@).subrange(0, i as int));
    }
    assert(slashed(p@).subrange(0, v@.len() as int) =~= slashed(p@));
    out
}

/// The indices of the listed repository files to download, in order.
pub fn select_repo_files(files: &Vec<String>, accept: &Option<globset::GlobSet>, reject: &Option<globset::GlobSet>) -> (r: Vec<usize>)
    ensures
        forall|k: int| 0 <= k < r@.len() ==> (r@[k] as int) < files@.len() && wanted(*accept, *reject, slashed(files@[r@[k] as int]@)),
        forall|i: int| 0 <= i < files@.len() && wanted(*accept, *reject, slashed(files@[i]@)) ==> r@.contains(i as usize),
        forall|a: int, b: int| 0 <= a < b < r@.len() ==> r@[a] < r@[b],
{
    let mut out: Vec<usize> = Vec::new();
    let mut i: usize = 0;
    while i < files.len()
        invariant
            i <= files@.len(),
            forall|k: int| 0 <= k < out@.len() ==> (out@[k] as int) < i && wanted(*accept, *reject, slashed(files@[out@[k] as int]@)),
            forall|j: int| 0 <= j < i && wanted(*accept, *reject, slashed(files@[j]@)) ==> out@.contains(j as usize),
            forall|a: int, b: int| 0 <= a < b < out@.len() ==> out@[a] < out@[b],
        decreases files@.len() - i,
    {
        let path = normalize_separators(files[i].as_str());
        if is_wanted(accept, reject, path.as_str()) {
            let ghost prev = out@;
            out.push(i);
            assert(out@[out@.len() - 1] == i);
            assert forall|j: int| 0 <= j < i && wanted(*accept, *reject, slashed(files@[j]@)) implies out@.contains(j as usize) by {
                let k = choose|k: int| 0 <= k < prev.len() && prev[k] == j as usize;
                assert(out@[k] == prev[k]);
            }
        }
        i = i + 1;
    }
    out
}

} // verus!
