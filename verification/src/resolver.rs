//! The choice of one version among those that the registry returned, and
//! the form in which a query's filters are sent to the registry.

use crate::minecraft::LoaderType;
use vstd::prelude::*;
use vstd::std_specs::iter::IteratorSpec;
use vstd::string::StringExecFns;

verus! {

/// One downloadable file of a version.
#[derive(Debug, Clone, PartialEq, Eq)]
pub struct FileArtifact {
    pub url: String,
    pub filename: String,
    /// The SHA-512 digest of the content in hexadecimal, where the registry
    /// gives one.
    pub expected_hash: Option<String>,
}

/// One version of a package, as the registry describes it.
#[derive(Debug, Clone, PartialEq, Eq)]
pub struct VersionRecord {
    pub version_number: String,
    pub files: Vec<FileArtifact>,
}

/// What the user asks for.
#[derive(Debug, Clone, PartialEq, Eq)]
pub struct PackageQuery {
    pub package_id: String,
    /// The loaders to filter by. Empty where the query does not filter by
    /// loader.
    pub loaders: Vec<LoaderType>,
    pub game_versions: Option<Vec<String>>,
    /// `latest`, or a part of the wanted version number.
    pub version_selector: String,
}

/// Why no version was chosen.
#[derive(Debug, Clone, Copy, PartialEq, Eq, Structural)]
pub enum ResolutionError {
    /// The newest version was asked for and the registry returned none.
    NoVersionsAvailable,
    /// No returned version number contains the selector.
    NoMatchingVersion,
}

impl ResolutionError {
    /// The text that tells the user of this failure.
    pub open spec fn message_text(self) -> Seq<char> {
        match self {
            ResolutionError::NoVersionsAvailable => "Failed get versions"@,
            ResolutionError::NoMatchingVersion => "No matching version exists"@,
        }
    }

    /// The message for the user.
    pub fn message(&self) -> (text: String)
        ensures
            text@ == self.message_text(),
    {
        match self {
            ResolutionError::NoVersionsAvailable => String::from_str("Failed get versions"),
            ResolutionError::NoMatchingVersion => String::from_str("No matching version exists"),
        }
    }
}

/// Whether `needle` occurs in `haystack` as a run of adjacent characters.
pub open spec fn is_substring(needle: Seq<char>, haystack: Seq<char>) -> bool {
    exists|at: int|
        0 <= at && at + needle.len() <= haystack.len() && #[trigger] haystack.subrange(
            at,
            at + needle.len(),
        ) == needle
}

/// Whether a selector asks for the newest version.
pub open spec fn wants_latest(selector: Seq<char>) -> bool {
    selector == "latest"@
}

/// Whether `index` is the first candidate whose version number contains the
/// selector.
pub open spec fn is_first_containing(
    selector: Seq<char>,
    candidates: Seq<VersionRecord>,
    index: int,
) -> bool {
    &&& 0 <= index < candidates.len()
    &&& is_substring(selector, candidates[index].version_number@)
    &&& forall|earlier: int|
        0 <= earlier < index ==> !is_substring(
            selector,
            #[trigger] candidates[earlier].version_number@,
        )
}

/// The `Debug` form of a list of strings, as `std` writes it.
pub uninterp spec fn debug_format(items: Seq<Seq<char>>) -> Seq<char>;

/// The registry-facing names of a list of loaders.
pub open spec fn loader_names(loaders: Seq<LoaderType>) -> Seq<Seq<char>> {
    loaders.map_values(|loader: LoaderType| loader.name())
}

/// The views of a list of strings.
pub open spec fn views(items: Seq<String>) -> Seq<Seq<char>> {
    items.map_values(|item: String| item@)
}

/// The characters of a string.
fn chars_of(text: &str) -> (chars: Vec<char>)
    ensures
        chars@ == text@,
{
    broadcast use vstd::string::group_string_axioms;

    let mut chars: Vec<char> = Vec::new();
    let mut rest = text.chars();
    loop
        invariant
            rest.obeys_prophetic_iter_laws(),
            chars@ + rest.remaining() == text@,
        decreases text@.len() - chars@.len(),
    {
        let ghost before = rest.remaining();
        match rest.next() {
            None => {
                assert(chars@ + before =~= chars@);
                return chars;
            },
            Some(c) => {
                chars.push(c);
                assert(chars@ + before.drop_first() =~= chars@.drop_last() + before);
            },
        }
    }
}

/// Whether `pattern` stands in `text` at the position `at`.
fn occurs_at(text: &Vec<char>, pattern: &Vec<char>, at: usize) -> (found: bool)
    requires
        at + pattern@.len() <= text@.len(),
    ensures
        found == (text@.subrange(at as int, at + pattern@.len()) == pattern@),
{
    let ghost window = text@.subrange(at as int, at + pattern@.len());
    let mut i: usize = 0;
    while i < pattern.len()
        invariant
            i <= pattern@.len(),
            at + pattern@.len() <= text@.len() == text.len(),
            window == text@.subrange(at as int, at + pattern@.len()),
            forall|k: int| 0 <= k < i ==> window[k] == pattern@[k],
        decreases pattern.len() - i,
    {
        if text[at + i] != pattern[i] {
            assert(window[i as int] != pattern@[i as int]);
            return false;
        }
        i += 1;
    }
    assert(window =~= pattern@);
    true
}

/// Whether `needle` occurs in `haystack`.
pub fn contains(haystack: &str, needle: &str) -> (found: bool)
    ensures
        found == is_substring(needle@, haystack@),
{
    let text = chars_of(haystack);
    let pattern = chars_of(needle);
    if pattern.len() > text.len() {
        return false;
    }
    let last = text.len() - pattern.len();
    let mut at: usize = 0;
    loop
        invariant
            at <= last,
            last + pattern@.len() == text@.len(),
            text@ == haystack@,
            pattern@ == needle@,
            forall|earlier: int|
                0 <= earlier < at ==> #[trigger] text@.subrange(
                    earlier,
                    earlier + pattern@.len(),
                ) != pattern@,
        decreases last - at,
    {
        if occurs_at(&text, &pattern, at) {
            return true;
        }
        if at == last {
            return false;
        }
        at += 1;
    }
}

/// `format!` with `{:?}` on a list of strings: the list in its `Debug`
/// form, which depends on the strings alone.
#[verifier::external_body]
fn debug_list(items: &Vec<String>) -> (text: String)
    ensures
        text@ == debug_format(views(items@)),
{
    format!("{:?}", items)
}

/// Chooses the version to install. With the selector `latest` it is the
/// first candidate; with any other selector it is the first candidate whose
/// version number contains the selector.
pub fn resolve<'a>(query: &PackageQuery, candidates: &'a Vec<VersionRecord>) -> (result: Result<
    &'a VersionRecord,
    ResolutionError,
>)
    ensures
        wants_latest(query.version_selector@) ==> match result {
            Ok(record) => candidates@.len() > 0 && *record == candidates@[0],
            Err(error) => candidates@.len() == 0 && error
                == ResolutionError::NoVersionsAvailable,
        },
        !wants_latest(query.version_selector@) ==> match result {
            Ok(record) => exists|index: int|
                is_first_containing(query.version_selector@, candidates@, index) && *record
                    == candidates@[index],
            Err(error) => error == ResolutionError::NoMatchingVersion && forall|index: int|
                0 <= index < candidates@.len() ==> !is_substring(
                    query.version_selector@,
                    #[trigger] candidates@[index].version_number@,
                ),
        },
{
    if query.version_selector == String::from_str("latest") {
        if candidates.len() == 0 {
            return Err(ResolutionError::NoVersionsAvailable);
        }
        return Ok(&candidates[0]);
    }
    let mut i: usize = 0;
    while i < candidates.len()
        invariant
            i <= candidates.len(),
            !wants_latest(query.version_selector@),
            forall|earlier: int|
                0 <= earlier < i ==> !is_substring(
                    query.version_selector@,
                    #[trigger] candidates@[earlier].version_number@,
                ),
        decreases candidates.len() - i,
    {
        if contains(candidates[i].version_number.as_str(), query.version_selector.as_str()) {
            assert(is_first_containing(query.version_selector@, candidates@, i as int));
            return Ok(&candidates[i]);
        }
        i += 1;
    }
    Err(ResolutionError::NoMatchingVersion)
}

impl PackageQuery {
    /// The loader filter as the registry takes it: absent where the query
    /// names no loader, else the list of the loaders' names.
    pub fn loaders_parameter(&self) -> (parameter: Option<String>)
        ensures
            self.loaders@.len() == 0 ==> parameter is None,
            self.loaders@.len() > 0 ==> (parameter matches Some(text) && text@ == debug_format(
                loader_names(self.loaders@),
            )),
    {
        if self.loaders.len() == 0 {
            return None;
        }
        let mut names: Vec<String> = Vec::new();
        let mut i: usize = 0;
        while i < self.loaders.len()
            invariant
                i <= self.loaders.len(),
                names@.len() == i,
                forall|k: int| 0 <= k < i ==> (#[trigger] names@[k])@ == self.loaders@[k].name(),
            decreases self.loaders.len() - i,
        {
            names.push(String::from_str(self.loaders[i].as_str()));
            i += 1;
        }
        assert(views(names@) =~= loader_names(self.loaders@));
        Some(debug_list(&names))
    }

    /// The game-version filter as the registry takes it: absent where the
    /// query has none, else the list of the versions.
    pub fn game_versions_parameter(&self) -> (parameter: Option<String>)
        ensures
            match self.game_versions {
                None => parameter is None,
                Some(versions) => parameter matches Some(text) && text@ == debug_format(
                    views(versions@),
                ),
            },
    {
        match &self.game_versions {
            None => None,
            Some(versions) => Some(debug_list(versions)),
        }
    }
}

} // verus!
