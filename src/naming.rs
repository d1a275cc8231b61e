use vstd::prelude::*;
use crate::language::{
    dotted_extension_of, file_language, language_of_file, language_of_tag, tag_language, Language,
};
use crate::text::{ends_with, join, lower_of, lowercase, text_ends_with};

verus! {

/// Canonical name of a command whose lower-cased name is `lowered` and whose language is
/// `l`: the extension of `l` is appended unless the name already ends with it.
pub open spec fn qualified_name(lowered: Seq<char>, l: Language) -> Seq<char> {
    if ends_with(lowered, dotted_extension_of(l)) {
        lowered
    } else {
        lowered + dotted_extension_of(l)
    }
}

/// Canonical name of a command given under `raw` in language `l`.
pub open spec fn normalized_name(raw: Seq<char>, l: Language) -> Seq<char> {
    qualified_name(lower_of(raw), l)
}

/// Relative path of the artifact that holds the command stored under `name`.
pub open spec fn path_of(name: Seq<char>) -> Seq<char> {
    "./"@ + name
}

/// Path probed for a command looked up by its bare name `base` in language `l`.
pub open spec fn candidate_path(base: Seq<char>, l: Language) -> Seq<char> {
    path_of(base + dotted_extension_of(l))
}

/// Name and language of a command imported from an uploaded file called `file_name`,
/// under the chosen `name` if one is given; `None` when the file is not JS or Python.
pub open spec fn file_naming(file_name: Seq<char>, name: Option<Seq<char>>) -> Option<(Seq<char>, Language)> {
    match file_language(file_name) {
        Some(l) => Some((normalized_name(name.unwrap_or(file_name), l), l)),
        None => None,
    }
}

/// Name and language of a command imported from a code block tagged `tag`;
/// `None` when the tag names no supported language.
pub open spec fn text_naming(name: Seq<char>, tag: Option<Seq<char>>) -> Option<(Seq<char>, Language)> {
    match tag_language(tag) {
        Some(l) => Some((normalized_name(name, l), l)),
        None => None,
    }
}

/// The view of an optional string.
pub open spec fn opt_view(s: Option<&str>) -> Option<Seq<char>> {
    match s {
        Some(t) => Some(t@),
        None => None,
    }
}

/// The canonical name for an already lower-cased name `lowered` in language `l`.
pub fn qualify_name(lowered: &str, l: Language) -> (r: String)
    ensures
        r@ == qualified_name(lowered@, l),
{
    if text_ends_with(lowered, l.dotted_extension()) {
        String::from_str(lowered)
    } else {
        join(lowered, l.dotted_extension())
    }
}

/// The canonical name for a command given under `raw` in language `l`.
pub fn normalize_name(raw: &str, l: Language) -> (r: String)
    ensures
        r@ == normalized_name(raw@, l),
{
    let lowered = lowercase(raw);
    qualify_name(lowered.as_str(), l)
}

/// The relative path of the artifact stored under `name`.
pub fn artifact_path(name: &str) -> (r: String)
    ensures
        r@ == path_of(name@),
{
    join("./", name)
}

/// The path probed for the command with bare name `base` in language `l`.
pub fn candidate_artifact_path(base: &str, l: Language) -> (r: String)
    ensures
        r@ == candidate_path(base@, l),
{
    let file = join(base, l.dotted_extension());
    artifact_path(file.as_str())
}

/// Validates an import of the uploaded file `file_name`, stored under `name` if given,
/// else under the file's own name.
pub fn validate_file_import(file_name: &str, name: Option<&str>) -> (r: Option<(String, Language)>)
    ensures
        match r {
            Some((n, l)) => file_naming(file_name@, opt_view(name)) == Some((n@, l)),
            None => file_naming(file_name@, opt_view(name)) is None,
        },
{
    match language_of_file(file_name) {
        Some(l) => {
            let chosen = match name {
                Some(n) => n,
                None => file_name,
            };
            Some((normalize_name(chosen, l), l))
        },
        None => None,
    }
}

/// Validates an import of a code block tagged `tag`, stored under `name`.
pub fn validate_text_import(name: &str, tag: Option<&str>) -> (r: Option<(String, Language)>)
    ensures
        match r {
            Some((n, l)) => text_naming(name@, opt_view(tag)) == Some((n@, l)),
            None => text_naming(name@, opt_view(tag)) is None,
        },
{
    match language_of_tag(tag) {
        Some(l) => Some((normalize_name(name, l), l)),
        None => None,
    }
}

/// A name that is already canonical stays as it is: a bare name and the same name
/// qualified with its language's extension converge on one canonical form.
pub proof fn lemma_qualified_name_idempotent(lowered: Seq<char>, l: Language)
    ensures
        qualified_name(qualified_name(lowered, l), l) == qualified_name(lowered, l),
        qualified_name(lowered + dotted_extension_of(l), l) == lowered + dotted_extension_of(l),
{
    let d = dotted_extension_of(l);
    let q = lowered + d;
    assert(q.subrange(q.len() - d.len(), q.len() as int) =~= d);
}

} // verus!
