use vstd::prelude::*;
use crate::text::{ends_with, text_ends_with, text_equals};

verus! {

/// The interpreted languages a command can be written in.
#[derive(Clone, Copy, Debug, PartialEq, Eq, Structural)]
pub enum Language {
    Js,
    Py,
}

/// File extension (without the dot) under which artifacts of `l` are stored.
pub open spec fn extension_of(l: Language) -> Seq<char> {
    match l {
        Language::Js => "js"@,
        Language::Py => "py"@,
    }
}

/// The extension of `l` with its leading dot.
pub open spec fn dotted_extension_of(l: Language) -> Seq<char> {
    seq!['.'] + extension_of(l)
}

/// Program that runs artifacts of `l`; it takes the artifact's path as its one argument.
pub open spec fn interpreter_of(l: Language) -> Seq<char> {
    match l {
        Language::Js => "node"@,
        Language::Py => "python3"@,
    }
}

/// `file_name`'s last dot-separated segment (all of it when there is no dot) is `ext`.
pub open spec fn has_last_segment(file_name: Seq<char>, ext: Seq<char>) -> bool {
    file_name == ext || ends_with(file_name, seq!['.'] + ext)
}

/// The language that an uploaded file's name declares: its last dot-separated segment
/// must be exactly `js` or `py`.
pub open spec fn file_language(file_name: Seq<char>) -> Option<Language> {
    if has_last_segment(file_name, extension_of(Language::Js)) {
        Some(Language::Js)
    } else if has_last_segment(file_name, extension_of(Language::Py)) {
        Some(Language::Py)
    } else {
        None
    }
}

/// The language that a code block's tag declares.
pub open spec fn tag_language(tag: Option<Seq<char>>) -> Option<Language> {
    match tag {
        Some(t) => if t == "js"@ || t == "javascript"@ {
            Some(Language::Js)
        } else if t == "py"@ || t == "python"@ {
            Some(Language::Py)
        } else {
            None
        },
        None => None,
    }
}

impl Language {
    /// The file extension of this language, without the leading dot.
    pub fn extension(&self) -> (r: &'static str)
        ensures
            r@ == extension_of(*self),
    {
        match self {
            Language::Js => "js",
            Language::Py => "py",
        }
    }

    /// The file extension of this language, with its leading dot.
    pub fn dotted_extension(&self) -> (r: &'static str)
        ensures
            r@ == dotted_extension_of(*self),
    {
        match self {
            Language::Js => {
                proof {
                    reveal_strlit(".js");
                    reveal_strlit("js");
                }
                assert(".js"@ =~= seq!['.'] + "js"@);
                ".js"
            },
            Language::Py => {
                proof {
                    reveal_strlit(".py");
                    reveal_strlit("py");
                }
                assert(".py"@ =~= seq!['.'] + "py"@);
                ".py"
            },
        }
    }

    /// The interpreter program for this language.
    pub fn interpreter(&self) -> (r: &'static str)
        ensures
            r@ == interpreter_of(*self),
    {
        match self {
            Language::Js => "node",
            Language::Py => "python3",
        }
    }
}

/// Whether the last dot-separated segment of `file_name` is the extension of `l`.
fn names_language(file_name: &str, l: Language) -> (r: bool)
    ensures
        r == has_last_segment(file_name@, extension_of(l)),
{
    text_equals(file_name, l.extension()) || text_ends_with(file_name, l.dotted_extension())
}

/// The language of an uploaded file, read from its name's extension.
pub fn language_of_file(file_name: &str) -> (r: Option<Language>)
    ensures
        r == file_language(file_name@),
{
    if names_language(file_name, Language::Js) {
        Some(Language::Js)
    } else if names_language(file_name, Language::Py) {
        Some(Language::Py)
    } else {
        None
    }
}

/// The language that a code block's tag declares: `js` or `javascript`, `py` or `python`.
pub fn language_of_tag(tag: Option<&str>) -> (r: Option<Language>)
    ensures
        r == tag_language(match tag {
            Some(t) => Some(t@),
            None => None,
        }),
{
    match tag {
        Some(t) => {
            if text_equals(t, "js") || text_equals(t, "javascript") {
                Some(Language::Js)
            } else if text_equals(t, "py") || text_equals(t, "python") {
                Some(Language::Py)
            } else {
                None
            }
        },
        None => None,
    }
}

} // verus!
