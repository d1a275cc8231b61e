use command_registry::language::{language_of_file, language_of_tag, Language};
use command_registry::naming::{
    artifact_path, candidate_artifact_path, normalize_name, qualify_name, validate_file_import,
    validate_text_import,
};
use command_registry::protocol::{failure_report, Execution};

#[test]
fn file_extension_selects_language() {
    assert_eq!(language_of_file("hello.js"), Some(Language::Js));
    assert_eq!(language_of_file("tool.py"), Some(Language::Py));
    assert_eq!(language_of_file("archive.tar.py"), Some(Language::Py));
    assert_eq!(language_of_file("js"), Some(Language::Js));
}

#[test]
fn other_file_extensions_are_unsupported() {
    assert_eq!(language_of_file("main.rs"), None);
    assert_eq!(language_of_file("hello.JS"), None);
    assert_eq!(language_of_file("hello.js.txt"), None);
    assert_eq!(language_of_file("hellojs"), None);
    assert_eq!(language_of_file(""), None);
}

#[test]
fn code_block_tags_select_language() {
    assert_eq!(language_of_tag(Some("js")), Some(Language::Js));
    assert_eq!(language_of_tag(Some("javascript")), Some(Language::Js));
    assert_eq!(language_of_tag(Some("py")), Some(Language::Py));
    assert_eq!(language_of_tag(Some("python")), Some(Language::Py));
    assert_eq!(language_of_tag(Some("rust")), None);
    assert_eq!(language_of_tag(Some("")), None);
    assert_eq!(language_of_tag(None), None);
}

#[test]
fn language_strings() {
    assert_eq!(Language::Js.extension(), "js");
    assert_eq!(Language::Py.dotted_extension(), ".py");
    assert_eq!(Language::Js.interpreter(), "node");
    assert_eq!(Language::Py.interpreter(), "python3");
}

#[test]
fn name_is_lowered_and_qualified() {
    assert_eq!(normalize_name("Hello", Language::Js), "hello.js");
    assert_eq!(normalize_name("HeLLo", Language::Py), "hello.py");
}

#[test]
fn qualified_name_converges() {
    assert_eq!(normalize_name("hello.js", Language::Js), "hello.js");
    assert_eq!(normalize_name("HELLO.JS", Language::Js), "hello.js");
    assert_eq!(qualify_name("hello.js", Language::Js), "hello.js");
    assert_eq!(qualify_name(&qualify_name("hello", Language::Js), Language::Js), "hello.js");
}

#[test]
fn other_language_extension_is_kept_and_qualified() {
    assert_eq!(normalize_name("hello.js", Language::Py), "hello.js.py");
    assert_eq!(qualify_name("", Language::Py), ".py");
}

#[test]
fn paths_are_relative() {
    assert_eq!(artifact_path("greet.py"), "./greet.py");
    assert_eq!(candidate_artifact_path("greet", Language::Js), "./greet.js");
    assert_eq!(candidate_artifact_path("greet", Language::Py), "./greet.py");
}

#[test]
fn file_import_naming() {
    assert_eq!(validate_file_import("Script.js", None), Some(("script.js".to_string(), Language::Js)));
    assert_eq!(validate_file_import("tool.py", Some("Greet")), Some(("greet.py".to_string(), Language::Py)));
    assert_eq!(validate_file_import("tool.py", Some("greet.py")), Some(("greet.py".to_string(), Language::Py)));
    assert_eq!(validate_file_import("notes.txt", Some("greet")), None);
}

#[test]
fn text_import_naming() {
    assert_eq!(validate_text_import("greet", Some("python")), Some(("greet.py".to_string(), Language::Py)));
    assert_eq!(validate_text_import("Hello", Some("javascript")), Some(("hello.js".to_string(), Language::Js)));
    assert_eq!(validate_text_import("greet", Some("ruby")), None);
    assert_eq!(validate_text_import("greet", None), None);
}

#[test]
fn failure_report_shows_error_output_lossily() {
    let x = Execution::Exited { success: false, stdout: b"ignored".to_vec(), stderr: b"bad \xff".to_vec() };
    assert_eq!(failure_report(&x), "Error running the file: bad \u{FFFD}");
    let y = Execution::LaunchFailed { message: "No such file or directory".to_string() };
    assert_eq!(failure_report(&y), "Error running the file: No such file or directory");
}
