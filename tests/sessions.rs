use std::collections::HashMap;

use command_registry::import::ImportSession;
use command_registry::language::Language;
use command_registry::lookup::{ExportSession, RunSession};
use command_registry::protocol::{Action, Event, Execution, Outcome};

/// An in-memory store with fake interpreters, answering a session's actions.
struct Sim {
    files: HashMap<String, Vec<u8>>,
    upload: Vec<u8>,
    executions: usize,
    messages: Vec<String>,
    fail_writes: bool,
    fail_removes: bool,
}

impl Sim {
    fn new() -> Sim {
        Sim { files: HashMap::new(), upload: Vec::new(), executions: 0, messages: Vec::new(), fail_writes: false, fail_removes: false }
    }

    /// A deterministic interpreter: `print("x")` prints `x`, `fail` exits 1, `crash` cannot start.
    fn interpret(&mut self, path: &str, _language: Language) -> Execution {
        self.executions += 1;
        let code = match self.files.get(path) {
            Some(c) => String::from_utf8_lossy(c).into_owned(),
            None => return Execution::LaunchFailed { message: "missing file".to_string() },
        };
        if code == "crash" {
            Execution::LaunchFailed { message: "interpreter not found".to_string() }
        } else if code == "fail" {
            Execution::Exited { success: false, stdout: Vec::new(), stderr: b"boom".to_vec() }
        } else if let Some(rest) = code.strip_prefix("print(\"") {
            let text = rest.trim_end_matches("\")");
            Execution::Exited { success: true, stdout: format!("{}\n", text).into_bytes(), stderr: Vec::new() }
        } else {
            Execution::Exited { success: true, stdout: Vec::new(), stderr: Vec::new() }
        }
    }

    fn answer(&mut self, action: &Action) -> Event {
        match action {
            Action::Probe { path } => Event::Probed(self.files.contains_key(path)),
            Action::Write { path, contents } => {
                if self.fail_writes {
                    Event::Failed("disk full".to_string())
                } else {
                    self.files.insert(path.clone(), contents.clone());
                    Event::Done
                }
            },
            Action::Execute { path, language } => Event::Executed(self.interpret(path, *language)),
            Action::Remove { path } => {
                if self.fail_removes {
                    Event::Failed("permission denied".to_string())
                } else {
                    self.files.remove(path);
                    Event::Done
                }
            },
            Action::Read { path } => match self.files.get(path) {
                Some(c) => Event::Loaded(c.clone()),
                None => Event::Failed("not found".to_string()),
            },
            Action::Fetch => Event::Loaded(self.upload.clone()),
            Action::Acknowledge { text } => {
                self.messages.push(text.clone());
                Event::Done
            },
            Action::Retract => {
                self.messages.pop();
                Event::Done
            },
            Action::Reply { .. } | Action::Attach { .. } => panic!("a final action needs no answer"),
        }
    }

    fn import_text(&mut self, name: &str, tag: &str, code: &str) -> (ImportSession, Action) {
        let (mut s, mut a) = ImportSession::from_text(name, Some(tag), code.as_bytes().to_vec());
        while !is_final(&a) {
            let e = self.answer(&a);
            a = s.step(e);
        }
        (s, a)
    }

    fn import_file(&mut self, file_name: &str, name: Option<&str>, contents: &str) -> (ImportSession, Action) {
        self.upload = contents.as_bytes().to_vec();
        let (mut s, mut a) = ImportSession::from_file(file_name, name);
        while !is_final(&a) {
            let e = self.answer(&a);
            a = s.step(e);
        }
        (s, a)
    }

    fn run(&mut self, name: &str) -> (RunSession, Action) {
        let (mut s, mut a) = RunSession::start(name);
        while !is_final(&a) {
            let e = self.answer(&a);
            a = s.step(e);
        }
        (s, a)
    }

    fn export(&mut self, name: &str) -> (ExportSession, Action) {
        let (mut s, mut a) = ExportSession::start(name);
        while !is_final(&a) {
            let e = self.answer(&a);
            a = s.step(e);
        }
        (s, a)
    }
}

fn is_final(a: &Action) -> bool {
    matches!(a, Action::Reply { .. } | Action::Attach { .. })
}

fn reply(text: &str) -> Action {
    Action::Reply { text: text.to_string() }
}

#[test]
fn import_text_greet_step_by_step() {
    let code = b"print(\"hi\")".to_vec();
    let (mut s, a) = ImportSession::from_text("greet", Some("python"), code.clone());
    assert_eq!(a, Action::Probe { path: "./greet.py".to_string() });
    assert_eq!(s.name(), "greet.py");
    assert_eq!(s.language(), Language::Py);
    let a = s.step(Event::Probed(false));
    assert_eq!(a, Action::Write { path: "./greet.py".to_string(), contents: code.clone() });
    let a = s.step(Event::Done);
    assert_eq!(a, Action::Execute { path: "./greet.py".to_string(), language: Language::Py });
    assert_eq!(s.outcome(), None);
    let a = s.step(Event::Executed(Execution::Exited { success: true, stdout: b"hi\n".to_vec(), stderr: Vec::new() }));
    assert_eq!(a, reply("Imported text as command: `greet`\nOutput: hi\n"));
    assert_eq!(s.outcome(), Some(Outcome::Imported));
    assert_eq!(s.output(), &b"hi\n".to_vec());
}

#[test]
fn run_greet_step_by_step() {
    let (mut s, a) = RunSession::start("greet");
    assert_eq!(a, Action::Probe { path: "./greet.js".to_string() });
    let a = s.step(Event::Probed(false));
    assert_eq!(a, Action::Probe { path: "./greet.py".to_string() });
    let a = s.step(Event::Probed(true));
    assert_eq!(a, Action::Acknowledge { text: "Running command: greet".to_string() });
    let a = s.step(Event::Done);
    assert_eq!(a, Action::Execute { path: "./greet.py".to_string(), language: Language::Py });
    let a = s.step(Event::Executed(Execution::Exited { success: true, stdout: b"hi\n".to_vec(), stderr: Vec::new() }));
    assert_eq!(a, Action::Retract);
    let a = s.step(Event::Done);
    assert_eq!(a, reply("```\nhi\n\n```"));
    assert_eq!(s.outcome(), Some(Outcome::Ran));
    assert_eq!(s.output(), &b"hi\n".to_vec());
}

#[test]
fn import_then_run_prints_the_same() {
    let mut sim = Sim::new();
    let (imp, _) = sim.import_text("greet", "python", "print(\"hi\")");
    assert_eq!(imp.outcome(), Some(Outcome::Imported));
    let (run, a) = sim.run("greet");
    assert_eq!(run.outcome(), Some(Outcome::Ran));
    assert_eq!(run.output(), imp.output());
    assert_eq!(a, reply("```\nhi\n\n```"));
    assert!(sim.messages.is_empty());
}

#[test]
fn export_after_import_returns_the_same_bytes() {
    let mut sim = Sim::new();
    let (imp, _) = sim.import_text("greet", "python", "print(\"hi\")");
    assert_eq!(imp.outcome(), Some(Outcome::Imported));
    assert_eq!(sim.files.get("./greet.py"), Some(&b"print(\"hi\")".to_vec()));
    let (exp, a) = sim.export("greet");
    assert_eq!(exp.outcome(), Some(Outcome::Exported));
    assert_eq!(
        a,
        Action::Attach {
            file_name: "greet.py".to_string(),
            contents: b"print(\"hi\")".to_vec(),
            caption: "Exporting command: greet".to_string(),
        }
    );
}

#[test]
fn import_of_taken_name_is_rejected_and_keeps_artifact() {
    let mut sim = Sim::new();
    sim.files.insert("./greet.py".to_string(), b"print(\"old\")".to_vec());
    let (imp, a) = sim.import_text("greet", "py", "print(\"new\")");
    assert_eq!(imp.outcome(), Some(Outcome::AlreadyExists));
    assert_eq!(a, reply("Command greet already exists"));
    assert_eq!(sim.files.get("./greet.py"), Some(&b"print(\"old\")".to_vec()));
    assert_eq!(sim.files.len(), 1);
    assert_eq!(sim.executions, 0);
}

#[test]
fn failing_smoke_test_rolls_back() {
    let mut sim = Sim::new();
    let (imp, a) = sim.import_text("bad", "js", "fail");
    assert_eq!(imp.outcome(), Some(Outcome::NonZeroExit));
    assert_eq!(a, reply("Error running the file: boom"));
    assert!(!sim.files.contains_key("./bad.js"));
    assert!(sim.files.is_empty());
}

#[test]
fn launch_failure_rolls_back() {
    let mut sim = Sim::new();
    let (imp, a) = sim.import_text("bad", "python", "crash");
    assert_eq!(imp.outcome(), Some(Outcome::LaunchFailure));
    assert_eq!(a, reply("Error running the file: interpreter not found"));
    assert!(sim.files.is_empty());
}

#[test]
fn rollback_step_by_step() {
    let (mut s, _) = ImportSession::from_text("bad", Some("js"), b"fail".to_vec());
    s.step(Event::Probed(false));
    s.step(Event::Done);
    let a = s.step(Event::Executed(Execution::Exited { success: false, stdout: Vec::new(), stderr: b"oops".to_vec() }));
    assert_eq!(a, Action::Remove { path: "./bad.js".to_string() });
    assert_eq!(s.outcome(), None);
    let a = s.step(Event::Done);
    assert_eq!(a, reply("Error running the file: oops"));
    assert_eq!(s.outcome(), Some(Outcome::NonZeroExit));
}

#[test]
fn run_of_missing_name_is_not_found_and_runs_nothing() {
    let mut sim = Sim::new();
    sim.files.insert("./other.py".to_string(), b"print(\"x\")".to_vec());
    let (run, a) = sim.run("ghost");
    assert_eq!(run.outcome(), Some(Outcome::NotFound));
    assert_eq!(a, reply("Command ghost does not exist"));
    assert_eq!(sim.executions, 0);
    assert!(sim.messages.is_empty());
}

#[test]
fn export_of_missing_name_is_not_found() {
    let mut sim = Sim::new();
    let (exp, a) = sim.export("ghost");
    assert_eq!(exp.outcome(), Some(Outcome::NotFound));
    assert_eq!(a, reply("Command ghost does not exist"));
}

#[test]
fn hello_and_hello_js_are_one_name() {
    let mut sim = Sim::new();
    let (first, _) = sim.import_text("Hello", "js", "print(\"a\")");
    assert_eq!(first.outcome(), Some(Outcome::Imported));
    assert_eq!(first.name(), "hello.js");
    assert!(sim.files.contains_key("./hello.js"));
    let (second, a) = sim.import_text("hello.js", "js", "print(\"b\")");
    assert_eq!(second.outcome(), Some(Outcome::AlreadyExists));
    assert_eq!(a, reply("Command hello.js already exists"));
    let (third, a) = sim.import_text("HELLO", "javascript", "print(\"c\")");
    assert_eq!(third.outcome(), Some(Outcome::AlreadyExists));
    assert_eq!(a, reply("Command HELLO already exists"));
    assert_eq!(sim.files.get("./hello.js"), Some(&b"print(\"a\")".to_vec()));
}

#[test]
fn interleaved_imports_of_one_new_name_both_commit() {
    let mut sim = Sim::new();
    let (mut a, mut act_a) = ImportSession::from_text("race", Some("py"), b"print(\"a\")".to_vec());
    let (mut b, mut act_b) = ImportSession::from_text("race", Some("py"), b"print(\"b\")".to_vec());
    // Both existence checks answer before either write.
    let ea = sim.answer(&act_a);
    let eb = sim.answer(&act_b);
    act_a = a.step(ea);
    act_b = b.step(eb);
    while !is_final(&act_a) {
        let e = sim.answer(&act_a);
        act_a = a.step(e);
    }
    while !is_final(&act_b) {
        let e = sim.answer(&act_b);
        act_b = b.step(e);
    }
    assert_eq!(a.outcome(), Some(Outcome::Imported));
    assert_eq!(b.outcome(), Some(Outcome::Imported));
    assert_eq!(sim.files.get("./race.py"), Some(&b"print(\"b\")".to_vec()));
}

#[test]
fn unsupported_tag_is_rejected_without_effects() {
    let (s, a) = ImportSession::from_text("greet", Some("ruby"), b"puts 1".to_vec());
    assert_eq!(a, reply("Only JS and PY files are supported"));
    assert_eq!(s.outcome(), Some(Outcome::UnsupportedLanguage));
}

#[test]
fn unsupported_file_is_rejected() {
    let (s, a) = ImportSession::from_file("notes.txt", None);
    assert_eq!(a, reply("Only JS and PY files are supported"));
    assert_eq!(s.outcome(), Some(Outcome::UnsupportedLanguage));
}

#[test]
fn file_import_uses_file_name_or_given_name() {
    let (s, a) = ImportSession::from_file("Tool.JS.js", None);
    assert_eq!(s.name(), "tool.js.js");
    assert_eq!(a, Action::Probe { path: "./tool.js.js".to_string() });
    let (s, _) = ImportSession::from_file("tool.py", Some("Helper"));
    assert_eq!(s.name(), "helper.py");
}

#[test]
fn failed_write_is_an_io_failure() {
    let mut sim = Sim::new();
    sim.fail_writes = true;
    let (imp, a) = sim.import_text("greet", "py", "print(\"hi\")");
    assert_eq!(imp.outcome(), Some(Outcome::IoFailure));
    assert_eq!(a, reply("Request failed: disk full"));
    assert_eq!(sim.executions, 0);
}

#[test]
fn failed_rollback_is_an_io_failure() {
    let mut sim = Sim::new();
    sim.fail_removes = true;
    let (imp, a) = sim.import_text("bad", "py", "fail");
    assert_eq!(imp.outcome(), Some(Outcome::IoFailure));
    assert_eq!(a, reply("Request failed: permission denied"));
}

#[test]
fn run_failure_keeps_progress_message() {
    let mut sim = Sim::new();
    sim.files.insert("./bad.py".to_string(), b"fail".to_vec());
    let (run, a) = sim.run("bad");
    assert_eq!(run.outcome(), Some(Outcome::NonZeroExit));
    assert_eq!(a, reply("Error running the file: boom"));
    assert_eq!(sim.messages, vec!["Running command: bad".to_string()]);
}

#[test]
fn run_launch_failure() {
    let mut sim = Sim::new();
    sim.files.insert("./bad.js".to_string(), b"crash".to_vec());
    let (run, a) = sim.run("bad");
    assert_eq!(run.outcome(), Some(Outcome::LaunchFailure));
    assert_eq!(a, reply("Error running the file: interpreter not found"));
}

#[test]
fn run_prefers_javascript() {
    let mut sim = Sim::new();
    sim.files.insert("./both.js".to_string(), b"print(\"js\")".to_vec());
    sim.files.insert("./both.py".to_string(), b"print(\"py\")".to_vec());
    let (run, a) = sim.run("both");
    assert_eq!(run.outcome(), Some(Outcome::Ran));
    assert_eq!(a, reply("```\njs\n\n```"));
}

#[test]
fn run_acknowledgement_failure_is_an_io_failure() {
    let (mut s, _) = RunSession::start("greet");
    s.step(Event::Probed(true));
    let a = s.step(Event::Failed("gone".to_string()));
    assert_eq!(a, reply("Request failed: gone"));
    assert_eq!(s.outcome(), Some(Outcome::IoFailure));
}

#[test]
fn export_read_failure_is_an_io_failure() {
    let (mut s, _) = ExportSession::start("greet");
    let a = s.step(Event::Probed(true));
    assert_eq!(a, Action::Read { path: "./greet.js".to_string() });
    let a = s.step(Event::Failed("unreadable".to_string()));
    assert_eq!(a, reply("Request failed: unreadable"));
    assert_eq!(s.outcome(), Some(Outcome::IoFailure));
}

#[test]
fn finished_session_stays_finished() {
    let (mut s, a) = RunSession::start("x");
    assert_eq!(a, Action::Probe { path: "./x.js".to_string() });
    s.step(Event::Probed(false));
    let a = s.step(Event::Probed(false));
    let b = s.step(Event::Done);
    assert_eq!(a, b);
    assert_eq!(s.outcome(), Some(Outcome::NotFound));
}

#[test]
fn unexpected_event_leaves_session_waiting() {
    let (mut s, a) = ImportSession::from_text("greet", Some("py"), b"1".to_vec());
    let b = s.step(Event::Done);
    assert_eq!(a, b);
    assert_eq!(s.outcome(), None);
}

#[test]
fn import_file_step_by_step() {
    let (mut s, a) = ImportSession::from_file("Greet.py", None);
    assert_eq!(a, Action::Probe { path: "./greet.py".to_string() });
    let a = s.step(Event::Probed(false));
    assert_eq!(a, Action::Fetch);
    let a = s.step(Event::Loaded(b"print(\"hi\")".to_vec()));
    assert_eq!(a, Action::Write { path: "./greet.py".to_string(), contents: b"print(\"hi\")".to_vec() });
    let a = s.step(Event::Done);
    assert_eq!(a, Action::Execute { path: "./greet.py".to_string(), language: Language::Py });
    let a = s.step(Event::Executed(Execution::Exited { success: true, stdout: b"hi\n".to_vec(), stderr: Vec::new() }));
    assert_eq!(a, reply("Imported file Greet.py as command: `greet.py`\nOutput: hi\n"));
    assert_eq!(s.outcome(), Some(Outcome::Imported));
}

#[test]
fn import_file_of_taken_name_fetches_nothing() {
    let (mut s, _) = ImportSession::from_file("tool.py", Some("Greet"));
    let a = s.step(Event::Probed(true));
    assert_eq!(a, reply("Command greet.py already exists"));
    assert_eq!(s.outcome(), Some(Outcome::AlreadyExists));
}

#[test]
fn failed_fetch_is_an_io_failure() {
    let (mut s, _) = ImportSession::from_file("tool.js", None);
    s.step(Event::Probed(false));
    let a = s.step(Event::Failed("download failed".to_string()));
    assert_eq!(a, reply("Request failed: download failed"));
    assert_eq!(s.outcome(), Some(Outcome::IoFailure));
}

#[test]
fn imported_file_runs_and_exports_under_any_case() {
    let mut sim = Sim::new();
    let (imp, _) = sim.import_file("upload.py", Some("Greet"), "print(\"hi\")");
    assert_eq!(imp.outcome(), Some(Outcome::Imported));
    let (run, a) = sim.run("GREET");
    assert_eq!(run.outcome(), Some(Outcome::Ran));
    assert_eq!(run.output(), imp.output());
    assert_eq!(a, reply("```\nhi\n\n```"));
    let (exp, a) = sim.export("gReEt");
    assert_eq!(exp.outcome(), Some(Outcome::Exported));
    assert_eq!(
        a,
        Action::Attach {
            file_name: "greet.py".to_string(),
            contents: b"print(\"hi\")".to_vec(),
            caption: "Exporting command: gReEt".to_string(),
        }
    );
}

#[test]
fn run_looks_up_lower_cased_name() {
    let (mut s, a) = RunSession::start("GREET");
    assert_eq!(a, Action::Probe { path: "./greet.js".to_string() });
    let a = s.step(Event::Probed(false));
    assert_eq!(a, Action::Probe { path: "./greet.py".to_string() });
    let a = s.step(Event::Probed(true));
    assert_eq!(a, Action::Acknowledge { text: "Running command: GREET".to_string() });
    let a = s.step(Event::Done);
    assert_eq!(a, Action::Execute { path: "./greet.py".to_string(), language: Language::Py });
}

#[test]
fn missing_name_reply_shows_name_as_typed() {
    let mut sim = Sim::new();
    let (_, a) = sim.run("Ghost");
    assert_eq!(a, reply("Command Ghost does not exist"));
    let (_, a) = sim.export("Ghost");
    assert_eq!(a, reply("Command Ghost does not exist"));
}
