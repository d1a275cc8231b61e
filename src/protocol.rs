use vstd::prelude::*;
use crate::language::Language;
use crate::text::{join, lossy_text, lossy_text_of};

verus! {

/// What an interpreter run on an artifact came to.
#[derive(Debug, PartialEq, Eq)]
pub enum Execution {
    /// The interpreter ran the script to its end.
    Exited { success: bool, stdout: Vec<u8>, stderr: Vec<u8> },
    /// The interpreter could not be started.
    LaunchFailed { message: String },
}

/// Model of an [`Execution`].
pub enum ExecutionView {
    Exited { success: bool, stdout: Seq<u8>, stderr: Seq<u8> },
    LaunchFailed { message: Seq<char> },
}

impl View for Execution {
    type V = ExecutionView;

    open spec fn view(&self) -> ExecutionView {
        match self {
            Execution::Exited { success, stdout, stderr } => ExecutionView::Exited {
                success: *success,
                stdout: stdout@,
                stderr: stderr@,
            },
            Execution::LaunchFailed { message } => ExecutionView::LaunchFailed { message: message@ },
        }
    }
}

/// What the caller of a session must do next.
#[derive(Debug, PartialEq, Eq)]
pub enum Action {
    /// Tell whether a file exists at `path`.
    Probe { path: String },
    /// Create the file at `path` holding `contents`.
    Write { path: String, contents: Vec<u8> },
    /// Run the interpreter of `language` with `path` as its one argument, capturing its output.
    Execute { path: String, language: Language },
    /// Delete the file at `path`.
    Remove { path: String },
    /// Read the whole file at `path`.
    Read { path: String },
    /// Fetch the contents of the uploaded file being imported.
    Fetch,
    /// Post a progress message that a later `Retract` takes back.
    Acknowledge { text: String },
    /// Take back the progress message.
    Retract,
    /// Send `text` as the final reply; the request is over.
    Reply { text: String },
    /// Send `contents` as an attachment named `file_name`, captioned `caption`; the request is over.
    Attach { file_name: String, contents: Vec<u8>, caption: String },
}

/// Model of an [`Action`].
pub enum Effect {
    Probe { path: Seq<char> },
    Write { path: Seq<char>, contents: Seq<u8> },
    Execute { path: Seq<char>, language: Language },
    Remove { path: Seq<char> },
    Read { path: Seq<char> },
    Fetch,
    Acknowledge { text: Seq<char> },
    Retract,
    Reply { text: Seq<char> },
    Attach { file_name: Seq<char>, contents: Seq<u8>, caption: Seq<char> },
}

impl View for Action {
    type V = Effect;

    open spec fn view(&self) -> Effect {
        match self {
            Action::Probe { path } => Effect::Probe { path: path@ },
            Action::Write { path, contents } => Effect::Write { path: path@, contents: contents@ },
            Action::Execute { path, language } => Effect::Execute { path: path@, language: *language },
            Action::Remove { path } => Effect::Remove { path: path@ },
            Action::Read { path } => Effect::Read { path: path@ },
            Action::Fetch => Effect::Fetch,
            Action::Acknowledge { text } => Effect::Acknowledge { text: text@ },
            Action::Retract => Effect::Retract,
            Action::Reply { text } => Effect::Reply { text: text@ },
            Action::Attach { file_name, contents, caption } => Effect::Attach {
                file_name: file_name@,
                contents: contents@,
                caption: caption@,
            },
        }
    }
}

/// How the caller answers the last [`Action`].
#[derive(Debug, PartialEq, Eq)]
pub enum Event {
    /// Answer to `Probe`: whether the file exists.
    Probed(bool),
    /// The action was carried out.
    Done,
    /// The action failed; `message` says why.
    Failed(String),
    /// Answer to `Execute`.
    Executed(Execution),
    /// Answer to `Read` or `Fetch`: the file's bytes.
    Loaded(Vec<u8>),
}

/// Model of an [`Event`].
pub enum EventView {
    Probed(bool),
    Done,
    Failed(Seq<char>),
    Executed(ExecutionView),
    Loaded(Seq<u8>),
}

impl View for Event {
    type V = EventView;

    open spec fn view(&self) -> EventView {
        match self {
            Event::Probed(b) => EventView::Probed(*b),
            Event::Done => EventView::Done,
            Event::Failed(m) => EventView::Failed(m@),
            Event::Executed(x) => EventView::Executed(x@),
            Event::Loaded(b) => EventView::Loaded(b@),
        }
    }
}

/// How a request ended.
#[derive(Clone, Copy, Debug, PartialEq, Eq, Structural)]
pub enum Outcome {
    /// The script was stored and its smoke test passed.
    Imported,
    /// The command ran and exited successfully.
    Ran,
    /// The command's artifact was sent back.
    Exported,
    /// The file extension or code block tag names no supported language.
    UnsupportedLanguage,
    /// A command of that name is already stored.
    AlreadyExists,
    /// The interpreter could not be started.
    LaunchFailure,
    /// The script exited with a failure status.
    NonZeroExit,
    /// No artifact exists for the name.
    NotFound,
    /// A file or message operation failed.
    IoFailure,
}

/// The artifact store: the contents of each file, by path.
pub type Files = Map<Seq<char>, Seq<u8>>;

/// The interpreters' behaviour: what running a script of a language with given contents
/// comes to. Being a function of these two alone, it describes deterministic scripts.
pub type Interpreters = spec_fn(Language, Seq<u8>) -> ExecutionView;

/// `event` is a possible answer to `effect` carried out on `files` with `run` as interpreters.
pub open spec fn answers(files: Files, run: Interpreters, effect: Effect, event: EventView) -> bool {
    match effect {
        Effect::Probe { path } => event == EventView::Probed(files.contains_key(path)),
        Effect::Write { .. } | Effect::Remove { .. } | Effect::Acknowledge { .. } | Effect::Retract => {
            event is Done || event is Failed
        },
        Effect::Execute { path, language } => {
            &&& event is Executed
            &&& files.contains_key(path) ==> event == EventView::Executed(run(language, files[path]))
        },
        Effect::Read { path } => {
            ||| event is Failed
            ||| files.contains_key(path) && event == EventView::Loaded(files[path])
        },
        Effect::Fetch => event is Failed || event is Loaded,
        Effect::Reply { .. } | Effect::Attach { .. } => false,
    }
}

/// The store once `effect` was carried out and answered by `event`; a failed write or
/// removal leaves it as it was.
pub open spec fn after(files: Files, effect: Effect, event: EventView) -> Files {
    match effect {
        Effect::Write { path, contents } => if event is Done {
            files.insert(path, contents)
        } else {
            files
        },
        Effect::Remove { path } => if event is Done {
            files.remove(path)
        } else {
            files
        },
        _ => files,
    }
}

/// Reply to an import whose language is not supported.
pub open spec fn unsupported_text() -> Seq<char> {
    "Only JS and PY files are supported"@
}

/// Reply to an import under a name that is taken.
pub open spec fn exists_text(name: Seq<char>) -> Seq<char> {
    "Command "@ + name + " already exists"@
}

/// Reply to a lookup of a name that has no artifact.
pub open spec fn missing_text(name: Seq<char>) -> Seq<char> {
    "Command "@ + name + " does not exist"@
}

/// Reply to a failed operation on files or messages.
pub open spec fn io_text(message: Seq<char>) -> Seq<char> {
    "Request failed: "@ + message
}

/// Reply to a smoke test or run that failed.
pub open spec fn error_text(detail: Seq<char>) -> Seq<char> {
    "Error running the file: "@ + detail
}

/// What a failed execution reports: the script's error output, or why it could not start.
pub open spec fn failure_detail(x: ExecutionView) -> Seq<char> {
    match x {
        ExecutionView::Exited { stderr, .. } => lossy_text_of(stderr),
        ExecutionView::LaunchFailed { message } => message,
    }
}

/// Opening of the reply to a successful import of the uploaded file `file_name` as `name`.
pub open spec fn file_import_head(file_name: Seq<char>, name: Seq<char>) -> Seq<char> {
    "Imported file "@ + file_name + " as command: `"@ + name + "`\nOutput: "@
}

/// Opening of the reply to a successful import of a code block as the command typed `name`.
pub open spec fn text_import_head(name: Seq<char>) -> Seq<char> {
    "Imported text as command: `"@ + name + "`\nOutput: "@
}

/// Reply to a successful import: its opening `head`, then what the smoke test printed.
pub open spec fn imported_text(head: Seq<char>, output: Seq<u8>) -> Seq<char> {
    head + lossy_text_of(output)
}

/// Progress message of a run.
pub open spec fn running_text(name: Seq<char>) -> Seq<char> {
    "Running command: "@ + name
}

/// Reply to a successful run: its output as a verbatim block.
pub open spec fn output_text(output: Seq<u8>) -> Seq<char> {
    "```\n"@ + lossy_text_of(output) + "\n```"@
}

/// Caption of an exported artifact.
pub open spec fn caption_text(name: Seq<char>) -> Seq<char> {
    "Exporting command: "@ + name
}

/// The reply to an execution that failed.
pub fn failure_report(x: &Execution) -> (r: String)
    ensures
        r@ == error_text(failure_detail(x@)),
{
    match x {
        Execution::Exited { stderr, .. } => {
            let detail = lossy_text(stderr);
            join("Error running the file: ", detail.as_str())
        },
        Execution::LaunchFailed { message } => join("Error running the file: ", message.as_str()),
    }
}

} // verus!
