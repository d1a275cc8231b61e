use vstd::prelude::*;
use crate::language::{dotted_extension_of, Language};
use crate::naming::{candidate_artifact_path, candidate_path};
use crate::protocol::{
    answers, caption_text, error_text, failure_detail, failure_report, io_text, missing_text,
    output_text, running_text, Action, Effect, Event, EventView, Execution, ExecutionView, Files,
    Interpreters, Outcome,
};
use crate::text::{join, join3, lossy_text, lower_of, lowercase};

verus! {

/// Where a run of a stored command stands.
#[derive(Clone, Copy, Debug, PartialEq, Eq, Structural)]
pub enum RunPhase {
    /// Looking for a JavaScript artifact.
    ProbingJs,
    /// Looking for a Python artifact.
    ProbingPy,
    /// Posting the progress message.
    Acknowledging,
    /// Running the artifact.
    Executing,
    /// Taking back the progress message after a successful run.
    Retracting,
    /// Over; the final reply is due.
    Finished(Outcome),
}

/// Model of a [`RunSession`].
pub struct RunState {
    pub phase: RunPhase,
    /// The command's bare name, as given.
    pub name: Seq<char>,
    /// The name as stored: lower-cased.
    pub base: Seq<char>,
    /// The language of the artifact found.
    pub language: Language,
    /// What the run printed, once it passed.
    pub output: Seq<u8>,
    /// Text of the final reply, once known.
    pub report: Seq<char>,
}

/// A run of the command typed as `name`, before anything is done; names are looked up
/// lower-cased, as they are stored.
pub open spec fn run_fresh(name: Seq<char>) -> RunState {
    RunState {
        phase: RunPhase::ProbingJs,
        name,
        base: lower_of(name),
        language: Language::Js,
        output: Seq::empty(),
        report: Seq::empty(),
    }
}

/// What a run in state `s` asks for.
pub open spec fn run_request(s: RunState) -> Effect {
    match s.phase {
        RunPhase::ProbingJs => Effect::Probe { path: candidate_path(s.base, Language::Js) },
        RunPhase::ProbingPy => Effect::Probe { path: candidate_path(s.base, Language::Py) },
        RunPhase::Acknowledging => Effect::Acknowledge { text: running_text(s.name) },
        RunPhase::Executing => Effect::Execute {
            path: candidate_path(s.base, s.language),
            language: s.language,
        },
        RunPhase::Retracting => Effect::Retract,
        RunPhase::Finished(_) => Effect::Reply { text: s.report },
    }
}

/// The state a run in state `s` moves to on `e`; an event that does not answer the
/// pending request leaves it where it is.
pub open spec fn run_next(s: RunState, e: EventView) -> RunState {
    match s.phase {
        RunPhase::ProbingJs => match e {
            EventView::Probed(true) => RunState { phase: RunPhase::Acknowledging, language: Language::Js, ..s },
            EventView::Probed(false) => RunState { phase: RunPhase::ProbingPy, ..s },
            _ => s,
        },
        RunPhase::ProbingPy => match e {
            EventView::Probed(true) => RunState { phase: RunPhase::Acknowledging, language: Language::Py, ..s },
            EventView::Probed(false) => RunState {
                phase: RunPhase::Finished(Outcome::NotFound),
                report: missing_text(s.name),
                ..s
            },
            _ => s,
        },
        RunPhase::Acknowledging => match e {
            EventView::Done => RunState { phase: RunPhase::Executing, ..s },
            EventView::Failed(m) => RunState { phase: RunPhase::Finished(Outcome::IoFailure), report: io_text(m), ..s },
            _ => s,
        },
        RunPhase::Executing => match e {
            EventView::Executed(x) => match x {
                ExecutionView::Exited { success: true, stdout, .. } => RunState {
                    phase: RunPhase::Retracting,
                    output: stdout,
                    ..s
                },
                ExecutionView::Exited { success: false, .. } => RunState {
                    phase: RunPhase::Finished(Outcome::NonZeroExit),
                    report: error_text(failure_detail(x)),
                    ..s
                },
                ExecutionView::LaunchFailed { .. } => RunState {
                    phase: RunPhase::Finished(Outcome::LaunchFailure),
                    report: error_text(failure_detail(x)),
                    ..s
                },
            },
            _ => s,
        },
        RunPhase::Retracting => match e {
            EventView::Done => RunState {
                phase: RunPhase::Finished(Outcome::Ran),
                report: output_text(s.output),
                ..s
            },
            EventView::Failed(m) => RunState { phase: RunPhase::Finished(Outcome::IoFailure), report: io_text(m), ..s },
            _ => s,
        },
        RunPhase::Finished(_) => s,
    }
}

/// The run state reached from `s` when `events` answer its requests in turn on `files`;
/// `None` when one of them is no possible answer. A run changes no file.
pub open spec fn run_trace(s: RunState, files: Files, run: Interpreters, events: Seq<EventView>) -> Option<RunState>
    decreases events.len(),
{
    if events.len() == 0 {
        Some(s)
    } else if answers(files, run, run_request(s), events[0]) {
        run_trace(run_next(s, events[0]), files, run, events.drop_first())
    } else {
        None
    }
}

/// The artifact that a lookup of `name` settles on: the JavaScript one if it exists,
/// else the Python one.
pub open spec fn resolves_to(files: Files, name: Seq<char>, l: Language) -> bool {
    &&& files.contains_key(candidate_path(name, l))
    &&& l == Language::Py ==> !files.contains_key(candidate_path(name, Language::Js))
}

/// How a run in state `s` relates to the store `files` it runs on.
pub open spec fn run_tracks(s: RunState, files: Files, run: Interpreters) -> bool {
    match s.phase {
        RunPhase::ProbingJs => true,
        RunPhase::ProbingPy => !files.contains_key(candidate_path(s.base, Language::Js)),
        RunPhase::Acknowledging | RunPhase::Executing => resolves_to(files, s.base, s.language),
        RunPhase::Retracting => {
            &&& resolves_to(files, s.base, s.language)
            &&& run(s.language, files[candidate_path(s.base, s.language)]) matches ExecutionView::Exited { success, stdout, .. }
            &&& success && stdout == s.output
        },
        RunPhase::Finished(o) => match o {
            Outcome::NotFound => {
                &&& !files.contains_key(candidate_path(s.base, Language::Js))
                &&& !files.contains_key(candidate_path(s.base, Language::Py))
            },
            Outcome::Ran => {
                &&& resolves_to(files, s.base, s.language)
                &&& run(s.language, files[candidate_path(s.base, s.language)]) matches ExecutionView::Exited { success, stdout, .. }
                &&& success && stdout == s.output
            },
            Outcome::NonZeroExit | Outcome::LaunchFailure | Outcome::IoFailure => resolves_to(files, s.base, s.language),
            _ => false,
        },
    }
}

/// Every prefix of a run keeps its phase in step with the store.
pub proof fn lemma_run_trace_tracks(s: RunState, files: Files, run: Interpreters, events: Seq<EventView>)
    requires
        run_tracks(s, files, run),
    ensures
        run_trace(s, files, run, events) matches Some(t) ==> run_tracks(t, files, run) && t.name == s.name && t.base == s.base,
    decreases events.len(),
{
    if events.len() > 0 && answers(files, run, run_request(s), events[0]) {
        lemma_run_trace_tracks(run_next(s, events[0]), files, run, events.drop_first());
    }
}

/// A run of a name with no artifact in either language never asks for the interpreter,
/// and when it ends it ends as not found.
pub proof fn law_run_missing_never_executes(name: Seq<char>, files: Files, run: Interpreters, events: Seq<EventView>)
    requires
        !files.contains_key(candidate_path(lower_of(name), Language::Js)),
        !files.contains_key(candidate_path(lower_of(name), Language::Py)),
    ensures
        run_trace(run_fresh(name), files, run, events) matches Some(s) ==> {
            &&& !(run_request(s) is Execute)
            &&& s.phase is Finished ==> s.phase == RunPhase::Finished(Outcome::NotFound)
        },
{
    lemma_run_trace_tracks(run_fresh(name), files, run, events);
}

/// One run of a stored command: finding its artifact, the progress message, the
/// interpreter run, and the reply with what it printed.
pub struct RunSession {
    phase: RunPhase,
    name: String,
    base: String,
    language: Language,
    output: Vec<u8>,
    report: String,
}

impl View for RunSession {
    type V = RunState;

    closed spec fn view(&self) -> RunState {
        RunState {
            phase: self.phase,
            name: self.name@,
            base: self.base@,
            language: self.language,
            output: self.output@,
            report: self.report@,
        }
    }
}

impl RunSession {
    /// Starts a run of the command typed as `name`.
    pub fn start(name: &str) -> (r: (RunSession, Action))
        ensures
            r.0@ == run_fresh(name@),
            r.1@ == run_request(r.0@),
    {
        let base = lowercase(name);
        let path = candidate_artifact_path(base.as_str(), Language::Js);
        let s = RunSession {
            phase: RunPhase::ProbingJs,
            name: String::from_str(name),
            base,
            language: Language::Js,
            output: Vec::new(),
            report: String::new(),
        };
        proof {
            assert(s@.output =~= Seq::<u8>::empty());
            assert(s@.report =~= Seq::<char>::empty());
        }
        (s, Action::Probe { path })
    }

    fn request(&self) -> (r: Action)
        ensures
            r@ == run_request(self@),
    {
        match self.phase {
            RunPhase::ProbingJs => Action::Probe { path: candidate_artifact_path(self.base.as_str(), Language::Js) },
            RunPhase::ProbingPy => Action::Probe { path: candidate_artifact_path(self.base.as_str(), Language::Py) },
            RunPhase::Acknowledging => Action::Acknowledge { text: join("Running command: ", self.name.as_str()) },
            RunPhase::Executing => Action::Execute {
                path: candidate_artifact_path(self.base.as_str(), self.language),
                language: self.language,
            },
            RunPhase::Retracting => Action::Retract,
            RunPhase::Finished(_) => Action::Reply { text: self.report.clone() },
        }
    }

    /// Takes `event`, the answer to the last action, and returns the next action.
    pub fn step(&mut self, event: Event) -> (r: Action)
        ensures
            final(self)@ == run_next(old(self)@, event@),
            r@ == run_request(final(self)@),
    {
        match self.phase {
            RunPhase::ProbingJs => match event {
                Event::Probed(true) => {
                    self.language = Language::Js;
                    self.phase = RunPhase::Acknowledging;
                },
                Event::Probed(false) => {
                    self.phase = RunPhase::ProbingPy;
                },
                _ => {},
            },
            RunPhase::ProbingPy => match event {
                Event::Probed(true) => {
                    self.language = Language::Py;
                    self.phase = RunPhase::Acknowledging;
                },
                Event::Probed(false) => {
                    self.report = join3("Command ", self.name.as_str(), " does not exist");
                    self.phase = RunPhase::Finished(Outcome::NotFound);
                },
                _ => {},
            },
            RunPhase::Acknowledging => match event {
                Event::Done => {
                    self.phase = RunPhase::Executing;
                },
                Event::Failed(m) => {
                    self.report = join("Request failed: ", m.as_str());
                    self.phase = RunPhase::Finished(Outcome::IoFailure);
                },
                _ => {},
            },
            RunPhase::Executing => match event {
                Event::Executed(x) => {
                    let report = failure_report(&x);
                    match x {
                        Execution::Exited { success, stdout, .. } => {
                            if success {
                                self.output = stdout;
                                self.phase = RunPhase::Retracting;
                            } else {
                                self.report = report;
                                self.phase = RunPhase::Finished(Outcome::NonZeroExit);
                            }
                        },
                        Execution::LaunchFailed { .. } => {
                            self.report = report;
                            self.phase = RunPhase::Finished(Outcome::LaunchFailure);
                        },
                    }
                },
                _ => {},
            },
            RunPhase::Retracting => match event {
                Event::Done => {
                    let shown = lossy_text(&self.output);
                    self.report = join3("```\n", shown.as_str(), "\n```");
                    self.phase = RunPhase::Finished(Outcome::Ran);
                },
                Event::Failed(m) => {
                    self.report = join("Request failed: ", m.as_str());
                    self.phase = RunPhase::Finished(Outcome::IoFailure);
                },
                _ => {},
            },
            RunPhase::Finished(_) => {},
        }
        self.request()
    }

    /// How the run ended, once it has.
    pub fn outcome(&self) -> (r: Option<Outcome>)
        ensures
            match self@.phase {
                RunPhase::Finished(o) => r == Some(o),
                _ => r is None,
            },
    {
        match self.phase {
            RunPhase::Finished(o) => Some(o),
            _ => None,
        }
    }

    /// What the run printed, once it passed.
    pub fn output(&self) -> (r: &Vec<u8>)
        ensures
            r@ == self@.output,
    {
        &self.output
    }
}

/// Where an export of a stored command stands.
#[derive(Clone, Copy, Debug, PartialEq, Eq, Structural)]
pub enum ExportPhase {
    /// Looking for a JavaScript artifact.
    ProbingJs,
    /// Looking for a Python artifact.
    ProbingPy,
    /// Reading the artifact found.
    Reading,
    /// Over; the final reply (or attachment) is due.
    Finished(Outcome),
}

/// Model of an [`ExportSession`].
pub struct ExportState {
    pub phase: ExportPhase,
    /// The command's bare name, as given.
    pub name: Seq<char>,
    /// The name as stored: lower-cased.
    pub base: Seq<char>,
    /// The language of the artifact found.
    pub language: Language,
    /// The artifact's bytes, once read.
    pub contents: Seq<u8>,
    /// Text of the final reply when it is not the attachment.
    pub report: Seq<char>,
}

/// An export of the command typed as `name`, before anything is done; names are looked up
/// lower-cased, as they are stored.
pub open spec fn export_fresh(name: Seq<char>) -> ExportState {
    ExportState {
        phase: ExportPhase::ProbingJs,
        name,
        base: lower_of(name),
        language: Language::Js,
        contents: Seq::empty(),
        report: Seq::empty(),
    }
}

/// What an export in state `s` asks for.
pub open spec fn export_request(s: ExportState) -> Effect {
    match s.phase {
        ExportPhase::ProbingJs => Effect::Probe { path: candidate_path(s.base, Language::Js) },
        ExportPhase::ProbingPy => Effect::Probe { path: candidate_path(s.base, Language::Py) },
        ExportPhase::Reading => Effect::Read { path: candidate_path(s.base, s.language) },
        ExportPhase::Finished(Outcome::Exported) => Effect::Attach {
            file_name: s.base + dotted_extension_of(s.language),
            contents: s.contents,
            caption: caption_text(s.name),
        },
        ExportPhase::Finished(_) => Effect::Reply { text: s.report },
    }
}

/// The state an export in state `s` moves to on `e`; an event that does not answer the
/// pending request leaves it where it is.
pub open spec fn export_next(s: ExportState, e: EventView) -> ExportState {
    match s.phase {
        ExportPhase::ProbingJs => match e {
            EventView::Probed(true) => ExportState { phase: ExportPhase::Reading, language: Language::Js, ..s },
            EventView::Probed(false) => ExportState { phase: ExportPhase::ProbingPy, ..s },
            _ => s,
        },
        ExportPhase::ProbingPy => match e {
            EventView::Probed(true) => ExportState { phase: ExportPhase::Reading, language: Language::Py, ..s },
            EventView::Probed(false) => ExportState {
                phase: ExportPhase::Finished(Outcome::NotFound),
                report: missing_text(s.name),
                ..s
            },
            _ => s,
        },
        ExportPhase::Reading => match e {
            EventView::Loaded(b) => ExportState { phase: ExportPhase::Finished(Outcome::Exported), contents: b, ..s },
            EventView::Failed(m) => ExportState {
                phase: ExportPhase::Finished(Outcome::IoFailure),
                report: io_text(m),
                ..s
            },
            _ => s,
        },
        ExportPhase::Finished(_) => s,
    }
}

/// The export state reached from `s` when `events` answer its requests in turn on `files`;
/// `None` when one of them is no possible answer. An export changes no file.
pub open spec fn export_trace(s: ExportState, files: Files, run: Interpreters, events: Seq<EventView>) -> Option<ExportState>
    decreases events.len(),
{
    if events.len() == 0 {
        Some(s)
    } else if answers(files, run, export_request(s), events[0]) {
        export_trace(export_next(s, events[0]), files, run, events.drop_first())
    } else {
        None
    }
}

/// How an export in state `s` relates to the store `files` it reads.
pub open spec fn export_tracks(s: ExportState, files: Files) -> bool {
    match s.phase {
        ExportPhase::ProbingJs => true,
        ExportPhase::ProbingPy => !files.contains_key(candidate_path(s.base, Language::Js)),
        ExportPhase::Reading => resolves_to(files, s.base, s.language),
        ExportPhase::Finished(o) => match o {
            Outcome::NotFound => {
                &&& !files.contains_key(candidate_path(s.base, Language::Js))
                &&& !files.contains_key(candidate_path(s.base, Language::Py))
            },
            Outcome::Exported => {
                &&& resolves_to(files, s.base, s.language)
                &&& s.contents == files[candidate_path(s.base, s.language)]
            },
            Outcome::IoFailure => resolves_to(files, s.base, s.language),
            _ => false,
        },
    }
}

/// Every prefix of an export keeps its phase in step with the store.
pub proof fn lemma_export_trace_tracks(s: ExportState, files: Files, run: Interpreters, events: Seq<EventView>)
    requires
        export_tracks(s, files),
    ensures
        export_trace(s, files, run, events) matches Some(t) ==> export_tracks(t, files) && t.name == s.name && t.base == s.base,
    decreases events.len(),
{
    if events.len() > 0 && answers(files, run, export_request(s), events[0]) {
        export_trace_step_tracks(s, files, run, events[0]);
        lemma_export_trace_tracks(export_next(s, events[0]), files, run, events.drop_first());
    }
}

proof fn export_trace_step_tracks(s: ExportState, files: Files, run: Interpreters, e: EventView)
    requires
        export_tracks(s, files),
        answers(files, run, export_request(s), e),
    ensures
        export_tracks(export_next(s, e), files),
{
}

/// One export of a stored command: finding its artifact, reading it, and sending it back.
pub struct ExportSession {
    phase: ExportPhase,
    name: String,
    base: String,
    language: Language,
    contents: Vec<u8>,
    report: String,
}

impl View for ExportSession {
    type V = ExportState;

    closed spec fn view(&self) -> ExportState {
        ExportState {
            phase: self.phase,
            name: self.name@,
            base: self.base@,
            language: self.language,
            contents: self.contents@,
            report: self.report@,
        }
    }
}

impl ExportSession {
    /// Starts an export of the command typed as `name`.
    pub fn start(name: &str) -> (r: (ExportSession, Action))
        ensures
            r.0@ == export_fresh(name@),
            r.1@ == export_request(r.0@),
    {
        let base = lowercase(name);
        let path = candidate_artifact_path(base.as_str(), Language::Js);
        let s = ExportSession {
            phase: ExportPhase::ProbingJs,
            name: String::from_str(name),
            base,
            language: Language::Js,
            contents: Vec::new(),
            report: String::new(),
        };
        proof {
            assert(s@.contents =~= Seq::<u8>::empty());
            assert(s@.report =~= Seq::<char>::empty());
        }
        (s, Action::Probe { path })
    }

    fn request(&self) -> (r: Action)
        ensures
            r@ == export_request(self@),
    {
        match self.phase {
            ExportPhase::ProbingJs => Action::Probe { path: candidate_artifact_path(self.base.as_str(), Language::Js) },
            ExportPhase::ProbingPy => Action::Probe { path: candidate_artifact_path(self.base.as_str(), Language::Py) },
            ExportPhase::Reading => Action::Read { path: candidate_artifact_path(self.base.as_str(), self.language) },
            ExportPhase::Finished(Outcome::Exported) => {
                let contents = self.contents.clone();
                assert(contents@ =~= self.contents@);
                Action::Attach {
                    file_name: join(self.base.as_str(), self.language.dotted_extension()),
                    contents,
                    caption: join("Exporting command: ", self.name.as_str()),
                }
            },
            ExportPhase::Finished(_) => Action::Reply { text: self.report.clone() },
        }
    }

    /// Takes `event`, the answer to the last action, and returns the next action.
    pub fn step(&mut self, event: Event) -> (r: Action)
        ensures
            final(self)@ == export_next(old(self)@, event@),
            r@ == export_request(final(self)@),
    {
        match self.phase {
            ExportPhase::ProbingJs => match event {
                Event::Probed(true) => {
                    self.language = Language::Js;
                    self.phase = ExportPhase::Reading;
                },
                Event::Probed(false) => {
                    self.phase = ExportPhase::ProbingPy;
                },
                _ => {},
            },
            ExportPhase::ProbingPy => match event {
                Event::Probed(true) => {
                    self.language = Language::Py;
                    self.phase = ExportPhase::Reading;
                },
                Event::Probed(false) => {
                    self.report = join3("Command ", self.name.as_str(), " does not exist");
                    self.phase = ExportPhase::Finished(Outcome::NotFound);
                },
                _ => {},
            },
            ExportPhase::Reading => match event {
                Event::Loaded(b) => {
                    self.contents = b;
                    self.phase = ExportPhase::Finished(Outcome::Exported);
                },
                Event::Failed(m) => {
                    self.report = join("Request failed: ", m.as_str());
                    self.phase = ExportPhase::Finished(Outcome::IoFailure);
                },
                _ => {},
            },
            ExportPhase::Finished(_) => {},
        }
        self.request()
    }

    /// How the export ended, once it has.
    pub fn outcome(&self) -> (r: Option<Outcome>)
        ensures
            match self@.phase {
                ExportPhase::Finished(o) => r == Some(o),
                _ => r is None,
            },
    {
        match self.phase {
            ExportPhase::Finished(o) => Some(o),
            _ => None,
        }
    }
}

} // verus!
