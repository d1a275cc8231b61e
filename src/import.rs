use vstd::prelude::*;
use crate::language::Language;
use crate::naming::{artifact_path, file_naming, opt_view, path_of, text_naming, validate_file_import, validate_text_import};
use crate::protocol::{
    after, answers, error_text, exists_text, failure_detail, failure_report, file_import_head,
    imported_text, io_text, text_import_head,
    unsupported_text, Action, Effect, Event, EventView, Execution, ExecutionView, Files, Interpreters,
    Outcome,
};
use crate::text::{join, join3, lossy_text};

verus! {

/// Where an import stands.
#[derive(Clone, Copy, Debug, PartialEq, Eq, Structural)]
pub enum ImportPhase {
    /// Asking whether the name is taken.
    Checking,
    /// Fetching the uploaded file's contents.
    Fetching,
    /// Writing the artifact.
    Storing,
    /// Running the new artifact once.
    SmokeTesting,
    /// Deleting the artifact after its smoke test failed with the given outcome.
    RollingBack(Outcome),
    /// Over; the final reply is due.
    Finished(Outcome),
}

/// Model of an [`ImportSession`].
pub struct ImportState {
    pub phase: ImportPhase,
    /// Canonical name of the command.
    pub name: Seq<char>,
    pub language: Language,
    /// The script's bytes; for an uploaded file, known once fetched.
    pub source: Seq<u8>,
    /// Whether the script's bytes are still to be fetched after the name check.
    pub fetch: bool,
    /// The name that the reply to a taken name shows.
    pub shown: Seq<char>,
    /// Opening of the reply to a successful import.
    pub head: Seq<char>,
    /// What the smoke test printed, once it passed.
    pub output: Seq<u8>,
    /// Text of the final reply, once known.
    pub report: Seq<char>,
}

/// The state of an import of command `name` in language `l`, before anything is done:
/// its bytes are `source`, or are fetched once the name is found free when `fetch` holds.
/// A taken name is reported as `shown`; success is reported after `head`.
pub open spec fn import_fresh(
    name: Seq<char>,
    l: Language,
    source: Seq<u8>,
    fetch: bool,
    shown: Seq<char>,
    head: Seq<char>,
) -> ImportState {
    ImportState {
        phase: ImportPhase::Checking,
        name,
        language: l,
        source,
        fetch,
        shown,
        head,
        output: Seq::empty(),
        report: Seq::empty(),
    }
}

/// What an import in state `s` asks for.
pub open spec fn import_request(s: ImportState) -> Effect {
    match s.phase {
        ImportPhase::Checking => Effect::Probe { path: path_of(s.name) },
        ImportPhase::Fetching => Effect::Fetch,
        ImportPhase::Storing => Effect::Write { path: path_of(s.name), contents: s.source },
        ImportPhase::SmokeTesting => Effect::Execute { path: path_of(s.name), language: s.language },
        ImportPhase::RollingBack(_) => Effect::Remove { path: path_of(s.name) },
        ImportPhase::Finished(_) => Effect::Reply { text: s.report },
    }
}

/// An import ends with `outcome` and replies `report`.
pub open spec fn import_finish(s: ImportState, outcome: Outcome, report: Seq<char>) -> ImportState {
    ImportState { phase: ImportPhase::Finished(outcome), report, ..s }
}

/// The state an import in state `s` moves to on `e`; an event that does not answer
/// the pending request leaves it where it is.
pub open spec fn import_next(s: ImportState, e: EventView) -> ImportState {
    match s.phase {
        ImportPhase::Checking => match e {
            EventView::Probed(true) => import_finish(s, Outcome::AlreadyExists, exists_text(s.shown)),
            EventView::Probed(false) => if s.fetch {
                ImportState { phase: ImportPhase::Fetching, ..s }
            } else {
                ImportState { phase: ImportPhase::Storing, ..s }
            },
            _ => s,
        },
        ImportPhase::Fetching => match e {
            EventView::Loaded(b) => ImportState { phase: ImportPhase::Storing, source: b, ..s },
            EventView::Failed(m) => import_finish(s, Outcome::IoFailure, io_text(m)),
            _ => s,
        },
        ImportPhase::Storing => match e {
            EventView::Done => ImportState { phase: ImportPhase::SmokeTesting, ..s },
            EventView::Failed(m) => import_finish(s, Outcome::IoFailure, io_text(m)),
            _ => s,
        },
        ImportPhase::SmokeTesting => match e {
            EventView::Executed(x) => match x {
                ExecutionView::Exited { success: true, stdout, .. } => ImportState {
                    phase: ImportPhase::Finished(Outcome::Imported),
                    output: stdout,
                    report: imported_text(s.head, stdout),
                    ..s
                },
                ExecutionView::Exited { success: false, .. } => ImportState {
                    phase: ImportPhase::RollingBack(Outcome::NonZeroExit),
                    report: error_text(failure_detail(x)),
                    ..s
                },
                ExecutionView::LaunchFailed { .. } => ImportState {
                    phase: ImportPhase::RollingBack(Outcome::LaunchFailure),
                    report: error_text(failure_detail(x)),
                    ..s
                },
            },
            _ => s,
        },
        ImportPhase::RollingBack(o) => match e {
            EventView::Done => ImportState { phase: ImportPhase::Finished(o), ..s },
            EventView::Failed(m) => import_finish(s, Outcome::IoFailure, io_text(m)),
            _ => s,
        },
        ImportPhase::Finished(_) => s,
    }
}

/// The import state and the store reached from `s` and `files` when `events` answer its
/// requests in turn; `None` when one of them is no possible answer.
pub open spec fn import_trace(s: ImportState, files: Files, run: Interpreters, events: Seq<EventView>) -> Option<(ImportState, Files)>
    decreases events.len(),
{
    if events.len() == 0 {
        Some((s, files))
    } else if answers(files, run, import_request(s), events[0]) {
        import_trace(
            import_next(s, events[0]),
            after(files, import_request(s), events[0]),
            run,
            events.drop_first(),
        )
    } else {
        None
    }
}

/// How an import in state `s` that started on store `before` relates to the store `now`.
pub open spec fn import_tracks(s: ImportState, before: Files, now: Files, run: Interpreters) -> bool {
    let p = path_of(s.name);
    let stored = before.insert(p, s.source);
    match s.phase {
        ImportPhase::Checking => now == before,
        ImportPhase::Fetching => now == before && !before.contains_key(p) && s.fetch,
        ImportPhase::Storing => now == before && !before.contains_key(p),
        ImportPhase::SmokeTesting => now == stored && !before.contains_key(p),
        ImportPhase::RollingBack(o) => {
            &&& now == stored
            &&& !before.contains_key(p)
            &&& (o == Outcome::NonZeroExit || o == Outcome::LaunchFailure)
        },
        ImportPhase::Finished(o) => match o {
            Outcome::AlreadyExists => now == before && before.contains_key(p),
            Outcome::Imported => {
                &&& now == stored
                &&& !before.contains_key(p)
                &&& run(s.language, s.source) matches ExecutionView::Exited { success, stdout, .. }
                &&& success && stdout == s.output
            },
            Outcome::NonZeroExit | Outcome::LaunchFailure => now == before && !before.contains_key(p),
            Outcome::IoFailure => (now == before || now == stored) && !before.contains_key(p),
            _ => false,
        },
    }
}

proof fn lemma_import_step_tracks(s: ImportState, before: Files, now: Files, run: Interpreters, e: EventView)
    requires
        import_tracks(s, before, now, run),
        answers(now, run, import_request(s), e),
    ensures
        import_tracks(import_next(s, e), before, after(now, import_request(s), e), run),
{
    let p = path_of(s.name);
    if let ImportPhase::RollingBack(_) = s.phase {
        if e is Done {
            assert(before.insert(p, s.source).remove(p) =~= before);
        }
    }
}

/// Every prefix of an import keeps the store in step with the import's phase.
pub proof fn lemma_import_trace_tracks(s: ImportState, before: Files, now: Files, run: Interpreters, events: Seq<EventView>)
    requires
        import_tracks(s, before, now, run),
    ensures
        import_trace(s, now, run, events) matches Some((t, f)) ==> {
            &&& import_tracks(t, before, f, run)
            &&& t.name == s.name && t.language == s.language && t.fetch == s.fetch
            &&& !s.fetch ==> t.source == s.source
        },
    decreases events.len(),
{
    if events.len() > 0 && answers(now, run, import_request(s), events[0]) {
        lemma_import_step_tracks(s, before, now, run, events[0]);
        lemma_import_trace_tracks(
            import_next(s, events[0]),
            before,
            after(now, import_request(s), events[0]),
            run,
            events.drop_first(),
        );
    }
}

/// An import under a name that is already stored never touches the store, and when it
/// ends it ends rejected as already existing: the stored artifact keeps its bytes.
pub proof fn law_import_keeps_existing(
    name: Seq<char>,
    l: Language,
    source: Seq<u8>,
    fetch: bool,
    shown: Seq<char>,
    head: Seq<char>,
    files: Files,
    run: Interpreters,
    events: Seq<EventView>,
)
    requires
        files.contains_key(path_of(name)),
    ensures
        import_trace(import_fresh(name, l, source, fetch, shown, head), files, run, events) matches Some((s, f)) ==> {
            &&& f == files
            &&& f[path_of(name)] == files[path_of(name)]
            &&& s.phase is Finished ==> s.phase == ImportPhase::Finished(Outcome::AlreadyExists)
        },
{
    lemma_import_trace_tracks(import_fresh(name, l, source, fetch, shown, head), files, files, run, events);
}

/// An import is all or nothing: when its script fails to start or exits with a failure
/// status, no artifact is left under its name and the store is as it was; when it
/// succeeds, the store gains exactly the new artifact, holding the bytes given or fetched.
pub proof fn law_import_all_or_nothing(
    name: Seq<char>,
    l: Language,
    source: Seq<u8>,
    fetch: bool,
    shown: Seq<char>,
    head: Seq<char>,
    files: Files,
    run: Interpreters,
    events: Seq<EventView>,
)
    ensures
        import_trace(import_fresh(name, l, source, fetch, shown, head), files, run, events) matches Some((s, f)) ==> {
            &&& (s.phase == ImportPhase::Finished(Outcome::LaunchFailure)
                || s.phase == ImportPhase::Finished(Outcome::NonZeroExit))
                ==> !f.contains_key(path_of(name)) && f == files
            &&& s.phase == ImportPhase::Finished(Outcome::Imported)
                ==> f == files.insert(path_of(name), s.source)
            &&& !fetch ==> s.source == source
        },
{
    lemma_import_trace_tracks(import_fresh(name, l, source, fetch, shown, head), files, files, run, events);
}

/// One import of a script as a command: the phases it goes through, the messages it sends, and
/// the rollback of an artifact whose smoke test failed.
pub struct ImportSession {
    phase: ImportPhase,
    name: String,
    language: Language,
    source: Vec<u8>,
    fetch: bool,
    shown: String,
    head: String,
    output: Vec<u8>,
    report: String,
}

impl View for ImportSession {
    type V = ImportState;

    closed spec fn view(&self) -> ImportState {
        ImportState {
            phase: self.phase,
            name: self.name@,
            language: self.language,
            source: self.source@,
            fetch: self.fetch,
            shown: self.shown@,
            head: self.head@,
            output: self.output@,
            report: self.report@,
        }
    }
}

impl ImportSession {
    fn checking(name: String, language: Language, source: Vec<u8>, fetch: bool, shown: String, head: String) -> (r: (ImportSession, Action))
        ensures
            r.0@ == import_fresh(name@, language, source@, fetch, shown@, head@),
            r.1@ == import_request(r.0@),
    {
        let path = artifact_path(name.as_str());
        let s = ImportSession {
            phase: ImportPhase::Checking,
            name,
            language,
            source,
            fetch,
            shown,
            head,
            output: Vec::new(),
            report: String::new(),
        };
        proof {
            assert(s@.output =~= Seq::<u8>::empty());
            assert(s@.report =~= Seq::<char>::empty());
        }
        (s, Action::Probe { path })
    }

    fn unsupported() -> (r: (ImportSession, Action))
        ensures
            r.0@.phase == ImportPhase::Finished(Outcome::UnsupportedLanguage),
            r.0@.report == unsupported_text(),
            r.1@ == import_request(r.0@),
    {
        let s = ImportSession {
            phase: ImportPhase::Finished(Outcome::UnsupportedLanguage),
            name: String::new(),
            language: Language::Js,
            source: Vec::new(),
            fetch: false,
            shown: String::new(),
            head: String::new(),
            output: Vec::new(),
            report: String::from_str("Only JS and PY files are supported"),
        };
        let text = String::from_str("Only JS and PY files are supported");
        (s, Action::Reply { text })
    }

    /// Starts the import of an uploaded file called `file_name`, stored under `name` if
    /// given, else under the file's name. Its contents are fetched once the name is found free.
    pub fn from_file(file_name: &str, name: Option<&str>) -> (r: (ImportSession, Action))
        ensures
            match file_naming(file_name@, opt_view(name)) {
                Some((n, l)) => r.0@ == import_fresh(n, l, Seq::empty(), true, n, file_import_head(file_name@, n)),
                None => r.0@.phase == ImportPhase::Finished(Outcome::UnsupportedLanguage)
                    && r.0@.report == unsupported_text(),
            },
            r.1@ == import_request(r.0@),
    {
        match validate_file_import(file_name, name) {
            Some((n, l)) => {
                let shown = n.clone();
                let head = join3("Imported file ", file_name, " as command: `");
                let head = join3(head.as_str(), n.as_str(), "`\nOutput: ");
                ImportSession::checking(n, l, Vec::new(), true, shown, head)
            },
            None => ImportSession::unsupported(),
        }
    }

    /// Starts the import of a code block tagged `tag` holding `code`, as command `name`.
    pub fn from_text(name: &str, tag: Option<&str>, code: Vec<u8>) -> (r: (ImportSession, Action))
        ensures
            match text_naming(name@, opt_view(tag)) {
                Some((n, l)) => r.0@ == import_fresh(n, l, code@, false, name@, text_import_head(name@)),
                None => r.0@.phase == ImportPhase::Finished(Outcome::UnsupportedLanguage)
                    && r.0@.report == unsupported_text(),
            },
            r.1@ == import_request(r.0@),
    {
        match validate_text_import(name, tag) {
            Some((n, l)) => {
                let head = join3("Imported text as command: `", name, "`\nOutput: ");
                ImportSession::checking(n, l, code, false, String::from_str(name), head)
            },
            None => ImportSession::unsupported(),
        }
    }

    /// The request the session waits on.
    fn request(&self) -> (r: Action)
        ensures
            r@ == import_request(self@),
    {
        match self.phase {
            ImportPhase::Checking => Action::Probe { path: artifact_path(self.name.as_str()) },
            ImportPhase::Fetching => Action::Fetch,
            ImportPhase::Storing => {
                let contents = self.source.clone();
                assert(contents@ =~= self.source@);
                Action::Write { path: artifact_path(self.name.as_str()), contents }
            },
            ImportPhase::SmokeTesting => Action::Execute {
                path: artifact_path(self.name.as_str()),
                language: self.language,
            },
            ImportPhase::RollingBack(_) => Action::Remove { path: artifact_path(self.name.as_str()) },
            ImportPhase::Finished(_) => Action::Reply { text: self.report.clone() },
        }
    }

    /// Takes `event`, the answer to the last action, and returns the next action.
    pub fn step(&mut self, event: Event) -> (r: Action)
        ensures
            final(self)@ == import_next(old(self)@, event@),
            r@ == import_request(final(self)@),
    {
        match self.phase {
            ImportPhase::Checking => match event {
                Event::Probed(true) => {
                    self.report = join3("Command ", self.shown.as_str(), " already exists");
                    self.phase = ImportPhase::Finished(Outcome::AlreadyExists);
                },
                Event::Probed(false) => {
                    if self.fetch {
                        self.phase = ImportPhase::Fetching;
                    } else {
                        self.phase = ImportPhase::Storing;
                    }
                },
                _ => {},
            },
            ImportPhase::Fetching => match event {
                Event::Loaded(b) => {
                    self.source = b;
                    self.phase = ImportPhase::Storing;
                },
                Event::Failed(m) => {
                    self.report = join("Request failed: ", m.as_str());
                    self.phase = ImportPhase::Finished(Outcome::IoFailure);
                },
                _ => {},
            },
            ImportPhase::Storing => match event {
                Event::Done => {
                    self.phase = ImportPhase::SmokeTesting;
                },
                Event::Failed(m) => {
                    self.report = join("Request failed: ", m.as_str());
                    self.phase = ImportPhase::Finished(Outcome::IoFailure);
                },
                _ => {},
            },
            ImportPhase::SmokeTesting => match event {
                Event::Executed(x) => {
                    let report = failure_report(&x);
                    match x {
                        Execution::Exited { success, stdout, .. } => {
                            if success {
                                let shown = lossy_text(&stdout);
                                self.report = join(self.head.as_str(), shown.as_str());
                                self.output = stdout;
                                self.phase = ImportPhase::Finished(Outcome::Imported);
                            } else {
                                self.report = report;
                                self.phase = ImportPhase::RollingBack(Outcome::NonZeroExit);
                            }
                        },
                        Execution::LaunchFailed { .. } => {
                            self.report = report;
                            self.phase = ImportPhase::RollingBack(Outcome::LaunchFailure);
                        },
                    }
                },
                _ => {},
            },
            ImportPhase::RollingBack(o) => match event {
                Event::Done => {
                    self.phase = ImportPhase::Finished(o);
                },
                Event::Failed(m) => {
                    self.report = join("Request failed: ", m.as_str());
                    self.phase = ImportPhase::Finished(Outcome::IoFailure);
                },
                _ => {},
            },
            ImportPhase::Finished(_) => {},
        }
        self.request()
    }

    /// How the import ended, once it has.
    pub fn outcome(&self) -> (r: Option<Outcome>)
        ensures
            match self@.phase {
                ImportPhase::Finished(o) => r == Some(o),
                _ => r is None,
            },
    {
        match self.phase {
            ImportPhase::Finished(o) => Some(o),
            _ => None,
        }
    }

    /// Canonical name of the command being imported.
    pub fn name(&self) -> (r: &str)
        ensures
            r@ == self@.name,
    {
        self.name.as_str()
    }

    /// The language of the command being imported.
    pub fn language(&self) -> (r: Language)
        ensures
            r == self@.language,
    {
        self.language
    }

    /// What the smoke test printed, once it passed.
    pub fn output(&self) -> (r: &Vec<u8>)
        ensures
            r@ == self@.output,
    {
        &self.output
    }
}

} // verus!
