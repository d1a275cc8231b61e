use vstd::prelude::*;
use crate::import::{import_fresh, import_next, import_request, import_trace, lemma_import_trace_tracks, ImportPhase, ImportState};
use crate::language::{dotted_extension_of, Language};
use crate::lookup::{
    export_fresh, export_request, export_trace, lemma_export_trace_tracks, lemma_run_trace_tracks,
    run_fresh, run_trace, ExportPhase, ExportState, RunPhase, RunState,
};
use crate::naming::{candidate_path, normalized_name, path_of};
use crate::text::lower_of;
use crate::protocol::{after, answers, Effect, EventView, ExecutionView, Files, Interpreters, Outcome};

verus! {

/// The artifact of `base` in language `l` is the one a lookup of `base` finds in `files`:
/// no JavaScript artifact of the same base name shadows a Python one.
pub open spec fn found_first(files: Files, base: Seq<char>, l: Language) -> bool {
    l == Language::Py ==> !files.contains_key(candidate_path(base, Language::Js))
}

/// The command typed as `name` in language `l` is stored under its lower-cased form with the
/// extension of `l` appended: `name` does not already carry that extension.
pub open spec fn stored_as_stem(name: Seq<char>, l: Language) -> bool {
    normalized_name(name, l) == lower_of(name) + dotted_extension_of(l)
}

/// With deterministic scripts, running a command right after importing it, under the name
/// typed for the import in any case, prints what the import's smoke test printed.
pub proof fn law_run_repeats_smoke_test(
    name: Seq<char>,
    l: Language,
    source: Seq<u8>,
    fetch: bool,
    shown: Seq<char>,
    head: Seq<char>,
    files: Files,
    run: Interpreters,
    import_events: Seq<EventView>,
    run_events: Seq<EventView>,
    imported: ImportState,
    stored: Files,
    ran: RunState,
)
    requires
        stored_as_stem(name, l),
        import_trace(import_fresh(normalized_name(name, l), l, source, fetch, shown, head), files, run, import_events)
            == Some((imported, stored)),
        imported.phase == ImportPhase::Finished(Outcome::Imported),
        found_first(stored, lower_of(name), l),
        run_trace(run_fresh(name), stored, run, run_events) == Some(ran),
        ran.phase == RunPhase::Finished(Outcome::Ran),
    ensures
        ran.output == imported.output,
{
    let start = import_fresh(normalized_name(name, l), l, source, fetch, shown, head);
    lemma_import_trace_tracks(start, files, files, run, import_events);
    lemma_run_trace_tracks(run_fresh(name), stored, run, run_events);
}

/// Exporting a command right after importing it, under the name typed for the import in any
/// case, sends back exactly the bytes the import stored: the code block given, or the file
/// fetched.
pub proof fn law_export_returns_imported_bytes(
    name: Seq<char>,
    l: Language,
    source: Seq<u8>,
    fetch: bool,
    shown: Seq<char>,
    head: Seq<char>,
    files: Files,
    run: Interpreters,
    import_events: Seq<EventView>,
    export_events: Seq<EventView>,
    imported: ImportState,
    stored: Files,
    exported: ExportState,
)
    requires
        stored_as_stem(name, l),
        import_trace(import_fresh(normalized_name(name, l), l, source, fetch, shown, head), files, run, import_events)
            == Some((imported, stored)),
        imported.phase == ImportPhase::Finished(Outcome::Imported),
        found_first(stored, lower_of(name), l),
        export_trace(export_fresh(name), stored, run, export_events) == Some(exported),
        exported.phase == ExportPhase::Finished(Outcome::Exported),
    ensures
        export_request(exported) matches Effect::Attach { contents, .. } && contents == imported.source,
        !fetch ==> imported.source == source,
{
    let start = import_fresh(normalized_name(name, l), l, source, fetch, shown, head);
    lemma_import_trace_tracks(start, files, files, run, import_events);
    lemma_export_trace_tracks(export_fresh(name), stored, run, export_events);
}

/// The script `source` in language `l` passes its smoke test under `run`.
pub open spec fn passes(run: Interpreters, l: Language, source: Seq<u8>) -> bool {
    run(l, source) matches ExecutionView::Exited { success, .. } && success
}

/// Imports of one name are not serialised: when two imports of a new name both have their
/// existence check answered before either writes, both are answered as valid at every
/// step and both commit, and the artifact left is the one written last.
pub proof fn law_interleaved_imports_both_commit(
    name: Seq<char>,
    l: Language,
    first: Seq<u8>,
    second: Seq<u8>,
    shown: Seq<char>,
    head: Seq<char>,
    files: Files,
    run: Interpreters,
)
    requires
        !files.contains_key(path_of(name)),
        passes(run, l, first),
        passes(run, l, second),
    ensures
        ({
            let a0 = import_fresh(name, l, first, false, shown, head);
            let b0 = import_fresh(name, l, second, false, shown, head);
            let absent = EventView::Probed(false);
            // Both existence checks are answered on the untouched store.
            let a1 = import_next(a0, absent);
            let b1 = import_next(b0, absent);
            // The first import writes and passes its smoke test.
            let f1 = after(files, import_request(a1), EventView::Done);
            let a2 = import_next(a1, EventView::Done);
            let a3 = import_next(a2, EventView::Executed(run(l, first)));
            // The second one then writes over it and passes too.
            let f2 = after(f1, import_request(b1), EventView::Done);
            let b2 = import_next(b1, EventView::Done);
            let b3 = import_next(b2, EventView::Executed(run(l, second)));
            &&& answers(files, run, import_request(a0), absent)
            &&& answers(files, run, import_request(b0), absent)
            &&& answers(files, run, import_request(a1), EventView::Done)
            &&& answers(f1, run, import_request(a2), EventView::Executed(run(l, first)))
            &&& answers(f1, run, import_request(b1), EventView::Done)
            &&& answers(f2, run, import_request(b2), EventView::Executed(run(l, second)))
            &&& a3.phase == ImportPhase::Finished(Outcome::Imported)
            &&& b3.phase == ImportPhase::Finished(Outcome::Imported)
            &&& f2 == files.insert(path_of(name), second)
        }),
{
    let p = path_of(name);
    assert(files.insert(p, first).insert(p, second) =~= files.insert(p, second));
}

} // verus!
