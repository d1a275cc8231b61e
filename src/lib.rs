//! A registry of user-supplied scripts run as commands.
//!
//! A command is a JavaScript or Python script stored as one file, named after the
//! command. Importing validates the name, refuses a name that is taken, stores the
//! script and runs it once; a script that fails that first run is removed again.
//! Running and exporting look a command up by its bare name, JavaScript first.
//!
//! Each request is a session: a state machine that says which file, process or message
//! operation to perform next and takes back what came of it. The caller performs the
//! operations; the sessions decide. The laws relate whole sessions to a model of the
//! store, a map from path to bytes.

pub mod text;
pub mod language;
pub mod naming;
pub mod protocol;
pub mod import;
pub mod lookup;
pub mod laws;
