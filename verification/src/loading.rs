//! The decisions taken while loading the configuration file. The caller
//! performs each action (finding the path, reading, parsing, writing) and
//! reports how it went; these functions say what to do next.
use vstd::prelude::*;

verus! {

/// What happened at the last step of loading the configuration.
#[derive(Debug, Clone, Copy, PartialEq, Eq, Structural)]
pub enum LoadEvent {
    /// Loading starts.
    Begin,
    /// No configuration directory could be determined.
    PathUnknown,
    /// The configuration path was found; `exists` tells whether a file is there.
    PathFound { exists: bool },
    /// The file could not be read.
    ReadFailed,
    /// The file was read.
    ReadSucceeded,
    /// The file's text is not a valid configuration.
    ParseFailed,
    /// The file's text was parsed into a configuration.
    ParseSucceeded,
    /// The default configuration file could not be written.
    WriteFailed,
    /// The default configuration file was written.
    WriteSucceeded,
}

/// Why loading finished as it did (what the log says).
#[derive(Debug, Clone, Copy, PartialEq, Eq, Structural)]
pub enum LoadNote {
    /// The configuration was loaded from the file.
    Loaded,
    /// The file could not be parsed; defaults are used.
    ParseFailed,
    /// The file could not be read; defaults are used.
    ReadFailed,
    /// A default configuration file was created and its defaults are used.
    CreatedDefault,
    /// The default file could not be created; in-memory defaults are used.
    CreateFailed,
    /// No configuration directory is known; defaults are used.
    NoConfigDir,
}

/// What to do next while loading the configuration.
#[derive(Debug, Clone, Copy, PartialEq, Eq, Structural)]
pub enum LoadAction {
    /// Determine the configuration path and whether a file exists there.
    FindPath,
    /// Read the file.
    ReadFile,
    /// Parse the text that was read.
    ParseContents,
    /// Write the default configuration to the path.
    WriteDefaults,
    /// Stop: use the parsed configuration if `use_file`, else the defaults.
    Finish { use_file: bool, note: LoadNote },
}

/// The next action after `event`.
pub open spec fn load_step(event: LoadEvent) -> LoadAction {
    match event {
        LoadEvent::Begin => LoadAction::FindPath,
        LoadEvent::PathUnknown => LoadAction::Finish { use_file: false, note: LoadNote::NoConfigDir },
        LoadEvent::PathFound { exists } => if exists {
            LoadAction::ReadFile
        } else {
            LoadAction::WriteDefaults
        },
        LoadEvent::ReadFailed => LoadAction::Finish { use_file: false, note: LoadNote::ReadFailed },
        LoadEvent::ReadSucceeded => LoadAction::ParseContents,
        LoadEvent::ParseFailed => LoadAction::Finish { use_file: false, note: LoadNote::ParseFailed },
        LoadEvent::ParseSucceeded => LoadAction::Finish { use_file: true, note: LoadNote::Loaded },
        LoadEvent::WriteFailed => LoadAction::Finish {
            use_file: false,
            note: LoadNote::CreateFailed,
        },
        LoadEvent::WriteSucceeded => LoadAction::Finish {
            use_file: false,
            note: LoadNote::CreatedDefault,
        },
    }
}

/// Decides the next step of loading the configuration: find the path; read
/// an existing file, or write the defaults where none exists; parse what was
/// read; and finish with the file's configuration only when it parsed, with
/// the defaults otherwise. The file is written only where none existed, so
/// an unreadable or invalid file is never replaced.
pub fn next_load_action(event: LoadEvent) -> (a: LoadAction)
    ensures
        a == load_step(event),
        a == LoadAction::WriteDefaults <==> event == (LoadEvent::PathFound { exists: false }),
        (a matches LoadAction::Finish { use_file, .. } && use_file) <==> event
            == LoadEvent::ParseSucceeded,
{
    match event {
        LoadEvent::Begin => LoadAction::FindPath,
        LoadEvent::PathUnknown => LoadAction::Finish { use_file: false, note: LoadNote::NoConfigDir },
        LoadEvent::PathFound { exists } => {
            if exists {
                LoadAction::ReadFile
            } else {
                LoadAction::WriteDefaults
            }
        },
        LoadEvent::ReadFailed => LoadAction::Finish { use_file: false, note: LoadNote::ReadFailed },
        LoadEvent::ReadSucceeded => LoadAction::ParseContents,
        LoadEvent::ParseFailed => LoadAction::Finish { use_file: false, note: LoadNote::ParseFailed },
        LoadEvent::ParseSucceeded => LoadAction::Finish { use_file: true, note: LoadNote::Loaded },
        LoadEvent::WriteFailed => LoadAction::Finish {
            use_file: false,
            note: LoadNote::CreateFailed,
        },
        LoadEvent::WriteSucceeded => LoadAction::Finish {
            use_file: false,
            note: LoadNote::CreatedDefault,
        },
    }
}

} // verus!
