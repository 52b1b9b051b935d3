use vstd::prelude::*;

verus! {

/// How much a logger writes.
#[derive(PartialEq, Eq, Structural, Clone, Copy, Debug)]
pub enum LevelChoice {
    Off,
    Info,
    Debug,
}

/// How the console log is set up for a verbosity level.
pub struct LogSettings {
    /// Level of the tool's own messages.
    pub nebo_cli: LevelChoice,
    /// Level of the messages of everything else.
    pub all: LevelChoice,
    /// Layout of a message.
    pub pattern: &'static str,
}

/// Layout of a message that names its module.
pub open spec fn module_pattern() -> Seq<char> {
    "{h({M} - {m}{n})}"@
}

/// Layout of a bare message.
pub open spec fn plain_pattern() -> Seq<char> {
    "{m}{n}"@
}

/// The console log for `level` occurrences of `-v`: nothing at 0; the tool's
/// information at 1; the tool's debug messages from 2, with their module; everything's
/// debug messages at exactly 3.
pub fn log_settings(level: u64) -> (r: LogSettings)
    ensures
        r.nebo_cli == (if level == 0 { LevelChoice::Off } else if level == 1 { LevelChoice::Info } else { LevelChoice::Debug }),
        r.pattern@ == (if level >= 2 { module_pattern() } else { plain_pattern() }),
        r.all == (if level == 3 { LevelChoice::Debug } else { LevelChoice::Off }),
{
    let nebo_cli = if level == 0 {
        LevelChoice::Off
    } else if level == 1 {
        LevelChoice::Info
    } else {
        LevelChoice::Debug
    };
    let pattern = if level >= 2 {
        "{h({M} - {m}{n})}"
    } else {
        "{m}{n}"
    };
    let all = if level == 3 {
        LevelChoice::Debug
    } else {
        LevelChoice::Off
    };
    LogSettings { nebo_cli, all, pattern }
}

} // verus!
