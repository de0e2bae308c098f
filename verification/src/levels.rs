//! The severities of a log message and their canonical names.

use vstd::prelude::*;

verus! {

/// The severity of a log message.
///
/// The set is closed: there are exactly these four levels, and two levels are
/// equal exactly when they are the same variant.
#[derive(Debug, Clone, Copy, PartialEq, Eq, Structural)]
pub enum LogLevel {
    /// Information level.
    Info,
    /// Debug level.
    Debug,
    /// Warning level.
    Warning,
    /// Error level.
    Error,
}

impl LogLevel {
    /// The canonical upper-case name of the level.
    pub open spec fn name(self) -> Seq<char> {
        match self {
            LogLevel::Info => "INFO"@,
            LogLevel::Debug => "DEBUG"@,
            LogLevel::Warning => "WARNING"@,
            LogLevel::Error => "ERROR"@,
        }
    }

    /// Returns the canonical name of the level as an owned string.
    pub fn to_level_string(&self) -> (s: String)
        ensures
            s@ == self.name(),
    {
        match self {
            LogLevel::Info => "INFO".to_string(),
            LogLevel::Debug => "DEBUG".to_string(),
            LogLevel::Warning => "WARNING".to_string(),
            LogLevel::Error => "ERROR".to_string(),
        }
    }

    /// Returns the human-readable rendering of the level.
    ///
    /// The rendering is the canonical name and nothing else: no decoration,
    /// no padding, no localisation.
    pub fn to_string(&self) -> (s: String)
        ensures
            s@ == self.name(),
    {
        self.to_level_string()
    }
}

/// The canonical names, spelled out character by character.
pub proof fn lemma_names_spelled()
    ensures
        LogLevel::Info.name() == seq!['I', 'N', 'F', 'O'],
        LogLevel::Debug.name() == seq!['D', 'E', 'B', 'U', 'G'],
        LogLevel::Warning.name() == seq!['W', 'A', 'R', 'N', 'I', 'N', 'G'],
        LogLevel::Error.name() == seq!['E', 'R', 'R', 'O', 'R'],
{
    reveal_strlit("INFO");
    reveal_strlit("DEBUG");
    reveal_strlit("WARNING");
    reveal_strlit("ERROR");
    assert("INFO"@ =~= seq!['I', 'N', 'F', 'O']);
    assert("DEBUG"@ =~= seq!['D', 'E', 'B', 'U', 'G']);
    assert("WARNING"@ =~= seq!['W', 'A', 'R', 'N', 'I', 'N', 'G']);
    assert("ERROR"@ =~= seq!['E', 'R', 'R', 'O', 'R']);
}

/// Two levels have the same name exactly when they are the same level.
pub proof fn lemma_name_injective(a: LogLevel, b: LogLevel)
    ensures
        a.name() == b.name() <==> a == b,
{
    lemma_names_spelled();
    if a != b && a.name() == b.name() {
        // Two names of the same length differ in their first character.
        assert(a.name()[0] == b.name()[0]);
    }
}

} // verus!
