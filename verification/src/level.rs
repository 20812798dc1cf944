//! The severity vocabulary.

use vstd::prelude::*;
use vstd::string::*;
use crate::error::ExpandError;
use crate::text::str_eq;

verus! {

/// How serious a variant is: no severity at all, or one of five that ascend
/// from `Trace` to `Error`.
#[derive(Clone, Copy, Debug, PartialEq, Eq, Structural)]
pub enum Level {
    No,
    Trace,
    Debug,
    Info,
    Warn,
    Error,
}

/// The severity that a name spells, if any. Exactly six names spell one.
pub open spec fn level_named(name: Seq<char>) -> Option<Level> {
    if name == "No"@ {
        Some(Level::No)
    } else if name == "Trace"@ {
        Some(Level::Trace)
    } else if name == "Debug"@ {
        Some(Level::Debug)
    } else if name == "Info"@ {
        Some(Level::Info)
    } else if name == "Warn"@ {
        Some(Level::Warn)
    } else if name == "Error"@ {
        Some(Level::Error)
    } else {
        None
    }
}

impl Level {
    /// The name that spells this severity in an annotation.
    pub open spec fn spelling(self) -> Seq<char> {
        match self {
            Level::No => "No"@,
            Level::Trace => "Trace"@,
            Level::Debug => "Debug"@,
            Level::Info => "Info"@,
            Level::Warn => "Warn"@,
            Level::Error => "Error"@,
        }
    }

    /// What this severity is written as in generated code.
    ///
    /// `No` is written `None`. The five others share one form: generated code
    /// does not tell them apart, only [`Level`] itself does.
    pub open spec fn rendering(self) -> Seq<char> {
        match self {
            Level::No => "None"@,
            _ => "Some(log::Level::Trace)"@,
        }
    }

    /// Resolves the name given in an annotation.
    ///
    /// Any name but the six spellings is an error.
    pub fn from_ident(id: &str) -> (level: Result<Level, ExpandError>)
        ensures
            level == match level_named(id@) {
                Some(l) => Ok::<Level, ExpandError>(l),
                None => Err(ExpandError::UnknownLevel),
            },
    {
        if str_eq(id, "No") {
            Ok(Level::No)
        } else if str_eq(id, "Trace") {
            Ok(Level::Trace)
        } else if str_eq(id, "Debug") {
            Ok(Level::Debug)
        } else if str_eq(id, "Info") {
            Ok(Level::Info)
        } else if str_eq(id, "Warn") {
            Ok(Level::Warn)
        } else if str_eq(id, "Error") {
            Ok(Level::Error)
        } else {
            Err(ExpandError::UnknownLevel)
        }
    }

    /// Appends this severity, as generated code writes it, to `tokens`.
    pub fn to_tokens(&self, tokens: &mut String)
        ensures
            final(tokens)@ == old(tokens)@ + self.rendering(),
    {
        match self {
            Level::No => tokens.append("None"),
            _ => tokens.append("Some(log::Level::Trace)"),
        }
    }
}

/// The six spellings are pairwise different.
proof fn lemma_spellings_differ()
    ensures
        "No"@ != "Trace"@,
        "No"@ != "Debug"@,
        "No"@ != "Info"@,
        "No"@ != "Warn"@,
        "No"@ != "Error"@,
        "Trace"@ != "Debug"@,
        "Trace"@ != "Info"@,
        "Trace"@ != "Warn"@,
        "Trace"@ != "Error"@,
        "Debug"@ != "Info"@,
        "Debug"@ != "Warn"@,
        "Debug"@ != "Error"@,
        "Info"@ != "Warn"@,
        "Info"@ != "Error"@,
        "Warn"@ != "Error"@,
{
    reveal_strlit("No");
    reveal_strlit("Trace");
    reveal_strlit("Debug");
    reveal_strlit("Info");
    reveal_strlit("Warn");
    reveal_strlit("Error");
    assert("No"@.len() == 2 && "Info"@.len() == 4 && "Warn"@.len() == 4);
    assert("Info"@[0] != "Warn"@[0]);
    assert("Trace"@[0] != "Debug"@[0]);
    assert("Trace"@[0] != "Error"@[0]);
    assert("Debug"@[0] != "Error"@[0]);
}

/// Each severity is resolved from its own spelling: the names of two
/// different severities never resolve to the same one.
pub proof fn lemma_spelling_resolves(level: Level)
    ensures
        level_named(level.spelling()) == Some(level),
{
    lemma_spellings_differ();
}

/// A name resolves to a severity only if it is that severity's spelling.
pub proof fn lemma_resolved_is_spelled(name: Seq<char>, level: Level)
    ensures
        level_named(name) == Some(level) <==> name == level.spelling(),
{
    lemma_spellings_differ();
}

} // verus!
