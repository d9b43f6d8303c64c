//! The failures an adapter reports.

use vstd::prelude::*;

verus! {

/// What went wrong, by the step that failed. The driver's own diagnostics are
/// not kept: each kind carries one fixed message.
#[derive(Debug, Clone, Copy, PartialEq, Eq, Structural)]
pub enum DsError {
    /// The database file could not be opened or created.
    Open,
    /// The SQL text did not compile.
    Prepare,
    /// A statement without result rows failed while running.
    Execute,
    /// Walking the result rows failed after the statement had compiled.
    Query,
    /// The value of one column could not be decoded.
    QueryRow,
    /// Releasing the connection failed.
    Close,
}

impl DsError {
    /// The message that belongs to each kind.
    pub open spec fn text(self) -> Seq<char> {
        match self {
            DsError::Open => "database open failure."@,
            DsError::Prepare => "database prepare failure."@,
            DsError::Execute => "database execute failure."@,
            DsError::Query => "database query failure."@,
            DsError::QueryRow => "database query row failure."@,
            DsError::Close => "database close failure."@,
        }
    }

    /// The fixed human-readable message of this kind.
    pub fn message(&self) -> (s: &'static str)
        ensures
            s@ == self.text(),
    {
        match self {
            DsError::Open => "database open failure.",
            DsError::Prepare => "database prepare failure.",
            DsError::Execute => "database execute failure.",
            DsError::Query => "database query failure.",
            DsError::QueryRow => "database query row failure.",
            DsError::Close => "database close failure.",
        }
    }
}

/// Replaces whatever the driver reported by the kind of the step that failed;
/// a success passes through untouched.
pub fn settle<T>(outcome: Result<T, rusqlite::Error>, kind: DsError) -> (r: Result<T, DsError>)
    ensures
        r == match outcome {
            Ok(value) => Ok::<T, DsError>(value),
            Err(_) => Err::<T, DsError>(kind),
        },
{
    match outcome {
        Ok(value) => Ok(value),
        Err(_) => Err(kind),
    }
}

/// No two kinds share a message.
pub proof fn lemma_messages_differ(a: DsError, b: DsError)
    requires
        a.text() == b.text(),
    ensures
        a == b,
{
    reveal_strlit("database open failure.");
    reveal_strlit("database prepare failure.");
    reveal_strlit("database execute failure.");
    reveal_strlit("database query failure.");
    reveal_strlit("database query row failure.");
    reveal_strlit("database close failure.");
    let ta = a.text();
    let tb = b.text();
    assert(ta.len() == tb.len());
    assert(ta[9] == tb[9]);
    assert(ta[10] == tb[10]);
}

} // verus!
