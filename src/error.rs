use vstd::prelude::*;

verus! {

/// The kinds of failure that the migration distinguishes.
#[derive(PartialEq, Eq, Structural, Clone, Copy, Debug)]
pub enum MigErrorKind {
    /// An expected file, device or mountpoint is absent.
    NotFound,
    /// A structure is malformed: a bad signature, a wrong count.
    InvParam,
    /// A precondition of the current phase does not hold.
    InvState,
    /// An external I/O operation or library call failed.
    Upstream,
    /// An external command ran and reported failure.
    ExecProcess,
    /// The failure was already reported to the operator.
    Displayed,
    /// A forward-only source was asked for bytes before its current position.
    BackwardRead,
}

/// An error: its kind and a remark for the operator.
#[derive(Clone, Debug)]
pub struct MigError {
    pub kind: MigErrorKind,
    pub remark: String,
}

impl MigError {
    pub fn from_remark(kind: MigErrorKind, remark: &str) -> (r: MigError)
        ensures
            r.kind == kind,
            r.remark@ == remark@,
    {
        MigError { kind, remark: remark.to_owned() }
    }

    /// An error that has already been shown to the operator.
    pub fn displayed() -> (r: MigError)
        ensures
            r.kind == MigErrorKind::Displayed,
    {
        MigError { kind: MigErrorKind::Displayed, remark: String::new() }
    }

    pub fn kind(&self) -> (r: MigErrorKind)
        ensures
            r == self.kind,
    {
        self.kind
    }
}

} // verus!
