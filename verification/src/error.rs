use vstd::prelude::*;

verus! {

/// The failure taxonomy of a run.  Every variant is fatal: nothing is
/// retried, and nothing written before the failure is rolled back.
///
/// * `Usage` — the user supplied an unusable input (an empty project name).
/// * `DestinationExists` — the output path is already present; it holds the
///   offending project name and nothing has been written.
/// * `EnvironmentPrecondition` — a required runtime or package manager is
///   absent, too old, or was declined.
/// * `Io` — a directory or file could not be created; it carries the
///   underlying system message.
#[derive(Debug)]
pub enum GenError {
    Usage(String),
    DestinationExists(String),
    EnvironmentPrecondition(String),
    Io(String),
}

impl GenError {
    /// The human-readable message shown for this error.
    pub open spec fn spec_message(&self) -> Seq<char> {
        match self {
            GenError::Usage(m) => m@,
            GenError::DestinationExists(name) => "Directory '"@ + name@ + "' already exists!"@,
            GenError::EnvironmentPrecondition(m) => m@,
            GenError::Io(m) => m@,
        }
    }

    pub fn message(&self) -> (m: String)
        ensures
            m@ == self.spec_message(),
    {
        match self {
            GenError::Usage(m) => m.clone(),
            GenError::DestinationExists(name) => {
                let mut s = "Directory '".to_owned();
                s.append(name.as_str());
                s.append("' already exists!");
                s
            },
            GenError::EnvironmentPrecondition(m) => m.clone(),
            GenError::Io(m) => m.clone(),
        }
    }
}

} // verus!
