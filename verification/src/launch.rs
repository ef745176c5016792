//! The data model: launch specifications and the resolution error.

use vstd::prelude::*;

verus! {

/// Mathematical value of a [`LaunchSpec`]: the executable name, the ordered
/// argument list, and the environment overrides as a sequence of
/// (name, value) pairs.
#[verifier::ext_equal]
pub struct LaunchSpecView {
    pub executable: Seq<char>,
    pub arguments: Seq<Seq<char>>,
    pub environment: Seq<(Seq<char>, Seq<char>)>,
}

impl LaunchSpecView {
    /// Environment overrides are a mapping: no variable name occurs twice.
    pub open spec fn wf(self) -> bool {
        forall|i: int, j: int|
            0 <= i < j < self.environment.len() ==> self.environment[i].0 != self.environment[j].0
    }
}

/// How to start an external tool server: the program to run, the arguments
/// passed to it positionally, and the environment variables set for it.
///
/// Constructed fresh on each resolution; owned by the caller once returned.
#[derive(Debug, PartialEq, Eq)]
pub struct LaunchSpec {
    pub executable: String,
    pub arguments: Vec<String>,
    pub environment: Vec<(String, String)>,
}

impl View for LaunchSpec {
    type V = LaunchSpecView;

    open spec fn view(&self) -> LaunchSpecView {
        LaunchSpecView {
            executable: self.executable@,
            arguments: self.arguments.deep_view(),
            environment: self.environment.deep_view(),
        }
    }
}

/// Why resolution failed. The single failure mode: the identifier names no
/// registered server. The payload is the identifier, verbatim.
#[derive(Debug, PartialEq, Eq)]
pub enum ResolutionError {
    UnknownServer(String),
}

impl ResolutionError {
    /// The identifier that failed to resolve, verbatim.
    pub open spec fn spec_identifier(self) -> Seq<char> {
        match self {
            ResolutionError::UnknownServer(s) => s@,
        }
    }

    /// Human-readable form of the error, for the hosting system.
    pub fn message(&self) -> (r: String)
        ensures
            r@ == "Unknown server: "@ + self.spec_identifier(),
    {
        match self {
            ResolutionError::UnknownServer(s) => {
                let m = "Unknown server: ".to_owned();
                m.concat(s.as_str())
            },
        }
    }
}

} // verus!
