use vstd::prelude::*;
use vstd::string::StringExecFns;

verus! {

/// Why a run could not complete.
#[derive(Debug, Clone, Copy, PartialEq, Eq, Structural)]
pub enum HarvestError {
    /// A required argument is missing.
    UsageError,
    /// The platform tool could not be started, or it exited with a failure status.
    ExternalCommandError,
    /// The platform tool's output is not valid UTF-8 text.
    DecodeError,
    /// The expected reference was not found in the platform tool's output.
    ExtractionError,
    /// The platform tool did not finish within the allowed time.
    TimeoutError,
}

/// The one-line description of each error.
pub open spec fn message_of(e: HarvestError) -> Seq<char> {
    match e {
        HarvestError::UsageError => "missing arguments; try 'harvest --help' for more information"@,
        HarvestError::ExternalCommandError => "the heroku command could not be run or reported a failure"@,
        HarvestError::DecodeError => "the heroku command printed output that is not valid text"@,
        HarvestError::ExtractionError => "no database reference was found in the heroku command's output"@,
        HarvestError::TimeoutError => "the heroku command did not finish in time"@,
    }
}

impl HarvestError {
    /// A one-line description for the error stream.
    pub fn message(&self) -> (r: String)
        ensures
            r@ == message_of(*self),
    {
        let text = match self {
            HarvestError::UsageError => "missing arguments; try 'harvest --help' for more information",
            HarvestError::ExternalCommandError => "the heroku command could not be run or reported a failure",
            HarvestError::DecodeError => "the heroku command printed output that is not valid text",
            HarvestError::ExtractionError => "no database reference was found in the heroku command's output",
            HarvestError::TimeoutError => "the heroku command did not finish in time",
        };
        String::from_str(text)
    }
}

} // verus!
