use vstd::prelude::*;
use vstd::string::StringExecFns;

verus! {

/// Failure kinds a volume backend may report.
///
/// The set is open: later revisions may add kinds, so consumers must not
/// assume the match below is exhaustive. Every kind carries a human-readable
/// message; the mapping to a wire status code is fixed by [`status_code`].
///
/// [`status_code`]: VolumeError::status_code
#[derive(Clone, Debug)]
#[non_exhaustive]
pub enum VolumeError {
    /// Unclassified internal failure.
    Unknown,
    /// The referenced volume does not exist.
    NotFound,
    /// An unsupported option key was supplied; carries the key.
    NoOption(String),
    /// A recognized option carried an invalid value; carries the detail.
    InvalidOptions(String),
    /// The storage layer failed while creating a location; carries the cause.
    FailedIO(String),
    /// Mounting failed for an internal reason; carries the detail.
    FailedMount(String),
}

/// A backend operation either yields its typed payload or a [`VolumeError`].
pub type VolumeResponse<T> = Result<T, VolumeError>;

impl VolumeError {
    /// The wire status code this failure kind maps to.
    pub open spec fn spec_status(&self) -> u16 {
        match self {
            VolumeError::Unknown => 500,
            VolumeError::NotFound => 404,
            VolumeError::NoOption(_) => 400,
            VolumeError::InvalidOptions(_) => 400,
            VolumeError::FailedIO(_) => 500,
            VolumeError::FailedMount(_) => 500,
        }
    }

    /// The human-readable message for this failure.
    pub open spec fn spec_message(&self) -> Seq<char> {
        match self {
            VolumeError::Unknown => "Something went wrong"@,
            VolumeError::NotFound => "Provided volume wasn't found"@,
            VolumeError::NoOption(o) => o@ + " is not a valid option"@,
            VolumeError::InvalidOptions(d) => "Invalid options: "@ + d@,
            VolumeError::FailedIO(c) => "Failed to create a location for a volume: "@ + c@,
            VolumeError::FailedMount(d) => "Failed to mount the volume due to an internal error: "@
                + d@,
        }
    }

    /// Maps each failure kind to its wire status code: `Unknown`, `FailedIO`
    /// and `FailedMount` are server failures (500), `NotFound` is 404, and
    /// both option failures are client errors (400). The code never depends
    /// on the carried message.
    pub fn status_code(&self) -> (code: u16)
        ensures
            code == self.spec_status(),
    {
        match self {
            VolumeError::Unknown => 500,
            VolumeError::NotFound => 404,
            VolumeError::NoOption(_) => 400,
            VolumeError::InvalidOptions(_) => 400,
            VolumeError::FailedIO(_) => 500,
            VolumeError::FailedMount(_) => 500,
        }
    }

    /// Renders the failure's message, embedding the carried payload where the
    /// kind has one.
    pub fn message(&self) -> (msg: String)
        ensures
            msg@ == self.spec_message(),
    {
        match self {
            VolumeError::Unknown => String::from_str("Something went wrong"),
            VolumeError::NotFound => String::from_str("Provided volume wasn't found"),
            VolumeError::NoOption(o) => o.clone().concat(" is not a valid option"),
            VolumeError::InvalidOptions(d) => String::from_str("Invalid options: ").concat(
                d.as_str(),
            ),
            VolumeError::FailedIO(c) => String::from_str(
                "Failed to create a location for a volume: ",
            ).concat(c.as_str()),
            VolumeError::FailedMount(d) => String::from_str(
                "Failed to mount the volume due to an internal error: ",
            ).concat(d.as_str()),
        }
    }
}

} // verus!
