//! What the controller is asked for.
use crate::text::cat5;
use vstd::prelude::*;
use vstd::string::*;

verus! {

/// A request for a new deployment.
#[derive(Debug, Clone, PartialEq, Eq)]
pub struct DeployRequest {
    pub label_prefix: Option<String>,
    pub target_ip: Option<String>,
    pub instance_id: Option<String>,
    pub tunnel_domain: Option<String>,
    pub acme_email: Option<String>,
    pub dns_record_name: Option<String>,
    pub cloudflare_zone_name: Option<String>,
    pub mock_provider: bool,
    pub skip_dns: bool,
    pub snapshot_id: Option<String>,
}

/// A request to take a deployment down.
#[derive(Debug, Clone, PartialEq, Eq)]
pub struct DestroyRequest {
    pub instance_id: Option<String>,
    pub target_ip: Option<String>,
    pub dns_record_name: Option<String>,
    pub cloudflare_zone_name: Option<String>,
    pub mock_provider: bool,
    pub delete_dns: bool,
    pub delete_instance: bool,
    pub lifecycle_reason: Option<String>,
}

/// Why the controller does not do what it is asked for.
#[derive(Debug, Clone, Copy, PartialEq, Eq, Structural)]
pub enum StatusCode {
    InvalidArgument,
    NotFound,
    FailedPrecondition,
    Unavailable,
    Internal,
}

/// A refusal, with the words for it.
#[derive(Debug, PartialEq, Eq)]
pub struct Status {
    pub code: StatusCode,
    pub message: String,
}

/// A refusal in those words.
pub open spec fn says(status: Status, code: StatusCode, message: Seq<char>) -> bool {
    status.code == code && status.message@ == message
}

impl Status {
    /// A refusal because of what was asked for.
    pub fn invalid_argument(message: String) -> (r: Status)
        ensures
            r == (Status { code: StatusCode::InvalidArgument, message }),
    {
        Status { code: StatusCode::InvalidArgument, message }
    }

    /// A refusal because of the state of things.
    pub fn failed_precondition(message: String) -> (r: Status)
        ensures
            r == (Status { code: StatusCode::FailedPrecondition, message }),
    {
        Status { code: StatusCode::FailedPrecondition, message }
    }

    /// A refusal because something broke.
    pub fn internal(message: String) -> (r: Status)
        ensures
            r == (Status { code: StatusCode::Internal, message }),
    {
        Status { code: StatusCode::Internal, message }
    }
}

/// What an error of the platform is told as.
pub fn platform_error_to_status(code: &str, stage: &str, message: &str) -> (r: Status)
    ensures
        says(r, StatusCode::Internal, code@ + " ["@ + stage@ + "]: "@ + message@),
{
    Status::internal(cat5(code, " [", stage, "]: ", message))
}

} // verus!
