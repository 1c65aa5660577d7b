//! The decisions of two node commands, apart from the prompting, the RPC and
//! the printing that surround them.
use vstd::prelude::*;

verus! {

/// The status of a response from a node or from the cloud.
#[derive(Debug, Clone, Copy, PartialEq, Eq, Structural)]
pub enum Status {
    Success,
    BadRequest,
    Unauthorized,
    Forbidden,
    NotFound,
    Timeout,
    Conflict,
    MethodNotAllowed,
    InternalServerError,
    NotImplemented,
}

/// How an enrollment went when it did not fail.
#[derive(Debug, Clone, Copy, PartialEq, Eq, Structural)]
pub enum Enrollment {
    Enrolled,
    AlreadyEnrolled,
}

/// Why a command failed.
#[derive(Debug, Clone, Copy, PartialEq, Eq, Structural)]
pub enum CommandError {
    FailedToEnroll,
}

/// An authorised enroller adds members to a project.
pub struct AuthCommand {
    /// Path to the file that holds the project's information.
    pub project: String,
    /// The cloud node to enroll with.
    pub cloud_route: String,
}

/// The request that enrolls with the cloud.
pub struct EnrollRequest {
    pub path: &'static str,
    /// Where the identity provider's data is read from.
    pub project: String,
    pub cloud_route: String,
}

impl AuthCommand {
    pub fn new(project: String, cloud_route: String) -> (r: Self)
        ensures
            r.project == project,
            r.cloud_route == cloud_route,
    {
        AuthCommand { project, cloud_route }
    }

    /// The enrollment request this command makes.
    pub fn run(self) -> (r: EnrollRequest)
        ensures
            r.path == "v0/enroll/okta",
            r.project == self.project,
            r.cloud_route == self.cloud_route,
    {
        EnrollRequest { path: "v0/enroll/okta", project: self.project, cloud_route: self.cloud_route }
    }
}

/// What the cloud's answer to an enrollment means: `Success` is a new enrollment,
/// `BadRequest` an existing one, and anything else, or no status, a failure.
pub fn enroll_outcome(status: Option<Status>) -> (r: Result<Enrollment, CommandError>)
    ensures
        status == Some(Status::Success) ==> r == Ok::<Enrollment, CommandError>(Enrollment::Enrolled),
        status == Some(Status::BadRequest) ==> r == Ok::<Enrollment, CommandError>(
            Enrollment::AlreadyEnrolled,
        ),
        status != Some(Status::Success) && status != Some(Status::BadRequest) ==> r == Err::<
            Enrollment,
            CommandError,
        >(CommandError::FailedToEnroll),
{
    match status {
        Some(Status::Success) => Ok(Enrollment::Enrolled),
        Some(Status::BadRequest) => Ok(Enrollment::AlreadyEnrolled),
        _ => Err(CommandError::FailedToEnroll),
    }
}

/// Deletes a TCP connection of a node.
pub struct DeleteCommand {
    /// The node to act on; the default node when absent.
    pub at_node: Option<String>,
    /// The connection's internal address or socket address.
    pub address: String,
    /// Deletion was confirmed without prompting.
    pub yes: bool,
}

/// The request that deletes a TCP connection.
pub struct DeleteRequest {
    pub path: &'static str,
    pub at_node: Option<String>,
    pub address: String,
}

impl DeleteCommand {
    pub fn new(at_node: Option<String>, address: String, yes: bool) -> (r: Self)
        ensures
            r.at_node == at_node,
            r.address == address,
            r.yes == yes,
    {
        DeleteCommand { at_node, address, yes }
    }

    /// The deletion request, if the deletion is confirmed: by the `yes` flag,
    /// or else by `confirmed_at_prompt`, the user's answer when asked.
    pub fn run(self, confirmed_at_prompt: bool) -> (r: Option<DeleteRequest>)
        ensures
            r is Some <==> (self.yes || confirmed_at_prompt),
            r is Some ==> r->Some_0.path == "/node/tcp/connection" && r->Some_0.at_node
                == self.at_node && r->Some_0.address == self.address,
    {
        if self.yes || confirmed_at_prompt {
            Some(
                DeleteRequest {
                    path: "/node/tcp/connection",
                    at_node: self.at_node,
                    address: self.address,
                },
            )
        } else {
            None
        }
    }
}

} // verus!
