//! Plain data carried between the serving layer and the session
//! controller: users, auth providers, projects and capture requests.

use vstd::prelude::*;
use vstd::string::StringExecFns;

verus! {

/// A user known to the persistence collaborator.
#[derive(PartialEq, Eq, Debug, Clone)]
pub struct User {
    pub user_id: i64,
    pub oauth_user_id: String,
    pub oauth_provider_id: i64,
}

impl User {
    /// The internal id the persistence layer knows this user by.
    pub fn get_internal_id(&self) -> (r: i64)
        ensures
            r == self.user_id,
    {
        self.user_id
    }
}

/// An OAuth provider row.
#[derive(PartialEq, Eq, Debug, Clone)]
pub struct AuthProvider {
    pub provider_id: i64,
    pub provider_name: String,
}

impl AuthProvider {
    /// The internal id of the provider.
    pub fn get_provider_id(&self) -> (r: i64)
        ensures
            r == self.provider_id,
    {
        self.provider_id
    }
}

/// A capture project.  The session controller receives one with the
/// start-capture order and hands its aggregated data back under it; the
/// project's JSON payload travels as text.
#[derive(PartialEq, Eq, Debug, Clone)]
pub struct Project {
    pub project_id: i64,
    pub project_title: String,
    pub project_description: String,
    pub in_capture: bool,
    pub creator_user_id: i64,
    pub image_id: i64,
    pub project_data: String,
}

impl Project {
    /// The project's own id.
    pub fn project_id(&self) -> (r: i64)
        ensures
            r == self.project_id,
    {
        self.project_id
    }

    /// The id of the user who created the project.
    pub fn creator_user_id(&self) -> (r: i64)
        ensures
            r == self.creator_user_id,
    {
        self.creator_user_id
    }

    /// The id of the project's cover image.
    pub fn image_id(&self) -> (r: i64)
        ensures
            r == self.image_id,
    {
        self.image_id
    }
}

/// What a capture-start request from the serving layer carries.
#[derive(PartialEq, Eq, Debug, Clone)]
pub struct CaptureRequest {
    pub project_title: String,
    pub project_description: String,
    pub step_x_deg: u32,
    pub step_y_deg: u32,
    pub measurements_per_step: u8,
}

/// The banner shown for an unexpected error: a fixed prefix followed by
/// the message.
pub fn invalid_msg(msg: &str) -> (r: String)
    ensures
        r@ == "Unexpected error ocurred: "@ + msg@,
{
    let mut banner: String = "Unexpected error ocurred: ".to_owned();
    banner.append(msg);
    banner
}

/// A message between the serving layer and the session controller.  Each
/// is produced by one side and consumed exactly once by the other.
#[derive(PartialEq, Debug, Clone)]
pub enum Message {
    /// Serving layer to controller: begin capturing under this project.
    StartCapture(Project),
    /// Controller to serving layer: whether the backend is ready.
    BackendReady(bool),
    /// Serving layer to controller: please report readiness afresh.
    BackendStatusRequest,
}

} // verus!
