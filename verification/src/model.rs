use vstd::prelude::*;

verus! {

/// Flattened deployment health reported by the `agency_pulse` tool.
#[derive(Debug, Clone)]
pub struct DeploymentStatus {
    pub name: String,
    pub url: String,
    pub status: String,
    pub last_updated: String,
}

/// Social media queue summary reported by the `content_check` tool.
#[derive(Debug, Clone)]
pub struct BufferPost {
    pub channel: String,
    pub scheduled_posts: u32,
    pub pending_approval: u32,
    pub next_post_time: String,
}

/// One lead document reported by the `data_vault` tool.
#[derive(Debug, Clone)]
pub struct FirestoreLead {
    pub id: String,
    pub name: String,
    pub email: String,
    pub created_at: String,
}

/// Outcome of the `send_gmail` tool.
#[derive(Debug, Clone)]
pub struct GmailSendResult {
    pub success: bool,
    pub to: String,
    pub subject: String,
    pub demo_mode: bool,
}

/// Arguments of the `send_gmail` tool call.
#[derive(Debug)]
pub struct SendGmailRequest {
    pub to: String,
    pub subject: String,
    pub body: String,
}

/// The subject used when a `send_gmail` call gives none.
pub fn default_gmail_subject() -> (s: String)
    ensures
        s@ == "(no subject)"@,
{
    "(no subject)".to_owned()
}

/// One service as listed by the Render API.
#[derive(Debug)]
pub struct RenderService {
    pub id: String,
    pub name: String,
    pub status: String,
    pub updated_at: String,
}

/// The Vercel deployments listing.
#[derive(Debug)]
pub struct VercelDeploymentsResponse {
    pub deployments: Vec<VercelDeployment>,
}

/// One deployment as listed by the Vercel API. `state` is the legacy,
/// optional field; `ready_state` the one the API guarantees.
#[derive(Debug)]
pub struct VercelDeployment {
    pub id: String,
    pub name: String,
    pub state: Option<String>,
    pub ready_state: Option<String>,
    pub created_at: i64,
}

/// The text of an optional string, as a sequence of characters.
pub open spec fn opt_text(o: Option<String>) -> Option<Seq<char>> {
    match o {
        Some(s) => Some(s@),
        None => None,
    }
}

/// The text of an optional string slice, as a sequence of characters.
pub open spec fn opt_str_text(o: Option<&str>) -> Option<Seq<char>> {
    match o {
        Some(s) => Some(s@),
        None => None,
    }
}

impl VercelDeployment {
    /// The deployment state: `state` where it is present, else `ready_state`.
    pub open spec fn spec_effective_state(&self) -> Option<Seq<char>> {
        match self.state {
            Some(s) => Some(s@),
            None => opt_text(self.ready_state),
        }
    }

    pub fn effective_state(&self) -> (r: Option<&str>)
        ensures
            opt_str_text(r) == self.spec_effective_state(),
    {
        match &self.state {
            Some(s) => Some(s.as_str()),
            None => match &self.ready_state {
                Some(s) => Some(s.as_str()),
                None => None,
            },
        }
    }
}

/// The Buffer profiles listing.
#[derive(Debug)]
pub struct BufferProfilesResponse {
    pub profiles: Vec<BufferProfile>,
}

/// One social media profile as listed by the Buffer API.
#[derive(Debug)]
pub struct BufferProfile {
    pub id: String,
    pub service: String,
    pub service_username: String,
}

/// The Buffer schedule listing of one profile.
#[derive(Debug)]
pub struct BufferScheduleResponse {
    pub updates: Vec<BufferUpdate>,
}

/// One scheduled post as listed by the Buffer API.
#[derive(Debug)]
pub struct BufferUpdate {
    pub id: String,
    pub text: String,
    pub due_at: i64,
    pub status: String,
}

} // verus!
