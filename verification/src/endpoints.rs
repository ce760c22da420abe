use vstd::prelude::*;
use crate::model::BufferProfile;
use crate::text::{join2, join3};

verus! {

/// The `Authorization` header value for a bearer token.
pub fn bearer_authorization(token: &str) -> (r: String)
    ensures
        r@ == "Bearer "@ + token@,
{
    join2("Bearer ", token)
}

/// The Render endpoint listing the account's services.
pub fn render_services_url() -> (r: String)
    ensures
        r@ == "https://api.render.com/v1/services"@,
{
    "https://api.render.com/v1/services".to_owned()
}

/// The Vercel endpoint listing the account's deployments.
pub fn vercel_deployments_url() -> (r: String)
    ensures
        r@ == "https://api.vercel.com/v9/deployments"@,
{
    "https://api.vercel.com/v9/deployments".to_owned()
}

/// The Buffer endpoint listing the account's profiles, authenticated by
/// the token in its `access_token` query parameter.
pub fn buffer_profiles_url(token: &str) -> (r: String)
    ensures
        r@ == "https://api.bufferapp.com/1/profiles.json?access_token="@ + token@,
{
    join2("https://api.bufferapp.com/1/profiles.json?access_token=", token)
}

pub open spec fn spec_buffer_schedule_url(profile_id: Seq<char>) -> Seq<char> {
    "https://api.bufferapp.com/1/profiles/"@ + profile_id + "/schedules.json"@
}

/// The Buffer endpoint listing the schedule of one profile.
pub fn buffer_schedule_url(profile_id: &str) -> (r: String)
    ensures
        r@ == spec_buffer_schedule_url(profile_id@),
{
    join3("https://api.bufferapp.com/1/profiles/", profile_id, "/schedules.json")
}

/// The Firestore REST endpoint listing the documents of a collection in
/// the default database of a project.
pub fn firestore_documents_url(project_id: &str, collection: &str) -> (r: String)
    ensures
        r@ == "https://firestore.googleapis.com/v1/projects/"@ + project_id@
            + "/databases/(default)/documents/"@ + collection@,
{
    let head = join2("https://firestore.googleapis.com/v1/projects/", project_id);
    join3(head.as_str(), "/databases/(default)/documents/", collection)
}

/// The schedule requests `content_check` makes: one per profile, in the
/// order Buffer listed them.
pub fn schedule_urls(profiles: &Vec<BufferProfile>) -> (r: Vec<String>)
    ensures
        r@.len() == profiles@.len(),
        forall|k: int| 0 <= k < r@.len() ==> #[trigger] r@[k]@ == spec_buffer_schedule_url(
            profiles@[k].id@,
        ),
{
    let mut urls: Vec<String> = Vec::new();
    let mut i: usize = 0;
    while i < profiles.len()
        invariant
            i <= profiles@.len(),
            urls@.len() == i,
            forall|k: int| 0 <= k < i ==> #[trigger] urls@[k]@ == spec_buffer_schedule_url(
                profiles@[k].id@,
            ),
        decreases profiles@.len() - i,
    {
        urls.push(buffer_schedule_url(profiles[i].id.as_str()));
        i = i + 1;
    }
    urls
}

} // verus!
