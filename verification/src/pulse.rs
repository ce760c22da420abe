use vstd::prelude::*;
use crate::clock::local_timestamp;
use crate::fetch::Fetch;
use crate::model::{DeploymentStatus, RenderService, VercelDeployment};
use crate::text::text_eq;

verus! {

/// Health of one hosting provider.
pub enum ProviderStatus {
    Offline,
    Live,
    Deploying,
    Failed,
}

/// Health of the whole platform, as `DeploymentStatus::status` reports it.
pub enum PulseStatus {
    Live,
    Failed,
    ConfigurationError,
    Deploying,
}

/// The text that stands in `DeploymentStatus::status` for a pulse status.
pub open spec fn spec_pulse_label(p: PulseStatus) -> Seq<char> {
    match p {
        PulseStatus::Live => "live"@,
        PulseStatus::Failed => "failed"@,
        PulseStatus::ConfigurationError => "configuration_error"@,
        PulseStatus::Deploying => "deploying"@,
    }
}

impl PulseStatus {
    pub fn label(&self) -> (r: String)
        ensures
            r@ == spec_pulse_label(*self),
    {
        match self {
            PulseStatus::Live => "live".to_owned(),
            PulseStatus::Failed => "failed".to_owned(),
            PulseStatus::ConfigurationError => "configuration_error".to_owned(),
            PulseStatus::Deploying => "deploying".to_owned(),
        }
    }
}

/// Render is live when its first listed service reports `live`.
pub open spec fn spec_render_status(f: Fetch<Vec<RenderService>>) -> ProviderStatus {
    match f {
        Fetch::Skipped => ProviderStatus::Offline,
        Fetch::Failed => ProviderStatus::Failed,
        Fetch::Received(services) => if services@.len() > 0 && services@[0].status@ == "live"@ {
            ProviderStatus::Live
        } else {
            ProviderStatus::Deploying
        },
    }
}

/// Vercel is live when its first listed deployment's effective state is `READY`.
pub open spec fn spec_vercel_status(f: Fetch<Vec<VercelDeployment>>) -> ProviderStatus {
    match f {
        Fetch::Skipped => ProviderStatus::Offline,
        Fetch::Failed => ProviderStatus::Failed,
        Fetch::Received(deploys) => if deploys@.len() > 0 && deploys@[0].spec_effective_state()
            == Some("READY"@) {
            ProviderStatus::Live
        } else {
            ProviderStatus::Deploying
        },
    }
}

/// Combined health: live when both providers are live; otherwise failed
/// when either failed; otherwise a configuration error when neither was
/// queried; otherwise still deploying.
pub open spec fn spec_combine(render: ProviderStatus, vercel: ProviderStatus) -> PulseStatus {
    if render is Live && vercel is Live {
        PulseStatus::Live
    } else if render is Failed || vercel is Failed {
        PulseStatus::Failed
    } else if render is Offline && vercel is Offline {
        PulseStatus::ConfigurationError
    } else {
        PulseStatus::Deploying
    }
}

pub open spec fn spec_pulse_status(
    render: Fetch<Vec<RenderService>>,
    vercel: Fetch<Vec<VercelDeployment>>,
) -> PulseStatus {
    spec_combine(spec_render_status(render), spec_vercel_status(vercel))
}

pub fn render_status(f: &Fetch<Vec<RenderService>>) -> (r: ProviderStatus)
    ensures
        r == spec_render_status(*f),
{
    match f {
        Fetch::Skipped => ProviderStatus::Offline,
        Fetch::Failed => ProviderStatus::Failed,
        Fetch::Received(services) => {
            if services.len() > 0 && text_eq(services[0].status.as_str(), "live") {
                ProviderStatus::Live
            } else {
                ProviderStatus::Deploying
            }
        },
    }
}

pub fn vercel_status(f: &Fetch<Vec<VercelDeployment>>) -> (r: ProviderStatus)
    ensures
        r == spec_vercel_status(*f),
{
    match f {
        Fetch::Skipped => ProviderStatus::Offline,
        Fetch::Failed => ProviderStatus::Failed,
        Fetch::Received(deploys) => {
            if deploys.len() > 0 {
                match deploys[0].effective_state() {
                    Some(s) => {
                        if text_eq(s, "READY") {
                            ProviderStatus::Live
                        } else {
                            ProviderStatus::Deploying
                        }
                    },
                    None => ProviderStatus::Deploying,
                }
            } else {
                ProviderStatus::Deploying
            }
        },
    }
}

pub fn combine_status(render: ProviderStatus, vercel: ProviderStatus) -> (r: PulseStatus)
    ensures
        r == spec_combine(render, vercel),
{
    let render_live = matches!(render, ProviderStatus::Live);
    let vercel_live = matches!(vercel, ProviderStatus::Live);
    let render_failed = matches!(render, ProviderStatus::Failed);
    let vercel_failed = matches!(vercel, ProviderStatus::Failed);
    let render_offline = matches!(render, ProviderStatus::Offline);
    let vercel_offline = matches!(vercel, ProviderStatus::Offline);
    if render_live && vercel_live {
        PulseStatus::Live
    } else if render_failed || vercel_failed {
        PulseStatus::Failed
    } else if render_offline && vercel_offline {
        PulseStatus::ConfigurationError
    } else {
        PulseStatus::Deploying
    }
}

/// What `agency_pulse` does next.
pub enum PulsePlan {
    /// Demo mode: answer with this fixture; no provider is queried.
    Demo(DeploymentStatus),
    /// Query each provider whose flag is set, then call `pulse_report`.
    Query { render: bool, vercel: bool },
}

/// The fixture shape of a demo pulse.
pub open spec fn is_demo_pulse(s: DeploymentStatus) -> bool {
    &&& s.name@ == "Agentic Platform (Demo)"@
    &&& s.url@ == "https://albatrossai.online"@
    &&& s.status@ == "live"@
}

/// The demo pulse, stamped `now`.
pub fn demo_pulse_at(now: String) -> (r: DeploymentStatus)
    ensures
        is_demo_pulse(r),
        r.last_updated@ == now@,
{
    DeploymentStatus {
        name: "Agentic Platform (Demo)".to_owned(),
        url: "https://albatrossai.online".to_owned(),
        status: "live".to_owned(),
        last_updated: now,
    }
}

/// Decides how `agency_pulse` proceeds: in demo mode it answers at once
/// with fixture data stamped with the current local time; otherwise a
/// provider is queried exactly when its credential is non-empty.
pub fn plan_agency_pulse(demo: bool, render_key: &str, vercel_key: &str) -> (r: PulsePlan)
    ensures
        demo ==> (r matches PulsePlan::Demo(s) && is_demo_pulse(s)),
        !demo ==> r == (PulsePlan::Query {
            render: render_key@.len() > 0,
            vercel: vercel_key@.len() > 0,
        }),
{
    if demo {
        PulsePlan::Demo(demo_pulse_at(local_timestamp()))
    } else {
        PulsePlan::Query { render: !render_key.is_empty(), vercel: !vercel_key.is_empty() }
    }
}

/// The platform report for the given provider answers, stamped `now`.
pub fn pulse_report_at(
    render: &Fetch<Vec<RenderService>>,
    vercel: &Fetch<Vec<VercelDeployment>>,
    now: String,
) -> (r: DeploymentStatus)
    ensures
        r.name@ == "Agentic Platform"@,
        r.url@ == "https://albatrossai.online"@,
        r.status@ == spec_pulse_label(spec_pulse_status(*render, *vercel)),
        r.last_updated@ == now@,
{
    let status = combine_status(render_status(render), vercel_status(vercel));
    DeploymentStatus {
        name: "Agentic Platform".to_owned(),
        url: "https://albatrossai.online".to_owned(),
        status: status.label(),
        last_updated: now,
    }
}

/// The platform report for the given provider answers, stamped with the
/// current local time.
pub fn pulse_report(
    render: &Fetch<Vec<RenderService>>,
    vercel: &Fetch<Vec<VercelDeployment>>,
) -> (r: DeploymentStatus)
    ensures
        r.name@ == "Agentic Platform"@,
        r.url@ == "https://albatrossai.online"@,
        r.status@ == spec_pulse_label(spec_pulse_status(*render, *vercel)),
{
    pulse_report_at(render, vercel, local_timestamp())
}

/// The platform is reported live exactly when both providers are live; a
/// failed query to either provider is reported as a failure; and the
/// configuration error is reported exactly when neither provider has
/// credentials, so an unconfigured server is never taken for one that is
/// still deploying.
pub proof fn pulse_status_laws(
    render: Fetch<Vec<RenderService>>,
    vercel: Fetch<Vec<VercelDeployment>>,
)
    ensures
        spec_pulse_status(render, vercel) is Live <==> (spec_render_status(render) is Live
            && spec_vercel_status(vercel) is Live),
        (render is Failed || vercel is Failed) ==> spec_pulse_status(render, vercel) is Failed,
        spec_pulse_status(render, vercel) is ConfigurationError <==> (render is Skipped
            && vercel is Skipped),
{
}

/// Render is live exactly when the first service it lists reports the
/// status `live`; any other answer that arrived means it is still
/// deploying. An unqueried Render is offline, a failed query failed.
pub proof fn render_status_law(services: Vec<RenderService>)
    ensures
        spec_render_status(Fetch::Received(services)) is Live <==> (services@.len() > 0
            && services@[0].status@ == "live"@),
        spec_render_status(Fetch::Received(services)) is Live || spec_render_status(
            Fetch::Received(services),
        ) is Deploying,
        spec_render_status(Fetch::<Vec<RenderService>>::Skipped) is Offline,
        spec_render_status(Fetch::<Vec<RenderService>>::Failed) is Failed,
{
}

/// Vercel is live exactly when the first deployment it lists is `READY`,
/// read from its `state` where present and else from its `readyState`; a
/// first deployment in any other state (building, queued, errored, none)
/// means it is still deploying. An unqueried Vercel is offline, a failed
/// query failed.
pub proof fn vercel_status_law(deploys: Vec<VercelDeployment>)
    ensures
        spec_vercel_status(Fetch::Received(deploys)) is Live <==> (deploys@.len() > 0
            && match deploys@[0].state {
            Some(s) => s@ == "READY"@,
            None => match deploys@[0].ready_state {
                Some(r) => r@ == "READY"@,
                None => false,
            },
        }),
        spec_vercel_status(Fetch::Received(deploys)) is Live || spec_vercel_status(
            Fetch::Received(deploys),
        ) is Deploying,
        spec_vercel_status(Fetch::<Vec<VercelDeployment>>::Skipped) is Offline,
        spec_vercel_status(Fetch::<Vec<VercelDeployment>>::Failed) is Failed,
{
}

/// The platform is reported failed only when a provider query failed, and
/// then always; when no query failed, at least one provider was queried and
/// the platform is not live, it is reported as deploying.
pub proof fn pulse_failure_law(
    render: Fetch<Vec<RenderService>>,
    vercel: Fetch<Vec<VercelDeployment>>,
)
    ensures
        spec_pulse_status(render, vercel) is Failed <==> (render is Failed || vercel is Failed),
        (!(render is Failed) && !(vercel is Failed) && !(render is Skipped && vercel is Skipped)
            && !(spec_pulse_status(render, vercel) is Live)) ==> spec_pulse_status(
            render,
            vercel,
        ) is Deploying,
{
}

} // verus!
