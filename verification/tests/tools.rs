use agentic_rust_mcp::content::{
    content_report, content_summary, demo_content_at, plan_content_check, tally_schedules,
    ContentPlan,
};
use agentic_rust_mcp::demo::demo_flag_enabled;
use agentic_rust_mcp::fetch::Fetch;
use agentic_rust_mcp::mail::{finish_send_gmail, gmail_send_result, mail_action, MailAction};
use agentic_rust_mcp::model::{
    default_gmail_subject, BufferUpdate, FirestoreLead, RenderService, VercelDeployment,
};
use agentic_rust_mcp::pulse::{
    demo_pulse_at, plan_agency_pulse, pulse_report, pulse_report_at, PulsePlan,
};
use agentic_rust_mcp::vault::{
    demo_leads_at, lead_from_document, leads_from_documents, leads_from_documents_stamped,
    plan_data_vault, vault_report, FirestoreDocument, FirestoreFields, VaultPlan,
};

fn service(status: &str) -> RenderService {
    RenderService {
        id: "srv-1".to_string(),
        name: "api".to_string(),
        status: status.to_string(),
        updated_at: "2024-01-01".to_string(),
    }
}

fn deployment(state: Option<&str>, ready: Option<&str>) -> VercelDeployment {
    VercelDeployment {
        id: "dpl_1".to_string(),
        name: "site".to_string(),
        state: state.map(|s| s.to_string()),
        ready_state: ready.map(|s| s.to_string()),
        created_at: 1_700_000_000,
    }
}

fn update(status: &str, due_at: i64) -> BufferUpdate {
    BufferUpdate {
        id: "u".to_string(),
        text: "post".to_string(),
        due_at,
        status: status.to_string(),
    }
}

#[test]
fn test_demo_mode_short_circuits_every_tool() {
    let demo = demo_flag_enabled(Some("true"));
    assert!(demo);

    let mail = gmail_send_result("nobody@example.com", "subject", demo);
    assert!(mail.demo_mode);
    assert!(mail.success);
    assert!(matches!(mail_action(demo), MailAction::Simulate));

    match plan_agency_pulse(demo, "render-key", "vercel-token") {
        PulsePlan::Demo(status) => {
            assert_eq!(status.status, "live");
            assert!(status.name.contains("Demo"));
        }
        PulsePlan::Query { .. } => panic!("demo mode must not query providers"),
    }

    match plan_content_check(demo, "buffer-key") {
        ContentPlan::Demo(post) => assert!(post.channel.contains("Demo")),
        ContentPlan::Query { .. } => panic!("demo mode must not query Buffer"),
    }

    match plan_data_vault(demo, "project", "key") {
        VaultPlan::Demo(leads) => assert_eq!(leads.len(), 2),
        VaultPlan::Query { .. } => panic!("demo mode must not query Firestore"),
    }
}

#[test]
fn demo_flag_accepts_only_true_or_one() {
    assert!(demo_flag_enabled(Some("true")));
    assert!(demo_flag_enabled(Some("1")));
    assert!(!demo_flag_enabled(Some("TRUE")));
    assert!(!demo_flag_enabled(Some("yes")));
    assert!(!demo_flag_enabled(Some("")));
    assert!(!demo_flag_enabled(None));
}

#[test]
fn default_subject_text() {
    assert_eq!(default_gmail_subject(), "(no subject)");
}

#[test]
fn effective_state_prefers_state() {
    let d = deployment(Some("BUILDING"), Some("READY"));
    assert_eq!(d.effective_state(), Some("BUILDING"));
    let d = deployment(None, Some("READY"));
    assert_eq!(d.effective_state(), Some("READY"));
    let d = deployment(None, None);
    assert_eq!(d.effective_state(), None);
}

#[test]
fn pulse_live_when_both_providers_live() {
    let render = Fetch::Received(vec![service("live"), service("suspended")]);
    let vercel = Fetch::Received(vec![deployment(None, Some("READY"))]);
    let r = pulse_report_at(&render, &vercel, "2024-01-01 00:00:00".to_string());
    assert_eq!(r.status, "live");
    assert_eq!(r.name, "Agentic Platform");
    assert_eq!(r.url, "https://albatrossai.online");
    assert_eq!(r.last_updated, "2024-01-01 00:00:00");
}

#[test]
fn pulse_only_first_entry_counts() {
    let render = Fetch::Received(vec![service("suspended"), service("live")]);
    let vercel = Fetch::Received(vec![deployment(Some("READY"), None)]);
    assert_eq!(pulse_report_at(&render, &vercel, String::new()).status, "deploying");
}

#[test]
fn pulse_failed_when_a_query_fails() {
    let render: Fetch<Vec<RenderService>> = Fetch::Failed;
    let vercel = Fetch::Received(vec![deployment(Some("READY"), None)]);
    assert_eq!(pulse_report_at(&render, &vercel, String::new()).status, "failed");
    let render = Fetch::Received(vec![service("live")]);
    let vercel: Fetch<Vec<VercelDeployment>> = Fetch::Failed;
    assert_eq!(pulse_report_at(&render, &vercel, String::new()).status, "failed");
}

#[test]
fn pulse_configuration_error_without_credentials() {
    let render: Fetch<Vec<RenderService>> = Fetch::Skipped;
    let vercel: Fetch<Vec<VercelDeployment>> = Fetch::Skipped;
    let r = pulse_report(&render, &vercel);
    assert_eq!(r.status, "configuration_error");
    assert_eq!(r.name, "Agentic Platform");
}

#[test]
fn pulse_deploying_with_one_provider_configured() {
    let render = Fetch::Received(vec![service("live")]);
    let vercel: Fetch<Vec<VercelDeployment>> = Fetch::Skipped;
    assert_eq!(pulse_report_at(&render, &vercel, String::new()).status, "deploying");
    let render: Fetch<Vec<RenderService>> = Fetch::Received(vec![]);
    let vercel = Fetch::Received(vec![deployment(None, None)]);
    assert_eq!(pulse_report_at(&render, &vercel, String::new()).status, "deploying");
}

#[test]
fn pulse_plan_queries_configured_providers() {
    match plan_agency_pulse(false, "key", "") {
        PulsePlan::Query { render, vercel } => {
            assert!(render);
            assert!(!vercel);
        }
        PulsePlan::Demo(_) => panic!("not in demo mode"),
    }
    match plan_agency_pulse(false, "", "token") {
        PulsePlan::Query { render, vercel } => {
            assert!(!render);
            assert!(vercel);
        }
        PulsePlan::Demo(_) => panic!("not in demo mode"),
    }
}

#[test]
fn content_report_counts_scheduled_and_pending() {
    let schedules = vec![
        Some(vec![
            update("pending", 1_700_000_000),
            update("sent", 1_800_000_000),
            update("pending", 1_650_000_000),
        ]),
        None,
        Some(vec![update("buffer", 1_600_000_000)]),
        Some(vec![]),
    ];
    let post = content_report(&schedules);
    assert_eq!(post.channel, "Social Media");
    assert_eq!(post.scheduled_posts, 4);
    assert_eq!(post.pending_approval, 2);
    assert_eq!(post.next_post_time, "2020-09-13 12:26:40");
}

#[test]
fn next_post_time_is_the_earliest_due_time() {
    let post = content_report(&vec![Some(vec![update("buffer", 86_400), update("buffer", 0)])]);
    assert_eq!(post.next_post_time, "1970-01-01 00:00:00");
    let post = content_report(&vec![None, Some(vec![])]);
    assert_eq!(post.next_post_time, "N/A");
    let tally = tally_schedules(&vec![Some(vec![update("pending", 5), update("x", -3)])]);
    assert_eq!(tally.scheduled, 2);
    assert_eq!(tally.pending, 1);
    assert_eq!(tally.earliest_due, Some(-3));
    assert_eq!(content_summary(&tally, Some("soon".to_string())).next_post_time, "soon");
    assert_eq!(content_summary(&tally, None).next_post_time, "N/A");
}

#[test]
fn content_report_without_schedules() {
    let post = content_report(&vec![]);
    assert_eq!(post.scheduled_posts, 0);
    assert_eq!(post.pending_approval, 0);
    assert_eq!(post.next_post_time, "N/A");
}

#[test]
fn content_plan_queries_with_key_only() {
    assert!(matches!(plan_content_check(false, "key"), ContentPlan::Query { profiles: true }));
    assert!(matches!(plan_content_check(false, ""), ContentPlan::Query { profiles: false }));
    match plan_content_check(true, "") {
        ContentPlan::Demo(post) => {
            assert_eq!(post.channel, "Social Media (Demo)");
            assert_eq!(post.scheduled_posts, 12);
            assert_eq!(post.pending_approval, 3);
        }
        ContentPlan::Query { .. } => panic!("demo mode"),
    }
}

#[test]
fn lead_defaults_for_missing_fields() {
    let doc = FirestoreDocument {
        name: None,
        fields: Some(FirestoreFields { name: None, email: None }),
    };
    let lead = lead_from_document(&doc, "t".to_string()).unwrap();
    assert_eq!(lead.id, "unknown");
    assert_eq!(lead.name, "Unknown");
    assert_eq!(lead.email, "unknown@example.com");
    assert_eq!(lead.created_at, "t");
    let bare = FirestoreDocument { name: Some("projects/p/doc".to_string()), fields: None };
    assert!(lead_from_document(&bare, "t".to_string()).is_none());
}

#[test]
fn leads_skip_documents_without_fields() {
    let docs = Some(vec![
        FirestoreDocument {
            name: Some("projects/p/databases/(default)/documents/leads/a".to_string()),
            fields: Some(FirestoreFields {
                name: Some("Ada".to_string()),
                email: Some("ada@example.com".to_string()),
            }),
        },
        FirestoreDocument { name: Some("ignored".to_string()), fields: None },
        FirestoreDocument {
            name: None,
            fields: Some(FirestoreFields { name: Some("Bo".to_string()), email: None }),
        },
    ]);
    let leads = leads_from_documents(&docs);
    assert_eq!(leads.len(), 2);
    assert_eq!(leads[0].id, "projects/p/databases/(default)/documents/leads/a");
    assert_eq!(leads[0].name, "Ada");
    assert_eq!(leads[0].email, "ada@example.com");
    assert_eq!(leads[1].id, "unknown");
    assert_eq!(leads[1].name, "Bo");
    assert_eq!(leads[1].email, "unknown@example.com");
    assert!(leads_from_documents(&None).is_empty());
}

#[test]
fn vault_report_keeps_only_received_leads() {
    let lead = FirestoreLead {
        id: "1".to_string(),
        name: "n".to_string(),
        email: "e".to_string(),
        created_at: "c".to_string(),
    };
    assert_eq!(vault_report(Fetch::Received(vec![lead])).len(), 1);
    assert!(vault_report(Fetch::Failed).is_empty());
    assert!(vault_report(Fetch::Skipped).is_empty());
}

#[test]
fn vault_plan_needs_both_credentials() {
    assert!(matches!(plan_data_vault(false, "p", "k"), VaultPlan::Query { firestore: true }));
    assert!(matches!(plan_data_vault(false, "p", ""), VaultPlan::Query { firestore: false }));
    assert!(matches!(plan_data_vault(false, "", "k"), VaultPlan::Query { firestore: false }));
    match plan_data_vault(true, "", "") {
        VaultPlan::Demo(leads) => {
            assert_eq!(leads[0].id, "demo-lead-1");
            assert_eq!(leads[0].name, "Jordan Lee");
            assert_eq!(leads[1].email, "priya.nair@example.com");
            assert_eq!(leads[0].created_at, leads[1].created_at);
        }
        VaultPlan::Query { .. } => panic!("demo mode"),
    }
}

#[test]
fn real_send_reports_non_demo() {
    let r = gmail_send_result("a@b.co", "hello", false);
    assert!(r.success);
    assert!(!r.demo_mode);
    assert_eq!(r.to, "a@b.co");
    assert_eq!(r.subject, "hello");
    assert!(matches!(mail_action(false), MailAction::Deliver));
}

#[test]
fn send_failure_is_passed_on() {
    let r = finish_send_gmail("a@b.co", "hi", false, Ok(())).unwrap();
    assert!(r.success);
    assert!(!r.demo_mode);
    assert_eq!(r.to, "a@b.co");
    let e = finish_send_gmail("a@b.co", "hi", false, Err("connection refused".to_string()));
    assert_eq!(e.err().unwrap(), "connection refused");
}

#[test]
fn demo_fixtures_carry_the_given_time() {
    let now = "2024-05-01 09:30:00".to_string();
    let pulse = demo_pulse_at(now.clone());
    assert_eq!(pulse.name, "Agentic Platform (Demo)");
    assert_eq!(pulse.status, "live");
    assert_eq!(pulse.last_updated, now);
    let post = demo_content_at(now.clone());
    assert_eq!(post.channel, "Social Media (Demo)");
    assert_eq!(post.next_post_time, now);
    let leads = demo_leads_at(now.clone());
    assert_eq!(leads.len(), 2);
    assert_eq!(leads[0].created_at, now);
    assert_eq!(leads[1].created_at, now);
}

#[test]
fn stamped_leads_take_their_stamps_in_order() {
    let docs = Some(vec![
        FirestoreDocument {
            name: Some("a".to_string()),
            fields: Some(FirestoreFields { name: None, email: None }),
        },
        FirestoreDocument { name: Some("skip".to_string()), fields: None },
        FirestoreDocument {
            name: Some("b".to_string()),
            fields: Some(FirestoreFields { name: None, email: None }),
        },
    ]);
    let stamps = vec!["t1".to_string(), "t2".to_string()];
    let leads = leads_from_documents_stamped(&docs, &stamps);
    assert_eq!(leads.len(), 2);
    assert_eq!((leads[0].id.as_str(), leads[0].created_at.as_str()), ("a", "t1"));
    assert_eq!((leads[1].id.as_str(), leads[1].created_at.as_str()), ("b", "t2"));
}
