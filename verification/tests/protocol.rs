use agentic_rust_mcp::endpoints::{
    bearer_authorization, buffer_profiles_url, buffer_schedule_url, firestore_documents_url,
    render_services_url, schedule_urls, vercel_deployments_url,
};
use agentic_rust_mcp::mail::{plan_email, MailError};
use agentic_rust_mcp::model::{BufferPost, BufferProfile, SendGmailRequest};
use agentic_rust_mcp::rpc::{
    begin_request, check_gmail_arguments, complete_tool_call, parse_error_response, route_request,
    server_info, tool_catalog, RpcPayload, RpcRoute, RpcStep, ToolName, ToolOutcome,
};
use agentic_rust_mcp::text::strip_spaces;
use agentic_rust_mcp::web::{listen_address, web_may_start, web_send_gmail_check, web_tool_failure};

fn gmail_request(to: &str) -> SendGmailRequest {
    SendGmailRequest { to: to.to_string(), subject: "s".to_string(), body: "b".to_string() }
}

#[test]
fn routes_by_method_and_tool() {
    assert!(matches!(route_request("initialize", None), RpcRoute::Initialize));
    assert!(matches!(route_request("tools/list", Some("x")), RpcRoute::ListTools));
    assert!(matches!(
        route_request("tools/call", Some("agency_pulse")),
        RpcRoute::Call(ToolName::AgencyPulse)
    ));
    assert!(matches!(
        route_request("tools/call", Some("content_check")),
        RpcRoute::Call(ToolName::ContentCheck)
    ));
    assert!(matches!(
        route_request("tools/call", Some("data_vault")),
        RpcRoute::Call(ToolName::DataVault)
    ));
    assert!(matches!(
        route_request("tools/call", Some("send_gmail")),
        RpcRoute::Call(ToolName::SendGmail)
    ));
    assert!(matches!(route_request("tools/call", Some("rm_rf")), RpcRoute::UnknownTool));
    assert!(matches!(route_request("tools/call", None), RpcRoute::UnknownTool));
    assert!(matches!(route_request("resources/list", None), RpcRoute::UnknownMethod));
}

#[test]
fn handshake_and_catalog_answer_with_the_request_id() {
    match begin_request(Some(1u32), "initialize", None) {
        RpcStep::Reply(r) => {
            assert_eq!(r.jsonrpc, "2.0");
            assert_eq!(r.id, Some(1));
            match r.result {
                Some(RpcPayload::ServerInfo(info)) => {
                    assert_eq!(info.protocol_version, "2024-11-05");
                    assert_eq!(info.name, "agentic-rust-mcp");
                    assert_eq!(info.version, "0.4.0");
                }
                _ => panic!("handshake answer expected"),
            }
            assert!(r.error.is_none());
        }
        RpcStep::Invoke(..) => panic!("handshake is answered at once"),
    }
    match begin_request(Some(2u32), "tools/list", None) {
        RpcStep::Reply(r) => match r.result {
            Some(RpcPayload::ToolCatalog(tools)) => assert_eq!(tools.len(), 4),
            _ => panic!("catalog expected"),
        },
        RpcStep::Invoke(..) => panic!("catalog is answered at once"),
    }
}

#[test]
fn unknown_method_or_tool_is_method_not_found() {
    for (method, tool) in [("shutdown", None), ("tools/call", Some("nope"))] {
        match begin_request(Some(9u32), method, tool) {
            RpcStep::Reply(r) => {
                assert_eq!(r.id, Some(9));
                assert!(r.result.is_none());
                let e = r.error.unwrap();
                assert_eq!(e.code, -32601);
                assert_eq!(e.message, "Method not found");
            }
            RpcStep::Invoke(..) => panic!("unknown routes are answered at once"),
        }
    }
}

#[test]
fn tool_calls_are_invoked_with_their_id() {
    match begin_request(Some(3u32), "tools/call", Some("data_vault")) {
        RpcStep::Invoke(id, ToolName::DataVault) => assert_eq!(id, Some(3)),
        _ => panic!("data_vault must be invoked"),
    }
}

#[test]
fn gmail_arguments_checked() {
    let r = check_gmail_arguments(Some(5u32), Err("invalid type: integer `3`".to_string()));
    let e = r.err().unwrap().error.unwrap();
    assert_eq!(e.code, -32602);
    assert_eq!(e.message, "Invalid arguments: invalid type: integer `3`");

    let r = check_gmail_arguments(Some(5u32), Ok(gmail_request("")));
    let resp = r.err().unwrap();
    assert_eq!(resp.id, Some(5));
    let e = resp.error.unwrap();
    assert_eq!(e.code, -32602);
    assert_eq!(e.message, "Missing required parameter: to");

    let (id, req) = check_gmail_arguments(Some(5u32), Ok(gmail_request("a@b.co"))).ok().unwrap();
    assert_eq!(id, Some(5));
    assert_eq!(req.to, "a@b.co");
}

#[test]
fn tool_outcomes_become_results_or_errors() {
    let post = BufferPost {
        channel: "Social Media".to_string(),
        scheduled_posts: 1,
        pending_approval: 0,
        next_post_time: "N/A".to_string(),
    };
    let r = complete_tool_call(Some(4u32), ToolOutcome::Content(Ok(post)));
    assert_eq!(r.jsonrpc, "2.0");
    assert_eq!(r.id, Some(4));
    match r.result {
        Some(RpcPayload::Content(p)) => assert_eq!(p.scheduled_posts, 1),
        _ => panic!("content result expected"),
    }
    assert!(r.error.is_none());

    let r = complete_tool_call(Some(4u32), ToolOutcome::Leads(Err("timeout".to_string())));
    let e = r.error.unwrap();
    assert_eq!(e.code, -32603);
    assert_eq!(e.message, "Internal error: timeout");
    assert!(r.result.is_none());

    let r = complete_tool_call(Some(4u32), ToolOutcome::Mail(Err("auth".to_string())));
    assert_eq!(r.error.unwrap().message, "Email send failed: auth");
}

#[test]
fn parse_error_has_no_id() {
    let r = parse_error_response::<u32>();
    assert_eq!(r.id, None);
    assert_eq!(r.jsonrpc, "2.0");
    let e = r.error.unwrap();
    assert_eq!(e.code, -32700);
    assert_eq!(e.message, "Parse error");
}

#[test]
fn catalog_lists_four_tools_in_order() {
    let tools = tool_catalog();
    let names: Vec<&str> = tools.iter().map(|t| t.name.as_str()).collect();
    assert_eq!(names, ["agency_pulse", "content_check", "data_vault", "send_gmail"]);
    assert_eq!(tools[0].description, "Check live deployment status on Render and Vercel");
    for t in &tools[..3] {
        assert!(t.params.is_empty());
        assert!(t.required.is_empty());
    }
    let gmail = &tools[3];
    let params: Vec<(&str, &str)> =
        gmail.params.iter().map(|p| (p.name.as_str(), p.kind.as_str())).collect();
    assert_eq!(params, [("to", "string"), ("subject", "string"), ("body", "string")]);
    assert_eq!(gmail.params[0].description, "Recipient email address");
    assert_eq!(gmail.required, ["to", "subject", "body"]);
    assert_eq!(server_info().protocol_version, "2024-11-05");
}

#[test]
fn endpoints_and_headers() {
    assert_eq!(render_services_url(), "https://api.render.com/v1/services");
    assert_eq!(vercel_deployments_url(), "https://api.vercel.com/v9/deployments");
    assert_eq!(
        buffer_profiles_url("tok"),
        "https://api.bufferapp.com/1/profiles.json?access_token=tok"
    );
    let profiles = vec![
        BufferProfile { id: "a".to_string(), service: "x".to_string(), service_username: "u".to_string() },
        BufferProfile { id: "b".to_string(), service: "y".to_string(), service_username: "v".to_string() },
    ];
    assert_eq!(
        schedule_urls(&profiles),
        [
            "https://api.bufferapp.com/1/profiles/a/schedules.json",
            "https://api.bufferapp.com/1/profiles/b/schedules.json"
        ]
    );
    assert_eq!(bearer_authorization("tok"), "Bearer tok");
    assert_eq!(
        buffer_schedule_url("p1"),
        "https://api.bufferapp.com/1/profiles/p1/schedules.json"
    );
    assert_eq!(
        firestore_documents_url("proj", "leads"),
        "https://firestore.googleapis.com/v1/projects/proj/databases/(default)/documents/leads"
    );
}

#[test]
fn app_password_spaces_removed() {
    assert_eq!(strip_spaces("abcd efgh ijkl mnop"), "abcdefghijklmnop");
    assert_eq!(strip_spaces("   "), "");
    assert_eq!(strip_spaces("pässwörd"), "pässwörd");
}

#[test]
fn email_plan_checks_in_order() {
    let missing = "environment variable not found".to_string();
    match plan_email(Err(missing.clone()), Ok("pw".to_string()), "a@b.co", "s", "b") {
        Err(MailError::Environment(m)) => assert_eq!(m, missing),
        _ => panic!("missing user"),
    }
    match plan_email(Ok("me@gmail.com".to_string()), Err(missing.clone()), "a@b.co", "s", "b") {
        Err(MailError::Environment(m)) => assert_eq!(m, missing),
        _ => panic!("missing password"),
    }
    match plan_email(Ok("not an address".to_string()), Ok("pw".to_string()), "also bad", "s", "b") {
        Err(e @ MailError::InvalidSender(_)) => assert_eq!(e.message(), "Invalid input"),
        _ => panic!("invalid sender comes first"),
    }
    match plan_email(Ok("me@gmail.com".to_string()), Ok("pw".to_string()), "nobody", "s", "b") {
        Err(MailError::InvalidRecipient(m)) => assert_eq!(m, "Invalid input"),
        _ => panic!("invalid recipient"),
    }
    match plan_email(Ok("me@gmail.com".to_string()), Ok("pw".to_string()), "a@-bad-", "s", "b") {
        Err(MailError::InvalidRecipient(m)) => assert_eq!(m, "Invalid email domain"),
        _ => panic!("invalid recipient domain"),
    }
    match plan_email(
        Ok("me@gmail.com".to_string()),
        Ok("ab cd ef".to_string()),
        "Jo <jo@example.com>",
        "Quarterly numbers",
        "See attached.",
    ) {
        Ok(plan) => {
            assert_eq!(plan.user, "me@gmail.com");
            assert_eq!(plan.password, "abcdef");
            assert_eq!(plan.relay, "smtp.gmail.com");
            let message = plan.message.into_message();
            let envelope = message.envelope();
            assert_eq!(envelope.from().unwrap().to_string(), "me@gmail.com");
            let to: Vec<String> = envelope.to().iter().map(|a| a.to_string()).collect();
            assert_eq!(to, ["jo@example.com"]);
            let text = String::from_utf8(message.formatted()).unwrap();
            assert!(text.contains("Subject: Quarterly numbers"));
            assert!(text.contains("Content-Type: text/plain; charset=utf-8"));
            assert!(text.contains("See attached."));
        }
        Err(_) => panic!("valid addresses"),
    }
}

#[test]
fn web_demo_rules() {
    assert!(web_may_start(true));
    assert!(!web_may_start(false));
    assert_eq!(listen_address(None), "0.0.0.0:8080");
    assert_eq!(listen_address(Some("3000")), "0.0.0.0:3000");
    let f = web_send_gmail_check("").unwrap();
    assert_eq!(f.status, 400);
    assert_eq!(f.message, "Missing required field: to");
    assert!(web_send_gmail_check("a@b.co").is_none());
    let f = web_tool_failure("boom");
    assert_eq!(f.status, 500);
    assert_eq!(f.message, "boom");
}
