use wrangler_lifecycle::command::{
    Command, KvBulkAction, KvKeyAction, KvNamespaceAction, R2Action, RouteAction, SecretAction,
};
use wrangler_lifecycle::dispatch::{
    dispatch, report_confirmation_message, takes_context, HandlerCall,
};
use wrangler_lifecycle::{exit_code, Outcome};

#[test]
fn dispatch_logout_to_logout_handler() {
    assert_eq!(dispatch(Command::Logout), HandlerCall::Logout);
}

#[test]
fn dispatch_build_to_build_handler() {
    assert_eq!(dispatch(Command::Build), HandlerCall::Build);
}

#[test]
fn dispatch_whoami_to_whoami_handler() {
    assert_eq!(dispatch(Command::Whoami), HandlerCall::Whoami);
}

#[test]
fn dispatch_passes_config_fields_through() {
    let call = dispatch(Command::Config { api_key: true, no_validate: false });
    assert_eq!(call, HandlerCall::Configure { api_key: true, no_validate: false });
}

#[test]
fn dispatch_passes_report_log_through() {
    let call = dispatch(Command::Report { log: Some(String::from("crash.log")) });
    assert_eq!(call, HandlerCall::Report { log: Some(String::from("crash.log")) });
}

#[test]
fn dispatch_passes_route_payload_through() {
    let call = dispatch(Command::Route(RouteAction::Delete {
        route_id: String::from("abc123"),
    }));
    assert_eq!(call, HandlerCall::Route(RouteAction::Delete { route_id: String::from("abc123") }));
}

#[test]
fn dispatch_passes_secret_payload_through() {
    let call = dispatch(Command::Secret(SecretAction::Put { name: String::from("TOKEN") }));
    assert_eq!(call, HandlerCall::Secret(SecretAction::Put { name: String::from("TOKEN") }));
}

#[test]
fn dispatch_passes_kv_key_payload_through() {
    let call = dispatch(Command::KvKey(KvKeyAction::Get { key: String::from("k") }));
    assert_eq!(call, HandlerCall::KvKey(KvKeyAction::Get { key: String::from("k") }));
}

#[test]
fn dispatch_passes_login_fields_through() {
    let call = dispatch(Command::Login {
        scopes: vec![String::from("account:read")],
        scopes_list: false,
    });
    assert_eq!(
        call,
        HandlerCall::Login { scopes: vec![String::from("account:read")], scopes_list: false }
    );
}

#[test]
fn dispatch_covers_every_remaining_variant() {
    assert_eq!(
        dispatch(Command::Generate {
            name: Some(String::from("worker")),
            site: false,
            template: None,
            target_type: Some(String::from("rust")),
        }),
        HandlerCall::Generate {
            name: Some(String::from("worker")),
            site: false,
            template: None,
            target_type: Some(String::from("rust")),
        }
    );
    assert_eq!(
        dispatch(Command::Init { name: None, site: true, target_type: None }),
        HandlerCall::Init { name: None, site: true, target_type: None }
    );
    assert_eq!(
        dispatch(Command::Preview {
            method: Some(String::from("GET")),
            url: None,
            body: None,
            watch: true,
            headless: false,
        }),
        HandlerCall::Preview {
            method: Some(String::from("GET")),
            url: None,
            body: None,
            watch: true,
            headless: false,
        }
    );
    assert_eq!(
        dispatch(Command::Dev {
            host: None,
            ip: Some(String::from("127.0.0.1")),
            port: Some(8787),
            local_protocol: None,
            upstream_protocol: None,
            inspect: false,
            unauthenticated: false,
        }),
        HandlerCall::Dev {
            host: None,
            ip: Some(String::from("127.0.0.1")),
            port: Some(8787),
            local_protocol: None,
            upstream_protocol: None,
            inspect: false,
            unauthenticated: false,
        }
    );
    assert_eq!(
        dispatch(Command::Publish { release: true, output: None, migration: None }),
        HandlerCall::Publish { release: true, output: None, migration: None }
    );
    assert_eq!(
        dispatch(Command::Subdomain { name: Some(String::from("mine")) }),
        HandlerCall::Subdomain { name: Some(String::from("mine")) }
    );
    assert_eq!(
        dispatch(Command::R2(R2Action::CreateBucket { name: String::from("b") })),
        HandlerCall::R2Bucket(R2Action::CreateBucket { name: String::from("b") })
    );
    assert_eq!(
        dispatch(Command::KvNamespace(KvNamespaceAction::Create {
            binding: String::from("KV"),
        })),
        HandlerCall::KvNamespace(KvNamespaceAction::Create { binding: String::from("KV") })
    );
    assert_eq!(
        dispatch(Command::KvBulk(KvBulkAction::Delete { path: String::from("all.json") })),
        HandlerCall::KvBulk(KvBulkAction::Delete { path: String::from("all.json") })
    );
    assert_eq!(
        dispatch(Command::Tail {
            name: Some(String::from("worker")),
            url: None,
            format: Some(String::from("pretty")),
            once: true,
            sampling_rate: Some(2500),
            status: vec![String::from("error")],
            method: vec![],
            header: vec![],
            ip_address: vec![],
            search: None,
        }),
        HandlerCall::Tail {
            name: Some(String::from("worker")),
            url: None,
            format: Some(String::from("pretty")),
            once: true,
            sampling_rate: Some(2500),
            status: vec![String::from("error")],
            method: vec![],
            header: vec![],
            ip_address: vec![],
            search: None,
        }
    );
}

#[test]
fn context_threaded_only_where_declared() {
    assert!(takes_context(&HandlerCall::Build));
    assert!(takes_context(&dispatch(Command::Subdomain { name: None })));
    assert!(!takes_context(&HandlerCall::Logout));
    assert!(!takes_context(&HandlerCall::Whoami));
    assert!(!takes_context(&HandlerCall::Report { log: None }));
}

#[test]
fn report_confirmation_is_the_fixed_message() {
    assert_eq!(report_confirmation_message(), "Report submission sucessful. Thank you!");
}

#[test]
fn exit_code_zero_exactly_on_success() {
    assert_eq!(exit_code(&Outcome::Success), 0);
    assert_ne!(exit_code(&Outcome::Failure { message: String::from("boom") }), 0);
}

#[test]
fn outcome_is_success() {
    assert!(Outcome::Success.is_success());
    assert!(!Outcome::Failure { message: String::from("no") }.is_success());
}
