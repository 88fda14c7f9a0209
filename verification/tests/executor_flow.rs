use drive_client::executor::{ExecPhase, Execution};
use drive_client::ops;
use drive_client::request::{ParameterSet, Payload};
use drive_client::response::ApiSuccess;
use drive_client::schema::{AboutGetParams, FilesDeleteParams};
use drive_client::ApiError;

#[test]
fn happy_path_walks_every_phase() {
    let e = Execution::start(
        ops::about_get(),
        AboutGetParams {}.to_parameters(),
        Payload::NoBody,
        Vec::new(),
    )
    .unwrap();
    assert_eq!(e.phase(), ExecPhase::Idle);
    let e = e.resolve_scopes();
    assert_eq!(e.phase(), ExecPhase::ScopeResolved);
    assert_eq!(e.scopes().len(), 7);
    assert_eq!(e.scopes()[0], "https://www.googleapis.com/auth/drive");
    let e = e.supply_token(Ok(b"tok123".to_vec()));
    assert_eq!(e.phase(), ExecPhase::Authenticated);
    let e = e.build();
    assert_eq!(e.phase(), ExecPhase::RequestBuilt);
    assert_eq!(
        String::from_utf8(e.request().url.clone()).unwrap(),
        "https://www.googleapis.com/drive/v3/about?oauth_token=tok123&fields=*"
    );
    let e = e.supply_transport(Ok((200, b"{\"appInstalled\":true}".to_vec())));
    assert_eq!(e.phase(), ExecPhase::Finished);
    match e.outcome() {
        Ok(ApiSuccess::Json(text)) => assert_eq!(text, "{\"appInstalled\":true}"),
        other => panic!("unexpected outcome: {:?}", other),
    }
}

#[test]
fn explicit_caller_scopes_override_the_defaults() {
    let e = Execution::start(
        ops::about_get(),
        AboutGetParams {}.to_parameters(),
        Payload::NoBody,
        vec!["https://www.googleapis.com/auth/drive.readonly".to_string()],
    )
    .unwrap();
    let e = e.resolve_scopes();
    assert_eq!(
        e.scopes().as_slice(),
        ["https://www.googleapis.com/auth/drive.readonly".to_string()]
    );
}

#[test]
fn auth_failure_is_terminal() {
    let e = Execution::start(
        ops::about_get(),
        AboutGetParams {}.to_parameters(),
        Payload::NoBody,
        Vec::new(),
    )
    .unwrap();
    let e = e.resolve_scopes().supply_token(Err("grant revoked".to_string()));
    assert_eq!(e.phase(), ExecPhase::Finished);
    assert_eq!(
        e.outcome(),
        Err(ApiError::Auth("grant revoked".to_string()))
    );
}

#[test]
fn transport_failure_is_terminal() {
    let e = Execution::start(
        ops::about_get(),
        AboutGetParams {}.to_parameters(),
        Payload::NoBody,
        Vec::new(),
    )
    .unwrap();
    let e = e
        .resolve_scopes()
        .supply_token(Ok(b"t".to_vec()))
        .build()
        .supply_transport(Err("connection refused".to_string()));
    assert_eq!(
        e.outcome(),
        Err(ApiError::Transport("connection refused".to_string()))
    );
}

#[test]
fn decode_failure_surfaces_from_the_interpreter() {
    let e = Execution::start(
        ops::about_get(),
        AboutGetParams {}.to_parameters(),
        Payload::NoBody,
        Vec::new(),
    )
    .unwrap();
    let e = e
        .resolve_scopes()
        .supply_token(Ok(b"t".to_vec()))
        .build()
        .supply_transport(Ok((200, vec![0xff, 0x00])));
    assert_eq!(e.outcome(), Err(ApiError::Decode));
}

#[test]
fn no_content_operation_succeeds_on_status_alone() {
    let e = Execution::start(
        ops::files_delete(),
        FilesDeleteParams { file_id: "f9".to_string(), ..Default::default() }.to_parameters(),
        Payload::NoBody,
        Vec::new(),
    )
    .unwrap();
    let e = e
        .resolve_scopes()
        .supply_token(Ok(b"t".to_vec()))
        .build()
        .supply_transport(Ok((204, Vec::new())));
    assert_eq!(e.outcome(), Ok(ApiSuccess::Unit));
}

#[test]
fn unfillable_path_template_is_refused_at_start() {
    let r = Execution::start(
        ops::files_get(),
        ParameterSet { path: Vec::new(), query: Vec::new() },
        Payload::NoBody,
        Vec::new(),
    );
    assert!(r.is_none());
}
