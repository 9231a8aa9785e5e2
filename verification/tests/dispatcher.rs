use hermes::apc::connection::stdio::{
    CallOutcome, Completion, Dispatcher, ProtocolCall, UserRequest,
};
use hermes::apc::error::{ConnectionError, Error, ProtocolError};
use hermes::apc::handler::response::ResponseKind;
use hermes::apc::protocol::content::{ContentBlock, TextContent};

fn every_command() -> Vec<UserRequest> {
    vec![
        UserRequest::CreateSession {
            workspace_root: "/work".to_string(),
        },
        UserRequest::Prompt {
            session_id: "s1".to_string(),
            content: vec![ContentBlock::Text(TextContent::new("hello"))],
        },
        UserRequest::Cancel {
            session_id: "s1".to_string(),
        },
        UserRequest::Authenticate {
            method_id: "github".to_string(),
        },
        UserRequest::SetConfigOption {
            session_id: "s1".to_string(),
            option_id: "model".to_string(),
            value: "large".to_string(),
        },
        UserRequest::SetMode {
            session_id: "s1".to_string(),
            mode_id: "ask".to_string(),
        },
        UserRequest::LoadSession {
            session_id: "s1".to_string(),
            workspace_root: "/work".to_string(),
        },
        UserRequest::ListSessions,
        UserRequest::ForkSession {
            session_id: "s1".to_string(),
            workspace_root: "/work".to_string(),
        },
        UserRequest::ResumeSession {
            session_id: "s1".to_string(),
            workspace_root: "/work".to_string(),
        },
        UserRequest::SetSessionModel {
            session_id: "s1".to_string(),
            model_id: "large".to_string(),
        },
        UserRequest::CustomCommand {
            name: "_probe".to_string(),
            payload: "{}".to_string(),
        },
        UserRequest::CustomNotification {
            name: "_note".to_string(),
            payload: "{}".to_string(),
        },
    ]
}

fn every_call() -> Vec<ProtocolCall> {
    vec![
        ProtocolCall::NewSession,
        ProtocolCall::Prompt,
        ProtocolCall::Cancel,
        ProtocolCall::Authenticate,
        ProtocolCall::SetSessionConfigOption,
        ProtocolCall::SetSessionMode,
        ProtocolCall::LoadSession,
        ProtocolCall::ListSessions,
        ProtocolCall::ForkSession,
        ProtocolCall::ResumeSession,
        ProtocolCall::SetSessionModel,
        ProtocolCall::ExtMethod,
        ProtocolCall::ExtNotification,
    ]
}

#[test]
fn each_command_maps_to_its_call() {
    let calls: Vec<ProtocolCall> = every_command()
        .iter()
        .map(|command| command.protocol_call())
        .collect();
    assert_eq!(calls, every_call());
}

#[test]
fn each_reply_has_its_entry_point() {
    let routes: Vec<Option<ResponseKind>> =
        every_call().iter().map(|call| call.response()).collect();
    assert_eq!(
        routes,
        vec![
            Some(ResponseKind::SessionCreated),
            Some(ResponseKind::Prompted),
            None,
            Some(ResponseKind::Authenticated),
            Some(ResponseKind::ConfigOptionSet),
            Some(ResponseKind::ModeSet),
            Some(ResponseKind::SessionLoaded),
            Some(ResponseKind::SessionsListed),
            Some(ResponseKind::SessionForked),
            Some(ResponseKind::SessionResumed),
            Some(ResponseKind::SessionModelSet),
            Some(ResponseKind::CustomCommandExecuted),
            None,
        ]
    );
}

#[test]
fn commands_are_issued_in_the_order_of_submission() {
    let mut dispatcher = Dispatcher::new();
    for command in every_command() {
        dispatcher.submit(command).unwrap();
    }
    assert_eq!(dispatcher.pending(), 13);

    let mut issued = Vec::new();
    while let Some(command) = dispatcher.next_call() {
        issued.push(command.protocol_call());
        dispatcher.complete(CallOutcome::Done);
    }
    assert_eq!(issued, every_call());
    assert_eq!(dispatcher.pending(), 0);
    assert!(dispatcher.accepts_commands());
}

#[test]
fn one_call_is_under_way_at_a_time() {
    let mut dispatcher = Dispatcher::new();
    dispatcher.submit(UserRequest::ListSessions).unwrap();
    dispatcher
        .submit(UserRequest::Cancel {
            session_id: "s1".to_string(),
        })
        .unwrap();

    assert!(matches!(
        dispatcher.next_call(),
        Some(UserRequest::ListSessions)
    ));
    assert!(dispatcher.next_call().is_none());
    assert_eq!(dispatcher.pending(), 1);

    let completion = dispatcher.complete(CallOutcome::Done);
    assert!(matches!(
        completion,
        Completion::Deliver(ResponseKind::SessionsListed)
    ));
    assert!(matches!(
        dispatcher.next_call(),
        Some(UserRequest::Cancel { .. })
    ));
}

#[test]
fn an_empty_dispatcher_has_nothing_to_issue() {
    let mut dispatcher = Dispatcher::new();
    assert!(dispatcher.next_call().is_none());
    assert!(matches!(
        dispatcher.complete(CallOutcome::Done),
        Completion::Idle
    ));
    assert!(dispatcher.accepts_commands());
}

#[test]
fn a_custom_notification_is_never_routed() {
    let mut dispatcher = Dispatcher::new();
    dispatcher
        .submit(UserRequest::CustomNotification {
            name: "_note".to_string(),
            payload: "{\"a\":1}".to_string(),
        })
        .unwrap();

    let command = dispatcher.next_call().unwrap();
    assert_eq!(command.protocol_call(), ProtocolCall::ExtNotification);
    assert_eq!(command.protocol_call().response(), None);
    assert!(matches!(
        dispatcher.complete(CallOutcome::Done),
        Completion::Sent
    ));
}

#[test]
fn a_failed_call_is_reported_and_the_loop_goes_on() {
    let mut dispatcher = Dispatcher::new();
    dispatcher
        .submit(UserRequest::Authenticate {
            method_id: "github".to_string(),
        })
        .unwrap();
    dispatcher.submit(UserRequest::ListSessions).unwrap();

    dispatcher.next_call().unwrap();
    let failure = CallOutcome::Failed(ProtocolError::Internal("denied".to_string()));
    let completion = dispatcher.complete(failure);
    assert!(matches!(
        completion,
        Completion::Report(Error::Internal(ref message)) if message == "Internal error: denied"
    ));

    assert!(dispatcher.accepts_commands());
    assert!(matches!(
        dispatcher.next_call(),
        Some(UserRequest::ListSessions)
    ));
    dispatcher.next_call();
    let completion = dispatcher.complete(CallOutcome::Failed(ProtocolError::MethodNotFound));
    assert!(matches!(
        completion,
        Completion::Report(Error::Internal(ref message)) if message == "Method not found"
    ));
}

#[test]
fn a_closed_stream_ends_the_loop() {
    let mut dispatcher = Dispatcher::new();
    for command in every_command() {
        dispatcher.submit(command).unwrap();
    }
    dispatcher.next_call().unwrap();

    let completion = dispatcher.complete(CallOutcome::TransportClosed);
    assert!(matches!(completion, Completion::Terminate { abandoned: 12 }));
    assert!(!dispatcher.accepts_commands());
    assert_eq!(dispatcher.pending(), 0);
    assert!(dispatcher.next_call().is_none());

    let error = dispatcher.submit(UserRequest::ListSessions).unwrap_err();
    assert!(matches!(error, ConnectionError::Closed));
    assert_eq!(dispatcher.pending(), 0);
}

#[test]
fn closing_abandons_what_waits() {
    let mut dispatcher = Dispatcher::new();
    dispatcher.submit(UserRequest::ListSessions).unwrap();
    dispatcher.submit(UserRequest::ListSessions).unwrap();
    dispatcher.next_call().unwrap();

    assert_eq!(dispatcher.close(), 1);
    assert!(!dispatcher.accepts_commands());
    assert!(matches!(
        dispatcher.complete(CallOutcome::Done),
        Completion::Idle
    ));
    assert!(matches!(
        dispatcher.submit(UserRequest::ListSessions),
        Err(ConnectionError::Closed)
    ));
    assert_eq!(dispatcher.close(), 0);
}
