use hermes::apc::connection::stdio::{connect, launch_failure, LaunchStage};
use hermes::apc::connection::{
    Assistant, ConnectStep, ConnectionDetails, ConnectionHandle, ConnectionManager, Protocol,
};
use hermes::apc::error::{ConnectionError, Error};
use hermes::nvim::api::connect::{connection_details, ArgValue};
use hermes::nvim::{ConnectionArgs, NvimError};

fn details(agent: Assistant, protocol: Protocol) -> ConnectionDetails {
    ConnectionDetails { agent, protocol }
}

#[test]
fn names_select_without_regard_to_case() {
    assert_eq!(Assistant::from("copilot"), Assistant::Copilot);
    assert_eq!(Assistant::from("OPENCODE"), Assistant::Opencode);
    assert_eq!(Assistant::from("OpenCode".to_string()), Assistant::Opencode);
    assert_eq!(Protocol::from("SOCKET"), Protocol::Socket);
    assert_eq!(Protocol::from("Http"), Protocol::Http);
    assert_eq!(Protocol::from("stdio".to_string()), Protocol::Stdio);
}

#[test]
fn unrecognized_names_select_the_defaults() {
    assert_eq!(Assistant::from("nobody"), Assistant::Copilot);
    assert_eq!(Assistant::from(""), Assistant::Copilot);
    assert_eq!(Protocol::from("websocket"), Protocol::Stdio);
    assert_eq!(Protocol::from(""), Protocol::Stdio);
    assert_eq!(Assistant::default(), Assistant::Copilot);
    assert_eq!(Protocol::default(), Protocol::Stdio);
}

#[test]
fn names_in_lower_case_are_compared_as_they_are() {
    assert_eq!(Assistant::from_lowercase("opencode"), Assistant::Opencode);
    assert_eq!(Assistant::from_lowercase("OPENCODE"), Assistant::Copilot);
    assert_eq!(Protocol::from_lowercase("http"), Protocol::Http);
    assert_eq!(Protocol::from_lowercase("HTTP"), Protocol::Stdio);
}

#[test]
fn agents_and_transports_have_names() {
    assert_eq!(Assistant::Copilot.to_string(), "copilot");
    assert_eq!(Assistant::Opencode.to_string(), "opencode");
    assert_eq!(Protocol::Socket.to_string(), "socket");
    assert_eq!(Protocol::Http.to_string(), "http");
    assert_eq!(Protocol::Stdio.to_string(), "stdio");
}

#[test]
fn a_call_without_arguments_asks_for_the_default_connection() {
    assert_eq!(
        connection_details(None),
        details(Assistant::Copilot, Protocol::Stdio)
    );
    assert_eq!(ConnectionDetails::default(), connection_details(None));
    let args = ConnectionArgs {
        agent: Some(Assistant::Opencode),
        protocol: None,
    };
    assert_eq!(
        connection_details(Some(args)),
        details(Assistant::Opencode, Protocol::Stdio)
    );
}

#[test]
fn arguments_are_read_from_string_fields() {
    let args = ConnectionArgs::from_fields(
        Some(ArgValue::Text("OpenCode".to_string())),
        Some(ArgValue::Text("STDIO".to_string())),
    )
    .unwrap();
    assert_eq!(args.agent, Some(Assistant::Opencode));
    assert_eq!(args.protocol, Some(Protocol::Stdio));

    let args = ConnectionArgs::from_fields(None, None).unwrap();
    assert_eq!(args.agent, None);
    assert_eq!(args.protocol, None);
}

#[test]
fn an_unrecognized_argument_falls_back_to_the_default() {
    let args = ConnectionArgs::from_fields(
        Some(ArgValue::Text("somebody".to_string())),
        Some(ArgValue::Text("carrier pigeon".to_string())),
    )
    .unwrap();
    assert_eq!(
        ConnectionDetails::from(args),
        details(Assistant::Copilot, Protocol::Stdio)
    );
}

#[test]
fn a_field_that_is_no_string_is_refused() {
    let error = ConnectionArgs::from_fields(Some(ArgValue::Other), None).unwrap_err();
    assert!(matches!(
        error,
        NvimError::InvalidConfig(ref message)
            if message == "Invalid input for \"agent\", must be a string"
    ));

    let error =
        ConnectionArgs::from_fields(Some(ArgValue::Text("copilot".to_string())), Some(ArgValue::Other))
            .unwrap_err();
    assert!(matches!(
        error,
        NvimError::InvalidConfig(ref message)
            if message == "Invalid input for \"protocol\", must be a string"
    ));

    let error = ConnectionArgs::from_fields(Some(ArgValue::Other), Some(ArgValue::Other)).unwrap_err();
    assert_eq!(
        error.to_string(),
        "Invalid configuration: Invalid input for \"agent\", must be a string"
    );
}

#[test]
fn arguments_are_written_as_a_table() {
    let args = ConnectionArgs {
        agent: Some(Assistant::Opencode),
        protocol: Some(Protocol::Socket),
    };
    let mut expected = nvim_oxi::Dictionary::new();
    expected.insert("agent", "opencode");
    expected.insert("protocol", "socket");
    assert_eq!(args.to_dictionary(), expected);

    let args = ConnectionArgs {
        agent: None,
        protocol: Some(Protocol::Stdio),
    };
    let mut expected = nvim_oxi::Dictionary::new();
    expected.insert("protocol", "stdio");
    assert_eq!(args.to_dictionary(), expected);

    let args = ConnectionArgs {
        agent: None,
        protocol: None,
    };
    assert!(args.to_dictionary().is_empty());
}

#[test]
fn a_new_registry_is_empty() {
    let manager = ConnectionManager::new();
    assert_eq!(manager.get_connection(&Assistant::Copilot), None);
    assert_eq!(manager.get_connection(&Assistant::Opencode), None);
}

#[test]
fn connecting_twice_reaches_one_connection() {
    for agent in [Assistant::Copilot, Assistant::Opencode] {
        let mut manager = ConnectionManager::new();
        let request = details(agent, Protocol::Stdio);

        let first = manager.connect(request).unwrap();
        assert_eq!(first, ConnectStep::Launch(agent));
        let handle = manager.add_connection(agent).unwrap();
        assert_eq!(handle, ConnectionHandle { agent, serial: 0 });

        let second = manager.connect(request).unwrap();
        assert_eq!(second, ConnectStep::Reuse(handle));
        let third = manager.connect(request).unwrap();
        assert_eq!(third, ConnectStep::Reuse(handle));
        assert_eq!(manager.get_connection(&agent), Some(handle));
    }
}

#[test]
fn a_connected_agent_is_reused_whatever_transport_is_asked_for() {
    let mut manager = ConnectionManager::new();
    let handle = manager.add_connection(Assistant::Opencode).unwrap();

    for protocol in [Protocol::Stdio, Protocol::Socket, Protocol::Http] {
        let step = manager.connect(details(Assistant::Opencode, protocol)).unwrap();
        assert_eq!(step, ConnectStep::Reuse(handle));
    }
}

#[test]
fn reserved_transports_are_not_implemented() {
    let manager = ConnectionManager::new();

    let error = manager
        .connect(details(Assistant::Copilot, Protocol::Socket))
        .unwrap_err();
    assert!(matches!(error, ConnectionError::NotImplemented(Protocol::Socket)));
    assert_eq!(error.to_string(), "Protocol not implemented: socket");

    let error = manager
        .connect(details(Assistant::Copilot, Protocol::Http))
        .unwrap_err();
    assert!(matches!(error, ConnectionError::NotImplemented(Protocol::Http)));
    assert_eq!(manager.get_connection(&Assistant::Copilot), None);
}

#[test]
fn adding_a_connected_agent_keeps_its_handle() {
    let mut manager = ConnectionManager::new();
    let first = manager.add_connection(Assistant::Copilot).unwrap();
    let again = manager.add_connection(Assistant::Copilot).unwrap();
    assert_eq!(first, again);

    let other = manager.add_connection(Assistant::Opencode).unwrap();
    assert_eq!(
        other,
        ConnectionHandle {
            agent: Assistant::Opencode,
            serial: 1
        }
    );
    assert_eq!(manager.get_connection(&Assistant::Copilot), Some(first));
}

#[test]
fn disconnecting_an_agent_that_is_not_connected_fails() {
    let mut manager = ConnectionManager::new();
    let error = manager.disconnect(&Assistant::Opencode).unwrap_err();
    assert!(matches!(error, ConnectionError::NotFound(Assistant::Opencode)));
    assert_eq!(
        error.to_string(),
        "No connection found for assistant opencode"
    );

    manager.add_connection(Assistant::Copilot).unwrap();
    let error = manager.disconnect(&Assistant::Opencode).unwrap_err();
    assert!(matches!(error, ConnectionError::NotFound(Assistant::Opencode)));
    assert!(manager.get_connection(&Assistant::Copilot).is_some());
}

#[test]
fn connecting_after_a_disconnect_launches_anew() {
    let mut manager = ConnectionManager::new();
    let request = details(Assistant::Copilot, Protocol::Stdio);
    let old = manager.add_connection(Assistant::Copilot).unwrap();
    let other = manager.add_connection(Assistant::Opencode).unwrap();

    assert_eq!(manager.disconnect(&Assistant::Copilot).unwrap(), old);
    assert_eq!(manager.get_connection(&Assistant::Copilot), None);
    assert_eq!(manager.get_connection(&Assistant::Opencode), Some(other));

    assert_eq!(
        manager.connect(request).unwrap(),
        ConnectStep::Launch(Assistant::Copilot)
    );
    let fresh = manager.add_connection(Assistant::Copilot).unwrap();
    assert_ne!(fresh, old);
    assert_eq!(fresh.serial, 2);
    assert_eq!(manager.connect(request).unwrap(), ConnectStep::Reuse(fresh));

    let error = {
        manager.disconnect(&Assistant::Copilot).unwrap();
        manager.disconnect(&Assistant::Copilot).unwrap_err()
    };
    assert!(matches!(error, ConnectionError::NotFound(Assistant::Copilot)));
}

#[test]
fn each_agent_has_its_command_line() {
    let command = connect(Assistant::Copilot);
    assert_eq!(command.program, "node");
    assert_eq!(command.args, vec!["copilot-language-server", "--acp"]);

    let command = connect(Assistant::Opencode);
    assert_eq!(command.program, "opencode");
    assert_eq!(command.args, vec!["acp"]);
}

#[test]
fn a_launch_fails_by_its_stage() {
    let error = launch_failure(LaunchStage::Spawn, "No such file or directory".to_string());
    assert!(matches!(error, ConnectionError::Spawn(ref cause) if cause == "No such file or directory"));
    assert_eq!(
        error.to_string(),
        "Failed to spawn agent: No such file or directory"
    );

    let error = launch_failure(LaunchStage::Stdin, String::new());
    assert!(matches!(error, ConnectionError::Pipe(ref cause) if cause == "Failed to take stdin"));

    let error = launch_failure(LaunchStage::Stdout, String::new());
    assert!(matches!(error, ConnectionError::Pipe(ref cause) if cause == "Failed to take stdout"));
    assert_eq!(
        error.to_string(),
        "Failed to capture agent streams: Failed to take stdout"
    );

    let error = launch_failure(LaunchStage::Handshake, "timed out".to_string());
    assert!(matches!(error, ConnectionError::Handshake(ref cause) if cause == "timed out"));
    assert_eq!(error.to_string(), "Failed to initialize agent: timed out");
}

#[test]
fn connection_failures_reach_the_editor_as_connection_errors() {
    let reported = Error::from_connection(&ConnectionError::Closed);
    assert!(matches!(reported, Error::Connection(ref message) if message == "Connection closed"));
    assert_eq!(reported.to_string(), "Connection error: Connection closed");
}

#[test]
fn a_lost_connection_is_launched_anew_on_the_next_connect() {
    let mut manager = ConnectionManager::new();
    let request = details(Assistant::Opencode, Protocol::Stdio);
    let lost = manager.add_connection(Assistant::Opencode).unwrap();

    assert!(manager.connection_lost(lost));
    assert_eq!(manager.get_connection(&Assistant::Opencode), None);
    assert_eq!(
        manager.connect(request).unwrap(),
        ConnectStep::Launch(Assistant::Opencode)
    );

    let fresh = manager.add_connection(Assistant::Opencode).unwrap();
    assert_ne!(fresh, lost);
    assert!(!manager.connection_lost(lost));
    assert_eq!(manager.get_connection(&Assistant::Opencode), Some(fresh));
    assert_eq!(manager.connect(request).unwrap(), ConnectStep::Reuse(fresh));
}

#[test]
fn losing_a_connection_that_is_not_there_changes_nothing() {
    let mut manager = ConnectionManager::new();
    let copilot = manager.add_connection(Assistant::Copilot).unwrap();
    let stranger = ConnectionHandle {
        agent: Assistant::Opencode,
        serial: 7,
    };

    assert!(!manager.connection_lost(stranger));
    assert_eq!(manager.get_connection(&Assistant::Copilot), Some(copilot));
    assert_eq!(manager.get_connection(&Assistant::Opencode), None);
}

#[test]
fn a_failed_launch_leaves_nothing_behind() {
    let mut manager = ConnectionManager::new();
    let request = details(Assistant::Copilot, Protocol::Stdio);
    assert_eq!(
        manager.connect(request).unwrap(),
        ConnectStep::Launch(Assistant::Copilot)
    );

    let failure = launch_failure(LaunchStage::Handshake, "timed out".to_string());
    let error = manager
        .finish_launch(Assistant::Copilot, Err(failure))
        .unwrap_err();
    assert!(matches!(error, ConnectionError::Handshake(ref cause) if cause == "timed out"));
    assert_eq!(manager.get_connection(&Assistant::Copilot), None);
    assert_eq!(
        manager.connect(request).unwrap(),
        ConnectStep::Launch(Assistant::Copilot)
    );

    let handle = manager.finish_launch(Assistant::Copilot, Ok(())).unwrap();
    assert_eq!(
        handle,
        ConnectionHandle {
            agent: Assistant::Copilot,
            serial: 0
        }
    );
    assert_eq!(manager.connect(request).unwrap(), ConnectStep::Reuse(handle));
}
