use quebar::client::{
    ClientAction, ClientInput, ClientState, Command, client_step, command_text, handle_text,
};

#[test]
fn command_texts_are_the_wire_strings() {
    assert_eq!(command_text(&Command::SubscribeActivated), "sub -e workspace_activated");
    assert_eq!(command_text(&Command::SubscribeFocus), "sub -e focus_changed");
    assert_eq!(command_text(&Command::QueryWorkspaces), "query workspaces");
}

#[test]
fn connect_ok_subscribes_then_queries() {
    let (state, actions) = client_step(ClientState::Disconnected, ClientInput::ConnectOk);
    assert_eq!(state, ClientState::Streaming);
    assert_eq!(
        actions,
        vec![
            ClientAction::Send(Command::SubscribeActivated),
            ClientAction::Send(Command::SubscribeFocus),
            ClientAction::Send(Command::QueryWorkspaces),
        ]
    );
}

#[test]
fn connect_failure_sleeps_and_retries() {
    let (state, actions) = client_step(ClientState::Disconnected, ClientInput::ConnectFailed);
    assert_eq!(state, ClientState::Disconnected);
    assert_eq!(actions, vec![ClientAction::SleepRetry]);
}

#[test]
fn read_failure_disconnects() {
    let (state, actions) = client_step(ClientState::Streaming, ClientInput::ReadFailed);
    assert_eq!(state, ClientState::Disconnected);
    assert!(actions.is_empty());
}

#[test]
fn reconnect_cycle_resubscribes_before_querying() {
    // Lose the connection, fail twice, then reconnect.
    let mut state = ClientState::Streaming;
    let mut sleeps: usize = 0;
    let mut sent: Vec<Command> = Vec::new();
    for input in [
        ClientInput::ReadFailed,
        ClientInput::ConnectFailed,
        ClientInput::ConnectFailed,
        ClientInput::ConnectOk,
    ] {
        let (next, actions) = client_step(state, input);
        state = next;
        for a in actions {
            match a {
                ClientAction::SleepRetry => sleeps += 1,
                ClientAction::Send(c) => sent.push(c),
                _ => panic!("unexpected action during reconnect"),
            }
        }
    }
    assert_eq!(state, ClientState::Streaming);
    assert_eq!(sleeps, 2);
    assert_eq!(
        sent,
        vec![Command::SubscribeActivated, Command::SubscribeFocus, Command::QueryWorkspaces]
    );
}

#[test]
fn each_event_sends_exactly_one_query() {
    let events = [
        r#"{"messageType":"event","data":{}}"#,
        r#"{"messageType":"subscribed_event","data":{"x":1}}"#,
        r#"{"messageType":"event_subscription","data":null}"#,
        r#"{"messageType":"event","data":{"y":[1,2]}}"#,
    ];
    let mut state = ClientState::Streaming;
    let mut queries: usize = 0;
    for text in events {
        let (next, actions) = handle_text(state, text);
        state = next;
        assert_eq!(actions, vec![ClientAction::Send(Command::QueryWorkspaces)]);
        queries += 1;
    }
    assert_eq!(state, ClientState::Streaming);
    assert_eq!(queries, events.len());
}

#[test]
fn streaming_publishes_decoded_snapshot() {
    let text = r#"{"messageType":"query_response","data":{"workspaces":[{"name":"1","hasFocus":true}]}}"#;
    let (state, actions) = handle_text(ClientState::Streaming, text);
    assert_eq!(state, ClientState::Streaming);
    assert_eq!(actions.len(), 2);
    match &actions[0] {
        ClientAction::Publish(ws) => {
            assert_eq!(ws.len(), 1);
            assert_eq!(ws[0].name, "1");
            assert!(ws[0].focused);
            assert!(!ws[0].visible);
        }
        other => panic!("expected a publish first, got {:?}", other),
    }
    assert_eq!(actions[1], ClientAction::RaiseRepaint);
}

#[test]
fn extra_fields_and_numbers_are_tolerated() {
    let text = r#"{"messageType":"query_response","data":{"workspaces":[{"name":"9","id":42,"weight":3.5,"isDisplayed":false}]}}"#;
    let (_, actions) = handle_text(ClientState::Streaming, text);
    match &actions[0] {
        ClientAction::Publish(ws) => {
            assert_eq!(ws.len(), 1);
            assert_eq!(ws[0].name, "9");
            assert!(!ws[0].focused);
            assert!(!ws[0].visible);
        }
        other => panic!("expected a publish first, got {:?}", other),
    }
}

#[test]
fn ack_publishes_nothing_and_raises_nothing() {
    let text = r#"{"messageType":"client_response","data":{"subscriptionId":"s1"}}"#;
    let (state, actions) = handle_text(ClientState::Streaming, text);
    assert_eq!(state, ClientState::Streaming);
    assert!(actions.is_empty());
}

#[test]
fn invalid_json_is_dropped_silently() {
    let (state, actions) = handle_text(ClientState::Streaming, "not json at all {");
    assert_eq!(state, ClientState::Streaming);
    assert!(actions.is_empty());
}

#[test]
fn non_text_frames_are_dropped() {
    let (state, actions) = client_step(ClientState::Streaming, ClientInput::Message(None));
    assert_eq!(state, ClientState::Streaming);
    assert!(actions.is_empty());
}
