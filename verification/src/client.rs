//! The workspace event client as a state machine: every connection,
//! read, and decode outcome is a step from a state and an input to the
//! next state and a list of actions for the host loop to perform.

use vstd::prelude::*;
use vstd::string::StringExecFns;
use crate::codec::{Outcome, envelope_outcome, env_data, matches_snapshot, spec_publishes,
    spec_requeries};
use crate::json::{JsonValue, json_of, parse_json};

verus! {

/// Where the client stands with its connection.
#[derive(Debug, Clone, Copy, PartialEq, Eq, Structural)]
pub enum ClientState {
    /// No live connection; the next input is a connect attempt's result.
    Disconnected,
    /// Subscribed and reading messages one at a time.
    Streaming,
}

/// The three commands the client ever sends.
#[derive(Debug, Clone, Copy, PartialEq, Eq, Structural)]
pub enum Command {
    SubscribeActivated,
    SubscribeFocus,
    QueryWorkspaces,
}

/// What one step asks the host loop to do, in order.
#[derive(Debug, PartialEq)]
pub enum ClientAction {
    /// Write the command's text over the connection.
    Send(Command),
    /// Hand a fresh snapshot to the consumer channel.
    Publish(Vec<crate::codec::Workspace>),
    /// Raise the repaint coalescer's flag.
    RaiseRepaint,
    /// Sleep the fixed retry delay before the next connect attempt.
    SleepRetry,
}

/// One input to the state machine. A `Message` carries the parsed text
/// frame, `None` where the frame was not text or not valid JSON.
pub enum ClientInput {
    ConnectOk,
    ConnectFailed,
    Message(Option<JsonValue>),
    ReadFailed,
}

/// The wire text of each command.
pub fn command_text(c: &Command) -> (r: String)
    ensures
        c is SubscribeActivated ==> r@ == "sub -e workspace_activated"@,
        c is SubscribeFocus ==> r@ == "sub -e focus_changed"@,
        c is QueryWorkspaces ==> r@ == "query workspaces"@,
{
    match c {
        Command::SubscribeActivated => String::from_str("sub -e workspace_activated"),
        Command::SubscribeFocus => String::from_str("sub -e focus_changed"),
        Command::QueryWorkspaces => String::from_str("query workspaces"),
    }
}

/// The state after one step: a successful connect starts streaming, a
/// read failure drops the connection, everything else stays put.
pub open spec fn spec_next_state(s: ClientState, i: ClientInput) -> ClientState {
    match (s, i) {
        (ClientState::Disconnected, ClientInput::ConnectOk) => ClientState::Streaming,
        (ClientState::Disconnected, _) => ClientState::Disconnected,
        (ClientState::Streaming, ClientInput::ReadFailed) => ClientState::Disconnected,
        (ClientState::Streaming, _) => ClientState::Streaming,
    }
}

/// How many `query workspaces` commands one step sends: one on a fresh
/// connection, one per event message while streaming, none otherwise.
pub open spec fn spec_queries(s: ClientState, i: ClientInput) -> nat {
    match (s, i) {
        (ClientState::Disconnected, ClientInput::ConnectOk) => 1,
        (ClientState::Streaming, ClientInput::Message(Some(v))) => if spec_requeries(v) {
            1
        } else {
            0
        },
        _ => 0,
    }
}

/// How many retry sleeps one step takes: one per failed connect.
pub open spec fn spec_sleeps(s: ClientState, i: ClientInput) -> nat {
    match (s, i) {
        (ClientState::Disconnected, ClientInput::ConnectFailed) => 1,
        _ => 0,
    }
}

pub open spec fn count_queries(a: Seq<ClientAction>) -> nat
    decreases a.len(),
{
    if a.len() == 0 {
        0
    } else {
        count_queries(a.drop_last()) + (if a.last() == ClientAction::Send(
            Command::QueryWorkspaces,
        ) {
            1nat
        } else {
            0nat
        })
    }
}

pub open spec fn count_sleeps(a: Seq<ClientAction>) -> nat
    decreases a.len(),
{
    if a.len() == 0 {
        0
    } else {
        count_sleeps(a.drop_last()) + (if a.last() == ClientAction::SleepRetry {
            1nat
        } else {
            0nat
        })
    }
}

/// One step of the client: from a state and an input to the next state
/// and the ordered actions the host loop must perform.
pub fn client_step(state: ClientState, input: ClientInput) -> (r: (ClientState, Vec<ClientAction>))
    ensures
        r.0 == spec_next_state(state, input),
        count_queries(r.1@) == spec_queries(state, input),
        count_sleeps(r.1@) == spec_sleeps(state, input),
        state is Disconnected && input is ConnectOk ==> r.1@ == seq![
            ClientAction::Send(Command::SubscribeActivated),
            ClientAction::Send(Command::SubscribeFocus),
            ClientAction::Send(Command::QueryWorkspaces),
        ],
        state is Disconnected && input is ConnectFailed ==> r.1@ == seq![ClientAction::SleepRetry],
        (match input {
            ClientInput::Message(Some(v)) => state is Streaming ==> {
                &&& spec_requeries(v) ==> r.1@ == seq![
                    ClientAction::Send(Command::QueryWorkspaces),
                ]
                &&& spec_publishes(v) ==> r.1@.len() == 2 && (r.1@[0] matches ClientAction::Publish(
                    ws,
                ) && matches_snapshot(ws@, env_data(v))) && r.1@[1] == ClientAction::RaiseRepaint
                &&& !spec_requeries(v) && !spec_publishes(v) ==> r.1@.len() == 0
            },
            _ => true,
        }),
        state is Streaming && !(input matches ClientInput::Message(Some(_))) ==> r.1@.len() == 0,
        state is Disconnected && !(input is ConnectOk) && !(input is ConnectFailed) ==> r.1@.len()
            == 0,
        // A snapshot is published and a repaint raised only for a
        // publishable envelope; in particular never for one that
        // carries the subscription-ack marker.
        forall|i: int|
            0 <= i < r.1@.len() ==> (((#[trigger] r.1@[i]) is Publish || r.1@[i] is RaiseRepaint)
                ==> (match input {
                ClientInput::Message(Some(v)) => state is Streaming && spec_publishes(v),
                _ => false,
            })),
{
    match (state, input) {
        (ClientState::Disconnected, ClientInput::ConnectOk) => {
            let actions = vec![
                ClientAction::Send(Command::SubscribeActivated),
                ClientAction::Send(Command::SubscribeFocus),
                ClientAction::Send(Command::QueryWorkspaces),
            ];
            proof {
                reveal_with_fuel(count_queries, 5);
                reveal_with_fuel(count_sleeps, 5);
                assert(actions@.drop_last().drop_last().drop_last() =~= Seq::<
                    ClientAction,
                >::empty());
            }
            (ClientState::Streaming, actions)
        },
        (ClientState::Disconnected, ClientInput::ConnectFailed) => {
            let actions = vec![ClientAction::SleepRetry];
            proof {
                reveal_with_fuel(count_queries, 3);
                reveal_with_fuel(count_sleeps, 3);
                assert(actions@.drop_last() =~= Seq::<ClientAction>::empty());
            }
            (ClientState::Disconnected, actions)
        },
        (ClientState::Disconnected, _) => (ClientState::Disconnected, Vec::new()),
        (ClientState::Streaming, ClientInput::ReadFailed) => (ClientState::Disconnected, Vec::new()),
        (ClientState::Streaming, ClientInput::Message(Some(v))) => {
            let actions: Vec<ClientAction> = match envelope_outcome(&v) {
                Outcome::Publish(ws) => vec![ClientAction::Publish(ws), ClientAction::RaiseRepaint],
                Outcome::Requery => vec![ClientAction::Send(Command::QueryWorkspaces)],
                Outcome::Ignore => Vec::new(),
            };
            proof {
                reveal_with_fuel(count_queries, 4);
                reveal_with_fuel(count_sleeps, 4);
                if actions@.len() == 1 {
                    assert(actions@.drop_last() =~= Seq::<ClientAction>::empty());
                }
                if actions@.len() == 2 {
                    assert(actions@.drop_last().drop_last() =~= Seq::<ClientAction>::empty());
                }
            }
            (ClientState::Streaming, actions)
        },
        (ClientState::Streaming, _) => (ClientState::Streaming, Vec::new()),
    }
}

/// One step on a raw text frame: parse, then step on the result.
pub fn handle_text(state: ClientState, text: &str) -> (r: (ClientState, Vec<ClientAction>))
    ensures
        r.0 == spec_next_state(state, ClientInput::Message(json_of(text@))),
        count_queries(r.1@) == spec_queries(state, ClientInput::Message(json_of(text@))),
        count_sleeps(r.1@) == spec_sleeps(state, ClientInput::Message(json_of(text@))),
        (match json_of(text@) {
            Some(v) => state is Streaming ==> {
                &&& spec_requeries(v) ==> r.1@ == seq![
                    ClientAction::Send(Command::QueryWorkspaces),
                ]
                &&& spec_publishes(v) ==> r.1@.len() == 2 && (r.1@[0] matches ClientAction::Publish(
                    ws,
                ) && matches_snapshot(ws@, env_data(v))) && r.1@[1] == ClientAction::RaiseRepaint
                &&& !spec_requeries(v) && !spec_publishes(v) ==> r.1@.len() == 0
            },
            None => r.1@.len() == 0,
        }),
        forall|i: int|
            0 <= i < r.1@.len() ==> (((#[trigger] r.1@[i]) is Publish || r.1@[i] is RaiseRepaint)
                ==> (match json_of(text@) {
                Some(v) => state is Streaming && spec_publishes(v),
                None => false,
            })),
{
    client_step(state, ClientInput::Message(parse_json(text)))
}

/// The state after a whole run of inputs.
pub open spec fn run_state(s: ClientState, inputs: Seq<ClientInput>) -> ClientState
    decreases inputs.len(),
{
    if inputs.len() == 0 {
        s
    } else {
        run_state(spec_next_state(s, inputs[0]), inputs.drop_first())
    }
}

/// Total `query workspaces` commands a run of inputs sends.
pub open spec fn run_queries(s: ClientState, inputs: Seq<ClientInput>) -> nat
    decreases inputs.len(),
{
    if inputs.len() == 0 {
        0
    } else {
        spec_queries(s, inputs[0]) + run_queries(spec_next_state(s, inputs[0]), inputs.drop_first())
    }
}

/// Total retry sleeps a run of inputs takes.
pub open spec fn run_sleeps(s: ClientState, inputs: Seq<ClientInput>) -> nat
    decreases inputs.len(),
{
    if inputs.len() == 0 {
        0
    } else {
        spec_sleeps(s, inputs[0]) + run_sleeps(spec_next_state(s, inputs[0]), inputs.drop_first())
    }
}

/// An input that carries one of the event message types.
pub open spec fn is_event_input(i: ClientInput) -> bool {
    match i {
        ClientInput::Message(Some(v)) => spec_requeries(v),
        _ => false,
    }
}

/// While streaming, a run of N event messages leaves the client
/// streaming and sends exactly N `query workspaces` commands: one per
/// event, none skipped.
pub proof fn lemma_each_event_requeries(inputs: Seq<ClientInput>)
    requires
        forall|i: int| 0 <= i < inputs.len() ==> is_event_input(#[trigger] inputs[i]),
    ensures
        run_state(ClientState::Streaming, inputs) == ClientState::Streaming,
        run_queries(ClientState::Streaming, inputs) == inputs.len(),
    decreases inputs.len(),
{
    if inputs.len() > 0 {
        assert(is_event_input(inputs[0]));
        let rest = inputs.drop_first();
        assert(forall|i: int|
            0 <= i < rest.len() ==> is_event_input(#[trigger] rest[i])) by {
            assert(forall|i: int| 0 <= i < rest.len() ==> rest[i] == inputs[i + 1]);
        }
        lemma_each_event_requeries(rest);
    }
}

/// Running one run of inputs and then another is the same as running
/// their concatenation, for the state and for both counters.
pub proof fn lemma_run_concat(s: ClientState, a: Seq<ClientInput>, b: Seq<ClientInput>)
    ensures
        run_state(s, a + b) == run_state(run_state(s, a), b),
        run_queries(s, a + b) == run_queries(s, a) + run_queries(run_state(s, a), b),
        run_sleeps(s, a + b) == run_sleeps(s, a) + run_sleeps(run_state(s, a), b),
    decreases a.len(),
{
    if a.len() == 0 {
        assert(a + b =~= b);
    } else {
        assert((a + b).drop_first() =~= a.drop_first() + b);
        assert((a + b)[0] == a[0]);
        lemma_run_concat(spec_next_state(s, a[0]), a.drop_first(), b);
    }
}

/// A run of k failed connect attempts from Disconnected stays
/// Disconnected, sleeps the retry delay exactly k times, and sends
/// nothing.
pub proof fn lemma_retry_loop(k: nat)
    ensures
        run_state(ClientState::Disconnected, Seq::new(k, |i: int| ClientInput::ConnectFailed))
            == ClientState::Disconnected,
        run_sleeps(ClientState::Disconnected, Seq::new(k, |i: int| ClientInput::ConnectFailed))
            == k,
        run_queries(ClientState::Disconnected, Seq::new(k, |i: int| ClientInput::ConnectFailed))
            == 0,
    decreases k,
{
    let inputs = Seq::new(k, |i: int| ClientInput::ConnectFailed);
    if k > 0 {
        assert(inputs.drop_first() =~= Seq::new((k - 1) as nat, |i: int| ClientInput::ConnectFailed));
        lemma_retry_loop((k - 1) as nat);
    }
}

/// A full reconnect cycle: after a read failure the client is
/// disconnected; k failed attempts each sleep the fixed delay and leave
/// it disconnected; the successful connect returns it to streaming and
/// sends exactly one query. The subscribe commands of that connect come
/// before the query: `client_step` pins the action order of a
/// successful connect to subscribe, subscribe, query.
pub proof fn lemma_reconnect_cycle(k: nat)
    ensures
        ({
            let inputs = seq![ClientInput::ReadFailed] + Seq::new(
                k,
                |i: int| ClientInput::ConnectFailed,
            ) + seq![ClientInput::ConnectOk];
            &&& run_state(ClientState::Streaming, inputs) == ClientState::Streaming
            &&& run_sleeps(ClientState::Streaming, inputs) == k
            &&& run_queries(ClientState::Streaming, inputs) == 1
        }),
{
    reveal_with_fuel(run_state, 3);
    reveal_with_fuel(run_queries, 3);
    reveal_with_fuel(run_sleeps, 3);
    let fail = seq![ClientInput::ReadFailed];
    let retries = Seq::new(k, |i: int| ClientInput::ConnectFailed);
    let ok = seq![ClientInput::ConnectOk];
    assert(fail.drop_first() =~= Seq::<ClientInput>::empty());
    assert(ok.drop_first() =~= Seq::<ClientInput>::empty());
    assert(run_state(ClientState::Streaming, fail) == ClientState::Disconnected);
    lemma_retry_loop(k);
    lemma_run_concat(ClientState::Streaming, fail, retries);
    lemma_run_concat(ClientState::Streaming, fail + retries, ok);
    assert(fail + retries + ok =~= (fail + retries) + ok);
}

} // verus!
