//! The protocol codec: routes an envelope by its message type, filters
//! subscription acks, and decodes a workspace snapshot, accepting both
//! key spellings and defaulting absent flags to `false`.

use vstd::prelude::*;
use crate::json::{JsonValue, eq_str, lookup, obj_get};

verus! {

/// One workspace as reported by the window manager. Identity is
/// positional within a snapshot; a new snapshot replaces the old list.
#[derive(Debug, Clone, PartialEq)]
pub struct Workspace {
    pub name: String,
    pub focused: bool,
    pub visible: bool,
}

/// A boolean field is well-formed when it appears under at most one of
/// its two accepted spellings, and then as a boolean.
pub open spec fn flag_ok(
    fields: Seq<(String, JsonValue)>,
    primary: Seq<char>,
    alias: Seq<char>,
) -> bool {
    match (lookup(fields, primary), lookup(fields, alias)) {
        (Some(JsonValue::Bool(_)), Option::None) => true,
        (Option::None, Some(JsonValue::Bool(_))) => true,
        (Option::None, Option::None) => true,
        _ => false,
    }
}

/// The value of a boolean field under either spelling, `false` where
/// both are absent.
pub open spec fn flag_val(
    fields: Seq<(String, JsonValue)>,
    primary: Seq<char>,
    alias: Seq<char>,
) -> bool {
    match lookup(fields, primary) {
        Some(JsonValue::Bool(b)) => b,
        _ => match lookup(fields, alias) {
            Some(JsonValue::Bool(b)) => b,
            _ => false,
        },
    }
}

/// A workspace entry decodes when it is an object with a string `name`
/// and well-formed focus and visibility flags.
pub open spec fn item_ok(v: JsonValue) -> bool {
    match v {
        JsonValue::Obj(fs) => (match lookup(fs@, "name"@) {
            Some(JsonValue::Str(_)) => true,
            _ => false,
        }) && flag_ok(fs@, "focused"@, "hasFocus"@) && flag_ok(fs@, "visible"@, "isDisplayed"@),
        _ => false,
    }
}

pub open spec fn item_name(v: JsonValue) -> Seq<char> {
    match v {
        JsonValue::Obj(fs) => match lookup(fs@, "name"@) {
            Some(JsonValue::Str(s)) => s@,
            _ => Seq::empty(),
        },
        _ => Seq::empty(),
    }
}

pub open spec fn item_focused(v: JsonValue) -> bool {
    match v {
        JsonValue::Obj(fs) => flag_val(fs@, "focused"@, "hasFocus"@),
        _ => false,
    }
}

pub open spec fn item_visible(v: JsonValue) -> bool {
    match v {
        JsonValue::Obj(fs) => flag_val(fs@, "visible"@, "isDisplayed"@),
        _ => false,
    }
}

/// The entries under a payload's `workspaces` key.
pub open spec fn snapshot_items(d: JsonValue) -> Seq<JsonValue> {
    match d {
        JsonValue::Obj(fs) => match lookup(fs@, "workspaces"@) {
            Some(JsonValue::Arr(items)) => items@,
            _ => Seq::empty(),
        },
        _ => Seq::empty(),
    }
}

/// A payload decodes to a snapshot when it is an object whose
/// `workspaces` key holds an array of well-formed entries.
pub open spec fn snapshot_ok(d: JsonValue) -> bool {
    match d {
        JsonValue::Obj(fs) => match lookup(fs@, "workspaces"@) {
            Some(JsonValue::Arr(items)) => forall|i: int|
                0 <= i < items@.len() ==> item_ok(#[trigger] items@[i]),
            _ => false,
        },
        _ => false,
    }
}

/// The decoded list mirrors the payload entry for entry: same length,
/// same order, same name and flag values.
pub open spec fn matches_snapshot(ws: Seq<Workspace>, d: JsonValue) -> bool {
    let items = snapshot_items(d);
    &&& ws.len() == items.len()
    &&& forall|i: int|
        0 <= i < items.len() ==> {
            &&& (#[trigger] ws[i]).name@ == item_name(items[i])
            &&& ws[i].focused == item_focused(items[i])
            &&& ws[i].visible == item_visible(items[i])
        }
}

/// A payload carries the subscription-ack marker when its object holds
/// a `subscriptionId` key, whatever its value.
pub open spec fn spec_is_ack(d: JsonValue) -> bool {
    match d {
        JsonValue::Obj(fs) => lookup(fs@, "subscriptionId"@) is Some,
        _ => false,
    }
}

fn decode_flag(fields: &Vec<(String, JsonValue)>, primary: &str, alias: &str) -> (r: Option<bool>)
    ensures
        r is Some <==> flag_ok(fields@, primary@, alias@),
        (match r {
            Some(b) => b == flag_val(fields@, primary@, alias@),
            None => true,
        }),
{
    let p = obj_get(fields, primary);
    let a = obj_get(fields, alias);
    match (p, a) {
        (Some(JsonValue::Bool(b)), Option::None) => Some(*b),
        (Option::None, Some(JsonValue::Bool(b))) => Some(*b),
        (Option::None, Option::None) => Some(false),
        _ => None,
    }
}

fn decode_item(v: &JsonValue) -> (r: Option<Workspace>)
    ensures
        r is Some <==> item_ok(*v),
        (match r {
            Some(w) => w.name@ == item_name(*v) && w.focused == item_focused(*v) && w.visible
                == item_visible(*v),
            None => true,
        }),
{
    match v {
        JsonValue::Obj(fs) => {
            let name: String = match obj_get(fs, "name") {
                Some(JsonValue::Str(s)) => s.clone(),
                _ => {
                    return None;
                },
            };
            let focused: bool = match decode_flag(fs, "focused", "hasFocus") {
                Some(b) => b,
                None => {
                    return None;
                },
            };
            let visible: bool = match decode_flag(fs, "visible", "isDisplayed") {
                Some(b) => b,
                None => {
                    return None;
                },
            };
            Some(Workspace { name, focused, visible })
        },
        _ => None,
    }
}

/// Decodes a payload into a workspace snapshot: `None` exactly where
/// the payload is not workspace-shaped, otherwise the mirrored list.
pub fn decode_snapshot(d: &JsonValue) -> (r: Option<Vec<Workspace>>)
    ensures
        r is Some <==> snapshot_ok(*d),
        (match r {
            Some(ws) => matches_snapshot(ws@, *d),
            None => true,
        }),
{
    match d {
        JsonValue::Obj(fs) => {
            match obj_get(fs, "workspaces") {
                Some(JsonValue::Arr(items)) => {
                    let n = items.len();
                    let mut out: Vec<Workspace> = Vec::new();
                    let mut i: usize = 0;
                    while i < n
                        invariant
                            i <= n,
                            n == items@.len(),
                            out@.len() == i,
                            snapshot_items(*d) == items@,
                            forall|j: int|
                                0 <= j < i ==> {
                                    &&& item_ok(#[trigger] items@[j])
                                    &&& out@[j].name@ == item_name(items@[j])
                                    &&& out@[j].focused == item_focused(items@[j])
                                    &&& out@[j].visible == item_visible(items@[j])
                                },
                        decreases n - i,
                    {
                        match decode_item(&items[i]) {
                            Some(w) => {
                                out.push(w);
                            },
                            None => {
                                return None;
                            },
                        }
                        i += 1;
                    }
                    Some(out)
                },
                _ => None,
            }
        },
        _ => None,
    }
}

/// Tests a payload for the subscription-ack marker.
pub fn is_ack(d: &JsonValue) -> (r: bool)
    ensures
        r == spec_is_ack(*d),
{
    match d {
        JsonValue::Obj(fs) => obj_get(fs, "subscriptionId").is_some(),
        _ => false,
    }
}

/// The three classes of message type the client distinguishes.
#[derive(Debug, PartialEq, Eq, Structural)]
pub enum MsgKind {
    Response,
    EventKind,
    Other,
}

pub open spec fn spec_kind(t: Seq<char>) -> MsgKind {
    if t == "client_response"@ || t == "query_response"@ {
        MsgKind::Response
    } else if t == "event"@ || t == "subscribed_event"@ || t == "event_subscription"@ {
        MsgKind::EventKind
    } else {
        MsgKind::Other
    }
}

pub fn kind_of(t: &String) -> (r: MsgKind)
    ensures
        r == spec_kind(t@),
{
    if eq_str(t, "client_response") || eq_str(t, "query_response") {
        MsgKind::Response
    } else if eq_str(t, "event") || eq_str(t, "subscribed_event") || eq_str(
        t,
        "event_subscription",
    ) {
        MsgKind::EventKind
    } else {
        MsgKind::Other
    }
}

/// A value is a well-formed envelope when it is an object with a string
/// `messageType` and a `data` key of any shape.
pub open spec fn env_ok(v: JsonValue) -> bool {
    match v {
        JsonValue::Obj(fs) => (match lookup(fs@, "messageType"@) {
            Some(JsonValue::Str(_)) => true,
            _ => false,
        }) && lookup(fs@, "data"@) is Some,
        _ => false,
    }
}

/// The envelope's message type, empty where the envelope is malformed.
pub open spec fn env_type(v: JsonValue) -> Seq<char> {
    match v {
        JsonValue::Obj(fs) => match lookup(fs@, "messageType"@) {
            Some(JsonValue::Str(s)) => s@,
            _ => Seq::empty(),
        },
        _ => Seq::empty(),
    }
}

/// The envelope's payload, `Null` where the envelope is malformed.
pub open spec fn env_data(v: JsonValue) -> JsonValue {
    match v {
        JsonValue::Obj(fs) => match lookup(fs@, "data"@) {
            Some(d) => d,
            None => JsonValue::Null,
        },
        _ => JsonValue::Null,
    }
}

/// An envelope publishes a snapshot when it is a response, carries no
/// subscription-ack marker, and its payload is workspace-shaped.
pub open spec fn spec_publishes(v: JsonValue) -> bool {
    &&& env_ok(v)
    &&& spec_kind(env_type(v)) is Response
    &&& !spec_is_ack(env_data(v))
    &&& snapshot_ok(env_data(v))
}

/// An envelope triggers a fresh full-state query when it is any of the
/// event message types.
pub open spec fn spec_requeries(v: JsonValue) -> bool {
    env_ok(v) && spec_kind(env_type(v)) is EventKind
}

/// What the client does with one decoded envelope.
#[derive(Debug, PartialEq)]
pub enum Outcome {
    /// Drop the message: an ack, a malformed payload, or an
    /// uninteresting type.
    Ignore,
    /// Publish a freshly decoded snapshot.
    Publish(Vec<Workspace>),
    /// Send `query workspaces` back over the connection.
    Requery,
}

/// Routes one envelope: publishes exactly the well-formed, ack-free
/// response payloads, requeries exactly on event types, and ignores
/// everything else.
pub fn envelope_outcome(v: &JsonValue) -> (r: Outcome)
    ensures
        r is Publish <==> spec_publishes(*v),
        r is Requery <==> spec_requeries(*v),
        (match r {
            Outcome::Publish(ws) => matches_snapshot(ws@, env_data(*v)),
            _ => true,
        }),
{
    match v {
        JsonValue::Obj(fs) => {
            let mt: &String = match obj_get(fs, "messageType") {
                Some(JsonValue::Str(s)) => s,
                _ => {
                    return Outcome::Ignore;
                },
            };
            let data: &JsonValue = match obj_get(fs, "data") {
                Some(d) => d,
                None => {
                    return Outcome::Ignore;
                },
            };
            match kind_of(mt) {
                MsgKind::Response => {
                    if is_ack(data) {
                        Outcome::Ignore
                    } else {
                        match decode_snapshot(data) {
                            Some(ws) => Outcome::Publish(ws),
                            None => Outcome::Ignore,
                        }
                    }
                },
                MsgKind::EventKind => Outcome::Requery,
                MsgKind::Other => Outcome::Ignore,
            }
        },
        _ => Outcome::Ignore,
    }
}

/// A response whose payload carries the subscription-ack marker is
/// never published: the ack test comes before any snapshot decode.
pub proof fn lemma_ack_never_published(v: JsonValue)
    requires
        spec_is_ack(env_data(v)),
    ensures
        !spec_publishes(v),
{
}

/// A workspace entry that mentions neither spelling of a flag decodes
/// that flag to `false`, and such an entry is still well-formed.
pub proof fn lemma_missing_flag_defaults_false(
    fs: Seq<(String, JsonValue)>,
    primary: Seq<char>,
    alias: Seq<char>,
)
    requires
        lookup(fs, primary) is None,
        lookup(fs, alias) is None,
    ensures
        flag_ok(fs, primary, alias),
        flag_val(fs, primary, alias) == false,
{
}

} // verus!
