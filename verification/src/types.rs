//! Resource types for the Agent Socket REST API.

use crate::json::{json_members, json_view, member_views, object, object_views, string, Json};
use serde_json::Value;
use vstd::prelude::*;
use vstd::string::*;

verus! {

#[derive(Debug, Clone)]
pub struct Socket {
    pub id: String,
    pub account_id: String,
    pub status: String,
    pub agent_name: Option<String>,
    pub agent_description: Option<String>,
    pub vibe: Option<String>,
    pub connected_since: Option<String>,
    pub created_at: Option<String>,
}

#[derive(Debug, Clone)]
pub struct SocketStatus {
    pub id: String,
    pub status: String,
    pub agent_name: Option<String>,
    pub agent_description: Option<String>,
    pub vibe: Option<String>,
    pub connected_since: Option<String>,
}

#[derive(Debug, Clone)]
pub struct SocketProfile {
    pub id: String,
    pub agent_name: String,
    pub agent_description: String,
}

#[derive(Debug, Clone)]
pub struct VibeResponse {
    pub id: String,
    pub vibe: String,
}

#[derive(Debug, Clone)]
pub struct Namespace {
    pub name: String,
    pub account_id: String,
    pub created_at: Option<String>,
}

#[derive(Debug, Clone)]
pub struct Channel {
    pub id: String,
    pub name: String,
    pub account_id: String,
    pub member_count: u64,
    pub created_at: Option<String>,
}

#[derive(Debug, Clone)]
pub struct Member {
    pub channel_id: String,
    pub socket_id: String,
    pub added_at: Option<String>,
}

#[derive(Debug, Clone)]
pub struct HealthResponse {
    pub status: String,
}

/// What to create a socket with. Fields that are `None` are left out of the
/// request.
#[derive(Debug, Clone)]
pub struct CreateSocketRequest {
    pub name: Option<String>,
    pub agent_name: Option<String>,
    pub agent_description: Option<String>,
    pub vibe: Option<String>,
}

/// What to change in a socket's profile. Fields that are `None` are left out of
/// the request.
#[derive(Debug, Clone)]
pub struct UpdateProfileRequest {
    pub agent_name: Option<String>,
    pub agent_description: Option<String>,
}

/// The members `fields`, and a string member `key` where there is a `value`.
pub open spec fn with_text(
    fields: Map<Seq<char>, Json>,
    key: Seq<char>,
    value: Option<String>,
) -> Map<Seq<char>, Json> {
    match value {
        Some(v) => fields.insert(key, Json::Text(v@)),
        None => fields,
    }
}

/// Adds the string member `key` where there is a `value`.
fn put_text(members: &mut serde_json::Map<String, Value>, key: &str, value: &Option<String>)
    ensures
        member_views(json_members(*final(members))) == with_text(
            member_views(json_members(*old(members))),
            key@,
            *value,
        ),
{
    if let Some(v) = value {
        members.insert(key.to_owned(), string(v.clone()));
        proof {
            assert(member_views(json_members(*members)) =~= member_views(
                json_members(*old(members)),
            ).insert(key@, Json::Text(v@)));
        }
    }
}

/// The JSON object with `value` as its only member, under `key`.
pub fn single_text(key: &str, value: &str) -> (r: Value)
    ensures
        object_views(r) == Some(Map::empty().insert(key@, Json::Text(value@))),
{
    let mut members: serde_json::Map<String, Value> = serde_json::Map::<String, Value>::new();
    members.insert(key.to_owned(), string(value.to_owned()));
    proof {
        assert(member_views(json_members(members)) =~= Map::empty().insert(
            key@,
            Json::Text(value@),
        ));
    }
    object(members)
}

impl Default for CreateSocketRequest {
    fn default() -> (r: Self)
        ensures
            r == (CreateSocketRequest {
                name: None,
                agent_name: None,
                agent_description: None,
                vibe: None,
            }),
    {
        CreateSocketRequest { name: None, agent_name: None, agent_description: None, vibe: None }
    }
}

impl CreateSocketRequest {
    /// The members of the request body.
    pub open spec fn fields(self) -> Map<Seq<char>, Json> {
        let fields = with_text(Map::empty(), "name"@, self.name);
        let fields = with_text(fields, "agent_name"@, self.agent_name);
        let fields = with_text(fields, "agent_description"@, self.agent_description);
        with_text(fields, "vibe"@, self.vibe)
    }

    /// The request body.
    pub fn body(&self) -> (r: Value)
        ensures
            object_views(r) == Some(self.fields()),
    {
        let mut members: serde_json::Map<String, Value> = serde_json::Map::<String, Value>::new();
        proof {
            assert(member_views(json_members(members)) =~= Map::empty());
        }
        put_text(&mut members, "name", &self.name);
        put_text(&mut members, "agent_name", &self.agent_name);
        put_text(&mut members, "agent_description", &self.agent_description);
        put_text(&mut members, "vibe", &self.vibe);
        object(members)
    }
}

impl Default for UpdateProfileRequest {
    fn default() -> (r: Self)
        ensures
            r == (UpdateProfileRequest { agent_name: None, agent_description: None }),
    {
        UpdateProfileRequest { agent_name: None, agent_description: None }
    }
}

impl UpdateProfileRequest {
    /// The members of the request body.
    pub open spec fn fields(self) -> Map<Seq<char>, Json> {
        let fields = with_text(Map::empty(), "agent_name"@, self.agent_name);
        with_text(fields, "agent_description"@, self.agent_description)
    }

    /// The request body.
    pub fn body(&self) -> (r: Value)
        ensures
            object_views(r) == Some(self.fields()),
    {
        let mut members: serde_json::Map<String, Value> = serde_json::Map::<String, Value>::new();
        proof {
            assert(member_views(json_members(members)) =~= Map::empty());
        }
        put_text(&mut members, "agent_name", &self.agent_name);
        put_text(&mut members, "agent_description", &self.agent_description);
        object(members)
    }
}

} // verus!
