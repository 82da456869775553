//! The requests to the HTTP API: what each asks for, and the decisions
//! taken on the answers.

use vstd::prelude::*;
use crate::json::{json_get, json_num, json_set, lemma_object_view, number_value, object_entries, set_entry, JsonNumber, JsonValue, JsonView, NumberView};
use crate::models::interaction::{interaction_callback_type_code, InteractionCallbackType};
use crate::text::{decimal, u64_to_string};
use crate::models::ids::{ChannelId, GuildId, Snowflake, UserId};
use crate::models::guild::GuildMember;
use crate::models::message::{builder_entries, MessageBuilder};

verus! {

/// The method of a request.
#[derive(Debug, Clone, Copy, PartialEq, Eq, Structural)]
pub enum HttpMethod {
    Get,
    Post,
    Put,
    Patch,
    Delete,
}

/// A request to the API: its method, its address, and its body.
#[derive(Debug)]
pub struct Route {
    pub method: HttpMethod,
    pub url: String,
    pub body: Option<JsonValue>,
}

pub open spec fn opt_body_view(b: Option<JsonValue>) -> Option<JsonView> {
    match b {
        Some(v) => Some(v@),
        None => None,
    }
}

/// The application of the client.
pub fn application_route(api: &str) -> (r: Route)
    ensures
        r.method == HttpMethod::Get,
        r.url@ == api@ + "/oauth2/applications/@me"@,
        r.body is None,
{
    let mut url = String::from_str(api);
    url.append("/oauth2/applications/@me");
    Route { method: HttpMethod::Get, url, body: None }
}

/// The user of the client.
pub fn client_user_route(api: &str) -> (r: Route)
    ensures
        r.method == HttpMethod::Get,
        r.url@ == api@ + "/users/@me"@,
        r.body is None,
{
    let mut url = String::from_str(api);
    url.append("/users/@me");
    Route { method: HttpMethod::Get, url, body: None }
}

/// A guild.
pub fn guild_route(api: &str, id: GuildId) -> (r: Route)
    ensures
        r.method == HttpMethod::Get,
        r.url@ == api@ + "/guilds/"@ + id@,
        r.body is None,
{
    let mut url = String::from_str(api);
    url.append("/guilds/");
    url.append(id.0.0.as_str());
    Route { method: HttpMethod::Get, url, body: None }
}

/// A user.
pub fn user_route(api: &str, id: &str) -> (r: Route)
    ensures
        r.method == HttpMethod::Get,
        r.url@ == api@ + "/users/"@ + id@,
        r.body is None,
{
    let mut url = String::from_str(api);
    url.append("/users/");
    url.append(id);
    Route { method: HttpMethod::Get, url, body: None }
}

/// A channel.
pub fn channel_route(api: &str, channel: ChannelId) -> (r: Route)
    ensures
        r.method == HttpMethod::Get,
        r.url@ == api@ + "/channels/"@ + channel@,
        r.body is None,
{
    let mut url = String::from_str(api);
    url.append("/channels/");
    url.append(channel.0.0.as_str());
    Route { method: HttpMethod::Get, url, body: None }
}

/// The channels of a guild.
pub fn guild_channels_route(api: &str, guild: GuildId) -> (r: Route)
    ensures
        r.method == HttpMethod::Get,
        r.url@ == api@ + "/guilds/"@ + guild@ + "/channels"@,
        r.body is None,
{
    let mut url = String::from_str(api);
    url.append("/guilds/");
    url.append(guild.0.0.as_str());
    url.append("/channels");
    Route { method: HttpMethod::Get, url, body: None }
}

/// A member of a guild.
pub fn guild_member_route(api: &str, guild: GuildId, member: UserId) -> (r: Route)
    ensures
        r.method == HttpMethod::Get,
        r.url@ == api@ + "/guilds/"@ + guild@ + "/members/"@ + member@,
        r.body is None,
{
    let mut url = String::from_str(api);
    url.append("/guilds/");
    url.append(guild.0.0.as_str());
    url.append("/members/");
    url.append(member.0.0.as_str());
    Route { method: HttpMethod::Get, url, body: None }
}

/// The roles of a guild.
pub fn guild_roles_route(api: &str, guild: GuildId) -> (r: Route)
    ensures
        r.method == HttpMethod::Get,
        r.url@ == api@ + "/guilds/"@ + guild@ + "/roles"@,
        r.body is None,
{
    let mut url = String::from_str(api);
    url.append("/guilds/");
    url.append(guild.0.0.as_str());
    url.append("/roles");
    Route { method: HttpMethod::Get, url, body: None }
}

/// Gives a role to a member.
pub fn add_role_route(api: &str, guild: GuildId, member: UserId, role: Snowflake) -> (r: Route)
    ensures
        r.method == HttpMethod::Put,
        r.url@ == api@ + "/guilds/"@ + guild@ + "/members/"@ + member@ + "/roles/"@ + role@,
        r.body is None,
{
    let mut url = String::from_str(api);
    url.append("/guilds/");
    url.append(guild.0.0.as_str());
    url.append("/members/");
    url.append(member.0.0.as_str());
    url.append("/roles/");
    url.append(role.0.as_str());
    Route { method: HttpMethod::Put, url, body: None }
}

/// Takes a role from a member.
pub fn remove_role_route(api: &str, guild: GuildId, member: UserId, role: Snowflake) -> (r: Route)
    ensures
        r.method == HttpMethod::Delete,
        r.url@ == api@ + "/guilds/"@ + guild@ + "/members/"@ + member@ + "/roles/"@ + role@,
        r.body is None,
{
    let mut url = String::from_str(api);
    url.append("/guilds/");
    url.append(guild.0.0.as_str());
    url.append("/members/");
    url.append(member.0.0.as_str());
    url.append("/roles/");
    url.append(role.0.as_str());
    Route { method: HttpMethod::Delete, url, body: None }
}

/// Why a role cannot be given to, or taken from, a member.
#[derive(Debug, Clone, Copy, PartialEq, Eq, Structural)]
pub enum MemberRoleError {
    /// The member does not say of which guild it is.
    NoGuild,
    /// The member does not carry its user.
    NoUser,
}

/// The address of the role of a member of a guild.
pub open spec fn member_role_url(api: Seq<char>, guild: Seq<char>, member: Seq<char>, role: Seq<char>) -> Seq<char> {
    api + "/guilds/"@ + guild + "/members/"@ + member + "/roles/"@ + role
}

impl GuildMember {
    /// The request that gives the member a role: a `PUT` on the address of
    /// the role of the member; an error when the member lacks its guild or
    /// its user.
    pub fn add_role(&self, api: &str, role: Snowflake) -> (r: Result<Route, MemberRoleError>)
        ensures
            match self.guild_id {
                None => r matches Err(e) && e == MemberRoleError::NoGuild,
                Some(g) => match self.user {
                    None => r matches Err(e) && e == MemberRoleError::NoUser,
                    Some(u) => r matches Ok(route) && route.method == HttpMethod::Put
                        && route.url@ == member_role_url(api@, g@, u.id@, role@) && route.body is None,
                },
            },
    {
        let g = match &self.guild_id {
            None => {
                return Err(MemberRoleError::NoGuild);
            },
            Some(g) => g,
        };
        match &self.user {
            None => Err(MemberRoleError::NoUser),
            Some(u) => Ok(add_role_route(api, g.clone(), u.id.clone(), role)),
        }
    }

    /// The request that takes a role from the member: a `DELETE` on the
    /// address of the role of the member; an error when the member lacks
    /// its guild or its user.
    pub fn remove_role(&self, api: &str, role: Snowflake) -> (r: Result<Route, MemberRoleError>)
        ensures
            match self.guild_id {
                None => r matches Err(e) && e == MemberRoleError::NoGuild,
                Some(g) => match self.user {
                    None => r matches Err(e) && e == MemberRoleError::NoUser,
                    Some(u) => r matches Ok(route) && route.method == HttpMethod::Delete
                        && route.url@ == member_role_url(api@, g@, u.id@, role@) && route.body is None,
                },
            },
    {
        let g = match &self.guild_id {
            None => {
                return Err(MemberRoleError::NoGuild);
            },
            Some(g) => g,
        };
        match &self.user {
            None => Err(MemberRoleError::NoUser),
            Some(u) => Ok(remove_role_route(api, g.clone(), u.id.clone(), role)),
        }
    }
}

/// A message of a channel.
pub fn message_route(api: &str, channel: ChannelId, message: Snowflake) -> (r: Route)
    ensures
        r.method == HttpMethod::Get,
        r.url@ == api@ + "/channels/"@ + channel@ + "/messages/"@ + message@,
        r.body is None,
{
    let mut url = String::from_str(api);
    url.append("/channels/");
    url.append(channel.0.0.as_str());
    url.append("/messages/");
    url.append(message.0.as_str());
    Route { method: HttpMethod::Get, url, body: None }
}

/// The first answer to an interaction.
pub fn interaction_response_route(api: &str, id: Snowflake, token: &str) -> (r: Route)
    ensures
        r.method == HttpMethod::Get,
        r.url@ == api@ + "/webhooks/"@ + id@ + "/"@ + token@ + "/messages/@original"@,
        r.body is None,
{
    let mut url = String::from_str(api);
    url.append("/webhooks/");
    url.append(id.0.as_str());
    url.append("/");
    url.append(token);
    url.append("/messages/@original");
    Route { method: HttpMethod::Get, url, body: None }
}

/// The commands of the application in a guild.
pub fn guild_commands_route(api: &str, application_id: Snowflake, guild_id: GuildId) -> (r: Route)
    ensures
        r.method == HttpMethod::Get,
        r.url@ == api@ + "/applications/"@ + application_id@ + "/guilds/"@ + guild_id@ + "/commands"@,
        r.body is None,
{
    let mut url = String::from_str(api);
    url.append("/applications/");
    url.append(application_id.0.as_str());
    url.append("/guilds/");
    url.append(guild_id.0.0.as_str());
    url.append("/commands");
    Route { method: HttpMethod::Get, url, body: None }
}

/// Deletes a command of the application in a guild.
pub fn delete_guild_command_route(api: &str, application_id: Snowflake, guild_id: GuildId, command_id: Snowflake) -> (r: Route)
    ensures
        r.method == HttpMethod::Delete,
        r.url@ == api@ + "/applications/"@ + application_id@ + "/guilds/"@ + guild_id@ + "/commands/"@ + command_id@,
        r.body is None,
{
    let mut url = String::from_str(api);
    url.append("/applications/");
    url.append(application_id.0.as_str());
    url.append("/guilds/");
    url.append(guild_id.0.0.as_str());
    url.append("/commands/");
    url.append(command_id.0.as_str());
    Route { method: HttpMethod::Delete, url, body: None }
}

/// The global commands of the application.
pub fn global_commands_route(api: &str, application_id: Snowflake) -> (r: Route)
    ensures
        r.method == HttpMethod::Get,
        r.url@ == api@ + "/applications/"@ + application_id@ + "/commands"@,
        r.body is None,
{
    let mut url = String::from_str(api);
    url.append("/applications/");
    url.append(application_id.0.as_str());
    url.append("/commands");
    Route { method: HttpMethod::Get, url, body: None }
}

/// Deletes a global command of the application.
pub fn delete_global_command_route(api: &str, application_id: Snowflake, command_id: Snowflake) -> (r: Route)
    ensures
        r.method == HttpMethod::Delete,
        r.url@ == api@ + "/applications/"@ + application_id@ + "/commands/"@ + command_id@,
        r.body is None,
{
    let mut url = String::from_str(api);
    url.append("/applications/");
    url.append(application_id.0.as_str());
    url.append("/commands/");
    url.append(command_id.0.as_str());
    Route { method: HttpMethod::Delete, url, body: None }
}

/// Sends a message to a channel.
pub fn send_message_route(api: &str, channel: ChannelId, payload: &MessageBuilder) -> (r: Route)
    ensures
        r.method == HttpMethod::Post,
        r.url@ == api@ + "/channels/"@ + channel@ + "/messages"@,
        opt_body_view(r.body) == Some(JsonView::Object(builder_entries(payload@))),
{
    let mut url = String::from_str(api);
    url.append("/channels/");
    url.append(channel.0.0.as_str());
    url.append("/messages");
    Route { method: HttpMethod::Post, url, body: Some(payload.to_json()) }
}

/// Sends a message to a user: the user's id stands in the address of the
/// channel.
pub fn send_user_route(api: &str, user: UserId, payload: &MessageBuilder) -> (r: Route)
    ensures
        r.method == HttpMethod::Post,
        r.url@ == api@ + "/channels/"@ + user@ + "/messages"@,
        opt_body_view(r.body) == Some(JsonView::Object(builder_entries(payload@))),
{
    let mut url = String::from_str(api);
    url.append("/channels/");
    url.append(user.0.0.as_str());
    url.append("/messages");
    Route { method: HttpMethod::Post, url, body: Some(payload.to_json()) }
}

/// Edits the first answer to an interaction.
pub fn edit_interaction_route(api: &str, id: Snowflake, token: &str, payload: JsonValue) -> (r: Route)
    ensures
        r.method == HttpMethod::Patch,
        r.url@ == api@ + "/webhooks/"@ + id@ + "/"@ + token@ + "/messages/@original"@,
        opt_body_view(r.body) == Some(payload@),
{
    let ghost pv = payload@;
    let mut url = String::from_str(api);
    url.append("/webhooks/");
    url.append(id.0.as_str());
    url.append("/");
    url.append(token);
    url.append("/messages/@original");
    Route { method: HttpMethod::Patch, url, body: Some(payload) }
}/// Opens a private channel with a user.
pub fn create_dm_route(api: &str, recipient: &UserId) -> (r: Route)
    ensures
        r.method == HttpMethod::Post,
        r.url@ == api@ + "/users/@me/channels"@,
        opt_body_view(r.body) == Some(JsonView::Object(seq![("recipient_id"@, JsonView::Str(recipient@))])),
{
    let mut url = String::from_str(api);
    url.append("/users/@me/channels");
    let id = JsonValue::String(recipient.0.0.clone());
    assert(id@ == JsonView::Str(recipient@));
    let mut es: Vec<(String, JsonValue)> = Vec::new();
    es.push((String::from_str("recipient_id"), id));
    let body = JsonValue::Object(es);
    proof {
        let expected: Seq<(Seq<char>, JsonView)> = seq![("recipient_id"@, JsonView::Str(recipient@))];
        let got = object_entries(body@);
        assert(got.len() == 1);
        assert(got[0] == expected[0]);
        assert(got =~= expected);
    }
    Route { method: HttpMethod::Post, url, body: Some(body) }
}

/// Answers an interaction: the type of the answer and its data.
pub fn interaction_callback_route(api: &str, id: &Snowflake, token: &str, callback_type: InteractionCallbackType, payload: JsonValue) -> (r: Route)
    ensures
        r.method == HttpMethod::Post,
        r.url@ == api@ + "/interactions/"@ + id@ + "/"@ + token@ + "/callback"@,
        opt_body_view(r.body) == Some(JsonView::Object(seq![
            ("data"@, payload@),
            ("type"@, json_num(interaction_callback_type_code(callback_type))),
        ])),
{
    let ghost pv = payload@;
    let mut url = String::from_str(api);
    url.append("/interactions/");
    url.append(id.0.as_str());
    url.append("/");
    url.append(token);
    url.append("/callback");
    let t = callback_type.to_json();
    let mut es: Vec<(String, JsonValue)> = Vec::new();
    es.push((String::from_str("data"), payload));
    es.push((String::from_str("type"), t));
    let body = JsonValue::Object(es);
    proof {
        let expected: Seq<(Seq<char>, JsonView)> = seq![("data"@, pv), ("type"@, json_num(interaction_callback_type_code(callback_type)))];
        let got = object_entries(body@);
        assert(got.len() == 2);
        assert(got[0] == expected[0]);
        assert(got[1] == expected[1]);
        assert(got =~= expected);
    }
    Route { method: HttpMethod::Post, url, body: Some(body) }
}

// ----------------------------------------------------------------------
// Answers

/// The errors the API names.
#[derive(Debug, Clone, Copy, PartialEq, Eq, Structural)]
pub enum DiscordError {
    Unknown,
}

/// An error the API answered with.
#[derive(Debug)]
pub struct DiscordApiError {
    pub code: u64,
    pub message: String,
    pub errors: Option<JsonValue>,
}

impl DiscordApiError {
    /// The text of the error: its message and its code.
    pub fn describe(&self) -> (r: String)
        ensures
            r@ == "Discord API Error: "@ + self.message@ + " ("@ + decimal(self.code as nat) + ")"@,
    {
        let mut s = String::from_str("Discord API Error: ");
        s.append(self.message.as_str());
        s.append(" (");
        let n = u64_to_string(self.code);
        s.append(n.as_str());
        s.append(")");
        s
    }
}

/// Whether an answer of the API is an error: it has a code and a message.
pub open spec fn api_error_spec(v: JsonView) -> bool {
    json_get(v, "code"@) is Some && json_get(v, "message"@) is Some
}

/// Whether an answer of the API is an error.
pub fn is_api_error(raw: &JsonValue) -> (r: bool)
    ensures
        r == api_error_spec(raw@),
{
    raw.get("code").is_some() && raw.get("message").is_some()
}

/// Whether an answer can be told its shard: it is an object or `null`.
pub open spec fn shard_markable(v: JsonView) -> bool {
    v is Object || v is Null
}

/// The answer after `value["shard"] = shard`: `null` becomes an object.
pub open spec fn with_answer_shard(v: JsonView, shard: u64) -> JsonView {
    if v is Object {
        json_set(v, "shard"@, json_num(shard))
    } else {
        JsonView::Object(seq![("shard"@, json_num(shard))])
    }
}

/// Prepares an answer of the API to be read: the shard it came from is set
/// on it when there is one, and whether it is an error is told.
pub fn prepare_answer(value: &mut JsonValue, shard: Option<u64>) -> (r: bool)
    requires
        shard is Some ==> shard_markable(old(value)@),
    ensures
        final(value)@ == match shard {
            Some(s) => with_answer_shard(old(value)@, s),
            None => old(value)@,
        },
        r == api_error_spec(final(value)@),
{
    if let Some(s) = shard {
        let mut v = JsonValue::Null;
        std::mem::swap(&mut v, value);
        match v {
            JsonValue::Object(mut es) => {
                proof {
                    lemma_object_view(es);
                }
                set_entry(&mut es, "shard", number_value(s));
                proof {
                    lemma_object_view(es);
                }
                *value = JsonValue::Object(es);
            },
            _ => {
                let mut es: Vec<(String, JsonValue)> = Vec::new();
                es.push((String::from_str("shard"), number_value(s)));
                let o = JsonValue::Object(es);
                proof {
                    assert(object_entries(o@) =~= seq![("shard"@, json_num(s))]);
                }
                *value = o;
            },
        }
    }
    is_api_error(value)
}

/// What an answer to an interaction means: `null` is a success; anything
/// else is an error to read.
pub fn interaction_answer_ok(value: &JsonValue) -> (r: bool)
    ensures
        r == (value@ == JsonView::Null),
{
    value.is_null()
}

// ----------------------------------------------------------------------
// Sending

/// The configuration of the HTTP manager.
#[derive(Debug, Clone, Copy, PartialEq, Eq, Structural)]
pub struct HttpConfiguration {
    /// How many times a request is tried.
    pub retry_limit: u64,
    /// How long a connection may take, in milliseconds.
    pub connect_timeout: u64,
}

impl Default for HttpConfiguration {
    fn default() -> (r: HttpConfiguration)
        ensures
            r.retry_limit == 5,
            r.connect_timeout == 5000,
    {
        HttpConfiguration { retry_limit: 5, connect_timeout: 5000 }
    }
}

/// What the manager does with the status of an answer.
#[derive(Debug, Clone, Copy, PartialEq, Eq, Structural)]
pub enum StatusAction {
    /// 204: the answer is `null`.
    NoContent,
    /// Another success: the body is read; a body that cannot be read is
    /// tried again.
    ReadBody,
    /// A server error: the request is tried again.
    Retry,
    /// 429: the body tells how long to wait before the request is tried
    /// again.
    RateLimited,
    /// Any other status: the body, an error of the API, is the answer; a
    /// body that cannot be read is tried again.
    ReadError,
}

/// The action for a status.
pub open spec fn status_action_of(status: u16) -> StatusAction {
    if 200 <= status <= 299 {
        if status == 204 { StatusAction::NoContent } else { StatusAction::ReadBody }
    } else if 500 <= status <= 599 {
        StatusAction::Retry
    } else if status == 429 {
        StatusAction::RateLimited
    } else {
        StatusAction::ReadError
    }
}

/// How each class of status is handled: every server error (5xx) is tried
/// again; 204 is `null`; every other success (2xx) reads its body; 429
/// waits; every other status is an error of the API, read from the body.
pub proof fn law_status_classes(status: u16)
    ensures
        500 <= status <= 599 ==> status_action_of(status) == StatusAction::Retry,
        status == 204 ==> status_action_of(status) == StatusAction::NoContent,
        200 <= status <= 299 && status != 204 ==> status_action_of(status) == StatusAction::ReadBody,
        status == 429 ==> status_action_of(status) == StatusAction::RateLimited,
        !(200 <= status <= 299) && !(500 <= status <= 599) && status != 429
            ==> status_action_of(status) == StatusAction::ReadError,
{
}

/// A server error is tried again, whatever its body: the try counts as
/// failed and the request goes on.
pub proof fn law_server_errors_are_retried(status: u16, body: Option<JsonView>)
    requires
        500 <= status <= 599,
    ensures
        next_after(TryOutcomeView::Answered { status, body }) == SendNextView::Retry,
        counts_failed(next_after(TryOutcomeView::Answered { status, body })),
{
    law_status_classes(status);
}

/// What each answer leads to: 204 gives `null`; another success gives its
/// body; another status that is no server error and not 429 gives its body
/// (an error of the API); an unreadable body of either is tried again; a
/// 429 whose body gives a number waits that long; an unsent request is
/// tried again.
pub proof fn law_answers_by_status(status: u16, body: Option<JsonView>, b: JsonView, n: NumberView)
    ensures
        next_after(TryOutcomeView::SendFailed) == SendNextView::Retry,
        status == 204 ==> next_after(TryOutcomeView::Answered { status, body }) == SendNextView::Answer(JsonView::Null),
        !(500 <= status <= 599) && status != 429 && status != 204 && body == Some(b)
            ==> next_after(TryOutcomeView::Answered { status, body }) == SendNextView::Answer(b),
        !(500 <= status <= 599) && status != 429 && status != 204 && body is None
            ==> next_after(TryOutcomeView::Answered { status, body }) == SendNextView::Retry,
        status == 429 && body == Some(b) && json_get(b, "retry_after"@) == Some(JsonView::Number(n))
            ==> next_after(TryOutcomeView::Answered { status, body }) == SendNextView::Wait(n),
        status == 429 && body is None
            ==> next_after(TryOutcomeView::Answered { status, body }) == SendNextView::Fail(SendError::RateLimitUnreadable),
{
    law_status_classes(status);
}

/// The action for the status of an answer.
pub fn status_action(status: u16) -> (r: StatusAction)
    ensures
        r == status_action_of(status),
{
    if 200 <= status && status <= 299 {
        if status == 204 {
            StatusAction::NoContent
        } else {
            StatusAction::ReadBody
        }
    } else if 500 <= status && status <= 599 {
        StatusAction::Retry
    } else if status == 429 {
        StatusAction::RateLimited
    } else {
        StatusAction::ReadError
    }
}

/// Why a rate limited answer cannot be waited out.
#[derive(Debug, Clone, Copy, PartialEq, Eq, Structural)]
pub enum RateLimitError {
    /// The body has no `retry_after`.
    NoRetryAfter,
    /// `retry_after` is not a number.
    NotANumber,
}

/// The `retry_after` field of a rate limited answer, if it is a number.
pub fn retry_after(body: &JsonValue) -> (r: Result<&JsonNumber, RateLimitError>)
    ensures
        match json_get(body@, "retry_after"@) {
            None => r == Err::<&JsonNumber, _>(RateLimitError::NoRetryAfter),
            Some(JsonView::Number(n)) => r matches Ok(x) && x@ == n,
            Some(_) => r == Err::<&JsonNumber, _>(RateLimitError::NotANumber),
        },
{
    match body.get("retry_after") {
        None => Err(RateLimitError::NoRetryAfter),
        Some(JsonValue::Number(n)) => Ok(n),
        Some(_) => Err(RateLimitError::NotANumber),
    }
}

/// The count of the tries of a request.
#[derive(Debug, Clone, Copy, PartialEq, Eq, Structural)]
pub struct RetryCounter {
    pub retries: u64,
    pub limit: u64,
}

impl RetryCounter {
    /// No try made yet, within the limit of the configuration.
    pub fn new(configuration: &HttpConfiguration) -> (r: RetryCounter)
        ensures
            r.retries == 0,
            r.limit == configuration.retry_limit,
    {
        RetryCounter { retries: 0, limit: configuration.retry_limit }
    }

    /// Whether the request may be tried (again).
    pub fn may_try(&self) -> (r: bool)
        ensures
            r == (self.retries < self.limit),
    {
        self.retries < self.limit
    }

    /// Counts a failed try.
    pub fn failed(&mut self)
        requires
            old(self).retries < old(self).limit,
        ensures
            final(self).retries == old(self).retries + 1,
            final(self).limit == old(self).limit,
    {
        self.retries = self.retries + 1;
    }
}

// The tries of a request

/// What came back from one try of a request.
#[derive(Debug)]
pub enum TryOutcome {
    /// The request could not be sent.
    SendFailed,
    /// An answer with its status, and its body read as JSON; `None` when
    /// the body cannot be read as JSON.
    Answered { status: u16, body: Option<JsonValue> },
}

/// What came back from one try, its body taken by its view.
pub ghost enum TryOutcomeView {
    SendFailed,
    Answered { status: u16, body: Option<JsonView> },
}

impl View for TryOutcome {
    type V = TryOutcomeView;

    open spec fn view(&self) -> TryOutcomeView {
        match self {
            TryOutcome::SendFailed => TryOutcomeView::SendFailed,
            TryOutcome::Answered { status, body } => TryOutcomeView::Answered { status: *status, body: opt_body_view(*body) },
        }
    }
}

/// Why a request ends without an answer to hand back.
#[derive(Debug, Clone, Copy, PartialEq, Eq, Structural)]
pub enum SendError {
    /// Every try allowed was made without an answer.
    TooManyRetry,
    /// A 429 answer whose body cannot be read.
    RateLimitUnreadable,
    /// A 429 answer that does not tell how long to wait.
    RateLimit(RateLimitError),
}

/// What the manager does after a try.
#[derive(Debug)]
pub enum SendNext {
    /// The try failed: try again if the limit allows.
    Retry,
    /// Rate limited: wait this many seconds, then try again if the limit
    /// allows.
    Wait(JsonNumber),
    /// The request is over, with this answer.
    Answer(JsonValue),
    /// The request is over, without an answer.
    Fail(SendError),
}

/// What the manager does after a try, its values taken by their views.
pub ghost enum SendNextView {
    Retry,
    Wait(NumberView),
    Answer(JsonView),
    Fail(SendError),
}

impl View for SendNext {
    type V = SendNextView;

    open spec fn view(&self) -> SendNextView {
        match self {
            SendNext::Retry => SendNextView::Retry,
            SendNext::Wait(n) => SendNextView::Wait(n@),
            SendNext::Answer(v) => SendNextView::Answer(v@),
            SendNext::Fail(e) => SendNextView::Fail(*e),
        }
    }
}

/// What follows a try: 204 gives `null`; another success gives its body;
/// a server error, a transport failure or a success or API error whose body
/// cannot be read is tried again; 429 waits its `retry_after`, and ends the
/// request when its body cannot be read or tells no delay; any other status
/// gives its body, an error of the API.
pub open spec fn next_after(outcome: TryOutcomeView) -> SendNextView {
    match outcome {
        TryOutcomeView::SendFailed => SendNextView::Retry,
        TryOutcomeView::Answered { status, body } => match status_action_of(status) {
            StatusAction::NoContent => SendNextView::Answer(JsonView::Null),
            StatusAction::ReadBody | StatusAction::ReadError => match body {
                Some(b) => SendNextView::Answer(b),
                None => SendNextView::Retry,
            },
            StatusAction::Retry => SendNextView::Retry,
            StatusAction::RateLimited => match body {
                None => SendNextView::Fail(SendError::RateLimitUnreadable),
                Some(b) => match json_get(b, "retry_after"@) {
                    None => SendNextView::Fail(SendError::RateLimit(RateLimitError::NoRetryAfter)),
                    Some(JsonView::Number(n)) => SendNextView::Wait(n),
                    Some(_) => SendNextView::Fail(SendError::RateLimit(RateLimitError::NotANumber)),
                },
            },
        },
    }
}

fn copy_number(n: &JsonNumber) -> (r: JsonNumber)
    ensures
        r@ == n@,
{
    match n {
        JsonNumber::PosInt(x) => JsonNumber::PosInt(*x),
        JsonNumber::NegInt(x) => JsonNumber::NegInt(*x),
        JsonNumber::Float(t) => JsonNumber::Float(t.clone()),
    }
}

/// Whether what follows a try counts the try as failed.
pub open spec fn counts_failed(n: SendNextView) -> bool {
    n is Retry || n is Wait
}

/// One step of a request: from the count of its tries and what the last try
/// brought, the new count and what follows. A try that leads to another is
/// counted; a request ends when it has an answer or fails.
pub fn send_step(c: RetryCounter, outcome: TryOutcome) -> (r: (RetryCounter, SendNext))
    requires
        c.retries < c.limit,
    ensures
        r.1@ == next_after(outcome@),
        r.0.limit == c.limit,
        r.0.retries == if counts_failed(r.1@) { c.retries + 1 } else { c.retries as int },
{
    let next = match outcome {
        TryOutcome::SendFailed => SendNext::Retry,
        TryOutcome::Answered { status, body } => match status_action(status) {
            StatusAction::NoContent => SendNext::Answer(JsonValue::Null),
            StatusAction::ReadBody | StatusAction::ReadError => match body {
                Some(b) => SendNext::Answer(b),
                None => SendNext::Retry,
            },
            StatusAction::Retry => SendNext::Retry,
            StatusAction::RateLimited => match body {
                None => SendNext::Fail(SendError::RateLimitUnreadable),
                Some(b) => match retry_after(&b) {
                    Ok(n) => SendNext::Wait(copy_number(n)),
                    Err(e) => SendNext::Fail(SendError::RateLimit(e)),
                },
            },
        },
    };
    let mut counter = c;
    match next {
        SendNext::Retry | SendNext::Wait(_) => counter.failed(),
        _ => {},
    }
    (counter, next)
}

/// Whether another try is made: only while the count is below the limit;
/// past it the request ends with `SendError::TooManyRetry`.
pub fn may_send(c: RetryCounter) -> (r: bool)
    ensures
        r == (c.retries < c.limit),
{
    c.may_try()
}

/// How many tries a request makes when its tries bring `outcomes`, in
/// order, starting from the count `c`.
pub open spec fn tries_made(c: RetryCounter, outcomes: Seq<TryOutcomeView>) -> nat
    decreases outcomes.len(),
{
    if c.retries >= c.limit || outcomes.len() == 0 {
        0
    } else {
        let n = next_after(outcomes[0]);
        if counts_failed(n) {
            1 + tries_made(RetryCounter { retries: (c.retries + 1) as u64, limit: c.limit }, outcomes.drop_first())
        } else {
            1
        }
    }
}

/// A request is tried at most as many times as its limit allows, whatever
/// the answers.
pub proof fn law_tries_within_limit(c: RetryCounter, outcomes: Seq<TryOutcomeView>)
    requires
        c.retries <= c.limit,
    ensures
        tries_made(c, outcomes) <= c.limit - c.retries,
    decreases outcomes.len(),
{
    if c.retries < c.limit && outcomes.len() > 0 {
        law_tries_within_limit(RetryCounter { retries: (c.retries + 1) as u64, limit: c.limit }, outcomes.drop_first());
    }
}

/// The views of the outcomes of a request's tries.
pub open spec fn outcomes_view(s: Seq<TryOutcome>) -> Seq<TryOutcomeView> {
    Seq::new(s.len(), |i: int| s[i]@)
}

/// How a request ends when its tries bring `outcomes`, in order, starting
/// from the count `c`: with the first answer or failure that a try leads
/// to, or with `SendError::TooManyRetry` once the limit is reached.
pub open spec fn request_result(c: RetryCounter, outcomes: Seq<TryOutcomeView>) -> Result<JsonView, SendError>
    decreases outcomes.len(),
{
    if c.retries >= c.limit || outcomes.len() == 0 {
        Err(SendError::TooManyRetry)
    } else {
        match next_after(outcomes[0]) {
            SendNextView::Answer(v) => Ok(v),
            SendNextView::Fail(e) => Err(e),
            _ => request_result(RetryCounter { retries: (c.retries + 1) as u64, limit: c.limit }, outcomes.drop_first()),
        }
    }
}

/// The view of the end of a request.
pub open spec fn result_view(r: Result<JsonValue, SendError>) -> Result<JsonView, SendError> {
    match r {
        Ok(v) => Ok(v@),
        Err(e) => Err(e),
    }
}

/// Runs the tries of a request under a configuration, where `outcomes` are
/// what the successive tries bring (one for each try the limit allows):
/// each try is followed as `send_step` says, until an answer, a failure, or
/// the limit. Gives how the request ends and how many tries were made.
pub fn run_request(configuration: &HttpConfiguration, outcomes: Vec<TryOutcome>) -> (r: (Result<JsonValue, SendError>, u64))
    requires
        outcomes.len() >= configuration.retry_limit,
    ensures
        result_view(r.0) == request_result(
            RetryCounter { retries: 0, limit: configuration.retry_limit },
            outcomes_view(outcomes@),
        ),
        r.1 == tries_made(RetryCounter { retries: 0, limit: configuration.retry_limit }, outcomes_view(outcomes@)),
        r.1 <= configuration.retry_limit,
        configuration.retry_limit == 0 ==> r.0 == Err::<JsonValue, SendError>(SendError::TooManyRetry) && r.1 == 0,
{
    let ghost all = outcomes_view(outcomes@);
    let mut counter = RetryCounter::new(configuration);
    let ghost start = counter;
    proof {
        law_tries_within_limit(start, all);
    }
    let mut rest = outcomes;
    let mut tries: u64 = 0;
    while counter.may_try()
        invariant
            counter.limit == configuration.retry_limit,
            start == (RetryCounter { retries: 0, limit: configuration.retry_limit }),
            all == outcomes_view(outcomes@),
            counter.retries <= counter.limit,
            tries == counter.retries,
            rest.len() >= counter.limit - counter.retries,
            request_result(start, all) == request_result(counter, outcomes_view(rest@)),
            tries_made(start, all) == tries + tries_made(counter, outcomes_view(rest@)),
            tries_made(start, all) <= configuration.retry_limit,
        decreases counter.limit - counter.retries,
    {
        let ghost before = outcomes_view(rest@);
        let outcome = rest.remove(0);
        let ghost ov = outcome@;
        proof {
            assert(before[0] == ov);
            assert(outcomes_view(rest@) =~= before.drop_first());
        }
        let (c2, next) = send_step(counter, outcome);
        tries = tries + 1;
        match next {
            SendNext::Answer(v) => {
                return (Ok(v), tries);
            },
            SendNext::Fail(e) => {
                return (Err(e), tries);
            },
            _ => {},
        }
        counter = c2;
    }
    (Err(SendError::TooManyRetry), tries)
}

/// A request whose every try fails (unsent, a server error, an unreadable
/// body, or rate limited with a delay) is tried as many times as its limit
/// allows and ends with `SendError::TooManyRetry`.
pub proof fn law_failing_tries_end_in_too_many_retry(c: RetryCounter, outcomes: Seq<TryOutcomeView>)
    requires
        c.retries <= c.limit,
        outcomes.len() >= c.limit - c.retries,
        forall|i: int| 0 <= i < outcomes.len() ==> counts_failed(#[trigger] next_after(outcomes[i])),
    ensures
        request_result(c, outcomes) == Err::<JsonView, SendError>(SendError::TooManyRetry),
        tries_made(c, outcomes) == c.limit - c.retries,
    decreases outcomes.len(),
{
    if c.retries < c.limit && outcomes.len() > 0 {
        let rest = outcomes.drop_first();
        assert(counts_failed(next_after(outcomes[0])));
        assert forall|i: int| 0 <= i < rest.len() implies counts_failed(#[trigger] next_after(rest[i])) by {
            assert(rest[i] == outcomes[i + 1]);
            assert(counts_failed(next_after(outcomes[i + 1])));
        }
        law_failing_tries_end_in_too_many_retry(RetryCounter { retries: (c.retries + 1) as u64, limit: c.limit }, rest);
    }
}

} // verus!
