//! Messages and what they carry: mentions, attachments, references,
//! stickers, reactions; their flags; and the builder of a message to send.

pub mod message_flags;

use vstd::prelude::*;
use crate::cache::UpdateCache;
use crate::json::{bool_or_null, entries_view, lemma_object_view, opt_bool_json, json_num, number_value, object_entries, opt_string_json, str_or_null, string_json, get_str, get_u64, items_view, json_array, json_bool, json_get, json_index, json_str, json_u64, JsonValue, JsonView};
use crate::models::channel::{channel_kind_from_json, ChannelKind};
use crate::models::components::embed::{embed_value, clone_embeds, embed_from_json, embeds_eq, embeds_view, Embed, EmbedView};
use crate::models::components::message_components::{component_value, components_value, clone_components, component_from_json, components_same, components_view, Component, ComponentView};
use crate::models::ids::{clone_snowflakes, snowflakes_view, ChannelId, UserId};
use crate::models::components::{snowflakes_json, strings_json};
use crate::models::common::{opt_str_eq, opt_view};
use crate::models::components::sticker::{sticker_format_type_code_inverse, StickerFormatType};
use crate::models::components::{emoji_from_json, Emoji, EmojiView};
use crate::models::ids::{opt_snowflake_view, snowflake_from_json, Snowflake};
use crate::models::interaction::{interaction_type_from_json, InteractionType};
use crate::models::user::{user_from_json, User, UserView};
use crate::models::{kind_of, read_as, ModelError, ModelErrorKind};
use crate::json::lemma_get_smaller;
use crate::time::{millis_in_range, now_millis, parse_datetime_millis, parsed_datetime_millis, utc_millis_in_range};

verus! {

/// The type of a message.
#[derive(Debug, Clone, Copy, PartialEq, Eq, Structural)]
pub enum MessageType {
    Default,
    RecipientAdd,
    RecipientRemove,
    Call,
    ChannelNameChange,
    ChannelIconChange,
    ChannelPinnedMessage,
    UserJoin,
    GuildBoost,
    GuildBoostTier1,
    GuildBoostTier2,
    GuildBoostTier3,
    ChannelFollowAdd,
    GuildDiscoveryDisqualified,
    GuildDiscoveryReQualified,
    GuildDiscoveryGracePeriodInitialWarning,
    GuildDiscoveryGracePeriodFinalWarning,
    ThreadCreated,
    Reply,
    ChatInputCommand,
    ThreadStarterMessage,
    GuildInviteReminder,
    ContextMenuCommand,
    AutoModerationAction,
    RoleSubscriptionPurchase,
    InteractionPremiumUpSell,
    StageStart,
    StageEnd,
    StageSpeaker,
    StageTopic,
    GuildApplicationPremiumSubscription,
}

/// The number that stands for each message type.
pub open spec fn message_type_code(v: MessageType) -> u64 {
    match v {
        MessageType::Default => 0,
        MessageType::RecipientAdd => 1,
        MessageType::RecipientRemove => 2,
        MessageType::Call => 3,
        MessageType::ChannelNameChange => 4,
        MessageType::ChannelIconChange => 5,
        MessageType::ChannelPinnedMessage => 6,
        MessageType::UserJoin => 7,
        MessageType::GuildBoost => 8,
        MessageType::GuildBoostTier1 => 9,
        MessageType::GuildBoostTier2 => 10,
        MessageType::GuildBoostTier3 => 11,
        MessageType::ChannelFollowAdd => 12,
        MessageType::GuildDiscoveryDisqualified => 14,
        MessageType::GuildDiscoveryReQualified => 15,
        MessageType::GuildDiscoveryGracePeriodInitialWarning => 16,
        MessageType::GuildDiscoveryGracePeriodFinalWarning => 17,
        MessageType::ThreadCreated => 18,
        MessageType::Reply => 19,
        MessageType::ChatInputCommand => 20,
        MessageType::ThreadStarterMessage => 21,
        MessageType::GuildInviteReminder => 22,
        MessageType::ContextMenuCommand => 23,
        MessageType::AutoModerationAction => 24,
        MessageType::RoleSubscriptionPurchase => 25,
        MessageType::InteractionPremiumUpSell => 26,
        MessageType::StageStart => 27,
        MessageType::StageEnd => 28,
        MessageType::StageSpeaker => 29,
        MessageType::StageTopic => 31,
        MessageType::GuildApplicationPremiumSubscription => 32,
    }
}

/// The message type that a number stands for, if any.
pub open spec fn message_type_code_inverse(c: u64) -> Option<MessageType> {
    if c == 0 {
        Some(MessageType::Default)
    } else if c == 1 {
        Some(MessageType::RecipientAdd)
    } else if c == 2 {
        Some(MessageType::RecipientRemove)
    } else if c == 3 {
        Some(MessageType::Call)
    } else if c == 4 {
        Some(MessageType::ChannelNameChange)
    } else if c == 5 {
        Some(MessageType::ChannelIconChange)
    } else if c == 6 {
        Some(MessageType::ChannelPinnedMessage)
    } else if c == 7 {
        Some(MessageType::UserJoin)
    } else if c == 8 {
        Some(MessageType::GuildBoost)
    } else if c == 9 {
        Some(MessageType::GuildBoostTier1)
    } else if c == 10 {
        Some(MessageType::GuildBoostTier2)
    } else if c == 11 {
        Some(MessageType::GuildBoostTier3)
    } else if c == 12 {
        Some(MessageType::ChannelFollowAdd)
    } else if c == 14 {
        Some(MessageType::GuildDiscoveryDisqualified)
    } else if c == 15 {
        Some(MessageType::GuildDiscoveryReQualified)
    } else if c == 16 {
        Some(MessageType::GuildDiscoveryGracePeriodInitialWarning)
    } else if c == 17 {
        Some(MessageType::GuildDiscoveryGracePeriodFinalWarning)
    } else if c == 18 {
        Some(MessageType::ThreadCreated)
    } else if c == 19 {
        Some(MessageType::Reply)
    } else if c == 20 {
        Some(MessageType::ChatInputCommand)
    } else if c == 21 {
        Some(MessageType::ThreadStarterMessage)
    } else if c == 22 {
        Some(MessageType::GuildInviteReminder)
    } else if c == 23 {
        Some(MessageType::ContextMenuCommand)
    } else if c == 24 {
        Some(MessageType::AutoModerationAction)
    } else if c == 25 {
        Some(MessageType::RoleSubscriptionPurchase)
    } else if c == 26 {
        Some(MessageType::InteractionPremiumUpSell)
    } else if c == 27 {
        Some(MessageType::StageStart)
    } else if c == 28 {
        Some(MessageType::StageEnd)
    } else if c == 29 {
        Some(MessageType::StageSpeaker)
    } else if c == 31 {
        Some(MessageType::StageTopic)
    } else if c == 32 {
        Some(MessageType::GuildApplicationPremiumSubscription)
    } else {
        None
    }
}

impl MessageType {
    /// The number of this message type.
    pub fn to_code(&self) -> (r: u64)
        ensures
            r == message_type_code(*self),
    {
        match self {
            MessageType::Default => 0,
            MessageType::RecipientAdd => 1,
            MessageType::RecipientRemove => 2,
            MessageType::Call => 3,
            MessageType::ChannelNameChange => 4,
            MessageType::ChannelIconChange => 5,
            MessageType::ChannelPinnedMessage => 6,
            MessageType::UserJoin => 7,
            MessageType::GuildBoost => 8,
            MessageType::GuildBoostTier1 => 9,
            MessageType::GuildBoostTier2 => 10,
            MessageType::GuildBoostTier3 => 11,
            MessageType::ChannelFollowAdd => 12,
            MessageType::GuildDiscoveryDisqualified => 14,
            MessageType::GuildDiscoveryReQualified => 15,
            MessageType::GuildDiscoveryGracePeriodInitialWarning => 16,
            MessageType::GuildDiscoveryGracePeriodFinalWarning => 17,
            MessageType::ThreadCreated => 18,
            MessageType::Reply => 19,
            MessageType::ChatInputCommand => 20,
            MessageType::ThreadStarterMessage => 21,
            MessageType::GuildInviteReminder => 22,
            MessageType::ContextMenuCommand => 23,
            MessageType::AutoModerationAction => 24,
            MessageType::RoleSubscriptionPurchase => 25,
            MessageType::InteractionPremiumUpSell => 26,
            MessageType::StageStart => 27,
            MessageType::StageEnd => 28,
            MessageType::StageSpeaker => 29,
            MessageType::StageTopic => 31,
            MessageType::GuildApplicationPremiumSubscription => 32,
        }
    }

    /// The message type of a number; other numbers stand for none.
    pub fn from_code(c: u64) -> (r: Option<MessageType>)
        ensures
            r == message_type_code_inverse(c),
    {
        if c == 0 {
            Some(MessageType::Default)
        } else if c == 1 {
            Some(MessageType::RecipientAdd)
        } else if c == 2 {
            Some(MessageType::RecipientRemove)
        } else if c == 3 {
            Some(MessageType::Call)
        } else if c == 4 {
            Some(MessageType::ChannelNameChange)
        } else if c == 5 {
            Some(MessageType::ChannelIconChange)
        } else if c == 6 {
            Some(MessageType::ChannelPinnedMessage)
        } else if c == 7 {
            Some(MessageType::UserJoin)
        } else if c == 8 {
            Some(MessageType::GuildBoost)
        } else if c == 9 {
            Some(MessageType::GuildBoostTier1)
        } else if c == 10 {
            Some(MessageType::GuildBoostTier2)
        } else if c == 11 {
            Some(MessageType::GuildBoostTier3)
        } else if c == 12 {
            Some(MessageType::ChannelFollowAdd)
        } else if c == 14 {
            Some(MessageType::GuildDiscoveryDisqualified)
        } else if c == 15 {
            Some(MessageType::GuildDiscoveryReQualified)
        } else if c == 16 {
            Some(MessageType::GuildDiscoveryGracePeriodInitialWarning)
        } else if c == 17 {
            Some(MessageType::GuildDiscoveryGracePeriodFinalWarning)
        } else if c == 18 {
            Some(MessageType::ThreadCreated)
        } else if c == 19 {
            Some(MessageType::Reply)
        } else if c == 20 {
            Some(MessageType::ChatInputCommand)
        } else if c == 21 {
            Some(MessageType::ThreadStarterMessage)
        } else if c == 22 {
            Some(MessageType::GuildInviteReminder)
        } else if c == 23 {
            Some(MessageType::ContextMenuCommand)
        } else if c == 24 {
            Some(MessageType::AutoModerationAction)
        } else if c == 25 {
            Some(MessageType::RoleSubscriptionPurchase)
        } else if c == 26 {
            Some(MessageType::InteractionPremiumUpSell)
        } else if c == 27 {
            Some(MessageType::StageStart)
        } else if c == 28 {
            Some(MessageType::StageEnd)
        } else if c == 29 {
            Some(MessageType::StageSpeaker)
        } else if c == 31 {
            Some(MessageType::StageTopic)
        } else if c == 32 {
            Some(MessageType::GuildApplicationPremiumSubscription)
        } else {
            None
        }
    }
}

/// Reading the number of a message type gives the message type back.
pub proof fn law_message_type_code_round_trip(v: MessageType)
    ensures
        message_type_code_inverse(message_type_code(v) as u64) == Some(v),
{
}

/// A number reads as a MessageType only when it is that one's own number, so
/// two of them never share a number and no other number reads as one.
pub proof fn law_message_type_code_read_back(c: u64)
    ensures
        message_type_code_inverse(c) matches Some(w) ==> message_type_code(w) == c,
{
}

/// The type a payload stands for, read from its number.
pub open spec fn message_type_from_json(v: JsonView) -> Result<MessageType, ModelErrorKind> {
    match json_u64(v) {
        Some(c) => match message_type_code_inverse(c) {
            Some(t) => Ok(t),
            None => Err(ModelErrorKind::InvalidPayload),
        },
        None => Err(ModelErrorKind::InvalidPayload),
    }
}

impl MessageType {
    /// Reads the type of a message from its number in a payload.
    pub fn from_raw(raw: &JsonValue) -> (r: Result<MessageType, ModelError>)
        ensures
            match (r, message_type_from_json(raw@)) {
                (Ok(t), Ok(s)) => t == s,
                (Err(e), Err(k)) => kind_of(e) == k,
                _ => false,
            },
    {
        match raw.as_u64() {
            Some(c) => match MessageType::from_code(c) {
                Some(t) => Ok(t),
                None => Err(ModelError::InvalidPayload(String::from_str("Invalid message type"))),
            },
            None => Err(ModelError::InvalidPayload(String::from_str("Invalid message type"))),
        }
    }
}

/// A channel mentioned in a message.
#[derive(Debug, PartialEq, Eq)]
pub struct ChannelMention {
    pub id: Snowflake,
    pub guild_id: Snowflake,
    pub channel_type: ChannelKind,
    pub name: String,
}

/// The values of a channel mention, its texts taken as characters.
pub ghost struct ChannelMentionView {
    pub id: Seq<char>,
    pub guild_id: Seq<char>,
    pub channel_type: ChannelKind,
    pub name: Seq<char>,
}

impl View for ChannelMention {
    type V = ChannelMentionView;

    open spec fn view(&self) -> ChannelMentionView {
        ChannelMentionView {
            id: self.id@,
            guild_id: self.guild_id@,
            channel_type: self.channel_type,
            name: self.name@,
        }
    }
}

impl Clone for ChannelMention {
    fn clone(&self) -> (r: ChannelMention)
        ensures
            r@ == self@,
    {
        ChannelMention {
            id: self.id.clone(),
            guild_id: self.guild_id.clone(),
            channel_type: self.channel_type,
            name: self.name.clone(),
        }
    }
}

impl ChannelMention {
    /// Whether two values hold the same fields.
    pub fn same(&self, other: &ChannelMention) -> (r: bool)
        ensures
            r == (self@ == other@),
    {
        self.id == other.id
            && self.guild_id == other.guild_id
            && self.channel_type == other.channel_type
            && self.name == other.name
    }
}

pub open spec fn channel_mentions_view(s: Seq<ChannelMention>) -> Seq<ChannelMentionView> {
    s.map_values(|x: ChannelMention| x@)
}

/// Whether two lists hold the same values in the same order.
pub fn channel_mentions_eq(x: &Vec<ChannelMention>, y: &Vec<ChannelMention>) -> (r: bool)
    ensures
        r == (channel_mentions_view(x@) == channel_mentions_view(y@)),
{
    if x.len() != y.len() {
        proof {
            assert(channel_mentions_view(x@).len() != channel_mentions_view(y@).len());
        }
        return false;
    }
    let mut i: usize = 0;
    while i < x.len()
        invariant
            x@.len() == y@.len(),
            i <= x@.len(),
            forall|j: int| 0 <= j < i ==> x@[j]@ == y@[j]@,
        decreases x@.len() - i,
    {
        if !x[i].same(&y[i]) {
            proof {
                assert(channel_mentions_view(x@)[i as int] != channel_mentions_view(y@)[i as int]);
            }
            return false;
        }
        i += 1;
    }
    proof {
        assert(channel_mentions_view(x@) =~= channel_mentions_view(y@));
    }
    true
}

/// A copy of a list.
pub fn clone_channel_mentions(v: &Vec<ChannelMention>) -> (r: Vec<ChannelMention>)
    ensures
        channel_mentions_view(r@) == channel_mentions_view(v@),
{
    let r = v.clone();
    proof {
        assert(channel_mentions_view(r@) =~= channel_mentions_view(v@));
    }
    r
}

/// The channel mention a payload stands for: the checks come in the order
/// of the fields.
pub open spec fn channel_mention_from_json(v: JsonView) -> Result<ChannelMentionView, ModelErrorKind> {
    match snowflake_from_json(json_index(v, "id"@)) {
        Err(e) => Err(e),
        Ok(id) => match snowflake_from_json(json_index(v, "guild_id"@)) {
            Err(e) => Err(e),
            Ok(guild_id) => match channel_kind_from_json(json_index(v, "type"@)) {
                Err(e) => Err(e),
                Ok(channel_type) => match json_str(json_index(v, "name"@)) {
                    None => Err(ModelErrorKind::MissingField),
                    Some(name) => Ok(ChannelMentionView { id, guild_id, channel_type, name }),
                },
            },
        },
    }
}

/// The value under `key`, or `null`.
pub fn index<'a>(raw: &'a JsonValue, key: &str, null: &'a JsonValue) -> (r: &'a JsonValue)
    requires
        null@ == JsonView::Null,
    ensures
        r@ == json_index(raw@, key@),
{
    match raw.get(key) {
        Some(x) => x,
        None => null,
    }
}

/// Reads a snowflake under `key`.
fn read_snowflake(raw: &JsonValue, key: &str) -> (r: Result<Snowflake, ModelError>)
    ensures
        match (r, snowflake_from_json(json_index(raw@, key@))) {
            (Ok(x), Ok(s)) => x@ == s,
            (Err(e), Err(k)) => kind_of(e) == k,
            _ => false,
        },
{
    let null = JsonValue::Null;
    Snowflake::from_raw(index(raw, key, &null))
}

impl ChannelMention {
    /// Reads a channel mention from a payload.
    pub fn from_raw(raw: &JsonValue) -> (r: Result<ChannelMention, ModelError>)
        ensures
            read_as(r, channel_mention_from_json(raw@)),
    {
        let null = JsonValue::Null;
        let id = read_snowflake(raw, "id")?;
        let guild_id = read_snowflake(raw, "guild_id")?;
        let channel_type = ChannelKind::from_raw(index(raw, "type", &null))?;
        let name = match get_str(raw, "name") {
            Some(n) => String::from_str(n),
            None => return Err(ModelError::MissingField(String::from_str("Field 'name' is missing for the channel mention"))),
        };
        Ok(ChannelMention { id, guild_id, channel_type, name })
    }
}

/// A file attached to a message.
#[derive(Debug, PartialEq, Eq)]
pub struct Attachment {
    pub id: Snowflake,
    pub filename: String,
    pub description: Option<String>,
    /// The content type of the file, from its mime type.
    pub content_type: String,
    pub size: u64,
    pub url: String,
    pub proxy_url: String,
    pub height: Option<u64>,
    pub width: Option<u64>,
    pub ephemeral: Option<bool>,
    /// The duration of an audio file (for now, of a voice message).
    pub durations_seconds: Option<u64>,
}

/// The values of a attachment, its texts taken as characters.
pub ghost struct AttachmentView {
    pub id: Seq<char>,
    pub filename: Seq<char>,
    pub description: Option<Seq<char>>,
    pub content_type: Seq<char>,
    pub size: u64,
    pub url: Seq<char>,
    pub proxy_url: Seq<char>,
    pub height: Option<u64>,
    pub width: Option<u64>,
    pub ephemeral: Option<bool>,
    pub durations_seconds: Option<u64>,
}

impl View for Attachment {
    type V = AttachmentView;

    open spec fn view(&self) -> AttachmentView {
        AttachmentView {
            id: self.id@,
            filename: self.filename@,
            description: opt_view(self.description),
            content_type: self.content_type@,
            size: self.size,
            url: self.url@,
            proxy_url: self.proxy_url@,
            height: self.height,
            width: self.width,
            ephemeral: self.ephemeral,
            durations_seconds: self.durations_seconds,
        }
    }
}

impl Clone for Attachment {
    fn clone(&self) -> (r: Attachment)
        ensures
            r@ == self@,
    {
        Attachment {
            id: self.id.clone(),
            filename: self.filename.clone(),
            description: self.description.clone(),
            content_type: self.content_type.clone(),
            size: self.size,
            url: self.url.clone(),
            proxy_url: self.proxy_url.clone(),
            height: self.height,
            width: self.width,
            ephemeral: self.ephemeral,
            durations_seconds: self.durations_seconds,
        }
    }
}

impl Attachment {
    /// Takes the fields `id`, `filename`, `description`, `content_type`, `size`, `url` of a fresher copy.
    fn update_part_1(&mut self, from: &Self)
        ensures
            final(self).id@ == from.id@,
            final(self).filename@ == from.filename@,
            opt_view(final(self).description) == opt_view(from.description),
            final(self).content_type@ == from.content_type@,
            final(self).size == from.size,
            final(self).url@ == from.url@,
            final(self).proxy_url@ == old(self).proxy_url@,
            final(self).height == old(self).height,
            final(self).width == old(self).width,
            final(self).ephemeral == old(self).ephemeral,
            final(self).durations_seconds == old(self).durations_seconds,
    {
        if self.id != from.id {
            self.id = from.id.clone();
        }
        if self.filename != from.filename {
            self.filename = from.filename.clone();
        }
        if !opt_str_eq(&self.description, &from.description) {
            self.description = from.description.clone();
        }
        if self.content_type != from.content_type {
            self.content_type = from.content_type.clone();
        }
        if self.size != from.size {
            self.size = from.size;
        }
        if self.url != from.url {
            self.url = from.url.clone();
        }
    }

    /// Takes the fields `proxy_url`, `height`, `width`, `ephemeral`, `durations_seconds` of a fresher copy.
    fn update_part_2(&mut self, from: &Self)
        ensures
            final(self).id@ == old(self).id@,
            final(self).filename@ == old(self).filename@,
            opt_view(final(self).description) == opt_view(old(self).description),
            final(self).content_type@ == old(self).content_type@,
            final(self).size == old(self).size,
            final(self).url@ == old(self).url@,
            final(self).proxy_url@ == from.proxy_url@,
            final(self).height == from.height,
            final(self).width == from.width,
            final(self).ephemeral == from.ephemeral,
            final(self).durations_seconds == from.durations_seconds,
    {
        if self.proxy_url != from.proxy_url {
            self.proxy_url = from.proxy_url.clone();
        }
        if self.height != from.height {
            self.height = from.height;
        }
        if self.width != from.width {
            self.width = from.width;
        }
        if self.ephemeral != from.ephemeral {
            self.ephemeral = from.ephemeral;
        }
        if self.durations_seconds != from.durations_seconds {
            self.durations_seconds = from.durations_seconds;
        }
    }
}

impl UpdateCache for Attachment {
    fn update(&mut self, from: &Self)
        ensures
            final(self)@ == from@,
    {
        self.update_part_1(from);
        self.update_part_2(from);
    }
}

impl Attachment {
    /// Whether two values hold the same fields.
    pub fn same(&self, other: &Attachment) -> (r: bool)
        ensures
            r == (self@ == other@),
    {
        self.id == other.id
            && self.filename == other.filename
            && opt_str_eq(&self.description, &other.description)
            && self.content_type == other.content_type
            && self.size == other.size
            && self.url == other.url
            && self.proxy_url == other.proxy_url
            && self.height == other.height
            && self.width == other.width
            && self.ephemeral == other.ephemeral
            && self.durations_seconds == other.durations_seconds
    }
}

pub open spec fn attachments_view(s: Seq<Attachment>) -> Seq<AttachmentView> {
    s.map_values(|x: Attachment| x@)
}

/// Whether two lists hold the same values in the same order.
pub fn attachments_eq(x: &Vec<Attachment>, y: &Vec<Attachment>) -> (r: bool)
    ensures
        r == (attachments_view(x@) == attachments_view(y@)),
{
    if x.len() != y.len() {
        proof {
            assert(attachments_view(x@).len() != attachments_view(y@).len());
        }
        return false;
    }
    let mut i: usize = 0;
    while i < x.len()
        invariant
            x@.len() == y@.len(),
            i <= x@.len(),
            forall|j: int| 0 <= j < i ==> x@[j]@ == y@[j]@,
        decreases x@.len() - i,
    {
        if !x[i].same(&y[i]) {
            proof {
                assert(attachments_view(x@)[i as int] != attachments_view(y@)[i as int]);
            }
            return false;
        }
        i += 1;
    }
    proof {
        assert(attachments_view(x@) =~= attachments_view(y@));
    }
    true
}

/// A copy of a list.
pub fn clone_attachments(v: &Vec<Attachment>) -> (r: Vec<Attachment>)
    ensures
        attachments_view(r@) == attachments_view(v@),
{
    let r = v.clone();
    proof {
        assert(attachments_view(r@) =~= attachments_view(v@));
    }
    r
}

/// The attachment a payload stands for. The id must be a snowflake; the
/// name, content type, size and addresses must be there; the other fields
/// are read when they have their type and are none otherwise.
pub open spec fn attachment_from_json(v: JsonView) -> Result<AttachmentView, ModelErrorKind> {
    match snowflake_from_json(json_index(v, "id"@)) {
        Err(e) => Err(e),
        Ok(id) => {
            let filename = json_str(json_index(v, "filename"@));
            let content_type = json_str(json_index(v, "content_type"@));
            let size = json_u64(json_index(v, "size"@));
            let url = json_str(json_index(v, "url"@));
            let proxy_url = json_str(json_index(v, "proxy_url"@));
            if filename is None || content_type is None || size is None || url is None || proxy_url is None {
                Err(ModelErrorKind::MissingField)
            } else {
                Ok(AttachmentView {
                    id,
                    filename: filename.unwrap(),
                    description: json_str(json_index(v, "description"@)),
                    content_type: content_type.unwrap(),
                    size: size.unwrap(),
                    url: url.unwrap(),
                    proxy_url: proxy_url.unwrap(),
                    height: json_u64(json_index(v, "height"@)),
                    width: json_u64(json_index(v, "width"@)),
                    ephemeral: json_bool(json_index(v, "ephemeral"@)),
                    durations_seconds: json_u64(json_index(v, "durations_seconds"@)),
                })
            }
        },
    }
}

/// The text under `key`, if it is a string.
fn opt_str_at(raw: &JsonValue, key: &str) -> (r: Option<String>)
    ensures
        opt_view(r) == json_str(json_index(raw@, key@)),
{
    match get_str(raw, key) {
        Some(s) => Some(String::from_str(s)),
        None => None,
    }
}

/// The boolean under `key`, if it is one.
fn opt_bool_at(raw: &JsonValue, key: &str) -> (r: Option<bool>)
    ensures
        r == json_bool(json_index(raw@, key@)),
{
    match raw.get(key) {
        Some(x) => x.as_bool(),
        None => None,
    }
}

fn missing(what: &str) -> (e: ModelError)
    ensures
        kind_of(e) == ModelErrorKind::MissingField,
{
    ModelError::MissingField(String::from_str(what))
}

impl Attachment {
    /// Reads an attachment from a payload.
    pub fn from_raw(raw: &JsonValue) -> (r: Result<Attachment, ModelError>)
        ensures
            read_as(r, attachment_from_json(raw@)),
    {
        let id = read_snowflake(raw, "id")?;
        let filename = match get_str(raw, "filename") {
            Some(s) => String::from_str(s),
            None => return Err(missing("Field 'filename' is missing for the attachment")),
        };
        let description = opt_str_at(raw, "description");
        let content_type = match get_str(raw, "content_type") {
            Some(s) => String::from_str(s),
            None => return Err(missing("Field 'content_type' is missing for the attachment")),
        };
        let size = match get_u64(raw, "size") {
            Some(n) => n,
            None => return Err(missing("Field 'size' is missing for the attachment")),
        };
        let url = match get_str(raw, "url") {
            Some(s) => String::from_str(s),
            None => return Err(missing("Field 'url' is missing for the attachment")),
        };
        let proxy_url = match get_str(raw, "proxy_url") {
            Some(s) => String::from_str(s),
            None => return Err(missing("Field 'proxy_url' is missing for the attachment")),
        };
        let height = get_u64(raw, "height");
        let width = get_u64(raw, "width");
        let ephemeral = opt_bool_at(raw, "ephemeral");
        let durations_seconds = get_u64(raw, "durations_seconds");
        Ok(Attachment {
            id,
            filename,
            description,
            content_type,
            size,
            url,
            proxy_url,
            height,
            width,
            ephemeral,
            durations_seconds,
        })
    }
}

/// A reference to a message.
#[derive(Debug, PartialEq, Eq)]
pub struct MessageReference {
    pub message_id: Option<Snowflake>,
    pub channel_id: Snowflake,
    pub guild_id: Option<Snowflake>,
    pub fail_if_not_exists: Option<bool>,
}

/// The values of a message reference, its texts taken as characters.
pub ghost struct MessageReferenceView {
    pub message_id: Option<Seq<char>>,
    pub channel_id: Seq<char>,
    pub guild_id: Option<Seq<char>>,
    pub fail_if_not_exists: Option<bool>,
}

impl View for MessageReference {
    type V = MessageReferenceView;

    open spec fn view(&self) -> MessageReferenceView {
        MessageReferenceView {
            message_id: opt_snowflake_view(self.message_id),
            channel_id: self.channel_id@,
            guild_id: opt_snowflake_view(self.guild_id),
            fail_if_not_exists: self.fail_if_not_exists,
        }
    }
}

impl Clone for MessageReference {
    fn clone(&self) -> (r: MessageReference)
        ensures
            r@ == self@,
    {
        MessageReference {
            message_id: self.message_id.clone(),
            channel_id: self.channel_id.clone(),
            guild_id: self.guild_id.clone(),
            fail_if_not_exists: self.fail_if_not_exists,
        }
    }
}

impl UpdateCache for MessageReference {
    fn update(&mut self, from: &Self)
        ensures
            final(self)@ == from@,
    {
        if self.message_id != from.message_id {
            self.message_id = from.message_id.clone();
        }
        if self.channel_id != from.channel_id {
            self.channel_id = from.channel_id.clone();
        }
        if self.guild_id != from.guild_id {
            self.guild_id = from.guild_id.clone();
        }
        if self.fail_if_not_exists != from.fail_if_not_exists {
            self.fail_if_not_exists = from.fail_if_not_exists;
        }
    }
}

impl MessageReference {
    /// Whether two values hold the same fields.
    pub fn same(&self, other: &MessageReference) -> (r: bool)
        ensures
            r == (self@ == other@),
    {
        self.message_id == other.message_id
            && self.channel_id == other.channel_id
            && self.guild_id == other.guild_id
            && self.fail_if_not_exists == other.fail_if_not_exists
    }
}

pub open spec fn opt_message_reference_view(o: Option<MessageReference>) -> Option<MessageReferenceView> {
    match o {
        Some(x) => Some(x@),
        None => None,
    }
}

/// Whether two optional values hold the same fields.
pub fn opt_message_reference_eq(a: &Option<MessageReference>, b: &Option<MessageReference>) -> (r: bool)
    ensures
        r == (opt_message_reference_view(*a) == opt_message_reference_view(*b)),
{
    match (a, b) {
        (Some(x), Some(y)) => x.same(y),
        (None, None) => true,
        _ => false,
    }
}

/// A copy of an optional value.
pub fn clone_opt_message_reference(a: &Option<MessageReference>) -> (r: Option<MessageReference>)
    ensures
        opt_message_reference_view(r) == opt_message_reference_view(*a),
{
    match a {
        Some(x) => Some(x.clone()),
        None => None,
    }
}

/// An optional snowflake field that, when there, must be a string (`null`
/// included).
pub open spec fn present_snowflake(f: Option<JsonView>) -> Result<Option<Seq<char>>, ModelErrorKind> {
    match f {
        None => Ok(None),
        Some(x) => match snowflake_from_json(x) {
            Ok(s) => Ok(Some(s)),
            Err(e) => Err(e),
        },
    }
}

/// The message reference a payload stands for.
pub open spec fn message_reference_from_json(v: JsonView) -> Result<MessageReferenceView, ModelErrorKind> {
    match present_snowflake(json_get(v, "message_id"@)) {
        Err(e) => Err(e),
        Ok(message_id) => match snowflake_from_json(json_index(v, "channel_id"@)) {
            Err(e) => Err(e),
            Ok(channel_id) => match present_snowflake(json_get(v, "guild_id"@)) {
                Err(e) => Err(e),
                Ok(guild_id) => Ok(MessageReferenceView {
                    message_id,
                    channel_id,
                    guild_id,
                    fail_if_not_exists: json_bool(json_index(v, "fail_if_not_exists"@)),
                }),
            },
        },
    }
}

/// Reads a snowflake under `key` when the key is there.
fn read_present_snowflake(raw: &JsonValue, key: &str) -> (r: Result<Option<Snowflake>, ModelError>)
    ensures
        match (r, present_snowflake(json_get(raw@, key@))) {
            (Ok(x), Ok(s)) => opt_snowflake_view(x) == s,
            (Err(e), Err(k)) => kind_of(e) == k,
            _ => false,
        },
{
    match raw.get(key) {
        None => Ok(None),
        Some(x) => match Snowflake::from_raw(x) {
            Ok(s) => Ok(Some(s)),
            Err(e) => Err(e),
        },
    }
}

impl MessageReference {
    /// Reads a message reference from a payload.
    pub fn from_raw(raw: &JsonValue) -> (r: Result<MessageReference, ModelError>)
        ensures
            read_as(r, message_reference_from_json(raw@)),
    {
        let message_id = read_present_snowflake(raw, "message_id")?;
        let channel_id = read_snowflake(raw, "channel_id")?;
        let guild_id = read_present_snowflake(raw, "guild_id")?;
        let fail_if_not_exists = opt_bool_at(raw, "fail_if_not_exists");
        Ok(MessageReference { message_id, channel_id, guild_id, fail_if_not_exists })
    }
}

/// The interaction a message answers.
#[derive(Debug, PartialEq, Eq)]
pub struct MessageInteraction {
    pub id: Snowflake,
    pub kind: InteractionType,
    pub name: String,
    pub user: User,
}

/// The values of a message interaction, its texts taken as characters.
pub ghost struct MessageInteractionView {
    pub id: Seq<char>,
    pub kind: InteractionType,
    pub name: Seq<char>,
    pub user: UserView,
}

impl View for MessageInteraction {
    type V = MessageInteractionView;

    open spec fn view(&self) -> MessageInteractionView {
        MessageInteractionView {
            id: self.id@,
            kind: self.kind,
            name: self.name@,
            user: self.user@,
        }
    }
}

impl Clone for MessageInteraction {
    fn clone(&self) -> (r: MessageInteraction)
        ensures
            r@ == self@,
    {
        MessageInteraction {
            id: self.id.clone(),
            kind: self.kind,
            name: self.name.clone(),
            user: self.user.clone(),
        }
    }
}

impl UpdateCache for MessageInteraction {
    fn update(&mut self, from: &Self)
        ensures
            final(self)@ == from@,
    {
        if self.id != from.id {
            self.id = from.id.clone();
        }
        if self.kind != from.kind {
            self.kind = from.kind;
        }
        if self.name != from.name {
            self.name = from.name.clone();
        }
        if !self.user.same(&from.user) {
            self.user = from.user.clone();
        }
    }
}

impl MessageInteraction {
    /// Whether two values hold the same fields.
    pub fn same(&self, other: &MessageInteraction) -> (r: bool)
        ensures
            r == (self@ == other@),
    {
        self.id == other.id
            && self.kind == other.kind
            && self.name == other.name
            && self.user.same(&other.user)
    }
}

pub open spec fn opt_message_interaction_view(o: Option<MessageInteraction>) -> Option<MessageInteractionView> {
    match o {
        Some(x) => Some(x@),
        None => None,
    }
}

/// Whether two optional values hold the same fields.
pub fn opt_message_interaction_eq(a: &Option<MessageInteraction>, b: &Option<MessageInteraction>) -> (r: bool)
    ensures
        r == (opt_message_interaction_view(*a) == opt_message_interaction_view(*b)),
{
    match (a, b) {
        (Some(x), Some(y)) => x.same(y),
        (None, None) => true,
        _ => false,
    }
}

/// A copy of an optional value.
pub fn clone_opt_message_interaction(a: &Option<MessageInteraction>) -> (r: Option<MessageInteraction>)
    ensures
        opt_message_interaction_view(r) == opt_message_interaction_view(*a),
{
    match a {
        Some(x) => Some(x.clone()),
        None => None,
    }
}

/// The message interaction a payload stands for.
pub open spec fn message_interaction_from_json(v: JsonView) -> Result<MessageInteractionView, ModelErrorKind> {
    match snowflake_from_json(json_index(v, "id"@)) {
        Err(e) => Err(e),
        Ok(id) => match json_get(v, "type"@) {
            None => Err(ModelErrorKind::MissingField),
            Some(t) => match interaction_type_from_json(t) {
                Err(e) => Err(e),
                Ok(kind) => match json_str(json_index(v, "name"@)) {
                    None => Err(ModelErrorKind::MissingField),
                    Some(name) => match json_get(v, "user"@) {
                        None => Err(ModelErrorKind::MissingField),
                        Some(u) => match user_from_json(u) {
                            Err(e) => Err(e),
                            Ok(user) => Ok(MessageInteractionView { id, kind, name, user }),
                        },
                    },
                },
            },
        },
    }
}

impl MessageInteraction {
    /// Reads a message interaction from a payload.
    pub fn from_raw(raw: &JsonValue) -> (r: Result<MessageInteraction, ModelError>)
        ensures
            read_as(r, message_interaction_from_json(raw@)),
    {
        let id = read_snowflake(raw, "id")?;
        let kind = match raw.get("type") {
            Some(t) => InteractionType::from_raw(t)?,
            None => return Err(missing("Field 'type' is missing for the message interaction")),
        };
        let name = match get_str(raw, "name") {
            Some(s) => String::from_str(s),
            None => return Err(missing("Field 'name' is missing for the message interaction")),
        };
        let user = match raw.get("user") {
            Some(u) => User::from_raw(u)?,
            None => return Err(missing("Field 'user' is missing for the message interaction")),
        };
        Ok(MessageInteraction { id, kind, name, user })
    }
}

/// The purchase of a role subscription.
#[derive(Debug, PartialEq, Eq)]
pub struct RoleSubscription {
    pub tier_name: String,
    pub role_subscription_listing_id: Snowflake,
    pub total_months_subscribed: u64,
    pub is_renewal: bool,
}

/// The values of a role subscription, its texts taken as characters.
pub ghost struct RoleSubscriptionView {
    pub tier_name: Seq<char>,
    pub role_subscription_listing_id: Seq<char>,
    pub total_months_subscribed: u64,
    pub is_renewal: bool,
}

impl View for RoleSubscription {
    type V = RoleSubscriptionView;

    open spec fn view(&self) -> RoleSubscriptionView {
        RoleSubscriptionView {
            tier_name: self.tier_name@,
            role_subscription_listing_id: self.role_subscription_listing_id@,
            total_months_subscribed: self.total_months_subscribed,
            is_renewal: self.is_renewal,
        }
    }
}

impl Clone for RoleSubscription {
    fn clone(&self) -> (r: RoleSubscription)
        ensures
            r@ == self@,
    {
        RoleSubscription {
            tier_name: self.tier_name.clone(),
            role_subscription_listing_id: self.role_subscription_listing_id.clone(),
            total_months_subscribed: self.total_months_subscribed,
            is_renewal: self.is_renewal,
        }
    }
}

impl UpdateCache for RoleSubscription {
    fn update(&mut self, from: &Self)
        ensures
            final(self)@ == from@,
    {
        if self.tier_name != from.tier_name {
            self.tier_name = from.tier_name.clone();
        }
        if self.role_subscription_listing_id != from.role_subscription_listing_id {
            self.role_subscription_listing_id = from.role_subscription_listing_id.clone();
        }
        if self.total_months_subscribed != from.total_months_subscribed {
            self.total_months_subscribed = from.total_months_subscribed;
        }
        if self.is_renewal != from.is_renewal {
            self.is_renewal = from.is_renewal;
        }
    }
}

impl RoleSubscription {
    /// Whether two values hold the same fields.
    pub fn same(&self, other: &RoleSubscription) -> (r: bool)
        ensures
            r == (self@ == other@),
    {
        self.tier_name == other.tier_name
            && self.role_subscription_listing_id == other.role_subscription_listing_id
            && self.total_months_subscribed == other.total_months_subscribed
            && self.is_renewal == other.is_renewal
    }
}

pub open spec fn opt_role_subscription_view(o: Option<RoleSubscription>) -> Option<RoleSubscriptionView> {
    match o {
        Some(x) => Some(x@),
        None => None,
    }
}

/// Whether two optional values hold the same fields.
pub fn opt_role_subscription_eq(a: &Option<RoleSubscription>, b: &Option<RoleSubscription>) -> (r: bool)
    ensures
        r == (opt_role_subscription_view(*a) == opt_role_subscription_view(*b)),
{
    match (a, b) {
        (Some(x), Some(y)) => x.same(y),
        (None, None) => true,
        _ => false,
    }
}

/// A copy of an optional value.
pub fn clone_opt_role_subscription(a: &Option<RoleSubscription>) -> (r: Option<RoleSubscription>)
    ensures
        opt_role_subscription_view(r) == opt_role_subscription_view(*a),
{
    match a {
        Some(x) => Some(x.clone()),
        None => None,
    }
}

/// The role subscription a payload stands for.
pub open spec fn role_subscription_from_json(v: JsonView) -> Result<RoleSubscriptionView, ModelErrorKind> {
    match json_str(json_index(v, "tier_name"@)) {
        None => Err(ModelErrorKind::MissingField),
        Some(tier_name) => match snowflake_from_json(json_index(v, "role_subscription_listing_id"@)) {
            Err(e) => Err(e),
            Ok(role_subscription_listing_id) => match json_u64(json_index(v, "total_months_subscribed"@)) {
                None => Err(ModelErrorKind::MissingField),
                Some(total_months_subscribed) => match json_bool(json_index(v, "is_renewal"@)) {
                    None => Err(ModelErrorKind::MissingField),
                    Some(is_renewal) => Ok(RoleSubscriptionView {
                        tier_name,
                        role_subscription_listing_id,
                        total_months_subscribed,
                        is_renewal,
                    }),
                },
            },
        },
    }
}

impl RoleSubscription {
    /// Reads a role subscription from a payload.
    pub fn from_raw(raw: &JsonValue) -> (r: Result<RoleSubscription, ModelError>)
        ensures
            read_as(r, role_subscription_from_json(raw@)),
    {
        let tier_name = match get_str(raw, "tier_name") {
            Some(s) => String::from_str(s),
            None => return Err(missing("Field 'tier_name' is missing for the role subscription")),
        };
        let role_subscription_listing_id = read_snowflake(raw, "role_subscription_listing_id")?;
        let total_months_subscribed = match get_u64(raw, "total_months_subscribed") {
            Some(n) => n,
            None => return Err(missing("Field 'total_months_subscribed' is missing for the role subscription")),
        };
        let is_renewal = match opt_bool_at(raw, "is_renewal") {
            Some(b) => b,
            None => return Err(missing("Field 'is_renewal' is missing for the role subscription")),
        };
        Ok(RoleSubscription { tier_name, role_subscription_listing_id, total_months_subscribed, is_renewal })
    }
}

/// A sticker sent in a message.
#[derive(Debug, PartialEq, Eq)]
pub struct StickerItem {
    pub id: Snowflake,
    pub name: String,
    pub format_type: StickerFormatType,
}

/// The values of a sticker item, its texts taken as characters.
pub ghost struct StickerItemView {
    pub id: Seq<char>,
    pub name: Seq<char>,
    pub format_type: StickerFormatType,
}

impl View for StickerItem {
    type V = StickerItemView;

    open spec fn view(&self) -> StickerItemView {
        StickerItemView {
            id: self.id@,
            name: self.name@,
            format_type: self.format_type,
        }
    }
}

impl Clone for StickerItem {
    fn clone(&self) -> (r: StickerItem)
        ensures
            r@ == self@,
    {
        StickerItem {
            id: self.id.clone(),
            name: self.name.clone(),
            format_type: self.format_type,
        }
    }
}

impl UpdateCache for StickerItem {
    fn update(&mut self, from: &Self)
        ensures
            final(self)@ == from@,
    {
        if self.id != from.id {
            self.id = from.id.clone();
        }
        if self.name != from.name {
            self.name = from.name.clone();
        }
        if self.format_type != from.format_type {
            self.format_type = from.format_type;
        }
    }
}

impl StickerItem {
    /// Whether two values hold the same fields.
    pub fn same(&self, other: &StickerItem) -> (r: bool)
        ensures
            r == (self@ == other@),
    {
        self.id == other.id
            && self.name == other.name
            && self.format_type == other.format_type
    }
}

pub open spec fn sticker_items_view(s: Seq<StickerItem>) -> Seq<StickerItemView> {
    s.map_values(|x: StickerItem| x@)
}

/// Whether two lists hold the same values in the same order.
pub fn sticker_items_eq(x: &Vec<StickerItem>, y: &Vec<StickerItem>) -> (r: bool)
    ensures
        r == (sticker_items_view(x@) == sticker_items_view(y@)),
{
    if x.len() != y.len() {
        proof {
            assert(sticker_items_view(x@).len() != sticker_items_view(y@).len());
        }
        return false;
    }
    let mut i: usize = 0;
    while i < x.len()
        invariant
            x@.len() == y@.len(),
            i <= x@.len(),
            forall|j: int| 0 <= j < i ==> x@[j]@ == y@[j]@,
        decreases x@.len() - i,
    {
        if !x[i].same(&y[i]) {
            proof {
                assert(sticker_items_view(x@)[i as int] != sticker_items_view(y@)[i as int]);
            }
            return false;
        }
        i += 1;
    }
    proof {
        assert(sticker_items_view(x@) =~= sticker_items_view(y@));
    }
    true
}

/// A copy of a list.
pub fn clone_sticker_items(v: &Vec<StickerItem>) -> (r: Vec<StickerItem>)
    ensures
        sticker_items_view(r@) == sticker_items_view(v@),
{
    let r = v.clone();
    proof {
        assert(sticker_items_view(r@) =~= sticker_items_view(v@));
    }
    r
}

/// The sticker format a payload stands for.
pub open spec fn sticker_format_from_json(v: JsonView) -> Result<StickerFormatType, ModelErrorKind> {
    match json_u64(v) {
        Some(c) => match sticker_format_type_code_inverse(c) {
            Some(f) => Ok(f),
            None => Err(ModelErrorKind::InvalidPayload),
        },
        None => Err(ModelErrorKind::InvalidPayload),
    }
}

/// The sticker item a payload stands for.
pub open spec fn sticker_item_from_json(v: JsonView) -> Result<StickerItemView, ModelErrorKind> {
    match snowflake_from_json(json_index(v, "id"@)) {
        Err(e) => Err(e),
        Ok(id) => match json_str(json_index(v, "name"@)) {
            None => Err(ModelErrorKind::MissingField),
            Some(name) => match json_get(v, "format_type"@) {
                None => Err(ModelErrorKind::MissingField),
                Some(f) => match sticker_format_from_json(f) {
                    Err(e) => Err(e),
                    Ok(format_type) => Ok(StickerItemView { id, name, format_type }),
                },
            },
        },
    }
}

impl StickerItem {
    /// Reads a sticker item from a payload.
    pub fn from_raw(raw: &JsonValue) -> (r: Result<StickerItem, ModelError>)
        ensures
            read_as(r, sticker_item_from_json(raw@)),
    {
        let id = read_snowflake(raw, "id")?;
        let name = match get_str(raw, "name") {
            Some(s) => String::from_str(s),
            None => return Err(missing("Field 'name' is missing for the sticker item")),
        };
        let format_type = match raw.get("format_type") {
            Some(f) => StickerFormatType::from_raw(f)?,
            None => return Err(missing("Field 'format_type' is missing for the sticker item")),
        };
        Ok(StickerItem { id, name, format_type })
    }
}

/// A reaction to a message.
#[derive(Debug, PartialEq, Eq)]
pub struct Reaction {
    pub count: u64,
    /// Whether the current user reacted with this emoji.
    pub me: bool,
    pub emoji: Emoji,
}

/// The values of a reaction, its texts taken as characters.
pub ghost struct ReactionView {
    pub count: u64,
    pub me: bool,
    pub emoji: EmojiView,
}

impl View for Reaction {
    type V = ReactionView;

    open spec fn view(&self) -> ReactionView {
        ReactionView {
            count: self.count,
            me: self.me,
            emoji: self.emoji@,
        }
    }
}

impl Clone for Reaction {
    fn clone(&self) -> (r: Reaction)
        ensures
            r@ == self@,
    {
        Reaction {
            count: self.count,
            me: self.me,
            emoji: self.emoji.clone(),
        }
    }
}

impl UpdateCache for Reaction {
    fn update(&mut self, from: &Self)
        ensures
            final(self)@ == from@,
    {
        if self.count != from.count {
            self.count = from.count;
        }
        if self.me != from.me {
            self.me = from.me;
        }
        if !self.emoji.same(&from.emoji) {
            self.emoji = from.emoji.clone();
        }
    }
}

impl Reaction {
    /// Whether two values hold the same fields.
    pub fn same(&self, other: &Reaction) -> (r: bool)
        ensures
            r == (self@ == other@),
    {
        self.count == other.count
            && self.me == other.me
            && self.emoji.same(&other.emoji)
    }
}

pub open spec fn reactions_view(s: Seq<Reaction>) -> Seq<ReactionView> {
    s.map_values(|x: Reaction| x@)
}

/// Whether two lists hold the same values in the same order.
pub fn reactions_eq(x: &Vec<Reaction>, y: &Vec<Reaction>) -> (r: bool)
    ensures
        r == (reactions_view(x@) == reactions_view(y@)),
{
    if x.len() != y.len() {
        proof {
            assert(reactions_view(x@).len() != reactions_view(y@).len());
        }
        return false;
    }
    let mut i: usize = 0;
    while i < x.len()
        invariant
            x@.len() == y@.len(),
            i <= x@.len(),
            forall|j: int| 0 <= j < i ==> x@[j]@ == y@[j]@,
        decreases x@.len() - i,
    {
        if !x[i].same(&y[i]) {
            proof {
                assert(reactions_view(x@)[i as int] != reactions_view(y@)[i as int]);
            }
            return false;
        }
        i += 1;
    }
    proof {
        assert(reactions_view(x@) =~= reactions_view(y@));
    }
    true
}

/// A copy of a list.
pub fn clone_reactions(v: &Vec<Reaction>) -> (r: Vec<Reaction>)
    ensures
        reactions_view(r@) == reactions_view(v@),
{
    let r = v.clone();
    proof {
        assert(reactions_view(r@) =~= reactions_view(v@));
    }
    r
}

/// The reaction a payload stands for.
pub open spec fn reaction_from_json(v: JsonView) -> Result<ReactionView, ModelErrorKind> {
    match json_u64(json_index(v, "count"@)) {
        None => Err(ModelErrorKind::MissingField),
        Some(count) => match json_bool(json_index(v, "me"@)) {
            None => Err(ModelErrorKind::MissingField),
            Some(me) => match emoji_from_json(json_index(v, "emoji"@)) {
                Err(e) => Err(e),
                Ok(emoji) => Ok(ReactionView { count, me, emoji }),
            },
        },
    }
}

impl Reaction {
    /// Reads a reaction from a payload.
    pub fn from_raw(raw: &JsonValue) -> (r: Result<Reaction, ModelError>)
        ensures
            read_as(r, reaction_from_json(raw@)),
    {
        let null = JsonValue::Null;
        let count = match get_u64(raw, "count") {
            Some(n) => n,
            None => return Err(missing("Field 'count' is missing for the reaction")),
        };
        let me = match opt_bool_at(raw, "me") {
            Some(b) => b,
            None => return Err(missing("Field 'me' is missing for the reaction")),
        };
        let emoji = Emoji::from_raw(index(raw, "emoji", &null))?;
        Ok(Reaction { count, me, emoji })
    }
}

// ----------------------------------------------------------------------
// Lists

pub open spec fn users_view(s: Seq<User>) -> Seq<UserView> {
    s.map_values(|u: User| u@)
}

/// Whether two lists of users hold the same values in the same order.
pub fn users_eq(x: &Vec<User>, y: &Vec<User>) -> (r: bool)
    ensures
        r == (users_view(x@) == users_view(y@)),
{
    if x.len() != y.len() {
        proof {
            assert(users_view(x@).len() != users_view(y@).len());
        }
        return false;
    }
    let mut i: usize = 0;
    while i < x.len()
        invariant
            x@.len() == y@.len(),
            i <= x@.len(),
            forall|j: int| 0 <= j < i ==> x@[j]@ == y@[j]@,
        decreases x@.len() - i,
    {
        if !x[i].same(&y[i]) {
            proof {
                assert(users_view(x@)[i as int] != users_view(y@)[i as int]);
            }
            return false;
        }
        i += 1;
    }
    proof {
        assert(users_view(x@) =~= users_view(y@));
    }
    true
}

/// A copy of a list of users.
pub fn clone_users(v: &Vec<User>) -> (r: Vec<User>)
    ensures
        users_view(r@) == users_view(v@),
{
    let r = v.clone();
    proof {
        assert(users_view(r@) =~= users_view(v@));
    }
    r
}

pub open spec fn opt_channel_mentions_view(o: Option<Vec<ChannelMention>>) -> Option<Seq<ChannelMentionView>> {
    match o {
        Some(v) => Some(channel_mentions_view(v@)),
        None => None,
    }
}

/// Whether two optional lists of channel mentions hold the same values.
pub fn opt_channel_mentions_eq(a: &Option<Vec<ChannelMention>>, b: &Option<Vec<ChannelMention>>) -> (r: bool)
    ensures
        r == (opt_channel_mentions_view(*a) == opt_channel_mentions_view(*b)),
{
    match (a, b) {
        (Some(x), Some(y)) => channel_mentions_eq(x, y),
        (None, None) => true,
        _ => false,
    }
}

/// A copy of an optional list of channel mentions.
pub fn clone_opt_channel_mentions(a: &Option<Vec<ChannelMention>>) -> (r: Option<Vec<ChannelMention>>)
    ensures
        opt_channel_mentions_view(r) == opt_channel_mentions_view(*a),
{
    match a {
        Some(v) => Some(clone_channel_mentions(v)),
        None => None,
    }
}

/// The users that the items stand for, read in order; an item that
/// cannot be read is left out.
pub open spec fn kept_users(items: Seq<JsonView>) -> Seq<UserView>
    decreases items.len(),
{
    if items.len() == 0 {
        Seq::empty()
    } else {
        let prev = kept_users(items.drop_last());
        let x = items.last();
        match match user_from_json(x) { Ok(u) => Some(u), Err(_) => None } {
            Some(u) => prev.push(u),
            None => prev,
        }
    }
}

fn read_kept_users(v: &Vec<JsonValue>) -> (r: Vec<User>)
    ensures
        users_view(r@) == kept_users(items_view(v@)),
{
    let ghost iv = items_view(v@);
    let mut out: Vec<User> = Vec::new();
    let mut i: usize = 0;
    proof {
        assert(iv.take(0) =~= Seq::<JsonView>::empty());
        assert(users_view(out@) =~= Seq::empty());
    }
    while i < v.len()
        invariant
            i <= v@.len(),
            iv == items_view(v@),
            users_view(out@) == kept_users(iv.take(i as int)),
        decreases v@.len() - i,
    {
        proof {
            assert(iv.take(i + 1).drop_last() =~= iv.take(i as int));
            assert(iv.take(i + 1).last() == v@[i as int]@);
        }
        match match User::from_raw(&v[i]) { Ok(u) => Some(u), Err(_) => None } {
            Some(u) => {
                let ghost before = out@;
                out.push(u);
                proof {
                    assert(users_view(out@) =~= users_view(before).push(u@));
                }
            },
            None => {},
        }
        i += 1;
    }
    proof {
        assert(iv.take(i as int) =~= iv);
    }
    out
}

/// The users read from the array under `key`; none when there is no array.
fn read_kept_users_at(raw: &JsonValue, key: &str) -> (r: Option<Vec<User>>)
    ensures
        match json_array(json_index(raw@, key@)) {
            Some(items) => r matches Some(x) && users_view(x@) == kept_users(items),
            None => r is None,
        },
{
    match raw.get(key) {
        Some(x) => match x.as_array() {
            Some(items) => Some(read_kept_users(items)),
            None => None,
        },
        None => None,
    }
}

/// The channel mentions that the items stand for, read in order; an item that
/// cannot be read is left out.
pub open spec fn kept_channel_mentions(items: Seq<JsonView>) -> Seq<ChannelMentionView>
    decreases items.len(),
{
    if items.len() == 0 {
        Seq::empty()
    } else {
        let prev = kept_channel_mentions(items.drop_last());
        let x = items.last();
        match match channel_mention_from_json(x) { Ok(u) => Some(u), Err(_) => None } {
            Some(u) => prev.push(u),
            None => prev,
        }
    }
}

fn read_kept_channel_mentions(v: &Vec<JsonValue>) -> (r: Vec<ChannelMention>)
    ensures
        channel_mentions_view(r@) == kept_channel_mentions(items_view(v@)),
{
    let ghost iv = items_view(v@);
    let mut out: Vec<ChannelMention> = Vec::new();
    let mut i: usize = 0;
    proof {
        assert(iv.take(0) =~= Seq::<JsonView>::empty());
        assert(channel_mentions_view(out@) =~= Seq::empty());
    }
    while i < v.len()
        invariant
            i <= v@.len(),
            iv == items_view(v@),
            channel_mentions_view(out@) == kept_channel_mentions(iv.take(i as int)),
        decreases v@.len() - i,
    {
        proof {
            assert(iv.take(i + 1).drop_last() =~= iv.take(i as int));
            assert(iv.take(i + 1).last() == v@[i as int]@);
        }
        match match ChannelMention::from_raw(&v[i]) { Ok(u) => Some(u), Err(_) => None } {
            Some(u) => {
                let ghost before = out@;
                out.push(u);
                proof {
                    assert(channel_mentions_view(out@) =~= channel_mentions_view(before).push(u@));
                }
            },
            None => {},
        }
        i += 1;
    }
    proof {
        assert(iv.take(i as int) =~= iv);
    }
    out
}

/// The channel mentions read from the array under `key`; none when there is no array.
fn read_kept_channel_mentions_at(raw: &JsonValue, key: &str) -> (r: Option<Vec<ChannelMention>>)
    ensures
        match json_array(json_index(raw@, key@)) {
            Some(items) => r matches Some(x) && channel_mentions_view(x@) == kept_channel_mentions(items),
            None => r is None,
        },
{
    match raw.get(key) {
        Some(x) => match x.as_array() {
            Some(items) => Some(read_kept_channel_mentions(items)),
            None => None,
        },
        None => None,
    }
}

/// The attachments that the items stand for, read in order; an item that
/// cannot be read is left out.
pub open spec fn kept_attachments(items: Seq<JsonView>) -> Seq<AttachmentView>
    decreases items.len(),
{
    if items.len() == 0 {
        Seq::empty()
    } else {
        let prev = kept_attachments(items.drop_last());
        let x = items.last();
        match match attachment_from_json(x) { Ok(u) => Some(u), Err(_) => None } {
            Some(u) => prev.push(u),
            None => prev,
        }
    }
}

fn read_kept_attachments(v: &Vec<JsonValue>) -> (r: Vec<Attachment>)
    ensures
        attachments_view(r@) == kept_attachments(items_view(v@)),
{
    let ghost iv = items_view(v@);
    let mut out: Vec<Attachment> = Vec::new();
    let mut i: usize = 0;
    proof {
        assert(iv.take(0) =~= Seq::<JsonView>::empty());
        assert(attachments_view(out@) =~= Seq::empty());
    }
    while i < v.len()
        invariant
            i <= v@.len(),
            iv == items_view(v@),
            attachments_view(out@) == kept_attachments(iv.take(i as int)),
        decreases v@.len() - i,
    {
        proof {
            assert(iv.take(i + 1).drop_last() =~= iv.take(i as int));
            assert(iv.take(i + 1).last() == v@[i as int]@);
        }
        match match Attachment::from_raw(&v[i]) { Ok(u) => Some(u), Err(_) => None } {
            Some(u) => {
                let ghost before = out@;
                out.push(u);
                proof {
                    assert(attachments_view(out@) =~= attachments_view(before).push(u@));
                }
            },
            None => {},
        }
        i += 1;
    }
    proof {
        assert(iv.take(i as int) =~= iv);
    }
    out
}

/// The attachments read from the array under `key`; none when there is no array.
fn read_kept_attachments_at(raw: &JsonValue, key: &str) -> (r: Option<Vec<Attachment>>)
    ensures
        match json_array(json_index(raw@, key@)) {
            Some(items) => r matches Some(x) && attachments_view(x@) == kept_attachments(items),
            None => r is None,
        },
{
    match raw.get(key) {
        Some(x) => match x.as_array() {
            Some(items) => Some(read_kept_attachments(items)),
            None => None,
        },
        None => None,
    }
}

/// The embeds that the items stand for, read in order; an item that
/// cannot be read is left out.
pub open spec fn kept_embeds(items: Seq<JsonView>) -> Seq<EmbedView>
    decreases items.len(),
{
    if items.len() == 0 {
        Seq::empty()
    } else {
        let prev = kept_embeds(items.drop_last());
        let x = items.last();
        match embed_from_json(x) {
            Some(u) => prev.push(u),
            None => prev,
        }
    }
}

fn read_kept_embeds(v: &Vec<JsonValue>) -> (r: Vec<Embed>)
    ensures
        embeds_view(r@) == kept_embeds(items_view(v@)),
{
    let ghost iv = items_view(v@);
    let mut out: Vec<Embed> = Vec::new();
    let mut i: usize = 0;
    proof {
        assert(iv.take(0) =~= Seq::<JsonView>::empty());
        assert(embeds_view(out@) =~= Seq::empty());
    }
    while i < v.len()
        invariant
            i <= v@.len(),
            iv == items_view(v@),
            embeds_view(out@) == kept_embeds(iv.take(i as int)),
        decreases v@.len() - i,
    {
        proof {
            assert(iv.take(i + 1).drop_last() =~= iv.take(i as int));
            assert(iv.take(i + 1).last() == v@[i as int]@);
        }
        match match Embed::from_raw(&v[i]) { Ok(u) => Some(u), Err(_) => None } {
            Some(u) => {
                let ghost before = out@;
                out.push(u);
                proof {
                    assert(embeds_view(out@) =~= embeds_view(before).push(u@));
                }
            },
            None => {},
        }
        i += 1;
    }
    proof {
        assert(iv.take(i as int) =~= iv);
    }
    out
}

/// The embeds read from the array under `key`; none when there is no array.
fn read_kept_embeds_at(raw: &JsonValue, key: &str) -> (r: Option<Vec<Embed>>)
    ensures
        match json_array(json_index(raw@, key@)) {
            Some(items) => r matches Some(x) && embeds_view(x@) == kept_embeds(items),
            None => r is None,
        },
{
    match raw.get(key) {
        Some(x) => match x.as_array() {
            Some(items) => Some(read_kept_embeds(items)),
            None => None,
        },
        None => None,
    }
}

/// The components that the items stand for, read in order; an item that
/// cannot be read is left out.
pub open spec fn kept_components(items: Seq<JsonView>) -> Seq<ComponentView>
    decreases items.len(),
{
    if items.len() == 0 {
        Seq::empty()
    } else {
        let prev = kept_components(items.drop_last());
        let x = items.last();
        match component_from_json(x) {
            Some(u) => prev.push(u),
            None => prev,
        }
    }
}

fn read_kept_components(v: &Vec<JsonValue>) -> (r: Vec<Component>)
    ensures
        components_view(r@) == kept_components(items_view(v@)),
{
    let ghost iv = items_view(v@);
    let mut out: Vec<Component> = Vec::new();
    let mut i: usize = 0;
    proof {
        assert(iv.take(0) =~= Seq::<JsonView>::empty());
        assert(components_view(out@) =~= Seq::empty());
    }
    while i < v.len()
        invariant
            i <= v@.len(),
            iv == items_view(v@),
            components_view(out@) == kept_components(iv.take(i as int)),
        decreases v@.len() - i,
    {
        proof {
            assert(iv.take(i + 1).drop_last() =~= iv.take(i as int));
            assert(iv.take(i + 1).last() == v@[i as int]@);
        }
        match Component::from_raw(&v[i]) {
            Some(u) => {
                let ghost before = out@;
                out.push(u);
                proof {
                    assert(components_view(out@) =~= components_view(before).push(u@));
                }
            },
            None => {},
        }
        i += 1;
    }
    proof {
        assert(iv.take(i as int) =~= iv);
    }
    out
}

/// The components read from the array under `key`; none when there is no array.
fn read_kept_components_at(raw: &JsonValue, key: &str) -> (r: Option<Vec<Component>>)
    ensures
        match json_array(json_index(raw@, key@)) {
            Some(items) => r matches Some(x) && components_view(x@) == kept_components(items),
            None => r is None,
        },
{
    match raw.get(key) {
        Some(x) => match x.as_array() {
            Some(items) => Some(read_kept_components(items)),
            None => None,
        },
        None => None,
    }
}

/// The sticker items that the items stand for, read in order; an item that
/// cannot be read is left out.
pub open spec fn kept_sticker_items(items: Seq<JsonView>) -> Seq<StickerItemView>
    decreases items.len(),
{
    if items.len() == 0 {
        Seq::empty()
    } else {
        let prev = kept_sticker_items(items.drop_last());
        let x = items.last();
        match match sticker_item_from_json(x) { Ok(u) => Some(u), Err(_) => None } {
            Some(u) => prev.push(u),
            None => prev,
        }
    }
}

fn read_kept_sticker_items(v: &Vec<JsonValue>) -> (r: Vec<StickerItem>)
    ensures
        sticker_items_view(r@) == kept_sticker_items(items_view(v@)),
{
    let ghost iv = items_view(v@);
    let mut out: Vec<StickerItem> = Vec::new();
    let mut i: usize = 0;
    proof {
        assert(iv.take(0) =~= Seq::<JsonView>::empty());
        assert(sticker_items_view(out@) =~= Seq::empty());
    }
    while i < v.len()
        invariant
            i <= v@.len(),
            iv == items_view(v@),
            sticker_items_view(out@) == kept_sticker_items(iv.take(i as int)),
        decreases v@.len() - i,
    {
        proof {
            assert(iv.take(i + 1).drop_last() =~= iv.take(i as int));
            assert(iv.take(i + 1).last() == v@[i as int]@);
        }
        match match StickerItem::from_raw(&v[i]) { Ok(u) => Some(u), Err(_) => None } {
            Some(u) => {
                let ghost before = out@;
                out.push(u);
                proof {
                    assert(sticker_items_view(out@) =~= sticker_items_view(before).push(u@));
                }
            },
            None => {},
        }
        i += 1;
    }
    proof {
        assert(iv.take(i as int) =~= iv);
    }
    out
}

/// The sticker items read from the array under `key`; none when there is no array.
fn read_kept_sticker_items_at(raw: &JsonValue, key: &str) -> (r: Option<Vec<StickerItem>>)
    ensures
        match json_array(json_index(raw@, key@)) {
            Some(items) => r matches Some(x) && sticker_items_view(x@) == kept_sticker_items(items),
            None => r is None,
        },
{
    match raw.get(key) {
        Some(x) => match x.as_array() {
            Some(items) => Some(read_kept_sticker_items(items)),
            None => None,
        },
        None => None,
    }
}

/// The reactions that the items stand for, read in order; an item that
/// cannot be read is left out.
pub open spec fn kept_reactions(items: Seq<JsonView>) -> Seq<ReactionView>
    decreases items.len(),
{
    if items.len() == 0 {
        Seq::empty()
    } else {
        let prev = kept_reactions(items.drop_last());
        let x = items.last();
        match match reaction_from_json(x) { Ok(u) => Some(u), Err(_) => None } {
            Some(u) => prev.push(u),
            None => prev,
        }
    }
}

fn read_kept_reactions(v: &Vec<JsonValue>) -> (r: Vec<Reaction>)
    ensures
        reactions_view(r@) == kept_reactions(items_view(v@)),
{
    let ghost iv = items_view(v@);
    let mut out: Vec<Reaction> = Vec::new();
    let mut i: usize = 0;
    proof {
        assert(iv.take(0) =~= Seq::<JsonView>::empty());
        assert(reactions_view(out@) =~= Seq::empty());
    }
    while i < v.len()
        invariant
            i <= v@.len(),
            iv == items_view(v@),
            reactions_view(out@) == kept_reactions(iv.take(i as int)),
        decreases v@.len() - i,
    {
        proof {
            assert(iv.take(i + 1).drop_last() =~= iv.take(i as int));
            assert(iv.take(i + 1).last() == v@[i as int]@);
        }
        match match Reaction::from_raw(&v[i]) { Ok(u) => Some(u), Err(_) => None } {
            Some(u) => {
                let ghost before = out@;
                out.push(u);
                proof {
                    assert(reactions_view(out@) =~= reactions_view(before).push(u@));
                }
            },
            None => {},
        }
        i += 1;
    }
    proof {
        assert(iv.take(i as int) =~= iv);
    }
    out
}

/// The reactions read from the array under `key`; none when there is no array.
fn read_kept_reactions_at(raw: &JsonValue, key: &str) -> (r: Option<Vec<Reaction>>)
    ensures
        match json_array(json_index(raw@, key@)) {
            Some(items) => r matches Some(x) && reactions_view(x@) == kept_reactions(items),
            None => r is None,
        },
{
    match raw.get(key) {
        Some(x) => match x.as_array() {
            Some(items) => Some(read_kept_reactions(items)),
            None => None,
        },
        None => None,
    }
}


// ----------------------------------------------------------------------
// Messages

/// A message of a channel.
#[derive(Debug, PartialEq, Eq)]
pub struct Message {
    pub id: Snowflake,
    pub channel_id: ChannelId,
    pub author: User,
    pub content: Option<String>,
    /// When the message was sent, in milliseconds since the UNIX epoch.
    pub timestamp: i64,
    /// When the message was edited, in milliseconds since the UNIX epoch.
    pub edited_timestamp: Option<i64>,
    /// Whether the message mentions everyone.
    pub mention_everyone: bool,
    /// The users the message mentions.
    pub mentions: Vec<User>,
    /// The channels the message mentions; only textual channels that everyone
    /// can see in a lurkable guild are listed.
    pub mention_channels: Option<Vec<ChannelMention>>,
    pub attachments: Vec<Attachment>,
    pub embeds: Vec<Embed>,
    pub sticker_items: Vec<StickerItem>,
    pub reactions: Vec<Reaction>,
    pub components: Vec<Component>,
    pub pinned: bool,
    pub webhook_id: Option<Snowflake>,
    pub kind: MessageType,
    pub application_id: Option<Snowflake>,
    pub message_reference: Option<MessageReference>,
    /// The flags of the message, ORed together.
    pub flags: Option<u64>,
    pub referenced_message: Option<Box<Message>>,
    pub interaction: Option<MessageInteraction>,
    /// The approximate position of the message in a thread.
    pub position: Option<u64>,
    pub role_subscription_data: Option<RoleSubscription>,
}

/// The values of a message, its texts taken as characters.
pub ghost struct MessageView {
    pub id: Seq<char>,
    pub channel_id: Seq<char>,
    pub author: UserView,
    pub content: Option<Seq<char>>,
    pub timestamp: i64,
    pub edited_timestamp: Option<i64>,
    pub mention_everyone: bool,
    pub mentions: Seq<UserView>,
    pub mention_channels: Option<Seq<ChannelMentionView>>,
    pub attachments: Seq<AttachmentView>,
    pub embeds: Seq<EmbedView>,
    pub sticker_items: Seq<StickerItemView>,
    pub reactions: Seq<ReactionView>,
    pub components: Seq<ComponentView>,
    pub pinned: bool,
    pub webhook_id: Option<Seq<char>>,
    pub kind: MessageType,
    pub application_id: Option<Seq<char>>,
    pub message_reference: Option<MessageReferenceView>,
    pub flags: Option<u64>,
    pub referenced_message: Option<Box<MessageView>>,
    pub interaction: Option<MessageInteractionView>,
    pub position: Option<u64>,
    pub role_subscription_data: Option<RoleSubscriptionView>,
}

/// The view of a message.
pub open spec fn message_view(m: Message) -> MessageView
    decreases m,
{
    MessageView {
        id: m.id@,
        channel_id: m.channel_id@,
        author: m.author@,
        content: opt_view(m.content),
        timestamp: m.timestamp,
        edited_timestamp: m.edited_timestamp,
        mention_everyone: m.mention_everyone,
        mentions: users_view(m.mentions@),
        mention_channels: opt_channel_mentions_view(m.mention_channels),
        attachments: attachments_view(m.attachments@),
        embeds: embeds_view(m.embeds@),
        sticker_items: sticker_items_view(m.sticker_items@),
        reactions: reactions_view(m.reactions@),
        components: components_view(m.components@),
        pinned: m.pinned,
        webhook_id: opt_snowflake_view(m.webhook_id),
        kind: m.kind,
        application_id: opt_snowflake_view(m.application_id),
        message_reference: opt_message_reference_view(m.message_reference),
        flags: m.flags,
        referenced_message: match m.referenced_message { Some(b) => Some(Box::new(message_view(*b))), None => None },
        interaction: opt_message_interaction_view(m.interaction),
        position: m.position,
        role_subscription_data: opt_role_subscription_view(m.role_subscription_data),
    }
}

impl View for Message {
    type V = MessageView;

    open spec fn view(&self) -> MessageView {
        message_view(*self)
    }
}

pub open spec fn opt_message_view(o: Option<Box<Message>>) -> Option<Box<MessageView>> {
    match o {
        Some(b) => Some(Box::new(message_view(*b))),
        None => None,
    }
}

impl Message {
    /// Whether two messages hold the same values.
    pub fn same(&self, other: &Message) -> (r: bool)
        ensures
            r == (self@ == other@),
        decreases self,
    {
        let a = self;
        let b = other;
        if !(a.id == b.id) {
            return false;
        }
        if !(a.channel_id == b.channel_id) {
            return false;
        }
        if !(a.author.same(&b.author)) {
            return false;
        }
        if !(opt_str_eq(&a.content, &b.content)) {
            return false;
        }
        if !(a.timestamp == b.timestamp) {
            return false;
        }
        if !(a.edited_timestamp == b.edited_timestamp) {
            return false;
        }
        if !(a.mention_everyone == b.mention_everyone) {
            return false;
        }
        if !(users_eq(&a.mentions, &b.mentions)) {
            return false;
        }
        if !(opt_channel_mentions_eq(&a.mention_channels, &b.mention_channels)) {
            return false;
        }
        if !(attachments_eq(&a.attachments, &b.attachments)) {
            return false;
        }
        if !(embeds_eq(&a.embeds, &b.embeds)) {
            return false;
        }
        if !(sticker_items_eq(&a.sticker_items, &b.sticker_items)) {
            return false;
        }
        if !(reactions_eq(&a.reactions, &b.reactions)) {
            return false;
        }
        if !(components_same(&a.components, &b.components)) {
            return false;
        }
        if !(a.pinned == b.pinned) {
            return false;
        }
        if !(a.webhook_id == b.webhook_id) {
            return false;
        }
        if !(a.kind == b.kind) {
            return false;
        }
        if !(a.application_id == b.application_id) {
            return false;
        }
        if !(opt_message_reference_eq(&a.message_reference, &b.message_reference)) {
            return false;
        }
        if !(a.flags == b.flags) {
            return false;
        }
        if !(opt_message_same(&a.referenced_message, &b.referenced_message)) {
            return false;
        }
        if !(opt_message_interaction_eq(&a.interaction, &b.interaction)) {
            return false;
        }
        if !(a.position == b.position) {
            return false;
        }
        if !(opt_role_subscription_eq(&a.role_subscription_data, &b.role_subscription_data)) {
            return false;
        }
        true
    }

    /// A copy of the message.
    pub fn duplicate(&self) -> (r: Message)
        ensures
            r@ == self@,
        decreases self,
    {
        let x = self;
        Message {
            id: x.id.clone(),
            channel_id: x.channel_id.clone(),
            author: x.author.clone(),
            content: x.content.clone(),
            timestamp: x.timestamp,
            edited_timestamp: x.edited_timestamp,
            mention_everyone: x.mention_everyone,
            mentions: clone_users(&x.mentions),
            mention_channels: clone_opt_channel_mentions(&x.mention_channels),
            attachments: clone_attachments(&x.attachments),
            embeds: clone_embeds(&x.embeds),
            sticker_items: clone_sticker_items(&x.sticker_items),
            reactions: clone_reactions(&x.reactions),
            components: clone_components(&x.components),
            pinned: x.pinned,
            webhook_id: x.webhook_id.clone(),
            kind: x.kind,
            application_id: x.application_id.clone(),
            message_reference: clone_opt_message_reference(&x.message_reference),
            flags: x.flags,
            referenced_message: clone_opt_message(&x.referenced_message),
            interaction: clone_opt_message_interaction(&x.interaction),
            position: x.position,
            role_subscription_data: clone_opt_role_subscription(&x.role_subscription_data),
        }
    }
}

/// Whether two optional messages hold the same values.
pub fn opt_message_same(a: &Option<Box<Message>>, b: &Option<Box<Message>>) -> (r: bool)
    ensures
        r == (opt_message_view(*a) == opt_message_view(*b)),
    decreases a,
{
    match (a, b) {
        (Some(x), Some(y)) => {
            let r = x.same(y);
            proof {
                if !r {
                    assert(opt_message_view(*a).unwrap() != opt_message_view(*b).unwrap());
                }
            }
            r
        },
        (None, None) => true,
        _ => false,
    }
}

/// A copy of an optional message.
pub fn clone_opt_message(a: &Option<Box<Message>>) -> (r: Option<Box<Message>>)
    ensures
        opt_message_view(r) == opt_message_view(*a),
    decreases a,
{
    match a {
        Some(x) => Some(Box::new(x.duplicate())),
        None => None,
    }
}

impl Clone for Message {
    fn clone(&self) -> (r: Message)
        ensures
            r@ == self@,
    {
        self.duplicate()
    }
}

impl Message {
    /// Takes the fields `id`, `channel_id`, `content`, `timestamp`, `edited_timestamp`, `mention_everyone` of a fresher copy.
    fn update_part_1(&mut self, from: &Self)
        ensures
            final(self).id@ == from.id@,
            final(self).channel_id@ == from.channel_id@,
            final(self).author@ == old(self).author@,
            opt_view(final(self).content) == opt_view(from.content),
            final(self).timestamp == from.timestamp,
            final(self).edited_timestamp == from.edited_timestamp,
            final(self).mention_everyone == from.mention_everyone,
            users_view(final(self).mentions@) == users_view(old(self).mentions@),
            opt_channel_mentions_view(final(self).mention_channels) == opt_channel_mentions_view(old(self).mention_channels),
            attachments_view(final(self).attachments@) == attachments_view(old(self).attachments@),
            embeds_view(final(self).embeds@) == embeds_view(old(self).embeds@),
            sticker_items_view(final(self).sticker_items@) == sticker_items_view(old(self).sticker_items@),
            reactions_view(final(self).reactions@) == reactions_view(old(self).reactions@),
            components_view(final(self).components@) == components_view(old(self).components@),
            final(self).pinned == old(self).pinned,
            opt_snowflake_view(final(self).webhook_id) == opt_snowflake_view(old(self).webhook_id),
            final(self).kind == old(self).kind,
            opt_snowflake_view(final(self).application_id) == opt_snowflake_view(old(self).application_id),
            opt_message_reference_view(final(self).message_reference) == opt_message_reference_view(old(self).message_reference),
            final(self).flags == old(self).flags,
            opt_message_view(final(self).referenced_message) == opt_message_view(old(self).referenced_message),
            opt_message_interaction_view(final(self).interaction) == opt_message_interaction_view(old(self).interaction),
            final(self).position == old(self).position,
            opt_role_subscription_view(final(self).role_subscription_data) == opt_role_subscription_view(old(self).role_subscription_data),
    {
        if !(self.id == from.id) {
            self.id = from.id.clone();
        }
        if !(self.channel_id == from.channel_id) {
            self.channel_id = from.channel_id.clone();
        }
        if !(opt_str_eq(&self.content, &from.content)) {
            self.content = from.content.clone();
        }
        if !(self.timestamp == from.timestamp) {
            self.timestamp = from.timestamp;
        }
        if !(self.edited_timestamp == from.edited_timestamp) {
            self.edited_timestamp = from.edited_timestamp;
        }
        if !(self.mention_everyone == from.mention_everyone) {
            self.mention_everyone = from.mention_everyone;
        }
    }

    /// Takes the fields `mentions`, `mention_channels`, `attachments`, `embeds`, `sticker_items`, `reactions` of a fresher copy.
    fn update_part_2(&mut self, from: &Self)
        ensures
            final(self).id@ == old(self).id@,
            final(self).channel_id@ == old(self).channel_id@,
            final(self).author@ == old(self).author@,
            opt_view(final(self).content) == opt_view(old(self).content),
            final(self).timestamp == old(self).timestamp,
            final(self).edited_timestamp == old(self).edited_timestamp,
            final(self).mention_everyone == old(self).mention_everyone,
            users_view(final(self).mentions@) == users_view(from.mentions@),
            opt_channel_mentions_view(final(self).mention_channels) == opt_channel_mentions_view(from.mention_channels),
            attachments_view(final(self).attachments@) == attachments_view(from.attachments@),
            embeds_view(final(self).embeds@) == embeds_view(from.embeds@),
            sticker_items_view(final(self).sticker_items@) == sticker_items_view(from.sticker_items@),
            reactions_view(final(self).reactions@) == reactions_view(from.reactions@),
            components_view(final(self).components@) == components_view(old(self).components@),
            final(self).pinned == old(self).pinned,
            opt_snowflake_view(final(self).webhook_id) == opt_snowflake_view(old(self).webhook_id),
            final(self).kind == old(self).kind,
            opt_snowflake_view(final(self).application_id) == opt_snowflake_view(old(self).application_id),
            opt_message_reference_view(final(self).message_reference) == opt_message_reference_view(old(self).message_reference),
            final(self).flags == old(self).flags,
            opt_message_view(final(self).referenced_message) == opt_message_view(old(self).referenced_message),
            opt_message_interaction_view(final(self).interaction) == opt_message_interaction_view(old(self).interaction),
            final(self).position == old(self).position,
            opt_role_subscription_view(final(self).role_subscription_data) == opt_role_subscription_view(old(self).role_subscription_data),
    {
        if !(users_eq(&self.mentions, &from.mentions)) {
            self.mentions = clone_users(&from.mentions);
        }
        if !(opt_channel_mentions_eq(&self.mention_channels, &from.mention_channels)) {
            self.mention_channels = clone_opt_channel_mentions(&from.mention_channels);
        }
        if !(attachments_eq(&self.attachments, &from.attachments)) {
            self.attachments = clone_attachments(&from.attachments);
        }
        if !(embeds_eq(&self.embeds, &from.embeds)) {
            self.embeds = clone_embeds(&from.embeds);
        }
        if !(sticker_items_eq(&self.sticker_items, &from.sticker_items)) {
            self.sticker_items = clone_sticker_items(&from.sticker_items);
        }
        if !(reactions_eq(&self.reactions, &from.reactions)) {
            self.reactions = clone_reactions(&from.reactions);
        }
    }

    /// Takes the fields `components`, `pinned`, `webhook_id`, `kind`, `application_id`, `message_reference` of a fresher copy.
    fn update_part_3(&mut self, from: &Self)
        ensures
            final(self).id@ == old(self).id@,
            final(self).channel_id@ == old(self).channel_id@,
            final(self).author@ == old(self).author@,
            opt_view(final(self).content) == opt_view(old(self).content),
            final(self).timestamp == old(self).timestamp,
            final(self).edited_timestamp == old(self).edited_timestamp,
            final(self).mention_everyone == old(self).mention_everyone,
            users_view(final(self).mentions@) == users_view(old(self).mentions@),
            opt_channel_mentions_view(final(self).mention_channels) == opt_channel_mentions_view(old(self).mention_channels),
            attachments_view(final(self).attachments@) == attachments_view(old(self).attachments@),
            embeds_view(final(self).embeds@) == embeds_view(old(self).embeds@),
            sticker_items_view(final(self).sticker_items@) == sticker_items_view(old(self).sticker_items@),
            reactions_view(final(self).reactions@) == reactions_view(old(self).reactions@),
            components_view(final(self).components@) == components_view(from.components@),
            final(self).pinned == from.pinned,
            opt_snowflake_view(final(self).webhook_id) == opt_snowflake_view(from.webhook_id),
            final(self).kind == from.kind,
            opt_snowflake_view(final(self).application_id) == opt_snowflake_view(from.application_id),
            opt_message_reference_view(final(self).message_reference) == opt_message_reference_view(from.message_reference),
            final(self).flags == old(self).flags,
            opt_message_view(final(self).referenced_message) == opt_message_view(old(self).referenced_message),
            opt_message_interaction_view(final(self).interaction) == opt_message_interaction_view(old(self).interaction),
            final(self).position == old(self).position,
            opt_role_subscription_view(final(self).role_subscription_data) == opt_role_subscription_view(old(self).role_subscription_data),
    {
        if !(components_same(&self.components, &from.components)) {
            self.components = clone_components(&from.components);
        }
        if !(self.pinned == from.pinned) {
            self.pinned = from.pinned;
        }
        if !(self.webhook_id == from.webhook_id) {
            self.webhook_id = from.webhook_id.clone();
        }
        if !(self.kind == from.kind) {
            self.kind = from.kind;
        }
        if !(self.application_id == from.application_id) {
            self.application_id = from.application_id.clone();
        }
        if !(opt_message_reference_eq(&self.message_reference, &from.message_reference)) {
            self.message_reference = clone_opt_message_reference(&from.message_reference);
        }
    }

    /// Takes the fields `flags`, `referenced_message`, `interaction`, `position`, `role_subscription_data` of a fresher copy.
    fn update_part_4(&mut self, from: &Self)
        ensures
            final(self).id@ == old(self).id@,
            final(self).channel_id@ == old(self).channel_id@,
            final(self).author@ == old(self).author@,
            opt_view(final(self).content) == opt_view(old(self).content),
            final(self).timestamp == old(self).timestamp,
            final(self).edited_timestamp == old(self).edited_timestamp,
            final(self).mention_everyone == old(self).mention_everyone,
            users_view(final(self).mentions@) == users_view(old(self).mentions@),
            opt_channel_mentions_view(final(self).mention_channels) == opt_channel_mentions_view(old(self).mention_channels),
            attachments_view(final(self).attachments@) == attachments_view(old(self).attachments@),
            embeds_view(final(self).embeds@) == embeds_view(old(self).embeds@),
            sticker_items_view(final(self).sticker_items@) == sticker_items_view(old(self).sticker_items@),
            reactions_view(final(self).reactions@) == reactions_view(old(self).reactions@),
            components_view(final(self).components@) == components_view(old(self).components@),
            final(self).pinned == old(self).pinned,
            opt_snowflake_view(final(self).webhook_id) == opt_snowflake_view(old(self).webhook_id),
            final(self).kind == old(self).kind,
            opt_snowflake_view(final(self).application_id) == opt_snowflake_view(old(self).application_id),
            opt_message_reference_view(final(self).message_reference) == opt_message_reference_view(old(self).message_reference),
            final(self).flags == from.flags,
            opt_message_view(final(self).referenced_message) == opt_message_view(from.referenced_message),
            opt_message_interaction_view(final(self).interaction) == opt_message_interaction_view(from.interaction),
            final(self).position == from.position,
            opt_role_subscription_view(final(self).role_subscription_data) == opt_role_subscription_view(from.role_subscription_data),
    {
        if !(self.flags == from.flags) {
            self.flags = from.flags;
        }
        if !(opt_message_same(&self.referenced_message, &from.referenced_message)) {
            self.referenced_message = clone_opt_message(&from.referenced_message);
        }
        if !(opt_message_interaction_eq(&self.interaction, &from.interaction)) {
            self.interaction = clone_opt_message_interaction(&from.interaction);
        }
        if !(self.position == from.position) {
            self.position = from.position;
        }
        if !(opt_role_subscription_eq(&self.role_subscription_data, &from.role_subscription_data)) {
            self.role_subscription_data = clone_opt_role_subscription(&from.role_subscription_data);
        }
    }
}

impl UpdateCache for Message {
    fn update(&mut self, from: &Self)
        ensures
            final(self)@ == from@,
    {
        self.update_part_1(from);
        self.update_part_2(from);
        self.update_part_3(from);
        self.update_part_4(from);
        self.author.update(&from.author);
    }
}

/// The time a message was sent: the number of milliseconds in its payload,
/// which the calendar must hold; the time of reading when there is no such
/// number.
pub open spec fn sent_time(v: JsonView, now: i64) -> Result<i64, ModelErrorKind> {
    match json_u64(json_index(v, "timestamp"@)) {
        Some(ts) => if utc_millis_in_range(ts as i64) { Ok(ts as i64) } else { Err(ModelErrorKind::InvalidTimestamp) },
        None => Ok(now),
    }
}

/// The time a message was edited: a date text that `chrono` must read, or
/// none when there is no text.
pub open spec fn edited_time(v: JsonView) -> Result<Option<i64>, ModelErrorKind> {
    match json_str(json_index(v, "edited_timestamp"@)) {
        Some(t) => match parsed_datetime_millis(t) {
            Some(ms) => Ok(Some(ms)),
            None => Err(ModelErrorKind::InvalidTimestamp),
        },
        None => Ok(None),
    }
}

/// A list read from an array; empty when there is no array.
pub open spec fn or_empty<T>(o: Option<Seq<T>>) -> Seq<T> {
    match o {
        Some(s) => s,
        None => Seq::empty(),
    }
}

/// The message a payload stands for, read at the time `now`. The id, the
/// channel id, the author, the times and the type must be read, in this
/// order; every list keeps the items it can read; the other parts are none
/// when they cannot be read.
/// Whether the fields read before the type of a message (its id, channel,
/// author and times) can be read.
pub open spec fn message_head_ok(v: JsonView, now: i64) -> bool {
    &&& snowflake_from_json(json_index(v, "id"@)) is Ok
    &&& snowflake_from_json(json_index(v, "channel_id"@)) is Ok
    &&& user_from_json(json_index(v, "author"@)) is Ok
    &&& sent_time(v, now) is Ok
    &&& edited_time(v) is Ok
}

pub open spec fn message_from_json(v: JsonView, now: i64) -> Result<MessageView, ModelErrorKind>
    decreases v,
    via message_from_json_decreases
{
    match snowflake_from_json(json_index(v, "id"@)) {
        Err(e) => Err(e),
        Ok(id) => match snowflake_from_json(json_index(v, "channel_id"@)) {
            Err(e) => Err(e),
            Ok(channel_id) => match user_from_json(json_index(v, "author"@)) {
                Err(e) => Err(e),
                Ok(author) => match sent_time(v, now) {
                    Err(e) => Err(e),
                    Ok(timestamp) => match edited_time(v) {
                        Err(e) => Err(e),
                        Ok(edited_timestamp) => match json_get(v, "type"@) {
                            None => Err(ModelErrorKind::InvalidPayload),
                            Some(t) => match message_type_from_json(t) {
                                Err(e) => Err(e),
                                Ok(kind) => Ok(MessageView {
                                    id,
                                    channel_id,
                                    author,
                                    content: json_str(json_index(v, "content"@)),
                                    timestamp,
                                    edited_timestamp,
                                    mention_everyone: match json_bool(json_index(v, "mention_everyone"@)) { Some(b) => b, None => false },
                                    mentions: or_empty(match json_array(json_index(v, "mentions"@)) { Some(items) => Some(kept_users(items)), None => None }),
                                    mention_channels: match json_array(json_index(v, "mention_channels"@)) { Some(items) => Some(kept_channel_mentions(items)), None => None },
                                    attachments: or_empty(match json_array(json_index(v, "attachments"@)) { Some(items) => Some(kept_attachments(items)), None => None }),
                                    embeds: or_empty(match json_array(json_index(v, "embeds"@)) { Some(items) => Some(kept_embeds(items)), None => None }),
                                    sticker_items: or_empty(match json_array(json_index(v, "sticker_items"@)) { Some(items) => Some(kept_sticker_items(items)), None => None }),
                                    reactions: or_empty(match json_array(json_index(v, "reactions"@)) { Some(items) => Some(kept_reactions(items)), None => None }),
                                    components: or_empty(match json_array(json_index(v, "components"@)) { Some(items) => Some(kept_components(items)), None => None }),
                                    pinned: match json_bool(json_index(v, "pinned"@)) { Some(b) => b, None => false },
                                    webhook_id: json_str(json_index(v, "webhook_id"@)),
                                    kind,
                                    application_id: json_str(json_index(v, "application_id"@)),
                                    message_reference: match json_get(v, "message_reference"@) {
                                        Some(x) => match message_reference_from_json(x) { Ok(r) => Some(r), Err(_) => None },
                                        None => None,
                                    },
                                    flags: json_u64(json_index(v, "flags"@)),
                                    referenced_message: match json_get(v, "referenced_message"@) {
                                        Some(x) => match message_from_json(x, now) { Ok(m) => Some(Box::new(m)), Err(_) => None },
                                        None => None,
                                    },
                                    interaction: match json_get(v, "interaction"@) {
                                        Some(x) => match message_interaction_from_json(x) { Ok(r) => Some(r), Err(_) => None },
                                        None => None,
                                    },
                                    position: json_u64(json_index(v, "position"@)),
                                    role_subscription_data: match json_get(v, "role_subscription_data"@) {
                                        Some(x) => match role_subscription_from_json(x) { Ok(r) => Some(r), Err(_) => None },
                                        None => None,
                                    },
                                }),
                            },
                        },
                    },
                },
            },
        },
    }
}

#[via_fn]
proof fn message_from_json_decreases(v: JsonView, now: i64) {
    lemma_get_smaller(v, "referenced_message"@);
}

fn read_sent_time(raw: &JsonValue, now: i64) -> (r: Result<i64, ModelError>)
    ensures
        match (r, sent_time(raw@, now)) {
            (Ok(x), Ok(s)) => x == s,
            (Err(e), Err(k)) => kind_of(e) == k,
            _ => false,
        },
{
    match get_u64(raw, "timestamp") {
        Some(ts) => if millis_in_range(ts as i64) {
            Ok(ts as i64)
        } else {
            Err(ModelError::InvalidTimestamp(String::from_str("Invalid timestamp")))
        },
        None => Ok(now),
    }
}

fn read_edited_time(raw: &JsonValue) -> (r: Result<Option<i64>, ModelError>)
    ensures
        match (r, edited_time(raw@)) {
            (Ok(x), Ok(s)) => x == s,
            (Err(e), Err(k)) => kind_of(e) == k,
            _ => false,
        },
{
    match get_str(raw, "edited_timestamp") {
        Some(t) => match parse_datetime_millis(t) {
            Some(ms) => Ok(Some(ms)),
            None => Err(ModelError::InvalidTimestamp(String::from_str("Invalid timestamp"))),
        },
        None => Ok(None),
    }
}

fn bool_or_false(raw: &JsonValue, key: &str) -> (r: bool)
    ensures
        r == match json_bool(json_index(raw@, key@)) { Some(b) => b, None => false },
{
    match opt_bool_at(raw, key) {
        Some(b) => b,
        None => false,
    }
}

fn snowflake_at(raw: &JsonValue, key: &str) -> (r: Option<Snowflake>)
    ensures
        opt_snowflake_view(r) == json_str(json_index(raw@, key@)),
{
    match get_str(raw, key) {
        Some(s) => Some(Snowflake(String::from_str(s))),
        None => None,
    }
}

impl Message {
    /// Reads a message from a payload, at the time `now`, in milliseconds
    /// since the UNIX epoch, which stands for a payload without a sending
    /// time.
    pub fn from_raw_at(raw: &JsonValue, now: i64) -> (r: Result<Message, ModelError>)
        ensures
            read_as(r, message_from_json(raw@, now)),
            message_head_ok(raw@, now) && json_get(raw@, "type"@) is None ==> (r matches Err(
                ModelError::InvalidPayload(t),
            ) && t@ == "Message"@),
        decreases raw,
    {
        let id = read_snowflake(raw, "id")?;
        let channel_id = ChannelId(read_snowflake(raw, "channel_id")?);
        let null = JsonValue::Null;
        let author = User::from_raw(index(raw, "author", &null))?;
        let content = opt_str_at(raw, "content");
        let timestamp = read_sent_time(raw, now)?;
        let edited_timestamp = read_edited_time(raw)?;
        let mention_everyone = bool_or_false(raw, "mention_everyone");
        let mentions = match read_kept_users_at(raw, "mentions") { Some(v) => v, None => Vec::new() };
        let mention_channels = read_kept_channel_mentions_at(raw, "mention_channels");
        let attachments = match read_kept_attachments_at(raw, "attachments") { Some(v) => v, None => Vec::new() };
        let embeds = match read_kept_embeds_at(raw, "embeds") { Some(v) => v, None => Vec::new() };
        let components = match read_kept_components_at(raw, "components") { Some(v) => v, None => Vec::new() };
        let sticker_items = match read_kept_sticker_items_at(raw, "sticker_items") { Some(v) => v, None => Vec::new() };
        let reactions = match read_kept_reactions_at(raw, "reactions") { Some(v) => v, None => Vec::new() };
        let pinned = bool_or_false(raw, "pinned");
        let webhook_id = snowflake_at(raw, "webhook_id");
        let kind = match raw.get("type") {
            Some(t) => MessageType::from_raw(t)?,
            None => return Err(ModelError::InvalidPayload(String::from_str("Message"))),
        };
        let application_id = snowflake_at(raw, "application_id");
        let message_reference = match raw.get("message_reference") {
            Some(x) => match MessageReference::from_raw(x) {
                Ok(r) => Some(r),
                Err(_) => None,
            },
            None => None,
        };
        let flags = get_u64(raw, "flags");
        let referenced_message = match raw.get("referenced_message") {
            Some(x) => match Message::from_raw_at(x, now) {
                Ok(m) => Some(Box::new(m)),
                Err(_) => None,
            },
            None => None,
        };
        let interaction = match raw.get("interaction") {
            Some(x) => match MessageInteraction::from_raw(x) {
                Ok(r) => Some(r),
                Err(_) => None,
            },
            None => None,
        };
        let position = get_u64(raw, "position");
        let role_subscription_data = match raw.get("role_subscription_data") {
            Some(x) => match RoleSubscription::from_raw(x) {
                Ok(r) => Some(r),
                Err(_) => None,
            },
            None => None,
        };
        let m = Message {
            id,
            channel_id,
            author,
            content,
            timestamp,
            edited_timestamp,
            mention_everyone,
            mentions,
            mention_channels,
            attachments,
            embeds,
            sticker_items,
            reactions,
            components,
            pinned,
            webhook_id,
            kind,
            application_id,
            message_reference,
            flags,
            referenced_message,
            interaction,
            position,
            role_subscription_data,
        };
        proof {
            let s = message_from_json(raw@, now).unwrap();
            assert(m@.id == s.id);
            assert(m@.channel_id == s.channel_id);
            assert(m@.author == s.author);
            assert(m@.content == s.content);
            assert(m@.timestamp == s.timestamp);
            assert(m@.edited_timestamp == s.edited_timestamp);
            assert(m@.mention_everyone == s.mention_everyone);
            assert(m@.mentions == s.mentions);
            assert(m@.mention_channels == s.mention_channels);
            assert(m@.attachments == s.attachments);
            assert(m@.embeds == s.embeds);
            assert(m@.sticker_items == s.sticker_items);
            assert(m@.reactions == s.reactions);
            assert(m@.components == s.components);
            assert(m@.pinned == s.pinned);
            assert(m@.webhook_id == s.webhook_id);
            assert(m@.kind == s.kind);
            assert(m@.application_id == s.application_id);
            assert(m@.message_reference == s.message_reference);
            assert(m@.flags == s.flags);
            assert(m@.referenced_message == s.referenced_message);
            assert(m@.interaction == s.interaction);
            assert(m@.position == s.position);
            assert(m@.role_subscription_data == s.role_subscription_data);
        }
        Ok(m)
    }

    /// Reads a message from a payload; a payload without a sending time is
    /// stamped with the time of reading, which is all the contract leaves
    /// open.
    pub fn from_raw(raw: &JsonValue) -> (r: Result<Message, ModelError>)
        ensures
            exists|now: i64| #[trigger] read_as(r, message_from_json(raw@, now))
                && (message_head_ok(raw@, now) && json_get(raw@, "type"@) is None ==> (r matches Err(
                ModelError::InvalidPayload(t),
            ) && t@ == "Message"@)),
    {
        let now = now_millis();
        let r = Message::from_raw_at(raw, now);
        assert(read_as(r, message_from_json(raw@, now)));
        r
    }
}

// ----------------------------------------------------------------------
// Flags

/// The flags of a message, ORed together.
#[derive(Debug)]
pub struct MessageFlags(pub u64);

/// The flags after each of `flags` was added, in order.
pub open spec fn or_all(bits: u64, flags: Seq<u64>) -> u64
    decreases flags.len(),
{
    if flags.len() == 0 {
        bits
    } else {
        or_all(bits, flags.drop_last()) | flags.last()
    }
}

/// The flags after each of `flags` was taken away, in order.
pub open spec fn clear_all(bits: u64, flags: Seq<u64>) -> u64
    decreases flags.len(),
{
    if flags.len() == 0 {
        bits
    } else {
        clear_all(bits, flags.drop_last()) & !flags.last()
    }
}

impl Default for MessageFlags {
    fn default() -> (r: MessageFlags)
        ensures
            r.0 == 0,
    {
        MessageFlags(0)
    }
}

impl MessageFlags {
    /// No flag.
    pub fn new() -> (r: MessageFlags)
        ensures
            r.0 == 0,
    {
        MessageFlags::default()
    }

    /// Whether no flag is set.
    pub fn is_empty(&self) -> (r: bool)
        ensures
            r == (self.0 == 0),
    {
        self.0 == 0
    }

    /// Adds a flag.
    pub fn add_flag(&mut self, flag: u64)
        ensures
            final(self).0 == old(self).0 | flag,
    {
        self.0 = self.0 | flag;
    }

    /// Adds flags, in order.
    pub fn add_flags(&mut self, flags: &[u64])
        ensures
            final(self).0 == or_all(old(self).0, flags@),
    {
        let ghost start = self.0;
        let mut i: usize = 0;
        while i < flags.len()
            invariant
                i <= flags@.len(),
                self.0 == or_all(start, flags@.take(i as int)),
            decreases flags@.len() - i,
        {
            proof {
                assert(flags@.take(i + 1).drop_last() =~= flags@.take(i as int));
            }
            self.add_flag(flags[i]);
            i += 1;
        }
        proof {
            assert(flags@.take(flags@.len() as int) =~= flags@);
        }
    }

    /// Takes a flag away.
    pub fn remove_flag(&mut self, flag: u64)
        ensures
            final(self).0 == old(self).0 & !flag,
    {
        self.0 = self.0 & !flag;
    }

    /// Takes flags away, in order.
    pub fn remove_flags(&mut self, flags: &[u64])
        ensures
            final(self).0 == clear_all(old(self).0, flags@),
    {
        let ghost start = self.0;
        let mut i: usize = 0;
        while i < flags.len()
            invariant
                i <= flags@.len(),
                self.0 == clear_all(start, flags@.take(i as int)),
            decreases flags@.len() - i,
        {
            proof {
                assert(flags@.take(i + 1).drop_last() =~= flags@.take(i as int));
            }
            self.remove_flag(flags[i]);
            i += 1;
        }
        proof {
            assert(flags@.take(flags@.len() as int) =~= flags@);
        }
    }

    /// The flags as the API takes them: their number.
    pub fn to_json(&self) -> (r: JsonValue)
        ensures
            r@ == json_num(self.0),
    {
        number_value(self.0)
    }
}

/// Adding a flag sets its bits, and keeps the others.
pub proof fn law_add_flag_sets(bits: u64, flag: u64)
    ensures
        (bits | flag) & flag == flag,
        (bits | flag) & bits == bits,
{
    assert((bits | flag) & flag == flag) by (bit_vector);
    assert((bits | flag) & bits == bits) by (bit_vector);
}

/// Taking a flag away clears its bits, and keeps the others.
pub proof fn law_remove_flag_clears(bits: u64, flag: u64)
    ensures
        (bits & !flag) & flag == 0,
        (bits & !flag) & !flag == bits & !flag,
        (bits & !flag) | (bits & flag) == bits,
{
    assert((bits & !flag) & flag == 0) by (bit_vector);
    assert((bits & !flag) & !flag == bits & !flag) by (bit_vector);
    assert((bits & !flag) | (bits & flag) == bits) by (bit_vector);
}

/// Taking away a flag that was just added gives the flags back, when none
/// of its bits were set before.
pub proof fn law_add_then_remove(bits: u64, flag: u64)
    requires
        bits & flag == 0,
    ensures
        (bits | flag) & !flag == bits,
{
    assert(bits & flag == 0 ==> (bits | flag) & !flag == bits) by (bit_vector);
}

// ----------------------------------------------------------------------
// Allowed mentions

pub open spec fn user_ids_view(s: Seq<UserId>) -> Seq<Seq<char>> {
    s.map_values(|u: UserId| u@)
}

/// Whom a message may mention.
#[derive(Debug)]
pub struct AllowedMentions {
    pub roles: Vec<Snowflake>,
    pub users: Vec<UserId>,
    pub everyone: bool,
}

pub ghost struct AllowedMentionsView {
    pub roles: Seq<Seq<char>>,
    pub users: Seq<Seq<char>>,
    pub everyone: bool,
}

impl View for AllowedMentions {
    type V = AllowedMentionsView;

    open spec fn view(&self) -> AllowedMentionsView {
        AllowedMentionsView { roles: snowflakes_view(self.roles@), users: user_ids_view(self.users@), everyone: self.everyone }
    }
}

impl Clone for AllowedMentions {
    fn clone(&self) -> (r: AllowedMentions)
        ensures
            r@ == self@,
    {
        let users = self.users.clone();
        proof {
            assert(user_ids_view(users@) =~= user_ids_view(self.users@));
        }
        AllowedMentions { roles: clone_snowflakes(&self.roles), users, everyone: self.everyone }
    }
}

impl Default for AllowedMentions {
    fn default() -> (r: AllowedMentions)
        ensures
            r@ == (AllowedMentionsView { roles: Seq::empty(), users: Seq::empty(), everyone: false }),
    {
        let r = AllowedMentions { roles: Vec::new(), users: Vec::new(), everyone: false };
        proof {
            assert(snowflakes_view(r.roles@) =~= Seq::empty());
            assert(user_ids_view(r.users@) =~= Seq::empty());
        }
        r
    }
}

impl AllowedMentions {
    /// No role, no user, not everyone.
    pub fn new() -> (r: AllowedMentions)
        ensures
            r@ == (AllowedMentionsView { roles: Seq::empty(), users: Seq::empty(), everyone: false }),
    {
        AllowedMentions::default()
    }

    /// Allows a role to be mentioned.
    pub fn add_role(&mut self, role: Snowflake)
        ensures
            final(self)@ == (AllowedMentionsView { roles: old(self)@.roles.push(role@), ..old(self)@ }),
    {
        let ghost before = self.roles@;
        let ghost rv = role@;
        self.roles.push(role);
        proof {
            assert(snowflakes_view(self.roles@) =~= snowflakes_view(before).push(rv));
        }
    }

    /// Allows a user to be mentioned.
    pub fn add_user(&mut self, user: UserId)
        ensures
            final(self)@ == (AllowedMentionsView { users: old(self)@.users.push(user@), ..old(self)@ }),
    {
        let ghost before = self.users@;
        let ghost uv = user@;
        self.users.push(user);
        proof {
            assert(user_ids_view(self.users@) =~= user_ids_view(before).push(uv));
        }
    }

    /// Allows `@everyone`.
    pub fn allow_everyone(&mut self)
        ensures
            final(self)@ == (AllowedMentionsView { everyone: true, ..old(self)@ }),
    {
        self.everyone = true;
    }

    /// Forbids `@everyone`.
    pub fn disallow_everyone(&mut self)
        ensures
            final(self)@ == (AllowedMentionsView { everyone: false, ..old(self)@ }),
    {
        self.everyone = false;
    }
}

/// A list of user ids as an array of strings.
fn user_ids_json(v: &Vec<UserId>) -> (r: JsonValue)
    ensures
        r@ == strings_json(user_ids_view(v@)),
{
    let mut items: Vec<JsonValue> = Vec::new();
    let mut i: usize = 0;
    while i < v.len()
        invariant
            i <= v@.len(),
            items@.len() == i,
            forall|j: int| 0 <= j < i ==> #[trigger] items@[j]@ == JsonView::Str(v@[j]@),
        decreases v@.len() - i,
    {
        items.push(JsonValue::String(v[i].0.0.clone()));
        i += 1;
    }
    let r = JsonValue::Array(items);
    proof {
        let got = match r@ { JsonView::Array(x) => x, _ => Seq::empty() };
        assert(got.len() == v@.len());
        assert forall|j: int| 0 <= j < got.len() implies got[j] == strings_json(user_ids_view(v@))->Array_0[j] by {
            assert(got[j] == items@[j]@);
        }
        assert(got =~= strings_json(user_ids_view(v@))->Array_0);
    }
    r
}

/// The allowed mentions as the derived serializer writes them.
pub open spec fn allowed_mentions_value(a: AllowedMentionsView) -> JsonView {
    JsonView::Object(seq![
        ("everyone"@, JsonView::Bool(a.everyone)),
        ("roles"@, strings_json(a.roles)),
        ("users"@, strings_json(a.users)),
    ])
}

impl AllowedMentions {
    /// The allowed mentions as the derived serializer writes them.
    pub fn to_value(&self) -> (r: JsonValue)
        ensures
            r@ == allowed_mentions_value(self@),
    {
        let r_v0 = JsonValue::Bool(self.everyone);
        assert(r_v0@ == JsonView::Bool(self@.everyone));
        let r_v1 = snowflakes_json(&self.roles);
        assert(r_v1@ == strings_json(self@.roles));
        let r_v2 = user_ids_json(&self.users);
        assert(r_v2@ == strings_json(self@.users));
        let mut r_es: Vec<(String, JsonValue)> = Vec::new();
        r_es.push((String::from_str("everyone"), r_v0));
        r_es.push((String::from_str("roles"), r_v1));
        r_es.push((String::from_str("users"), r_v2));
        let r = JsonValue::Object(r_es);
        proof {
            let expected: Seq<(Seq<char>, JsonView)> = seq![("everyone"@, JsonView::Bool(self@.everyone)), ("roles"@, strings_json(self@.roles)), ("users"@, strings_json(self@.users))];
            let got = object_entries(r@);
            assert(got.len() == 3);
            assert(got[0] == expected[0]);
            assert(got[1] == expected[1]);
            assert(got[2] == expected[2]);
            assert(got =~= expected);
        }
        r
    }
}

// ----------------------------------------------------------------------
// Attachments to send
/// The description of a file sent with a message.
#[derive(Debug)]
pub struct MessageAttachmentBuilder {
    pub description: Option<String>,
    pub name: String,
    pub content_type: String,
    pub id: u8,
}

/// The values of a message attachment builder, its texts taken as characters.
pub ghost struct MessageAttachmentBuilderView {
    pub description: Option<Seq<char>>,
    pub name: Seq<char>,
    pub content_type: Seq<char>,
    pub id: u8,
}

impl View for MessageAttachmentBuilder {
    type V = MessageAttachmentBuilderView;

    open spec fn view(&self) -> MessageAttachmentBuilderView {
        MessageAttachmentBuilderView {
            description: opt_view(self.description),
            name: self.name@,
            content_type: self.content_type@,
            id: self.id,
        }
    }
}

impl Clone for MessageAttachmentBuilder {
    fn clone(&self) -> (r: MessageAttachmentBuilder)
        ensures
            r@ == self@,
    {
        MessageAttachmentBuilder {
            description: self.description.clone(),
            name: self.name.clone(),
            content_type: self.content_type.clone(),
            id: self.id,
        }
    }
}

/// A file description as the API takes it.
pub open spec fn attachment_builder_value(a: MessageAttachmentBuilderView) -> JsonView {
    JsonView::Object(seq![
        ("content_type"@, JsonView::Str(a.content_type)),
        ("description"@, str_or_null(a.description)),
        ("id"@, json_num(a.id as u64)),
        ("name"@, JsonView::Str(a.name)),
    ])
}

impl MessageAttachmentBuilder {
    /// The file description as the API takes it.
    pub fn to_json(&self) -> (r: JsonValue)
        ensures
            r@ == attachment_builder_value(self@),
    {
        let r_v0 = string_json(&self.content_type);
        assert(r_v0@ == JsonView::Str(self@.content_type));
        let r_v1 = opt_string_json(&self.description);
        assert(r_v1@ == str_or_null(self@.description));
        let r_v2 = number_value(self.id as u64);
        assert(r_v2@ == json_num(self@.id as u64));
        let r_v3 = string_json(&self.name);
        assert(r_v3@ == JsonView::Str(self@.name));
        let mut r_es: Vec<(String, JsonValue)> = Vec::new();
        r_es.push((String::from_str("content_type"), r_v0));
        r_es.push((String::from_str("description"), r_v1));
        r_es.push((String::from_str("id"), r_v2));
        r_es.push((String::from_str("name"), r_v3));
        let r = JsonValue::Object(r_es);
        proof {
            let expected: Seq<(Seq<char>, JsonView)> = seq![("content_type"@, JsonView::Str(self@.content_type)), ("description"@, str_or_null(self@.description)), ("id"@, json_num(self@.id as u64)), ("name"@, JsonView::Str(self@.name))];
            let got = object_entries(r@);
            assert(got.len() == 4);
            assert(got[0] == expected[0]);
            assert(got[1] == expected[1]);
            assert(got[2] == expected[2]);
            assert(got[3] == expected[3]);
            assert(got =~= expected);
        }
        r
    }
}

/// A file sent with a message.
#[derive(Debug, Clone)]
pub struct AttachmentBuilder {
    pub bytes: Vec<u8>,
    /// The mime type.
    pub content_type: String,
    pub description: Option<String>,
    pub filename: String,
    pub id: u8,
}

/// A message reference as the derived serializer writes it.
pub open spec fn message_reference_value(r: MessageReferenceView) -> JsonView {
    JsonView::Object(seq![
        ("channel_id"@, JsonView::Str(r.channel_id)),
        ("fail_if_not_exists"@, bool_or_null(r.fail_if_not_exists)),
        ("guild_id"@, str_or_null(r.guild_id)),
        ("message_id"@, str_or_null(r.message_id)),
    ])
}

impl MessageReference {
    /// The reference as the derived serializer writes it.
    pub fn to_value(&self) -> (r: JsonValue)
        ensures
            r@ == message_reference_value(self@),
    {
        let r_v0 = string_json(&self.channel_id.0);
        assert(r_v0@ == JsonView::Str(self@.channel_id));
        let r_v1 = opt_bool_json(self.fail_if_not_exists);
        assert(r_v1@ == bool_or_null(self@.fail_if_not_exists));
        let r_v2 = opt_string_json(&match &self.guild_id { Some(g) => Some(g.0.clone()), None => None });
        assert(r_v2@ == str_or_null(self@.guild_id));
        let r_v3 = opt_string_json(&match &self.message_id { Some(g) => Some(g.0.clone()), None => None });
        assert(r_v3@ == str_or_null(self@.message_id));
        let mut r_es: Vec<(String, JsonValue)> = Vec::new();
        r_es.push((String::from_str("channel_id"), r_v0));
        r_es.push((String::from_str("fail_if_not_exists"), r_v1));
        r_es.push((String::from_str("guild_id"), r_v2));
        r_es.push((String::from_str("message_id"), r_v3));
        let r = JsonValue::Object(r_es);
        proof {
            let expected: Seq<(Seq<char>, JsonView)> = seq![("channel_id"@, JsonView::Str(self@.channel_id)), ("fail_if_not_exists"@, bool_or_null(self@.fail_if_not_exists)), ("guild_id"@, str_or_null(self@.guild_id)), ("message_id"@, str_or_null(self@.message_id))];
            let got = object_entries(r@);
            assert(got.len() == 4);
            assert(got[0] == expected[0]);
            assert(got[1] == expected[1]);
            assert(got[2] == expected[2]);
            assert(got[3] == expected[3]);
            assert(got =~= expected);
        }
        r
    }
}

// ----------------------------------------------------------------------
// The message builder

/// A message to send.
#[derive(Debug)]
pub struct MessageBuilder {
    pub content: Option<String>,
    pub embeds: Vec<Embed>,
    pub components: Vec<Component>,
    pub allowed_mentions: Option<AllowedMentions>,
    pub attachments: Vec<MessageAttachmentBuilder>,
    pub reference: Option<MessageReference>,
    pub ephemeral: bool,
    pub flags: MessageFlags,
}

pub ghost struct MessageBuilderView {
    pub content: Option<Seq<char>>,
    pub embeds: Seq<EmbedView>,
    pub components: Seq<ComponentView>,
    pub allowed_mentions: Option<AllowedMentionsView>,
    pub attachments: Seq<MessageAttachmentBuilderView>,
    pub reference: Option<MessageReferenceView>,
    pub ephemeral: bool,
    pub flags: u64,
}

pub open spec fn attachment_builders_view(s: Seq<MessageAttachmentBuilder>) -> Seq<MessageAttachmentBuilderView> {
    s.map_values(|a: MessageAttachmentBuilder| a@)
}

pub open spec fn opt_allowed_mentions_view(o: Option<AllowedMentions>) -> Option<AllowedMentionsView> {
    match o {
        Some(a) => Some(a@),
        None => None,
    }
}

impl View for MessageBuilder {
    type V = MessageBuilderView;

    open spec fn view(&self) -> MessageBuilderView {
        MessageBuilderView {
            content: opt_view(self.content),
            embeds: embeds_view(self.embeds@),
            components: components_view(self.components@),
            allowed_mentions: opt_allowed_mentions_view(self.allowed_mentions),
            attachments: attachment_builders_view(self.attachments@),
            reference: opt_message_reference_view(self.reference),
            ephemeral: self.ephemeral,
            flags: self.flags.0,
        }
    }
}

/// The builder with nothing set.
pub open spec fn empty_builder() -> MessageBuilderView {
    MessageBuilderView {
        content: None,
        embeds: Seq::empty(),
        components: Seq::empty(),
        allowed_mentions: None,
        attachments: Seq::empty(),
        reference: None,
        ephemeral: false,
        flags: 0,
    }
}

impl Default for MessageBuilder {
    fn default() -> (r: MessageBuilder)
        ensures
            r@ == empty_builder(),
    {
        let r = MessageBuilder {
            content: None,
            embeds: Vec::new(),
            components: Vec::new(),
            allowed_mentions: None,
            attachments: Vec::new(),
            reference: None,
            ephemeral: false,
            flags: MessageFlags::new(),
        };
        proof {
            assert(embeds_view(r.embeds@) =~= Seq::empty());
            assert(components_view(r.components@) =~= Seq::empty());
            assert(attachment_builders_view(r.attachments@) =~= Seq::empty());
        }
        r
    }
}

impl MessageBuilder {
    /// A message with nothing set.
    pub fn new() -> (r: MessageBuilder)
        ensures
            r@ == empty_builder(),
    {
        MessageBuilder::default()
    }

    /// Sets the text.
    pub fn set_content(self, content: &str) -> (r: MessageBuilder)
        ensures
            r@ == (MessageBuilderView { content: Some(content@), ..self@ }),
    {
        let mut s = self;
        s.content = Some(String::from_str(content));
        s
    }

    /// Sets the flags.
    pub fn set_flags(self, flags: u64) -> (r: MessageBuilder)
        ensures
            r@ == (MessageBuilderView { flags: flags, ..self@ }),
    {
        let mut s = self;
        s.flags.0 = flags;
        s
    }

    /// Sets or clears the ephemeral flag.
    pub fn set_ephemeral(self, ephemeral: bool) -> (r: MessageBuilder)
        ensures
            r@ == (MessageBuilderView {
                flags: if ephemeral { self@.flags | message_flags::EPHEMERAL } else { self@.flags & !message_flags::EPHEMERAL },
                ..self@
            }),
    {
        let mut s = self;
        if ephemeral {
            s.flags.add_flag(message_flags::EPHEMERAL);
        } else {
            s.flags.remove_flag(message_flags::EPHEMERAL);
        }
        s
    }

    /// Sets or clears the loading flag.
    pub fn set_loading(self, loading: bool) -> (r: MessageBuilder)
        ensures
            r@ == (MessageBuilderView {
                flags: if loading { self@.flags | message_flags::LOADING } else { self@.flags & !message_flags::LOADING },
                ..self@
            }),
    {
        let mut s = self;
        if loading {
            s.flags.add_flag(message_flags::LOADING);
        } else {
            s.flags.remove_flag(message_flags::LOADING);
        }
        s
    }

    /// Clears the text.
    pub fn remove_content(&mut self)
        ensures
            final(self)@ == (MessageBuilderView { content: None, ..old(self)@ }),
    {
        self.content = None;
    }

    /// Adds an embed after the others.
    pub fn add_embed(self, embed: Embed) -> (r: MessageBuilder)
        ensures
            r@ == (MessageBuilderView { embeds: self@.embeds.push(embed@), ..self@ }),
    {
        let mut s = self;
        let ghost before = s.embeds@;
        let ghost ev = embed@;
        s.embeds.push(embed);
        proof {
            assert(embeds_view(s.embeds@) =~= embeds_view(before).push(ev));
        }
        s
    }

    /// Adds a component after the others.
    pub fn add_component(self, component: Component) -> (r: MessageBuilder)
        ensures
            r@ == (MessageBuilderView { components: self@.components.push(component@), ..self@ }),
    {
        let mut s = self;
        let ghost before = s.components@;
        let ghost cv = component@;
        s.components.push(component);
        proof {
            assert(components_view(s.components@) =~= components_view(before).push(cv));
        }
        s
    }

    /// Adds a file description after the others.
    pub fn add_attachment(self, attachment: MessageAttachmentBuilder) -> (r: MessageBuilder)
        ensures
            r@ == (MessageBuilderView { attachments: self@.attachments.push(attachment@), ..self@ }),
    {
        let mut s = self;
        let ghost before = s.attachments@;
        let ghost av = attachment@;
        s.attachments.push(attachment);
        proof {
            assert(attachment_builders_view(s.attachments@) =~= attachment_builders_view(before).push(av));
        }
        s
    }

    /// Sets whom the message may mention.
    pub fn set_allowed_mentions(self, allowed_mentions: AllowedMentions) -> (r: MessageBuilder)
        ensures
            r@ == (MessageBuilderView { allowed_mentions: Some(allowed_mentions@), ..self@ }),
    {
        let mut s = self;
        s.allowed_mentions = Some(allowed_mentions);
        s
    }

    /// Clears whom the message may mention.
    pub fn remove_allowed_mentions(self) -> (r: MessageBuilder)
        ensures
            r@ == (MessageBuilderView { allowed_mentions: None, ..self@ }),
    {
        let mut s = self;
        s.allowed_mentions = None;
        s
    }

    /// Sets the message this one answers.
    pub fn set_reference(self, reference: MessageReference) -> (r: MessageBuilder)
        ensures
            r@ == (MessageBuilderView { reference: Some(reference@), ..self@ }),
    {
        let mut s = self;
        s.reference = Some(reference);
        s
    }
}

pub open spec fn embeds_value(s: Seq<EmbedView>) -> Seq<JsonView> {
    s.map_values(|e: EmbedView| embed_value(e))
}

pub open spec fn attachment_builders_value(s: Seq<MessageAttachmentBuilderView>) -> Seq<JsonView> {
    s.map_values(|a: MessageAttachmentBuilderView| attachment_builder_value(a))
}

/// One entry, or none.
pub open spec fn entry_if(c: bool, key: Seq<char>, v: JsonView) -> Seq<(Seq<char>, JsonView)> {
    if c {
        seq![(key, v)]
    } else {
        Seq::empty()
    }
}

/// The entries of a message to send, in the order they are set: the text,
/// the embeds, the components, the allowed mentions, the files and the
/// reference when there are any, and the flags when one is set.
pub open spec fn builder_entries(b: MessageBuilderView) -> Seq<(Seq<char>, JsonView)> {
    entry_if(b.content is Some, "content"@, JsonView::Str(b.content.unwrap()))
        + entry_if(b.embeds.len() > 0, "embeds"@, JsonView::Array(embeds_value(b.embeds)))
        + entry_if(b.components.len() > 0, "components"@, JsonView::Array(components_value(b.components)))
        + entry_if(b.allowed_mentions is Some, "allowed_mentions"@, allowed_mentions_value(b.allowed_mentions.unwrap()))
        + entry_if(b.attachments.len() > 0, "attachments"@, JsonView::Array(attachment_builders_value(b.attachments)))
        + entry_if(b.reference is Some, "message_reference"@, message_reference_value(b.reference.unwrap()))
        + entry_if(b.flags != 0, "flags"@, json_num(b.flags))
}

fn embeds_to_value(v: &Vec<Embed>) -> (r: JsonValue)
    ensures
        r@ == JsonView::Array(embeds_value(embeds_view(v@))),
{
    let mut items: Vec<JsonValue> = Vec::new();
    let mut i: usize = 0;
    while i < v.len()
        invariant
            i <= v@.len(),
            items@.len() == i,
            forall|j: int| 0 <= j < i ==> #[trigger] items@[j]@ == embed_value(v@[j]@),
        decreases v@.len() - i,
    {
        items.push(v[i].to_value());
        i += 1;
    }
    let r = JsonValue::Array(items);
    proof {
        let got = match r@ { JsonView::Array(x) => x, _ => Seq::empty() };
        assert(got.len() == v@.len());
        assert forall|j: int| 0 <= j < got.len() implies got[j] == embeds_value(embeds_view(v@))[j] by {
            assert(got[j] == items@[j]@);
        }
        assert(got =~= embeds_value(embeds_view(v@)));
    }
    r
}

fn components_to_value(v: &Vec<Component>) -> (r: JsonValue)
    ensures
        r@ == JsonView::Array(components_value(components_view(v@))),
{
    let mut items: Vec<JsonValue> = Vec::new();
    let mut i: usize = 0;
    while i < v.len()
        invariant
            i <= v@.len(),
            items@.len() == i,
            forall|j: int| 0 <= j < i ==> #[trigger] items@[j]@ == component_value(v@[j]@),
        decreases v@.len() - i,
    {
        items.push(v[i].to_json());
        i += 1;
    }
    let r = JsonValue::Array(items);
    proof {
        let expected = components_value(components_view(v@));
        let got = match r@ { JsonView::Array(x) => x, _ => Seq::empty() };
        assert(expected.len() == v@.len());
        assert(got.len() == v@.len());
        assert forall|j: int| 0 <= j < got.len() implies got[j] == expected[j] by {
            assert(got[j] == items@[j]@);
            assert(components_view(v@)[j] == v@[j]@);
        }
        assert(got =~= expected);
    }
    r
}

fn attachment_builders_to_value(v: &Vec<MessageAttachmentBuilder>) -> (r: JsonValue)
    ensures
        r@ == JsonView::Array(attachment_builders_value(attachment_builders_view(v@))),
{
    let mut items: Vec<JsonValue> = Vec::new();
    let mut i: usize = 0;
    while i < v.len()
        invariant
            i <= v@.len(),
            items@.len() == i,
            forall|j: int| 0 <= j < i ==> #[trigger] items@[j]@ == attachment_builder_value(v@[j]@),
        decreases v@.len() - i,
    {
        items.push(v[i].to_json());
        i += 1;
    }
    let r = JsonValue::Array(items);
    proof {
        let got = match r@ { JsonView::Array(x) => x, _ => Seq::empty() };
        assert(got.len() == v@.len());
        assert forall|j: int| 0 <= j < got.len() implies got[j] == attachment_builders_value(attachment_builders_view(v@))[j] by {
            assert(got[j] == items@[j]@);
        }
        assert(got =~= attachment_builders_value(attachment_builders_view(v@)));
    }
    r
}

/// Pushes an entry when `c` holds.
fn push_if(es: &mut Vec<(String, JsonValue)>, c: bool, key: &str, v: JsonValue)
    ensures
        entries_view(final(es)@) == entries_view(old(es)@) + entry_if(c, key@, v@),
{
    let ghost vv = v@;
    if c {
        es.push((String::from_str(key), v));
        proof {
            assert(entries_view(es@) =~= entries_view(old(es)@) + seq![(key@, vv)]);
        }
    } else {
        proof {
            assert(entries_view(es@) =~= entries_view(old(es)@) + Seq::<(Seq<char>, JsonView)>::empty());
        }
    }
}

impl MessageBuilder {
    /// The message as the API takes it.
    pub fn to_json(&self) -> (r: JsonValue)
        ensures
            r@ == JsonView::Object(builder_entries(self@)),
    {
        let mut es: Vec<(String, JsonValue)> = Vec::new();
        let content = match &self.content {
            Some(c) => JsonValue::String(c.clone()),
            None => JsonValue::Null,
        };
        push_if(&mut es, self.content.is_some(), "content", content);
        let embeds = if self.embeds.len() > 0 { embeds_to_value(&self.embeds) } else { JsonValue::Null };
        push_if(&mut es, self.embeds.len() > 0, "embeds", embeds);
        let components = if self.components.len() > 0 { components_to_value(&self.components) } else { JsonValue::Null };
        push_if(&mut es, self.components.len() > 0, "components", components);
        let mentions = match &self.allowed_mentions {
            Some(a) => a.to_value(),
            None => JsonValue::Null,
        };
        push_if(&mut es, self.allowed_mentions.is_some(), "allowed_mentions", mentions);
        let attachments = if self.attachments.len() > 0 {
            attachment_builders_to_value(&self.attachments)
        } else {
            JsonValue::Null
        };
        push_if(&mut es, self.attachments.len() > 0, "attachments", attachments);
        let reference = match &self.reference {
            Some(x) => x.to_value(),
            None => JsonValue::Null,
        };
        push_if(&mut es, self.reference.is_some(), "message_reference", reference);
        push_if(&mut es, !self.flags.is_empty(), "flags", self.flags.to_json());
        proof {
            lemma_object_view(es);
            assert(entries_view(es@) =~= builder_entries(self@));
        }
        JsonValue::Object(es)
    }
}

} // verus!
