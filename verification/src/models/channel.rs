//! Channels: their ids, kinds, permission overwrites, and how a cached
//! channel takes the fields of a fresher copy.

use vstd::prelude::*;
use crate::cache::UpdateCache;
use crate::models::common::{opt_str_eq, opt_view};
use crate::models::ids::{opt_channel_view, opt_guild_view, opt_snowflake_view, ChannelId, GuildId, Snowflake};
use crate::cache::{same_cached_messages, CacheDock};
use crate::models::message::Message;
use crate::json::{json_u64, JsonValue, JsonView};
use crate::models::{kind_of, ModelError, ModelErrorKind};
use crate::text::str_eq;

verus! {

/// Every kind of channel, by the number the API gives it.
#[derive(Debug, Clone, Copy, PartialEq, Eq, Structural, Hash)]
pub enum ChannelKind {
    GuildText,
    Dm,
    GuildVoice,
    /// Ignored.
    GroupDm,
    GuildCategory,
    GuildAnnouncement,
    AnnouncementThread,
    PublicThread,
    PrivateThread,
    GuildStageVoice,
    /// Ignored.
    GuildDirectory,
    GuildForum,
}

/// The number that stands for each channel kind.
pub open spec fn channel_kind_code(v: ChannelKind) -> u64 {
    match v {
        ChannelKind::GuildText => 0,
        ChannelKind::Dm => 1,
        ChannelKind::GuildVoice => 2,
        ChannelKind::GroupDm => 3,
        ChannelKind::GuildCategory => 4,
        ChannelKind::GuildAnnouncement => 5,
        ChannelKind::AnnouncementThread => 10,
        ChannelKind::PublicThread => 11,
        ChannelKind::PrivateThread => 12,
        ChannelKind::GuildStageVoice => 13,
        ChannelKind::GuildDirectory => 14,
        ChannelKind::GuildForum => 15,
    }
}

/// The channel kind that a number stands for, if any.
pub open spec fn channel_kind_code_inverse(c: u64) -> Option<ChannelKind> {
    if c == 0 {
        Some(ChannelKind::GuildText)
    } else if c == 1 {
        Some(ChannelKind::Dm)
    } else if c == 2 {
        Some(ChannelKind::GuildVoice)
    } else if c == 3 {
        Some(ChannelKind::GroupDm)
    } else if c == 4 {
        Some(ChannelKind::GuildCategory)
    } else if c == 5 {
        Some(ChannelKind::GuildAnnouncement)
    } else if c == 10 {
        Some(ChannelKind::AnnouncementThread)
    } else if c == 11 {
        Some(ChannelKind::PublicThread)
    } else if c == 12 {
        Some(ChannelKind::PrivateThread)
    } else if c == 13 {
        Some(ChannelKind::GuildStageVoice)
    } else if c == 14 {
        Some(ChannelKind::GuildDirectory)
    } else if c == 15 {
        Some(ChannelKind::GuildForum)
    } else {
        None
    }
}

impl ChannelKind {
    /// The number of this channel kind.
    pub fn to_code(&self) -> (r: u64)
        ensures
            r == channel_kind_code(*self),
    {
        match self {
            ChannelKind::GuildText => 0,
            ChannelKind::Dm => 1,
            ChannelKind::GuildVoice => 2,
            ChannelKind::GroupDm => 3,
            ChannelKind::GuildCategory => 4,
            ChannelKind::GuildAnnouncement => 5,
            ChannelKind::AnnouncementThread => 10,
            ChannelKind::PublicThread => 11,
            ChannelKind::PrivateThread => 12,
            ChannelKind::GuildStageVoice => 13,
            ChannelKind::GuildDirectory => 14,
            ChannelKind::GuildForum => 15,
        }
    }

    /// The channel kind of a number; other numbers stand for none.
    pub fn from_code(c: u64) -> (r: Option<ChannelKind>)
        ensures
            r == channel_kind_code_inverse(c),
    {
        if c == 0 {
            Some(ChannelKind::GuildText)
        } else if c == 1 {
            Some(ChannelKind::Dm)
        } else if c == 2 {
            Some(ChannelKind::GuildVoice)
        } else if c == 3 {
            Some(ChannelKind::GroupDm)
        } else if c == 4 {
            Some(ChannelKind::GuildCategory)
        } else if c == 5 {
            Some(ChannelKind::GuildAnnouncement)
        } else if c == 10 {
            Some(ChannelKind::AnnouncementThread)
        } else if c == 11 {
            Some(ChannelKind::PublicThread)
        } else if c == 12 {
            Some(ChannelKind::PrivateThread)
        } else if c == 13 {
            Some(ChannelKind::GuildStageVoice)
        } else if c == 14 {
            Some(ChannelKind::GuildDirectory)
        } else if c == 15 {
            Some(ChannelKind::GuildForum)
        } else {
            None
        }
    }
}

/// Reading the number of a channel kind gives the channel kind back.
pub proof fn law_channel_kind_code_round_trip(v: ChannelKind)
    ensures
        channel_kind_code_inverse(channel_kind_code(v) as u64) == Some(v),
{
}

/// A number reads as a ChannelKind only when it is that one's own number, so
/// two of them never share a number and no other number reads as one.
pub proof fn law_channel_kind_code_read_back(c: u64)
    ensures
        channel_kind_code_inverse(c) matches Some(w) ==> channel_kind_code(w) == c,
{
}

/// The name of each channel kind.
pub open spec fn channel_kind_name(v: ChannelKind) -> Seq<char> {
    match v {
        ChannelKind::GuildText => "GuildText"@,
        ChannelKind::Dm => "Dm"@,
        ChannelKind::GuildVoice => "GuildVoice"@,
        ChannelKind::GroupDm => "GroupDm"@,
        ChannelKind::GuildCategory => "GuildCategory"@,
        ChannelKind::GuildAnnouncement => "GuildAnnouncement"@,
        ChannelKind::AnnouncementThread => "AnnouncementThread"@,
        ChannelKind::PublicThread => "PublicThread"@,
        ChannelKind::PrivateThread => "PrivateThread"@,
        ChannelKind::GuildStageVoice => "GuildStageVoice"@,
        ChannelKind::GuildDirectory => "GuildDirectory"@,
        ChannelKind::GuildForum => "GuildForum"@,
    }
}

impl ChannelKind {
    /// The name of this channel kind.
    pub fn name(&self) -> (r: &'static str)
        ensures
            r@ == channel_kind_name(*self),
    {
        match self {
            ChannelKind::GuildText => "GuildText",
            ChannelKind::Dm => "Dm",
            ChannelKind::GuildVoice => "GuildVoice",
            ChannelKind::GroupDm => "GroupDm",
            ChannelKind::GuildCategory => "GuildCategory",
            ChannelKind::GuildAnnouncement => "GuildAnnouncement",
            ChannelKind::AnnouncementThread => "AnnouncementThread",
            ChannelKind::PublicThread => "PublicThread",
            ChannelKind::PrivateThread => "PrivateThread",
            ChannelKind::GuildStageVoice => "GuildStageVoice",
            ChannelKind::GuildDirectory => "GuildDirectory",
            ChannelKind::GuildForum => "GuildForum",
        }
    }
}
/// The kind a payload stands for, read from its number.
pub open spec fn channel_kind_from_json(v: JsonView) -> Result<ChannelKind, ModelErrorKind> {
    match json_u64(v) {
        Some(c) => match channel_kind_code_inverse(c) {
            Some(k) => Ok(k),
            None => Err(ModelErrorKind::InvalidPayload),
        },
        None => Err(ModelErrorKind::InvalidPayload),
    }
}

impl ChannelKind {
    /// Reads the kind of a channel from its number in a payload.
    pub fn from_raw(raw: &JsonValue) -> (r: Result<ChannelKind, ModelError>)
        ensures
            match (r, channel_kind_from_json(raw@)) {
                (Ok(k), Ok(s)) => k == s,
                (Err(e), Err(k)) => kind_of(e) == k,
                _ => false,
            },
    {
        match raw.as_u64() {
            Some(c) => match ChannelKind::from_code(c) {
                Some(k) => Ok(k),
                None => Err(ModelError::InvalidPayload(String::from_str("unknown channel kind"))),
            },
            None => Err(ModelError::InvalidPayload(String::from_str("unknown channel kind"))),
        }
    }
}

/// Whom a permission overwrite applies to.
#[derive(Debug, Clone, Copy, PartialEq, Eq, Structural)]
pub enum PermissionOverwriteKind {
    Role,
    Member,
}

/// The name of each permission overwrite kind.
pub open spec fn permission_overwrite_kind_name(v: PermissionOverwriteKind) -> Seq<char> {
    match v {
        PermissionOverwriteKind::Role => "Role"@,
        PermissionOverwriteKind::Member => "Member"@,
    }
}

/// The permission overwrite kind a name stands for, if any.
pub open spec fn permission_overwrite_kind_of_name(s: Seq<char>) -> Option<PermissionOverwriteKind> {
    if s == "Role"@ {
        Some(PermissionOverwriteKind::Role)
    } else if s == "Member"@ {
        Some(PermissionOverwriteKind::Member)
    } else {
        None
    }
}

/// Each permission overwrite kind is read back from its name, and a name
/// is read only as the kind it names.
pub proof fn law_permission_overwrite_kind_names(v: PermissionOverwriteKind, s: Seq<char>)
    ensures
        permission_overwrite_kind_of_name(permission_overwrite_kind_name(v)) == Some(v),
        permission_overwrite_kind_of_name(s) matches Some(w) ==> permission_overwrite_kind_name(w) == s,
{
    reveal_strlit("Role");
    reveal_strlit("Member");
    assert("Role"@.len() == 4 && "Member"@.len() == 6);
}


impl PermissionOverwriteKind {
    /// The name of this permission overwrite kind.
    pub fn name(&self) -> (r: &'static str)
        ensures
            r@ == permission_overwrite_kind_name(*self),
    {
        match self {
            PermissionOverwriteKind::Role => "Role",
            PermissionOverwriteKind::Member => "Member",
        }
    }

    /// The permission overwrite kind of a name; other texts stand for none.
    pub fn from_name(s: &str) -> (r: Option<PermissionOverwriteKind>)
        ensures
            r == permission_overwrite_kind_of_name(s@),
    {
        if str_eq(s, "Role") {
            Some(PermissionOverwriteKind::Role)
        } else if str_eq(s, "Member") {
            Some(PermissionOverwriteKind::Member)
        } else {
            None
        }
    }
}
/// A permission overwrite of a channel.
#[derive(Debug, PartialEq, Eq)]
pub struct PermissionOverwrite {
    pub id: String,
    pub kind: PermissionOverwriteKind,
    pub allow: String,
    pub deny: String,
}

/// The values of a permission overwrite, its texts taken as characters.
pub ghost struct PermissionOverwriteView {
    pub id: Seq<char>,
    pub kind: PermissionOverwriteKind,
    pub allow: Seq<char>,
    pub deny: Seq<char>,
}

impl View for PermissionOverwrite {
    type V = PermissionOverwriteView;

    open spec fn view(&self) -> PermissionOverwriteView {
        PermissionOverwriteView {
            id: self.id@,
            kind: self.kind,
            allow: self.allow@,
            deny: self.deny@,
        }
    }
}

impl Clone for PermissionOverwrite {
    fn clone(&self) -> (r: PermissionOverwrite)
        ensures
            r@ == self@,
    {
        PermissionOverwrite {
            id: self.id.clone(),
            kind: self.kind,
            allow: self.allow.clone(),
            deny: self.deny.clone(),
        }
    }
}

impl PermissionOverwrite {
    /// Whether two overwrites hold the same values.
    pub fn same(&self, other: &PermissionOverwrite) -> (r: bool)
        ensures
            r == (self@ == other@),
    {
        self.id == other.id && self.kind == other.kind && self.allow == other.allow && self.deny == other.deny
    }
}

/// The values of a list of overwrites.
pub open spec fn overwrites_view(s: Seq<PermissionOverwrite>) -> Seq<PermissionOverwriteView> {
    s.map_values(|w: PermissionOverwrite| w@)
}

/// The values of an optional list of overwrites.
pub open spec fn opt_overwrites_view(o: Option<Vec<PermissionOverwrite>>) -> Option<Seq<PermissionOverwriteView>> {
    match o {
        Some(v) => Some(overwrites_view(v@)),
        None => None,
    }
}

/// Whether two lists of overwrites hold the same values.
fn overwrite_lists_eq(x: &Vec<PermissionOverwrite>, y: &Vec<PermissionOverwrite>) -> (r: bool)
    ensures
        r == (overwrites_view(x@) == overwrites_view(y@)),
{
    if x.len() != y.len() {
        proof {
            assert(overwrites_view(x@).len() != overwrites_view(y@).len());
        }
        return false;
    }
    let mut i: usize = 0;
    while i < x.len()
        invariant
            x@.len() == y@.len(),
            i <= x@.len(),
            forall|j: int| 0 <= j < i ==> x@[j]@ == y@[j]@,
        decreases x@.len() - i,
    {
        if !x[i].same(&y[i]) {
            proof {
                assert(overwrites_view(x@)[i as int] != overwrites_view(y@)[i as int]);
            }
            return false;
        }
        i += 1;
    }
    proof {
        assert(overwrites_view(x@) =~= overwrites_view(y@));
    }
    true
}

/// Whether two optional lists of overwrites hold the same values.
pub fn overwrites_eq(a: &Option<Vec<PermissionOverwrite>>, b: &Option<Vec<PermissionOverwrite>>) -> (r: bool)
    ensures
        r == (opt_overwrites_view(*a) == opt_overwrites_view(*b)),
{
    match (a, b) {
        (Some(x), Some(y)) => overwrite_lists_eq(x, y),
        (None, None) => true,
        _ => false,
    }
}

/// A copy of an optional list of overwrites.
pub fn clone_overwrites(o: &Option<Vec<PermissionOverwrite>>) -> (r: Option<Vec<PermissionOverwrite>>)
    ensures
        opt_overwrites_view(r) == opt_overwrites_view(*o),
{
    match o {
        Some(v) => {
            let c = v.clone();
            proof {
                assert(overwrites_view(c@) =~= overwrites_view(v@));
            }
            Some(c)
        },
        None => None,
    }
}

/// A channel of a kind the client does not know.
#[derive(Debug, PartialEq, Eq)]
pub struct UnknownChannel {
    pub id: ChannelId,
    pub name: String,
    pub kind: ChannelKind,
    pub guild_id: Option<GuildId>,
}

/// The values of a unknown channel, its texts taken as characters.
pub ghost struct UnknownChannelView {
    pub id: Seq<char>,
    pub name: Seq<char>,
    pub kind: ChannelKind,
    pub guild_id: Option<Seq<char>>,
}

impl View for UnknownChannel {
    type V = UnknownChannelView;

    open spec fn view(&self) -> UnknownChannelView {
        UnknownChannelView {
            id: self.id@,
            name: self.name@,
            kind: self.kind,
            guild_id: opt_guild_view(self.guild_id),
        }
    }
}

impl Clone for UnknownChannel {
    fn clone(&self) -> (r: UnknownChannel)
        ensures
            r@ == self@,
    {
        UnknownChannel {
            id: self.id.clone(),
            name: self.name.clone(),
            kind: self.kind,
            guild_id: self.guild_id.clone(),
        }
    }
}

impl UpdateCache for UnknownChannel {
    fn update(&mut self, from: &Self)
        ensures
            final(self)@ == from@,
    {
        if self.id != from.id {
            self.id = from.id.clone();
        }
        if self.name != from.name {
            self.name = from.name.clone();
        }
        if self.kind != from.kind {
            self.kind = from.kind;
        }
        if self.guild_id != from.guild_id {
            self.guild_id = from.guild_id.clone();
        }
    }
}

/// A voice channel of a guild.
#[derive(Debug, PartialEq, Eq)]
pub struct GuildVoice {
    pub id: ChannelId,
    pub kind: ChannelKind,
    pub name: Option<String>,
    pub guild_id: Option<GuildId>,
    pub position: Option<u64>,
    /// The permission overwrites of the channel.
    pub permission_overwrites: Option<Vec<PermissionOverwrite>>,
    pub bitrate: Option<u64>,
    pub user_limit: Option<u64>,
    pub parent_id: Option<ChannelId>,
    pub rtc_region: Option<String>,
    pub video_quality_mode: Option<u64>,
    /// The permissions of the user in the channel, overwrites included; only
    /// in the channel of an interaction.
    pub permissions: Option<String>,
    pub nsfw: Option<bool>,
}

/// The values of a guild voice, its texts taken as characters.
pub ghost struct GuildVoiceView {
    pub id: Seq<char>,
    pub kind: ChannelKind,
    pub name: Option<Seq<char>>,
    pub guild_id: Option<Seq<char>>,
    pub position: Option<u64>,
    pub permission_overwrites: Option<Seq<PermissionOverwriteView>>,
    pub bitrate: Option<u64>,
    pub user_limit: Option<u64>,
    pub parent_id: Option<Seq<char>>,
    pub rtc_region: Option<Seq<char>>,
    pub video_quality_mode: Option<u64>,
    pub permissions: Option<Seq<char>>,
    pub nsfw: Option<bool>,
}

impl View for GuildVoice {
    type V = GuildVoiceView;

    open spec fn view(&self) -> GuildVoiceView {
        GuildVoiceView {
            id: self.id@,
            kind: self.kind,
            name: opt_view(self.name),
            guild_id: opt_guild_view(self.guild_id),
            position: self.position,
            permission_overwrites: opt_overwrites_view(self.permission_overwrites),
            bitrate: self.bitrate,
            user_limit: self.user_limit,
            parent_id: opt_channel_view(self.parent_id),
            rtc_region: opt_view(self.rtc_region),
            video_quality_mode: self.video_quality_mode,
            permissions: opt_view(self.permissions),
            nsfw: self.nsfw,
        }
    }
}

impl Clone for GuildVoice {
    fn clone(&self) -> (r: GuildVoice)
        ensures
            r@ == self@,
    {
        GuildVoice {
            id: self.id.clone(),
            kind: self.kind,
            name: self.name.clone(),
            guild_id: self.guild_id.clone(),
            position: self.position,
            permission_overwrites: clone_overwrites(&self.permission_overwrites),
            bitrate: self.bitrate,
            user_limit: self.user_limit,
            parent_id: self.parent_id.clone(),
            rtc_region: self.rtc_region.clone(),
            video_quality_mode: self.video_quality_mode,
            permissions: self.permissions.clone(),
            nsfw: self.nsfw,
        }
    }
}

/// A guild voice after it took the fields of a fresher copy: all but `kind` come from the copy.
pub open spec fn guild_voice_after_update(old: GuildVoiceView, from: GuildVoiceView) -> GuildVoiceView {
    GuildVoiceView {
        kind: old.kind,
        ..from
    }
}

impl GuildVoice {
    /// Takes the fields `id`, `name`, `guild_id`, `position`, `permission_overwrites`, `bitrate`, `user_limit` of a fresher copy.
    fn update_part_1(&mut self, from: &Self)
        ensures
            final(self).id@ == from.id@,
            final(self).kind == old(self).kind,
            opt_view(final(self).name) == opt_view(from.name),
            opt_guild_view(final(self).guild_id) == opt_guild_view(from.guild_id),
            final(self).position == from.position,
            opt_overwrites_view(final(self).permission_overwrites) == opt_overwrites_view(from.permission_overwrites),
            final(self).bitrate == from.bitrate,
            final(self).user_limit == from.user_limit,
            opt_channel_view(final(self).parent_id) == opt_channel_view(old(self).parent_id),
            opt_view(final(self).rtc_region) == opt_view(old(self).rtc_region),
            final(self).video_quality_mode == old(self).video_quality_mode,
            opt_view(final(self).permissions) == opt_view(old(self).permissions),
            final(self).nsfw == old(self).nsfw,
    {
        if self.id != from.id {
            self.id = from.id.clone();
        }
        if !opt_str_eq(&self.name, &from.name) {
            self.name = from.name.clone();
        }
        if self.guild_id != from.guild_id {
            self.guild_id = from.guild_id.clone();
        }
        if self.position != from.position {
            self.position = from.position;
        }
        if !overwrites_eq(&self.permission_overwrites, &from.permission_overwrites) {
            self.permission_overwrites = clone_overwrites(&from.permission_overwrites);
        }
        if self.bitrate != from.bitrate {
            self.bitrate = from.bitrate;
        }
        if self.user_limit != from.user_limit {
            self.user_limit = from.user_limit;
        }
    }

    /// Takes the fields `parent_id`, `rtc_region`, `video_quality_mode`, `permissions`, `nsfw` of a fresher copy.
    fn update_part_2(&mut self, from: &Self)
        ensures
            final(self).id@ == old(self).id@,
            final(self).kind == old(self).kind,
            opt_view(final(self).name) == opt_view(old(self).name),
            opt_guild_view(final(self).guild_id) == opt_guild_view(old(self).guild_id),
            final(self).position == old(self).position,
            opt_overwrites_view(final(self).permission_overwrites) == opt_overwrites_view(old(self).permission_overwrites),
            final(self).bitrate == old(self).bitrate,
            final(self).user_limit == old(self).user_limit,
            opt_channel_view(final(self).parent_id) == opt_channel_view(from.parent_id),
            opt_view(final(self).rtc_region) == opt_view(from.rtc_region),
            final(self).video_quality_mode == from.video_quality_mode,
            opt_view(final(self).permissions) == opt_view(from.permissions),
            final(self).nsfw == from.nsfw,
    {
        if self.parent_id != from.parent_id {
            self.parent_id = from.parent_id.clone();
        }
        if !opt_str_eq(&self.rtc_region, &from.rtc_region) {
            self.rtc_region = from.rtc_region.clone();
        }
        if self.video_quality_mode != from.video_quality_mode {
            self.video_quality_mode = from.video_quality_mode;
        }
        if !opt_str_eq(&self.permissions, &from.permissions) {
            self.permissions = from.permissions.clone();
        }
        if self.nsfw != from.nsfw {
            self.nsfw = from.nsfw;
        }
    }
}

impl UpdateCache for GuildVoice {
    fn update(&mut self, from: &Self)
        ensures
            final(self)@ == guild_voice_after_update(old(self)@, from@),
    {
        self.update_part_1(from);
        self.update_part_2(from);
    }
}

/// A category of a guild.
#[derive(Debug, PartialEq, Eq)]
pub struct GuildCategory {
    pub id: ChannelId,
    pub kind: ChannelKind,
    pub name: Option<String>,
    pub guild_id: Option<GuildId>,
    pub position: Option<u64>,
    /// The permission overwrites of the category.
    pub permission_overwrites: Option<Vec<PermissionOverwrite>>,
    /// The permissions of the user in the channel, overwrites included; only
    /// in the channel of an interaction.
    pub permissions: Option<String>,
}

/// The values of a guild category, its texts taken as characters.
pub ghost struct GuildCategoryView {
    pub id: Seq<char>,
    pub kind: ChannelKind,
    pub name: Option<Seq<char>>,
    pub guild_id: Option<Seq<char>>,
    pub position: Option<u64>,
    pub permission_overwrites: Option<Seq<PermissionOverwriteView>>,
    pub permissions: Option<Seq<char>>,
}

impl View for GuildCategory {
    type V = GuildCategoryView;

    open spec fn view(&self) -> GuildCategoryView {
        GuildCategoryView {
            id: self.id@,
            kind: self.kind,
            name: opt_view(self.name),
            guild_id: opt_guild_view(self.guild_id),
            position: self.position,
            permission_overwrites: opt_overwrites_view(self.permission_overwrites),
            permissions: opt_view(self.permissions),
        }
    }
}

impl Clone for GuildCategory {
    fn clone(&self) -> (r: GuildCategory)
        ensures
            r@ == self@,
    {
        GuildCategory {
            id: self.id.clone(),
            kind: self.kind,
            name: self.name.clone(),
            guild_id: self.guild_id.clone(),
            position: self.position,
            permission_overwrites: clone_overwrites(&self.permission_overwrites),
            permissions: self.permissions.clone(),
        }
    }
}

/// A guild category after it took the fields of a fresher copy: all but `kind` come from the copy.
pub open spec fn guild_category_after_update(old: GuildCategoryView, from: GuildCategoryView) -> GuildCategoryView {
    GuildCategoryView {
        kind: old.kind,
        ..from
    }
}

impl UpdateCache for GuildCategory {
    fn update(&mut self, from: &Self)
        ensures
            final(self)@ == guild_category_after_update(old(self)@, from@),
    {
        if self.id != from.id {
            self.id = from.id.clone();
        }
        if !opt_str_eq(&self.name, &from.name) {
            self.name = from.name.clone();
        }
        if self.guild_id != from.guild_id {
            self.guild_id = from.guild_id.clone();
        }
        if self.position != from.position {
            self.position = from.position;
        }
        if !overwrites_eq(&self.permission_overwrites, &from.permission_overwrites) {
            self.permission_overwrites = clone_overwrites(&from.permission_overwrites);
        }
        if !opt_str_eq(&self.permissions, &from.permissions) {
            self.permissions = from.permissions.clone();
        }
    }
}


/// What a thread tells of its archiving.
#[derive(Debug, Clone, Copy, PartialEq, Eq, Structural)]
pub struct ThreadMetadata {
    pub archived: bool,
    pub auto_archive_duration: u64,
    /// When the thread was archived, in milliseconds since the UNIX epoch.
    pub archive_timestamp: Option<i64>,
    pub locked: bool,
    pub invitable: Option<bool>,
    /// When the thread was created, in milliseconds since the UNIX epoch.
    pub create_timestamp: Option<i64>,
}

/// A text channel of a guild.
#[derive(Debug)]
pub struct GuildTextChannel {
    pub id: ChannelId,
    pub kind: ChannelKind,
    pub name: Option<String>,
    pub guild_id: Option<GuildId>,
    pub position: Option<u64>,
    /// The permission overwrites of the channel.
    pub permission_overwrites: Option<Vec<PermissionOverwrite>>,
    pub topic: Option<String>,
    pub nsfw: Option<bool>,
    /// The id of the last message sent in the channel, which may not exist.
    pub last_message_id: Option<Snowflake>,
    /// Seconds a user waits between two messages (0 to 21600).
    pub rate_limit_per_user: Option<u64>,
    pub parent_id: Option<ChannelId>,
    /// When the last message was pinned, in milliseconds since the UNIX epoch.
    pub last_pin_timestamp: Option<i64>,
    /// The permissions of the user in the channel, overwrites included; only
    /// in the channel of an interaction.
    pub permissions: Option<String>,
    pub flags: Option<u64>,
    /// The messages of the channel that the cache keeps; a fresher copy
    /// leaves them as they are.
    pub messages: CacheDock<Snowflake, Message>,
}

/// The values of a guild text channel, its texts taken as characters.
pub ghost struct GuildTextChannelView {
    pub id: Seq<char>,
    pub kind: ChannelKind,
    pub name: Option<Seq<char>>,
    pub guild_id: Option<Seq<char>>,
    pub position: Option<u64>,
    pub permission_overwrites: Option<Seq<PermissionOverwriteView>>,
    pub topic: Option<Seq<char>>,
    pub nsfw: Option<bool>,
    pub last_message_id: Option<Seq<char>>,
    pub rate_limit_per_user: Option<u64>,
    pub parent_id: Option<Seq<char>>,
    pub last_pin_timestamp: Option<i64>,
    pub permissions: Option<Seq<char>>,
    pub flags: Option<u64>,
}

impl View for GuildTextChannel {
    type V = GuildTextChannelView;

    open spec fn view(&self) -> GuildTextChannelView {
        GuildTextChannelView {
            id: self.id@,
            kind: self.kind,
            name: opt_view(self.name),
            guild_id: opt_guild_view(self.guild_id),
            position: self.position,
            permission_overwrites: opt_overwrites_view(self.permission_overwrites),
            topic: opt_view(self.topic),
            nsfw: self.nsfw,
            last_message_id: opt_snowflake_view(self.last_message_id),
            rate_limit_per_user: self.rate_limit_per_user,
            parent_id: opt_channel_view(self.parent_id),
            last_pin_timestamp: self.last_pin_timestamp,
            permissions: opt_view(self.permissions),
            flags: self.flags,
        }
    }
}

/// A guild text channel after it took the fields of a fresher copy: all but `kind` come from the copy.
pub open spec fn guild_text_channel_after_update(old: GuildTextChannelView, from: GuildTextChannelView) -> GuildTextChannelView {
    GuildTextChannelView {
        kind: old.kind,
        ..from
    }
}

impl GuildTextChannel {
    /// Takes the fields `id`, `name`, `guild_id`, `position`, `permission_overwrites`, `topic`, `nsfw` of a fresher copy.
    fn update_part_1(&mut self, from: &Self)
        ensures
            final(self).messages == old(self).messages,
            final(self).id@ == from.id@,
            final(self).kind == old(self).kind,
            opt_view(final(self).name) == opt_view(from.name),
            opt_guild_view(final(self).guild_id) == opt_guild_view(from.guild_id),
            final(self).position == from.position,
            opt_overwrites_view(final(self).permission_overwrites) == opt_overwrites_view(from.permission_overwrites),
            opt_view(final(self).topic) == opt_view(from.topic),
            final(self).nsfw == from.nsfw,
            opt_snowflake_view(final(self).last_message_id) == opt_snowflake_view(old(self).last_message_id),
            final(self).rate_limit_per_user == old(self).rate_limit_per_user,
            opt_channel_view(final(self).parent_id) == opt_channel_view(old(self).parent_id),
            final(self).last_pin_timestamp == old(self).last_pin_timestamp,
            opt_view(final(self).permissions) == opt_view(old(self).permissions),
            final(self).flags == old(self).flags,
    {
        if self.id != from.id {
            self.id = from.id.clone();
        }
        if !opt_str_eq(&self.name, &from.name) {
            self.name = from.name.clone();
        }
        if self.guild_id != from.guild_id {
            self.guild_id = from.guild_id.clone();
        }
        if self.position != from.position {
            self.position = from.position;
        }
        if !overwrites_eq(&self.permission_overwrites, &from.permission_overwrites) {
            self.permission_overwrites = clone_overwrites(&from.permission_overwrites);
        }
        if !opt_str_eq(&self.topic, &from.topic) {
            self.topic = from.topic.clone();
        }
        if self.nsfw != from.nsfw {
            self.nsfw = from.nsfw;
        }
    }

    /// Takes the fields `last_message_id`, `rate_limit_per_user`, `parent_id`, `last_pin_timestamp`, `permissions`, `flags` of a fresher copy.
    fn update_part_2(&mut self, from: &Self)
        ensures
            final(self).messages == old(self).messages,
            final(self).id@ == old(self).id@,
            final(self).kind == old(self).kind,
            opt_view(final(self).name) == opt_view(old(self).name),
            opt_guild_view(final(self).guild_id) == opt_guild_view(old(self).guild_id),
            final(self).position == old(self).position,
            opt_overwrites_view(final(self).permission_overwrites) == opt_overwrites_view(old(self).permission_overwrites),
            opt_view(final(self).topic) == opt_view(old(self).topic),
            final(self).nsfw == old(self).nsfw,
            opt_snowflake_view(final(self).last_message_id) == opt_snowflake_view(from.last_message_id),
            final(self).rate_limit_per_user == from.rate_limit_per_user,
            opt_channel_view(final(self).parent_id) == opt_channel_view(from.parent_id),
            final(self).last_pin_timestamp == from.last_pin_timestamp,
            opt_view(final(self).permissions) == opt_view(from.permissions),
            final(self).flags == from.flags,
    {
        if self.last_message_id != from.last_message_id {
            self.last_message_id = from.last_message_id.clone();
        }
        if self.rate_limit_per_user != from.rate_limit_per_user {
            self.rate_limit_per_user = from.rate_limit_per_user;
        }
        if self.parent_id != from.parent_id {
            self.parent_id = from.parent_id.clone();
        }
        if self.last_pin_timestamp != from.last_pin_timestamp {
            self.last_pin_timestamp = from.last_pin_timestamp;
        }
        if !opt_str_eq(&self.permissions, &from.permissions) {
            self.permissions = from.permissions.clone();
        }
        if self.flags != from.flags {
            self.flags = from.flags;
        }
    }
}

impl UpdateCache for GuildTextChannel {
    fn update(&mut self, from: &Self)
        ensures
            final(self).messages == old(self).messages,
            final(self)@ == guild_text_channel_after_update(old(self)@, from@),
    {
        self.update_part_1(from);
        self.update_part_2(from);
    }
}

/// A channel of direct messages.
#[derive(Debug)]
pub struct Dm {
    pub id: ChannelId,
    pub kind: ChannelKind,
    pub last_message_id: Option<String>,
    pub icon: Option<String>,
    /// When the last message was pinned, in milliseconds since the UNIX epoch.
    pub last_pin_timestamp: Option<i64>,
    /// The permissions of the user in the channel, overwrites included; only
    /// in the channel of an interaction.
    pub permissions: Option<String>,
    /// The messages of the channel that the cache keeps; a fresher copy
    /// leaves them as they are.
    pub messages: CacheDock<Snowflake, Message>,
}

/// The values of a dm, its texts taken as characters.
pub ghost struct DmView {
    pub id: Seq<char>,
    pub kind: ChannelKind,
    pub last_message_id: Option<Seq<char>>,
    pub icon: Option<Seq<char>>,
    pub last_pin_timestamp: Option<i64>,
    pub permissions: Option<Seq<char>>,
}

impl View for Dm {
    type V = DmView;

    open spec fn view(&self) -> DmView {
        DmView {
            id: self.id@,
            kind: self.kind,
            last_message_id: opt_view(self.last_message_id),
            icon: opt_view(self.icon),
            last_pin_timestamp: self.last_pin_timestamp,
            permissions: opt_view(self.permissions),
        }
    }
}

impl UpdateCache for Dm {
    fn update(&mut self, from: &Self)
        ensures
            final(self).messages == old(self).messages,
            final(self)@ == from@,
    {
        if self.id != from.id {
            self.id = from.id.clone();
        }
        if self.kind != from.kind {
            self.kind = from.kind;
        }
        if !opt_str_eq(&self.last_message_id, &from.last_message_id) {
            self.last_message_id = from.last_message_id.clone();
        }
        if !opt_str_eq(&self.icon, &from.icon) {
            self.icon = from.icon.clone();
        }
        if self.last_pin_timestamp != from.last_pin_timestamp {
            self.last_pin_timestamp = from.last_pin_timestamp;
        }
        if !opt_str_eq(&self.permissions, &from.permissions) {
            self.permissions = from.permissions.clone();
        }
    }
}

/// An announcement channel of a guild.
#[derive(Debug)]
pub struct GuildAnnouncement {
    pub id: ChannelId,
    pub kind: ChannelKind,
    pub name: Option<String>,
    pub guild_id: Option<GuildId>,
    pub position: Option<u64>,
    /// The permission overwrites of the channel.
    pub permission_overwrites: Option<Vec<PermissionOverwrite>>,
    pub nsfw: Option<bool>,
    pub last_message_id: Option<String>,
    pub rate_limit_per_user: Option<u64>,
    pub parent_id: Option<ChannelId>,
    /// When the last message was pinned, in milliseconds since the UNIX epoch.
    pub last_pin_timestamp: Option<i64>,
    /// The permissions of the user in the channel, overwrites included; only
    /// in the channel of an interaction.
    pub permissions: Option<String>,
    /// The messages of the channel that the cache keeps; a fresher copy
    /// leaves them as they are.
    pub messages: CacheDock<Snowflake, Message>,
}

/// The values of a guild announcement, its texts taken as characters.
pub ghost struct GuildAnnouncementView {
    pub id: Seq<char>,
    pub kind: ChannelKind,
    pub name: Option<Seq<char>>,
    pub guild_id: Option<Seq<char>>,
    pub position: Option<u64>,
    pub permission_overwrites: Option<Seq<PermissionOverwriteView>>,
    pub nsfw: Option<bool>,
    pub last_message_id: Option<Seq<char>>,
    pub rate_limit_per_user: Option<u64>,
    pub parent_id: Option<Seq<char>>,
    pub last_pin_timestamp: Option<i64>,
    pub permissions: Option<Seq<char>>,
}

impl View for GuildAnnouncement {
    type V = GuildAnnouncementView;

    open spec fn view(&self) -> GuildAnnouncementView {
        GuildAnnouncementView {
            id: self.id@,
            kind: self.kind,
            name: opt_view(self.name),
            guild_id: opt_guild_view(self.guild_id),
            position: self.position,
            permission_overwrites: opt_overwrites_view(self.permission_overwrites),
            nsfw: self.nsfw,
            last_message_id: opt_view(self.last_message_id),
            rate_limit_per_user: self.rate_limit_per_user,
            parent_id: opt_channel_view(self.parent_id),
            last_pin_timestamp: self.last_pin_timestamp,
            permissions: opt_view(self.permissions),
        }
    }
}

/// A guild announcement after it took the fields of a fresher copy: all but `kind` come from the copy.
pub open spec fn guild_announcement_after_update(old: GuildAnnouncementView, from: GuildAnnouncementView) -> GuildAnnouncementView {
    GuildAnnouncementView {
        kind: old.kind,
        ..from
    }
}

impl GuildAnnouncement {
    /// Takes the fields `id`, `name`, `guild_id`, `position`, `permission_overwrites`, `nsfw`, `last_message_id` of a fresher copy.
    fn update_part_1(&mut self, from: &Self)
        ensures
            final(self).messages == old(self).messages,
            final(self).id@ == from.id@,
            final(self).kind == old(self).kind,
            opt_view(final(self).name) == opt_view(from.name),
            opt_guild_view(final(self).guild_id) == opt_guild_view(from.guild_id),
            final(self).position == from.position,
            opt_overwrites_view(final(self).permission_overwrites) == opt_overwrites_view(from.permission_overwrites),
            final(self).nsfw == from.nsfw,
            opt_view(final(self).last_message_id) == opt_view(from.last_message_id),
            final(self).rate_limit_per_user == old(self).rate_limit_per_user,
            opt_channel_view(final(self).parent_id) == opt_channel_view(old(self).parent_id),
            final(self).last_pin_timestamp == old(self).last_pin_timestamp,
            opt_view(final(self).permissions) == opt_view(old(self).permissions),
    {
        if self.id != from.id {
            self.id = from.id.clone();
        }
        if !opt_str_eq(&self.name, &from.name) {
            self.name = from.name.clone();
        }
        if self.guild_id != from.guild_id {
            self.guild_id = from.guild_id.clone();
        }
        if self.position != from.position {
            self.position = from.position;
        }
        if !overwrites_eq(&self.permission_overwrites, &from.permission_overwrites) {
            self.permission_overwrites = clone_overwrites(&from.permission_overwrites);
        }
        if self.nsfw != from.nsfw {
            self.nsfw = from.nsfw;
        }
        if !opt_str_eq(&self.last_message_id, &from.last_message_id) {
            self.last_message_id = from.last_message_id.clone();
        }
    }

    /// Takes the fields `rate_limit_per_user`, `parent_id`, `last_pin_timestamp`, `permissions` of a fresher copy.
    fn update_part_2(&mut self, from: &Self)
        ensures
            final(self).messages == old(self).messages,
            final(self).id@ == old(self).id@,
            final(self).kind == old(self).kind,
            opt_view(final(self).name) == opt_view(old(self).name),
            opt_guild_view(final(self).guild_id) == opt_guild_view(old(self).guild_id),
            final(self).position == old(self).position,
            opt_overwrites_view(final(self).permission_overwrites) == opt_overwrites_view(old(self).permission_overwrites),
            final(self).nsfw == old(self).nsfw,
            opt_view(final(self).last_message_id) == opt_view(old(self).last_message_id),
            final(self).rate_limit_per_user == from.rate_limit_per_user,
            opt_channel_view(final(self).parent_id) == opt_channel_view(from.parent_id),
            final(self).last_pin_timestamp == from.last_pin_timestamp,
            opt_view(final(self).permissions) == opt_view(from.permissions),
    {
        if self.rate_limit_per_user != from.rate_limit_per_user {
            self.rate_limit_per_user = from.rate_limit_per_user;
        }
        if self.parent_id != from.parent_id {
            self.parent_id = from.parent_id.clone();
        }
        if self.last_pin_timestamp != from.last_pin_timestamp {
            self.last_pin_timestamp = from.last_pin_timestamp;
        }
        if !opt_str_eq(&self.permissions, &from.permissions) {
            self.permissions = from.permissions.clone();
        }
    }
}

impl UpdateCache for GuildAnnouncement {
    fn update(&mut self, from: &Self)
        ensures
            final(self).messages == old(self).messages,
            final(self)@ == guild_announcement_after_update(old(self)@, from@),
    {
        self.update_part_1(from);
        self.update_part_2(from);
    }
}

/// A forum channel of a guild.
#[derive(Debug)]
pub struct GuildForum {
    pub id: ChannelId,
    pub kind: ChannelKind,
    pub name: Option<String>,
    pub guild_id: Option<GuildId>,
    pub position: Option<u64>,
    /// The permission overwrites of the channel.
    pub permission_overwrites: Option<Vec<PermissionOverwrite>>,
    pub nsfw: Option<bool>,
    pub last_message_id: Option<String>,
    pub rate_limit_per_user: Option<u64>,
    pub parent_id: Option<ChannelId>,
    /// When the last message was pinned, in milliseconds since the UNIX epoch.
    pub last_pin_timestamp: Option<i64>,
    /// The permissions of the user in the channel, overwrites included; only
    /// in the channel of an interaction.
    pub permissions: Option<String>,
    /// The messages of the channel that the cache keeps; a fresher copy
    /// leaves them as they are.
    pub messages: CacheDock<Snowflake, Message>,
}

/// The values of a guild forum, its texts taken as characters.
pub ghost struct GuildForumView {
    pub id: Seq<char>,
    pub kind: ChannelKind,
    pub name: Option<Seq<char>>,
    pub guild_id: Option<Seq<char>>,
    pub position: Option<u64>,
    pub permission_overwrites: Option<Seq<PermissionOverwriteView>>,
    pub nsfw: Option<bool>,
    pub last_message_id: Option<Seq<char>>,
    pub rate_limit_per_user: Option<u64>,
    pub parent_id: Option<Seq<char>>,
    pub last_pin_timestamp: Option<i64>,
    pub permissions: Option<Seq<char>>,
}

impl View for GuildForum {
    type V = GuildForumView;

    open spec fn view(&self) -> GuildForumView {
        GuildForumView {
            id: self.id@,
            kind: self.kind,
            name: opt_view(self.name),
            guild_id: opt_guild_view(self.guild_id),
            position: self.position,
            permission_overwrites: opt_overwrites_view(self.permission_overwrites),
            nsfw: self.nsfw,
            last_message_id: opt_view(self.last_message_id),
            rate_limit_per_user: self.rate_limit_per_user,
            parent_id: opt_channel_view(self.parent_id),
            last_pin_timestamp: self.last_pin_timestamp,
            permissions: opt_view(self.permissions),
        }
    }
}

/// A guild forum after it took the fields of a fresher copy: all but `kind` come from the copy.
pub open spec fn guild_forum_after_update(old: GuildForumView, from: GuildForumView) -> GuildForumView {
    GuildForumView {
        kind: old.kind,
        ..from
    }
}

impl GuildForum {
    /// Takes the fields `id`, `name`, `guild_id`, `position`, `permission_overwrites`, `nsfw`, `last_message_id` of a fresher copy.
    fn update_part_1(&mut self, from: &Self)
        ensures
            final(self).messages == old(self).messages,
            final(self).id@ == from.id@,
            final(self).kind == old(self).kind,
            opt_view(final(self).name) == opt_view(from.name),
            opt_guild_view(final(self).guild_id) == opt_guild_view(from.guild_id),
            final(self).position == from.position,
            opt_overwrites_view(final(self).permission_overwrites) == opt_overwrites_view(from.permission_overwrites),
            final(self).nsfw == from.nsfw,
            opt_view(final(self).last_message_id) == opt_view(from.last_message_id),
            final(self).rate_limit_per_user == old(self).rate_limit_per_user,
            opt_channel_view(final(self).parent_id) == opt_channel_view(old(self).parent_id),
            final(self).last_pin_timestamp == old(self).last_pin_timestamp,
            opt_view(final(self).permissions) == opt_view(old(self).permissions),
    {
        if self.id != from.id {
            self.id = from.id.clone();
        }
        if !opt_str_eq(&self.name, &from.name) {
            self.name = from.name.clone();
        }
        if self.guild_id != from.guild_id {
            self.guild_id = from.guild_id.clone();
        }
        if self.position != from.position {
            self.position = from.position;
        }
        if !overwrites_eq(&self.permission_overwrites, &from.permission_overwrites) {
            self.permission_overwrites = clone_overwrites(&from.permission_overwrites);
        }
        if self.nsfw != from.nsfw {
            self.nsfw = from.nsfw;
        }
        if !opt_str_eq(&self.last_message_id, &from.last_message_id) {
            self.last_message_id = from.last_message_id.clone();
        }
    }

    /// Takes the fields `rate_limit_per_user`, `parent_id`, `last_pin_timestamp`, `permissions` of a fresher copy.
    fn update_part_2(&mut self, from: &Self)
        ensures
            final(self).messages == old(self).messages,
            final(self).id@ == old(self).id@,
            final(self).kind == old(self).kind,
            opt_view(final(self).name) == opt_view(old(self).name),
            opt_guild_view(final(self).guild_id) == opt_guild_view(old(self).guild_id),
            final(self).position == old(self).position,
            opt_overwrites_view(final(self).permission_overwrites) == opt_overwrites_view(old(self).permission_overwrites),
            final(self).nsfw == old(self).nsfw,
            opt_view(final(self).last_message_id) == opt_view(old(self).last_message_id),
            final(self).rate_limit_per_user == from.rate_limit_per_user,
            opt_channel_view(final(self).parent_id) == opt_channel_view(from.parent_id),
            final(self).last_pin_timestamp == from.last_pin_timestamp,
            opt_view(final(self).permissions) == opt_view(from.permissions),
    {
        if self.rate_limit_per_user != from.rate_limit_per_user {
            self.rate_limit_per_user = from.rate_limit_per_user;
        }
        if self.parent_id != from.parent_id {
            self.parent_id = from.parent_id.clone();
        }
        if self.last_pin_timestamp != from.last_pin_timestamp {
            self.last_pin_timestamp = from.last_pin_timestamp;
        }
        if !opt_str_eq(&self.permissions, &from.permissions) {
            self.permissions = from.permissions.clone();
        }
    }
}

impl UpdateCache for GuildForum {
    fn update(&mut self, from: &Self)
        ensures
            final(self).messages == old(self).messages,
            final(self)@ == guild_forum_after_update(old(self)@, from@),
    {
        self.update_part_1(from);
        self.update_part_2(from);
    }
}

/// A stage channel of a guild.
#[derive(Debug)]
pub struct GuildStageVoice {
    pub id: ChannelId,
    pub kind: ChannelKind,
    pub name: Option<String>,
    pub guild_id: Option<GuildId>,
    pub position: Option<u64>,
    /// The permission overwrites of the channel.
    pub permission_overwrites: Option<Vec<PermissionOverwrite>>,
    pub bitrate: Option<u64>,
    pub user_limit: Option<u64>,
    pub parent_id: Option<ChannelId>,
    pub rtc_region: Option<String>,
    pub video_quality_mode: Option<u64>,
    /// The permissions of the user in the channel, overwrites included; only
    /// in the channel of an interaction.
    pub permissions: Option<String>,
    pub nsfw: Option<bool>,
    /// The messages of the channel that the cache keeps; a fresher copy
    /// leaves them as they are.
    pub messages: CacheDock<Snowflake, Message>,
}

/// The values of a guild stage voice, its texts taken as characters.
pub ghost struct GuildStageVoiceView {
    pub id: Seq<char>,
    pub kind: ChannelKind,
    pub name: Option<Seq<char>>,
    pub guild_id: Option<Seq<char>>,
    pub position: Option<u64>,
    pub permission_overwrites: Option<Seq<PermissionOverwriteView>>,
    pub bitrate: Option<u64>,
    pub user_limit: Option<u64>,
    pub parent_id: Option<Seq<char>>,
    pub rtc_region: Option<Seq<char>>,
    pub video_quality_mode: Option<u64>,
    pub permissions: Option<Seq<char>>,
    pub nsfw: Option<bool>,
}

impl View for GuildStageVoice {
    type V = GuildStageVoiceView;

    open spec fn view(&self) -> GuildStageVoiceView {
        GuildStageVoiceView {
            id: self.id@,
            kind: self.kind,
            name: opt_view(self.name),
            guild_id: opt_guild_view(self.guild_id),
            position: self.position,
            permission_overwrites: opt_overwrites_view(self.permission_overwrites),
            bitrate: self.bitrate,
            user_limit: self.user_limit,
            parent_id: opt_channel_view(self.parent_id),
            rtc_region: opt_view(self.rtc_region),
            video_quality_mode: self.video_quality_mode,
            permissions: opt_view(self.permissions),
            nsfw: self.nsfw,
        }
    }
}

/// A guild stage voice after it took the fields of a fresher copy: all but `kind` come from the copy.
pub open spec fn guild_stage_voice_after_update(old: GuildStageVoiceView, from: GuildStageVoiceView) -> GuildStageVoiceView {
    GuildStageVoiceView {
        kind: old.kind,
        ..from
    }
}

impl GuildStageVoice {
    /// Takes the fields `id`, `name`, `guild_id`, `position`, `permission_overwrites`, `bitrate`, `user_limit` of a fresher copy.
    fn update_part_1(&mut self, from: &Self)
        ensures
            final(self).messages == old(self).messages,
            final(self).id@ == from.id@,
            final(self).kind == old(self).kind,
            opt_view(final(self).name) == opt_view(from.name),
            opt_guild_view(final(self).guild_id) == opt_guild_view(from.guild_id),
            final(self).position == from.position,
            opt_overwrites_view(final(self).permission_overwrites) == opt_overwrites_view(from.permission_overwrites),
            final(self).bitrate == from.bitrate,
            final(self).user_limit == from.user_limit,
            opt_channel_view(final(self).parent_id) == opt_channel_view(old(self).parent_id),
            opt_view(final(self).rtc_region) == opt_view(old(self).rtc_region),
            final(self).video_quality_mode == old(self).video_quality_mode,
            opt_view(final(self).permissions) == opt_view(old(self).permissions),
            final(self).nsfw == old(self).nsfw,
    {
        if self.id != from.id {
            self.id = from.id.clone();
        }
        if !opt_str_eq(&self.name, &from.name) {
            self.name = from.name.clone();
        }
        if self.guild_id != from.guild_id {
            self.guild_id = from.guild_id.clone();
        }
        if self.position != from.position {
            self.position = from.position;
        }
        if !overwrites_eq(&self.permission_overwrites, &from.permission_overwrites) {
            self.permission_overwrites = clone_overwrites(&from.permission_overwrites);
        }
        if self.bitrate != from.bitrate {
            self.bitrate = from.bitrate;
        }
        if self.user_limit != from.user_limit {
            self.user_limit = from.user_limit;
        }
    }

    /// Takes the fields `parent_id`, `rtc_region`, `video_quality_mode`, `permissions`, `nsfw` of a fresher copy.
    fn update_part_2(&mut self, from: &Self)
        ensures
            final(self).messages == old(self).messages,
            final(self).id@ == old(self).id@,
            final(self).kind == old(self).kind,
            opt_view(final(self).name) == opt_view(old(self).name),
            opt_guild_view(final(self).guild_id) == opt_guild_view(old(self).guild_id),
            final(self).position == old(self).position,
            opt_overwrites_view(final(self).permission_overwrites) == opt_overwrites_view(old(self).permission_overwrites),
            final(self).bitrate == old(self).bitrate,
            final(self).user_limit == old(self).user_limit,
            opt_channel_view(final(self).parent_id) == opt_channel_view(from.parent_id),
            opt_view(final(self).rtc_region) == opt_view(from.rtc_region),
            final(self).video_quality_mode == from.video_quality_mode,
            opt_view(final(self).permissions) == opt_view(from.permissions),
            final(self).nsfw == from.nsfw,
    {
        if self.parent_id != from.parent_id {
            self.parent_id = from.parent_id.clone();
        }
        if !opt_str_eq(&self.rtc_region, &from.rtc_region) {
            self.rtc_region = from.rtc_region.clone();
        }
        if self.video_quality_mode != from.video_quality_mode {
            self.video_quality_mode = from.video_quality_mode;
        }
        if !opt_str_eq(&self.permissions, &from.permissions) {
            self.permissions = from.permissions.clone();
        }
        if self.nsfw != from.nsfw {
            self.nsfw = from.nsfw;
        }
    }
}

impl UpdateCache for GuildStageVoice {
    fn update(&mut self, from: &Self)
        ensures
            final(self).messages == old(self).messages,
            final(self)@ == guild_stage_voice_after_update(old(self)@, from@),
    {
        self.update_part_1(from);
        self.update_part_2(from);
    }
}

/// A thread of an announcement channel.
#[derive(Debug)]
pub struct AnnouncementThread {
    pub id: ChannelId,
    pub name: Option<String>,
    pub guild_id: Option<GuildId>,
    pub parent_id: Option<ChannelId>,
    pub creator_id: String,
    pub kind: ChannelKind,
    pub last_message_id: Option<String>,
    pub locked: bool,
    pub auto_archive_duration: u64,
    /// When the thread was archived, in milliseconds since the UNIX epoch.
    pub archive_timestamp: Option<i64>,
    /// When the thread was locked, in milliseconds since the UNIX epoch.
    pub locked_timestamp: Option<i64>,
    pub message_count: u64,
    pub member_count: u64,
    pub thread_metadata: ThreadMetadata,
    pub default_auto_archive_duration: u64,
    /// The messages of the channel that the cache keeps; a fresher copy
    /// leaves them as they are.
    pub messages: CacheDock<Snowflake, Message>,
}

/// The values of a announcement thread, its texts taken as characters.
pub ghost struct AnnouncementThreadView {
    pub id: Seq<char>,
    pub name: Option<Seq<char>>,
    pub guild_id: Option<Seq<char>>,
    pub parent_id: Option<Seq<char>>,
    pub creator_id: Seq<char>,
    pub kind: ChannelKind,
    pub last_message_id: Option<Seq<char>>,
    pub locked: bool,
    pub auto_archive_duration: u64,
    pub archive_timestamp: Option<i64>,
    pub locked_timestamp: Option<i64>,
    pub message_count: u64,
    pub member_count: u64,
    pub thread_metadata: ThreadMetadata,
    pub default_auto_archive_duration: u64,
}

impl View for AnnouncementThread {
    type V = AnnouncementThreadView;

    open spec fn view(&self) -> AnnouncementThreadView {
        AnnouncementThreadView {
            id: self.id@,
            name: opt_view(self.name),
            guild_id: opt_guild_view(self.guild_id),
            parent_id: opt_channel_view(self.parent_id),
            creator_id: self.creator_id@,
            kind: self.kind,
            last_message_id: opt_view(self.last_message_id),
            locked: self.locked,
            auto_archive_duration: self.auto_archive_duration,
            archive_timestamp: self.archive_timestamp,
            locked_timestamp: self.locked_timestamp,
            message_count: self.message_count,
            member_count: self.member_count,
            thread_metadata: self.thread_metadata,
            default_auto_archive_duration: self.default_auto_archive_duration,
        }
    }
}

impl AnnouncementThread {
    /// Takes the fields `id`, `name`, `guild_id`, `parent_id`, `creator_id`, `kind`, `last_message_id` of a fresher copy.
    fn update_part_1(&mut self, from: &Self)
        ensures
            final(self).messages == old(self).messages,
            final(self).id@ == from.id@,
            opt_view(final(self).name) == opt_view(from.name),
            opt_guild_view(final(self).guild_id) == opt_guild_view(from.guild_id),
            opt_channel_view(final(self).parent_id) == opt_channel_view(from.parent_id),
            final(self).creator_id@ == from.creator_id@,
            final(self).kind == from.kind,
            opt_view(final(self).last_message_id) == opt_view(from.last_message_id),
            final(self).locked == old(self).locked,
            final(self).auto_archive_duration == old(self).auto_archive_duration,
            final(self).archive_timestamp == old(self).archive_timestamp,
            final(self).locked_timestamp == old(self).locked_timestamp,
            final(self).message_count == old(self).message_count,
            final(self).member_count == old(self).member_count,
            final(self).thread_metadata == old(self).thread_metadata,
            final(self).default_auto_archive_duration == old(self).default_auto_archive_duration,
    {
        if self.id != from.id {
            self.id = from.id.clone();
        }
        if !opt_str_eq(&self.name, &from.name) {
            self.name = from.name.clone();
        }
        if self.guild_id != from.guild_id {
            self.guild_id = from.guild_id.clone();
        }
        if self.parent_id != from.parent_id {
            self.parent_id = from.parent_id.clone();
        }
        if self.creator_id != from.creator_id {
            self.creator_id = from.creator_id.clone();
        }
        if self.kind != from.kind {
            self.kind = from.kind;
        }
        if !opt_str_eq(&self.last_message_id, &from.last_message_id) {
            self.last_message_id = from.last_message_id.clone();
        }
    }

    /// Takes the fields `locked`, `auto_archive_duration`, `archive_timestamp`, `locked_timestamp`, `message_count`, `member_count`, `thread_metadata` of a fresher copy.
    fn update_part_2(&mut self, from: &Self)
        ensures
            final(self).messages == old(self).messages,
            final(self).id@ == old(self).id@,
            opt_view(final(self).name) == opt_view(old(self).name),
            opt_guild_view(final(self).guild_id) == opt_guild_view(old(self).guild_id),
            opt_channel_view(final(self).parent_id) == opt_channel_view(old(self).parent_id),
            final(self).creator_id@ == old(self).creator_id@,
            final(self).kind == old(self).kind,
            opt_view(final(self).last_message_id) == opt_view(old(self).last_message_id),
            final(self).locked == from.locked,
            final(self).auto_archive_duration == from.auto_archive_duration,
            final(self).archive_timestamp == from.archive_timestamp,
            final(self).locked_timestamp == from.locked_timestamp,
            final(self).message_count == from.message_count,
            final(self).member_count == from.member_count,
            final(self).thread_metadata == from.thread_metadata,
            final(self).default_auto_archive_duration == old(self).default_auto_archive_duration,
    {
        if self.locked != from.locked {
            self.locked = from.locked;
        }
        if self.auto_archive_duration != from.auto_archive_duration {
            self.auto_archive_duration = from.auto_archive_duration;
        }
        if self.archive_timestamp != from.archive_timestamp {
            self.archive_timestamp = from.archive_timestamp;
        }
        if self.locked_timestamp != from.locked_timestamp {
            self.locked_timestamp = from.locked_timestamp;
        }
        if self.message_count != from.message_count {
            self.message_count = from.message_count;
        }
        if self.member_count != from.member_count {
            self.member_count = from.member_count;
        }
        if self.thread_metadata != from.thread_metadata {
            self.thread_metadata = from.thread_metadata;
        }
    }

    /// Takes the fields `default_auto_archive_duration` of a fresher copy.
    fn update_part_3(&mut self, from: &Self)
        ensures
            final(self).messages == old(self).messages,
            final(self).id@ == old(self).id@,
            opt_view(final(self).name) == opt_view(old(self).name),
            opt_guild_view(final(self).guild_id) == opt_guild_view(old(self).guild_id),
            opt_channel_view(final(self).parent_id) == opt_channel_view(old(self).parent_id),
            final(self).creator_id@ == old(self).creator_id@,
            final(self).kind == old(self).kind,
            opt_view(final(self).last_message_id) == opt_view(old(self).last_message_id),
            final(self).locked == old(self).locked,
            final(self).auto_archive_duration == old(self).auto_archive_duration,
            final(self).archive_timestamp == old(self).archive_timestamp,
            final(self).locked_timestamp == old(self).locked_timestamp,
            final(self).message_count == old(self).message_count,
            final(self).member_count == old(self).member_count,
            final(self).thread_metadata == old(self).thread_metadata,
            final(self).default_auto_archive_duration == from.default_auto_archive_duration,
    {
        if self.default_auto_archive_duration != from.default_auto_archive_duration {
            self.default_auto_archive_duration = from.default_auto_archive_duration;
        }
    }
}

impl UpdateCache for AnnouncementThread {
    fn update(&mut self, from: &Self)
        ensures
            final(self).messages == old(self).messages,
            final(self)@ == from@,
    {
        self.update_part_1(from);
        self.update_part_2(from);
        self.update_part_3(from);
    }
}

/// A public thread.
#[derive(Debug)]
pub struct PublicThread {
    pub id: ChannelId,
    pub name: Option<String>,
    pub guild_id: Option<GuildId>,
    pub parent_id: Option<ChannelId>,
    pub creator_id: String,
    pub kind: ChannelKind,
    pub last_message_id: Option<String>,
    pub locked: bool,
    pub auto_archive_duration: u64,
    /// When the thread was archived, in milliseconds since the UNIX epoch.
    pub archive_timestamp: Option<i64>,
    /// When the thread was locked, in milliseconds since the UNIX epoch.
    pub locked_timestamp: Option<i64>,
    pub message_count: u64,
    pub member_count: u64,
    pub thread_metadata: ThreadMetadata,
    pub default_auto_archive_duration: u64,
    /// The messages of the channel that the cache keeps; a fresher copy
    /// leaves them as they are.
    pub messages: CacheDock<Snowflake, Message>,
}

/// The values of a public thread, its texts taken as characters.
pub ghost struct PublicThreadView {
    pub id: Seq<char>,
    pub name: Option<Seq<char>>,
    pub guild_id: Option<Seq<char>>,
    pub parent_id: Option<Seq<char>>,
    pub creator_id: Seq<char>,
    pub kind: ChannelKind,
    pub last_message_id: Option<Seq<char>>,
    pub locked: bool,
    pub auto_archive_duration: u64,
    pub archive_timestamp: Option<i64>,
    pub locked_timestamp: Option<i64>,
    pub message_count: u64,
    pub member_count: u64,
    pub thread_metadata: ThreadMetadata,
    pub default_auto_archive_duration: u64,
}

impl View for PublicThread {
    type V = PublicThreadView;

    open spec fn view(&self) -> PublicThreadView {
        PublicThreadView {
            id: self.id@,
            name: opt_view(self.name),
            guild_id: opt_guild_view(self.guild_id),
            parent_id: opt_channel_view(self.parent_id),
            creator_id: self.creator_id@,
            kind: self.kind,
            last_message_id: opt_view(self.last_message_id),
            locked: self.locked,
            auto_archive_duration: self.auto_archive_duration,
            archive_timestamp: self.archive_timestamp,
            locked_timestamp: self.locked_timestamp,
            message_count: self.message_count,
            member_count: self.member_count,
            thread_metadata: self.thread_metadata,
            default_auto_archive_duration: self.default_auto_archive_duration,
        }
    }
}

impl PublicThread {
    /// Takes the fields `id`, `name`, `guild_id`, `parent_id`, `creator_id`, `kind`, `last_message_id` of a fresher copy.
    fn update_part_1(&mut self, from: &Self)
        ensures
            final(self).messages == old(self).messages,
            final(self).id@ == from.id@,
            opt_view(final(self).name) == opt_view(from.name),
            opt_guild_view(final(self).guild_id) == opt_guild_view(from.guild_id),
            opt_channel_view(final(self).parent_id) == opt_channel_view(from.parent_id),
            final(self).creator_id@ == from.creator_id@,
            final(self).kind == from.kind,
            opt_view(final(self).last_message_id) == opt_view(from.last_message_id),
            final(self).locked == old(self).locked,
            final(self).auto_archive_duration == old(self).auto_archive_duration,
            final(self).archive_timestamp == old(self).archive_timestamp,
            final(self).locked_timestamp == old(self).locked_timestamp,
            final(self).message_count == old(self).message_count,
            final(self).member_count == old(self).member_count,
            final(self).thread_metadata == old(self).thread_metadata,
            final(self).default_auto_archive_duration == old(self).default_auto_archive_duration,
    {
        if self.id != from.id {
            self.id = from.id.clone();
        }
        if !opt_str_eq(&self.name, &from.name) {
            self.name = from.name.clone();
        }
        if self.guild_id != from.guild_id {
            self.guild_id = from.guild_id.clone();
        }
        if self.parent_id != from.parent_id {
            self.parent_id = from.parent_id.clone();
        }
        if self.creator_id != from.creator_id {
            self.creator_id = from.creator_id.clone();
        }
        if self.kind != from.kind {
            self.kind = from.kind;
        }
        if !opt_str_eq(&self.last_message_id, &from.last_message_id) {
            self.last_message_id = from.last_message_id.clone();
        }
    }

    /// Takes the fields `locked`, `auto_archive_duration`, `archive_timestamp`, `locked_timestamp`, `message_count`, `member_count`, `thread_metadata` of a fresher copy.
    fn update_part_2(&mut self, from: &Self)
        ensures
            final(self).messages == old(self).messages,
            final(self).id@ == old(self).id@,
            opt_view(final(self).name) == opt_view(old(self).name),
            opt_guild_view(final(self).guild_id) == opt_guild_view(old(self).guild_id),
            opt_channel_view(final(self).parent_id) == opt_channel_view(old(self).parent_id),
            final(self).creator_id@ == old(self).creator_id@,
            final(self).kind == old(self).kind,
            opt_view(final(self).last_message_id) == opt_view(old(self).last_message_id),
            final(self).locked == from.locked,
            final(self).auto_archive_duration == from.auto_archive_duration,
            final(self).archive_timestamp == from.archive_timestamp,
            final(self).locked_timestamp == from.locked_timestamp,
            final(self).message_count == from.message_count,
            final(self).member_count == from.member_count,
            final(self).thread_metadata == from.thread_metadata,
            final(self).default_auto_archive_duration == old(self).default_auto_archive_duration,
    {
        if self.locked != from.locked {
            self.locked = from.locked;
        }
        if self.auto_archive_duration != from.auto_archive_duration {
            self.auto_archive_duration = from.auto_archive_duration;
        }
        if self.archive_timestamp != from.archive_timestamp {
            self.archive_timestamp = from.archive_timestamp;
        }
        if self.locked_timestamp != from.locked_timestamp {
            self.locked_timestamp = from.locked_timestamp;
        }
        if self.message_count != from.message_count {
            self.message_count = from.message_count;
        }
        if self.member_count != from.member_count {
            self.member_count = from.member_count;
        }
        if self.thread_metadata != from.thread_metadata {
            self.thread_metadata = from.thread_metadata;
        }
    }

    /// Takes the fields `default_auto_archive_duration` of a fresher copy.
    fn update_part_3(&mut self, from: &Self)
        ensures
            final(self).messages == old(self).messages,
            final(self).id@ == old(self).id@,
            opt_view(final(self).name) == opt_view(old(self).name),
            opt_guild_view(final(self).guild_id) == opt_guild_view(old(self).guild_id),
            opt_channel_view(final(self).parent_id) == opt_channel_view(old(self).parent_id),
            final(self).creator_id@ == old(self).creator_id@,
            final(self).kind == old(self).kind,
            opt_view(final(self).last_message_id) == opt_view(old(self).last_message_id),
            final(self).locked == old(self).locked,
            final(self).auto_archive_duration == old(self).auto_archive_duration,
            final(self).archive_timestamp == old(self).archive_timestamp,
            final(self).locked_timestamp == old(self).locked_timestamp,
            final(self).message_count == old(self).message_count,
            final(self).member_count == old(self).member_count,
            final(self).thread_metadata == old(self).thread_metadata,
            final(self).default_auto_archive_duration == from.default_auto_archive_duration,
    {
        if self.default_auto_archive_duration != from.default_auto_archive_duration {
            self.default_auto_archive_duration = from.default_auto_archive_duration;
        }
    }
}

impl UpdateCache for PublicThread {
    fn update(&mut self, from: &Self)
        ensures
            final(self).messages == old(self).messages,
            final(self)@ == from@,
    {
        self.update_part_1(from);
        self.update_part_2(from);
        self.update_part_3(from);
    }
}

/// A private thread.
#[derive(Debug)]
pub struct PrivateThread {
    pub id: ChannelId,
    pub name: Option<String>,
    pub guild_id: Option<GuildId>,
    pub parent_id: Option<ChannelId>,
    pub creator_id: String,
    pub kind: ChannelKind,
    pub last_message_id: Option<String>,
    pub locked: bool,
    pub auto_archive_duration: u64,
    /// When the thread was archived, in milliseconds since the UNIX epoch.
    pub archive_timestamp: Option<i64>,
    /// When the thread was locked, in milliseconds since the UNIX epoch.
    pub locked_timestamp: Option<i64>,
    pub message_count: u64,
    pub member_count: u64,
    pub thread_metadata: ThreadMetadata,
    pub default_auto_archive_duration: u64,
    /// The messages of the channel that the cache keeps; a fresher copy
    /// leaves them as they are.
    pub messages: CacheDock<Snowflake, Message>,
}

/// The values of a private thread, its texts taken as characters.
pub ghost struct PrivateThreadView {
    pub id: Seq<char>,
    pub name: Option<Seq<char>>,
    pub guild_id: Option<Seq<char>>,
    pub parent_id: Option<Seq<char>>,
    pub creator_id: Seq<char>,
    pub kind: ChannelKind,
    pub last_message_id: Option<Seq<char>>,
    pub locked: bool,
    pub auto_archive_duration: u64,
    pub archive_timestamp: Option<i64>,
    pub locked_timestamp: Option<i64>,
    pub message_count: u64,
    pub member_count: u64,
    pub thread_metadata: ThreadMetadata,
    pub default_auto_archive_duration: u64,
}

impl View for PrivateThread {
    type V = PrivateThreadView;

    open spec fn view(&self) -> PrivateThreadView {
        PrivateThreadView {
            id: self.id@,
            name: opt_view(self.name),
            guild_id: opt_guild_view(self.guild_id),
            parent_id: opt_channel_view(self.parent_id),
            creator_id: self.creator_id@,
            kind: self.kind,
            last_message_id: opt_view(self.last_message_id),
            locked: self.locked,
            auto_archive_duration: self.auto_archive_duration,
            archive_timestamp: self.archive_timestamp,
            locked_timestamp: self.locked_timestamp,
            message_count: self.message_count,
            member_count: self.member_count,
            thread_metadata: self.thread_metadata,
            default_auto_archive_duration: self.default_auto_archive_duration,
        }
    }
}

impl PrivateThread {
    /// Takes the fields `id`, `name`, `guild_id`, `parent_id`, `creator_id`, `kind`, `last_message_id` of a fresher copy.
    fn update_part_1(&mut self, from: &Self)
        ensures
            final(self).messages == old(self).messages,
            final(self).id@ == from.id@,
            opt_view(final(self).name) == opt_view(from.name),
            opt_guild_view(final(self).guild_id) == opt_guild_view(from.guild_id),
            opt_channel_view(final(self).parent_id) == opt_channel_view(from.parent_id),
            final(self).creator_id@ == from.creator_id@,
            final(self).kind == from.kind,
            opt_view(final(self).last_message_id) == opt_view(from.last_message_id),
            final(self).locked == old(self).locked,
            final(self).auto_archive_duration == old(self).auto_archive_duration,
            final(self).archive_timestamp == old(self).archive_timestamp,
            final(self).locked_timestamp == old(self).locked_timestamp,
            final(self).message_count == old(self).message_count,
            final(self).member_count == old(self).member_count,
            final(self).thread_metadata == old(self).thread_metadata,
            final(self).default_auto_archive_duration == old(self).default_auto_archive_duration,
    {
        if self.id != from.id {
            self.id = from.id.clone();
        }
        if !opt_str_eq(&self.name, &from.name) {
            self.name = from.name.clone();
        }
        if self.guild_id != from.guild_id {
            self.guild_id = from.guild_id.clone();
        }
        if self.parent_id != from.parent_id {
            self.parent_id = from.parent_id.clone();
        }
        if self.creator_id != from.creator_id {
            self.creator_id = from.creator_id.clone();
        }
        if self.kind != from.kind {
            self.kind = from.kind;
        }
        if !opt_str_eq(&self.last_message_id, &from.last_message_id) {
            self.last_message_id = from.last_message_id.clone();
        }
    }

    /// Takes the fields `locked`, `auto_archive_duration`, `archive_timestamp`, `locked_timestamp`, `message_count`, `member_count`, `thread_metadata` of a fresher copy.
    fn update_part_2(&mut self, from: &Self)
        ensures
            final(self).messages == old(self).messages,
            final(self).id@ == old(self).id@,
            opt_view(final(self).name) == opt_view(old(self).name),
            opt_guild_view(final(self).guild_id) == opt_guild_view(old(self).guild_id),
            opt_channel_view(final(self).parent_id) == opt_channel_view(old(self).parent_id),
            final(self).creator_id@ == old(self).creator_id@,
            final(self).kind == old(self).kind,
            opt_view(final(self).last_message_id) == opt_view(old(self).last_message_id),
            final(self).locked == from.locked,
            final(self).auto_archive_duration == from.auto_archive_duration,
            final(self).archive_timestamp == from.archive_timestamp,
            final(self).locked_timestamp == from.locked_timestamp,
            final(self).message_count == from.message_count,
            final(self).member_count == from.member_count,
            final(self).thread_metadata == from.thread_metadata,
            final(self).default_auto_archive_duration == old(self).default_auto_archive_duration,
    {
        if self.locked != from.locked {
            self.locked = from.locked;
        }
        if self.auto_archive_duration != from.auto_archive_duration {
            self.auto_archive_duration = from.auto_archive_duration;
        }
        if self.archive_timestamp != from.archive_timestamp {
            self.archive_timestamp = from.archive_timestamp;
        }
        if self.locked_timestamp != from.locked_timestamp {
            self.locked_timestamp = from.locked_timestamp;
        }
        if self.message_count != from.message_count {
            self.message_count = from.message_count;
        }
        if self.member_count != from.member_count {
            self.member_count = from.member_count;
        }
        if self.thread_metadata != from.thread_metadata {
            self.thread_metadata = from.thread_metadata;
        }
    }

    /// Takes the fields `default_auto_archive_duration` of a fresher copy.
    fn update_part_3(&mut self, from: &Self)
        ensures
            final(self).messages == old(self).messages,
            final(self).id@ == old(self).id@,
            opt_view(final(self).name) == opt_view(old(self).name),
            opt_guild_view(final(self).guild_id) == opt_guild_view(old(self).guild_id),
            opt_channel_view(final(self).parent_id) == opt_channel_view(old(self).parent_id),
            final(self).creator_id@ == old(self).creator_id@,
            final(self).kind == old(self).kind,
            opt_view(final(self).last_message_id) == opt_view(old(self).last_message_id),
            final(self).locked == old(self).locked,
            final(self).auto_archive_duration == old(self).auto_archive_duration,
            final(self).archive_timestamp == old(self).archive_timestamp,
            final(self).locked_timestamp == old(self).locked_timestamp,
            final(self).message_count == old(self).message_count,
            final(self).member_count == old(self).member_count,
            final(self).thread_metadata == old(self).thread_metadata,
            final(self).default_auto_archive_duration == from.default_auto_archive_duration,
    {
        if self.default_auto_archive_duration != from.default_auto_archive_duration {
            self.default_auto_archive_duration = from.default_auto_archive_duration;
        }
    }
}

impl UpdateCache for PrivateThread {
    fn update(&mut self, from: &Self)
        ensures
            final(self).messages == old(self).messages,
            final(self)@ == from@,
    {
        self.update_part_1(from);
        self.update_part_2(from);
        self.update_part_3(from);
    }
}


/// A thread, of one of its three kinds.
#[derive(Debug)]
pub enum Thread {
    PublicThread(PublicThread),
    PrivateThread(PrivateThread),
    AnnouncementThread(AnnouncementThread),
}

/// The values of a thread.
pub ghost enum ThreadView {
    PublicThread(PublicThreadView),
    PrivateThread(PrivateThreadView),
    AnnouncementThread(AnnouncementThreadView),
}

impl View for Thread {
    type V = ThreadView;

    open spec fn view(&self) -> ThreadView {
        match self {
            Thread::PublicThread(t) => ThreadView::PublicThread(t@),
            Thread::PrivateThread(t) => ThreadView::PrivateThread(t@),
            Thread::AnnouncementThread(t) => ThreadView::AnnouncementThread(t@),
        }
    }
}

/// A thread after it took the fields of a fresher copy: a copy of the same
/// kind gives all its fields; one of another kind gives none.
pub open spec fn thread_after_update(old: ThreadView, from: ThreadView) -> ThreadView {
    match (old, from) {
        (ThreadView::PublicThread(_), ThreadView::PublicThread(f)) => ThreadView::PublicThread(f),
        (ThreadView::PrivateThread(_), ThreadView::PrivateThread(f)) => ThreadView::PrivateThread(f),
        (ThreadView::AnnouncementThread(_), ThreadView::AnnouncementThread(f)) => ThreadView::AnnouncementThread(f),
        _ => old,
    }
}

impl UpdateCache for Thread {
    fn update(&mut self, from: &Self)
        ensures
            final(self)@ == thread_after_update(old(self)@, from@),
            dock_of(Channel::Thread(*final(self))) == dock_of(Channel::Thread(*old(self))),
    {
        match self {
            Thread::PublicThread(c) => {
                if let Thread::PublicThread(f) = from {
                    c.update(f);
                }
            },
            Thread::PrivateThread(c) => {
                if let Thread::PrivateThread(f) = from {
                    c.update(f);
                }
            },
            Thread::AnnouncementThread(c) => {
                if let Thread::AnnouncementThread(f) = from {
                    c.update(f);
                }
            },
        }
    }
}

/// A channel, of any kind that the client knows, or of none.
#[derive(Debug)]
pub enum Channel {
    Unknown(UnknownChannel),
    GuildText(GuildTextChannel),
    Dm(Dm),
    GuildVoice(GuildVoice),
    GuildCategory(GuildCategory),
    GuildAnnouncement(GuildAnnouncement),
    GuildStageVoice(GuildStageVoice),
    GuildForum(GuildForum),
    Thread(Thread),
}

/// The values of a channel.
pub ghost enum ChannelView {
    Unknown(UnknownChannelView),
    GuildText(GuildTextChannelView),
    Dm(DmView),
    GuildVoice(GuildVoiceView),
    GuildCategory(GuildCategoryView),
    GuildAnnouncement(GuildAnnouncementView),
    GuildStageVoice(GuildStageVoiceView),
    GuildForum(GuildForumView),
    Thread(ThreadView),
}

impl View for Channel {
    type V = ChannelView;

    open spec fn view(&self) -> ChannelView {
        match self {
            Channel::Unknown(c) => ChannelView::Unknown(c@),
            Channel::GuildText(c) => ChannelView::GuildText(c@),
            Channel::Dm(c) => ChannelView::Dm(c@),
            Channel::GuildVoice(c) => ChannelView::GuildVoice(c@),
            Channel::GuildCategory(c) => ChannelView::GuildCategory(c@),
            Channel::GuildAnnouncement(c) => ChannelView::GuildAnnouncement(c@),
            Channel::GuildStageVoice(c) => ChannelView::GuildStageVoice(c@),
            Channel::GuildForum(c) => ChannelView::GuildForum(c@),
            Channel::Thread(c) => ChannelView::Thread(c@),
        }
    }
}

/// A channel after it took the fields of a fresher copy: a copy of the
/// same kind updates it as that kind does; one of another kind leaves it
/// as it was.
pub open spec fn channel_after_update(old: ChannelView, from: ChannelView) -> ChannelView {
    match (old, from) {
        (ChannelView::Unknown(_), ChannelView::Unknown(f)) => ChannelView::Unknown(f),
        (ChannelView::GuildText(o), ChannelView::GuildText(f)) => ChannelView::GuildText(guild_text_channel_after_update(o, f)),
        (ChannelView::Dm(_), ChannelView::Dm(f)) => ChannelView::Dm(f),
        (ChannelView::GuildVoice(o), ChannelView::GuildVoice(f)) => ChannelView::GuildVoice(guild_voice_after_update(o, f)),
        (ChannelView::GuildCategory(o), ChannelView::GuildCategory(f)) => ChannelView::GuildCategory(guild_category_after_update(o, f)),
        (ChannelView::GuildAnnouncement(o), ChannelView::GuildAnnouncement(f)) => ChannelView::GuildAnnouncement(guild_announcement_after_update(o, f)),
        (ChannelView::GuildStageVoice(o), ChannelView::GuildStageVoice(f)) => ChannelView::GuildStageVoice(guild_stage_voice_after_update(o, f)),
        (ChannelView::GuildForum(o), ChannelView::GuildForum(f)) => ChannelView::GuildForum(guild_forum_after_update(o, f)),
        (ChannelView::Thread(o), ChannelView::Thread(f)) => ChannelView::Thread(thread_after_update(o, f)),
        _ => old,
    }
}

impl UpdateCache for Channel {
    fn update(&mut self, from: &Self)
        ensures
            final(self)@ == channel_after_update(old(self)@, from@),
            dock_of(*final(self)) == dock_of(*old(self)),
    {
        match self {
            Channel::Unknown(c) => {
                if let Channel::Unknown(f) = from {
                    c.update(f);
                }
            },
            Channel::GuildText(c) => {
                if let Channel::GuildText(f) = from {
                    c.update(f);
                }
            },
            Channel::Dm(c) => {
                if let Channel::Dm(f) = from {
                    c.update(f);
                }
            },
            Channel::GuildVoice(c) => {
                if let Channel::GuildVoice(f) = from {
                    c.update(f);
                }
            },
            Channel::GuildCategory(c) => {
                if let Channel::GuildCategory(f) = from {
                    c.update(f);
                }
            },
            Channel::GuildAnnouncement(c) => {
                if let Channel::GuildAnnouncement(f) = from {
                    c.update(f);
                }
            },
            Channel::GuildStageVoice(c) => {
                if let Channel::GuildStageVoice(f) = from {
                    c.update(f);
                }
            },
            Channel::GuildForum(c) => {
                if let Channel::GuildForum(f) = from {
                    c.update(f);
                }
            },
            Channel::Thread(c) => {
                if let Channel::Thread(f) = from {
                    c.update(f);
                }
            },
        }
    }
}

impl GuildTextChannel {
    /// A copy of the channel, its cached messages included.
    pub fn duplicate(&self) -> (r: GuildTextChannel)
        requires
            self.messages.wf(),
        ensures
            r@ == self@,
            r.messages.wf(),
            same_cached_messages(r.messages@, self.messages@),
    {
        GuildTextChannel {
            id: self.id.clone(),
            kind: self.kind,
            name: self.name.clone(),
            guild_id: self.guild_id.clone(),
            position: self.position,
            permission_overwrites: clone_overwrites(&self.permission_overwrites),
            topic: self.topic.clone(),
            nsfw: self.nsfw,
            last_message_id: self.last_message_id.clone(),
            rate_limit_per_user: self.rate_limit_per_user,
            parent_id: self.parent_id.clone(),
            last_pin_timestamp: self.last_pin_timestamp,
            permissions: self.permissions.clone(),
            flags: self.flags,
            messages: self.messages.duplicate(),
        }
    }
}

impl Dm {
    /// A copy of the channel, its cached messages included.
    pub fn duplicate(&self) -> (r: Dm)
        requires
            self.messages.wf(),
        ensures
            r@ == self@,
            r.messages.wf(),
            same_cached_messages(r.messages@, self.messages@),
    {
        Dm {
            id: self.id.clone(),
            kind: self.kind,
            last_message_id: self.last_message_id.clone(),
            icon: self.icon.clone(),
            last_pin_timestamp: self.last_pin_timestamp,
            permissions: self.permissions.clone(),
            messages: self.messages.duplicate(),
        }
    }
}

impl GuildAnnouncement {
    /// A copy of the channel, its cached messages included.
    pub fn duplicate(&self) -> (r: GuildAnnouncement)
        requires
            self.messages.wf(),
        ensures
            r@ == self@,
            r.messages.wf(),
            same_cached_messages(r.messages@, self.messages@),
    {
        GuildAnnouncement {
            id: self.id.clone(),
            kind: self.kind,
            name: self.name.clone(),
            guild_id: self.guild_id.clone(),
            position: self.position,
            permission_overwrites: clone_overwrites(&self.permission_overwrites),
            nsfw: self.nsfw,
            last_message_id: self.last_message_id.clone(),
            rate_limit_per_user: self.rate_limit_per_user,
            parent_id: self.parent_id.clone(),
            last_pin_timestamp: self.last_pin_timestamp,
            permissions: self.permissions.clone(),
            messages: self.messages.duplicate(),
        }
    }
}

impl GuildForum {
    /// A copy of the channel, its cached messages included.
    pub fn duplicate(&self) -> (r: GuildForum)
        requires
            self.messages.wf(),
        ensures
            r@ == self@,
            r.messages.wf(),
            same_cached_messages(r.messages@, self.messages@),
    {
        GuildForum {
            id: self.id.clone(),
            kind: self.kind,
            name: self.name.clone(),
            guild_id: self.guild_id.clone(),
            position: self.position,
            permission_overwrites: clone_overwrites(&self.permission_overwrites),
            nsfw: self.nsfw,
            last_message_id: self.last_message_id.clone(),
            rate_limit_per_user: self.rate_limit_per_user,
            parent_id: self.parent_id.clone(),
            last_pin_timestamp: self.last_pin_timestamp,
            permissions: self.permissions.clone(),
            messages: self.messages.duplicate(),
        }
    }
}

impl GuildStageVoice {
    /// A copy of the channel, its cached messages included.
    pub fn duplicate(&self) -> (r: GuildStageVoice)
        requires
            self.messages.wf(),
        ensures
            r@ == self@,
            r.messages.wf(),
            same_cached_messages(r.messages@, self.messages@),
    {
        GuildStageVoice {
            id: self.id.clone(),
            kind: self.kind,
            name: self.name.clone(),
            guild_id: self.guild_id.clone(),
            position: self.position,
            permission_overwrites: clone_overwrites(&self.permission_overwrites),
            bitrate: self.bitrate,
            user_limit: self.user_limit,
            parent_id: self.parent_id.clone(),
            rtc_region: self.rtc_region.clone(),
            video_quality_mode: self.video_quality_mode,
            permissions: self.permissions.clone(),
            nsfw: self.nsfw,
            messages: self.messages.duplicate(),
        }
    }
}

impl AnnouncementThread {
    /// A copy of the channel, its cached messages included.
    pub fn duplicate(&self) -> (r: AnnouncementThread)
        requires
            self.messages.wf(),
        ensures
            r@ == self@,
            r.messages.wf(),
            same_cached_messages(r.messages@, self.messages@),
    {
        AnnouncementThread {
            id: self.id.clone(),
            name: self.name.clone(),
            guild_id: self.guild_id.clone(),
            parent_id: self.parent_id.clone(),
            creator_id: self.creator_id.clone(),
            kind: self.kind,
            last_message_id: self.last_message_id.clone(),
            locked: self.locked,
            auto_archive_duration: self.auto_archive_duration,
            archive_timestamp: self.archive_timestamp,
            locked_timestamp: self.locked_timestamp,
            message_count: self.message_count,
            member_count: self.member_count,
            thread_metadata: self.thread_metadata,
            default_auto_archive_duration: self.default_auto_archive_duration,
            messages: self.messages.duplicate(),
        }
    }
}

impl PublicThread {
    /// A copy of the channel, its cached messages included.
    pub fn duplicate(&self) -> (r: PublicThread)
        requires
            self.messages.wf(),
        ensures
            r@ == self@,
            r.messages.wf(),
            same_cached_messages(r.messages@, self.messages@),
    {
        PublicThread {
            id: self.id.clone(),
            name: self.name.clone(),
            guild_id: self.guild_id.clone(),
            parent_id: self.parent_id.clone(),
            creator_id: self.creator_id.clone(),
            kind: self.kind,
            last_message_id: self.last_message_id.clone(),
            locked: self.locked,
            auto_archive_duration: self.auto_archive_duration,
            archive_timestamp: self.archive_timestamp,
            locked_timestamp: self.locked_timestamp,
            message_count: self.message_count,
            member_count: self.member_count,
            thread_metadata: self.thread_metadata,
            default_auto_archive_duration: self.default_auto_archive_duration,
            messages: self.messages.duplicate(),
        }
    }
}

impl PrivateThread {
    /// A copy of the channel, its cached messages included.
    pub fn duplicate(&self) -> (r: PrivateThread)
        requires
            self.messages.wf(),
        ensures
            r@ == self@,
            r.messages.wf(),
            same_cached_messages(r.messages@, self.messages@),
    {
        PrivateThread {
            id: self.id.clone(),
            name: self.name.clone(),
            guild_id: self.guild_id.clone(),
            parent_id: self.parent_id.clone(),
            creator_id: self.creator_id.clone(),
            kind: self.kind,
            last_message_id: self.last_message_id.clone(),
            locked: self.locked,
            auto_archive_duration: self.auto_archive_duration,
            archive_timestamp: self.archive_timestamp,
            locked_timestamp: self.locked_timestamp,
            message_count: self.message_count,
            member_count: self.member_count,
            thread_metadata: self.thread_metadata,
            default_auto_archive_duration: self.default_auto_archive_duration,
            messages: self.messages.duplicate(),
        }
    }
}

/// The store of messages that a channel carries, if its kind has one.
pub open spec fn dock_of(c: Channel) -> Option<CacheDock<Snowflake, Message>> {
    match c {
        Channel::GuildText(x) => Some(x.messages),
        Channel::Dm(x) => Some(x.messages),
        Channel::GuildAnnouncement(x) => Some(x.messages),
        Channel::GuildForum(x) => Some(x.messages),
        Channel::GuildStageVoice(x) => Some(x.messages),
        Channel::Thread(Thread::PublicThread(x)) => Some(x.messages),
        Channel::Thread(Thread::PrivateThread(x)) => Some(x.messages),
        Channel::Thread(Thread::AnnouncementThread(x)) => Some(x.messages),
        _ => None,
    }
}

/// Whether the store of messages of a channel, if any, is well formed.
pub open spec fn docks_wf(c: Channel) -> bool {
    match dock_of(c) {
        Some(d) => d.wf(),
        None => true,
    }
}

/// Whether two channels carry the same cached messages.
pub open spec fn same_docks(a: Channel, b: Channel) -> bool {
    match (dock_of(a), dock_of(b)) {
        (Some(x), Some(y)) => same_cached_messages(x@, y@),
        (None, None) => true,
        _ => false,
    }
}

impl Thread {
    /// A copy of the thread, its cached messages included.
    pub fn duplicate(&self) -> (r: Thread)
        requires
            docks_wf(Channel::Thread(*self)),
        ensures
            r@ == self@,
            docks_wf(Channel::Thread(r)),
            same_docks(Channel::Thread(r), Channel::Thread(*self)),
    {
        match self {
            Thread::PublicThread(t) => Thread::PublicThread(t.duplicate()),
            Thread::PrivateThread(t) => Thread::PrivateThread(t.duplicate()),
            Thread::AnnouncementThread(t) => Thread::AnnouncementThread(t.duplicate()),
        }
    }
}

impl Channel {
    /// A copy of the channel, its cached messages included.
    pub fn duplicate(&self) -> (r: Channel)
        requires
            docks_wf(*self),
        ensures
            r@ == self@,
            docks_wf(r),
            same_docks(r, *self),
    {
        match self {
            Channel::Unknown(c) => Channel::Unknown(c.clone()),
            Channel::GuildText(c) => Channel::GuildText(c.duplicate()),
            Channel::Dm(c) => Channel::Dm(c.duplicate()),
            Channel::GuildVoice(c) => Channel::GuildVoice(c.clone()),
            Channel::GuildCategory(c) => Channel::GuildCategory(c.clone()),
            Channel::GuildAnnouncement(c) => Channel::GuildAnnouncement(c.duplicate()),
            Channel::GuildStageVoice(c) => Channel::GuildStageVoice(c.duplicate()),
            Channel::GuildForum(c) => Channel::GuildForum(c.duplicate()),
            Channel::Thread(c) => Channel::Thread(c.duplicate()),
        }
    }
}

/// Whether two channels are of the same kind: the same variant, with the
/// same kind tag where the variant keeps one.
pub open spec fn same_channel_kind(a: ChannelView, b: ChannelView) -> bool {
    match (a, b) {
        (ChannelView::Unknown(_), ChannelView::Unknown(_)) => true,
        (ChannelView::GuildText(x), ChannelView::GuildText(y)) => x.kind == y.kind,
        (ChannelView::Dm(_), ChannelView::Dm(_)) => true,
        (ChannelView::GuildVoice(x), ChannelView::GuildVoice(y)) => x.kind == y.kind,
        (ChannelView::GuildCategory(x), ChannelView::GuildCategory(y)) => x.kind == y.kind,
        (ChannelView::GuildAnnouncement(x), ChannelView::GuildAnnouncement(y)) => x.kind == y.kind,
        (ChannelView::GuildStageVoice(x), ChannelView::GuildStageVoice(y)) => x.kind == y.kind,
        (ChannelView::GuildForum(x), ChannelView::GuildForum(y)) => x.kind == y.kind,
        (ChannelView::Thread(ThreadView::PublicThread(_)), ChannelView::Thread(ThreadView::PublicThread(_))) => true,
        (ChannelView::Thread(ThreadView::PrivateThread(_)), ChannelView::Thread(ThreadView::PrivateThread(_))) => true,
        (ChannelView::Thread(ThreadView::AnnouncementThread(_)), ChannelView::Thread(ThreadView::AnnouncementThread(_))) => true,
        _ => false,
    }
}

/// Whether two channels are of the same variant.
pub open spec fn same_channel_variant(a: ChannelView, b: ChannelView) -> bool {
    ||| (a is Unknown && b is Unknown)
    ||| (a is GuildText && b is GuildText)
    ||| (a is Dm && b is Dm)
    ||| (a is GuildVoice && b is GuildVoice)
    ||| (a is GuildCategory && b is GuildCategory)
    ||| (a is GuildAnnouncement && b is GuildAnnouncement)
    ||| (a is GuildStageVoice && b is GuildStageVoice)
    ||| (a is GuildForum && b is GuildForum)
    ||| (a matches ChannelView::Thread(x) && b matches ChannelView::Thread(y) && (
        (x is PublicThread && y is PublicThread) || (x is PrivateThread && y is PrivateThread)
            || (x is AnnouncementThread && y is AnnouncementThread)))
}

/// A channel updated from a fresher copy of its own kind becomes that copy;
/// from a copy of another variant it stays as it was; and what it becomes
/// depends on it only through its kind.
pub proof fn law_channel_takes_fresher_copy(old: ChannelView, other: ChannelView, from: ChannelView)
    ensures
        same_channel_kind(old, from) ==> channel_after_update(old, from) == from,
        !same_channel_variant(old, from) ==> channel_after_update(old, from) == old,
        same_channel_kind(old, other) && same_channel_variant(old, from)
            ==> channel_after_update(old, from) == channel_after_update(other, from),
        channel_after_update(old, old) == old,
{
}

/// Each kind of guild channel that keeps its kind tag takes every other
/// field of a fresher copy: a copy with the same tag replaces it whole, and
/// the old channel matters only through its tag.
pub proof fn law_guild_channels_take_fresher_fields(
    v: (GuildVoiceView, GuildVoiceView, GuildVoiceView),
    c: (GuildCategoryView, GuildCategoryView, GuildCategoryView),
    t: (GuildTextChannelView, GuildTextChannelView, GuildTextChannelView),
    a: (GuildAnnouncementView, GuildAnnouncementView, GuildAnnouncementView),
    f: (GuildForumView, GuildForumView, GuildForumView),
    sv: (GuildStageVoiceView, GuildStageVoiceView, GuildStageVoiceView),
)
    ensures
        guild_voice_after_update(v.0, v.2).kind == v.0.kind,
        v.0.kind == v.2.kind ==> guild_voice_after_update(v.0, v.2) == v.2,
        v.0.kind == v.1.kind ==> guild_voice_after_update(v.0, v.2) == guild_voice_after_update(v.1, v.2),
        guild_category_after_update(c.0, c.2).kind == c.0.kind,
        c.0.kind == c.2.kind ==> guild_category_after_update(c.0, c.2) == c.2,
        c.0.kind == c.1.kind ==> guild_category_after_update(c.0, c.2) == guild_category_after_update(c.1, c.2),
        guild_text_channel_after_update(t.0, t.2).kind == t.0.kind,
        t.0.kind == t.2.kind ==> guild_text_channel_after_update(t.0, t.2) == t.2,
        t.0.kind == t.1.kind ==> guild_text_channel_after_update(t.0, t.2) == guild_text_channel_after_update(t.1, t.2),
        guild_announcement_after_update(a.0, a.2).kind == a.0.kind,
        a.0.kind == a.2.kind ==> guild_announcement_after_update(a.0, a.2) == a.2,
        a.0.kind == a.1.kind ==> guild_announcement_after_update(a.0, a.2) == guild_announcement_after_update(a.1, a.2),
        guild_forum_after_update(f.0, f.2).kind == f.0.kind,
        f.0.kind == f.2.kind ==> guild_forum_after_update(f.0, f.2) == f.2,
        f.0.kind == f.1.kind ==> guild_forum_after_update(f.0, f.2) == guild_forum_after_update(f.1, f.2),
        guild_stage_voice_after_update(sv.0, sv.2).kind == sv.0.kind,
        sv.0.kind == sv.2.kind ==> guild_stage_voice_after_update(sv.0, sv.2) == sv.2,
        sv.0.kind == sv.1.kind ==> guild_stage_voice_after_update(sv.0, sv.2) == guild_stage_voice_after_update(sv.1, sv.2),
{
}

} // verus!

