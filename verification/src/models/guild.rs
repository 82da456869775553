//! Guilds, their members and their roles, and how a cached guild takes
//! the news of a fresher copy.

use vstd::prelude::*;
use crate::assoc::{find_first, first_map, key_absent_before, lemma_first_contains, lemma_first_push, lemma_first_update, lemma_first_value};
use crate::cache::UpdateCache;
use crate::models::common::{clone_strings, opt_str_eq, opt_view, strings_eq, strings_view};
use crate::models::ids::{clone_snowflakes, opt_guild_view, opt_snowflake_view, snowflakes_eq, snowflakes_view, GuildId, Snowflake, UserId};
use crate::models::user::{image_url, image_url_of, user_from_json, User, UserView};
use crate::json::{get_str, get_u64, json_bool, json_get, json_index, json_str, json_u64, JsonValue, JsonView};
use crate::models::parse::{de_opt_str, de_str_list, read_opt_str, read_snowflake_list};
use crate::models::{read_as, ModelError, ModelErrorKind};
use crate::time::{parse_datetime_micros, parsed_datetime_micros};

verus! {

// ----------------------------------------------------------------------
// Role tags

/// The tags of a role.
#[derive(Debug, PartialEq, Eq)]
pub struct RoleTags {
    /// The id of the bot this role belongs to.
    pub bot_id: Option<Snowflake>,
    /// The id of the integration this role belongs to.
    pub integration_id: Option<Snowflake>,
    /// Whether this is the guild's Booster role.
    pub premium_subscriber: Option<()>,
    /// The id of this role's subscription sku and listing.
    pub subscription_listing_id: Option<Snowflake>,
    /// Whether this role is available for purchase.
    pub available_for_purchase: Option<()>,
    /// Whether this role is a guild's linked role.
    pub guild_connection: Option<()>,
}

pub ghost struct RoleTagsView {
    pub bot_id: Option<Seq<char>>,
    pub integration_id: Option<Seq<char>>,
    pub premium_subscriber: bool,
    pub subscription_listing_id: Option<Seq<char>>,
    pub available_for_purchase: bool,
    pub guild_connection: bool,
}

impl View for RoleTags {
    type V = RoleTagsView;

    open spec fn view(&self) -> RoleTagsView {
        RoleTagsView {
            bot_id: opt_snowflake_view(self.bot_id),
            integration_id: opt_snowflake_view(self.integration_id),
            premium_subscriber: self.premium_subscriber is Some,
            subscription_listing_id: opt_snowflake_view(self.subscription_listing_id),
            available_for_purchase: self.available_for_purchase is Some,
            guild_connection: self.guild_connection is Some,
        }
    }
}

impl Clone for RoleTags {
    fn clone(&self) -> (r: RoleTags)
        ensures
            r@ == self@,
    {
        RoleTags {
            bot_id: self.bot_id.clone(),
            integration_id: self.integration_id.clone(),
            premium_subscriber: self.premium_subscriber,
            subscription_listing_id: self.subscription_listing_id.clone(),
            available_for_purchase: self.available_for_purchase,
            guild_connection: self.guild_connection,
        }
    }
}

impl RoleTags {
    /// Whether two sets of tags are the same.
    pub fn same(&self, other: &RoleTags) -> (r: bool)
        ensures
            r == (self@ == other@),
    {
        self.bot_id == other.bot_id && self.integration_id == other.integration_id
            && self.premium_subscriber.is_some() == other.premium_subscriber.is_some()
            && self.subscription_listing_id == other.subscription_listing_id
            && self.available_for_purchase.is_some() == other.available_for_purchase.is_some()
            && self.guild_connection.is_some() == other.guild_connection.is_some()
    }
}

impl UpdateCache for RoleTags {
    fn update(&mut self, from: &Self)
        ensures
            final(self)@ == from@,
    {
        if self.bot_id != from.bot_id {
            self.bot_id = from.bot_id.clone();
        }
        if self.integration_id != from.integration_id {
            self.integration_id = from.integration_id.clone();
        }
        if self.premium_subscriber.is_some() != from.premium_subscriber.is_some() {
            self.premium_subscriber = from.premium_subscriber;
        }
        if self.subscription_listing_id != from.subscription_listing_id {
            self.subscription_listing_id = from.subscription_listing_id.clone();
        }
        if self.available_for_purchase.is_some() != from.available_for_purchase.is_some() {
            self.available_for_purchase = from.available_for_purchase;
        }
        if self.guild_connection.is_some() != from.guild_connection.is_some() {
            self.guild_connection = from.guild_connection;
        }
    }
}

// ----------------------------------------------------------------------
// Roles

/// A role of a guild.
#[derive(Debug, PartialEq, Eq)]
pub struct Role {
    pub id: Snowflake,
    pub name: String,
    pub color: u64,
    /// Whether this role is pinned in the user listing.
    pub hoist: bool,
    pub icon: Option<String>,
    pub unicode_emoji: Option<String>,
    pub position: u64,
    pub permissions: String,
    /// Whether this role is managed by an integration.
    pub managed: bool,
    /// Whether this role is mentionable.
    pub mentionable: bool,
    /// The tags this role has.
    pub tags: Option<RoleTags>,
}

pub ghost struct RoleView {
    pub id: Seq<char>,
    pub name: Seq<char>,
    pub color: u64,
    pub hoist: bool,
    pub icon: Option<Seq<char>>,
    pub unicode_emoji: Option<Seq<char>>,
    pub position: u64,
    pub permissions: Seq<char>,
    pub managed: bool,
    pub mentionable: bool,
    pub tags: Option<RoleTagsView>,
}

pub open spec fn opt_tags_view(t: Option<RoleTags>) -> Option<RoleTagsView> {
    match t {
        Some(t) => Some(t@),
        None => None,
    }
}

impl View for Role {
    type V = RoleView;

    open spec fn view(&self) -> RoleView {
        RoleView {
            id: self.id@,
            name: self.name@,
            color: self.color,
            hoist: self.hoist,
            icon: opt_view(self.icon),
            unicode_emoji: opt_view(self.unicode_emoji),
            position: self.position,
            permissions: self.permissions@,
            managed: self.managed,
            mentionable: self.mentionable,
            tags: opt_tags_view(self.tags),
        }
    }
}

/// A role after it took the fields of a fresher copy: everything but its
/// id comes from the copy.
pub open spec fn role_after_update(old: RoleView, from: RoleView) -> RoleView {
    RoleView { id: old.id, ..from }
}

/// A role that takes the fields of a fresher copy keeps its id and takes
/// every other field of the copy: its name, colour, hoisting, icon, emoji,
/// position, permissions, management, mentionability and tags. A copy of
/// the same role therefore replaces it whole.
pub proof fn law_role_takes_fresher_fields(old: RoleView, from: RoleView)
    ensures
        role_after_update(old, from).id == old.id,
        role_after_update(old, from).name == from.name,
        role_after_update(old, from).color == from.color,
        role_after_update(old, from).hoist == from.hoist,
        role_after_update(old, from).icon == from.icon,
        role_after_update(old, from).unicode_emoji == from.unicode_emoji,
        role_after_update(old, from).position == from.position,
        role_after_update(old, from).permissions == from.permissions,
        role_after_update(old, from).managed == from.managed,
        role_after_update(old, from).mentionable == from.mentionable,
        role_after_update(old, from).tags == from.tags,
        old.id == from.id ==> role_after_update(old, from) == from,
{
}

fn clone_tags(t: &Option<RoleTags>) -> (r: Option<RoleTags>)
    ensures
        opt_tags_view(r) == opt_tags_view(*t),
{
    match t {
        Some(t) => Some(t.clone()),
        None => None,
    }
}

fn tags_eq(a: &Option<RoleTags>, b: &Option<RoleTags>) -> (r: bool)
    ensures
        r == (opt_tags_view(*a) == opt_tags_view(*b)),
{
    match (a, b) {
        (Some(x), Some(y)) => x.same(y),
        (None, None) => true,
        _ => false,
    }
}

impl Clone for Role {
    fn clone(&self) -> (r: Role)
        ensures
            r@ == self@,
    {
        Role {
            id: self.id.clone(),
            name: self.name.clone(),
            color: self.color,
            hoist: self.hoist,
            icon: self.icon.clone(),
            unicode_emoji: self.unicode_emoji.clone(),
            position: self.position,
            permissions: self.permissions.clone(),
            managed: self.managed,
            mentionable: self.mentionable,
            tags: clone_tags(&self.tags),
        }
    }
}

impl Role {
    /// Whether two roles hold the same values in every field.
    pub fn same(&self, other: &Role) -> (r: bool)
        ensures
            r == (self@ == other@),
    {
        self.id == other.id && self.name == other.name && self.color == other.color
            && self.hoist == other.hoist && opt_str_eq(&self.icon, &other.icon)
            && opt_str_eq(&self.unicode_emoji, &other.unicode_emoji)
            && self.position == other.position && self.permissions == other.permissions
            && self.managed == other.managed && self.mentionable == other.mentionable
            && tags_eq(&self.tags, &other.tags)
    }
}

impl UpdateCache for Role {
    fn update(&mut self, from: &Self)
        ensures
            final(self)@ == role_after_update(old(self)@, from@),
    {
        if self.name != from.name {
            self.name = from.name.clone();
        }
        if self.color != from.color {
            self.color = from.color;
        }
        if self.hoist != from.hoist {
            self.hoist = from.hoist;
        }
        if !opt_str_eq(&self.icon, &from.icon) {
            self.icon = from.icon.clone();
        }
        if !opt_str_eq(&self.unicode_emoji, &from.unicode_emoji) {
            self.unicode_emoji = from.unicode_emoji.clone();
        }
        if self.position != from.position {
            self.position = from.position;
        }
        if self.permissions != from.permissions {
            self.permissions = from.permissions.clone();
        }
        if self.managed != from.managed {
            self.managed = from.managed;
        }
        if self.mentionable != from.mentionable {
            self.mentionable = from.mentionable;
        }
        if !tags_eq(&self.tags, &from.tags) {
            self.tags = clone_tags(&from.tags);
        }
    }
}

// ----------------------------------------------------------------------
// Members

/// A member of a guild. Times are microseconds since the UNIX epoch.
#[derive(Debug, PartialEq, Eq)]
pub struct GuildMember {
    /// Left out of the member attached to the message events.
    pub user: Option<User>,
    pub nickname: Option<String>,
    pub avatar: Option<String>,
    pub roles: Vec<Snowflake>,
    pub joined_at: i64,
    pub premium_since: Option<i64>,
    pub flags: u64,
    /// Whether the user has not yet passed the guild's Membership Screening.
    pub pending: bool,
    pub permissions: Option<String>,
    pub communication_disabled_until: Option<i64>,
    pub guild_id: Option<GuildId>,
}

pub ghost struct GuildMemberView {
    pub user: Option<UserView>,
    pub nickname: Option<Seq<char>>,
    pub avatar: Option<Seq<char>>,
    pub roles: Seq<Seq<char>>,
    pub joined_at: i64,
    pub premium_since: Option<i64>,
    pub flags: u64,
    pub pending: bool,
    pub permissions: Option<Seq<char>>,
    pub communication_disabled_until: Option<i64>,
    pub guild_id: Option<Seq<char>>,
}

pub open spec fn opt_user_view(u: Option<User>) -> Option<UserView> {
    match u {
        Some(u) => Some(u@),
        None => None,
    }
}

impl View for GuildMember {
    type V = GuildMemberView;

    open spec fn view(&self) -> GuildMemberView {
        GuildMemberView {
            user: opt_user_view(self.user),
            nickname: opt_view(self.nickname),
            avatar: opt_view(self.avatar),
            roles: snowflakes_view(self.roles@),
            joined_at: self.joined_at,
            premium_since: self.premium_since,
            flags: self.flags,
            pending: self.pending,
            permissions: opt_view(self.permissions),
            communication_disabled_until: self.communication_disabled_until,
            guild_id: opt_guild_view(self.guild_id),
        }
    }
}

/// A member after it took the fields of a fresher copy: the user comes
/// from the copy when the copy has one, the guild id stays, and all else
/// comes from the copy.
pub open spec fn member_after_update(old: GuildMemberView, from: GuildMemberView) -> GuildMemberView {
    GuildMemberView {
        user: if from.user is Some { from.user } else { old.user },
        guild_id: old.guild_id,
        ..from
    }
}

/// A member that takes the fields of a fresher copy keeps its guild id,
/// keeps its user when the copy has none and takes the copy's otherwise,
/// and takes every other field of the copy. A copy of the same member that
/// carries its user replaces it whole.
pub proof fn law_member_takes_fresher_fields(old: GuildMemberView, from: GuildMemberView)
    ensures
        member_after_update(old, from).guild_id == old.guild_id,
        from.user is Some ==> member_after_update(old, from).user == from.user,
        from.user is None ==> member_after_update(old, from).user == old.user,
        member_after_update(old, from).nickname == from.nickname,
        member_after_update(old, from).avatar == from.avatar,
        member_after_update(old, from).roles == from.roles,
        member_after_update(old, from).joined_at == from.joined_at,
        member_after_update(old, from).premium_since == from.premium_since,
        member_after_update(old, from).flags == from.flags,
        member_after_update(old, from).pending == from.pending,
        member_after_update(old, from).permissions == from.permissions,
        member_after_update(old, from).communication_disabled_until == from.communication_disabled_until,
        from.user is Some && old.guild_id == from.guild_id ==> member_after_update(old, from) == from,
{
}

impl Clone for GuildMember {
    fn clone(&self) -> (r: GuildMember)
        ensures
            r@ == self@,
    {
        GuildMember {
            user: self.user.clone(),
            nickname: self.nickname.clone(),
            avatar: self.avatar.clone(),
            roles: clone_snowflakes(&self.roles),
            joined_at: self.joined_at,
            premium_since: self.premium_since,
            flags: self.flags,
            pending: self.pending,
            permissions: self.permissions.clone(),
            communication_disabled_until: self.communication_disabled_until,
            guild_id: self.guild_id.clone(),
        }
    }
}

impl UpdateCache for GuildMember {
    fn update(&mut self, from: &Self)
        ensures
            final(self)@ == member_after_update(old(self)@, from@),
    {
        if let Some(fu) = &from.user {
            match self.user.take() {
                None => {
                    self.user = Some(fu.clone());
                },
                Some(mut u) => {
                    u.update(fu);
                    self.user = Some(u);
                },
            }
        }
        if !snowflakes_eq(&self.roles, &from.roles) {
            self.roles = clone_snowflakes(&from.roles);
        }
        if !opt_str_eq(&self.nickname, &from.nickname) {
            self.nickname = from.nickname.clone();
        }
        if !opt_str_eq(&self.avatar, &from.avatar) {
            self.avatar = from.avatar.clone();
        }
        if self.joined_at != from.joined_at {
            self.joined_at = from.joined_at;
        }
        if self.premium_since != from.premium_since {
            self.premium_since = from.premium_since;
        }
        if self.flags != from.flags {
            self.flags = from.flags;
        }
        if self.pending != from.pending {
            self.pending = from.pending;
        }
        if !opt_str_eq(&self.permissions, &from.permissions) {
            self.permissions = from.permissions.clone();
        }
        if self.communication_disabled_until != from.communication_disabled_until {
            self.communication_disabled_until = from.communication_disabled_until;
        }
    }
}

/// Why a role cannot be given to or taken from a member.
#[derive(Debug, Clone, Copy, PartialEq, Eq, Structural)]
pub enum MemberError {
    /// The member does not say which guild it belongs to.
    NoGuild,
    /// The member carries no user, so no id.
    NoUser,
}

impl MemberError {
    /// The message that explains the error.
    pub fn message(&self) -> (r: &'static str)
        ensures
            r@ == match self {
                MemberError::NoGuild => "No guild_id was defined"@,
                MemberError::NoUser => "The GuildMember has no id"@,
            },
    {
        match self {
            MemberError::NoGuild => "No guild_id was defined",
            MemberError::NoUser => "The GuildMember has no id",
        }
    }
}

/// The id that a member's avatar address is made with: its user's id, or
/// `0` when it carries no user.
pub open spec fn member_avatar_owner(u: Option<UserView>) -> Seq<char> {
    match u {
        Some(u) => u.id,
        None => "0"@,
    }
}

impl GuildMember {
    /// The guild and the user that a role change of this member is sent
    /// for: the guild is checked first, then the user.
    pub fn role_target(&self) -> (r: Result<(GuildId, UserId), MemberError>)
        ensures
            match (self.guild_id, self.user) {
                (None, _) => r == Err::<(GuildId, UserId), _>(MemberError::NoGuild),
                (Some(_), None) => r == Err::<(GuildId, UserId), _>(MemberError::NoUser),
                (Some(g), Some(u)) => r matches Ok((gid, uid)) && gid@ == g@ && uid@ == u.id@,
            },
    {
        match &self.guild_id {
            None => Err(MemberError::NoGuild),
            Some(g) => match &self.user {
                None => Err(MemberError::NoUser),
                Some(u) => Ok((g.clone(), u.id.clone())),
            },
        }
    }

    /// The address of the member's guild avatar, if it has one.
    pub fn avatar_url(&self, size: usize, dynamic: bool, extension: &str) -> (r: Option<String>)
        ensures
            opt_view(r) == image_url(
                "avatars"@,
                member_avatar_owner(opt_user_view(self.user)),
                opt_view(self.avatar),
                dynamic,
                extension@,
                size as nat,
            ),
    {
        match &self.user {
            Some(u) => image_url_of("avatars", u.id.0.0.as_str(), &self.avatar, dynamic, extension, size),
            None => image_url_of("avatars", "0", &self.avatar, dynamic, extension, size),
        }
    }
}

// ----------------------------------------------------------------------
// Guilds

/// A guild that the client cannot reach for now.
#[derive(Debug, Clone, PartialEq, Eq)]
pub struct UnavailableGuild {
    pub id: GuildId,
    pub shard: Option<u64>,
}

/// A guild that the client is in.
#[derive(Debug, PartialEq, Eq)]
pub struct Guild {
    pub id: GuildId,
    /// The approximate number of members.
    pub member_count: u64,
    pub name: String,
    /// The icon hash.
    pub icon: Option<String>,
    pub owner_id: String,
    /// The permissions of the client's user in the guild.
    pub permissions: Option<u64>,
    pub afk_channel_id: Option<String>,
    pub afk_timeout: u64,
    pub verification_level: u64,
    pub default_message_notifications: u64,
    pub features: Vec<String>,
    pub system_channel_id: Option<String>,
    /// The members, by user id; the first entry of an id is the one that
    /// counts.
    pub members: Vec<(UserId, GuildMember)>,
    pub roles: Vec<Role>,
    /// The shard the guild is served by.
    pub shard: Option<u64>,
}

/// The members of a list, by the text of their user id.
pub open spec fn member_views(s: Seq<(UserId, GuildMember)>) -> Map<Seq<char>, GuildMemberView> {
    first_map(s).map_values(|m: GuildMember| m@)
}

/// The members after those of a fresher copy were taken in order: a known
/// member is updated, a new one is added.
pub open spec fn merge_members(m: Map<Seq<char>, GuildMemberView>, news: Seq<(UserId, GuildMember)>) -> Map<Seq<char>, GuildMemberView>
    decreases news.len(),
{
    if news.len() == 0 {
        m
    } else {
        let prev = merge_members(m, news.drop_last());
        let k = news.last().0@;
        let v = news.last().1@;
        if prev.contains_key(k) {
            prev.insert(k, member_after_update(prev[k], v))
        } else {
            prev.insert(k, v)
        }
    }
}

pub open spec fn roles_view(s: Seq<Role>) -> Seq<RoleView> {
    s.map_values(|r: Role| r@)
}

/// The position of the first role with the given id.
pub open spec fn first_role_with_id(s: Seq<RoleView>, id: Seq<char>) -> int
    decreases s.len(),
{
    if s.len() == 0 {
        -1
    } else if s[0].id == id {
        0
    } else {
        let i = first_role_with_id(s.drop_first(), id);
        if i < 0 { -1 } else { i + 1 }
    }
}

/// The roles after those of a fresher copy were taken in order: a role
/// that is not already there, field for field, is added at the end; one
/// that is there updates the first role with its id.
pub open spec fn merge_roles(s: Seq<RoleView>, news: Seq<RoleView>) -> Seq<RoleView>
    decreases news.len(),
{
    if news.len() == 0 {
        s
    } else {
        let prev = merge_roles(s, news.drop_last());
        let r = news.last();
        if !prev.contains(r) {
            prev.push(r)
        } else {
            let j = first_role_with_id(prev, r.id);
            prev.update(j, role_after_update(prev[j], r))
        }
    }
}

pub proof fn lemma_first_role_with_id(s: Seq<RoleView>, id: Seq<char>)
    ensures
        first_role_with_id(s, id) < s.len(),
        first_role_with_id(s, id) >= 0 ==> s[first_role_with_id(s, id)].id == id,
        first_role_with_id(s, id) >= 0 ==> forall|j: int| 0 <= j < first_role_with_id(s, id) ==> #[trigger] s[j].id != id,
        first_role_with_id(s, id) < 0 ==> first_role_with_id(s, id) == -1 && forall|j: int| 0 <= j < s.len() ==> #[trigger] s[j].id != id,
    decreases s.len(),
{
    if s.len() > 0 && s[0].id != id {
        let t = s.drop_first();
        lemma_first_role_with_id(t, id);
        assert forall|j: int| 0 < j < s.len() implies #[trigger] s[j] == t[j - 1] by {}
        assert forall|j: int| 0 <= j < s.len() implies (#[trigger] s[j]).id == if j == 0 { s[0].id } else { t[j - 1].id } by {}
    }
}

impl Guild {
    /// The address of the guild's icon, if it has one.
    pub fn icon_url(&self, size: usize, dynamic: bool, extension: &str) -> (r: Option<String>)
        ensures
            opt_view(r) == image_url("icons"@, self.id@, opt_view(self.icon), dynamic, extension@, size as nat),
    {
        image_url_of("icons", self.id.0.0.as_str(), &self.icon, dynamic, extension, size)
    }
}

/// Takes the members of a fresher copy into a list of members.
pub(crate) fn update_members(members: &mut Vec<(UserId, GuildMember)>, news: &Vec<(UserId, GuildMember)>)
    ensures
        member_views(final(members)@) == merge_members(member_views(old(members)@), news@),
{
    let ghost start = member_views(members@);
    let mut i: usize = 0;
    while i < news.len()
        invariant
            i <= news@.len(),
            member_views(members@) == merge_members(start, news@.take(i as int)),
        decreases news@.len() - i,
    {
        let ghost before = members@;
        let ghost prev = member_views(before);
        proof {
            assert(news@.take(i + 1).drop_last() =~= news@.take(i as int));
            assert(news@.take(i + 1).last() == news@[i as int]);
        }
        let id = &news[i].0;
        let member = &news[i].1;
        match find_first(&members, id) {
            Some(j) => {
                let mut m = members[j].1.clone();
                m.update(member);
                let key = members[j].0.clone();
                proof {
                    lemma_first_value(before, j as int);
                    lemma_first_update(before, j as int, (key, m));
                    assert(prev.contains_key(id@));
                }
                members.set(j, (key, m));
                proof {
                    assert(member_views(members@) =~= prev.insert(id@, member_after_update(prev[id@], member@)));
                }
            },
            None => {
                let m = member.clone();
                let key = id.clone();
                proof {
                    lemma_first_contains(before, id@);
                    lemma_first_push(before, (key, m));
                }
                members.push((key, m));
                proof {
                    assert(!prev.contains_key(id@));
                    assert(member_views(members@) =~= prev.insert(id@, member@));
                }
            },
        }
        i += 1;
    }
    proof {
        assert(news@.take(news@.len() as int) =~= news@);
    }
}

/// Whether a list of roles holds one with the same values as `role`.
fn holds_role(s: &Vec<Role>, role: &Role) -> (r: bool)
    ensures
        r == roles_view(s@).contains(role@),
{
    let mut i: usize = 0;
    while i < s.len()
        invariant
            i <= s@.len(),
            forall|j: int| 0 <= j < i ==> s@[j]@ != role@,
        decreases s@.len() - i,
    {
        if s[i].same(role) {
            proof {
                assert(roles_view(s@)[i as int] == role@);
            }
            return true;
        }
        i += 1;
    }
    proof {
        if roles_view(s@).contains(role@) {
            let j = choose|j: int| 0 <= j < roles_view(s@).len() && roles_view(s@)[j] == role@;
            assert(s@[j]@ == role@);
        }
    }
    false
}

/// The position of the first role with the given id.
pub(crate) fn find_role_by_id(s: &Vec<Role>, id: &Snowflake) -> (r: Option<usize>)
    ensures
        match r {
            Some(j) => j == first_role_with_id(roles_view(s@), id@),
            None => first_role_with_id(roles_view(s@), id@) == -1,
        },
{
    proof {
        lemma_first_role_with_id(roles_view(s@), id@);
    }
    let mut i: usize = 0;
    while i < s.len()
        invariant
            i <= s@.len(),
            forall|j: int| 0 <= j < i ==> s@[j].id@ != id@,
            first_role_with_id(roles_view(s@), id@) < 0 ==> first_role_with_id(roles_view(s@), id@) == -1
                && forall|j: int| 0 <= j < s@.len() ==> #[trigger] roles_view(s@)[j].id != id@,
            first_role_with_id(roles_view(s@), id@) >= 0 ==> roles_view(s@)[first_role_with_id(roles_view(s@), id@)].id == id@
                && forall|j: int| 0 <= j < first_role_with_id(roles_view(s@), id@) ==> #[trigger] roles_view(s@)[j].id != id@,
            first_role_with_id(roles_view(s@), id@) < s@.len(),
        decreases s@.len() - i,
    {
        if s[i].id == *id {
            proof {
                let f = first_role_with_id(roles_view(s@), id@);
                assert(roles_view(s@)[i as int].id == id@);
                if f >= 0 && f < i {
                    assert(s@[f].id@ == id@);
                }
            }
            return Some(i);
        }
        proof {
            assert(roles_view(s@)[i as int].id != id@);
        }
        i += 1;
    }
    proof {
        let f = first_role_with_id(roles_view(s@), id@);
        if f >= 0 {
            assert(s@[f].id@ == id@);
        }
    }
    None
}

/// The values a guild holds, its texts taken as characters and its members
/// as a map.
pub ghost struct GuildView {
    pub id: Seq<char>,
    pub member_count: u64,
    pub name: Seq<char>,
    pub icon: Option<Seq<char>>,
    pub owner_id: Seq<char>,
    pub permissions: Option<u64>,
    pub afk_channel_id: Option<Seq<char>>,
    pub afk_timeout: u64,
    pub verification_level: u64,
    pub default_message_notifications: u64,
    pub features: Seq<Seq<char>>,
    pub system_channel_id: Option<Seq<char>>,
    pub members: Map<Seq<char>, GuildMemberView>,
    pub roles: Seq<RoleView>,
    pub shard: Option<u64>,
}

impl View for Guild {
    type V = GuildView;

    open spec fn view(&self) -> GuildView {
        GuildView {
            id: self.id@,
            member_count: self.member_count,
            name: self.name@,
            icon: opt_view(self.icon),
            owner_id: self.owner_id@,
            permissions: self.permissions,
            afk_channel_id: opt_view(self.afk_channel_id),
            afk_timeout: self.afk_timeout,
            verification_level: self.verification_level,
            default_message_notifications: self.default_message_notifications,
            features: strings_view(self.features@),
            system_channel_id: opt_view(self.system_channel_id),
            members: member_views(self.members@),
            roles: roles_view(self.roles@),
            shard: self.shard,
        }
    }
}

/// A guild after it took the news of a fresher copy: the id and the shard
/// stay, the members and roles of the copy are merged in, and every other
/// field comes from the copy.
pub open spec fn guild_after_update(old: GuildView, from: Guild) -> GuildView {
    GuildView {
        id: old.id,
        members: merge_members(old.members, from.members@),
        roles: merge_roles(old.roles, roles_view(from.roles@)),
        shard: old.shard,
        ..from@
    }
}

/// A guild that takes the news of a fresher copy keeps its id and its
/// shard, merges in the copy's members and roles, and takes every other
/// field of the copy.
pub proof fn law_guild_takes_fresher_fields(old: GuildView, from: Guild)
    ensures
        guild_after_update(old, from).id == old.id,
        guild_after_update(old, from).shard == old.shard,
        guild_after_update(old, from).member_count == from@.member_count,
        guild_after_update(old, from).name == from@.name,
        guild_after_update(old, from).icon == from@.icon,
        guild_after_update(old, from).owner_id == from@.owner_id,
        guild_after_update(old, from).permissions == from@.permissions,
        guild_after_update(old, from).afk_channel_id == from@.afk_channel_id,
        guild_after_update(old, from).afk_timeout == from@.afk_timeout,
        guild_after_update(old, from).verification_level == from@.verification_level,
        guild_after_update(old, from).default_message_notifications == from@.default_message_notifications,
        guild_after_update(old, from).features == from@.features,
        guild_after_update(old, from).system_channel_id == from@.system_channel_id,
        guild_after_update(old, from).members == merge_members(old.members, from.members@),
        guild_after_update(old, from).roles == merge_roles(old.roles, roles_view(from.roles@)),
{
}

/// Merging members: a member of the fresher list is known afterwards, and
/// one absent from it keeps its entry.
pub proof fn law_merged_members_known(m: Map<Seq<char>, GuildMemberView>, news: Seq<(UserId, GuildMember)>, k: Seq<char>)
    ensures
        (exists|i: int| 0 <= i < news.len() && #[trigger] news[i].0@ == k) ==> merge_members(m, news).contains_key(k),
        (forall|i: int| 0 <= i < news.len() ==> #[trigger] news[i].0@ != k) ==> merge_members(m, news).contains_key(k) == m.contains_key(k)
            && (m.contains_key(k) ==> merge_members(m, news)[k] == m[k]),
    decreases news.len(),
{
    if news.len() > 0 {
        let rest = news.drop_last();
        law_merged_members_known(m, rest, k);
        if exists|i: int| 0 <= i < news.len() && #[trigger] news[i].0@ == k {
            let i = choose|i: int| 0 <= i < news.len() && #[trigger] news[i].0@ == k;
            if i < news.len() - 1 {
                assert(rest[i].0@ == k);
            }
        }
        if forall|i: int| 0 <= i < news.len() ==> #[trigger] news[i].0@ != k {
            assert forall|i: int| 0 <= i < rest.len() implies #[trigger] rest[i].0@ != k by {
                assert(rest[i] == news[i]);
            }
            assert(news[news.len() - 1].0@ != k);
        }
    }
}

/// Takes the roles of a fresher copy into a list of roles.
fn update_roles(roles: &mut Vec<Role>, news: &Vec<Role>)
    ensures
        roles_view(final(roles)@) == merge_roles(roles_view(old(roles)@), roles_view(news@)),
{
    let ghost start = roles_view(roles@);
    let mut i: usize = 0;
    while i < news.len()
        invariant
            i <= news@.len(),
            roles_view(roles@) == merge_roles(start, roles_view(news@).take(i as int)),
        decreases news@.len() - i,
    {
        let ghost prev = roles_view(roles@);
        proof {
            assert(roles_view(news@).take(i + 1).drop_last() =~= roles_view(news@).take(i as int));
            assert(roles_view(news@).take(i + 1).last() == news@[i as int]@);
        }
        let role = &news[i];
        if !holds_role(&roles, role) {
            let r = role.clone();
            roles.push(r);
            proof {
                assert(roles_view(roles@) =~= prev.push(role@));
            }
        } else {
            proof {
                lemma_first_role_with_id(prev, role.id@);
                let k = choose|k: int| 0 <= k < prev.len() && prev[k] == role@;
                assert(prev[k].id == role.id@);
            }
            match find_role_by_id(&roles, &role.id) {
                Some(j) => {
                    let mut r = roles[j].clone();
                    r.update(role);
                    roles.set(j, r);
                    proof {
                        assert(roles_view(roles@) =~= prev.update(j as int, role_after_update(prev[j as int], role@)));
                    }
                },
                None => {
                    proof {
                        assert(false);
                    }
                },
            }
        }
        i += 1;
    }
    proof {
        assert(roles_view(news@).take(news@.len() as int) =~= roles_view(news@));
    }
}

impl UpdateCache for Guild {
    fn update(&mut self, from: &Self)
        ensures
            final(self)@ == guild_after_update(old(self)@, *from),
    {
        if self.member_count != from.member_count {
            self.member_count = from.member_count;
        }
        if self.name != from.name {
            self.name = from.name.clone();
        }
        if !opt_str_eq(&self.icon, &from.icon) {
            self.icon = from.icon.clone();
        }
        if self.owner_id != from.owner_id {
            self.owner_id = from.owner_id.clone();
        }
        if self.permissions != from.permissions {
            self.permissions = from.permissions;
        }
        if !opt_str_eq(&self.afk_channel_id, &from.afk_channel_id) {
            self.afk_channel_id = from.afk_channel_id.clone();
        }
        if self.afk_timeout != from.afk_timeout {
            self.afk_timeout = from.afk_timeout;
        }
        if self.verification_level != from.verification_level {
            self.verification_level = from.verification_level;
        }
        if self.default_message_notifications != from.default_message_notifications {
            self.default_message_notifications = from.default_message_notifications;
        }
        if !strings_eq(&self.features, &from.features) {
            self.features = clone_strings(&from.features);
        }
        if !opt_str_eq(&self.system_channel_id, &from.system_channel_id) {
            self.system_channel_id = from.system_channel_id.clone();
        }
        update_members(&mut self.members, &from.members);
        update_roles(&mut self.roles, &from.roles);
    }
}

proof fn lemma_member_views_pointwise(s: Seq<(UserId, GuildMember)>, t: Seq<(UserId, GuildMember)>)
    requires
        s.len() == t.len(),
        forall|i: int| 0 <= i < s.len() ==> (#[trigger] s[i]).0@ == t[i].0@ && s[i].1@ == t[i].1@,
    ensures
        member_views(s) == member_views(t),
    decreases s.len(),
{
    if s.len() == 0 {
        assert(member_views(s) =~= member_views(t));
    } else {
        let s1 = s.drop_first();
        let t1 = t.drop_first();
        assert forall|i: int| 0 <= i < s1.len() implies (#[trigger] s1[i]).0@ == t1[i].0@ && s1[i].1@ == t1[i].1@ by {
            assert(s1[i] == s[i + 1]);
            assert(t1[i] == t[i + 1]);
        }
        lemma_member_views_pointwise(s1, t1);
        assert(member_views(s) =~= member_views(s1).insert(s[0].0@, s[0].1@));
        assert(member_views(t) =~= member_views(t1).insert(t[0].0@, t[0].1@));
    }
}

impl Guild {
    /// A copy of the guild.
    pub fn duplicate(&self) -> (r: Guild)
        ensures
            r@ == self@,
    {
        let mut members: Vec<(UserId, GuildMember)> = Vec::new();
        let mut i: usize = 0;
        while i < self.members.len()
            invariant
                i <= self.members.len(),
                members@.len() == i,
                forall|j: int| 0 <= j < i ==> (#[trigger] members@[j]).0@ == self.members@[j].0@ && members@[j].1@ == self.members@[j].1@,
            decreases self.members.len() - i,
        {
            members.push((self.members[i].0.clone(), self.members[i].1.clone()));
            i = i + 1;
        }
        proof {
            lemma_member_views_pointwise(members@, self.members@);
        }
        let mut roles: Vec<Role> = Vec::new();
        let mut i: usize = 0;
        while i < self.roles.len()
            invariant
                i <= self.roles.len(),
                roles@.len() == i,
                forall|j: int| 0 <= j < i ==> (#[trigger] roles@[j])@ == self.roles@[j]@,
            decreases self.roles.len() - i,
        {
            roles.push(self.roles[i].clone());
            i = i + 1;
        }
        assert(roles_view(roles@) =~= roles_view(self.roles@));
        let r = Guild {
            id: self.id.clone(),
            member_count: self.member_count,
            name: self.name.clone(),
            icon: self.icon.clone(),
            owner_id: self.owner_id.clone(),
            permissions: self.permissions,
            afk_channel_id: self.afk_channel_id.clone(),
            afk_timeout: self.afk_timeout,
            verification_level: self.verification_level,
            default_message_notifications: self.default_message_notifications,
            features: clone_strings(&self.features),
            system_channel_id: self.system_channel_id.clone(),
            members,
            roles,
            shard: self.shard,
        };
        r
    }
}

// Reading a member

/// An optional date field, in microseconds: missing or `null` is none; a
/// text that `chrono` reads is that date; anything else is refused.
pub open spec fn de_opt_micros(f: Option<JsonView>) -> Option<Option<i64>> {
    match f {
        None => Some(None),
        Some(JsonView::Null) => Some(None),
        Some(x) => match json_str(x) {
            Some(t) => match parsed_datetime_micros(t) {
                Some(us) => Some(Some(us)),
                None => None,
            },
            None => None,
        },
    }
}

/// An optional user field: missing or `null` is none; otherwise it must
/// read as a user.
pub open spec fn de_opt_user(f: Option<JsonView>) -> Option<Option<UserView>> {
    match f {
        None => Some(None),
        Some(JsonView::Null) => Some(None),
        Some(x) => match user_from_json(x) {
            Ok(u) => Some(Some(u)),
            Err(_) => None,
        },
    }
}

/// The member a payload stands for, as the derived deserializer reads it:
/// `roles` (strings), `joined_at` (a date), `flags` (a `u64`) and `pending`
/// must be there; the other fields are optional and of their type.
pub open spec fn member_from_json(v: JsonView) -> Result<GuildMemberView, ModelErrorKind> {
    let user = de_opt_user(json_get(v, "user"@));
    let nickname = de_opt_str(json_get(v, "nickname"@));
    let avatar = de_opt_str(json_get(v, "avatar"@));
    let roles = de_str_list(json_index(v, "roles"@));
    let joined_at = match json_str(json_index(v, "joined_at"@)) {
        Some(t) => parsed_datetime_micros(t),
        None => None,
    };
    let premium_since = de_opt_micros(json_get(v, "premium_since"@));
    let flags = json_u64(json_index(v, "flags"@));
    let pending = json_bool(json_index(v, "pending"@));
    let permissions = de_opt_str(json_get(v, "permissions"@));
    let until = de_opt_micros(json_get(v, "communication_disabled_until"@));
    let guild_id = de_opt_str(json_get(v, "guild_id"@));
    if v is Object && user is Some && nickname is Some && avatar is Some && roles is Some && joined_at is Some
        && premium_since is Some && flags is Some && pending is Some && permissions is Some && until is Some
        && guild_id is Some {
        Ok(GuildMemberView {
            user: user.unwrap(),
            nickname: nickname.unwrap(),
            avatar: avatar.unwrap(),
            roles: roles.unwrap(),
            joined_at: joined_at.unwrap(),
            premium_since: premium_since.unwrap(),
            flags: flags.unwrap(),
            pending: pending.unwrap(),
            permissions: permissions.unwrap(),
            communication_disabled_until: until.unwrap(),
            guild_id: guild_id.unwrap(),
        })
    } else {
        Err(ModelErrorKind::InvalidPayload)
    }
}

fn read_opt_micros(raw: &JsonValue, key: &str) -> (r: Option<Option<i64>>)
    ensures
        r == de_opt_micros(json_get(raw@, key@)),
{
    match raw.get(key) {
        None => Some(None),
        Some(JsonValue::Null) => Some(None),
        Some(x) => match x.as_str() {
            Some(t) => match parse_datetime_micros(t) {
                Some(us) => Some(Some(us)),
                None => None,
            },
            None => None,
        },
    }
}

fn read_opt_user(raw: &JsonValue, key: &str) -> (r: Option<Option<User>>)
    ensures
        match r {
            Some(Some(u)) => de_opt_user(json_get(raw@, key@)) == Some(Some(u@)),
            Some(None) => de_opt_user(json_get(raw@, key@)) == Some(None::<UserView>),
            None => de_opt_user(json_get(raw@, key@)) is None,
        },
{
    match raw.get(key) {
        None => Some(None),
        Some(JsonValue::Null) => Some(None),
        Some(x) => match User::from_raw(x) {
            Ok(u) => Some(Some(u)),
            Err(_) => None,
        },
    }
}

impl GuildMember {
    /// Reads a member from a payload.
    pub fn from_raw(raw: &JsonValue) -> (r: Result<GuildMember, ModelError>)
        ensures
            read_as(r, member_from_json(raw@)),
    {
        let bad = ModelError::InvalidPayload(String::from_str("GuildMember"));
        match raw {
            JsonValue::Object(_) => {},
            _ => return Err(bad),
        }
        let user = match read_opt_user(raw, "user") {
            Some(x) => x,
            None => return Err(bad),
        };
        let nickname = match read_opt_str(raw, "nickname") {
            Some(x) => x,
            None => return Err(bad),
        };
        let avatar = match read_opt_str(raw, "avatar") {
            Some(x) => x,
            None => return Err(bad),
        };
        let null = JsonValue::Null;
        let roles_raw = match raw.get("roles") {
            Some(x) => x,
            None => &null,
        };
        let roles = match read_snowflake_list(roles_raw) {
            Some(x) => x,
            None => return Err(bad),
        };
        let joined_at = match get_str(raw, "joined_at") {
            Some(t) => match parse_datetime_micros(t) {
                Some(us) => us,
                None => return Err(bad),
            },
            None => return Err(bad),
        };
        let premium_since = match read_opt_micros(raw, "premium_since") {
            Some(x) => x,
            None => return Err(bad),
        };
        let flags = match get_u64(raw, "flags") {
            Some(x) => x,
            None => return Err(bad),
        };
        let pending = match raw.get("pending") {
            Some(x) => match x.as_bool() {
                Some(b) => b,
                None => return Err(bad),
            },
            None => return Err(bad),
        };
        let permissions = match read_opt_str(raw, "permissions") {
            Some(x) => x,
            None => return Err(bad),
        };
        let until = match read_opt_micros(raw, "communication_disabled_until") {
            Some(x) => x,
            None => return Err(bad),
        };
        let guild_id = match read_opt_str(raw, "guild_id") {
            Some(x) => x,
            None => return Err(bad),
        };
        let m = GuildMember {
            user,
            nickname,
            avatar,
            roles,
            joined_at,
            premium_since,
            flags,
            pending,
            permissions,
            communication_disabled_until: until,
            guild_id: match guild_id {
                Some(g) => Some(GuildId(Snowflake(g))),
                None => None,
            },
        };
        proof {
            assert(m@ == member_from_json(raw@)->Ok_0);
        }
        Ok(m)
    }
}

} // verus!
