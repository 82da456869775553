//! The cache of the client: its user, its application, and the guilds,
//! channels, users and messages it has seen, each kept under its id and
//! brought up to date by the fresher copies that the gateway sends.

use vstd::prelude::*;
use crate::assoc::{assoc_map, find_first, keys_unique, lemma_assoc_contains, lemma_assoc_update, lemma_assoc_value, lemma_assoc_push};
use crate::cache::{message_stored, upsert_message, CacheDock, CacheItem, UpdateCache};
use crate::models::channel::{channel_after_update, docks_wf, dock_of, Channel, Thread};
use crate::models::guild::{
    find_role_by_id, first_role_with_id, lemma_first_role_with_id, guild_after_update, member_after_update, merge_members, role_after_update, roles_view,
    update_members, Guild,
    GuildMember, GuildMemberView, GuildView, Role, RoleView,
};
use crate::assoc::{lemma_first_contains, lemma_first_value};
use crate::models::ids::{ChannelId, GuildId, Snowflake, UserId};
use crate::models::message::Message;
use crate::models::user::{Application, ClientUser, User};

verus! {

/// The cache of the client.
#[derive(Debug)]
pub struct CacheManager {
    client_user: Option<ClientUser>,
    application: Option<Application>,
    guilds: Vec<(GuildId, Guild)>,
    channels: Vec<(ChannelId, Channel)>,
    users: Vec<(UserId, User)>,
}

/// The id under which a channel is cached: channels of the kinds that the
/// cache keeps carry one; the others are not cached.
pub open spec fn cached_channel_id(c: Channel) -> Option<Seq<char>> {
    match c {
        Channel::GuildText(x) => Some(x.id@),
        Channel::Dm(x) => Some(x.id@),
        Channel::GuildAnnouncement(x) => Some(x.id@),
        Channel::GuildForum(x) => Some(x.id@),
        Channel::GuildVoice(x) => Some(x.id@),
        Channel::Thread(Thread::PublicThread(x)) => Some(x.id@),
        Channel::Thread(Thread::PrivateThread(x)) => Some(x.id@),
        Channel::Thread(Thread::AnnouncementThread(x)) => Some(x.id@),
        _ => None,
    }
}

/// The store of messages that the cache fills for a channel: the stage
/// channels keep theirs aside.
pub open spec fn message_store(c: Channel) -> Option<CacheDock<Snowflake, Message>> {
    match c {
        Channel::GuildStageVoice(_) => None,
        _ => dock_of(c),
    }
}

/// Whether a channel keeps a message under an id.
pub open spec fn holds_message(c: Channel, id: Seq<char>) -> bool {
    message_store(c) matches Some(d) && d@.contains_key(id)
}

fn cached_channel_id_of(c: &Channel) -> (r: Option<ChannelId>)
    ensures
        match cached_channel_id(*c) {
            Some(id) => r matches Some(x) && x@ == id,
            None => r is None,
        },
{
    match c {
        Channel::GuildText(x) => Some(x.id.clone()),
        Channel::Dm(x) => Some(x.id.clone()),
        Channel::GuildAnnouncement(x) => Some(x.id.clone()),
        Channel::GuildForum(x) => Some(x.id.clone()),
        Channel::GuildVoice(x) => Some(x.id.clone()),
        Channel::Thread(Thread::PublicThread(x)) => Some(x.id.clone()),
        Channel::Thread(Thread::PrivateThread(x)) => Some(x.id.clone()),
        Channel::Thread(Thread::AnnouncementThread(x)) => Some(x.id.clone()),
        _ => None,
    }
}

impl CacheManager {
    /// The cache is well formed: no id occurs twice in a store, and the
    /// message stores of the channels are well formed.
    pub closed spec fn wf(&self) -> bool {
        &&& keys_unique(self.guilds@)
        &&& keys_unique(self.channels@)
        &&& keys_unique(self.users@)
        &&& forall|i: int| 0 <= i < self.channels@.len() ==> docks_wf(#[trigger] self.channels@[i].1)
    }

    /// The cached user of the client.
    pub closed spec fn client_user_spec(&self) -> Option<ClientUser> {
        self.client_user
    }

    /// The cached application of the client.
    pub closed spec fn application_spec(&self) -> Option<Application> {
        self.application
    }

    /// The cached guilds, by the text of their id.
    pub closed spec fn guild_map(&self) -> Map<Seq<char>, Guild> {
        assoc_map(self.guilds@)
    }

    /// The cached channels, by the text of their id.
    pub closed spec fn channel_map(&self) -> Map<Seq<char>, Channel> {
        assoc_map(self.channels@)
    }

    /// The cached users, by the text of their id.
    pub closed spec fn user_map(&self) -> Map<Seq<char>, User> {
        assoc_map(self.users@)
    }

    /// An empty cache.
    pub fn new() -> (r: CacheManager)
        ensures
            r.wf(),
            r.client_user_spec() is None,
            r.application_spec() is None,
            r.guild_map() == Map::<Seq<char>, Guild>::empty(),
            r.channel_map() == Map::<Seq<char>, Channel>::empty(),
            r.user_map() == Map::<Seq<char>, User>::empty(),
    {
        CacheManager { client_user: None, application: None, guilds: Vec::new(), channels: Vec::new(), users: Vec::new() }
    }

    /// Takes a fresher copy of the client user, or stores it.
    pub fn update_client_user(&mut self, client_user: &ClientUser)
        requires
            old(self).wf(),
        ensures
            final(self).wf(),
            final(self).client_user_spec() matches Some(c) && c@ == client_user@,
            final(self).application_spec() == old(self).application_spec(),
            final(self).guild_map() == old(self).guild_map(),
            final(self).channel_map() == old(self).channel_map(),
            final(self).user_map() == old(self).user_map(),
    {
        match self.client_user.take() {
            Some(mut c) => {
                c.update(client_user);
                self.client_user = Some(c);
            },
            None => {
                self.client_user = Some(client_user.duplicate());
            },
        }
    }

    /// The cached client user.
    pub fn get_client_user(&self) -> (r: Option<&ClientUser>)
        ensures
            match (r, self.client_user_spec()) {
                (Some(x), Some(y)) => *x == y,
                (None, None) => true,
                _ => false,
            },
    {
        self.client_user.as_ref()
    }

    /// Takes a fresher copy of the application, or stores it.
    pub fn update_application(&mut self, application: &Application)
        requires
            old(self).wf(),
        ensures
            final(self).wf(),
            final(self).application_spec() matches Some(a) && a@ == application@,
            final(self).client_user_spec() == old(self).client_user_spec(),
            final(self).guild_map() == old(self).guild_map(),
            final(self).channel_map() == old(self).channel_map(),
            final(self).user_map() == old(self).user_map(),
    {
        match self.application.take() {
            Some(mut a) => {
                a.update(application);
                self.application = Some(a);
            },
            None => {
                self.application = Some(application.duplicate());
            },
        }
    }

    /// The cached application.
    pub fn get_application(&self) -> (r: Option<&Application>)
        ensures
            match (r, self.application_spec()) {
                (Some(x), Some(y)) => *x == y,
                (None, None) => true,
                _ => false,
            },
    {
        self.application.as_ref()
    }
}

impl CacheManager {
    /// Takes a fresher copy of a user, or stores it.
    pub fn update_user(&mut self, user: &User)
        requires
            old(self).wf(),
        ensures
            final(self).wf(),
            final(self).user_map().dom() == old(self).user_map().dom().insert(user.id@),
            final(self).user_map()[user.id@]@ == user@,
            forall|k: Seq<char>| k != user.id@ && #[trigger] old(self).user_map().contains_key(k)
                ==> final(self).user_map()[k] == old(self).user_map()[k],
            final(self).client_user_spec() == old(self).client_user_spec(),
            final(self).application_spec() == old(self).application_spec(),
            final(self).guild_map() == old(self).guild_map(),
            final(self).channel_map() == old(self).channel_map(),
    {
        let ghost s = self.users@;
        match find_first(&self.users, &user.id) {
            Some(i) => {
                let (k, mut u) = self.users.remove(i);
                u.update(user);
                let ghost e = (k, u);
                self.users.insert(i, (k, u));
                proof {
                    assert(self.users@ =~= s.update(i as int, e));
                    lemma_assoc_update(s, i as int, e);
                    lemma_assoc_contains(s, user.id@);
                }
            },
            None => {
                let e = (user.id.clone(), user.clone());
                let ghost ge = e;
                self.users.push(e);
                proof {
                    lemma_assoc_push(s, ge);
                    assert(keys_unique(self.users@)) by {
                        assert forall|a: int, b: int| 0 <= a < b < self.users@.len() implies self.users@[a].0@ != self.users@[b].0@ by {
                            if b == s.len() {
                                assert(s[a].0@ != user.id@);
                            } else {
                                assert(s[a].0@ != s[b].0@);
                            }
                        }
                    }
                }
            },
        }
        assert(self.user_map().dom() =~= old(self).user_map().dom().insert(user.id@));
    }

    /// The cached user with an id.
    pub fn get_user(&self, user_id: &UserId) -> (r: Option<&User>)
        requires
            self.wf(),
        ensures
            r is Some == self.user_map().contains_key(user_id@),
            r matches Some(u) ==> *u == self.user_map()[user_id@],
    {
        proof {
            lemma_assoc_contains(self.users@, user_id@);
        }
        match find_first(&self.users, user_id) {
            Some(i) => {
                proof {
                    lemma_assoc_value(self.users@, i as int);
                }
                Some(&self.users[i].1)
            },
            None => None,
        }
    }

    /// Takes a fresher copy of a guild, or stores it.
    pub fn update_guild(&mut self, guild: &Guild)
        requires
            old(self).wf(),
        ensures
            final(self).wf(),
            final(self).guild_map().dom() == old(self).guild_map().dom().insert(guild.id@),
            final(self).guild_map()[guild.id@]@ == if old(self).guild_map().contains_key(guild.id@) {
                guild_after_update(old(self).guild_map()[guild.id@]@, *guild)
            } else {
                guild@
            },
            forall|k: Seq<char>| k != guild.id@ && #[trigger] old(self).guild_map().contains_key(k)
                ==> final(self).guild_map()[k] == old(self).guild_map()[k],
            final(self).client_user_spec() == old(self).client_user_spec(),
            final(self).application_spec() == old(self).application_spec(),
            final(self).user_map() == old(self).user_map(),
            final(self).channel_map() == old(self).channel_map(),
    {
        let ghost s = self.guilds@;
        proof {
            lemma_assoc_contains(s, guild.id@);
        }
        match find_first(&self.guilds, &guild.id) {
            Some(i) => {
                proof {
                    lemma_assoc_value(s, i as int);
                }
                let (k, mut g) = self.guilds.remove(i);
                g.update(guild);
                let ghost e = (k, g);
                self.guilds.insert(i, (k, g));
                proof {
                    assert(self.guilds@ =~= s.update(i as int, e));
                    lemma_assoc_update(s, i as int, e);
                }
            },
            None => {
                let e = (guild.id.clone(), guild.duplicate());
                let ghost ge = e;
                self.guilds.push(e);
                proof {
                    lemma_assoc_push(s, ge);
                    assert(keys_unique(self.guilds@)) by {
                        assert forall|a: int, b: int| 0 <= a < b < self.guilds@.len() implies self.guilds@[a].0@ != self.guilds@[b].0@ by {
                            if b == s.len() {
                                assert(s[a].0@ != guild.id@);
                            } else {
                                assert(s[a].0@ != s[b].0@);
                            }
                        }
                    }
                }
            },
        }
        assert(self.guild_map().dom() =~= old(self).guild_map().dom().insert(guild.id@));
    }

    /// The cached guild with an id.
    pub fn get_guild(&self, guild_id: &GuildId) -> (r: Option<&Guild>)
        requires
            self.wf(),
        ensures
            r is Some == self.guild_map().contains_key(guild_id@),
            r matches Some(g) ==> *g == self.guild_map()[guild_id@],
    {
        proof {
            lemma_assoc_contains(self.guilds@, guild_id@);
        }
        match find_first(&self.guilds, guild_id) {
            Some(i) => {
                proof {
                    lemma_assoc_value(self.guilds@, i as int);
                }
                Some(&self.guilds[i].1)
            },
            None => None,
        }
    }

    /// Takes a fresher copy of a channel, or stores it. Channels of the
    /// kinds that the cache does not keep are left out.
    pub fn update_channel(&mut self, channel: &Channel)
        requires
            old(self).wf(),
            docks_wf(*channel),
        ensures
            final(self).wf(),
            match cached_channel_id(*channel) {
                None => final(self).channel_map() == old(self).channel_map(),
                Some(id) => {
                    &&& final(self).channel_map().dom() == old(self).channel_map().dom().insert(id)
                    &&& if old(self).channel_map().contains_key(id) {
                        &&& final(self).channel_map()[id]@ == channel_after_update(old(self).channel_map()[id]@, channel@)
                        &&& dock_of(final(self).channel_map()[id]) == dock_of(old(self).channel_map()[id])
                    } else {
                        &&& final(self).channel_map()[id]@ == channel@
                        &&& crate::models::channel::same_docks(final(self).channel_map()[id], *channel)
                    }
                    &&& forall|k: Seq<char>| k != id && #[trigger] old(self).channel_map().contains_key(k)
                        ==> final(self).channel_map()[k] == old(self).channel_map()[k]
                },
            },
            final(self).client_user_spec() == old(self).client_user_spec(),
            final(self).application_spec() == old(self).application_spec(),
            final(self).user_map() == old(self).user_map(),
            final(self).guild_map() == old(self).guild_map(),
    {
        let id = match cached_channel_id_of(channel) {
            Some(id) => id,
            None => return,
        };
        let ghost s = self.channels@;
        proof {
            lemma_assoc_contains(s, id@);
        }
        match find_first(&self.channels, &id) {
            Some(i) => {
                proof {
                    lemma_assoc_value(s, i as int);
                    assert(docks_wf(s[i as int].1));
                }
                let (k, mut c) = self.channels.remove(i);
                c.update(channel);
                let ghost e = (k, c);
                self.channels.insert(i, (k, c));
                proof {
                    assert(self.channels@ =~= s.update(i as int, e));
                    lemma_assoc_update(s, i as int, e);
                    assert forall|j: int| 0 <= j < self.channels@.len() implies docks_wf(#[trigger] self.channels@[j].1) by {
                        if j != i {
                            assert(self.channels@[j] == s[j]);
                        }
                    }
                }
            },
            None => {
                let e = (id, channel.duplicate());
                let ghost ge = e;
                self.channels.push(e);
                proof {
                    lemma_assoc_push(s, ge);
                    assert(keys_unique(self.channels@)) by {
                        assert forall|a: int, b: int| 0 <= a < b < self.channels@.len() implies self.channels@[a].0@ != self.channels@[b].0@ by {
                            if b == s.len() {
                                assert(s[a].0@ != ge.0@);
                            } else {
                                assert(s[a].0@ != s[b].0@);
                            }
                        }
                    }
                    assert forall|j: int| 0 <= j < self.channels@.len() implies docks_wf(#[trigger] self.channels@[j].1) by {
                        if j < s.len() {
                            assert(self.channels@[j] == s[j]);
                        }
                    }
                }
            },
        }
        assert(self.channel_map().dom() =~= old(self).channel_map().dom().insert(id@));
    }

    /// The cached channel with an id.
    pub fn get_channel(&self, channel_id: &ChannelId) -> (r: Option<&Channel>)
        requires
            self.wf(),
        ensures
            r is Some == self.channel_map().contains_key(channel_id@),
            r matches Some(c) ==> *c == self.channel_map()[channel_id@],
    {
        proof {
            lemma_assoc_contains(self.channels@, channel_id@);
        }
        match find_first(&self.channels, channel_id) {
            Some(i) => {
                proof {
                    lemma_assoc_value(self.channels@, i as int);
                }
                Some(&self.channels[i].1)
            },
            None => None,
        }
    }

    /// The number of cached users.
    pub fn get_user_size(&self) -> (r: usize)
        requires
            self.wf(),
        ensures
            r == self.user_map().len(),
    {
        proof {
            crate::assoc::lemma_assoc_len(self.users@);
        }
        self.users.len()
    }

    /// The number of cached channels.
    pub fn get_channel_size(&self) -> (r: usize)
        requires
            self.wf(),
        ensures
            r == self.channel_map().len(),
    {
        proof {
            crate::assoc::lemma_assoc_len(self.channels@);
        }
        self.channels.len()
    }

    /// The number of cached guilds.
    pub fn get_guild_size(&self) -> (r: usize)
        requires
            self.wf(),
        ensures
            r == self.guild_map().len(),
    {
        proof {
            crate::assoc::lemma_assoc_len(self.guilds@);
        }
        self.guilds.len()
    }
}

/// The message store of a channel after `message` was stored in it.
fn store_message_in(c: &mut Channel, message: Message)
    requires
        docks_wf(*old(c)),
    ensures
        final(c)@ == old(c)@,
        docks_wf(*final(c)),
        match message_store(*old(c)) {
            Some(d) => message_store(*final(c)) matches Some(d2) && message_stored(d@, d2@, message.id@, message@),
            None => *final(c) == *old(c),
        },
{
    match c {
        Channel::GuildText(x) => upsert_message(&mut x.messages, message),
        Channel::Dm(x) => upsert_message(&mut x.messages, message),
        Channel::GuildAnnouncement(x) => upsert_message(&mut x.messages, message),
        Channel::GuildForum(x) => upsert_message(&mut x.messages, message),
        Channel::Thread(t) => match t {
            Thread::PublicThread(x) => upsert_message(&mut x.messages, message),
            Thread::PrivateThread(x) => upsert_message(&mut x.messages, message),
            Thread::AnnouncementThread(x) => upsert_message(&mut x.messages, message),
        },
        _ => {},
    }
}

/// The message store of a channel after the message `id` was taken out.
fn drop_message_in(c: &mut Channel, id: &Snowflake)
    requires
        docks_wf(*old(c)),
    ensures
        final(c)@ == old(c)@,
        docks_wf(*final(c)),
        match message_store(*old(c)) {
            Some(d) => message_store(*final(c)) matches Some(d2) && d2@ == d@.remove(id@),
            None => *final(c) == *old(c),
        },
{
    match c {
        Channel::GuildText(x) => { x.messages.remove(id); },
        Channel::Dm(x) => { x.messages.remove(id); },
        Channel::GuildAnnouncement(x) => { x.messages.remove(id); },
        Channel::GuildForum(x) => { x.messages.remove(id); },
        Channel::Thread(t) => match t {
            Thread::PublicThread(x) => { x.messages.remove(id); },
            Thread::PrivateThread(x) => { x.messages.remove(id); },
            Thread::AnnouncementThread(x) => { x.messages.remove(id); },
        },
        _ => {},
    }
}

/// The message stored under an id in a channel, if its kind keeps them.
fn message_in<'a>(c: &'a Channel, id: &Snowflake) -> (r: Option<&'a Message>)
    requires
        docks_wf(*c),
    ensures
        r is Some == holds_message(*c, id@),
        r matches Some(m) ==> *m == message_store(*c)->0@[id@].item,
{
    match c {
        Channel::GuildText(x) => x.messages.get(id),
        Channel::Dm(x) => x.messages.get(id),
        Channel::GuildAnnouncement(x) => x.messages.get(id),
        Channel::GuildForum(x) => x.messages.get(id),
        Channel::Thread(t) => match t {
            Thread::PublicThread(x) => x.messages.get(id),
            Thread::PrivateThread(x) => x.messages.get(id),
            Thread::AnnouncementThread(x) => x.messages.get(id),
        },
        _ => None,
    }
}

impl CacheManager {
    /// Stores a message in the channel it was sent in, where that channel is
    /// cached and of a kind that keeps messages: a message already there
    /// takes the fields of the fresher copy.
    pub fn update_message(&mut self, channel_id: &ChannelId, message: Message)
        requires
            old(self).wf(),
        ensures
            final(self).wf(),
            final(self).channel_map().dom() == old(self).channel_map().dom(),
            forall|k: Seq<char>| #[trigger] old(self).channel_map().contains_key(k)
                ==> final(self).channel_map()[k]@ == old(self).channel_map()[k]@,
            forall|k: Seq<char>| k != channel_id@ && #[trigger] old(self).channel_map().contains_key(k)
                ==> final(self).channel_map()[k] == old(self).channel_map()[k],
            old(self).channel_map().contains_key(channel_id@) && message_store(old(self).channel_map()[channel_id@]) is Some
                ==> (message_store(final(self).channel_map()[channel_id@]) matches Some(d2)
                    && message_stored(message_store(old(self).channel_map()[channel_id@])->0@, d2@, message.id@, message@)),
            !(old(self).channel_map().contains_key(channel_id@) && message_store(old(self).channel_map()[channel_id@]) is Some)
                ==> final(self).channel_map() == old(self).channel_map(),
            final(self).client_user_spec() == old(self).client_user_spec(),
            final(self).application_spec() == old(self).application_spec(),
            final(self).user_map() == old(self).user_map(),
            final(self).guild_map() == old(self).guild_map(),
    {
        let ghost s = self.channels@;
        proof {
            lemma_assoc_contains(s, channel_id@);
        }
        match find_first(&self.channels, channel_id) {
            Some(i) => {
                proof {
                    lemma_assoc_value(s, i as int);
                    assert(docks_wf(s[i as int].1));
                }
                let (k, mut c) = self.channels.remove(i);
                store_message_in(&mut c, message);
                let ghost e = (k, c);
                self.channels.insert(i, (k, c));
                proof {
                    assert(self.channels@ =~= s.update(i as int, e));
                    lemma_assoc_update(s, i as int, e);
                    assert forall|j: int| 0 <= j < self.channels@.len() implies docks_wf(#[trigger] self.channels@[j].1) by {
                        if j != i {
                            assert(self.channels@[j] == s[j]);
                        }
                    }
                    assert(self.channel_map().dom() =~= old(self).channel_map().dom());
                    if message_store(s[i as int].1) is None {
                        assert(self.channel_map() =~= old(self).channel_map());
                    }
                }
            },
            None => {},
        }
    }

    /// The message with an id in a cached channel, if the channel keeps it.
    pub fn get_message(&self, channel_id: &ChannelId, message_id: &Snowflake) -> (r: Option<&Message>)
        requires
            self.wf(),
        ensures
            r is Some == (self.channel_map().contains_key(channel_id@)
                && holds_message(self.channel_map()[channel_id@], message_id@)),
            r matches Some(m) ==> *m == message_store(self.channel_map()[channel_id@])->0@[message_id@].item,
    {
        proof {
            lemma_assoc_contains(self.channels@, channel_id@);
        }
        match find_first(&self.channels, channel_id) {
            Some(i) => {
                proof {
                    lemma_assoc_value(self.channels@, i as int);
                    assert(docks_wf(self.channels@[i as int].1));
                }
                message_in(&self.channels[i].1, message_id)
            },
            None => None,
        }
    }

    /// Takes a message out of the store of a cached channel.
    pub fn delete_message(&mut self, channel_id: &ChannelId, message_id: &Snowflake)
        requires
            old(self).wf(),
        ensures
            final(self).wf(),
            final(self).channel_map().dom() == old(self).channel_map().dom(),
            forall|k: Seq<char>| #[trigger] old(self).channel_map().contains_key(k)
                ==> final(self).channel_map()[k]@ == old(self).channel_map()[k]@,
            forall|k: Seq<char>| k != channel_id@ && #[trigger] old(self).channel_map().contains_key(k)
                ==> final(self).channel_map()[k] == old(self).channel_map()[k],
            old(self).channel_map().contains_key(channel_id@) && message_store(old(self).channel_map()[channel_id@]) is Some
                ==> (message_store(final(self).channel_map()[channel_id@]) matches Some(d2)
                    && d2@ == message_store(old(self).channel_map()[channel_id@])->0@.remove(message_id@)),
            !(old(self).channel_map().contains_key(channel_id@) && message_store(old(self).channel_map()[channel_id@]) is Some)
                ==> final(self).channel_map() == old(self).channel_map(),
            final(self).client_user_spec() == old(self).client_user_spec(),
            final(self).application_spec() == old(self).application_spec(),
            final(self).user_map() == old(self).user_map(),
            final(self).guild_map() == old(self).guild_map(),
    {
        let ghost s = self.channels@;
        proof {
            lemma_assoc_contains(s, channel_id@);
        }
        match find_first(&self.channels, channel_id) {
            Some(i) => {
                proof {
                    lemma_assoc_value(s, i as int);
                    assert(docks_wf(s[i as int].1));
                }
                let (k, mut c) = self.channels.remove(i);
                drop_message_in(&mut c, message_id);
                let ghost e = (k, c);
                self.channels.insert(i, (k, c));
                proof {
                    assert(self.channels@ =~= s.update(i as int, e));
                    lemma_assoc_update(s, i as int, e);
                    assert forall|j: int| 0 <= j < self.channels@.len() implies docks_wf(#[trigger] self.channels@[j].1) by {
                        if j != i {
                            assert(self.channels@[j] == s[j]);
                        }
                    }
                    assert(self.channel_map().dom() =~= old(self).channel_map().dom());
                    if message_store(s[i as int].1) is None {
                        assert(self.channel_map() =~= old(self).channel_map());
                    }
                }
            },
            None => {},
        }
    }
}

/// The members of a guild after a member was stored under a user id: a
/// known member takes the fields of the fresher copy, another is added.
pub open spec fn member_upserted(m: Map<Seq<char>, GuildMemberView>, k: Seq<char>, v: GuildMemberView) -> Map<Seq<char>, GuildMemberView> {
    if m.contains_key(k) {
        m.insert(k, member_after_update(m[k], v))
    } else {
        m.insert(k, v)
    }
}

/// The roles of a guild after a role was stored: the first role with its
/// id takes the fields of the fresher copy, or the role comes last.
pub open spec fn role_upserted(s: Seq<RoleView>, r: RoleView) -> Seq<RoleView> {
    let j = first_role_with_id(s, r.id);
    if j >= 0 {
        s.update(j, role_after_update(s[j], r))
    } else {
        s.push(r)
    }
}

/// The roles of a guild after roles were stored one after the other.
pub open spec fn roles_upserted(s: Seq<RoleView>, news: Seq<RoleView>) -> Seq<RoleView>
    decreases news.len(),
{
    if news.len() == 0 {
        s
    } else {
        role_upserted(roles_upserted(s, news.drop_last()), news.last())
    }
}

fn upsert_role(roles: &mut Vec<Role>, role: Role)
    ensures
        roles_view(final(roles)@) == role_upserted(roles_view(old(roles)@), role@),
{
    let ghost s = roles@;
    proof {
        lemma_first_role_with_id(roles_view(s), role.id@);
    }
    match find_role_by_id(roles, &role.id) {
        Some(j) => {
            let mut r = roles.remove(j);
            r.update(&role);
            let ghost rv = r@;
            roles.insert(j, r);
            proof {
                assert(roles@ =~= s.update(j as int, r));
            }
            assert(roles_view(roles@) =~= roles_view(s).update(j as int, rv));
        },
        None => {
            let ghost rv = role@;
            roles.push(role);
            assert(roles_view(roles@) =~= roles_view(s).push(rv));
        },
    }
}

impl CacheManager {
    /// Stores a member in a cached guild, and the member's user among the
    /// users where the member carries one.
    pub fn update_guild_member(&mut self, guild_id: &GuildId, user_id: &UserId, member: &GuildMember)
        requires
            old(self).wf(),
        ensures
            final(self).wf(),
            final(self).guild_map().dom() == old(self).guild_map().dom(),
            forall|k: Seq<char>| k != guild_id@ && #[trigger] old(self).guild_map().contains_key(k)
                ==> final(self).guild_map()[k] == old(self).guild_map()[k],
            old(self).guild_map().contains_key(guild_id@) ==> final(self).guild_map()[guild_id@]@ == (GuildView {
                members: member_upserted(old(self).guild_map()[guild_id@]@.members, user_id@, member@),
                ..old(self).guild_map()[guild_id@]@
            }),
            match member.user {
                Some(u) => {
                    &&& final(self).user_map().dom() == old(self).user_map().dom().insert(u.id@)
                    &&& final(self).user_map()[u.id@]@ == u@
                    &&& forall|k: Seq<char>| k != u.id@ && #[trigger] old(self).user_map().contains_key(k)
                        ==> final(self).user_map()[k] == old(self).user_map()[k]
                },
                None => final(self).user_map() == old(self).user_map(),
            },
            final(self).client_user_spec() == old(self).client_user_spec(),
            final(self).application_spec() == old(self).application_spec(),
            final(self).channel_map() == old(self).channel_map(),
    {
        let ghost s = self.guilds@;
        proof {
            lemma_assoc_contains(s, guild_id@);
        }
        match find_first(&self.guilds, guild_id) {
            Some(i) => {
                proof {
                    lemma_assoc_value(s, i as int);
                }
                let (k, mut g) = self.guilds.remove(i);
                let ghost gv = g@;
                let news = vec![(user_id.clone(), member.clone())];
                update_members(&mut g.members, &news);
                proof {
                    reveal_with_fuel(merge_members, 2);
                    assert(news@.drop_last() =~= Seq::<(UserId, GuildMember)>::empty());
                    assert(g@ == (GuildView { members: member_upserted(gv.members, user_id@, member@), ..gv }));
                }
                let ghost e = (k, g);
                self.guilds.insert(i, (k, g));
                proof {
                    assert(self.guilds@ =~= s.update(i as int, e));
                    lemma_assoc_update(s, i as int, e);
                    assert(self.guild_map().dom() =~= old(self).guild_map().dom());
                }
            },
            None => {},
        }
        match &member.user {
            Some(u) => self.update_user(u),
            None => {},
        }
    }

    /// The member under a user id in a cached guild.
    pub fn get_guild_member(&self, guild_id: &GuildId, user_id: &UserId) -> (r: Option<&GuildMember>)
        requires
            self.wf(),
        ensures
            r is Some == (self.guild_map().contains_key(guild_id@)
                && self.guild_map()[guild_id@]@.members.contains_key(user_id@)),
            r matches Some(m) ==> m@ == self.guild_map()[guild_id@]@.members[user_id@],
    {
        proof {
            lemma_assoc_contains(self.guilds@, guild_id@);
        }
        match find_first(&self.guilds, guild_id) {
            Some(i) => {
                proof {
                    lemma_assoc_value(self.guilds@, i as int);
                }
                let g = &self.guilds[i].1;
                proof {
                    lemma_first_contains(g.members@, user_id@);
                }
                match find_first(&g.members, user_id) {
                    Some(j) => {
                        proof {
                            lemma_first_value(g.members@, j as int);
                        }
                        Some(&g.members[j].1)
                    },
                    None => None,
                }
            },
            None => None,
        }
    }

    /// Stores a role in a cached guild: the first role with its id takes
    /// the fields of the fresher copy, or the role is added.
    pub fn update_guild_role(&mut self, guild_id: &GuildId, role: Role)
        requires
            old(self).wf(),
        ensures
            final(self).wf(),
            final(self).guild_map().dom() == old(self).guild_map().dom(),
            forall|k: Seq<char>| k != guild_id@ && #[trigger] old(self).guild_map().contains_key(k)
                ==> final(self).guild_map()[k] == old(self).guild_map()[k],
            old(self).guild_map().contains_key(guild_id@) ==> final(self).guild_map()[guild_id@]@ == (GuildView {
                roles: role_upserted(old(self).guild_map()[guild_id@]@.roles, role@),
                ..old(self).guild_map()[guild_id@]@
            }),
            final(self).client_user_spec() == old(self).client_user_spec(),
            final(self).application_spec() == old(self).application_spec(),
            final(self).channel_map() == old(self).channel_map(),
            final(self).user_map() == old(self).user_map(),
    {
        let ghost s = self.guilds@;
        proof {
            lemma_assoc_contains(s, guild_id@);
        }
        match find_first(&self.guilds, guild_id) {
            Some(i) => {
                proof {
                    lemma_assoc_value(s, i as int);
                }
                let (k, mut g) = self.guilds.remove(i);
                upsert_role(&mut g.roles, role);
                let ghost e = (k, g);
                self.guilds.insert(i, (k, g));
                proof {
                    assert(self.guilds@ =~= s.update(i as int, e));
                    lemma_assoc_update(s, i as int, e);
                    assert(self.guild_map().dom() =~= old(self).guild_map().dom());
                }
            },
            None => {},
        }
    }

    /// Stores roles in a cached guild, one after the other.
    pub fn update_guild_roles(&mut self, guild_id: &GuildId, roles: Vec<Role>)
        requires
            old(self).wf(),
        ensures
            final(self).wf(),
            final(self).guild_map().dom() == old(self).guild_map().dom(),
            forall|k: Seq<char>| k != guild_id@ && #[trigger] old(self).guild_map().contains_key(k)
                ==> final(self).guild_map()[k] == old(self).guild_map()[k],
            old(self).guild_map().contains_key(guild_id@) ==> final(self).guild_map()[guild_id@]@ == (GuildView {
                roles: roles_upserted(old(self).guild_map()[guild_id@]@.roles, roles_view(roles@)),
                ..old(self).guild_map()[guild_id@]@
            }),
            final(self).client_user_spec() == old(self).client_user_spec(),
            final(self).application_spec() == old(self).application_spec(),
            final(self).channel_map() == old(self).channel_map(),
            final(self).user_map() == old(self).user_map(),
    {
        let ghost s = self.guilds@;
        proof {
            lemma_assoc_contains(s, guild_id@);
        }
        match find_first(&self.guilds, guild_id) {
            Some(i) => {
                proof {
                    lemma_assoc_value(s, i as int);
                }
                let (k, mut g) = self.guilds.remove(i);
                let ghost gv = g@;
                let ghost news = roles_view(roles@);
                let mut j: usize = 0;
                assert(news.take(0) =~= Seq::<RoleView>::empty());
                while j < roles.len()
                    invariant
                        j <= roles.len(),
                        news == roles_view(roles@),
                        g@ == (GuildView { roles: roles_upserted(gv.roles, news.take(j as int)), ..gv }),
                    decreases roles.len() - j,
                {
                    let r = roles[j].clone();
                    upsert_role(&mut g.roles, r);
                    proof {
                        assert(news.take(j + 1).drop_last() =~= news.take(j as int));
                    }
                    j = j + 1;
                }
                assert(news.take(j as int) =~= news);
                let ghost e = (k, g);
                self.guilds.insert(i, (k, g));
                proof {
                    assert(self.guilds@ =~= s.update(i as int, e));
                    lemma_assoc_update(s, i as int, e);
                    assert(self.guild_map().dom() =~= old(self).guild_map().dom());
                }
            },
            None => {},
        }
    }

    /// The first role with an id in a cached guild.
    pub fn get_guild_role(&self, guild_id: &GuildId, role_id: &Snowflake) -> (r: Option<&Role>)
        requires
            self.wf(),
        ensures
            r is Some == (self.guild_map().contains_key(guild_id@)
                && first_role_with_id(self.guild_map()[guild_id@]@.roles, role_id@) >= 0),
            r matches Some(x) ==> x@ == self.guild_map()[guild_id@]@.roles[first_role_with_id(self.guild_map()[guild_id@]@.roles, role_id@)],
    {
        proof {
            lemma_assoc_contains(self.guilds@, guild_id@);
        }
        match find_first(&self.guilds, guild_id) {
            Some(i) => {
                proof {
                    lemma_assoc_value(self.guilds@, i as int);
                }
                let g = &self.guilds[i].1;
                proof {
                    lemma_first_role_with_id(roles_view(g.roles@), role_id@);
                }
                match find_role_by_id(&g.roles, role_id) {
                    Some(j) => Some(&g.roles[j]),
                    None => None,
                }
            },
            None => None,
        }
    }
}

} // verus!
