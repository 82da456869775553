//! Snowflakes and the identifiers built on them.

use vstd::prelude::*;
use crate::json::{json_str, JsonValue};
use crate::models::ModelError;
use crate::text::{parse_u64, parse_u64_spec, str_to_chars};
use crate::time::{millis_in_range, now_secs, secs_in_range, utc_millis_in_range, utc_secs_in_range};

verus! {

/// A Discord snowflake, kept as the decimal text that the API sends.
#[derive(Debug, Hash)]
pub struct Snowflake(pub String);

impl View for Snowflake {
    type V = Seq<char>;

    open spec fn view(&self) -> Seq<char> {
        self.0@
    }
}

impl Clone for Snowflake {
    fn clone(&self) -> (r: Self)
        ensures
            r == *self,
    {
        Snowflake(self.0.clone())
    }
}

impl PartialEq for Snowflake {
    fn eq(&self, other: &Self) -> (r: bool) {
        self.0 == other.0
    }
}

impl vstd::std_specs::cmp::PartialEqSpecImpl for Snowflake {
    open spec fn obeys_eq_spec() -> bool {
        true
    }

    open spec fn eq_spec(&self, other: &Self) -> bool {
        self.0@ == other.0@
    }
}

impl Eq for Snowflake {}

impl From<String> for Snowflake {
    fn from(s: String) -> (r: Snowflake) {
        Snowflake(s)
    }
}

impl vstd::std_specs::convert::FromSpecImpl<String> for Snowflake {
    open spec fn obeys_from_spec() -> bool {
        true
    }

    open spec fn from_spec(s: String) -> Snowflake {
        Snowflake(s)
    }
}

impl From<Snowflake> for String {
    fn from(value: Snowflake) -> (r: String) {
        value.0
    }
}

impl vstd::std_specs::convert::FromSpecImpl<Snowflake> for String {
    open spec fn obeys_from_spec() -> bool {
        true
    }

    open spec fn from_spec(value: Snowflake) -> String {
        value.0
    }
}

/// The first millisecond of 2015, from which snowflakes count time.
pub const DISCORD_EPOCH: u64 = 1420070400000;

/// The creation time, in milliseconds since the UNIX epoch, that a
/// snowflake's number carries in its upper bits.
pub open spec fn snowflake_millis(n: u64) -> u64 {
    ((n >> 22u64) + DISCORD_EPOCH) as u64
}

/// Why a snowflake cannot be read.
#[derive(Debug, Clone, Copy, PartialEq, Eq, Structural)]
pub enum SnowflakeError {
    /// The text is not a `u64`.
    NotANumber,
    /// The creation time lies out of the calendar's range.
    OutOfRange,
}

impl Snowflake {
    /// The creation time of the snowflake, in milliseconds since the UNIX
    /// epoch.
    pub fn get_timestamp(&self) -> (r: Result<i64, SnowflakeError>)
        ensures
            match parse_u64_spec(self@) {
                None => r == Err::<i64, _>(SnowflakeError::NotANumber),
                Some(n) => if utc_millis_in_range(snowflake_millis(n) as i64) {
                    r == Ok::<_, SnowflakeError>(snowflake_millis(n) as i64)
                } else {
                    r == Err::<i64, _>(SnowflakeError::OutOfRange)
                },
            },
    {
        let chars = str_to_chars(self.0.as_str());
        let n = match parse_u64(chars.as_slice()) {
            Some(n) => n,
            None => return Err(SnowflakeError::NotANumber),
        };
        assert(n >> 22u64 <= u64::MAX >> 22u64) by (bit_vector);
        assert(u64::MAX >> 22u64 == 4398046511103u64) by (bit_vector);
        let ms = (n >> 22u64) + DISCORD_EPOCH;
        if millis_in_range(ms as i64) {
            Ok(ms as i64)
        } else {
            Err(SnowflakeError::OutOfRange)
        }
    }
}

/// The snowflake a payload stands for: a string.
pub open spec fn snowflake_from_json(v: crate::json::JsonView) -> Result<Seq<char>, crate::models::ModelErrorKind> {
    match json_str(v) {
        Some(s) => Ok(s),
        None => Err(crate::models::ModelErrorKind::InvalidSnowflake),
    }
}

/// What the number of a snowflake encodes.
#[derive(Debug, Clone, Copy, PartialEq, Eq, Structural)]
pub struct SnowflakeInfo {
    /// The creation time, in seconds since the UNIX epoch.
    pub timestamp: i64,
    pub data_center_id: u16,
    pub worker_id: u16,
    pub sequence: u16,
}

/// The data center of a snowflake: bits 17 to 21.
pub open spec fn data_center_of(n: u64) -> u16 {
    ((n & 0x3E0000u64) >> 17u64) as u16
}

/// The worker of a snowflake: bits 12 to 16.
pub open spec fn worker_of(n: u64) -> u16 {
    ((n & 0x1F000u64) >> 12u64) as u16
}

pub open spec fn sequence_of(n: u64) -> u16 {
    (n & 0xFFFu64) as u16
}

impl SnowflakeInfo {
    /// Reads what a snowflake's number encodes. The time is the creation
    /// time in whole seconds; when the calendar cannot hold it, the time is
    /// a minute before now instead.
    pub fn from_snowflake(snowflake: &Snowflake) -> (r: Result<SnowflakeInfo, SnowflakeError>)
        ensures
            match parse_u64_spec(snowflake@) {
                None => r == Err::<SnowflakeInfo, _>(SnowflakeError::NotANumber),
                Some(n) => r matches Ok(info) && {
                    &&& utc_secs_in_range((snowflake_millis(n) / 1000) as i64) ==> info.timestamp
                        == (snowflake_millis(n) / 1000) as i64
                    &&& info.data_center_id == data_center_of(n)
                    &&& info.worker_id == worker_of(n)
                    &&& info.sequence == sequence_of(n)
                },
            },
    {
        let chars = str_to_chars(snowflake.0.as_str());
        let n = match parse_u64(chars.as_slice()) {
            Some(n) => n,
            None => return Err(SnowflakeError::NotANumber),
        };
        assert(n >> 22u64 <= 4398046511103u64) by (bit_vector);
        let ms: i64 = ((n >> 22u64) as i64) + 1420070400000i64;
        let secs = ms / 1000;
        let timestamp = if secs_in_range(secs) {
            secs
        } else {
            let now = now_secs();
            if now >= i64::MIN + 60 {
                now - 60
            } else {
                now
            }
        };
        let data_center_id = n & 0x3E0000u64;
        let worker_id = n & 0x1F000u64;
        let sequence = n & 0xFFFu64;
        Ok(SnowflakeInfo {
            timestamp,
            data_center_id: (data_center_id >> 17u64) as u16,
            worker_id: (worker_id >> 12u64) as u16,
            sequence: sequence as u16,
        })
    }
}

/// The identifier of a guild.
#[derive(Debug, Hash)]
pub struct GuildId(pub Snowflake);

/// The identifier of a user.
#[derive(Debug, Hash)]
pub struct UserId(pub Snowflake);

/// The identifier of a channel.
#[derive(Debug, Hash)]
pub struct ChannelId(pub Snowflake);

impl Clone for GuildId {
    fn clone(&self) -> (r: Self)
        ensures
            r == *self,
    {
        GuildId(self.0.clone())
    }
}

impl PartialEq for GuildId {
    fn eq(&self, other: &Self) -> (r: bool) {
        self.0.0 == other.0.0
    }
}

impl vstd::std_specs::cmp::PartialEqSpecImpl for GuildId {
    open spec fn obeys_eq_spec() -> bool {
        true
    }

    open spec fn eq_spec(&self, other: &Self) -> bool {
        self.0.0@ == other.0.0@
    }
}

impl Eq for GuildId {}

impl Clone for UserId {
    fn clone(&self) -> (r: Self)
        ensures
            r == *self,
    {
        UserId(self.0.clone())
    }
}

impl PartialEq for UserId {
    fn eq(&self, other: &Self) -> (r: bool) {
        self.0.0 == other.0.0
    }
}

impl vstd::std_specs::cmp::PartialEqSpecImpl for UserId {
    open spec fn obeys_eq_spec() -> bool {
        true
    }

    open spec fn eq_spec(&self, other: &Self) -> bool {
        self.0.0@ == other.0.0@
    }
}

impl Eq for UserId {}

impl Clone for ChannelId {
    fn clone(&self) -> (r: Self)
        ensures
            r == *self,
    {
        ChannelId(self.0.clone())
    }
}

impl PartialEq for ChannelId {
    fn eq(&self, other: &Self) -> (r: bool) {
        self.0.0 == other.0.0
    }
}

impl vstd::std_specs::cmp::PartialEqSpecImpl for ChannelId {
    open spec fn obeys_eq_spec() -> bool {
        true
    }

    open spec fn eq_spec(&self, other: &Self) -> bool {
        self.0.0@ == other.0.0@
    }
}

impl Eq for ChannelId {}

impl View for GuildId {
    type V = Seq<char>;

    open spec fn view(&self) -> Seq<char> {
        self.0@
    }
}

impl View for UserId {
    type V = Seq<char>;

    open spec fn view(&self) -> Seq<char> {
        self.0@
    }
}

impl View for ChannelId {
    type V = Seq<char>;

    open spec fn view(&self) -> Seq<char> {
        self.0@
    }
}

impl From<String> for GuildId {
    fn from(s: String) -> (r: GuildId) {
        GuildId(Snowflake(s))
    }
}

impl vstd::std_specs::convert::FromSpecImpl<String> for GuildId {
    open spec fn obeys_from_spec() -> bool {
        true
    }

    open spec fn from_spec(s: String) -> GuildId {
        GuildId(Snowflake(s))
    }
}

impl From<String> for UserId {
    fn from(s: String) -> (r: UserId) {
        UserId(Snowflake(s))
    }
}

impl vstd::std_specs::convert::FromSpecImpl<String> for UserId {
    open spec fn obeys_from_spec() -> bool {
        true
    }

    open spec fn from_spec(s: String) -> UserId {
        UserId(Snowflake(s))
    }
}

impl From<String> for ChannelId {
    fn from(s: String) -> (r: ChannelId) {
        ChannelId(Snowflake(s))
    }
}

impl vstd::std_specs::convert::FromSpecImpl<String> for ChannelId {
    open spec fn obeys_from_spec() -> bool {
        true
    }

    open spec fn from_spec(s: String) -> ChannelId {
        ChannelId(Snowflake(s))
    }
}

impl From<GuildId> for String {
    fn from(value: GuildId) -> (r: String) {
        value.0.0
    }
}

impl vstd::std_specs::convert::FromSpecImpl<GuildId> for String {
    open spec fn obeys_from_spec() -> bool {
        true
    }

    open spec fn from_spec(value: GuildId) -> String {
        value.0.0
    }
}

impl From<UserId> for String {
    fn from(value: UserId) -> (r: String) {
        value.0.0
    }
}

impl vstd::std_specs::convert::FromSpecImpl<UserId> for String {
    open spec fn obeys_from_spec() -> bool {
        true
    }

    open spec fn from_spec(value: UserId) -> String {
        value.0.0
    }
}

impl Snowflake {
    /// Reads a snowflake from a payload, where it is a string.
    pub fn from_raw(raw: &JsonValue) -> (r: Result<Snowflake, ModelError>)
        ensures
            match json_str(raw@) {
                Some(s) => r matches Ok(sf) && sf@ == s,
                None => r matches Err(ModelError::InvalidSnowflake(_)),
            },
    {
        match raw.as_str() {
            Some(s) => Ok(Snowflake(String::from_str(s))),
            None => Err(ModelError::InvalidSnowflake(String::from_str("Failed to parse snowflake"))),
        }
    }

    /// Reads the id of a channel from a payload, where it is a string.
    pub fn channel_from_raw(raw: &JsonValue) -> (r: Result<ChannelId, ModelError>)
        ensures
            match json_str(raw@) {
                Some(s) => r matches Ok(c) && c@ == s,
                None => r matches Err(ModelError::InvalidSnowflake(_)),
            },
    {
        match Snowflake::from_raw(raw) {
            Ok(s) => Ok(ChannelId(s)),
            Err(e) => Err(e),
        }
    }

    /// The text of the snowflake, as `Display` writes it.
    pub fn to_text(&self) -> (s: String)
        ensures
            s@ == self@,
    {
        self.0.clone()
    }
}

/// The texts of a list of snowflakes.
pub open spec fn snowflakes_view(v: Seq<Snowflake>) -> Seq<Seq<char>> {
    v.map_values(|s: Snowflake| s@)
}

/// The text of an optional snowflake.
pub open spec fn opt_snowflake_view(o: Option<Snowflake>) -> Option<Seq<char>> {
    match o {
        Some(s) => Some(s@),
        None => None,
    }
}

/// Whether two lists of snowflakes hold the same ids in the same order.
pub fn snowflakes_eq(a: &Vec<Snowflake>, b: &Vec<Snowflake>) -> (r: bool)
    ensures
        r == (snowflakes_view(a@) == snowflakes_view(b@)),
{
    if a.len() != b.len() {
        proof {
            assert(snowflakes_view(a@).len() != snowflakes_view(b@).len());
        }
        return false;
    }
    let mut i: usize = 0;
    while i < a.len()
        invariant
            a@.len() == b@.len(),
            i <= a@.len(),
            forall|j: int| 0 <= j < i ==> a@[j]@ == b@[j]@,
        decreases a@.len() - i,
    {
        if a[i] != b[i] {
            proof {
                assert(snowflakes_view(a@)[i as int] != snowflakes_view(b@)[i as int]);
            }
            return false;
        }
        i += 1;
    }
    proof {
        assert(snowflakes_view(a@) =~= snowflakes_view(b@));
    }
    true
}

/// A copy of a list of snowflakes.
pub fn clone_snowflakes(v: &Vec<Snowflake>) -> (r: Vec<Snowflake>)
    ensures
        snowflakes_view(r@) == snowflakes_view(v@),
{
    let r = v.clone();
    proof {
        assert(snowflakes_view(r@) =~= snowflakes_view(v@));
    }
    r
}

/// The text of an optional guild id.
pub open spec fn opt_guild_view(g: Option<GuildId>) -> Option<Seq<char>> {
    match g {
        Some(g) => Some(g@),
        None => None,
    }
}

/// The text of an optional channel id.
pub open spec fn opt_channel_view(c: Option<ChannelId>) -> Option<Seq<char>> {
    match c {
        Some(c) => Some(c@),
        None => None,
    }
}

/// The text of an optional user id.
pub open spec fn opt_user_id_view(u: Option<UserId>) -> Option<Seq<char>> {
    match u {
        Some(u) => Some(u@),
        None => None,
    }
}

} // verus!
