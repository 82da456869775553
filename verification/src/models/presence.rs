//! Presences: the status and the activities a bot shows.

use vstd::prelude::*;
use crate::json::{str_or_null, object_entries, JsonNumber, JsonValue, JsonView, NumberView};
use crate::models::common::opt_view;

verus! {

/// The type of an activity.
#[derive(Debug, Clone, Copy, PartialEq, Eq, Structural)]
pub enum ActivityType {
    Game,
    Streaming,
    Listening,
    Watching,
    Custom,
    Competing,
}

/// The number that stands for each activity type.
pub open spec fn activity_type_code(v: ActivityType) -> u8 {
    match v {
        ActivityType::Game => 0,
        ActivityType::Streaming => 1,
        ActivityType::Listening => 2,
        ActivityType::Watching => 3,
        ActivityType::Custom => 4,
        ActivityType::Competing => 5,
    }
}

/// The activity type that a number stands for, if any.
pub open spec fn activity_type_code_inverse(c: u8) -> Option<ActivityType> {
    if c == 0 {
        Some(ActivityType::Game)
    } else if c == 1 {
        Some(ActivityType::Streaming)
    } else if c == 2 {
        Some(ActivityType::Listening)
    } else if c == 3 {
        Some(ActivityType::Watching)
    } else if c == 4 {
        Some(ActivityType::Custom)
    } else if c == 5 {
        Some(ActivityType::Competing)
    } else {
        None
    }
}

impl ActivityType {
    /// The number of this activity type.
    pub fn to_code(&self) -> (r: u8)
        ensures
            r == activity_type_code(*self),
    {
        match self {
            ActivityType::Game => 0,
            ActivityType::Streaming => 1,
            ActivityType::Listening => 2,
            ActivityType::Watching => 3,
            ActivityType::Custom => 4,
            ActivityType::Competing => 5,
        }
    }

    /// The activity type of a number; other numbers stand for none.
    pub fn from_code(c: u8) -> (r: Option<ActivityType>)
        ensures
            r == activity_type_code_inverse(c),
    {
        if c == 0 {
            Some(ActivityType::Game)
        } else if c == 1 {
            Some(ActivityType::Streaming)
        } else if c == 2 {
            Some(ActivityType::Listening)
        } else if c == 3 {
            Some(ActivityType::Watching)
        } else if c == 4 {
            Some(ActivityType::Custom)
        } else if c == 5 {
            Some(ActivityType::Competing)
        } else {
            None
        }
    }
}

/// Reading the number of a activity type gives the activity type back.
pub proof fn law_activity_type_code_round_trip(v: ActivityType)
    ensures
        activity_type_code_inverse(activity_type_code(v) as u8) == Some(v),
{
}

/// A number reads as a ActivityType only when it is that one's own number, so
/// two of them never share a number and no other number reads as one.
pub proof fn law_activity_type_code_read_back(c: u8)
    ensures
        activity_type_code_inverse(c) matches Some(w) ==> activity_type_code(w) == c,
{
}

/// A status a bot can show.
#[derive(Debug, Clone, Copy, PartialEq, Eq, Structural)]
pub enum StatusType {
    Online,
    Dnd,
    Idle,
    Invisible,
    Offline,
}

/// The text of each status type.
pub open spec fn status_type_name(v: StatusType) -> Seq<char> {
    match v {
        StatusType::Online => "online"@,
        StatusType::Dnd => "dnd"@,
        StatusType::Idle => "idle"@,
        StatusType::Invisible => "invisible"@,
        StatusType::Offline => "offline"@,
    }
}

impl StatusType {
    /// The text of this status type.
    pub fn text(&self) -> (r: &'static str)
        ensures
            r@ == status_type_name(*self),
    {
        match self {
            StatusType::Online => "online",
            StatusType::Dnd => "dnd",
            StatusType::Idle => "idle",
            StatusType::Invisible => "invisible",
            StatusType::Offline => "offline",
        }
    }
}

/// An activity a bot shows.
#[derive(Debug, PartialEq, Eq)]
pub struct Activity {
    pub name: String,
    pub activity_type: ActivityType,
    pub url: Option<String>,
    /// Used while the presence is sent; the API does not take it.
    pub presence: String,
}

/// The values of a activity, its texts taken as characters.
pub ghost struct ActivityView {
    pub name: Seq<char>,
    pub activity_type: ActivityType,
    pub url: Option<Seq<char>>,
    pub presence: Seq<char>,
}

impl View for Activity {
    type V = ActivityView;

    open spec fn view(&self) -> ActivityView {
        ActivityView {
            name: self.name@,
            activity_type: self.activity_type,
            url: opt_view(self.url),
            presence: self.presence@,
        }
    }
}

impl Clone for Activity {
    fn clone(&self) -> (r: Activity)
        ensures
            r@ == self@,
    {
        Activity {
            name: self.name.clone(),
            activity_type: self.activity_type,
            url: self.url.clone(),
            presence: self.presence.clone(),
        }
    }
}

/// An activity as the gateway takes it: its fields by name, the type as its
/// number.
pub open spec fn activity_json(a: ActivityView) -> JsonView {
    JsonView::Object(seq![
        ("name"@, JsonView::Str(a.name)),
        ("presence"@, JsonView::Str(a.presence)),
        ("type"@, JsonView::Number(NumberView::PosInt(activity_type_code(a.activity_type) as u64))),
        ("url"@, str_or_null(a.url)),
    ])
}

impl Activity {
    /// The activity as the gateway takes it.
    pub fn to_json(&self) -> (r: JsonValue)
        ensures
            r@ == activity_json(self@),
    {
        let url = match &self.url {
            Some(u) => JsonValue::String(u.clone()),
            None => JsonValue::Null,
        };
        assert(url@ == str_or_null(self@.url));
        let name = JsonValue::String(self.name.clone());
        assert(name@ == JsonView::Str(self.name@));
        let presence = JsonValue::String(self.presence.clone());
        assert(presence@ == JsonView::Str(self.presence@));
        let kind = JsonValue::Number(JsonNumber::PosInt(self.activity_type.to_code() as u64));
        assert(kind@ == JsonView::Number(NumberView::PosInt(activity_type_code(self.activity_type) as u64)));
        let mut es: Vec<(String, JsonValue)> = Vec::new();
        es.push((String::from_str("name"), name));
        es.push((String::from_str("presence"), presence));
        es.push((String::from_str("type"), kind));
        es.push((String::from_str("url"), url));
        let r = JsonValue::Object(es);
        proof {
            let expected = object_entries(activity_json(self@));
            let got = object_entries(r@);
            assert(got.len() == 4);
            assert(got[0] == expected[0]);
            assert(got[1] == expected[1]);
            assert(got[2] == expected[2]);
            assert(got[3] == expected[3]);
            assert(got =~= expected);
        }
        r
    }
}

/// A presence: the status, the activities, and since when.
pub struct Presence {
    pub since: Option<u64>,
    pub activities: Vec<Activity>,
    pub status: StatusType,
    pub afk: bool,
}

/// Each activity as the gateway takes it.
pub open spec fn activities_json(s: Seq<Activity>) -> Seq<JsonView> {
    s.map_values(|a: Activity| activity_json(a@))
}

/// A presence as the gateway takes it.
pub open spec fn presence_json(p: Presence) -> JsonView {
    JsonView::Object(seq![
        ("activities"@, JsonView::Array(activities_json(p.activities@))),
        ("afk"@, JsonView::Bool(p.afk)),
        ("since"@, match p.since { Some(s) => JsonView::Number(NumberView::PosInt(s)), None => JsonView::Null }),
        ("status"@, JsonView::Str(status_type_name(p.status))),
    ])
}

impl Presence {
    /// The presence as the gateway takes it.
    pub fn to_json(&self) -> (r: JsonValue)
        ensures
            r@ == presence_json(*self),
    {
        let mut items: Vec<JsonValue> = Vec::new();
        let mut i: usize = 0;
        while i < self.activities.len()
            invariant
                i <= self.activities@.len(),
                items@.len() == i,
                forall|j: int| 0 <= j < i ==> #[trigger] items@[j]@ == activity_json(self.activities@[j]@),
            decreases self.activities@.len() - i,
        {
            let a = self.activities[i].to_json();
            items.push(a);
            i += 1;
        }
        let activities = JsonValue::Array(items);
        proof {
            let got = match activities@ { JsonView::Array(v) => v, _ => Seq::empty() };
            assert(got.len() == self.activities@.len());
            assert forall|j: int| 0 <= j < got.len() implies got[j] == activities_json(self.activities@)[j] by {
                assert(got[j] == items@[j]@);
            }
            assert(got =~= activities_json(self.activities@));
            assert(activities@ == JsonView::Array(activities_json(self.activities@)));
        }
        let since = match self.since {
            Some(s) => JsonValue::Number(JsonNumber::PosInt(s)),
            None => JsonValue::Null,
        };
        assert(since@ == match self.since { Some(s) => JsonView::Number(NumberView::PosInt(s)), None => JsonView::Null });
        let afk = JsonValue::Bool(self.afk);
        assert(afk@ == JsonView::Bool(self.afk));
        let status = JsonValue::String(String::from_str(self.status.text()));
        assert(status@ == JsonView::Str(status_type_name(self.status)));
        let mut es: Vec<(String, JsonValue)> = Vec::new();
        es.push((String::from_str("activities"), activities));
        es.push((String::from_str("afk"), afk));
        es.push((String::from_str("since"), since));
        es.push((String::from_str("status"), status));
        let r = JsonValue::Object(es);
        proof {
            let expected = object_entries(presence_json(*self));
            let got = object_entries(r@);
            assert(got.len() == 4);
            assert(got[0] == expected[0]);
            assert(got[1] == expected[1]);
            assert(got[2] == expected[2]);
            assert(got[3] == expected[3]);
            assert(got =~= expected);
        }
        r
    }
}

} // verus!
