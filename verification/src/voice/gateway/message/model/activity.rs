//! The activity shown in a user's presence.
use vstd::prelude::*;
use super::text::Emoji;

verus! {

#[verifier::external_type_specification]
#[verifier::external_body]
pub struct ExSystemTime(std::time::SystemTime);

/// Reads the system clock (`std::time::SystemTime::now`). Nothing is claimed of the
/// value: it is whatever time the machine reports.
#[verifier::external_body]
fn system_time_now() -> std::time::SystemTime {
    std::time::SystemTime::now()
}

/// The time elapsed from the Unix epoch to `t` (`SystemTime::duration_since` with
/// `UNIX_EPOCH`), or `None` where `t` lies before the epoch. Nothing more is claimed.
#[verifier::external_body]
fn since_unix_epoch(t: &std::time::SystemTime) -> Option<std::time::Duration> {
    match t.duration_since(std::time::UNIX_EPOCH) {
        Ok(d) => Some(d),
        Err(_) => None,
    }
}

/// The whole seconds of `d` (`Duration::as_secs`). A `Duration` is opaque here, so
/// nothing is claimed of the number.
#[verifier::external_body]
fn whole_seconds(d: &std::time::Duration) -> u64 {
    d.as_secs()
}

/// The user's activity
#[derive(Debug)]
#[non_exhaustive]
pub struct Activity {
    /// The activity's name
    pub name: String,
    /// The activity's type
    pub activity_type: ActivityType,
    /// The stream url, it is validated when type is `Streaming`
    pub url: Option<String>,
    /// Unix timestamp of when the activity was added to the user's session
    pub created_at: Option<u64>,
    /// The user's current party status
    pub state: Option<String>,
    /// The emoji used for a custom status
    pub emoji: Option<Emoji>,
}

/// The activity's type
#[derive(Debug, Clone, Copy, PartialEq, Eq, Structural)]
pub enum ActivityType {
    /// `Playing {name}`
    Game,
    /// `Streaming {details}`
    Streaming,
    /// `Listening to {name}`
    Listening,
    /// `{emoji} {name}`
    Custom,
}

/// The number that stands for each activity type on the wire.
pub open spec fn activity_type_code(t: ActivityType) -> u8 {
    match t {
        ActivityType::Game => 0,
        ActivityType::Streaming => 1,
        ActivityType::Listening => 2,
        ActivityType::Custom => 4,
    }
}

impl ActivityType {
    /// The number that this activity type is sent as.
    pub fn code(&self) -> (c: u8)
        ensures
            c == activity_type_code(*self),
    {
        match self {
            ActivityType::Game => 0,
            ActivityType::Streaming => 1,
            ActivityType::Listening => 2,
            ActivityType::Custom => 4,
        }
    }
}

/// The user's status
#[derive(Debug, Clone, Copy, PartialEq, Eq, Structural)]
pub enum Status {
    /// Online
    Online,
    /// Do Not Disturb
    DnD,
    /// AFK
    Idle,
    /// Invisible and shown as offline
    Invisible,
    /// Offline
    Offline,
}

impl Activity {
    /// The current Unix time in whole seconds, or `None` when the clock reads a time
    /// before the Unix epoch.
    pub fn created_at() -> Option<u64> {
        let now = system_time_now();
        match since_unix_epoch(&now) {
            Some(d) => Some(whole_seconds(&d)),
            None => None,
        }
    }

    /// `Playing {name}`, stamped with `created_at`.
    pub fn game_at(name: &str, created_at: Option<u64>) -> (a: Self)
        ensures
            a.activity_type == ActivityType::Game,
            a.name@ == name@,
            a.created_at == created_at,
            a.url == None::<String>,
            a.state == None::<String>,
            a.emoji == None::<Emoji>,
    {
        Activity {
            activity_type: ActivityType::Game,
            created_at,
            emoji: None,
            name: String::from_str(name),
            state: None,
            url: None,
        }
    }

    /// `Playing {name}`, stamped with the current time (see [`Activity::created_at`]).
    pub fn game(name: &str) -> (a: Self)
        ensures
            a.activity_type == ActivityType::Game,
            a.name@ == name@,
            a.url == None::<String>,
            a.state == None::<String>,
            a.emoji == None::<Emoji>,
    {
        Self::game_at(name, Self::created_at())
    }

    /// `Listening to {name}`, stamped with `created_at`.
    pub fn listening_at(name: &str, created_at: Option<u64>) -> (a: Self)
        ensures
            a.activity_type == ActivityType::Listening,
            a.name@ == name@,
            a.created_at == created_at,
            a.url == None::<String>,
            a.state == None::<String>,
            a.emoji == None::<Emoji>,
    {
        Activity {
            activity_type: ActivityType::Listening,
            created_at,
            emoji: None,
            name: String::from_str(name),
            state: None,
            url: None,
        }
    }

    /// `Listening to {name}`, stamped with the current time (see [`Activity::created_at`]).
    pub fn listening(name: &str) -> (a: Self)
        ensures
            a.activity_type == ActivityType::Listening,
            a.name@ == name@,
            a.url == None::<String>,
            a.state == None::<String>,
            a.emoji == None::<Emoji>,
    {
        Self::listening_at(name, Self::created_at())
    }

    /// Streaming `name` at `url`, stamped with `created_at`.
    pub fn streaming_at(name: &str, url: &str, created_at: Option<u64>) -> (a: Self)
        ensures
            a.activity_type == ActivityType::Streaming,
            a.name@ == name@,
            a.url is Some && a.url.unwrap()@ == url@,
            a.created_at == created_at,
            a.state == None::<String>,
            a.emoji == None::<Emoji>,
    {
        Activity {
            activity_type: ActivityType::Streaming,
            created_at,
            emoji: None,
            name: String::from_str(name),
            state: None,
            url: Some(String::from_str(url)),
        }
    }

    /// Streaming `name` at `url`, stamped with the current time (see
    /// [`Activity::created_at`]).
    pub fn streaming(name: &str, url: &str) -> (a: Self)
        ensures
            a.activity_type == ActivityType::Streaming,
            a.name@ == name@,
            a.url is Some && a.url.unwrap()@ == url@,
            a.state == None::<String>,
            a.emoji == None::<Emoji>,
    {
        Self::streaming_at(name, url, Self::created_at())
    }

    /// A custom status: the text `status` beside `emoji`, stamped with `created_at`.
    pub fn custom_at(status: &str, emoji: Emoji, created_at: Option<u64>) -> (a: Self)
        ensures
            a.activity_type == ActivityType::Custom,
            a.name@ == custom_status_name(),
            a.created_at == created_at,
            a.url == None::<String>,
            a.state is Some && a.state.unwrap()@ == status@,
            a.emoji == Some(emoji),
    {
        Activity {
            activity_type: ActivityType::Custom,
            created_at,
            emoji: Some(emoji),
            name: String::from_str("Custom Status"),
            state: Some(String::from_str(status)),
            url: None,
        }
    }

    /// A custom status: the text `status` beside `emoji`, stamped with the current time
    /// (see [`Activity::created_at`]).
    pub fn custom(status: &str, emoji: Emoji) -> (a: Self)
        ensures
            a.activity_type == ActivityType::Custom,
            a.name@ == custom_status_name(),
            a.url == None::<String>,
            a.state is Some && a.state.unwrap()@ == status@,
            a.emoji == Some(emoji),
    {
        Self::custom_at(status, emoji, Self::created_at())
    }
}

/// The name that every custom status carries.
pub open spec fn custom_status_name() -> Seq<char> {
    "Custom Status"@
}

} // verus!
