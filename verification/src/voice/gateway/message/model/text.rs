//! Emoji used in a custom status.
use vstd::prelude::*;
use super::id::Snowflake;

verus! {

/// An emoji, either a standard one (by its text) or a custom one of a guild.
#[derive(Debug)]
#[non_exhaustive]
pub struct Emoji {
    /// The name of the emoji
    pub name: String,
    /// The id of the emoji
    pub id: Option<Snowflake>,
    /// Whether this emoji is animated
    pub animated: Option<bool>,
}

impl Emoji {
    /// A standard emoji, named by its text.
    pub fn named(name: &str) -> (e: Self)
        ensures
            e.name@ == name@,
            e.id == None::<Snowflake>,
            e.animated == None::<bool>,
    {
        Emoji { name: String::from_str(name), id: None, animated: None }
    }

    /// A custom emoji with its snowflake and whether it is animated.
    pub fn custom(name: &str, id: Snowflake, animated: bool) -> (e: Self)
        ensures
            e.name@ == name@,
            e.id == Some(id),
            e.animated == Some(animated),
    {
        Emoji { name: String::from_str(name), id: Some(id), animated: Some(animated) }
    }
}

} // verus!
