//! The bitfield of intents to use
use vstd::prelude::*;

verus! {

/// GUILD_CREATE, GUILD_UPDATE, GUILD_DELETE, GUILD_ROLE_CREATE, GUILD_ROLE_UPDATE,
/// GUILD_ROLE_DELETE, CHANNEL_CREATE, CHANNEL_UPDATE, CHANNEL_DELETE, CHANNEL_PINS_UPDATE
pub const GUILDS: u16 = 1u16 << 0;
/// GUILD_MEMBER_ADD, GUILD_MEMBER_UPDATE, GUILD_MEMBER_REMOVE
pub const GUILD_MEMBERS: u16 = 1u16 << 1;
/// GUILD_BAN_ADD, GUILD_BAN_REMOVE
pub const GUILD_BANS: u16 = 1u16 << 2;
/// GUILD_EMOJIS_UPDATE
pub const GUILD_EMOJIS: u16 = 1u16 << 3;
/// GUILD_INTEGRATIONS_UPDATE
pub const GUILD_INTEGRATIONS: u16 = 1u16 << 4;
/// WEBHOOKS_UPDATE
pub const GUILD_WEBHOOKS: u16 = 1u16 << 5;
/// INVITE_CREATE, INVITE_DELETE
pub const GUILD_INVITES: u16 = 1u16 << 6;
/// VOICE_STATE_UPDATE
pub const GUILD_VOICE_STATES: u16 = 1u16 << 7;
/// PRESENCE_UPDATE
pub const GUILD_PRESENCES: u16 = 1u16 << 8;
/// MESSAGE_CREATE, MESSAGE_UPDATE, MESSAGE_DELETE, MESSAGE_DELETE_BULK
pub const GUILD_MESSAGES: u16 = 1u16 << 9;
/// MESSAGE_REACTION_ADD, MESSAGE_REACTION_REMOVE, MESSAGE_REACTION_REMOVE_ALL,
/// MESSAGE_REACTION_REMOVE_EMOJI
pub const GUILD_MESSAGE_REACTIONS: u16 = 1u16 << 10;
/// TYPING_START
pub const GUILD_MESSAGE_TYPING: u16 = 1u16 << 11;
/// CHANNEL_CREATE, MESSAGE_CREATE, MESSAGE_UPDATE, MESSAGE_DELETE, CHANNEL_PINS_UPDATE
pub const DIRECT_MESSAGES: u16 = 1u16 << 12;
/// MESSAGE_REACTION_ADD, MESSAGE_REACTION_REMOVE, MESSAGE_REACTION_REMOVE_ALL,
/// MESSAGE_REACTION_REMOVE_EMOJI
pub const DIRECT_MESSAGE_REACTIONS: u16 = 1u16 << 13;
/// TYPING_START
pub const DIRECT_MESSAGE_TYPING: u16 = 1u16 << 14;
/// Every defined intent.
pub const ALL_INTENTS: u16 = 0x7fff;

/// A set of gateway intents, sent as its bits.
#[derive(Debug, Clone, Copy, PartialEq, Eq, Structural)]
pub struct Intent {
    bits: u16,
}

impl Intent {
    /// The raw bits of the set.
    pub closed spec fn spec_bits(self) -> u16 {
        self.bits
    }

    /// The set holding the defined intents of `bits`; undefined bits are dropped.
    pub fn from_bits_truncate(bits: u16) -> (i: Self)
        ensures
            i.spec_bits() == bits & ALL_INTENTS,
    {
        Intent { bits: bits & ALL_INTENTS }
    }

    /// The raw bits of the set.
    pub fn bits(&self) -> (b: u16)
        ensures
            b == self.spec_bits(),
    {
        self.bits
    }
}

} // verus!
