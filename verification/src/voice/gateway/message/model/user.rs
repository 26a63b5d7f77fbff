//! Users and the flags on their accounts.
use vstd::prelude::*;
use super::id::Snowflake;

verus! {

/// No flag.
pub const NONE: u32 = 0;
/// Discord employee.
pub const DISCORD_EMPLOYEE: u32 = 1u32 << 0;
/// Discord partner.
pub const DISCORD_PARTNER: u32 = 1u32 << 1;
/// HypeSquad events.
pub const HYPESQUAD_EVENTS: u32 = 1u32 << 2;
/// Bug hunter, level 1.
pub const BUG_HUNTER_LEVEL_1: u32 = 1u32 << 3;
/// House Bravery.
pub const HOUSE_BRAVERY: u32 = 1u32 << 6;
/// House Brilliance.
pub const HOUSE_BRILLIANCE: u32 = 1u32 << 7;
/// House Balance.
pub const HOUSE_BALANCE: u32 = 1u32 << 8;
/// Early supporter.
pub const EARLY_SUPPORTER: u32 = 1u32 << 9;
/// Team user.
pub const TEAM_USER: u32 = 1u32 << 10;
/// System user.
pub const SYSTEM: u32 = 1u32 << 12;
/// Bug hunter, level 2.
pub const BUG_HUNTER_LEVEL_2: u32 = 1u32 << 14;
/// Verified bot.
pub const VERIFIED_BOT: u32 = 1u32 << 16;
/// Verified bot developer.
pub const VERIFIED_BOT_DEVELOPER: u32 = 1u32 << 17;
/// Every defined user flag.
pub const ALL_USER_FLAGS: u32 = 0x3_57cf;

/// The flags on a user's account: a set of the defined flag bits.
#[derive(Debug, Clone, Copy, PartialEq, Eq, Structural)]
pub struct UserFlags {
    bits: u32,
}

impl UserFlags {
    /// The raw bits of the set.
    pub closed spec fn spec_bits(self) -> u32 {
        self.bits
    }

    /// The set holding the defined flags of `bits`; undefined bits are dropped.
    pub fn from_bits_truncate(bits: u32) -> (f: Self)
        ensures
            f.spec_bits() == bits & ALL_USER_FLAGS,
    {
        UserFlags { bits: bits & ALL_USER_FLAGS }
    }

    /// The raw bits of the set.
    pub fn bits(&self) -> (b: u32)
        ensures
            b == self.spec_bits(),
    {
        self.bits
    }
}

/// Truncating keeps only defined flags, and truncating a truncated set changes
/// nothing.
pub proof fn lemma_user_flags_truncate(bits: u32)
    ensures
        (bits & ALL_USER_FLAGS) & ALL_USER_FLAGS == bits & ALL_USER_FLAGS,
        (bits & ALL_USER_FLAGS) & !ALL_USER_FLAGS == 0,
        bits & ALL_USER_FLAGS == bits <==> bits & !ALL_USER_FLAGS == 0,
{
    assert((bits & 0x3_57cfu32) & 0x3_57cfu32 == bits & 0x3_57cfu32) by (bit_vector);
    assert((bits & 0x3_57cfu32) & !0x3_57cfu32 == 0) by (bit_vector);
    assert(bits & 0x3_57cfu32 == bits <==> bits & !0x3_57cfu32 == 0) by (bit_vector);
}

/// The type of Nitro subscription on a user's account
#[derive(Debug, Clone, Copy, PartialEq, Eq, Structural)]
pub enum PremiumType {
    /// No subscription (`None` on the wire).
    NoSubscription,
    /// Nitro Classic.
    NitroClassic,
    /// Nitro.
    Nitro,
}

/// A Discord user.
#[derive(Debug)]
pub struct User {
    /// The user's id
    pub id: Snowflake,
    /// The user's username, not unique across the platform
    pub username: String,
    /// the user's 4-digit discord-tag
    pub discriminator: String,
    /// the user's avatar hash
    pub avatar: Option<String>,
    /// whether the user belongs to an OAuth2 application
    pub bot: bool,
    /// whether the user is an Official Discord System user (part of the urgent message system)
    pub system: bool,
    /// whether the user has two factor enabled on their account
    pub mfa_enabled: bool,
    /// the user's chosen language option
    pub locale: String,
    /// whether the email on this account has been verified
    pub verified: bool,
    /// the user's email
    pub email: Option<String>,
    /// the flags on a user's account
    pub flags: UserFlags,
    /// the type of Nitro subscription on a user's account
    pub premium_type: PremiumType,
    /// the public flags on a user's account
    pub public_flags: UserFlags,
}

} // verus!
