//! Identifiers used by the gateway, and the decimal text form of a snowflake.
use vstd::prelude::*;

verus! {

/// `c` is one of the ASCII digits `0` to `9`.
pub open spec fn is_digit(c: char) -> bool {
    '0' <= c && c <= '9'
}

/// The value of the digit `c`.
pub open spec fn digit_value(c: char) -> nat {
    (c as int - '0' as int) as nat
}

/// The digit character whose value is `d` (for `d < 10`).
pub open spec fn digit_char(d: nat) -> char {
    (d + '0' as int) as char
}

/// The decimal representation of `n`: no sign, no leading zeros, `"0"` for zero.
pub open spec fn decimal(n: nat) -> Seq<char>
    decreases n,
{
    if n < 10 {
        seq![digit_char(n)]
    } else {
        decimal(n / 10).push(digit_char(n % 10))
    }
}

/// Every character of `s` is a decimal digit.
pub open spec fn all_digits(s: Seq<char>) -> bool {
    forall|i: int| 0 <= i < s.len() ==> is_digit(#[trigger] s[i])
}

/// The number that the digits `s` spell out (most significant first).
pub open spec fn digits_value(s: Seq<char>) -> nat
    decreases s.len(),
{
    if s.len() == 0 {
        0
    } else {
        digits_value(s.drop_last()) * 10 + digit_value(s.last())
    }
}

/// The digits that `s` holds once an optional leading `+` is removed.
pub open spec fn unsigned_digits(s: Seq<char>) -> Seq<char> {
    if s.len() > 0 && s[0] == '+' {
        s.drop_first()
    } else {
        s
    }
}

/// How the standard library reads `s` as a `u64`: an optional `+`, then at least one
/// decimal digit and nothing else, the value fitting in 64 bits.
pub open spec fn parse_u64(s: Seq<char>) -> Option<u64> {
    let d = unsigned_digits(s);
    if d.len() > 0 && all_digits(d) && digits_value(d) <= u64::MAX {
        Some(digits_value(d) as u64)
    } else {
        None
    }
}

/// A Discord snowflake: a 64-bit identifier that travels as a decimal string.
#[derive(Debug, Clone, Copy, PartialEq, Eq, Structural, PartialOrd)]
pub struct Snowflake(pub u64);

/// A gateway sequence number.
#[derive(Debug, Clone, Copy, PartialEq, Eq, Structural, PartialOrd)]
pub struct SequenceID(pub u64);

/// The snowflake of a guild.
#[derive(Debug, Clone, Copy, PartialEq, Eq, Structural, PartialOrd)]
pub struct GuildID(pub Snowflake);

/// The snowflake of a channel.
#[derive(Debug, Clone, Copy, PartialEq, Eq, Structural, PartialOrd)]
pub struct ChannelID(pub Snowflake);

/// The snowflake of a user.
#[derive(Debug, Clone, Copy, PartialEq, Eq, Structural, PartialOrd)]
pub struct UserID(pub Snowflake);

/// The snowflake of a message.
#[derive(Debug, Clone, Copy, PartialEq, Eq, Structural, PartialOrd)]
pub struct MessageID(pub Snowflake);

impl Snowflake {
    /// The number this snowflake stands for.
    pub open spec fn value(self) -> u64 {
        self.0
    }

    /// The text form of the snowflake: its value in decimal.
    pub fn to_decimal(&self) -> (s: String)
        ensures
            s@ == decimal(self.value() as nat),
    {
        u64_to_decimal(self.0)
    }

    /// Reads a snowflake from its text form; text that is not a `u64` in decimal
    /// gives the snowflake `0`.
    pub fn from_decimal_or_default(s: &str) -> (r: Snowflake)
        ensures
            r.value() == match parse_u64(s@) {
                Some(v) => v,
                None => 0,
            },
    {
        match parse_decimal_u64(s) {
            Some(v) => Snowflake(v),
            None => Snowflake(0),
        }
    }
}

/// The one-character text of the digit `d`.
fn digit_str(d: u64) -> (s: &'static str)
    requires
        d < 10,
    ensures
        s@ == seq![digit_char(d as nat)],
{
    proof {
        reveal_strlit("0");
        reveal_strlit("1");
        reveal_strlit("2");
        reveal_strlit("3");
        reveal_strlit("4");
        reveal_strlit("5");
        reveal_strlit("6");
        reveal_strlit("7");
        reveal_strlit("8");
        reveal_strlit("9");
    }
    if d == 0 {
        "0"
    } else if d == 1 {
        "1"
    } else if d == 2 {
        "2"
    } else if d == 3 {
        "3"
    } else if d == 4 {
        "4"
    } else if d == 5 {
        "5"
    } else if d == 6 {
        "6"
    } else if d == 7 {
        "7"
    } else if d == 8 {
        "8"
    } else {
        "9"
    }
}

/// `n` written in decimal.
pub fn u64_to_decimal(n: u64) -> (s: String)
    ensures
        s@ == decimal(n as nat),
    decreases n,
{
    if n < 10 {
        String::from_str(digit_str(n))
    } else {
        let mut s = u64_to_decimal(n / 10);
        s.append(digit_str(n % 10));
        s
    }
}

/// Reads `s` as a `u64` the way the standard library does.
pub fn parse_decimal_u64(s: &str) -> (r: Option<u64>)
    ensures
        r == parse_u64(s@),
{
    let n = s.unicode_len();
    let mut start: usize = 0;
    if n > 0 && s.get_char(0) == '+' {
        start = 1;
    }
    let ghost d = unsigned_digits(s@);
    assert(d =~= s@.skip(start as int));
    if start == n {
        return None;
    }
    let mut value: u64 = 0;
    let mut i: usize = start;
    while i < n
        invariant
            n == s@.len(),
            start <= i <= n,
            d == s@.skip(start as int),
            d == unsigned_digits(s@),
            d.len() > 0,
            all_digits(d.take(i - start)),
            value == digits_value(d.take(i - start)),
        decreases n - i,
    {
        let c = s.get_char(i);
        assert(c == d[i - start]);
        if c < '0' || c > '9' {
            assert(!is_digit(d[i - start]));
            return None;
        }
        let digit: u64 = (c as u32 - '0' as u32) as u64;
        assert(d.take(i - start + 1).drop_last() =~= d.take(i - start));
        if value > (u64::MAX - digit) / 10 {
            proof {
                assert(digits_value(d.take(i - start + 1)) > u64::MAX) by (nonlinear_arith)
                    requires
                        value > (u64::MAX - digit) / 10,
                        digits_value(d.take(i - start + 1)) == value * 10 + digit,
                        digit < 10,
                ;
                lemma_digits_value_grows(d, (i - start + 1) as nat);
            }
            return None;
        }
        assert(value * 10 + digit <= u64::MAX) by (nonlinear_arith)
            requires
                value <= (u64::MAX - digit) / 10,
                digit < 10,
        ;
        value = value * 10 + digit;
        i = i + 1;
    }
    assert(d.take(n - start) =~= d);
    Some(value)
}

/// Reading more digits never gives a smaller number.
proof fn lemma_digits_value_grows(s: Seq<char>, k: nat)
    requires
        k <= s.len(),
    ensures
        all_digits(s) ==> digits_value(s) >= digits_value(s.take(k as int)),
    decreases s.len() - k,
{
    if k < s.len() && all_digits(s) {
        lemma_digits_value_grows(s, k + 1);
        assert(s.take(k + 1 as int).drop_last() =~= s.take(k as int));
    }
    if k == s.len() {
        assert(s.take(k as int) =~= s);
    }
}

proof fn lemma_digit_char(d: nat)
    requires
        d < 10,
    ensures
        is_digit(digit_char(d)),
        digit_value(digit_char(d)) == d,
        digit_char(d) != '+',
{
}

/// Reading the decimal text of a number gives the number back.
pub proof fn lemma_decimal_digits(n: nat)
    ensures
        decimal(n).len() > 0,
        all_digits(decimal(n)),
        digits_value(decimal(n)) == n,
        decimal(n)[0] != '+',
    decreases n,
{
    lemma_digit_char(n % 10);
    if n < 10 {
        assert(decimal(n).drop_last() =~= Seq::<char>::empty());
        assert(digits_value(decimal(n).drop_last()) == 0);
        assert(n % 10 == n);
    } else {
        vstd::arithmetic::div_mod::lemma_fundamental_div_mod(n as int, 10);
        lemma_decimal_digits(n / 10);
        let d = decimal(n);
        assert(d.drop_last() =~= decimal(n / 10));
        assert(d.last() == digit_char(n % 10));
        assert(digits_value(d) == (n / 10) * 10 + n % 10);
        assert forall|i: int| 0 <= i < d.len() implies is_digit(#[trigger] d[i]) by {
            if i < d.len() - 1 {
                assert(d[i] == decimal(n / 10)[i]);
            }
        }
    }
}

/// The text form of a snowflake reads back as the same snowflake.
pub proof fn lemma_snowflake_decimal_roundtrip(n: u64)
    ensures
        parse_u64(decimal(n as nat)) == Some(n),
{
    lemma_decimal_digits(n as nat);
    assert(unsigned_digits(decimal(n as nat)) == decimal(n as nat));
}

impl From<u64> for Snowflake {
    fn from(v: u64) -> (r: Snowflake) {
        Snowflake(v)
    }
}

impl vstd::std_specs::convert::FromSpecImpl<u64> for Snowflake {
    open spec fn obeys_from_spec() -> bool {
        true
    }

    open spec fn from_spec(v: u64) -> Snowflake {
        Snowflake(v)
    }
}

impl From<Snowflake> for u64 {
    fn from(v: Snowflake) -> (r: u64) {
        v.0
    }
}

impl vstd::std_specs::convert::FromSpecImpl<Snowflake> for u64 {
    open spec fn obeys_from_spec() -> bool {
        true
    }

    open spec fn from_spec(v: Snowflake) -> u64 {
        v.0
    }
}

impl SequenceID {
    /// The sequence number.
    pub open spec fn value(self) -> u64 {
        self.0
    }
}

impl From<u64> for SequenceID {
    fn from(v: u64) -> (r: SequenceID) {
        SequenceID(v)
    }
}

impl vstd::std_specs::convert::FromSpecImpl<u64> for SequenceID {
    open spec fn obeys_from_spec() -> bool {
        true
    }

    open spec fn from_spec(v: u64) -> SequenceID {
        SequenceID(v)
    }
}

impl From<SequenceID> for u64 {
    fn from(v: SequenceID) -> (r: u64) {
        v.0
    }
}

impl vstd::std_specs::convert::FromSpecImpl<SequenceID> for u64 {
    open spec fn obeys_from_spec() -> bool {
        true
    }

    open spec fn from_spec(v: SequenceID) -> u64 {
        v.0
    }
}

impl GuildID {
    /// The guild's snowflake.
    pub open spec fn snowflake(self) -> Snowflake {
        self.0
    }
}

impl From<Snowflake> for GuildID {
    fn from(v: Snowflake) -> (r: GuildID) {
        GuildID(v)
    }
}

impl vstd::std_specs::convert::FromSpecImpl<Snowflake> for GuildID {
    open spec fn obeys_from_spec() -> bool {
        true
    }

    open spec fn from_spec(v: Snowflake) -> GuildID {
        GuildID(v)
    }
}

impl From<GuildID> for Snowflake {
    fn from(v: GuildID) -> (r: Snowflake) {
        v.0
    }
}

impl vstd::std_specs::convert::FromSpecImpl<GuildID> for Snowflake {
    open spec fn obeys_from_spec() -> bool {
        true
    }

    open spec fn from_spec(v: GuildID) -> Snowflake {
        v.0
    }
}

impl ChannelID {
    /// The channel's snowflake.
    pub open spec fn snowflake(self) -> Snowflake {
        self.0
    }
}

impl From<Snowflake> for ChannelID {
    fn from(v: Snowflake) -> (r: ChannelID) {
        ChannelID(v)
    }
}

impl vstd::std_specs::convert::FromSpecImpl<Snowflake> for ChannelID {
    open spec fn obeys_from_spec() -> bool {
        true
    }

    open spec fn from_spec(v: Snowflake) -> ChannelID {
        ChannelID(v)
    }
}

impl From<ChannelID> for Snowflake {
    fn from(v: ChannelID) -> (r: Snowflake) {
        v.0
    }
}

impl vstd::std_specs::convert::FromSpecImpl<ChannelID> for Snowflake {
    open spec fn obeys_from_spec() -> bool {
        true
    }

    open spec fn from_spec(v: ChannelID) -> Snowflake {
        v.0
    }
}

impl UserID {
    /// The user's snowflake.
    pub open spec fn snowflake(self) -> Snowflake {
        self.0
    }
}

impl From<Snowflake> for UserID {
    fn from(v: Snowflake) -> (r: UserID) {
        UserID(v)
    }
}

impl vstd::std_specs::convert::FromSpecImpl<Snowflake> for UserID {
    open spec fn obeys_from_spec() -> bool {
        true
    }

    open spec fn from_spec(v: Snowflake) -> UserID {
        UserID(v)
    }
}

impl From<UserID> for Snowflake {
    fn from(v: UserID) -> (r: Snowflake) {
        v.0
    }
}

impl vstd::std_specs::convert::FromSpecImpl<UserID> for Snowflake {
    open spec fn obeys_from_spec() -> bool {
        true
    }

    open spec fn from_spec(v: UserID) -> Snowflake {
        v.0
    }
}

impl MessageID {
    /// The message's snowflake.
    pub open spec fn snowflake(self) -> Snowflake {
        self.0
    }
}

impl From<Snowflake> for MessageID {
    fn from(v: Snowflake) -> (r: MessageID) {
        MessageID(v)
    }
}

impl vstd::std_specs::convert::FromSpecImpl<Snowflake> for MessageID {
    open spec fn obeys_from_spec() -> bool {
        true
    }

    open spec fn from_spec(v: Snowflake) -> MessageID {
        MessageID(v)
    }
}

impl From<MessageID> for Snowflake {
    fn from(v: MessageID) -> (r: Snowflake) {
        v.0
    }
}

impl vstd::std_specs::convert::FromSpecImpl<MessageID> for Snowflake {
    open spec fn obeys_from_spec() -> bool {
        true
    }

    open spec fn from_spec(v: MessageID) -> Snowflake {
        v.0
    }
}

} // verus!
