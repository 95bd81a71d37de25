//! Wire types shared by the watch-party client and server.

use vstd::prelude::*;

use crate::text::{chars_of, dec_int, digit_val, i64_to_dec, is_digit, string_of};

verus! {

// ---------------------------------------------------------------------------
// Snowflake identifiers
// ---------------------------------------------------------------------------

/// Snowflake ID — a 64-bit unique identifier encoding timestamp + worker + sequence.
#[derive(Clone, Copy, PartialEq, Eq, Structural, Debug, Hash, PartialOrd, Ord)]
pub struct Snowflake(pub i64);

/// Why a string is not a snowflake (the kinds of `std::num::IntErrorKind`).
#[derive(Clone, Copy, PartialEq, Eq, Structural, Debug)]
pub enum ParseIdError {
    /// The string is empty.
    Empty,
    /// A character other than a leading sign or a decimal digit, or a lone sign.
    InvalidDigit,
    /// The number is larger than `i64::MAX`.
    PosOverflow,
    /// The number is smaller than `i64::MIN`.
    NegOverflow,
}

/// Outcome of reading the first `k` characters of `body` as decimal digits whose value may
/// not exceed `bound`: the value, or the first failure met going left to right
/// (`Empty` stands for "too large" here).
pub open spec fn scan_digits(body: Seq<char>, bound: nat, k: int) -> Result<nat, ParseIdError>
    decreases k,
{
    if k <= 0 {
        Ok(0)
    } else {
        match scan_digits(body, bound, k - 1) {
            Err(e) => Err(e),
            Ok(v) => if !is_digit(body[k - 1]) {
                Err(ParseIdError::InvalidDigit)
            } else if v * 10 + digit_val(body[k - 1]) > bound {
                Err(ParseIdError::Empty)
            } else {
                Ok(v * 10 + digit_val(body[k - 1]))
            },
        }
    }
}

/// What `str::parse::<i64>` gives back for `s`, as a snowflake.
pub open spec fn parse_snowflake(s: Seq<char>) -> Result<Snowflake, ParseIdError> {
    if s.len() == 0 {
        Err(ParseIdError::Empty)
    } else {
        let neg = s[0] == '-';
        let signed = s[0] == '-' || s[0] == '+';
        let body = if signed {
            s.drop_first()
        } else {
            s
        };
        let bound: nat = if neg {
            0x8000_0000_0000_0000
        } else {
            0x7fff_ffff_ffff_ffff
        };
        if body.len() == 0 {
            Err(ParseIdError::InvalidDigit)
        } else {
            match scan_digits(body, bound, body.len() as int) {
                Ok(v) => if neg {
                    Ok(Snowflake((-(v as int)) as i64))
                } else {
                    Ok(Snowflake(v as i64))
                },
                Err(ParseIdError::InvalidDigit) => Err(ParseIdError::InvalidDigit),
                Err(_) => if neg {
                    Err(ParseIdError::NegOverflow)
                } else {
                    Err(ParseIdError::PosOverflow)
                },
            }
        }
    }
}

/// `scan_digits` over digits whose whole value is within the bound gives that value.
proof fn lemma_scan_dec(body: Seq<char>, bound: nat, k: int)
    requires
        0 <= k <= body.len(),
        crate::text::all_digits(body),
        crate::text::digits_value(body) <= bound,
    ensures
        scan_digits(body, bound, k) == Ok::<nat, ParseIdError>(
            crate::text::digits_value(body.take(k)),
        ),
    decreases k,
{
    if k > 0 {
        lemma_scan_dec(body, bound, k - 1);
        assert(body.take(k).drop_last() == body.take(k - 1));
        assert(body.take(k).last() == body[k - 1]);
        lemma_prefix_value(body, k);
    } else {
        assert(body.take(0) =~= Seq::<char>::empty());
    }
}

proof fn lemma_prefix_value(s: Seq<char>, k: int)
    requires
        0 <= k <= s.len(),
    ensures
        crate::text::digits_value(s.take(k)) <= crate::text::digits_value(s),
    decreases s.len(),
{
    if k < s.len() {
        lemma_prefix_value(s.drop_last(), k);
        assert(s.drop_last().take(k) == s.take(k));
    } else {
        assert(s.take(k) == s);
    }
}

/// Reading back the decimal text of a snowflake gives the same snowflake.
pub proof fn lemma_snowflake_round_trip(id: Snowflake)
    ensures
        parse_snowflake(dec_int(id.0 as int)) == Ok::<Snowflake, ParseIdError>(id),
{
    let s = dec_int(id.0 as int);
    if id.0 < 0 {
        let m = (-(id.0 as int)) as nat;
        crate::text::lemma_dec_nat(m);
        assert(s.drop_first() == crate::text::dec_nat(m));
        lemma_scan_dec(s.drop_first(), 0x8000_0000_0000_0000, s.drop_first().len() as int);
        assert(s.drop_first().take(s.drop_first().len() as int) == s.drop_first());
    } else {
        crate::text::lemma_dec_nat(id.0 as nat);
        assert(is_digit(s[0]));
        lemma_scan_dec(s, 0x7fff_ffff_ffff_ffff, s.len() as int);
        assert(s.take(s.len() as int) == s);
    }
}

/// `scan_digits` succeeds exactly when the first `k` characters are digits whose value is
/// within the bound, and then gives that value.
proof fn lemma_scan_digits_iff(body: Seq<char>, bound: nat, k: int)
    requires
        0 <= k <= body.len(),
    ensures
        (scan_digits(body, bound, k) is Ok) == (crate::text::all_digits(body.take(k))
            && crate::text::digits_value(body.take(k)) <= bound),
        scan_digits(body, bound, k) is Ok ==> scan_digits(body, bound, k) == Ok::<nat, ParseIdError>(
            crate::text::digits_value(body.take(k)),
        ),
    decreases k,
{
    let t = body.take(k);
    if k == 0 {
        assert(t =~= Seq::<char>::empty());
    } else {
        lemma_scan_digits_iff(body, bound, k - 1);
        let p = body.take(k - 1);
        assert(t.drop_last() =~= p);
        assert(t.last() == body[k - 1]);
        assert(crate::text::digits_value(t) == crate::text::digits_value(p) * 10 + digit_val(body[k - 1]));
        assert(crate::text::all_digits(t) == (crate::text::all_digits(p) && is_digit(body[k - 1]))) by {
            if crate::text::all_digits(t) {
                assert forall|i: int| 0 <= i < p.len() implies is_digit(#[trigger] p[i]) by {
                    assert(p[i] == t[i]);
                }
                assert(is_digit(t[k - 1]));
            }
            if crate::text::all_digits(p) && is_digit(body[k - 1]) {
                assert forall|i: int| 0 <= i < t.len() implies is_digit(#[trigger] t[i]) by {
                    if i < k - 1 {
                        assert(t[i] == p[i]);
                    }
                }
            }
        }
        assert(crate::text::digits_value(p) * 10 >= crate::text::digits_value(p)) by (nonlinear_arith);
    }
}

/// Reading a snowflake is reading an `i64`: it succeeds exactly when `str::parse::<i64>`
/// does, with the same value.
pub proof fn lemma_parse_snowflake_is_parse_i64(s: Seq<char>)
    ensures
        match parse_snowflake(s) {
            Ok(id) => crate::text::parse_i64(s) == Some(id.0),
            Err(_) => crate::text::parse_i64(s) is None,
        },
{
    if s.len() > 0 {
        let neg = s[0] == '-';
        let signed = s[0] == '-' || s[0] == '+';
        let body = if signed {
            s.drop_first()
        } else {
            s
        };
        let bound: nat = if neg {
            0x8000_0000_0000_0000
        } else {
            0x7fff_ffff_ffff_ffff
        };
        if body.len() > 0 {
            lemma_scan_digits_iff(body, bound, body.len() as int);
            assert(body.take(body.len() as int) == body);
        }
    }
}

impl Snowflake {
    /// The decimal text of the identifier (its `Display`).
    pub fn to_chars(&self) -> (r: Vec<char>)
        ensures
            r@ == dec_int(self.0 as int),
    {
        i64_to_dec(self.0)
    }

    /// The decimal text of the identifier (its `Display`, and its JSON form).
    pub fn to_string(&self) -> (r: String)
        ensures
            r@ == dec_int(self.0 as int),
    {
        let v = self.to_chars();
        string_of(&v)
    }

    /// Reads a snowflake from characters, as `str::parse::<i64>` does.
    pub fn parse_chars(s: &Vec<char>) -> (r: Result<Snowflake, ParseIdError>)
        ensures
            r == parse_snowflake(s@),
    {
        if s.len() == 0 {
            return Err(ParseIdError::Empty);
        }
        let neg = s[0] == '-';
        let signed = s[0] == '-' || s[0] == '+';
        let start: usize = if signed {
            1
        } else {
            0
        };
        let ghost body = if signed {
            s@.drop_first()
        } else {
            s@
        };
        assert(body == s@.skip(start as int));
        if start >= s.len() {
            return Err(ParseIdError::InvalidDigit);
        }
        let bound: u128 = if neg {
            0x8000_0000_0000_0000
        } else {
            0x7fff_ffff_ffff_ffff
        };
        let mut acc: u128 = 0;
        let mut i: usize = start;
        while i < s.len()
            invariant
                start <= i <= s.len(),
                s@.len() > 0,
                neg == (s@[0] == '-'),
                signed == (s@[0] == '-' || s@[0] == '+'),
                body == (if signed {
                    s@.drop_first()
                } else {
                    s@
                }),
                body == s@.skip(start as int),
                bound == (if neg {
                    0x8000_0000_0000_0000u128
                } else {
                    0x7fff_ffff_ffff_ffffu128
                }),
                scan_digits(body, bound as nat, i - start) == Ok::<nat, ParseIdError>(acc as nat),
                acc <= bound,
            decreases s.len() - i,
        {
            let c = s[i];
            assert(body[i - start] == c);
            if !('0' <= c && c <= '9') {
                proof {
                    lemma_scan_sticky(body, bound as nat, i - start + 1, body.len() as int);
                }
                return Err(ParseIdError::InvalidDigit);
            }
            let d: u32 = (c as u32) - 48;
            let next: u128 = acc * 10 + (d as u128);
            if next > bound {
                proof {
                    lemma_scan_sticky(body, bound as nat, i - start + 1, body.len() as int);
                }
                if neg {
                    return Err(ParseIdError::NegOverflow);
                } else {
                    return Err(ParseIdError::PosOverflow);
                }
            }
            acc = next;
            i = i + 1;
        }
        if neg {
            let v: i128 = -(acc as i128);
            Ok(Snowflake(v as i64))
        } else {
            Ok(Snowflake(acc as i64))
        }
    }

    /// Reads a snowflake from a string, as `str::parse::<i64>` does.
    pub fn parse(s: &str) -> (r: Result<Snowflake, ParseIdError>)
        ensures
            r == parse_snowflake(s@),
    {
        let v = chars_of(s);
        Self::parse_chars(&v)
    }
}

/// Once the scan fails, it stays failed with the same error.
proof fn lemma_scan_sticky(body: Seq<char>, bound: nat, k: int, n: int)
    requires
        0 < k <= n,
        scan_digits(body, bound, k) is Err,
    ensures
        scan_digits(body, bound, n) == scan_digits(body, bound, k),
    decreases n - k,
{
    if n > k {
        lemma_scan_sticky(body, bound, k, n - 1);
    }
}

// ---------------------------------------------------------------------------
// Permission flags
// ---------------------------------------------------------------------------

/// The bits of every defined permission flag.
pub open spec fn all_bits() -> i64 {
    31
}

/// A set of permission flags: `MANAGE_PLAYBACK` (1), `SEND_MESSAGE` (2), `MANAGE_USERS` (4),
/// `SEND_STATE` (8) and `MANAGE_MEDIA` (16). Only defined bits are ever set.
#[derive(Clone, Copy, PartialEq, Eq, Structural, Debug, Hash)]
pub struct Permissions {
    bits: i64,
}

impl View for Permissions {
    type V = i64;

    closed spec fn view(&self) -> i64 {
        self.bits
    }
}

/// The bits of `MANAGE_PLAYBACK`.
pub const MANAGE_PLAYBACK_BITS: i64 = 1;

/// The bits of `SEND_MESSAGE`.
pub const SEND_MESSAGE_BITS: i64 = 2;

/// The bits of `MANAGE_USERS`.
pub const MANAGE_USERS_BITS: i64 = 4;

/// The bits of `SEND_STATE`.
pub const SEND_STATE_BITS: i64 = 8;

/// The bits of `MANAGE_MEDIA`.
pub const MANAGE_MEDIA_BITS: i64 = 16;

/// Whether a flag set's bits stay within the defined flags.
pub open spec fn defined_bits(b: i64) -> bool {
    b & 31i64 == b
}

/// Whether every flag of `b` is set in `a`.
pub open spec fn bits_contain(a: i64, b: i64) -> bool {
    a & b == b
}

impl Permissions {
    #[verifier::type_invariant]
    closed spec fn inv(self) -> bool {
        defined_bits(self.bits)
    }

    /// No flags.
    pub fn empty() -> (p: Permissions)
        ensures
            p@ == 0,
    {
        assert(0i64 & 31i64 == 0i64) by (bit_vector);
        Permissions { bits: 0 }
    }

    /// Every defined flag.
    pub fn all() -> (p: Permissions)
        ensures
            p@ == all_bits(),
    {
        assert(31i64 & 31i64 == 31i64) by (bit_vector);
        Permissions { bits: 31 }
    }

    /// The flag set of exactly `bits`, which must hold only defined flags.
    fn of_defined(bits: i64) -> (p: Permissions)
        requires
            defined_bits(bits),
        ensures
            p@ == bits,
    {
        Permissions { bits }
    }

    /// `MANAGE_PLAYBACK`: control play, pause, seek, selection and resync.
    pub fn manage_playback() -> (p: Permissions)
        ensures
            p@ == MANAGE_PLAYBACK_BITS,
    {
        assert(1i64 & 31i64 == 1i64) by (bit_vector);
        Self::of_defined(MANAGE_PLAYBACK_BITS)
    }

    /// `SEND_MESSAGE`: post chat messages.
    pub fn send_message() -> (p: Permissions)
        ensures
            p@ == SEND_MESSAGE_BITS,
    {
        assert(2i64 & 31i64 == 2i64) by (bit_vector);
        Self::of_defined(SEND_MESSAGE_BITS)
    }

    /// `MANAGE_USERS`: grant and revoke permissions.
    pub fn manage_users() -> (p: Permissions)
        ensures
            p@ == MANAGE_USERS_BITS,
    {
        assert(4i64 & 31i64 == 4i64) by (bit_vector);
        Self::of_defined(MANAGE_USERS_BITS)
    }

    /// `SEND_STATE`: report playback state for resyncs.
    pub fn send_state() -> (p: Permissions)
        ensures
            p@ == SEND_STATE_BITS,
    {
        assert(8i64 & 31i64 == 8i64) by (bit_vector);
        Self::of_defined(SEND_STATE_BITS)
    }

    /// `MANAGE_MEDIA`: upload and edit playlist entries.
    pub fn manage_media() -> (p: Permissions)
        ensures
            p@ == MANAGE_MEDIA_BITS,
    {
        assert(16i64 & 31i64 == 16i64) by (bit_vector);
        Self::of_defined(MANAGE_MEDIA_BITS)
    }

    /// The raw bits; only defined flags are ever set.
    pub fn bits(&self) -> (b: i64)
        ensures
            b == self@,
            defined_bits(b),
    {
        proof {
            use_type_invariant(self);
        }
        self.bits
    }

    /// The defined flags among `bits`; unknown bits are dropped.
    pub fn from_bits_truncate(bits: i64) -> (p: Permissions)
        ensures
            p@ == bits & 31i64,
    {
        let b = bits & 31;
        assert(b & 31i64 == b) by (bit_vector)
            requires
                b == bits & 31i64,
        ;
        Permissions { bits: b }
    }

    /// Whether every flag of `other` is set in `self`.
    pub fn contains(&self, other: Permissions) -> (r: bool)
        ensures
            r == bits_contain(self@, other@),
    {
        self.bits & other.bits == other.bits
    }

    /// Whether `self` and `other` share a flag.
    pub fn intersects(&self, other: Permissions) -> (r: bool)
        ensures
            r == (self@ & other@ != 0),
    {
        self.bits & other.bits != 0
    }

    /// The flags of either set.
    pub fn union(&self, other: Permissions) -> (p: Permissions)
        ensures
            p@ == self@ | other@,
    {
        proof {
            use_type_invariant(self);
            use_type_invariant(&other);
        }
        let a = self.bits;
        let b = other.bits;
        let u = a | b;
        assert((a & 31i64 == a && b & 31i64 == b) ==> (a | b) & 31i64 == (a | b)) by (bit_vector);
        Permissions { bits: u }
    }

    /// The flags of `self` that are not in `other`.
    pub fn difference(&self, other: Permissions) -> (p: Permissions)
        ensures
            p@ == self@ & !other@,
    {
        proof {
            use_type_invariant(self);
        }
        let a = self.bits;
        let b = other.bits;
        let d = a & !b;
        assert(a & 31i64 == a ==> (a & !b) & 31i64 == (a & !b)) by (bit_vector);
        Permissions { bits: d }
    }

    /// `self` with the flags of `other` set (`set(other, granted)` with `granted`).
    pub fn insert(&mut self, other: Permissions)
        ensures
            final(self)@ == old(self)@ | other@,
    {
        *self = self.union(other);
    }

    /// `self` with the flags of `other` cleared.
    pub fn remove(&mut self, other: Permissions)
        ensures
            final(self)@ == old(self)@ & !other@,
    {
        *self = self.difference(other);
    }

    /// `self` with the flags of `other` set when `value`, cleared otherwise.
    pub fn set(&mut self, other: Permissions, value: bool)
        ensures
            value ==> final(self)@ == old(self)@ | other@,
            !value ==> final(self)@ == old(self)@ & !other@,
    {
        if value {
            self.insert(other);
        } else {
            self.remove(other);
        }
    }

    /// The name of the first defined flag that is set, in the order the flags are
    /// declared; `None` when no flag is set.
    pub fn first_flag_name(&self) -> (r: Option<&'static str>)
        ensures
            r == first_flag_name_spec(self@),
            self@ & 1 != 0 ==> r == Some("MANAGE_PLAYBACK"),
            self@ & 1 == 0 && self@ & 2 != 0 ==> r == Some("SEND_MESSAGE"),
            self@ & 3 == 0 && self@ & 4 != 0 ==> r == Some("MANAGE_USERS"),
            self@ & 7 == 0 && self@ & 8 != 0 ==> r == Some("SEND_STATE"),
            self@ & 15 == 0 && self@ & 16 != 0 ==> r == Some("MANAGE_MEDIA"),
            self@ & 31 == 0 ==> r is None,
    {
        proof {
            lemma_low_bits(self.bits);
        }
        if self.bits & 1 != 0 {
            Some("MANAGE_PLAYBACK")
        } else if self.bits & 2 != 0 {
            Some("SEND_MESSAGE")
        } else if self.bits & 4 != 0 {
            Some("MANAGE_USERS")
        } else if self.bits & 8 != 0 {
            Some("SEND_STATE")
        } else if self.bits & 16 != 0 {
            Some("MANAGE_MEDIA")
        } else {
            None
        }
    }
}

/// The name of the first defined flag set in `b`, in declaration order.
pub open spec fn first_flag_name_spec(b: i64) -> Option<&'static str> {
    if b & 1 != 0 {
        Some("MANAGE_PLAYBACK")
    } else if b & 2 != 0 {
        Some("SEND_MESSAGE")
    } else if b & 4 != 0 {
        Some("MANAGE_USERS")
    } else if b & 8 != 0 {
        Some("SEND_STATE")
    } else if b & 16 != 0 {
        Some("MANAGE_MEDIA")
    } else {
        None
    }
}

/// A permission set is logged under its lowest defined flag, by that flag's declared
/// name; a set with no defined flag has no name. In particular each single flag is named
/// after itself.
pub proof fn lemma_flag_names(b: i64)
    ensures
        b & 1 != 0 ==> first_flag_name_spec(b) == Some("MANAGE_PLAYBACK"),
        b & 1 == 0 && b & 2 != 0 ==> first_flag_name_spec(b) == Some("SEND_MESSAGE"),
        b & 3 == 0 && b & 4 != 0 ==> first_flag_name_spec(b) == Some("MANAGE_USERS"),
        b & 7 == 0 && b & 8 != 0 ==> first_flag_name_spec(b) == Some("SEND_STATE"),
        b & 15 == 0 && b & 16 != 0 ==> first_flag_name_spec(b) == Some("MANAGE_MEDIA"),
        b & 31 == 0 ==> first_flag_name_spec(b) is None,
        first_flag_name_spec(MANAGE_PLAYBACK_BITS) == Some("MANAGE_PLAYBACK"),
        first_flag_name_spec(SEND_MESSAGE_BITS) == Some("SEND_MESSAGE"),
        first_flag_name_spec(MANAGE_USERS_BITS) == Some("MANAGE_USERS"),
        first_flag_name_spec(SEND_STATE_BITS) == Some("SEND_STATE"),
        first_flag_name_spec(MANAGE_MEDIA_BITS) == Some("MANAGE_MEDIA"),
{
    lemma_low_bits(b);
    lemma_low_bits(MANAGE_PLAYBACK_BITS);
    lemma_low_bits(SEND_MESSAGE_BITS);
    lemma_low_bits(MANAGE_USERS_BITS);
    lemma_low_bits(SEND_STATE_BITS);
    lemma_low_bits(MANAGE_MEDIA_BITS);
    assert(1i64 & 1 != 0) by (bit_vector);
    assert(2i64 & 1 == 0 && 2i64 & 2 != 0) by (bit_vector);
    assert(4i64 & 1 == 0 && 4i64 & 2 == 0 && 4i64 & 4 != 0) by (bit_vector);
    assert(8i64 & 1 == 0 && 8i64 & 2 == 0 && 8i64 & 4 == 0 && 8i64 & 8 != 0) by (bit_vector);
    assert(16i64 & 1 == 0 && 16i64 & 2 == 0 && 16i64 & 4 == 0 && 16i64 & 8 == 0 && 16i64 & 16 != 0) by (bit_vector);
}

/// A mask of the low flags is clear exactly when each of those flags is.
proof fn lemma_low_bits(b: i64)
    ensures
        (b & 3 == 0) == (b & 1 == 0 && b & 2 == 0),
        (b & 7 == 0) == (b & 1 == 0 && b & 2 == 0 && b & 4 == 0),
        (b & 15 == 0) == (b & 1 == 0 && b & 2 == 0 && b & 4 == 0 && b & 8 == 0),
        (b & 31 == 0) == (b & 1 == 0 && b & 2 == 0 && b & 4 == 0 && b & 8 == 0 && b & 16 == 0),
{
    assert((b & 3 == 0) == (b & 1 == 0 && b & 2 == 0)) by (bit_vector);
    assert((b & 7 == 0) == (b & 1 == 0 && b & 2 == 0 && b & 4 == 0)) by (bit_vector);
    assert((b & 15 == 0) == (b & 1 == 0 && b & 2 == 0 && b & 4 == 0 && b & 8 == 0)) by (bit_vector);
    assert((b & 31 == 0) == (b & 1 == 0 && b & 2 == 0 && b & 4 == 0 && b & 8 == 0 && b & 16 == 0)) by (bit_vector);
}

/// Laws of permission flag sets: a set contains itself and the empty set; a union
/// contains both of its operands; a set with `p` inserted contains `p`; a set with `p`
/// removed shares no flag with `p`; containment is transitive; and truncating bits that
/// already hold only defined flags gives them back unchanged.
pub proof fn lemma_permission_laws(a: Permissions, b: Permissions, c: Permissions)
    requires
        defined_bits(a@),
    ensures
        bits_contain(a@, a@),
        bits_contain(a@, 0),
        bits_contain(a@ | b@, a@) && bits_contain(a@ | b@, b@),
        (a@ & !b@) & b@ == 0,
        bits_contain(a@, b@) && bits_contain(b@, c@) ==> bits_contain(a@, c@),
        a@ & 31i64 == a@,
{
    let x = a@;
    let y = b@;
    let z = c@;
    assert(x & x == x) by (bit_vector);
    assert(x & 0i64 == 0i64) by (bit_vector);
    assert((x | y) & x == x && (x | y) & y == y) by (bit_vector);
    assert((x & !y) & y == 0i64) by (bit_vector);
    assert((x & y == y && y & z == z) ==> x & z == z) by (bit_vector);
}

// ---------------------------------------------------------------------------
// Readiness, chat log entries, users, playlist entries
// ---------------------------------------------------------------------------

/// Whether a user has a video.
#[derive(Clone, Copy, PartialEq, Eq, Structural, Debug)]
pub enum VideoReadiness {
    OnDevice,
    Pending,
    NotStarted,
}

/// A user's overall readiness.
#[derive(Clone, Copy, PartialEq, Eq, Structural, Debug)]
pub enum Verdict {
    Ready,
    Partial,
    NotReady,
}

/// Wire shape of a user's readiness: one state per video.
pub struct UserReadinessView {
    pub user_id: Snowflake,
    pub videos: Vec<(Snowflake, VideoReadiness)>,
    pub verdict: Verdict,
}

/// Live state of a progress widget in the chat log.
pub enum WidgetState {
    Upload {
        uploader: Snowflake,
        filename: String,
        target: Snowflake,
        bytes_done: u64,
        bytes_total: u64,
    },
    Download { reporter: Snowflake, filename: String, bytes_done: u64, bytes_total: u64 },
}

/// What a chat log entry holds.
pub enum EntryKind {
    Chat { sender: Snowflake, content: String },
    System { content: String },
    Widget { state: WidgetState, done: bool },
}

/// One chat log entry.
pub struct Entry {
    pub id: Snowflake,
    pub timestamp: i64,
    pub kind: EntryKind,
}

/// A connected user.
pub struct User {
    pub id: Snowflake,
    pub display_name: Option<String>,
    pub permissions: Permissions,
}

/// One playlist entry.
pub struct VideoEntry {
    pub id: Snowflake,
    pub display_name: String,
    pub audio_track: usize,
    pub subtitle_track: usize,
    /// Position in the ordered list, contiguous from 0.
    pub order: usize,
}

impl WidgetState {
    /// A copy of this widget state.
    pub fn duplicate(&self) -> (r: WidgetState)
        ensures
            r == *self,
    {
        match self {
            WidgetState::Upload { uploader, filename, target, bytes_done, bytes_total } => {
                WidgetState::Upload {
                    uploader: *uploader,
                    filename: filename.clone(),
                    target: *target,
                    bytes_done: *bytes_done,
                    bytes_total: *bytes_total,
                }
            },
            WidgetState::Download { reporter, filename, bytes_done, bytes_total } => {
                WidgetState::Download {
                    reporter: *reporter,
                    filename: filename.clone(),
                    bytes_done: *bytes_done,
                    bytes_total: *bytes_total,
                }
            },
        }
    }
}

impl EntryKind {
    /// A copy of this entry kind.
    pub fn duplicate(&self) -> (r: EntryKind)
        ensures
            r == *self,
    {
        match self {
            EntryKind::Chat { sender, content } => EntryKind::Chat {
                sender: *sender,
                content: content.clone(),
            },
            EntryKind::System { content } => EntryKind::System { content: content.clone() },
            EntryKind::Widget { state, done } => EntryKind::Widget {
                state: state.duplicate(),
                done: *done,
            },
        }
    }
}

impl Entry {
    /// A copy of this entry.
    pub fn duplicate(&self) -> (r: Entry)
        ensures
            r == *self,
    {
        Entry { id: self.id, timestamp: self.timestamp, kind: self.kind.duplicate() }
    }
}

// ---------------------------------------------------------------------------
// Messages
// ---------------------------------------------------------------------------

/// Messages a client sends to the server.
#[allow(inconsistent_fields)]
pub enum ClientMessage {
    Ping,
    RequestIdentity,
    RequestUsers,
    EditUserPermissions { target_user: Snowflake, permission: Permissions, granted: bool },
    RequestMessageHistory,
    SendMessage { content: String },
    StartResync,
    SendResyncReport { state_id: Snowflake, timestamp: u32 },
    DownloadProgress { widget_id: Snowflake, bytes_done: u64 },
    DownloadDone { widget_id: Snowflake },
    AssertReady { video_id: Snowflake, on_device: bool },
    AssertReadyBulk { on_device: Vec<Snowflake> },
    Heartbeat,
    ConfirmReadyForPlay { request_id: Snowflake },
    Play,
    RequestPause,
    RequestResume,
    /// A seek to an absolute position; the position in seconds is carried as the bits of
    /// a double-precision number.
    RequestSeek { timestamp_bits: u64 },
    SelectVideo { video_id: Snowflake },
    RequestPlaylist,
    SwapEntries { first: Snowflake, second: Snowflake },
    SetDisplayName { video_id: Snowflake, display_name: String },
    SetAudioTrack { video_id: Snowflake, audio_track: i32 },
    SetSubtitleTrack { video_id: Snowflake, subtitle_track: i32 },
}

/// Messages the server sends to clients.
pub enum ServerMessage {
    Pong,
    UserIdentity { id: Snowflake },
    UserList { users: Vec<User> },
    PermissionUpdate { user_id: Snowflake, permissions: Permissions },
    MessageCreated { entry: Entry },
    WidgetUpdated { entry: Entry },
    WidgetDone { entry: Entry },
    MessageHistory { history: Vec<Entry> },
    RequestResyncReport { id: Snowflake },
    CommitResync { timestamp: u32 },
    ReadinessUpdated { readiness: UserReadinessView },
    RequestReadyConfirmation { request_id: Snowflake, video_id: Snowflake, deadline_ms: u64 },
    Play { request_id: Snowflake, track_audio: u32, track_subtitles: u32 },
    PlayAborted { request_id: Snowflake, non_confirmers: Vec<Snowflake> },
    Pause,
    Resume,
    /// A seek to an absolute position; the position in seconds is carried as the bits of
    /// a double-precision number.
    Seek { timestamp_bits: u64 },
    PlaylistUpdated { playlist: Vec<VideoEntry> },
    VideoSelected { video_id: Snowflake },
    Error { message: String },
}

} // verus!

