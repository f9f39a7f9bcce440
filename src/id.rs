//! Steam IDs: a 64-bit number packing a universe, an account type, an
//! instance and an account number.

use vstd::prelude::*;
use crate::enums::{EAccountType, EUniverse};
use crate::order::{is_digit, digits_value};
use crate::tokens::find_char;
use crate::text::chars_of;

verus! {

/// Why a number is not a valid Steam ID.
#[derive(Debug)]
pub enum IdError {
    InvalidUniverse(i32),
    InvalidInstance(u32),
    InvalidAccountType(i32),
    /// The text is not a Steam2 or Steam3 ID.
    InvalidFormat,
}

/// Which client instance an ID refers to.
#[derive(Debug, Eq, PartialEq, Structural, Clone, Copy)]
pub enum Instance {
    All,
    Desktop,
    Console,
    Web,
}

impl Default for Instance {
    fn default() -> (r: Self)
        ensures
            r == Instance::All,
    {
        Instance::All
    }
}

/// The number of an instance.
pub open spec fn instance_number(i: Instance) -> u32 {
    match i {
        Instance::All => 0,
        Instance::Desktop => 1,
        Instance::Console => 2,
        Instance::Web => 3,
    }
}

impl Instance {
    /// The instance with this number.
    pub fn from_u32(value: u32) -> (r: Result<Instance, IdError>)
        ensures
            match r {
                Ok(i) => value <= 3 && instance_number(i) == value,
                Err(e) => value > 3 && e == IdError::InvalidInstance(value),
            },
            r == instance_from(value),
    {
        match value {
            0 => Ok(Instance::All),
            1 => Ok(Instance::Desktop),
            2 => Ok(Instance::Console),
            3 => Ok(Instance::Web),
            _ => Err(IdError::InvalidInstance(value)),
        }
    }
}

/// The instance with a number, or the error for it.
pub open spec fn instance_from(value: u32) -> Result<Instance, IdError> {
    if value == 0 {
        Ok(Instance::All)
    } else if value == 1 {
        Ok(Instance::Desktop)
    } else if value == 2 {
        Ok(Instance::Console)
    } else if value == 3 {
        Ok(Instance::Web)
    } else {
        Err(IdError::InvalidInstance(value))
    }
}

impl vstd::std_specs::convert::TryFromSpecImpl<u32> for Instance {
    open spec fn obeys_try_from_spec() -> bool {
        true
    }

    open spec fn try_from_spec(v: u32) -> Result<Instance, IdError> {
        instance_from(v)
    }
}

impl TryFrom<u32> for Instance {
    type Error = IdError;

    fn try_from(value: u32) -> Result<Self, Self::Error> {
        Instance::from_u32(value)
    }
}

/// The account number: the low 32 bits.
pub open spec fn account_bits(v: u64) -> int {
    v as int % 0x1_0000_0000
}

/// The instance: bits 32 to 51.
pub open spec fn instance_bits(v: u64) -> int {
    (v as int / 0x1_0000_0000) % 0x10_0000
}

/// The account type: bits 52 to 55.
pub open spec fn type_bits(v: u64) -> int {
    (v as int / 0x10_0000_0000_0000) % 16
}

/// The universe: bits 56 to 63.
pub open spec fn universe_bits(v: u64) -> int {
    v as int / 0x100_0000_0000_0000
}

/// A universe that has a name: invalid, public, beta, internal or dev.
pub open spec fn known_universe(u: int) -> bool {
    0 <= u <= 4
}

/// An account type that has a name, from invalid to anonymous user.
pub open spec fn known_account_type(t: int) -> bool {
    0 <= t <= 10
}

/// Whether a number is a valid Steam ID.
pub open spec fn valid_id(v: u64) -> bool {
    instance_bits(v) <= 3 && known_account_type(type_bits(v)) && known_universe(universe_bits(v))
}

/// A valid Steam ID.
pub struct Id(u64);

impl View for Id {
    type V = u64;

    closed spec fn view(&self) -> u64 {
        self.0
    }
}

proof fn lemma_fields(v: u64)
    ensures
        (v & 0xFFFF_FFFF) as int == account_bits(v),
        ((v >> 32) & 0x000F_FFFF) as int == instance_bits(v),
        ((v >> 52) & 0xF) as int == type_bits(v),
        (v >> 56) as int == universe_bits(v),
        universe_bits(v) < 256,
{
    assert((v & 0xFFFF_FFFF) == v % 0x1_0000_0000) by (bit_vector);
    assert(((v >> 32) & 0x000F_FFFF) == (v / 0x1_0000_0000) % 0x10_0000) by (bit_vector);
    assert(((v >> 52) & 0xF) == (v / 0x10_0000_0000_0000) % 16) by (bit_vector);
    assert((v >> 56) == v / 0x100_0000_0000_0000) by (bit_vector);
    assert(v / 0x100_0000_0000_0000 < 256) by (bit_vector);
}

impl Id {
    #[verifier::type_invariant]
    spec fn inv(&self) -> bool {
        valid_id(self.0)
    }

    /// The ID with this number, if it is valid.
    pub fn from_u64(value: u64) -> (r: Result<Id, IdError>)
        ensures
            match r {
                Ok(id) => valid_id(value) && id@ == value,
                Err(IdError::InvalidInstance(i)) => !(instance_bits(value) <= 3) && i
                    == instance_bits(value),
                Err(IdError::InvalidAccountType(t)) => instance_bits(value) <= 3
                    && !known_account_type(type_bits(value)) && t == type_bits(value),
                Err(IdError::InvalidUniverse(u)) => instance_bits(value) <= 3 && known_account_type(
                    type_bits(value),
                ) && !known_universe(universe_bits(value)) && u == universe_bits(value),
                Err(IdError::InvalidFormat) => false,
            },
            r == id_from(value),
    {
        proof {
            lemma_fields(value);
        }
        let instance = ((value >> 32) & 0x000F_FFFF) as u32;
        if let Err(e) = Instance::from_u32(instance) {
            return Err(e);
        }
        let account_type = ((value >> 52) & 0xF) as i32;
        if !(0 <= account_type && account_type <= 10) {
            return Err(IdError::InvalidAccountType(account_type));
        }
        let universe = (value >> 56) as i32;
        if !(0 <= universe && universe <= 4) {
            return Err(IdError::InvalidUniverse(universe));
        }
        Ok(Id(value))
    }

    /// The client instance.
    pub fn instance(&self) -> (r: Instance)
        ensures
            instance_number(r) == instance_bits(self@),
    {
        proof {
            use_type_invariant(self);
            lemma_fields(self.0);
        }
        let value = ((self.0 >> 32) & 0x000F_FFFF) as u32;
        match value {
            0 => Instance::All,
            1 => Instance::Desktop,
            2 => Instance::Console,
            _ => Instance::Web,
        }
    }

    /// The universe.
    pub fn universe(&self) -> (r: EUniverse)
        ensures
            r.0 == universe_bits(self@),
    {
        proof {
            lemma_fields(self.0);
        }
        EUniverse((self.0 >> 56) as i32)
    }

    /// The account type.
    pub fn account_type(&self) -> (r: EAccountType)
        ensures
            r.0 == type_bits(self@),
    {
        proof {
            lemma_fields(self.0);
        }
        EAccountType(((self.0 >> 52) & 0xF) as i32)
    }

    /// The account number.
    pub fn account_id(&self) -> (r: u32)
        ensures
            r == account_bits(self@),
    {
        proof {
            lemma_fields(self.0);
        }
        (self.0 & 0xFFFF_FFFF) as u32
    }
}

/// The ID with a number, or the error for it.
pub closed spec fn id_from(value: u64) -> Result<Id, IdError> {
    if instance_bits(value) > 3 {
        Err(IdError::InvalidInstance(instance_bits(value) as u32))
    } else if !known_account_type(type_bits(value)) {
        Err(IdError::InvalidAccountType(type_bits(value) as i32))
    } else if !known_universe(universe_bits(value)) {
        Err(IdError::InvalidUniverse(universe_bits(value) as i32))
    } else {
        Ok(Id(value))
    }
}

impl vstd::std_specs::convert::TryFromSpecImpl<u64> for Id {
    open spec fn obeys_try_from_spec() -> bool {
        true
    }

    open spec fn try_from_spec(v: u64) -> Result<Id, IdError> {
        id_from(v)
    }
}

impl TryFrom<u64> for Id {
    type Error = IdError;

    fn try_from(value: u64) -> Result<Self, Self::Error> {
        Id::from_u64(value)
    }
}

// ---------------------------------------------------------------------------
// Text forms: Steam2 `STEAM_X:Y:Z` and Steam3 `[C:U:A]` or `[C:U:A:I]`
// ---------------------------------------------------------------------------

/// The number packing these parts.
pub open spec fn id_value(u: u64, t: u64, i: u64, a: u64) -> u64 {
    (u << 56u64) | (t << 52u64) | (i << 32u64) | a
}

/// The decimal number in `s[a..b]`, if it holds only digits.
pub open spec fn field(s: Seq<char>, a: int, b: int) -> Option<int> {
    let f = s.subrange(a, b);
    if 0 <= a < b <= s.len() && forall|k: int| 0 <= k < f.len() ==> is_digit(#[trigger] f[k]) {
        Some(digits_value(f))
    } else {
        None
    }
}

/// The account type that a Steam3 letter stands for.
pub open spec fn letter_type(c: char) -> Option<int> {
    if c == 'I' {
        Some(0)
    } else if c == 'U' {
        Some(1)
    } else if c == 'M' {
        Some(2)
    } else if c == 'G' {
        Some(3)
    } else if c == 'A' {
        Some(4)
    } else if c == 'P' {
        Some(5)
    } else if c == 'C' {
        Some(6)
    } else if c == 'g' {
        Some(7)
    } else if c == 'T' {
        Some(8)
    } else if c == 'a' {
        Some(10)
    } else {
        None
    }
}

pub open spec fn steam2_prefix() -> Seq<char> {
    seq!['S', 'T', 'E', 'A', 'M', '_']
}

/// The ID that a Steam2 text names: universe `X` (0 meaning public), an
/// individual account on the desktop, account number `2 * Z + Y`.
pub open spec fn steam2_value(s: Seq<char>) -> Option<u64> {
    let c1 = find_char(s, 6, ':');
    let c2 = find_char(s, c1 + 1, ':');
    if s.len() > 6 && s.subrange(0, 6) == steam2_prefix() && c1 < s.len() && c2 < s.len() {
        match (field(s, 6, c1), field(s, c1 + 1, c2), field(s, c2 + 1, s.len() as int)) {
            (Some(x), Some(y), Some(z)) => {
                let u = if x == 0 {
                    1
                } else {
                    x
                };
                if y <= 1 && u <= 4 && z * 2 + y <= u32::MAX {
                    Some(id_value(u as u64, 1, 1, (z * 2 + y) as u64))
                } else {
                    None
                }
            },
            _ => None,
        }
    } else {
        None
    }
}

/// The ID that a Steam3 text names: type letter `C`, universe `U`, account
/// number `A`, and instance `I`, which defaults to the desktop for an
/// individual and to 0 otherwise.
pub open spec fn steam3_value(s: Seq<char>) -> Option<u64> {
    let n = s.len() as int;
    let c2 = find_char(s, 3, ':');
    let c3 = find_char(s, c2 + 1, ':');
    if n >= 7 && s[0] == '[' && s[n - 1] == ']' && s[2] == ':' && letter_type(s[1]) is Some
        && c2 < n - 1 {
        let t = letter_type(s[1])->Some_0;
        let (account, instance) = if c3 < n - 1 {
            (field(s, c2 + 1, c3), field(s, c3 + 1, n - 1))
        } else {
            (
                field(s, c2 + 1, n - 1),
                Some(
                    if t == 1 {
                        1int
                    } else {
                        0int
                    },
                ),
            )
        };
        match (field(s, 3, c2), account, instance) {
            (Some(u), Some(a), Some(i)) => if u <= 4 && a <= u32::MAX && i <= 3 {
                Some(id_value(u as u64, t as u64, i as u64, a as u64))
            } else {
                None
            },
            _ => None,
        }
    } else {
        None
    }
}

proof fn lemma_id_value(u: u64, t: u64, i: u64, a: u64)
    requires
        u <= 4,
        t <= 10,
        i <= 3,
        a <= 0xFFFF_FFFF,
    ensures
        valid_id(id_value(u, t, i, a)),
        universe_bits(id_value(u, t, i, a)) == u,
        type_bits(id_value(u, t, i, a)) == t,
        instance_bits(id_value(u, t, i, a)) == i,
        account_bits(id_value(u, t, i, a)) == a,
{
    let v = id_value(u, t, i, a);
    lemma_fields(v);
    assert(((((u << 56u64) | (t << 52u64) | (i << 32u64) | a) >> 56u64) == u)) by (bit_vector)
        requires
            u <= 4,
            t <= 10,
            i <= 3,
            a <= 0xFFFF_FFFF,
    ;
    assert(((((u << 56u64) | (t << 52u64) | (i << 32u64) | a) >> 52u64) & 0xF) == t) by (bit_vector)
        requires
            u <= 4,
            t <= 10,
            i <= 3,
            a <= 0xFFFF_FFFF,
    ;
    assert(((((u << 56u64) | (t << 52u64) | (i << 32u64) | a) >> 32u64) & 0xFFFFF) == i)
        by (bit_vector)
        requires
            u <= 4,
            t <= 10,
            i <= 3,
            a <= 0xFFFF_FFFF,
    ;
    assert((((u << 56u64) | (t << 52u64) | (i << 32u64) | a) & 0xFFFF_FFFF) == a) by (bit_vector)
        requires
            u <= 4,
            t <= 10,
            i <= 3,
            a <= 0xFFFF_FFFF,
    ;
}

/// The first `:` at or after `i`, or the end.
fn find_colon(s: &Vec<char>, i: usize) -> (r: usize)
    requires
        i <= s@.len(),
    ensures
        r == find_char(s@, i as int, ':'),
        i <= r <= s@.len(),
{
    let mut k = i;
    while k < s.len() && s[k] != ':'
        invariant
            i <= k <= s@.len(),
            find_char(s@, k as int, ':') == find_char(s@, i as int, ':'),
        decreases s@.len() - k,
    {
        k = k + 1;
    }
    k
}

/// The number in `s[a..b]`, when it holds only digits and is at most
/// `u32::MAX`.
fn parse_field(s: &Vec<char>, a: usize, b: usize) -> (r: Option<u64>)
    requires
        a <= b <= s@.len(),
    ensures
        match r {
            Some(v) => field(s@, a as int, b as int) == Some(v as int) && v <= u32::MAX,
            None => !(field(s@, a as int, b as int) matches Some(v) && v <= u32::MAX),
        },
{
    if a == b {
        return None;
    }
    let ghost f = s@.subrange(a as int, b as int);
    let mut acc: u64 = 0;
    let mut j = a;
    while j < b
        invariant
            a <= j <= b <= s@.len(),
            f == s@.subrange(a as int, b as int),
            forall|k: int| 0 <= k < j - a ==> is_digit(#[trigger] f[k]),
            acc == digits_value(f.subrange(0, j - a)),
            acc <= u32::MAX,
        decreases b - j,
    {
        let c = s[j];
        proof {
            assert(f[j - a] == c);
        }
        if !('0' <= c && c <= '9') {
            return None;
        }
        proof {
            assert(f.subrange(0, j - a + 1).drop_last() =~= f.subrange(0, j - a));
        }
        acc = acc * 10 + (c as u64 - '0' as u64);
        if acc > 0xFFFF_FFFF {
            proof {
                let g = f.subrange(0, j - a + 1);
                assert(acc == digits_value(g));
                if forall|k: int| 0 <= k < f.len() ==> is_digit(#[trigger] f[k]) {
                    crate::order::lemma_digits_grow(f, j - a + 1);
                }
            }
            return None;
        }
        j = j + 1;
    }
    proof {
        assert(f.subrange(0, j - a) =~= f);
    }
    Some(acc)
}

fn steam2(s: &Vec<char>) -> (r: Option<u64>)
    ensures
        r == steam2_value(s@),
        r matches Some(v) ==> valid_id(v),
{
    let n = s.len();
    if !(n > 6 && s[0] == 'S' && s[1] == 'T' && s[2] == 'E' && s[3] == 'A' && s[4] == 'M' && s[5]
        == '_') {
        proof {
            if n > 6 {
                assert(!(s@.subrange(0, 6) =~= steam2_prefix())) by {
                    assert(s@.subrange(0, 6)[0] == s@[0]);
                    assert(s@.subrange(0, 6)[1] == s@[1]);
                    assert(s@.subrange(0, 6)[2] == s@[2]);
                    assert(s@.subrange(0, 6)[3] == s@[3]);
                    assert(s@.subrange(0, 6)[4] == s@[4]);
                    assert(s@.subrange(0, 6)[5] == s@[5]);
                }
            }
        }
        return None;
    }
    proof {
        assert(s@.subrange(0, 6) =~= steam2_prefix());
    }
    let c1 = find_colon(s, 6);
    if c1 >= n {
        return None;
    }
    let c2 = find_colon(s, c1 + 1);
    if c2 >= n {
        return None;
    }
    let x = match parse_field(s, 6, c1) {
        Some(v) => v,
        None => return None,
    };
    let y = match parse_field(s, c1 + 1, c2) {
        Some(v) => v,
        None => return None,
    };
    let z = match parse_field(s, c2 + 1, n) {
        Some(v) => v,
        None => return None,
    };
    let u = if x == 0 {
        1
    } else {
        x
    };
    if !(y <= 1 && u <= 4 && z * 2 + y <= 0xFFFF_FFFF) {
        return None;
    }
    proof {
        lemma_id_value(u, 1, 1, (z * 2 + y) as u64);
    }
    Some((u << 56u64) | (1u64 << 52u64) | (1u64 << 32u64) | (z * 2 + y))
}

fn letter(c: char) -> (r: Option<u64>)
    ensures
        match r {
            Some(t) => letter_type(c) == Some(t as int),
            None => letter_type(c) is None,
        },
{
    if c == 'I' {
        Some(0)
    } else if c == 'U' {
        Some(1)
    } else if c == 'M' {
        Some(2)
    } else if c == 'G' {
        Some(3)
    } else if c == 'A' {
        Some(4)
    } else if c == 'P' {
        Some(5)
    } else if c == 'C' {
        Some(6)
    } else if c == 'g' {
        Some(7)
    } else if c == 'T' {
        Some(8)
    } else if c == 'a' {
        Some(10)
    } else {
        None
    }
}

fn steam3(s: &Vec<char>) -> (r: Option<u64>)
    ensures
        r == steam3_value(s@),
        r matches Some(v) ==> valid_id(v),
{
    let n = s.len();
    if !(n >= 7 && s[0] == '[' && s[n - 1] == ']' && s[2] == ':') {
        return None;
    }
    let t = match letter(s[1]) {
        Some(t) => t,
        None => return None,
    };
    let c2 = find_colon(s, 3);
    if c2 >= n - 1 {
        return None;
    }
    let c3 = find_colon(s, c2 + 1);
    let (account, instance) = if c3 < n - 1 {
        (parse_field(s, c2 + 1, c3), parse_field(s, c3 + 1, n - 1))
    } else {
        (parse_field(s, c2 + 1, n - 1), Some(if t == 1 { 1u64 } else { 0u64 }))
    };
    let u = match parse_field(s, 3, c2) {
        Some(v) => v,
        None => return None,
    };
    let a = match account {
        Some(v) => v,
        None => return None,
    };
    let i = match instance {
        Some(v) => v,
        None => return None,
    };
    if !(u <= 4 && i <= 3) {
        return None;
    }
    proof {
        lemma_id_value(u, t, i, a);
    }
    Some((u << 56u64) | (t << 52u64) | (i << 32u64) | a)
}

impl Id {
    /// The ID that a Steam2 (`STEAM_0:0:23071901`) or Steam3
    /// (`[U:1:46143802]`) text names.
    pub fn parse_str(text: &str) -> (r: Result<Id, IdError>)
        ensures
            match (steam2_value(text@), steam3_value(text@)) {
                (Some(v), _) => r matches Ok(id) && id@ == v,
                (None, Some(v)) => r matches Ok(id) && id@ == v,
                (None, None) => r matches Err(IdError::InvalidFormat),
            },
    {
        let s = chars_of(text);
        let v = match steam2(&s) {
            Some(v) => v,
            None => match steam3(&s) {
                Some(v) => v,
                None => return Err(IdError::InvalidFormat),
            },
        };
        Ok(Id(v))
    }
}

impl std::str::FromStr for Id {
    type Err = IdError;

    fn from_str(s: &str) -> Result<Self, Self::Err> {
        Id::parse_str(s)
    }
}

} // verus!
