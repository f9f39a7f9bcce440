//! Result codes of Steam operations.

use vstd::prelude::*;

verus! {

#[derive(Debug, Clone, Copy, PartialEq, Eq, Structural, PartialOrd, Ord, Hash)]
pub struct EResult(pub i32);

impl EResult {
    pub const INVALID: i32 = 0;
    pub const OK: i32 = 1;
    pub const FAIL: i32 = 2;
    pub const NO_CONNECTION: i32 = 3;
    pub const INVALID_PASSWORD: i32 = 5;
    pub const LOGGED_IN_ELSEWHERE: i32 = 6;
    pub const INVALID_PROTOCOL_VER: i32 = 7;
    pub const INVALID_PARAM: i32 = 8;
    pub const FILE_NOT_FOUND: i32 = 9;
    pub const BUSY: i32 = 10;
    pub const INVALID_STATE: i32 = 11;
    pub const INVALID_NAME: i32 = 12;
    pub const INVALID_EMAIL: i32 = 13;
    pub const DUPLICATE_NAME: i32 = 14;
    pub const ACCESS_DENIED: i32 = 15;
    pub const TIMEOUT: i32 = 16;
    pub const BANNED: i32 = 17;
    pub const ACCOUNT_NOT_FOUND: i32 = 18;
    pub const INVALID_STEAM_ID: i32 = 19;
    pub const SERVICE_UNAVAILABLE: i32 = 20;
    pub const NOT_LOGGED_ON: i32 = 21;
    pub const PENDING: i32 = 22;
    pub const ENCRYPTION_FAILURE: i32 = 23;
    pub const INSUFFICIENT_PRIVILEGE: i32 = 24;
    pub const LIMIT_EXCEEDED: i32 = 25;
    pub const REVOKED: i32 = 26;
    pub const EXPIRED: i32 = 27;
    pub const ALREADY_REDEEMED: i32 = 28;
    pub const DUPLICATE_REQUEST: i32 = 29;
    pub const ALREADY_OWNED: i32 = 30;
    pub const IP_NOT_FOUND: i32 = 31;
    pub const PERSIST_FAILED: i32 = 32;
    pub const LOCKING_FAILED: i32 = 33;
    pub const LOGON_SESSION_REPLACED: i32 = 34;
    pub const CONNECT_FAILED: i32 = 35;
    pub const HANDSHAKE_FAILED: i32 = 36;
    pub const IO_FAILURE: i32 = 37;
    pub const REMOTE_DISCONNECT: i32 = 38;
    pub const SHOPPING_CART_NOT_FOUND: i32 = 39;
    pub const BLOCKED: i32 = 40;
    pub const IGNORED: i32 = 41;
    pub const NO_MATCH: i32 = 42;
    pub const ACCOUNT_DISABLED: i32 = 43;
    pub const SERVICE_READ_ONLY: i32 = 44;
    pub const ACCOUNT_NOT_FEATURED: i32 = 45;
    pub const ADMINISTRATOR_OK: i32 = 46;
    pub const CONTENT_VERSION: i32 = 47;
    pub const TRY_ANOTHER_CM: i32 = 48;
    pub const PASSWORD_REQUIRED_TO_KICK_SESSION: i32 = 49;
    pub const ALREADY_LOGGED_IN_ELSEWHERE: i32 = 50;
    pub const SUSPENDED: i32 = 51;
    pub const CANCELLED: i32 = 52;
    pub const DATA_CORRUPTION: i32 = 53;
    pub const DISK_FULL: i32 = 54;
    pub const REMOTE_CALL_FAILED: i32 = 55;
    pub const PASSWORD_UNSET: i32 = 56;
    pub const EXTERNAL_ACCOUNT_UNLINKED: i32 = 57;
    pub const PSN_TICKET_INVALID: i32 = 58;
    pub const EXTERNAL_ACCOUNT_ALREADY_LINKED: i32 = 59;
    pub const REMOTE_FILE_CONFLICT: i32 = 60;
    pub const ILLEGAL_PASSWORD: i32 = 61;
    pub const SAME_AS_PREVIOUS_VALUE: i32 = 62;
    pub const ACCOUNT_LOGON_DENIED: i32 = 63;
    pub const CANNOT_USE_OLD_PASSWORD: i32 = 64;
    pub const INVALID_LOGIN_AUTH_CODE: i32 = 65;
    pub const ACCOUNT_LOGON_DENIED_NO_MAIL: i32 = 66;
    pub const HARDWARE_NOT_CAPABLE_OF_IPT: i32 = 67;
    pub const IPT_INIT_ERROR: i32 = 68;
    pub const PARENTAL_CONTROL_RESTRICTED: i32 = 69;
    pub const FACEBOOK_QUERY_ERROR: i32 = 70;
    pub const EXPIRED_LOGIN_AUTH_CODE: i32 = 71;
    pub const IP_LOGIN_RESTRICTION_FAILED: i32 = 72;
    pub const ACCOUNT_LOCKED_DOWN: i32 = 73;
    pub const ACCOUNT_LOGON_DENIED_VERIFIED_EMAIL_REQUIRED: i32 = 74;
    pub const NO_MATCHING_URL: i32 = 75;
    pub const BAD_RESPONSE: i32 = 76;
    pub const REQUIRE_PASSWORD_RE_ENTRY: i32 = 77;
    pub const VALUE_OUT_OF_RANGE: i32 = 78;
    pub const UNEXPECTED_ERROR: i32 = 79;
    pub const DISABLED: i32 = 80;
    pub const INVALID_CEG_SUBMISSION: i32 = 81;
    pub const RESTRICTED_DEVICE: i32 = 82;
    pub const REGION_LOCKED: i32 = 83;
    pub const RATE_LIMIT_EXCEEDED: i32 = 84;
    pub const ACCOUNT_LOGIN_DENIED_NEED_TWO_FACTOR: i32 = 85;
    pub const ITEM_DELETED: i32 = 86;
    pub const ACCOUNT_LOGIN_DENIED_THROTTLE: i32 = 87;
    pub const TWO_FACTOR_CODE_MISMATCH: i32 = 88;
    pub const TWO_FACTOR_ACTIVATION_CODE_MISMATCH: i32 = 89;
    pub const ACCOUNT_ASSOCIATED_TO_MULTIPLE_PARTNERS: i32 = 90;
    pub const NOT_MODIFIED: i32 = 91;
    pub const NO_MOBILE_DEVICE: i32 = 92;
    pub const TIME_NOT_SYNCED: i32 = 93;
    pub const SMS_CODE_FAILED: i32 = 94;
    pub const ACCOUNT_LIMIT_EXCEEDED: i32 = 95;
    pub const ACCOUNT_ACTIVITY_LIMIT_EXCEEDED: i32 = 96;
    pub const PHONE_ACTIVITY_LIMIT_EXCEEDED: i32 = 97;
    pub const REFUND_TO_WALLET: i32 = 98;
    pub const EMAIL_SEND_FAILURE: i32 = 99;
    pub const NOT_SETTLED: i32 = 100;
    pub const NEED_CAPTCHA: i32 = 101;
    pub const GSLT_DENIED: i32 = 102;
    pub const GS_OWNER_DENIED: i32 = 103;
    pub const INVALID_ITEM_TYPE: i32 = 104;
    pub const IP_BANNED: i32 = 105;
    pub const GSLT_EXPIRED: i32 = 106;
    pub const INSUFFICIENT_FUNDS: i32 = 107;
    pub const TOO_MANY_PENDING: i32 = 108;
    pub const NO_SITE_LICENSES_FOUND: i32 = 109;
    pub const WG_NETWORK_SEND_EXCEEDED: i32 = 110;
    pub const ACCOUNT_NOT_FRIENDS: i32 = 111;
    pub const LIMITED_USER_ACCOUNT: i32 = 112;
    pub const CANT_REMOVE_ITEM: i32 = 113;
    pub const ACCOUNT_DELETED: i32 = 114;
    pub const EXISTING_USER_CANCELLED_LICENSE: i32 = 115;
    pub const COMMUNITY_COOLDOWN: i32 = 116;
    pub const NO_LAUNCHER_SPECIFIED: i32 = 117;
    pub const MUST_AGREE_TO_SSA: i32 = 118;
    pub const LAUNCHER_MIGRATED: i32 = 119;
    pub const STEAM_REALM_MISMATCH: i32 = 120;
    pub const INVALID_SIGNATURE: i32 = 121;
    pub const PARSE_FAILURE: i32 = 122;
    pub const NO_VERIFIED_PHONE: i32 = 123;
    pub const INSUFFICIENT_BATTERY: i32 = 124;
    pub const CHARGER_REQUIRED: i32 = 125;
    pub const CACHED_CREDENTIAL_INVALID: i32 = 126;
    pub const PHONE_NUMBER_IS_VOIP: i32 = 127;
}

impl PartialEq<i32> for EResult {
    fn eq(&self, other: &i32) -> (r: bool)
        ensures
            r == (self.0 == *other),
    {
        self.0 == *other
    }
}

impl vstd::std_specs::cmp::PartialEqSpecImpl<i32> for EResult {
    open spec fn obeys_eq_spec() -> bool {
        true
    }

    open spec fn eq_spec(&self, other: &i32) -> bool {
        self.0 == *other
    }
}

impl PartialEq<EResult> for i32 {
    fn eq(&self, other: &EResult) -> (r: bool)
        ensures
            r == (*self == other.0),
    {
        *self == other.0
    }
}

impl vstd::std_specs::cmp::PartialEqSpecImpl<EResult> for i32 {
    open spec fn obeys_eq_spec() -> bool {
        true
    }

    open spec fn eq_spec(&self, other: &EResult) -> bool {
        *self == other.0
    }
}

impl Default for EResult {
    fn default() -> (r: Self)
        ensures
            r.0 == EResult::INVALID,
    {
        Self(Self::INVALID)
    }
}

} // verus!
