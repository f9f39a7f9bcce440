//! Steam protocol enumerations: each is a number with named values.

use vstd::prelude::*;

verus! {

#[derive(Debug, Clone, Copy, PartialEq, Eq, Structural, PartialOrd, Ord, Hash)]
pub struct ELauncherType(pub i32);

impl ELauncherType {
    pub const SINGLE_APP: i32 = 8;
    pub const STEAM_CHINA: i32 = 7;
    pub const HEADLESS: i32 = 6;
    pub const CLIENT_UI: i32 = 5;
    pub const CSGO: i32 = 4;
    pub const CMD_LINE: i32 = 3;
    pub const NEXON: i32 = 2;
    pub const PERFECT_WORLD: i32 = 1;
    pub const DEFAULT: i32 = 0;
}

impl PartialEq<i32> for ELauncherType {
    fn eq(&self, other: &i32) -> (r: bool)
        ensures
            r == (self.0 == *other),
    {
        self.0 == *other
    }
}

impl vstd::std_specs::cmp::PartialEqSpecImpl<i32> for ELauncherType {
    open spec fn obeys_eq_spec() -> bool {
        true
    }

    open spec fn eq_spec(&self, other: &i32) -> bool {
        self.0 == *other
    }
}

impl PartialEq<ELauncherType> for i32 {
    fn eq(&self, other: &ELauncherType) -> (r: bool)
        ensures
            r == (*self == other.0),
    {
        *self == other.0
    }
}

impl vstd::std_specs::cmp::PartialEqSpecImpl<ELauncherType> for i32 {
    open spec fn obeys_eq_spec() -> bool {
        true
    }

    open spec fn eq_spec(&self, other: &ELauncherType) -> bool {
        *self == other.0
    }
}

#[derive(Debug, Clone, Copy, PartialEq, Eq, Structural, PartialOrd, Ord, Hash)]
pub struct ESteamRealm(pub i32);

impl ESteamRealm {
    pub const STEAM_CHINA: i32 = 2;
    pub const STEAM_GLOBAL: i32 = 1;
    pub const UNKNOWN: i32 = 0;
}

impl PartialEq<i32> for ESteamRealm {
    fn eq(&self, other: &i32) -> (r: bool)
        ensures
            r == (self.0 == *other),
    {
        self.0 == *other
    }
}

impl vstd::std_specs::cmp::PartialEqSpecImpl<i32> for ESteamRealm {
    open spec fn obeys_eq_spec() -> bool {
        true
    }

    open spec fn eq_spec(&self, other: &i32) -> bool {
        self.0 == *other
    }
}

impl PartialEq<ESteamRealm> for i32 {
    fn eq(&self, other: &ESteamRealm) -> (r: bool)
        ensures
            r == (*self == other.0),
    {
        *self == other.0
    }
}

impl vstd::std_specs::cmp::PartialEqSpecImpl<ESteamRealm> for i32 {
    open spec fn obeys_eq_spec() -> bool {
        true
    }

    open spec fn eq_spec(&self, other: &ESteamRealm) -> bool {
        *self == other.0
    }
}

#[derive(Debug, Clone, Copy, PartialEq, Eq, Structural, PartialOrd, Ord, Hash)]
pub struct ESteamIPv6ConnectivityState(pub i32);

impl ESteamIPv6ConnectivityState {
    pub const BAD: i32 = 2;
    pub const GOOD: i32 = 1;
    pub const UNKNOWN: i32 = 0;
}

impl PartialEq<i32> for ESteamIPv6ConnectivityState {
    fn eq(&self, other: &i32) -> (r: bool)
        ensures
            r == (self.0 == *other),
    {
        self.0 == *other
    }
}

impl vstd::std_specs::cmp::PartialEqSpecImpl<i32> for ESteamIPv6ConnectivityState {
    open spec fn obeys_eq_spec() -> bool {
        true
    }

    open spec fn eq_spec(&self, other: &i32) -> bool {
        self.0 == *other
    }
}

impl PartialEq<ESteamIPv6ConnectivityState> for i32 {
    fn eq(&self, other: &ESteamIPv6ConnectivityState) -> (r: bool)
        ensures
            r == (*self == other.0),
    {
        *self == other.0
    }
}

impl vstd::std_specs::cmp::PartialEqSpecImpl<ESteamIPv6ConnectivityState> for i32 {
    open spec fn obeys_eq_spec() -> bool {
        true
    }

    open spec fn eq_spec(&self, other: &ESteamIPv6ConnectivityState) -> bool {
        *self == other.0
    }
}

#[derive(Debug, Clone, Copy, PartialEq, Eq, Structural, PartialOrd, Ord, Hash)]
pub struct ESteamIPv6ConnectivityProtocol(pub i32);

impl ESteamIPv6ConnectivityProtocol {
    pub const UDP: i32 = 2;
    pub const HTTP: i32 = 1;
    pub const INVALID: i32 = 0;
}

impl PartialEq<i32> for ESteamIPv6ConnectivityProtocol {
    fn eq(&self, other: &i32) -> (r: bool)
        ensures
            r == (self.0 == *other),
    {
        self.0 == *other
    }
}

impl vstd::std_specs::cmp::PartialEqSpecImpl<i32> for ESteamIPv6ConnectivityProtocol {
    open spec fn obeys_eq_spec() -> bool {
        true
    }

    open spec fn eq_spec(&self, other: &i32) -> bool {
        self.0 == *other
    }
}

impl PartialEq<ESteamIPv6ConnectivityProtocol> for i32 {
    fn eq(&self, other: &ESteamIPv6ConnectivityProtocol) -> (r: bool)
        ensures
            r == (*self == other.0),
    {
        *self == other.0
    }
}

impl vstd::std_specs::cmp::PartialEqSpecImpl<ESteamIPv6ConnectivityProtocol> for i32 {
    open spec fn obeys_eq_spec() -> bool {
        true
    }

    open spec fn eq_spec(&self, other: &ESteamIPv6ConnectivityProtocol) -> bool {
        *self == other.0
    }
}

#[derive(Debug, Clone, Copy, PartialEq, Eq, Structural, PartialOrd, Ord, Hash)]
pub struct ELobbyDistanceFilter(pub i32);

impl ELobbyDistanceFilter {
    pub const WORLDWIDE: i32 = 3;
    pub const FAR: i32 = 2;
    pub const DEFAULT: i32 = 1;
    pub const CLOSE: i32 = 0;
}

impl PartialEq<i32> for ELobbyDistanceFilter {
    fn eq(&self, other: &i32) -> (r: bool)
        ensures
            r == (self.0 == *other),
    {
        self.0 == *other
    }
}

impl vstd::std_specs::cmp::PartialEqSpecImpl<i32> for ELobbyDistanceFilter {
    open spec fn obeys_eq_spec() -> bool {
        true
    }

    open spec fn eq_spec(&self, other: &i32) -> bool {
        self.0 == *other
    }
}

impl PartialEq<ELobbyDistanceFilter> for i32 {
    fn eq(&self, other: &ELobbyDistanceFilter) -> (r: bool)
        ensures
            r == (*self == other.0),
    {
        *self == other.0
    }
}

impl vstd::std_specs::cmp::PartialEqSpecImpl<ELobbyDistanceFilter> for i32 {
    open spec fn obeys_eq_spec() -> bool {
        true
    }

    open spec fn eq_spec(&self, other: &ELobbyDistanceFilter) -> bool {
        *self == other.0
    }
}

#[derive(Debug, Clone, Copy, PartialEq, Eq, Structural, PartialOrd, Ord, Hash)]
pub struct ELobbyComparison(pub i32);

impl ELobbyComparison {
    pub const NOT_EQUAL: i32 = 3;
    pub const EQUAL_TO_OR_GREATER_THAN: i32 = 2;
    pub const GREATER_THAN: i32 = 1;
    pub const EQUAL: i32 = 0;
    pub const LESS_THAN: i32 = -1;
    pub const EQUAL_TO_OR_LESS_THAN: i32 = -2;
}

impl PartialEq<i32> for ELobbyComparison {
    fn eq(&self, other: &i32) -> (r: bool)
        ensures
            r == (self.0 == *other),
    {
        self.0 == *other
    }
}

impl vstd::std_specs::cmp::PartialEqSpecImpl<i32> for ELobbyComparison {
    open spec fn obeys_eq_spec() -> bool {
        true
    }

    open spec fn eq_spec(&self, other: &i32) -> bool {
        self.0 == *other
    }
}

impl PartialEq<ELobbyComparison> for i32 {
    fn eq(&self, other: &ELobbyComparison) -> (r: bool)
        ensures
            r == (*self == other.0),
    {
        *self == other.0
    }
}

impl vstd::std_specs::cmp::PartialEqSpecImpl<ELobbyComparison> for i32 {
    open spec fn obeys_eq_spec() -> bool {
        true
    }

    open spec fn eq_spec(&self, other: &ELobbyComparison) -> bool {
        *self == other.0
    }
}

#[derive(Debug, Clone, Copy, PartialEq, Eq, Structural, PartialOrd, Ord, Hash)]
pub struct ELobbyFilterType(pub i32);

impl ELobbyFilterType {
    pub const DISTANCE: i32 = 4;
    pub const NEAR_VALUE: i32 = 3;
    pub const SLOTS_AVAILABLE: i32 = 2;
    pub const NUMERICAL: i32 = 1;
    pub const STRING: i32 = 0;
}

impl PartialEq<i32> for ELobbyFilterType {
    fn eq(&self, other: &i32) -> (r: bool)
        ensures
            r == (self.0 == *other),
    {
        self.0 == *other
    }
}

impl vstd::std_specs::cmp::PartialEqSpecImpl<i32> for ELobbyFilterType {
    open spec fn obeys_eq_spec() -> bool {
        true
    }

    open spec fn eq_spec(&self, other: &i32) -> bool {
        self.0 == *other
    }
}

impl PartialEq<ELobbyFilterType> for i32 {
    fn eq(&self, other: &ELobbyFilterType) -> (r: bool)
        ensures
            r == (*self == other.0),
    {
        *self == other.0
    }
}

impl vstd::std_specs::cmp::PartialEqSpecImpl<ELobbyFilterType> for i32 {
    open spec fn obeys_eq_spec() -> bool {
        true
    }

    open spec fn eq_spec(&self, other: &ELobbyFilterType) -> bool {
        *self == other.0
    }
}

#[derive(Debug, Clone, Copy, PartialEq, Eq, Structural, PartialOrd, Ord, Hash)]
pub struct ELobbyType(pub i32);

impl ELobbyType {
    pub const PRIVATE_UNIQUE: i32 = 4;
    pub const INVISIBLE: i32 = 3;
    pub const PUBLIC: i32 = 2;
    pub const FRIENDS_ONLY: i32 = 1;
    pub const PRIVATE: i32 = 0;
}

impl PartialEq<i32> for ELobbyType {
    fn eq(&self, other: &i32) -> (r: bool)
        ensures
            r == (self.0 == *other),
    {
        self.0 == *other
    }
}

impl vstd::std_specs::cmp::PartialEqSpecImpl<i32> for ELobbyType {
    open spec fn obeys_eq_spec() -> bool {
        true
    }

    open spec fn eq_spec(&self, other: &i32) -> bool {
        self.0 == *other
    }
}

impl PartialEq<ELobbyType> for i32 {
    fn eq(&self, other: &ELobbyType) -> (r: bool)
        ensures
            r == (*self == other.0),
    {
        *self == other.0
    }
}

impl vstd::std_specs::cmp::PartialEqSpecImpl<ELobbyType> for i32 {
    open spec fn obeys_eq_spec() -> bool {
        true
    }

    open spec fn eq_spec(&self, other: &ELobbyType) -> bool {
        *self == other.0
    }
}

#[derive(Debug, Clone, Copy, PartialEq, Eq, Structural, PartialOrd, Ord, Hash)]
pub struct ETradeOfferConfirmationMethod(pub i32);

impl ETradeOfferConfirmationMethod {
    pub const MOBILE_APP: i32 = 2;
    pub const EMAIL: i32 = 1;
    pub const INVALID: i32 = 0;
}

impl PartialEq<i32> for ETradeOfferConfirmationMethod {
    fn eq(&self, other: &i32) -> (r: bool)
        ensures
            r == (self.0 == *other),
    {
        self.0 == *other
    }
}

impl vstd::std_specs::cmp::PartialEqSpecImpl<i32> for ETradeOfferConfirmationMethod {
    open spec fn obeys_eq_spec() -> bool {
        true
    }

    open spec fn eq_spec(&self, other: &i32) -> bool {
        self.0 == *other
    }
}

impl PartialEq<ETradeOfferConfirmationMethod> for i32 {
    fn eq(&self, other: &ETradeOfferConfirmationMethod) -> (r: bool)
        ensures
            r == (*self == other.0),
    {
        *self == other.0
    }
}

impl vstd::std_specs::cmp::PartialEqSpecImpl<ETradeOfferConfirmationMethod> for i32 {
    open spec fn obeys_eq_spec() -> bool {
        true
    }

    open spec fn eq_spec(&self, other: &ETradeOfferConfirmationMethod) -> bool {
        *self == other.0
    }
}

#[derive(Debug, Clone, Copy, PartialEq, Eq, Structural, PartialOrd, Ord, Hash)]
pub struct ETradeOfferState(pub i32);

impl ETradeOfferState {
    pub const IN_ESCROW: i32 = 11;
    pub const CANCELED_BY_SECOND_FACTOR: i32 = 10;
    pub const CREATED_NEEDS_CONFIRMATION: i32 = 9;
    pub const INVALID_ITEMS: i32 = 8;
    pub const DECLINED: i32 = 7;
    pub const CANCELED: i32 = 6;
    pub const EXPIRED: i32 = 5;
    pub const COUNTERED: i32 = 4;
    pub const ACCEPTED: i32 = 3;
    pub const ACTIVE: i32 = 2;
    pub const INVALID: i32 = 1;
}

impl PartialEq<i32> for ETradeOfferState {
    fn eq(&self, other: &i32) -> (r: bool)
        ensures
            r == (self.0 == *other),
    {
        self.0 == *other
    }
}

impl vstd::std_specs::cmp::PartialEqSpecImpl<i32> for ETradeOfferState {
    open spec fn obeys_eq_spec() -> bool {
        true
    }

    open spec fn eq_spec(&self, other: &i32) -> bool {
        self.0 == *other
    }
}

impl PartialEq<ETradeOfferState> for i32 {
    fn eq(&self, other: &ETradeOfferState) -> (r: bool)
        ensures
            r == (*self == other.0),
    {
        *self == other.0
    }
}

impl vstd::std_specs::cmp::PartialEqSpecImpl<ETradeOfferState> for i32 {
    open spec fn obeys_eq_spec() -> bool {
        true
    }

    open spec fn eq_spec(&self, other: &ETradeOfferState) -> bool {
        *self == other.0
    }
}

#[derive(Debug, Clone, Copy, PartialEq, Eq, Structural, PartialOrd, Ord, Hash)]
pub struct EVoiceCallState(pub i32);

impl EVoiceCallState {
    pub const CONNECTED: i32 = 9;
    pub const NOTIFYING_VOICE_CHAT_OF_WEB_RTC_SESSION: i32 = 8;
    pub const REQUESTED_PERMISSION: i32 = 7;
    pub const WEB_RTC_CONNECTED_WAITING_ON_ICE_CONNECTED: i32 = 6;
    pub const INITATED_WEB_RTC_SESSION: i32 = 5;
    pub const CREATE_PEER_CONNECTION: i32 = 4;
    pub const LOCAL_MIC_ONLY: i32 = 3;
    pub const REQUESTED_MIC_ACCESS: i32 = 2;
    pub const SCHEDULED_INITIATE: i32 = 1;
    pub const NONE: i32 = 0;
}

impl PartialEq<i32> for EVoiceCallState {
    fn eq(&self, other: &i32) -> (r: bool)
        ensures
            r == (self.0 == *other),
    {
        self.0 == *other
    }
}

impl vstd::std_specs::cmp::PartialEqSpecImpl<i32> for EVoiceCallState {
    open spec fn obeys_eq_spec() -> bool {
        true
    }

    open spec fn eq_spec(&self, other: &i32) -> bool {
        self.0 == *other
    }
}

impl PartialEq<EVoiceCallState> for i32 {
    fn eq(&self, other: &EVoiceCallState) -> (r: bool)
        ensures
            r == (*self == other.0),
    {
        *self == other.0
    }
}

impl vstd::std_specs::cmp::PartialEqSpecImpl<EVoiceCallState> for i32 {
    open spec fn obeys_eq_spec() -> bool {
        true
    }

    open spec fn eq_spec(&self, other: &EVoiceCallState) -> bool {
        *self == other.0
    }
}

#[derive(Debug, Clone, Copy, PartialEq, Eq, Structural, PartialOrd, Ord, Hash)]
pub struct EChatRoomJoinState(pub i32);

impl EChatRoomJoinState {
    pub const JOINED: i32 = 2;
    pub const NONE: i32 = 1;
    pub const DEFAULT: i32 = 0;
}

impl PartialEq<i32> for EChatRoomJoinState {
    fn eq(&self, other: &i32) -> (r: bool)
        ensures
            r == (self.0 == *other),
    {
        self.0 == *other
    }
}

impl vstd::std_specs::cmp::PartialEqSpecImpl<i32> for EChatRoomJoinState {
    open spec fn obeys_eq_spec() -> bool {
        true
    }

    open spec fn eq_spec(&self, other: &i32) -> bool {
        self.0 == *other
    }
}

impl PartialEq<EChatRoomJoinState> for i32 {
    fn eq(&self, other: &EChatRoomJoinState) -> (r: bool)
        ensures
            r == (*self == other.0),
    {
        *self == other.0
    }
}

impl vstd::std_specs::cmp::PartialEqSpecImpl<EChatRoomJoinState> for i32 {
    open spec fn obeys_eq_spec() -> bool {
        true
    }

    open spec fn eq_spec(&self, other: &EChatRoomJoinState) -> bool {
        *self == other.0
    }
}

#[derive(Debug, Clone, Copy, PartialEq, Eq, Structural, PartialOrd, Ord, Hash)]
pub struct EChatRoomGroupAction(pub i32);

impl EChatRoomGroupAction {
    pub const SET_WATCHING_BROADCAST: i32 = 11;
    pub const MENTION_ALL: i32 = 10;
    pub const CHANGE_USER_ROLES: i32 = 9;
    pub const CHANGE_GROUP_ROLES: i32 = 8;
    pub const VIEW_HISTORY: i32 = 7;
    pub const CHAT: i32 = 6;
    pub const CHANGE_TAGLINE_AVATAR_NAME: i32 = 5;
    pub const INVITE: i32 = 4;
    pub const BAN: i32 = 3;
    pub const KICK: i32 = 2;
    pub const CREATE_RENAME_DELETE_CHANNEL: i32 = 1;
    pub const DEFAULT: i32 = 0;
}

impl PartialEq<i32> for EChatRoomGroupAction {
    fn eq(&self, other: &i32) -> (r: bool)
        ensures
            r == (self.0 == *other),
    {
        self.0 == *other
    }
}

impl vstd::std_specs::cmp::PartialEqSpecImpl<i32> for EChatRoomGroupAction {
    open spec fn obeys_eq_spec() -> bool {
        true
    }

    open spec fn eq_spec(&self, other: &i32) -> bool {
        self.0 == *other
    }
}

impl PartialEq<EChatRoomGroupAction> for i32 {
    fn eq(&self, other: &EChatRoomGroupAction) -> (r: bool)
        ensures
            r == (*self == other.0),
    {
        *self == other.0
    }
}

impl vstd::std_specs::cmp::PartialEqSpecImpl<EChatRoomGroupAction> for i32 {
    open spec fn obeys_eq_spec() -> bool {
        true
    }

    open spec fn eq_spec(&self, other: &EChatRoomGroupAction) -> bool {
        *self == other.0
    }
}

#[derive(Debug, Clone, Copy, PartialEq, Eq, Structural, PartialOrd, Ord, Hash)]
pub struct EChatRoomGroupPermissions(pub i32);

impl EChatRoomGroupPermissions {
    pub const CAN_ADMIN_CHANNEL: i32 = 16;
    pub const CAN_BAN: i32 = 8;
    pub const CAN_KICK: i32 = 4;
    pub const CAN_INVITE: i32 = 2;
    pub const VALID: i32 = 1;
    pub const DEFAULT: i32 = 0;
}

impl PartialEq<i32> for EChatRoomGroupPermissions {
    fn eq(&self, other: &i32) -> (r: bool)
        ensures
            r == (self.0 == *other),
    {
        self.0 == *other
    }
}

impl vstd::std_specs::cmp::PartialEqSpecImpl<i32> for EChatRoomGroupPermissions {
    open spec fn obeys_eq_spec() -> bool {
        true
    }

    open spec fn eq_spec(&self, other: &i32) -> bool {
        self.0 == *other
    }
}

impl PartialEq<EChatRoomGroupPermissions> for i32 {
    fn eq(&self, other: &EChatRoomGroupPermissions) -> (r: bool)
        ensures
            r == (*self == other.0),
    {
        *self == other.0
    }
}

impl vstd::std_specs::cmp::PartialEqSpecImpl<EChatRoomGroupPermissions> for i32 {
    open spec fn obeys_eq_spec() -> bool {
        true
    }

    open spec fn eq_spec(&self, other: &EChatRoomGroupPermissions) -> bool {
        *self == other.0
    }
}

impl std::ops::BitOr for EChatRoomGroupPermissions {
    type Output = Self;

    fn bitor(self, rhs: Self) -> (r: Self::Output)
        ensures
            r.0 == self.0 | rhs.0,
    {
        Self(self.0 | rhs.0)
    }
}

impl vstd::std_specs::ops::BitOrSpecImpl for EChatRoomGroupPermissions {
    open spec fn obeys_bitor_spec() -> bool {
        true
    }

    open spec fn bitor_req(self, rhs: Self) -> bool {
        true
    }

    open spec fn bitor_spec(self, rhs: Self) -> Self {
        EChatRoomGroupPermissions(self.0 | rhs.0)
    }
}

#[derive(Debug, Clone, Copy, PartialEq, Eq, Structural, PartialOrd, Ord, Hash)]
pub struct EChatRoomGroupRank(pub i32);

impl EChatRoomGroupRank {
    pub const OWNER: i32 = 50;
    pub const OFFICER: i32 = 40;
    pub const MODERATOR: i32 = 30;
    pub const MEMBER: i32 = 20;
    pub const GUEST: i32 = 15;
    pub const VIEWER: i32 = 10;
    pub const DEFAULT: i32 = 0;
}

impl PartialEq<i32> for EChatRoomGroupRank {
    fn eq(&self, other: &i32) -> (r: bool)
        ensures
            r == (self.0 == *other),
    {
        self.0 == *other
    }
}

impl vstd::std_specs::cmp::PartialEqSpecImpl<i32> for EChatRoomGroupRank {
    open spec fn obeys_eq_spec() -> bool {
        true
    }

    open spec fn eq_spec(&self, other: &i32) -> bool {
        self.0 == *other
    }
}

impl PartialEq<EChatRoomGroupRank> for i32 {
    fn eq(&self, other: &EChatRoomGroupRank) -> (r: bool)
        ensures
            r == (*self == other.0),
    {
        *self == other.0
    }
}

impl vstd::std_specs::cmp::PartialEqSpecImpl<EChatRoomGroupRank> for i32 {
    open spec fn obeys_eq_spec() -> bool {
        true
    }

    open spec fn eq_spec(&self, other: &EChatRoomGroupRank) -> bool {
        *self == other.0
    }
}

#[derive(Debug, Clone, Copy, PartialEq, Eq, Structural, PartialOrd, Ord, Hash)]
pub struct EChatRoomServerMsg(pub i32);

impl EChatRoomServerMsg {
    pub const APP_CUSTOM: i32 = 11;
    pub const CHAT_ROOM_AVATAR_CHANGED: i32 = 10;
    pub const CHAT_ROOM_TAGLINE_CHANGED: i32 = 9;
    pub const INVITE_DISMISSED: i32 = 8;
    pub const INVITED: i32 = 5;
    pub const KICKED: i32 = 4;
    pub const PARTED: i32 = 3;
    pub const JOINED: i32 = 2;
    pub const RENAME_CHAT_ROOM: i32 = 1;
    pub const INVALID: i32 = 0;
}

impl PartialEq<i32> for EChatRoomServerMsg {
    fn eq(&self, other: &i32) -> (r: bool)
        ensures
            r == (self.0 == *other),
    {
        self.0 == *other
    }
}

impl vstd::std_specs::cmp::PartialEqSpecImpl<i32> for EChatRoomServerMsg {
    open spec fn obeys_eq_spec() -> bool {
        true
    }

    open spec fn eq_spec(&self, other: &i32) -> bool {
        self.0 == *other
    }
}

impl PartialEq<EChatRoomServerMsg> for i32 {
    fn eq(&self, other: &EChatRoomServerMsg) -> (r: bool)
        ensures
            r == (*self == other.0),
    {
        *self == other.0
    }
}

impl vstd::std_specs::cmp::PartialEqSpecImpl<EChatRoomServerMsg> for i32 {
    open spec fn obeys_eq_spec() -> bool {
        true
    }

    open spec fn eq_spec(&self, other: &EChatRoomServerMsg) -> bool {
        *self == other.0
    }
}

#[derive(Debug, Clone, Copy, PartialEq, Eq, Structural, PartialOrd, Ord, Hash)]
pub struct EChatRoomMemberStateChange(pub i32);

impl EChatRoomMemberStateChange {
    pub const ROLES_CHANGED: i32 = 12;
    pub const BANNED: i32 = 10;
    pub const MUTED: i32 = 9;
    pub const INVITE_DISMISSED: i32 = 8;
    pub const RANK_CHANGED: i32 = 7;
    pub const INVITED: i32 = 4;
    pub const KICKED: i32 = 3;
    pub const PARTED: i32 = 2;
    pub const JOINED: i32 = 1;
    pub const INVALID: i32 = 0;
}

impl PartialEq<i32> for EChatRoomMemberStateChange {
    fn eq(&self, other: &i32) -> (r: bool)
        ensures
            r == (self.0 == *other),
    {
        self.0 == *other
    }
}

impl vstd::std_specs::cmp::PartialEqSpecImpl<i32> for EChatRoomMemberStateChange {
    open spec fn obeys_eq_spec() -> bool {
        true
    }

    open spec fn eq_spec(&self, other: &i32) -> bool {
        self.0 == *other
    }
}

impl PartialEq<EChatRoomMemberStateChange> for i32 {
    fn eq(&self, other: &EChatRoomMemberStateChange) -> (r: bool)
        ensures
            r == (*self == other.0),
    {
        *self == other.0
    }
}

impl vstd::std_specs::cmp::PartialEqSpecImpl<EChatRoomMemberStateChange> for i32 {
    open spec fn obeys_eq_spec() -> bool {
        true
    }

    open spec fn eq_spec(&self, other: &EChatRoomMemberStateChange) -> bool {
        *self == other.0
    }
}

#[derive(Debug, Clone, Copy, PartialEq, Eq, Structural, PartialOrd, Ord, Hash)]
pub struct EChatroomNotificationLevel(pub i32);

impl EChatroomNotificationLevel {
    pub const ALL_MESSAGES: i32 = 4;
    pub const MENTION_ALL: i32 = 3;
    pub const MENTION_ME: i32 = 2;
    pub const NONE: i32 = 1;
    pub const INVALID: i32 = 0;
}

impl PartialEq<i32> for EChatroomNotificationLevel {
    fn eq(&self, other: &i32) -> (r: bool)
        ensures
            r == (self.0 == *other),
    {
        self.0 == *other
    }
}

impl vstd::std_specs::cmp::PartialEqSpecImpl<i32> for EChatroomNotificationLevel {
    open spec fn obeys_eq_spec() -> bool {
        true
    }

    open spec fn eq_spec(&self, other: &i32) -> bool {
        self.0 == *other
    }
}

impl PartialEq<EChatroomNotificationLevel> for i32 {
    fn eq(&self, other: &EChatroomNotificationLevel) -> (r: bool)
        ensures
            r == (*self == other.0),
    {
        *self == other.0
    }
}

impl vstd::std_specs::cmp::PartialEqSpecImpl<EChatroomNotificationLevel> for i32 {
    open spec fn obeys_eq_spec() -> bool {
        true
    }

    open spec fn eq_spec(&self, other: &EChatroomNotificationLevel) -> bool {
        *self == other.0
    }
}

#[derive(Debug, Clone, Copy, PartialEq, Eq, Structural, PartialOrd, Ord, Hash)]
pub struct EChatRoomGroupType(pub i32);

impl EChatRoomGroupType {
    pub const UNMODERATED: i32 = 1;
    pub const DEFAULT: i32 = 0;
}

impl PartialEq<i32> for EChatRoomGroupType {
    fn eq(&self, other: &i32) -> (r: bool)
        ensures
            r == (self.0 == *other),
    {
        self.0 == *other
    }
}

impl vstd::std_specs::cmp::PartialEqSpecImpl<i32> for EChatRoomGroupType {
    open spec fn obeys_eq_spec() -> bool {
        true
    }

    open spec fn eq_spec(&self, other: &i32) -> bool {
        self.0 == *other
    }
}

impl PartialEq<EChatRoomGroupType> for i32 {
    fn eq(&self, other: &EChatRoomGroupType) -> (r: bool)
        ensures
            r == (*self == other.0),
    {
        *self == other.0
    }
}

impl vstd::std_specs::cmp::PartialEqSpecImpl<EChatRoomGroupType> for i32 {
    open spec fn obeys_eq_spec() -> bool {
        true
    }

    open spec fn eq_spec(&self, other: &EChatRoomGroupType) -> bool {
        *self == other.0
    }
}

#[derive(Debug, Clone, Copy, PartialEq, Eq, Structural, PartialOrd, Ord, Hash)]
pub struct EAppType(pub i32);

impl EAppType {
    pub const DEPOT_ONLY: i32 = -2147483648;
    pub const SHORTCUT: i32 = 1073741824;
    pub const BETA: i32 = 65536;
    pub const COMIC: i32 = 32768;
    pub const SERIES: i32 = 16384;
    pub const MUSIC: i32 = 8192;
    pub const PLUGIN: i32 = 4096;
    pub const VIDEO: i32 = 2048;
    pub const FRANCHISE: i32 = 1024;
    pub const HARDWARE: i32 = 512;
    pub const CONFIG: i32 = 256;
    pub const DRIVER: i32 = 128;
    pub const GUIDE: i32 = 64;
    pub const DLC: i32 = 32;
    pub const DEPRECTED: i32 = 16;
    pub const DEMO: i32 = 8;
    pub const TOOL: i32 = 4;
    pub const APPLICATION: i32 = 2;
    pub const GAME: i32 = 1;
    pub const INVALID: i32 = 0;
}

impl PartialEq<i32> for EAppType {
    fn eq(&self, other: &i32) -> (r: bool)
        ensures
            r == (self.0 == *other),
    {
        self.0 == *other
    }
}

impl vstd::std_specs::cmp::PartialEqSpecImpl<i32> for EAppType {
    open spec fn obeys_eq_spec() -> bool {
        true
    }

    open spec fn eq_spec(&self, other: &i32) -> bool {
        self.0 == *other
    }
}

impl PartialEq<EAppType> for i32 {
    fn eq(&self, other: &EAppType) -> (r: bool)
        ensures
            r == (*self == other.0),
    {
        *self == other.0
    }
}

impl vstd::std_specs::cmp::PartialEqSpecImpl<EAppType> for i32 {
    open spec fn obeys_eq_spec() -> bool {
        true
    }

    open spec fn eq_spec(&self, other: &EAppType) -> bool {
        *self == other.0
    }
}

impl std::ops::BitOr for EAppType {
    type Output = Self;

    fn bitor(self, rhs: Self) -> (r: Self::Output)
        ensures
            r.0 == self.0 | rhs.0,
    {
        Self(self.0 | rhs.0)
    }
}

impl vstd::std_specs::ops::BitOrSpecImpl for EAppType {
    open spec fn obeys_bitor_spec() -> bool {
        true
    }

    open spec fn bitor_req(self, rhs: Self) -> bool {
        true
    }

    open spec fn bitor_spec(self, rhs: Self) -> Self {
        EAppType(self.0 | rhs.0)
    }
}

#[derive(Debug, Clone, Copy, PartialEq, Eq, Structural, PartialOrd, Ord, Hash)]
pub struct EDisplayStatus(pub i32);

impl EDisplayStatus {
    pub const PURCHASE: i32 = 31;
    pub const AVAIL_GUEST_PASS: i32 = 30;
    pub const AVAIL_TO_BORROW: i32 = 29;
    pub const AVAIL_FOR_FREE: i32 = 28;
    pub const LICENSE_EXPIRED: i32 = 27;
    pub const LICENSE_PENDING: i32 = 26;
    pub const DOWNLOAD_DISABLED: i32 = 25;
    pub const DOWNLOAD_REQUIRED: i32 = 24;
    pub const DOWNLOAD_QUEUED: i32 = 23;
    pub const DOWNLOAD_PAUSED: i32 = 22;
    pub const UPDATE_DISABLED: i32 = 21;
    pub const UPDATE_REQUIRED: i32 = 20;
    pub const UPDATE_QUEUED: i32 = 19;
    pub const UPDATE_PAUSED: i32 = 18;
    pub const BORROWER_LOCKED: i32 = 17;
    pub const PRELOAD_ONLY: i32 = 16;
    pub const PARENTAL_BLOCKED: i32 = 15;
    pub const INVALID_PLATFORM: i32 = 14;
    pub const PRESALE_ONLY: i32 = 13;
    pub const REGION_RESTRICTED: i32 = 12;
    pub const READY_TO_LAUNCH: i32 = 11;
    pub const READY_TO_PRELOAD: i32 = 10;
    pub const READY_TO_INSTALL: i32 = 9;
    pub const SYNCHRONIZING: i32 = 8;
    pub const DOWNLOADING: i32 = 7;
    pub const UPDATING: i32 = 6;
    pub const VALIDATING: i32 = 5;
    pub const RUNNING: i32 = 4;
    pub const INSTALLING: i32 = 3;
    pub const UNINSTALLING: i32 = 2;
    pub const LAUNCHING: i32 = 1;
    pub const INVALID: i32 = 0;
}

impl PartialEq<i32> for EDisplayStatus {
    fn eq(&self, other: &i32) -> (r: bool)
        ensures
            r == (self.0 == *other),
    {
        self.0 == *other
    }
}

impl vstd::std_specs::cmp::PartialEqSpecImpl<i32> for EDisplayStatus {
    open spec fn obeys_eq_spec() -> bool {
        true
    }

    open spec fn eq_spec(&self, other: &i32) -> bool {
        self.0 == *other
    }
}

impl PartialEq<EDisplayStatus> for i32 {
    fn eq(&self, other: &EDisplayStatus) -> (r: bool)
        ensures
            r == (*self == other.0),
    {
        *self == other.0
    }
}

impl vstd::std_specs::cmp::PartialEqSpecImpl<EDisplayStatus> for i32 {
    open spec fn obeys_eq_spec() -> bool {
        true
    }

    open spec fn eq_spec(&self, other: &EDisplayStatus) -> bool {
        *self == other.0
    }
}

#[derive(Debug, Clone, Copy, PartialEq, Eq, Structural, PartialOrd, Ord, Hash)]
pub struct EPublishedFileInappropriateResult(pub i32);

impl EPublishedFileInappropriateResult {
    pub const VERY_LIKELY: i32 = 100;
    pub const LIKELY: i32 = 75;
    pub const POSSIBLE: i32 = 50;
    pub const UNLIKELY: i32 = 30;
    pub const VERY_UNLIKELY: i32 = 1;
    pub const NOT_SCANNED: i32 = 0;
}

impl PartialEq<i32> for EPublishedFileInappropriateResult {
    fn eq(&self, other: &i32) -> (r: bool)
        ensures
            r == (self.0 == *other),
    {
        self.0 == *other
    }
}

impl vstd::std_specs::cmp::PartialEqSpecImpl<i32> for EPublishedFileInappropriateResult {
    open spec fn obeys_eq_spec() -> bool {
        true
    }

    open spec fn eq_spec(&self, other: &i32) -> bool {
        self.0 == *other
    }
}

impl PartialEq<EPublishedFileInappropriateResult> for i32 {
    fn eq(&self, other: &EPublishedFileInappropriateResult) -> (r: bool)
        ensures
            r == (*self == other.0),
    {
        *self == other.0
    }
}

impl vstd::std_specs::cmp::PartialEqSpecImpl<EPublishedFileInappropriateResult> for i32 {
    open spec fn obeys_eq_spec() -> bool {
        true
    }

    open spec fn eq_spec(&self, other: &EPublishedFileInappropriateResult) -> bool {
        *self == other.0
    }
}

#[derive(Debug, Clone, Copy, PartialEq, Eq, Structural, PartialOrd, Ord, Hash)]
pub struct EPublishedFileInappropriateProvider(pub i32);

impl EPublishedFileInappropriateProvider {
    pub const AMAZON: i32 = 2;
    pub const GOOGLE: i32 = 1;
    pub const INVALID: i32 = 0;
}

impl PartialEq<i32> for EPublishedFileInappropriateProvider {
    fn eq(&self, other: &i32) -> (r: bool)
        ensures
            r == (self.0 == *other),
    {
        self.0 == *other
    }
}

impl vstd::std_specs::cmp::PartialEqSpecImpl<i32> for EPublishedFileInappropriateProvider {
    open spec fn obeys_eq_spec() -> bool {
        true
    }

    open spec fn eq_spec(&self, other: &i32) -> bool {
        self.0 == *other
    }
}

impl PartialEq<EPublishedFileInappropriateProvider> for i32 {
    fn eq(&self, other: &EPublishedFileInappropriateProvider) -> (r: bool)
        ensures
            r == (*self == other.0),
    {
        *self == other.0
    }
}

impl vstd::std_specs::cmp::PartialEqSpecImpl<EPublishedFileInappropriateProvider> for i32 {
    open spec fn obeys_eq_spec() -> bool {
        true
    }

    open spec fn eq_spec(&self, other: &EPublishedFileInappropriateProvider) -> bool {
        *self == other.0
    }
}

#[derive(Debug, Clone, Copy, PartialEq, Eq, Structural, PartialOrd, Ord, Hash)]
pub struct EPublishedFileQueryType(pub i32);

impl EPublishedFileQueryType {
    pub const RANKED_BY_INAPPROPRIATE_CONTENT_RATING: i32 = 19;
    pub const RANKED_BY_LIFETIME_PLAYTIME_SESSIONS: i32 = 18;
    pub const RANKED_BY_PLAYTIME_SESSIONS_TREND: i32 = 17;
    pub const RANKED_BY_LIFETIME_AVERAGE_PLAYTIME: i32 = 16;
    pub const RANKED_BY_AVERAGE_PLAYTIME_TREND: i32 = 15;
    pub const RANKED_BY_TOTAL_PLAYTIME: i32 = 14;
    pub const RANKED_BY_PLAYTIME_TREND: i32 = 13;
    pub const RANKED_BY_TEXT_SEARCH: i32 = 12;
    pub const RANKED_BY_VOTES_UP: i32 = 11;
    pub const RANKED_BY_TOTAL_VOTES_ASC: i32 = 10;
    pub const RANKED_BY_TOTAL_UNIQUE_SUBSCRIPTIONS: i32 = 9;
    pub const NOT_YET_RATED: i32 = 8;
    pub const CREATED_BY_FOLLOWED_USERS_RANKED_BY_PUBLICATION_DATE: i32 = 7;
    pub const RANKED_BY_NUM_TIMES_REPORTED: i32 = 6;
    pub const CREATED_BY_FRIENDS_RANKED_BY_PUBLICATION_DATE: i32 = 5;
    pub const FAVORITED_BY_FRIENDS_RANKED_BY_PUBLICATION_DATE: i32 = 4;
    pub const RANKED_BY_TREND: i32 = 3;
    pub const ACCEPTED_FOR_GAME_RANKED_BY_ACCEPTANCE_DATE: i32 = 2;
    pub const RANKED_BY_PUBLICATION_DATE: i32 = 1;
    pub const RANKED_BY_VOTE: i32 = 0;
}

impl PartialEq<i32> for EPublishedFileQueryType {
    fn eq(&self, other: &i32) -> (r: bool)
        ensures
            r == (self.0 == *other),
    {
        self.0 == *other
    }
}

impl vstd::std_specs::cmp::PartialEqSpecImpl<i32> for EPublishedFileQueryType {
    open spec fn obeys_eq_spec() -> bool {
        true
    }

    open spec fn eq_spec(&self, other: &i32) -> bool {
        self.0 == *other
    }
}

impl PartialEq<EPublishedFileQueryType> for i32 {
    fn eq(&self, other: &EPublishedFileQueryType) -> (r: bool)
        ensures
            r == (*self == other.0),
    {
        *self == other.0
    }
}

impl vstd::std_specs::cmp::PartialEqSpecImpl<EPublishedFileQueryType> for i32 {
    open spec fn obeys_eq_spec() -> bool {
        true
    }

    open spec fn eq_spec(&self, other: &EPublishedFileQueryType) -> bool {
        *self == other.0
    }
}

#[derive(Debug, Clone, Copy, PartialEq, Eq, Structural, PartialOrd, Ord, Hash)]
pub struct EUCMFilePrivacyState(pub i32);

impl EUCMFilePrivacyState {
    pub const ALL: i32 = 14;
    pub const PUBLIC: i32 = 8;
    pub const FRIENDS_ONLY: i32 = 4;
    pub const PRIVATE: i32 = 2;
    pub const INVALID: i32 = -1;
}

impl PartialEq<i32> for EUCMFilePrivacyState {
    fn eq(&self, other: &i32) -> (r: bool)
        ensures
            r == (self.0 == *other),
    {
        self.0 == *other
    }
}

impl vstd::std_specs::cmp::PartialEqSpecImpl<i32> for EUCMFilePrivacyState {
    open spec fn obeys_eq_spec() -> bool {
        true
    }

    open spec fn eq_spec(&self, other: &i32) -> bool {
        self.0 == *other
    }
}

impl PartialEq<EUCMFilePrivacyState> for i32 {
    fn eq(&self, other: &EUCMFilePrivacyState) -> (r: bool)
        ensures
            r == (*self == other.0),
    {
        *self == other.0
    }
}

impl vstd::std_specs::cmp::PartialEqSpecImpl<EUCMFilePrivacyState> for i32 {
    open spec fn obeys_eq_spec() -> bool {
        true
    }

    open spec fn eq_spec(&self, other: &EUCMFilePrivacyState) -> bool {
        *self == other.0
    }
}

impl std::ops::BitOr for EUCMFilePrivacyState {
    type Output = Self;

    fn bitor(self, rhs: Self) -> (r: Self::Output)
        ensures
            r.0 == self.0 | rhs.0,
    {
        Self(self.0 | rhs.0)
    }
}

impl vstd::std_specs::ops::BitOrSpecImpl for EUCMFilePrivacyState {
    open spec fn obeys_bitor_spec() -> bool {
        true
    }

    open spec fn bitor_req(self, rhs: Self) -> bool {
        true
    }

    open spec fn bitor_spec(self, rhs: Self) -> Self {
        EUCMFilePrivacyState(self.0 | rhs.0)
    }
}

#[derive(Debug, Clone, Copy, PartialEq, Eq, Structural, PartialOrd, Ord, Hash)]
pub struct ELeaderboardUploadScoreMethod(pub i32);

impl ELeaderboardUploadScoreMethod {
    pub const FORCE_UPDATE: i32 = 2;
    pub const KEEP_BEST: i32 = 1;
    pub const NONE: i32 = 0;
}

impl PartialEq<i32> for ELeaderboardUploadScoreMethod {
    fn eq(&self, other: &i32) -> (r: bool)
        ensures
            r == (self.0 == *other),
    {
        self.0 == *other
    }
}

impl vstd::std_specs::cmp::PartialEqSpecImpl<i32> for ELeaderboardUploadScoreMethod {
    open spec fn obeys_eq_spec() -> bool {
        true
    }

    open spec fn eq_spec(&self, other: &i32) -> bool {
        self.0 == *other
    }
}

impl PartialEq<ELeaderboardUploadScoreMethod> for i32 {
    fn eq(&self, other: &ELeaderboardUploadScoreMethod) -> (r: bool)
        ensures
            r == (*self == other.0),
    {
        *self == other.0
    }
}

impl vstd::std_specs::cmp::PartialEqSpecImpl<ELeaderboardUploadScoreMethod> for i32 {
    open spec fn obeys_eq_spec() -> bool {
        true
    }

    open spec fn eq_spec(&self, other: &ELeaderboardUploadScoreMethod) -> bool {
        *self == other.0
    }
}

#[derive(Debug, Clone, Copy, PartialEq, Eq, Structural, PartialOrd, Ord, Hash)]
pub struct ELeaderboardDisplayType(pub i32);

impl ELeaderboardDisplayType {
    pub const TIME_MILLI_SECONDS: i32 = 3;
    pub const TIME_SECONDS: i32 = 2;
    pub const NUMERIC: i32 = 1;
    pub const NONE: i32 = 0;
}

impl PartialEq<i32> for ELeaderboardDisplayType {
    fn eq(&self, other: &i32) -> (r: bool)
        ensures
            r == (self.0 == *other),
    {
        self.0 == *other
    }
}

impl vstd::std_specs::cmp::PartialEqSpecImpl<i32> for ELeaderboardDisplayType {
    open spec fn obeys_eq_spec() -> bool {
        true
    }

    open spec fn eq_spec(&self, other: &i32) -> bool {
        self.0 == *other
    }
}

impl PartialEq<ELeaderboardDisplayType> for i32 {
    fn eq(&self, other: &ELeaderboardDisplayType) -> (r: bool)
        ensures
            r == (*self == other.0),
    {
        *self == other.0
    }
}

impl vstd::std_specs::cmp::PartialEqSpecImpl<ELeaderboardDisplayType> for i32 {
    open spec fn obeys_eq_spec() -> bool {
        true
    }

    open spec fn eq_spec(&self, other: &ELeaderboardDisplayType) -> bool {
        *self == other.0
    }
}

#[derive(Debug, Clone, Copy, PartialEq, Eq, Structural, PartialOrd, Ord, Hash)]
pub struct ELeaderboardSortMethod(pub i32);

impl ELeaderboardSortMethod {
    pub const DESCENDING: i32 = 2;
    pub const ASCENDING: i32 = 1;
    pub const NONE: i32 = 0;
}

impl PartialEq<i32> for ELeaderboardSortMethod {
    fn eq(&self, other: &i32) -> (r: bool)
        ensures
            r == (self.0 == *other),
    {
        self.0 == *other
    }
}

impl vstd::std_specs::cmp::PartialEqSpecImpl<i32> for ELeaderboardSortMethod {
    open spec fn obeys_eq_spec() -> bool {
        true
    }

    open spec fn eq_spec(&self, other: &i32) -> bool {
        self.0 == *other
    }
}

impl PartialEq<ELeaderboardSortMethod> for i32 {
    fn eq(&self, other: &ELeaderboardSortMethod) -> (r: bool)
        ensures
            r == (*self == other.0),
    {
        *self == other.0
    }
}

impl vstd::std_specs::cmp::PartialEqSpecImpl<ELeaderboardSortMethod> for i32 {
    open spec fn obeys_eq_spec() -> bool {
        true
    }

    open spec fn eq_spec(&self, other: &ELeaderboardSortMethod) -> bool {
        *self == other.0
    }
}

#[derive(Debug, Clone, Copy, PartialEq, Eq, Structural, PartialOrd, Ord, Hash)]
pub struct ELeaderboardDataRequest(pub i32);

impl ELeaderboardDataRequest {
    pub const USERS: i32 = 3;
    pub const FRIENDS: i32 = 2;
    pub const GLOBAL_AROUND_USER: i32 = 1;
    pub const GLOBAL: i32 = 0;
}

impl PartialEq<i32> for ELeaderboardDataRequest {
    fn eq(&self, other: &i32) -> (r: bool)
        ensures
            r == (self.0 == *other),
    {
        self.0 == *other
    }
}

impl vstd::std_specs::cmp::PartialEqSpecImpl<i32> for ELeaderboardDataRequest {
    open spec fn obeys_eq_spec() -> bool {
        true
    }

    open spec fn eq_spec(&self, other: &i32) -> bool {
        self.0 == *other
    }
}

impl PartialEq<ELeaderboardDataRequest> for i32 {
    fn eq(&self, other: &ELeaderboardDataRequest) -> (r: bool)
        ensures
            r == (*self == other.0),
    {
        *self == other.0
    }
}

impl vstd::std_specs::cmp::PartialEqSpecImpl<ELeaderboardDataRequest> for i32 {
    open spec fn obeys_eq_spec() -> bool {
        true
    }

    open spec fn eq_spec(&self, other: &ELeaderboardDataRequest) -> bool {
        *self == other.0
    }
}

#[derive(Debug, Clone, Copy, PartialEq, Eq, Structural, PartialOrd, Ord, Hash)]
pub struct EClientStatAggregateMethod(pub i32);

impl EClientStatAggregateMethod {
    pub const SCALAR: i32 = 3;
    pub const EVENT: i32 = 2;
    pub const SUM: i32 = 1;
    pub const LATEST_ONLY: i32 = 0;
}

impl PartialEq<i32> for EClientStatAggregateMethod {
    fn eq(&self, other: &i32) -> (r: bool)
        ensures
            r == (self.0 == *other),
    {
        self.0 == *other
    }
}

impl vstd::std_specs::cmp::PartialEqSpecImpl<i32> for EClientStatAggregateMethod {
    open spec fn obeys_eq_spec() -> bool {
        true
    }

    open spec fn eq_spec(&self, other: &i32) -> bool {
        self.0 == *other
    }
}

impl PartialEq<EClientStatAggregateMethod> for i32 {
    fn eq(&self, other: &EClientStatAggregateMethod) -> (r: bool)
        ensures
            r == (*self == other.0),
    {
        *self == other.0
    }
}

impl vstd::std_specs::cmp::PartialEqSpecImpl<EClientStatAggregateMethod> for i32 {
    open spec fn obeys_eq_spec() -> bool {
        true
    }

    open spec fn eq_spec(&self, other: &EClientStatAggregateMethod) -> bool {
        *self == other.0
    }
}

#[derive(Debug, Clone, Copy, PartialEq, Eq, Structural, PartialOrd, Ord, Hash)]
pub struct EClientStat(pub i32);

impl EClientStat {
    pub const BYTES_DOWNLOADED: i32 = 4;
    pub const P2P_VOICE_CONNECTIONS: i32 = 3;
    pub const P2P_GAME_CONNECTIONS: i32 = 2;
    pub const P2P_CONNECTIONS_RELAY: i32 = 1;
    pub const P2P_CONNECTIONS_UDP: i32 = 0;
}

impl PartialEq<i32> for EClientStat {
    fn eq(&self, other: &i32) -> (r: bool)
        ensures
            r == (self.0 == *other),
    {
        self.0 == *other
    }
}

impl vstd::std_specs::cmp::PartialEqSpecImpl<i32> for EClientStat {
    open spec fn obeys_eq_spec() -> bool {
        true
    }

    open spec fn eq_spec(&self, other: &i32) -> bool {
        self.0 == *other
    }
}

impl PartialEq<EClientStat> for i32 {
    fn eq(&self, other: &EClientStat) -> (r: bool)
        ensures
            r == (*self == other.0),
    {
        *self == other.0
    }
}

impl vstd::std_specs::cmp::PartialEqSpecImpl<EClientStat> for i32 {
    open spec fn obeys_eq_spec() -> bool {
        true
    }

    open spec fn eq_spec(&self, other: &EClientStat) -> bool {
        *self == other.0
    }
}

#[derive(Debug, Clone, Copy, PartialEq, Eq, Structural, PartialOrd, Ord, Hash)]
pub struct EDRMBlobDownloadErrorDetail(pub i32);

impl EDRMBlobDownloadErrorDetail {
    pub const NEXT_BASE: i32 = 131072;
    pub const TARGET_LOCKED_MAX: i32 = 131071;
    pub const TARGET_LOCKED_BASE: i32 = 65536;
    pub const PATH_MANIPULATION_ERROR: i32 = 19;
    pub const UNZIP_VALVE_SIGNATURE_HEADER: i32 = 18;
    pub const APPLY_VALVE_SIGNATURE_HEADER: i32 = 17;
    pub const APPLIED_SIGNATURE_CORRUPT: i32 = 16;
    pub const APP_ID_UNEXPECTED: i32 = 15;
    pub const APP_ID_MISMATCH: i32 = 14;
    pub const APPLY_SIGNATURE: i32 = 13;
    pub const APPLY_MERGE_GUID: i32 = 12;
    pub const APPLY_STRIPS: i32 = 11;
    pub const UNZIP_SIGNATURE: i32 = 10;
    pub const UNZIP_MERGE_GUID: i32 = 9;
    pub const UNZIP_STRIPS: i32 = 8;
    pub const UNKNOWN_BLOB_TYPE: i32 = 7;
    pub const UNZIP_FULL_FILE: i32 = 6;
    pub const UNEXPECTED_ZIP_ENTRY: i32 = 5;
    pub const READ_ZIP_DIRECTORY: i32 = 4;
    pub const OPEN_ZIP: i32 = 3;
    pub const TARGET_LOCKED: i32 = 2;
    pub const DOWNLOAD_FAILED: i32 = 1;
    pub const NONE: i32 = 0;
}

impl PartialEq<i32> for EDRMBlobDownloadErrorDetail {
    fn eq(&self, other: &i32) -> (r: bool)
        ensures
            r == (self.0 == *other),
    {
        self.0 == *other
    }
}

impl vstd::std_specs::cmp::PartialEqSpecImpl<i32> for EDRMBlobDownloadErrorDetail {
    open spec fn obeys_eq_spec() -> bool {
        true
    }

    open spec fn eq_spec(&self, other: &i32) -> bool {
        self.0 == *other
    }
}

impl PartialEq<EDRMBlobDownloadErrorDetail> for i32 {
    fn eq(&self, other: &EDRMBlobDownloadErrorDetail) -> (r: bool)
        ensures
            r == (*self == other.0),
    {
        *self == other.0
    }
}

impl vstd::std_specs::cmp::PartialEqSpecImpl<EDRMBlobDownloadErrorDetail> for i32 {
    open spec fn obeys_eq_spec() -> bool {
        true
    }

    open spec fn eq_spec(&self, other: &EDRMBlobDownloadErrorDetail) -> bool {
        *self == other.0
    }
}

#[derive(Debug, Clone, Copy, PartialEq, Eq, Structural, PartialOrd, Ord, Hash)]
pub struct EDRMBlobDownloadType(pub i32);

impl EDRMBlobDownloadType {
    pub const LOW_PRIORITY: i32 = 64;
    pub const ADD_TIMESTAMP: i32 = 32;
    pub const HIGH_PRIORITY: i32 = 16;
    pub const IS_JOB: i32 = 8;
    pub const ALL_MASK: i32 = 7;
    pub const COMPRESSED: i32 = 4;
    pub const PARTS: i32 = 2;
    pub const FILE: i32 = 1;
    pub const ERROR: i32 = 0;
}

impl PartialEq<i32> for EDRMBlobDownloadType {
    fn eq(&self, other: &i32) -> (r: bool)
        ensures
            r == (self.0 == *other),
    {
        self.0 == *other
    }
}

impl vstd::std_specs::cmp::PartialEqSpecImpl<i32> for EDRMBlobDownloadType {
    open spec fn obeys_eq_spec() -> bool {
        true
    }

    open spec fn eq_spec(&self, other: &i32) -> bool {
        self.0 == *other
    }
}

impl PartialEq<EDRMBlobDownloadType> for i32 {
    fn eq(&self, other: &EDRMBlobDownloadType) -> (r: bool)
        ensures
            r == (*self == other.0),
    {
        *self == other.0
    }
}

impl vstd::std_specs::cmp::PartialEqSpecImpl<EDRMBlobDownloadType> for i32 {
    open spec fn obeys_eq_spec() -> bool {
        true
    }

    open spec fn eq_spec(&self, other: &EDRMBlobDownloadType) -> bool {
        *self == other.0
    }
}

impl std::ops::BitOr for EDRMBlobDownloadType {
    type Output = Self;

    fn bitor(self, rhs: Self) -> (r: Self::Output)
        ensures
            r.0 == self.0 | rhs.0,
    {
        Self(self.0 | rhs.0)
    }
}

impl vstd::std_specs::ops::BitOrSpecImpl for EDRMBlobDownloadType {
    open spec fn obeys_bitor_spec() -> bool {
        true
    }

    open spec fn bitor_req(self, rhs: Self) -> bool {
        true
    }

    open spec fn bitor_spec(self, rhs: Self) -> Self {
        EDRMBlobDownloadType(self.0 | rhs.0)
    }
}

#[derive(Debug, Clone, Copy, PartialEq, Eq, Structural, PartialOrd, Ord, Hash)]
pub struct ERemoteStoragePlatform(pub i32);

impl ERemoteStoragePlatform {
    pub const ALL: i32 = -1;
    pub const I_PHONE_OS: i32 = 64;
    pub const ANDROID: i32 = 32;
    pub const SWITCH: i32 = 16;
    pub const LINUX: i32 = 8;
    pub const PS3: i32 = 4;
    pub const OSX: i32 = 2;
    pub const WINDOWS: i32 = 1;
    pub const NONE: i32 = 0;
}

impl PartialEq<i32> for ERemoteStoragePlatform {
    fn eq(&self, other: &i32) -> (r: bool)
        ensures
            r == (self.0 == *other),
    {
        self.0 == *other
    }
}

impl vstd::std_specs::cmp::PartialEqSpecImpl<i32> for ERemoteStoragePlatform {
    open spec fn obeys_eq_spec() -> bool {
        true
    }

    open spec fn eq_spec(&self, other: &i32) -> bool {
        self.0 == *other
    }
}

impl PartialEq<ERemoteStoragePlatform> for i32 {
    fn eq(&self, other: &ERemoteStoragePlatform) -> (r: bool)
        ensures
            r == (*self == other.0),
    {
        *self == other.0
    }
}

impl vstd::std_specs::cmp::PartialEqSpecImpl<ERemoteStoragePlatform> for i32 {
    open spec fn obeys_eq_spec() -> bool {
        true
    }

    open spec fn eq_spec(&self, other: &ERemoteStoragePlatform) -> bool {
        *self == other.0
    }
}

impl std::ops::BitOr for ERemoteStoragePlatform {
    type Output = Self;

    fn bitor(self, rhs: Self) -> (r: Self::Output)
        ensures
            r.0 == self.0 | rhs.0,
    {
        Self(self.0 | rhs.0)
    }
}

impl vstd::std_specs::ops::BitOrSpecImpl for ERemoteStoragePlatform {
    open spec fn obeys_bitor_spec() -> bool {
        true
    }

    open spec fn bitor_req(self, rhs: Self) -> bool {
        true
    }

    open spec fn bitor_spec(self, rhs: Self) -> Self {
        ERemoteStoragePlatform(self.0 | rhs.0)
    }
}

#[derive(Debug, Clone, Copy, PartialEq, Eq, Structural, PartialOrd, Ord, Hash)]
pub struct EChatFlags(pub i32);

impl EChatFlags {
    pub const UNJOINABLE: i32 = 8;
    pub const MODERATED: i32 = 4;
    pub const INVISIBLE_TO_FRIENDS: i32 = 2;
    pub const LOCKED: i32 = 1;
}

impl PartialEq<i32> for EChatFlags {
    fn eq(&self, other: &i32) -> (r: bool)
        ensures
            r == (self.0 == *other),
    {
        self.0 == *other
    }
}

impl vstd::std_specs::cmp::PartialEqSpecImpl<i32> for EChatFlags {
    open spec fn obeys_eq_spec() -> bool {
        true
    }

    open spec fn eq_spec(&self, other: &i32) -> bool {
        self.0 == *other
    }
}

impl PartialEq<EChatFlags> for i32 {
    fn eq(&self, other: &EChatFlags) -> (r: bool)
        ensures
            r == (*self == other.0),
    {
        *self == other.0
    }
}

impl vstd::std_specs::cmp::PartialEqSpecImpl<EChatFlags> for i32 {
    open spec fn obeys_eq_spec() -> bool {
        true
    }

    open spec fn eq_spec(&self, other: &EChatFlags) -> bool {
        *self == other.0
    }
}

impl std::ops::BitOr for EChatFlags {
    type Output = Self;

    fn bitor(self, rhs: Self) -> (r: Self::Output)
        ensures
            r.0 == self.0 | rhs.0,
    {
        Self(self.0 | rhs.0)
    }
}

impl vstd::std_specs::ops::BitOrSpecImpl for EChatFlags {
    open spec fn obeys_bitor_spec() -> bool {
        true
    }

    open spec fn bitor_req(self, rhs: Self) -> bool {
        true
    }

    open spec fn bitor_spec(self, rhs: Self) -> Self {
        EChatFlags(self.0 | rhs.0)
    }
}

#[derive(Debug, Clone, Copy, PartialEq, Eq, Structural, PartialOrd, Ord, Hash)]
pub struct ESystemIMType(pub i32);

impl ESystemIMType {
    pub const SUPPORT_MESSAGE_CLEAR_ALERT: i32 = 9;
    pub const SUPPORT_MESSAGE: i32 = 8;
    pub const GIFT_REVOKED: i32 = 7;
    pub const GUEST_PASS_GRANTED: i32 = 6;
    pub const GUEST_PASS_RECEIVED: i32 = 5;
    pub const SUBSCRIPTION_EXPIRED: i32 = 4;
    pub const CARD_WILL_EXPIRE: i32 = 3;
    pub const RECURRING_PURCHASE_FAILED: i32 = 2;
    pub const INVALID_CARD: i32 = 1;
    pub const RAW_TEXT: i32 = 0;
}

impl PartialEq<i32> for ESystemIMType {
    fn eq(&self, other: &i32) -> (r: bool)
        ensures
            r == (self.0 == *other),
    {
        self.0 == *other
    }
}

impl vstd::std_specs::cmp::PartialEqSpecImpl<i32> for ESystemIMType {
    open spec fn obeys_eq_spec() -> bool {
        true
    }

    open spec fn eq_spec(&self, other: &i32) -> bool {
        self.0 == *other
    }
}

impl PartialEq<ESystemIMType> for i32 {
    fn eq(&self, other: &ESystemIMType) -> (r: bool)
        ensures
            r == (*self == other.0),
    {
        *self == other.0
    }
}

impl vstd::std_specs::cmp::PartialEqSpecImpl<ESystemIMType> for i32 {
    open spec fn obeys_eq_spec() -> bool {
        true
    }

    open spec fn eq_spec(&self, other: &ESystemIMType) -> bool {
        *self == other.0
    }
}

#[derive(Debug, Clone, Copy, PartialEq, Eq, Structural, PartialOrd, Ord, Hash)]
pub struct ENewsUpdateType(pub i32);

impl ENewsUpdateType {
    pub const CLIENT_UPDATE: i32 = 4;
    pub const CDDB_UPDATE: i32 = 3;
    pub const STEAM_NEWS: i32 = 2;
    pub const STEAM_ADS: i32 = 1;
    pub const APP_NEWS: i32 = 0;
}

impl PartialEq<i32> for ENewsUpdateType {
    fn eq(&self, other: &i32) -> (r: bool)
        ensures
            r == (self.0 == *other),
    {
        self.0 == *other
    }
}

impl vstd::std_specs::cmp::PartialEqSpecImpl<i32> for ENewsUpdateType {
    open spec fn obeys_eq_spec() -> bool {
        true
    }

    open spec fn eq_spec(&self, other: &i32) -> bool {
        self.0 == *other
    }
}

impl PartialEq<ENewsUpdateType> for i32 {
    fn eq(&self, other: &ENewsUpdateType) -> (r: bool)
        ensures
            r == (*self == other.0),
    {
        *self == other.0
    }
}

impl vstd::std_specs::cmp::PartialEqSpecImpl<ENewsUpdateType> for i32 {
    open spec fn obeys_eq_spec() -> bool {
        true
    }

    open spec fn eq_spec(&self, other: &ENewsUpdateType) -> bool {
        *self == other.0
    }
}

#[derive(Debug, Clone, Copy, PartialEq, Eq, Structural, PartialOrd, Ord, Hash)]
pub struct EMarketingMessageFlags(pub i32);

impl EMarketingMessageFlags {
    pub const PLATFORM_RESTRICTIONS: i32 = 14;
    pub const PLATFORM_LINUX: i32 = 8;
    pub const PLATFORM_MAC: i32 = 4;
    pub const PLATFORM_WINDOWS: i32 = 2;
    pub const HIGH_PRIORITY: i32 = 1;
    pub const NONE: i32 = 0;
}

impl PartialEq<i32> for EMarketingMessageFlags {
    fn eq(&self, other: &i32) -> (r: bool)
        ensures
            r == (self.0 == *other),
    {
        self.0 == *other
    }
}

impl vstd::std_specs::cmp::PartialEqSpecImpl<i32> for EMarketingMessageFlags {
    open spec fn obeys_eq_spec() -> bool {
        true
    }

    open spec fn eq_spec(&self, other: &i32) -> bool {
        self.0 == *other
    }
}

impl PartialEq<EMarketingMessageFlags> for i32 {
    fn eq(&self, other: &EMarketingMessageFlags) -> (r: bool)
        ensures
            r == (*self == other.0),
    {
        *self == other.0
    }
}

impl vstd::std_specs::cmp::PartialEqSpecImpl<EMarketingMessageFlags> for i32 {
    open spec fn obeys_eq_spec() -> bool {
        true
    }

    open spec fn eq_spec(&self, other: &EMarketingMessageFlags) -> bool {
        *self == other.0
    }
}

impl std::ops::BitOr for EMarketingMessageFlags {
    type Output = Self;

    fn bitor(self, rhs: Self) -> (r: Self::Output)
        ensures
            r.0 == self.0 | rhs.0,
    {
        Self(self.0 | rhs.0)
    }
}

impl vstd::std_specs::ops::BitOrSpecImpl for EMarketingMessageFlags {
    open spec fn obeys_bitor_spec() -> bool {
        true
    }

    open spec fn bitor_req(self, rhs: Self) -> bool {
        true
    }

    open spec fn bitor_spec(self, rhs: Self) -> Self {
        EMarketingMessageFlags(self.0 | rhs.0)
    }
}

#[derive(Debug, Clone, Copy, PartialEq, Eq, Structural, PartialOrd, Ord, Hash)]
pub struct EEconTradeResponse(pub i32);

impl EEconTradeResponse {
    pub const OK_TO_DELIVER: i32 = 50;
    pub const DISABLED_IN_PARTNER_REGION: i32 = 33;
    pub const DISABLED_IN_REGION: i32 = 32;
    pub const WOULD_EXCEED_MAX_ASSET_COUNT: i32 = 31;
    pub const TRADING_HOLD_FOR_CLEARED_TRADE_OFFERS_INITIATOR: i32 = 30;
    pub const NEEDS_MOBILE_CONFIRMATION: i32 = 29;
    pub const INITIATOR_RECENT_EMAIL_CHANGE: i32 = 28;
    pub const NEEDS_EMAIL_CONFIRMATION: i32 = 27;
    pub const INITIATOR_SENT_INVALID_COOKIE: i32 = 26;
    pub const INITIATOR_NEW_DEVICE_COOLDOWN: i32 = 25;
    pub const INITIATOR_PASSWORD_RESET_PROBATION: i32 = 24;
    pub const INITIATOR_STEAM_GUARD_DURATION: i32 = 23;
    pub const TARGET_ACCOUNT_CANNOT_TRADE: i32 = 22;
    pub const INITIATOR_NEEDS_STEAM_GUARD: i32 = 21;
    pub const INITIATOR_NEEDS_VERIFIED_EMAIL: i32 = 20;
    pub const INITIATOR_BLOCKED_TARGET: i32 = 18;
    pub const SCHOOL_LAB_TARGET: i32 = 16;
    pub const SCHOOL_LAB_INITIATOR: i32 = 16;
    pub const CYBER_CAFE_TARGET: i32 = 15;
    pub const CYBER_CAFE_INITIATOR: i32 = 14;
    pub const NO_RESPONSE: i32 = 13;
    pub const ALREADY_HAS_TRADE_REQUEST: i32 = 12;
    pub const ALREADY_TRADING: i32 = 11;
    pub const CONNECTION_FAILED: i32 = 10;
    pub const TOO_SOON_PENALTY: i32 = 9;
    pub const TOO_SOON: i32 = 8;
    pub const CANCEL: i32 = 7;
    pub const NOT_LOGGED_IN: i32 = 6;
    pub const DISABLED: i32 = 5;
    pub const TARGET_ALREADY_TRADING: i32 = 4;
    pub const TRADE_BANNED_TARGET: i32 = 3;
    pub const TRADE_BANNED_INITIATOR: i32 = 2;
    pub const DECLINED: i32 = 1;
    pub const ACCEPTED: i32 = 0;
}

impl PartialEq<i32> for EEconTradeResponse {
    fn eq(&self, other: &i32) -> (r: bool)
        ensures
            r == (self.0 == *other),
    {
        self.0 == *other
    }
}

impl vstd::std_specs::cmp::PartialEqSpecImpl<i32> for EEconTradeResponse {
    open spec fn obeys_eq_spec() -> bool {
        true
    }

    open spec fn eq_spec(&self, other: &i32) -> bool {
        self.0 == *other
    }
}

impl PartialEq<EEconTradeResponse> for i32 {
    fn eq(&self, other: &EEconTradeResponse) -> (r: bool)
        ensures
            r == (*self == other.0),
    {
        *self == other.0
    }
}

impl vstd::std_specs::cmp::PartialEqSpecImpl<EEconTradeResponse> for i32 {
    open spec fn obeys_eq_spec() -> bool {
        true
    }

    open spec fn eq_spec(&self, other: &EEconTradeResponse) -> bool {
        *self == other.0
    }
}

#[derive(Debug, Clone, Copy, PartialEq, Eq, Structural, PartialOrd, Ord, Hash)]
pub struct EWorkshopFileAction(pub i32);

impl EWorkshopFileAction {
    pub const COMPLETED: i32 = 1;
    pub const PLAYED: i32 = 0;
}

impl PartialEq<i32> for EWorkshopFileAction {
    fn eq(&self, other: &i32) -> (r: bool)
        ensures
            r == (self.0 == *other),
    {
        self.0 == *other
    }
}

impl vstd::std_specs::cmp::PartialEqSpecImpl<i32> for EWorkshopFileAction {
    open spec fn obeys_eq_spec() -> bool {
        true
    }

    open spec fn eq_spec(&self, other: &i32) -> bool {
        self.0 == *other
    }
}

impl PartialEq<EWorkshopFileAction> for i32 {
    fn eq(&self, other: &EWorkshopFileAction) -> (r: bool)
        ensures
            r == (*self == other.0),
    {
        *self == other.0
    }
}

impl vstd::std_specs::cmp::PartialEqSpecImpl<EWorkshopFileAction> for i32 {
    open spec fn obeys_eq_spec() -> bool {
        true
    }

    open spec fn eq_spec(&self, other: &EWorkshopFileAction) -> bool {
        *self == other.0
    }
}

#[derive(Debug, Clone, Copy, PartialEq, Eq, Structural, PartialOrd, Ord, Hash)]
pub struct EWorkshopFileType(pub i32);

impl EWorkshopFileType {
    pub const GAME_MANAGED_ITEM: i32 = 15;
    pub const STEAM_VIDEO: i32 = 14;
    pub const STEAMWORKS_ACCESS_INVITE: i32 = 13;
    pub const CONTROLLER_BINDING: i32 = 12;
    pub const MERCH: i32 = 11;
    pub const INTEGRATED_GUIDE: i32 = 10;
    pub const WEB_GUIDE: i32 = 9;
    pub const CONCEPT: i32 = 8;
    pub const SOFTWARE: i32 = 7;
    pub const GAME: i32 = 6;
    pub const SCREENSHOT: i32 = 5;
    pub const VIDEO: i32 = 4;
    pub const ART: i32 = 3;
    pub const COLLECTION: i32 = 2;
    pub const MICROTRANSACTION: i32 = 1;
    pub const COMMUNITY: i32 = 0;
    pub const FIRST: i32 = 0;
}

impl PartialEq<i32> for EWorkshopFileType {
    fn eq(&self, other: &i32) -> (r: bool)
        ensures
            r == (self.0 == *other),
    {
        self.0 == *other
    }
}

impl vstd::std_specs::cmp::PartialEqSpecImpl<i32> for EWorkshopFileType {
    open spec fn obeys_eq_spec() -> bool {
        true
    }

    open spec fn eq_spec(&self, other: &i32) -> bool {
        self.0 == *other
    }
}

impl PartialEq<EWorkshopFileType> for i32 {
    fn eq(&self, other: &EWorkshopFileType) -> (r: bool)
        ensures
            r == (*self == other.0),
    {
        *self == other.0
    }
}

impl vstd::std_specs::cmp::PartialEqSpecImpl<EWorkshopFileType> for i32 {
    open spec fn obeys_eq_spec() -> bool {
        true
    }

    open spec fn eq_spec(&self, other: &EWorkshopFileType) -> bool {
        *self == other.0
    }
}

#[derive(Debug, Clone, Copy, PartialEq, Eq, Structural, PartialOrd, Ord, Hash)]
pub struct EPublishedFileVisibility(pub i32);

impl EPublishedFileVisibility {
    pub const PRIVATE: i32 = 2;
    pub const FRIENDS_ONLY: i32 = 1;
    pub const PUBLIC: i32 = 0;
}

impl PartialEq<i32> for EPublishedFileVisibility {
    fn eq(&self, other: &i32) -> (r: bool)
        ensures
            r == (self.0 == *other),
    {
        self.0 == *other
    }
}

impl vstd::std_specs::cmp::PartialEqSpecImpl<i32> for EPublishedFileVisibility {
    open spec fn obeys_eq_spec() -> bool {
        true
    }

    open spec fn eq_spec(&self, other: &i32) -> bool {
        self.0 == *other
    }
}

impl PartialEq<EPublishedFileVisibility> for i32 {
    fn eq(&self, other: &EPublishedFileVisibility) -> (r: bool)
        ensures
            r == (*self == other.0),
    {
        *self == other.0
    }
}

impl vstd::std_specs::cmp::PartialEqSpecImpl<EPublishedFileVisibility> for i32 {
    open spec fn obeys_eq_spec() -> bool {
        true
    }

    open spec fn eq_spec(&self, other: &EPublishedFileVisibility) -> bool {
        *self == other.0
    }
}

#[derive(Debug, Clone, Copy, PartialEq, Eq, Structural, PartialOrd, Ord, Hash)]
pub struct EWorkshopEnumerationType(pub i32);

impl EWorkshopEnumerationType {
    pub const RECENT_FROM_FOLLOWED_USERS: i32 = 6;
    pub const CONTENT_BY_FRIENDS: i32 = 5;
    pub const VOTED_BY_FRIENDS: i32 = 4;
    pub const FAVORITE_OF_FRIENDS: i32 = 3;
    pub const TRENDING: i32 = 2;
    pub const RECENT: i32 = 1;
    pub const RANKED_BY_VOTE: i32 = 0;
}

impl PartialEq<i32> for EWorkshopEnumerationType {
    fn eq(&self, other: &i32) -> (r: bool)
        ensures
            r == (self.0 == *other),
    {
        self.0 == *other
    }
}

impl vstd::std_specs::cmp::PartialEqSpecImpl<i32> for EWorkshopEnumerationType {
    open spec fn obeys_eq_spec() -> bool {
        true
    }

    open spec fn eq_spec(&self, other: &i32) -> bool {
        self.0 == *other
    }
}

impl PartialEq<EWorkshopEnumerationType> for i32 {
    fn eq(&self, other: &EWorkshopEnumerationType) -> (r: bool)
        ensures
            r == (*self == other.0),
    {
        *self == other.0
    }
}

impl vstd::std_specs::cmp::PartialEqSpecImpl<EWorkshopEnumerationType> for i32 {
    open spec fn obeys_eq_spec() -> bool {
        true
    }

    open spec fn eq_spec(&self, other: &EWorkshopEnumerationType) -> bool {
        *self == other.0
    }
}

#[derive(Debug, Clone, Copy, PartialEq, Eq, Structural, PartialOrd, Ord, Hash)]
pub struct EDepotFileFlag(pub i32);

impl EDepotFileFlag {
    pub const SYMLINK: i32 = 512;
    pub const INSTALL_SCRIPT: i32 = 256;
    pub const CUSTOM_EXECUTABLE: i32 = 128;
    pub const DIRECTORY: i32 = 64;
    pub const EXECUTABLE: i32 = 32;
    pub const HIDDEN: i32 = 16;
    pub const READ_ONLY: i32 = 8;
    pub const ENCRYPTED: i32 = 4;
    pub const VERSIONED_USER_CONFIG: i32 = 2;
    pub const USER_CONFIG: i32 = 1;
}

impl PartialEq<i32> for EDepotFileFlag {
    fn eq(&self, other: &i32) -> (r: bool)
        ensures
            r == (self.0 == *other),
    {
        self.0 == *other
    }
}

impl vstd::std_specs::cmp::PartialEqSpecImpl<i32> for EDepotFileFlag {
    open spec fn obeys_eq_spec() -> bool {
        true
    }

    open spec fn eq_spec(&self, other: &i32) -> bool {
        self.0 == *other
    }
}

impl PartialEq<EDepotFileFlag> for i32 {
    fn eq(&self, other: &EDepotFileFlag) -> (r: bool)
        ensures
            r == (*self == other.0),
    {
        *self == other.0
    }
}

impl vstd::std_specs::cmp::PartialEqSpecImpl<EDepotFileFlag> for i32 {
    open spec fn obeys_eq_spec() -> bool {
        true
    }

    open spec fn eq_spec(&self, other: &EDepotFileFlag) -> bool {
        *self == other.0
    }
}

impl std::ops::BitOr for EDepotFileFlag {
    type Output = Self;

    fn bitor(self, rhs: Self) -> (r: Self::Output)
        ensures
            r.0 == self.0 | rhs.0,
    {
        Self(self.0 | rhs.0)
    }
}

impl vstd::std_specs::ops::BitOrSpecImpl for EDepotFileFlag {
    open spec fn obeys_bitor_spec() -> bool {
        true
    }

    open spec fn bitor_req(self, rhs: Self) -> bool {
        true
    }

    open spec fn bitor_spec(self, rhs: Self) -> Self {
        EDepotFileFlag(self.0 | rhs.0)
    }
}

#[derive(Debug, Clone, Copy, PartialEq, Eq, Structural, PartialOrd, Ord, Hash)]
pub struct ECurrencyCode(pub i32);

impl ECurrencyCode {
    pub const UYU: i32 = 41;
    pub const CRC: i32 = 40;
    pub const QAR: i32 = 39;
    pub const KWD: i32 = 38;
    pub const KZT: i32 = 37;
    pub const BYN: i32 = 36;
    pub const ILS: i32 = 35;
    pub const ARS: i32 = 34;
    pub const AED: i32 = 32;
    pub const SAR: i32 = 31;
    pub const TWD: i32 = 30;
    pub const HKD: i32 = 29;
    pub const ZAR: i32 = 28;
    pub const COP: i32 = 27;
    pub const PEN: i32 = 26;
    pub const CLP: i32 = 25;
    pub const INR: i32 = 24;
    pub const CNY: i32 = 23;
    pub const NZD: i32 = 22;
    pub const AUD: i32 = 21;
    pub const CAD: i32 = 20;
    pub const MXN: i32 = 19;
    pub const UAH: i32 = 18;
    pub const TRY: i32 = 17;
    pub const KRW: i32 = 16;
    pub const VND: i32 = 15;
    pub const THB: i32 = 14;
    pub const SGD: i32 = 13;
    pub const PHP: i32 = 12;
    pub const MYR: i32 = 11;
    pub const IDR: i32 = 10;
    pub const NOK: i32 = 9;
    pub const JPY: i32 = 8;
    pub const BRL: i32 = 7;
    pub const PLN: i32 = 6;
    pub const RUB: i32 = 5;
    pub const CHF: i32 = 4;
    pub const EUR: i32 = 3;
    pub const GBP: i32 = 2;
    pub const USD: i32 = 1;
    pub const INVALID: i32 = 0;
}

impl PartialEq<i32> for ECurrencyCode {
    fn eq(&self, other: &i32) -> (r: bool)
        ensures
            r == (self.0 == *other),
    {
        self.0 == *other
    }
}

impl vstd::std_specs::cmp::PartialEqSpecImpl<i32> for ECurrencyCode {
    open spec fn obeys_eq_spec() -> bool {
        true
    }

    open spec fn eq_spec(&self, other: &i32) -> bool {
        self.0 == *other
    }
}

impl PartialEq<ECurrencyCode> for i32 {
    fn eq(&self, other: &ECurrencyCode) -> (r: bool)
        ensures
            r == (*self == other.0),
    {
        *self == other.0
    }
}

impl vstd::std_specs::cmp::PartialEqSpecImpl<ECurrencyCode> for i32 {
    open spec fn obeys_eq_spec() -> bool {
        true
    }

    open spec fn eq_spec(&self, other: &ECurrencyCode) -> bool {
        *self == other.0
    }
}

#[derive(Debug, Clone, Copy, PartialEq, Eq, Structural, PartialOrd, Ord, Hash)]
pub struct ERegionCode(pub i32);

impl ERegionCode {
    pub const WORLD: i32 = 255;
    pub const AFRICA: i32 = 7;
    pub const MIDDLE_EAST: i32 = 6;
    pub const AUSTRALIA: i32 = 5;
    pub const ASIA: i32 = 4;
    pub const EUROPE: i32 = 3;
    pub const SOUTH_AMERICA: i32 = 2;
    pub const US_WEST: i32 = 1;
    pub const US_EAST: i32 = 0;
}

impl PartialEq<i32> for ERegionCode {
    fn eq(&self, other: &i32) -> (r: bool)
        ensures
            r == (self.0 == *other),
    {
        self.0 == *other
    }
}

impl vstd::std_specs::cmp::PartialEqSpecImpl<i32> for ERegionCode {
    open spec fn obeys_eq_spec() -> bool {
        true
    }

    open spec fn eq_spec(&self, other: &i32) -> bool {
        self.0 == *other
    }
}

impl PartialEq<ERegionCode> for i32 {
    fn eq(&self, other: &ERegionCode) -> (r: bool)
        ensures
            r == (*self == other.0),
    {
        *self == other.0
    }
}

impl vstd::std_specs::cmp::PartialEqSpecImpl<ERegionCode> for i32 {
    open spec fn obeys_eq_spec() -> bool {
        true
    }

    open spec fn eq_spec(&self, other: &ERegionCode) -> bool {
        *self == other.0
    }
}

#[derive(Debug, Clone, Copy, PartialEq, Eq, Structural, PartialOrd, Ord, Hash)]
pub struct EChatMemberStateChange(pub i32);

impl EChatMemberStateChange {
    pub const VOICE_DONE_SPEAKING: i32 = 8192;
    pub const VOICE_SPEAKING: i32 = 4096;
    pub const BANNED: i32 = 16;
    pub const KICKED: i32 = 8;
    pub const DISCONNECTED: i32 = 4;
    pub const LEFT: i32 = 2;
    pub const ENTERED: i32 = 1;
}

impl PartialEq<i32> for EChatMemberStateChange {
    fn eq(&self, other: &i32) -> (r: bool)
        ensures
            r == (self.0 == *other),
    {
        self.0 == *other
    }
}

impl vstd::std_specs::cmp::PartialEqSpecImpl<i32> for EChatMemberStateChange {
    open spec fn obeys_eq_spec() -> bool {
        true
    }

    open spec fn eq_spec(&self, other: &i32) -> bool {
        self.0 == *other
    }
}

impl PartialEq<EChatMemberStateChange> for i32 {
    fn eq(&self, other: &EChatMemberStateChange) -> (r: bool)
        ensures
            r == (*self == other.0),
    {
        *self == other.0
    }
}

impl vstd::std_specs::cmp::PartialEqSpecImpl<EChatMemberStateChange> for i32 {
    open spec fn obeys_eq_spec() -> bool {
        true
    }

    open spec fn eq_spec(&self, other: &EChatMemberStateChange) -> bool {
        *self == other.0
    }
}

impl std::ops::BitOr for EChatMemberStateChange {
    type Output = Self;

    fn bitor(self, rhs: Self) -> (r: Self::Output)
        ensures
            r.0 == self.0 | rhs.0,
    {
        Self(self.0 | rhs.0)
    }
}

impl vstd::std_specs::ops::BitOrSpecImpl for EChatMemberStateChange {
    open spec fn obeys_bitor_spec() -> bool {
        true
    }

    open spec fn bitor_req(self, rhs: Self) -> bool {
        true
    }

    open spec fn bitor_spec(self, rhs: Self) -> Self {
        EChatMemberStateChange(self.0 | rhs.0)
    }
}

#[derive(Debug, Clone, Copy, PartialEq, Eq, Structural, PartialOrd, Ord, Hash)]
pub struct EActivationCodeClass(pub i32);

impl EActivationCodeClass {
    pub const INVALID: i32 = -1;
    pub const TEST: i32 = 2147483647;
    pub const MAX: i32 = 5;
    pub const STEAM2010_KEY: i32 = 4;
    pub const DB_LOOKUP: i32 = 3;
    pub const DOOM3_CD_KEY: i32 = 2;
    pub const VALVE_CD_KEY: i32 = 1;
    pub const WON_CD_KEY: i32 = 0;
}

impl PartialEq<i32> for EActivationCodeClass {
    fn eq(&self, other: &i32) -> (r: bool)
        ensures
            r == (self.0 == *other),
    {
        self.0 == *other
    }
}

impl vstd::std_specs::cmp::PartialEqSpecImpl<i32> for EActivationCodeClass {
    open spec fn obeys_eq_spec() -> bool {
        true
    }

    open spec fn eq_spec(&self, other: &i32) -> bool {
        self.0 == *other
    }
}

impl PartialEq<EActivationCodeClass> for i32 {
    fn eq(&self, other: &EActivationCodeClass) -> (r: bool)
        ensures
            r == (*self == other.0),
    {
        *self == other.0
    }
}

impl vstd::std_specs::cmp::PartialEqSpecImpl<EActivationCodeClass> for i32 {
    open spec fn obeys_eq_spec() -> bool {
        true
    }

    open spec fn eq_spec(&self, other: &EActivationCodeClass) -> bool {
        *self == other.0
    }
}

#[derive(Debug, Clone, Copy, PartialEq, Eq, Structural, PartialOrd, Ord, Hash)]
pub struct EPackageStatus(pub i32);

impl EPackageStatus {
    pub const INVALID: i32 = 3;
    pub const UNAVAILABLE: i32 = 2;
    pub const PREORDER: i32 = 1;
    pub const AVAILABLE: i32 = 0;
}

impl PartialEq<i32> for EPackageStatus {
    fn eq(&self, other: &i32) -> (r: bool)
        ensures
            r == (self.0 == *other),
    {
        self.0 == *other
    }
}

impl vstd::std_specs::cmp::PartialEqSpecImpl<i32> for EPackageStatus {
    open spec fn obeys_eq_spec() -> bool {
        true
    }

    open spec fn eq_spec(&self, other: &i32) -> bool {
        self.0 == *other
    }
}

impl PartialEq<EPackageStatus> for i32 {
    fn eq(&self, other: &EPackageStatus) -> (r: bool)
        ensures
            r == (*self == other.0),
    {
        *self == other.0
    }
}

impl vstd::std_specs::cmp::PartialEqSpecImpl<EPackageStatus> for i32 {
    open spec fn obeys_eq_spec() -> bool {
        true
    }

    open spec fn eq_spec(&self, other: &EPackageStatus) -> bool {
        *self == other.0
    }
}

#[derive(Debug, Clone, Copy, PartialEq, Eq, Structural, PartialOrd, Ord, Hash)]
pub struct EBillingType(pub i32);

impl EBillingType {
    pub const NUM_BILLING_TYPES: i32 = 16;
    pub const FREE_COMMERCIAL_LICENSE: i32 = 15;
    pub const COMMERCIAL_LICENSE: i32 = 14;
    pub const RENTAL: i32 = 13;
    pub const FREE_ON_DEMAND: i32 = 12;
    pub const REPURCHASEABLE: i32 = 11;
    pub const BILL_ONCE_OR_CD_KEY: i32 = 10;
    pub const RECURRING_OPTION: i32 = 9;
    pub const OEM_TICKET: i32 = 8;
    pub const AUTO_GRANT: i32 = 7;
    pub const GIFT: i32 = 6;
    pub const HARDWARE_PROMO: i32 = 5;
    pub const GUEST_PASS: i32 = 4;
    pub const PROOF_OF_PREPURCHASE_ONLY: i32 = 3;
    pub const BILL_MONTHLY: i32 = 2;
    pub const BILL_ONCE_ONLY: i32 = 1;
    pub const NO_COST: i32 = 0;
}

impl PartialEq<i32> for EBillingType {
    fn eq(&self, other: &i32) -> (r: bool)
        ensures
            r == (self.0 == *other),
    {
        self.0 == *other
    }
}

impl vstd::std_specs::cmp::PartialEqSpecImpl<i32> for EBillingType {
    open spec fn obeys_eq_spec() -> bool {
        true
    }

    open spec fn eq_spec(&self, other: &i32) -> bool {
        self.0 == *other
    }
}

impl PartialEq<EBillingType> for i32 {
    fn eq(&self, other: &EBillingType) -> (r: bool)
        ensures
            r == (*self == other.0),
    {
        *self == other.0
    }
}

impl vstd::std_specs::cmp::PartialEqSpecImpl<EBillingType> for i32 {
    open spec fn obeys_eq_spec() -> bool {
        true
    }

    open spec fn eq_spec(&self, other: &EBillingType) -> bool {
        *self == other.0
    }
}

#[derive(Debug, Clone, Copy, PartialEq, Eq, Structural, PartialOrd, Ord, Hash)]
pub struct EServerType(pub i32);

impl EServerType {
    pub const CRASH_DUMP: i32 = 126;
    pub const CHINA: i32 = 125;
    pub const STEAM_AR: i32 = 124;
    pub const BROADCAST_CHANNEL: i32 = 123;
    pub const BROADCAST_ORIGIN: i32 = 122;
    pub const REMOTE_CLIENT: i32 = 121;
    pub const TURN: i32 = 120;
    pub const UGS_AGGREGATE: i32 = 119;
    pub const ML_INFERENCE: i32 = 118;
    pub const TAX_SERVICE: i32 = 117;
    pub const VAC_TEST: i32 = 116;
    pub const ML_TRAIN: i32 = 115;
    pub const MINIGAME: i32 = 114;
    pub const CONTENT_SERVER_CONFIG: i32 = 113;
    pub const VACDB_MASTER: i32 = 112;
    pub const TIME_MACHINE: i32 = 111;
    pub const TRUST: i32 = 110;
    pub const QMS: i32 = 109;
    pub const VOICE_CHAT: i32 = 108;
    pub const CHAT_ROOM: i32 = 107;
    pub const GIVEAWAY: i32 = 106;
    pub const WEB_RTC: i32 = 105;
    pub const ACCOUNT_HARDWARE: i32 = 104;
    pub const SHADER: i32 = 103;
    pub const CHAT: i32 = 102;
    pub const ACCOUNT_HISTORY: i32 = 101;
    pub const WATCHDOG: i32 = 100;
    pub const ITEM_INVENTORY: i32 = 99;
    pub const PERF: i32 = 98;
    pub const IDLS: i32 = 97;
    pub const HLTV_RELAY: i32 = 96;
    pub const STORE_CATALOG: i32 = 95;
    pub const AUTH: i32 = 94;
    pub const INVENTORY_MANAGEMENT: i32 = 93;
    pub const EMAIL_DELIVERY: i32 = 92;
    pub const LOG_WORKER: i32 = 91;
    pub const LOG_REQUEST: i32 = 90;
    pub const SUPPORT: i32 = 89;
    pub const ACCOUNT_SCORE: i32 = 88;
    pub const PHONE: i32 = 87;
    pub const BROADCAST_CHAT: i32 = 86;
    pub const TRADE_OFFER: i32 = 85;
    pub const VIDEO_MANAGER: i32 = 84;
    pub const BROADCAST_DIRECTORY: i32 = 83;
    pub const BROADCAST_RELAY: i32 = 82;
    pub const SOLR_MGR: i32 = 81;
    pub const PUBLIC_TEST: i32 = 80;
    pub const STEAM2_EMULATOR: i32 = 79;
    pub const LOCALIZATION: i32 = 78;
    pub const MARKET_SEARCH: i32 = 77;
    pub const MARKET_REPL: i32 = 76;
    pub const GAME_NOTIFICATIONS: i32 = 75;
    pub const EXTERNAL_CONFIG: i32 = 74;
    pub const DEPOT_WEB_CONTENT: i32 = 73;
    pub const ES: i32 = 72;
    pub const PARTNER: i32 = 71;
    pub const PARTNER_UPLOAD: i32 = 70;
    pub const PARENTAL: i32 = 69;
    pub const EXTERNAL_MONITOR: i32 = 68;
    pub const TAX_FORM: i32 = 67;
    pub const PNP: i32 = 66;
    pub const ACS: i32 = 65;
    pub const WDS: i32 = 64;
    pub const QUEST: i32 = 63;
    pub const MARKET: i32 = 62;
    pub const LOGSINK: i32 = 61;
    pub const SECRETS: i32 = 60;
    pub const TRADE: i32 = 59;
    pub const MPAS: i32 = 58;
    pub const GCH: i32 = 57;
    pub const BRP: i32 = 56;
    pub const WORKSHOP: i32 = 55;
    pub const UMQ: i32 = 54;
    pub const CRE: i32 = 53;
    pub const MONEY_STATS: i32 = 52;
    pub const STORE_FEATURE: i32 = 51;
    pub const UGS: i32 = 50;
    pub const BACKPACK: i32 = 49;
    pub const ECON: i32 = 48;
    pub const FS: i32 = 47;
    pub const RM: i32 = 46;
    pub const UCM: i32 = 45;
    pub const KGS: i32 = 44;
    pub const GMS: i32 = 43;
    pub const MMS: i32 = 42;
    pub const UDS: i32 = 41;
    pub const WEB_API: i32 = 40;
    pub const OGS: i32 = 39;
    pub const NS: i32 = 38;
    pub const GC: i32 = 37;
    pub const CS: i32 = 36;
    pub const MDS: i32 = 35;
    pub const LBS: i32 = 34;
    pub const DFS: i32 = 33;
    pub const CCS: i32 = 32;
    pub const IS: i32 = 31;
    pub const PS: i32 = 30;
    pub const SITE_LICENSE: i32 = 29;
    pub const FTS: i32 = 28;
    pub const SPARE: i32 = 27;
    pub const APP_INFORMATION: i32 = 26;
    pub const COMMUNITY: i32 = 24;
    pub const UFS: i32 = 21;
    pub const SLC: i32 = 20;
    pub const SM: i32 = 19;
    pub const WG: i32 = 18;
    pub const DP: i32 = 17;
    pub const CONTENT_STATS: i32 = 16;
    pub const PICS: i32 = 14;
    pub const CONSOLE: i32 = 13;
    pub const DRMS: i32 = 11;
    pub const SS: i32 = 10;
    pub const BOX_MONITOR: i32 = 9;
    pub const FBS: i32 = 8;
    pub const CM: i32 = 7;
    pub const ATS: i32 = 6;
    pub const VS: i32 = 5;
    pub const BS: i32 = 4;
    pub const AM: i32 = 3;
    pub const GM: i32 = 1;
    pub const SHELL: i32 = 0;
    pub const FIRST: i32 = 0;
    pub const INVALID: i32 = -1;
    pub const C_ECON_BASE: i32 = -5;
    pub const C_SERVER: i32 = -4;
    pub const CLIENT: i32 = -3;
    pub const UTIL: i32 = -2;
}

impl PartialEq<i32> for EServerType {
    fn eq(&self, other: &i32) -> (r: bool)
        ensures
            r == (self.0 == *other),
    {
        self.0 == *other
    }
}

impl vstd::std_specs::cmp::PartialEqSpecImpl<i32> for EServerType {
    open spec fn obeys_eq_spec() -> bool {
        true
    }

    open spec fn eq_spec(&self, other: &i32) -> bool {
        self.0 == *other
    }
}

impl PartialEq<EServerType> for i32 {
    fn eq(&self, other: &EServerType) -> (r: bool)
        ensures
            r == (*self == other.0),
    {
        *self == other.0
    }
}

impl vstd::std_specs::cmp::PartialEqSpecImpl<EServerType> for i32 {
    open spec fn obeys_eq_spec() -> bool {
        true
    }

    open spec fn eq_spec(&self, other: &EServerType) -> bool {
        *self == other.0
    }
}

#[derive(Debug, Clone, Copy, PartialEq, Eq, Structural, PartialOrd, Ord, Hash)]
pub struct EOSType(pub i32);

impl EOSType {
    pub const WIN_MAX: i32 = 21;
    pub const WIN11: i32 = 20;
    pub const WIN2022: i32 = 19;
    pub const WIN2019: i32 = 18;
    pub const WIN2016: i32 = 17;
    pub const WINDOWS10: i32 = 16;
    pub const WIN2012_R2: i32 = 15;
    pub const WINDOWS81: i32 = 14;
    pub const WINDOWS8: i32 = 13;
    pub const WIN2012: i32 = 12;
    pub const WIN2008: i32 = 11;
    pub const WINDOWS7: i32 = 10;
    pub const WIN_VISTA: i32 = 9;
    pub const WIN2003: i32 = 8;
    pub const WIN_XP: i32 = 7;
    pub const WIN2000: i32 = 6;
    pub const WIN_NT: i32 = 5;
    pub const WIN_ME: i32 = 4;
    pub const WIN98: i32 = 3;
    pub const WIN95: i32 = 2;
    pub const WIN311: i32 = 1;
    pub const WIN_UNKNOWN: i32 = 0;
    pub const LINUX_MAX: i32 = -101;
    pub const LINUX510: i32 = -182;
    pub const LINUX7X: i32 = -183;
    pub const LINUX6X: i32 = -184;
    pub const LINUX54: i32 = -185;
    pub const LINUX5X: i32 = -186;
    pub const LINUX419: i32 = -187;
    pub const LINUX414: i32 = -188;
    pub const LINUX49: i32 = -189;
    pub const LINUX44: i32 = -190;
    pub const LINUX41: i32 = -191;
    pub const LINUX4X: i32 = -192;
    pub const LINUX3X: i32 = -193;
    pub const LINUX318: i32 = -194;
    pub const LINUX316: i32 = -195;
    pub const LINUX310: i32 = -196;
    pub const LINUX36: i32 = -197;
    pub const LINUX35: i32 = -198;
    pub const LINUX32: i32 = -199;
    pub const LINUX26: i32 = -200;
    pub const LINUX24: i32 = -201;
    pub const LINUX22: i32 = -202;
    pub const LINUX_UNKNOWN: i32 = -203;
    pub const MAC_OS_MAX: i32 = -1;
    pub const MAC_OS13: i32 = -76;
    pub const MAC_OS12: i32 = -77;
    pub const MAC_OS1017: i32 = -78;
    pub const MAC_OS111: i32 = -79;
    pub const MAC_OS11: i32 = -80;
    pub const MAC_OS1016: i32 = -81;
    pub const MACOS1015: i32 = -82;
    pub const MACOS1014: i32 = -83;
    pub const MACOS1013: i32 = -84;
    pub const MAC_OS1012: i32 = -85;
    pub const MAC_OS1011: i32 = -86;
    pub const MAC_OS1010: i32 = -87;
    pub const MAC_OS109: i32 = -88;
    pub const MAC_OS108: i32 = -89;
    pub const MAC_OS107: i32 = -90;
    pub const MAC_OS1067: i32 = -92;
    pub const MAC_OS1064_SLGU: i32 = -93;
    pub const MAC_OS1063: i32 = -94;
    pub const MAC_OS106: i32 = -95;
    pub const MAC_OS1058: i32 = -99;
    pub const MAC_OS105: i32 = -100;
    pub const MAC_OS104: i32 = -101;
    pub const MAC_OS_UNKNOWN: i32 = -102;
    pub const PS3: i32 = -300;
    pub const UMQ: i32 = -400;
    pub const ANDROID9: i32 = -496;
    pub const ANDROID8: i32 = -497;
    pub const ANDROID7: i32 = -498;
    pub const ANDROID6: i32 = -499;
    pub const ANDROID_UNKNOWN: i32 = -500;
    pub const IOS12_1: i32 = -571;
    pub const IOS12: i32 = -572;
    pub const IOS11_4: i32 = -573;
    pub const IOS11_3: i32 = -574;
    pub const IOS11_2: i32 = -575;
    pub const IOS11_1: i32 = -576;
    pub const IOS11: i32 = -577;
    pub const IOS10_3: i32 = -578;
    pub const IOS10_2: i32 = -579;
    pub const IOS10_1: i32 = -580;
    pub const IOS10: i32 = -581;
    pub const IOS9_3: i32 = -582;
    pub const IOS9_2: i32 = -583;
    pub const IOS9_1: i32 = -584;
    pub const IOS9: i32 = -585;
    pub const IOS8_4: i32 = -586;
    pub const IOS8_3: i32 = -587;
    pub const IOS8_2: i32 = -588;
    pub const IOS8_1: i32 = -589;
    pub const IOS8: i32 = -590;
    pub const IOS7_1: i32 = -591;
    pub const IOS7: i32 = -592;
    pub const IOS6_1: i32 = -593;
    pub const IOS6: i32 = -594;
    pub const IOS5: i32 = -595;
    pub const IOS4: i32 = -596;
    pub const IOS3: i32 = -597;
    pub const IOS2: i32 = -598;
    pub const IOS1: i32 = -599;
    pub const IOS_UNKNOWN: i32 = -600;
    pub const WEB: i32 = -700;
    pub const UNKNOWN: i32 = -1;
}

impl PartialEq<i32> for EOSType {
    fn eq(&self, other: &i32) -> (r: bool)
        ensures
            r == (self.0 == *other),
    {
        self.0 == *other
    }
}

impl vstd::std_specs::cmp::PartialEqSpecImpl<i32> for EOSType {
    open spec fn obeys_eq_spec() -> bool {
        true
    }

    open spec fn eq_spec(&self, other: &i32) -> bool {
        self.0 == *other
    }
}

impl PartialEq<EOSType> for i32 {
    fn eq(&self, other: &EOSType) -> (r: bool)
        ensures
            r == (*self == other.0),
    {
        *self == other.0
    }
}

impl vstd::std_specs::cmp::PartialEqSpecImpl<EOSType> for i32 {
    open spec fn obeys_eq_spec() -> bool {
        true
    }

    open spec fn eq_spec(&self, other: &EOSType) -> bool {
        *self == other.0
    }
}

#[derive(Debug, Clone, Copy, PartialEq, Eq, Structural, PartialOrd, Ord, Hash)]
pub struct EPlatformType(pub i32);

impl EPlatformType {
    pub const LINUX32: i32 = 6;
    pub const PS3: i32 = 5;
    pub const OSX: i32 = 4;
    pub const LINUX64: i32 = 3;
    pub const WIN64: i32 = 2;
    pub const WIN32: i32 = 1;
    pub const UNKNOWN: i32 = 0;
}

impl PartialEq<i32> for EPlatformType {
    fn eq(&self, other: &i32) -> (r: bool)
        ensures
            r == (self.0 == *other),
    {
        self.0 == *other
    }
}

impl vstd::std_specs::cmp::PartialEqSpecImpl<i32> for EPlatformType {
    open spec fn obeys_eq_spec() -> bool {
        true
    }

    open spec fn eq_spec(&self, other: &i32) -> bool {
        self.0 == *other
    }
}

impl PartialEq<EPlatformType> for i32 {
    fn eq(&self, other: &EPlatformType) -> (r: bool)
        ensures
            r == (*self == other.0),
    {
        *self == other.0
    }
}

impl vstd::std_specs::cmp::PartialEqSpecImpl<EPlatformType> for i32 {
    open spec fn obeys_eq_spec() -> bool {
        true
    }

    open spec fn eq_spec(&self, other: &EPlatformType) -> bool {
        *self == other.0
    }
}

#[derive(Debug, Clone, Copy, PartialEq, Eq, Structural, PartialOrd, Ord, Hash)]
pub struct EContentDownloadSourceType(pub i32);

impl EContentDownloadSourceType {
    pub const LAN_CACHE: i32 = 9;
    pub const OPEN_CACHE: i32 = 8;
    pub const STEAM_CACHE: i32 = 7;
    pub const SLS: i32 = 6;
    pub const LAN_PEER: i32 = 5;
    pub const PROXY_CACHE: i32 = 4;
    pub const LCS: i32 = 3;
    pub const CDN: i32 = 2;
    pub const CS: i32 = 1;
    pub const INVALID: i32 = 0;
}

impl PartialEq<i32> for EContentDownloadSourceType {
    fn eq(&self, other: &i32) -> (r: bool)
        ensures
            r == (self.0 == *other),
    {
        self.0 == *other
    }
}

impl vstd::std_specs::cmp::PartialEqSpecImpl<i32> for EContentDownloadSourceType {
    open spec fn obeys_eq_spec() -> bool {
        true
    }

    open spec fn eq_spec(&self, other: &i32) -> bool {
        self.0 == *other
    }
}

impl PartialEq<EContentDownloadSourceType> for i32 {
    fn eq(&self, other: &EContentDownloadSourceType) -> (r: bool)
        ensures
            r == (*self == other.0),
    {
        *self == other.0
    }
}

impl vstd::std_specs::cmp::PartialEqSpecImpl<EContentDownloadSourceType> for i32 {
    open spec fn obeys_eq_spec() -> bool {
        true
    }

    open spec fn eq_spec(&self, other: &EContentDownloadSourceType) -> bool {
        *self == other.0
    }
}

#[derive(Debug, Clone, Copy, PartialEq, Eq, Structural, PartialOrd, Ord, Hash)]
pub struct EAppInfoSection(pub i32);

impl EAppInfoSection {
    pub const ALBUMMETADATA: i32 = 20;
    pub const COMPUTED: i32 = 19;
    pub const BROADCASTGAMEDATA: i32 = 18;
    pub const LOCALIZATION: i32 = 17;
    pub const STORE: i32 = 16;
    pub const COMMUNITY: i32 = 15;
    pub const SYS_REQS: i32 = 14;
    pub const POLICIES: i32 = 13;
    pub const OGG: i32 = 11;
    pub const UFS: i32 = 10;
    pub const DEPOTS: i32 = 7;
    pub const INSTALL: i32 = 6;
    pub const STATS: i32 = 5;
    pub const CONFIG: i32 = 4;
    pub const EXTENDED: i32 = 3;
    pub const COMMON: i32 = 2;
    pub const FIRST: i32 = 2;
    pub const ALL: i32 = 1;
    pub const UNKNOWN: i32 = 0;
}

impl PartialEq<i32> for EAppInfoSection {
    fn eq(&self, other: &i32) -> (r: bool)
        ensures
            r == (self.0 == *other),
    {
        self.0 == *other
    }
}

impl vstd::std_specs::cmp::PartialEqSpecImpl<i32> for EAppInfoSection {
    open spec fn obeys_eq_spec() -> bool {
        true
    }

    open spec fn eq_spec(&self, other: &i32) -> bool {
        self.0 == *other
    }
}

impl PartialEq<EAppInfoSection> for i32 {
    fn eq(&self, other: &EAppInfoSection) -> (r: bool)
        ensures
            r == (*self == other.0),
    {
        *self == other.0
    }
}

impl vstd::std_specs::cmp::PartialEqSpecImpl<EAppInfoSection> for i32 {
    open spec fn obeys_eq_spec() -> bool {
        true
    }

    open spec fn eq_spec(&self, other: &EAppInfoSection) -> bool {
        *self == other.0
    }
}

#[derive(Debug, Clone, Copy, PartialEq, Eq, Structural, PartialOrd, Ord, Hash)]
pub struct EChatActionResult(pub i32);

impl EChatActionResult {
    pub const VOICE_SLOTS_FULL: i32 = 10;
    pub const CHAT_FULL: i32 = 9;
    pub const CHAT_DOESNT_EXIST: i32 = 8;
    pub const NOT_ALLOWED_ON_SELF: i32 = 7;
    pub const NOT_ALLOWED_ON_CHAT_OWNER: i32 = 6;
    pub const NOT_ALLOWED_ON_BANNED_USER: i32 = 5;
    pub const NOT_ALLOWED_ON_CLAN_MEMBER: i32 = 4;
    pub const NOT_PERMITTED: i32 = 3;
    pub const ERROR: i32 = 2;
    pub const SUCCESS: i32 = 1;
}

impl PartialEq<i32> for EChatActionResult {
    fn eq(&self, other: &i32) -> (r: bool)
        ensures
            r == (self.0 == *other),
    {
        self.0 == *other
    }
}

impl vstd::std_specs::cmp::PartialEqSpecImpl<i32> for EChatActionResult {
    open spec fn obeys_eq_spec() -> bool {
        true
    }

    open spec fn eq_spec(&self, other: &i32) -> bool {
        self.0 == *other
    }
}

impl PartialEq<EChatActionResult> for i32 {
    fn eq(&self, other: &EChatActionResult) -> (r: bool)
        ensures
            r == (*self == other.0),
    {
        *self == other.0
    }
}

impl vstd::std_specs::cmp::PartialEqSpecImpl<EChatActionResult> for i32 {
    open spec fn obeys_eq_spec() -> bool {
        true
    }

    open spec fn eq_spec(&self, other: &EChatActionResult) -> bool {
        *self == other.0
    }
}

#[derive(Debug, Clone, Copy, PartialEq, Eq, Structural, PartialOrd, Ord, Hash)]
pub struct EChatAction(pub i32);

impl EChatAction {
    pub const SET_UNMODERATED: i32 = 16;
    pub const SET_MODERATED: i32 = 15;
    pub const SET_VISIBLE_TO_FRIENDS: i32 = 14;
    pub const SET_INVISIBLE_TO_FRIENDS: i32 = 13;
    pub const SET_OWNER: i32 = 12;
    pub const SET_UNJOINABLE: i32 = 11;
    pub const SET_JOINABLE: i32 = 10;
    pub const CLOSE_CHAT: i32 = 9;
    pub const UNLOCK_CHAT: i32 = 8;
    pub const LOCK_CHAT: i32 = 7;
    pub const END_VOICE_SPEAK: i32 = 6;
    pub const START_VOICE_SPEAK: i32 = 5;
    pub const UN_BAN: i32 = 4;
    pub const BAN: i32 = 3;
    pub const KICK: i32 = 2;
    pub const INVITE_CHAT: i32 = 1;
}

impl PartialEq<i32> for EChatAction {
    fn eq(&self, other: &i32) -> (r: bool)
        ensures
            r == (self.0 == *other),
    {
        self.0 == *other
    }
}

impl vstd::std_specs::cmp::PartialEqSpecImpl<i32> for EChatAction {
    open spec fn obeys_eq_spec() -> bool {
        true
    }

    open spec fn eq_spec(&self, other: &i32) -> bool {
        self.0 == *other
    }
}

impl PartialEq<EChatAction> for i32 {
    fn eq(&self, other: &EChatAction) -> (r: bool)
        ensures
            r == (*self == other.0),
    {
        *self == other.0
    }
}

impl vstd::std_specs::cmp::PartialEqSpecImpl<EChatAction> for i32 {
    open spec fn obeys_eq_spec() -> bool {
        true
    }

    open spec fn eq_spec(&self, other: &EChatAction) -> bool {
        *self == other.0
    }
}

#[derive(Debug, Clone, Copy, PartialEq, Eq, Structural, PartialOrd, Ord, Hash)]
pub struct EChatInfoType(pub i32);

impl EChatInfoType {
    pub const MEMBER_LIMIT_CHANGE: i32 = 3;
    pub const INFO_UPDATE: i32 = 2;
    pub const STATE_CHANGE: i32 = 1;
}

impl PartialEq<i32> for EChatInfoType {
    fn eq(&self, other: &i32) -> (r: bool)
        ensures
            r == (self.0 == *other),
    {
        self.0 == *other
    }
}

impl vstd::std_specs::cmp::PartialEqSpecImpl<i32> for EChatInfoType {
    open spec fn obeys_eq_spec() -> bool {
        true
    }

    open spec fn eq_spec(&self, other: &i32) -> bool {
        self.0 == *other
    }
}

impl PartialEq<EChatInfoType> for i32 {
    fn eq(&self, other: &EChatInfoType) -> (r: bool)
        ensures
            r == (*self == other.0),
    {
        *self == other.0
    }
}

impl vstd::std_specs::cmp::PartialEqSpecImpl<EChatInfoType> for i32 {
    open spec fn obeys_eq_spec() -> bool {
        true
    }

    open spec fn eq_spec(&self, other: &EChatInfoType) -> bool {
        *self == other.0
    }
}

#[derive(Debug, Clone, Copy, PartialEq, Eq, Structural, PartialOrd, Ord, Hash)]
pub struct EChatRoomType(pub i32);

impl EChatRoomType {
    pub const LOBBY: i32 = 3;
    pub const MUC: i32 = 2;
    pub const FRIEND: i32 = 1;
}

impl PartialEq<i32> for EChatRoomType {
    fn eq(&self, other: &i32) -> (r: bool)
        ensures
            r == (self.0 == *other),
    {
        self.0 == *other
    }
}

impl vstd::std_specs::cmp::PartialEqSpecImpl<i32> for EChatRoomType {
    open spec fn obeys_eq_spec() -> bool {
        true
    }

    open spec fn eq_spec(&self, other: &i32) -> bool {
        self.0 == *other
    }
}

impl PartialEq<EChatRoomType> for i32 {
    fn eq(&self, other: &EChatRoomType) -> (r: bool)
        ensures
            r == (*self == other.0),
    {
        *self == other.0
    }
}

impl vstd::std_specs::cmp::PartialEqSpecImpl<EChatRoomType> for i32 {
    open spec fn obeys_eq_spec() -> bool {
        true
    }

    open spec fn eq_spec(&self, other: &EChatRoomType) -> bool {
        *self == other.0
    }
}

#[derive(Debug, Clone, Copy, PartialEq, Eq, Structural, PartialOrd, Ord, Hash)]
pub struct EChatRoomEnterResponse(pub i32);

impl EChatRoomEnterResponse {
    pub const YOU_BLOCKED_MEMBER: i32 = 11;
    pub const MEMBER_BLOCKED_YOU: i32 = 10;
    pub const COMMUNITY_BAN: i32 = 9;
    pub const CLAN_DISABLED: i32 = 8;
    pub const LIMITED: i32 = 7;
    pub const BANNED: i32 = 6;
    pub const ERROR: i32 = 5;
    pub const FULL: i32 = 4;
    pub const NOT_ALLOWED: i32 = 3;
    pub const DOESNT_EXIST: i32 = 2;
    pub const SUCCESS: i32 = 1;
}

impl PartialEq<i32> for EChatRoomEnterResponse {
    fn eq(&self, other: &i32) -> (r: bool)
        ensures
            r == (self.0 == *other),
    {
        self.0 == *other
    }
}

impl vstd::std_specs::cmp::PartialEqSpecImpl<i32> for EChatRoomEnterResponse {
    open spec fn obeys_eq_spec() -> bool {
        true
    }

    open spec fn eq_spec(&self, other: &i32) -> bool {
        self.0 == *other
    }
}

impl PartialEq<EChatRoomEnterResponse> for i32 {
    fn eq(&self, other: &EChatRoomEnterResponse) -> (r: bool)
        ensures
            r == (*self == other.0),
    {
        *self == other.0
    }
}

impl vstd::std_specs::cmp::PartialEqSpecImpl<EChatRoomEnterResponse> for i32 {
    open spec fn obeys_eq_spec() -> bool {
        true
    }

    open spec fn eq_spec(&self, other: &EChatRoomEnterResponse) -> bool {
        *self == other.0
    }
}

#[derive(Debug, Clone, Copy, PartialEq, Eq, Structural, PartialOrd, Ord, Hash)]
pub struct EAuthSessionResponse(pub i32);

impl EAuthSessionResponse {
    pub const PUBLISHER_ISSUED_BAN: i32 = 9;
    pub const AUTH_TICKET_INVALID: i32 = 8;
    pub const AUTH_TICKET_INVALID_ALREADY_USED: i32 = 7;
    pub const AUTH_TICKET_CANCELED: i32 = 6;
    pub const VAC_CHECK_TIMED_OUT: i32 = 5;
    pub const LOGGED_IN_ELSE_WHERE: i32 = 4;
    pub const VAC_BANNED: i32 = 3;
    pub const NO_LICENSE_OR_EXPIRED: i32 = 2;
    pub const USER_NOT_CONNECTED_TO_STEAM: i32 = 1;
    pub const OK: i32 = 0;
}

impl PartialEq<i32> for EAuthSessionResponse {
    fn eq(&self, other: &i32) -> (r: bool)
        ensures
            r == (self.0 == *other),
    {
        self.0 == *other
    }
}

impl vstd::std_specs::cmp::PartialEqSpecImpl<i32> for EAuthSessionResponse {
    open spec fn obeys_eq_spec() -> bool {
        true
    }

    open spec fn eq_spec(&self, other: &i32) -> bool {
        self.0 == *other
    }
}

impl PartialEq<EAuthSessionResponse> for i32 {
    fn eq(&self, other: &EAuthSessionResponse) -> (r: bool)
        ensures
            r == (*self == other.0),
    {
        *self == other.0
    }
}

impl vstd::std_specs::cmp::PartialEqSpecImpl<EAuthSessionResponse> for i32 {
    open spec fn obeys_eq_spec() -> bool {
        true
    }

    open spec fn eq_spec(&self, other: &EAuthSessionResponse) -> bool {
        *self == other.0
    }
}

#[derive(Debug, Clone, Copy, PartialEq, Eq, Structural, PartialOrd, Ord, Hash)]
pub struct EClanRelationship(pub i32);

impl EClanRelationship {
    pub const REQUEST_DENIED: i32 = 7;
    pub const PENDING_APPROVAL: i32 = 6;
    pub const KICK_ACKNOWLEDGED: i32 = 5;
    pub const KICKED: i32 = 4;
    pub const MEMBER: i32 = 3;
    pub const INVITED: i32 = 2;
    pub const BLOCKED: i32 = 1;
    pub const NONE: i32 = 0;
}

impl PartialEq<i32> for EClanRelationship {
    fn eq(&self, other: &i32) -> (r: bool)
        ensures
            r == (self.0 == *other),
    {
        self.0 == *other
    }
}

impl vstd::std_specs::cmp::PartialEqSpecImpl<i32> for EClanRelationship {
    open spec fn obeys_eq_spec() -> bool {
        true
    }

    open spec fn eq_spec(&self, other: &i32) -> bool {
        self.0 == *other
    }
}

impl PartialEq<EClanRelationship> for i32 {
    fn eq(&self, other: &EClanRelationship) -> (r: bool)
        ensures
            r == (*self == other.0),
    {
        *self == other.0
    }
}

impl vstd::std_specs::cmp::PartialEqSpecImpl<EClanRelationship> for i32 {
    open spec fn obeys_eq_spec() -> bool {
        true
    }

    open spec fn eq_spec(&self, other: &EClanRelationship) -> bool {
        *self == other.0
    }
}

#[derive(Debug, Clone, Copy, PartialEq, Eq, Structural, PartialOrd, Ord, Hash)]
pub struct EClanRank(pub i32);

impl EClanRank {
    pub const MODERATOR: i32 = 4;
    pub const MEMBER: i32 = 3;
    pub const OFFICER: i32 = 2;
    pub const OWNER: i32 = 1;
    pub const NONE: i32 = 0;
}

impl PartialEq<i32> for EClanRank {
    fn eq(&self, other: &i32) -> (r: bool)
        ensures
            r == (self.0 == *other),
    {
        self.0 == *other
    }
}

impl vstd::std_specs::cmp::PartialEqSpecImpl<i32> for EClanRank {
    open spec fn obeys_eq_spec() -> bool {
        true
    }

    open spec fn eq_spec(&self, other: &i32) -> bool {
        self.0 == *other
    }
}

impl PartialEq<EClanRank> for i32 {
    fn eq(&self, other: &EClanRank) -> (r: bool)
        ensures
            r == (*self == other.0),
    {
        *self == other.0
    }
}

impl vstd::std_specs::cmp::PartialEqSpecImpl<EClanRank> for i32 {
    open spec fn obeys_eq_spec() -> bool {
        true
    }

    open spec fn eq_spec(&self, other: &EClanRank) -> bool {
        *self == other.0
    }
}

#[derive(Debug, Clone, Copy, PartialEq, Eq, Structural, PartialOrd, Ord, Hash)]
pub struct EDenyReason(pub i32);

impl EDenyReason {
    pub const STEAM_OWNER_LEFT_GUEST_USER: i32 = 15;
    pub const STEAM_VALIDATION_STALLED: i32 = 14;
    pub const STEAM_RESPONSE_TIMED_OUT: i32 = 13;
    pub const STEAM_CONNECTION_ERROR: i32 = 12;
    pub const STEAM_CONNECTION_LOST: i32 = 11;
    pub const INCOMPATIBLE_SOFTWARE: i32 = 10;
    pub const MEMORY_CORRUPTION: i32 = 9;
    pub const INCOMPATIBLE_ANTICHEAT: i32 = 8;
    pub const UNKNOWN_TEXT: i32 = 7;
    pub const LOGGED_IN_ELSE_WHERE: i32 = 6;
    pub const CHEATER: i32 = 5;
    pub const NO_LICENSE: i32 = 4;
    pub const NOT_LOGGED_ON: i32 = 3;
    pub const GENERIC: i32 = 2;
    pub const INVALID_VERSION: i32 = 1;
}

impl PartialEq<i32> for EDenyReason {
    fn eq(&self, other: &i32) -> (r: bool)
        ensures
            r == (self.0 == *other),
    {
        self.0 == *other
    }
}

impl vstd::std_specs::cmp::PartialEqSpecImpl<i32> for EDenyReason {
    open spec fn obeys_eq_spec() -> bool {
        true
    }

    open spec fn eq_spec(&self, other: &i32) -> bool {
        self.0 == *other
    }
}

impl PartialEq<EDenyReason> for i32 {
    fn eq(&self, other: &EDenyReason) -> (r: bool)
        ensures
            r == (*self == other.0),
    {
        *self == other.0
    }
}

impl vstd::std_specs::cmp::PartialEqSpecImpl<EDenyReason> for i32 {
    open spec fn obeys_eq_spec() -> bool {
        true
    }

    open spec fn eq_spec(&self, other: &EDenyReason) -> bool {
        *self == other.0
    }
}

#[derive(Debug, Clone, Copy, PartialEq, Eq, Structural, PartialOrd, Ord, Hash)]
pub struct EServerFlags(pub i32);

impl EServerFlags {
    pub const PRIVATE: i32 = 32;
    pub const PASSWORDED: i32 = 16;
    pub const LINUX: i32 = 8;
    pub const DEDICATED: i32 = 4;
    pub const SECURE: i32 = 2;
    pub const ACTIVE: i32 = 1;
    pub const NONE: i32 = 0;
}

impl PartialEq<i32> for EServerFlags {
    fn eq(&self, other: &i32) -> (r: bool)
        ensures
            r == (self.0 == *other),
    {
        self.0 == *other
    }
}

impl vstd::std_specs::cmp::PartialEqSpecImpl<i32> for EServerFlags {
    open spec fn obeys_eq_spec() -> bool {
        true
    }

    open spec fn eq_spec(&self, other: &i32) -> bool {
        self.0 == *other
    }
}

impl PartialEq<EServerFlags> for i32 {
    fn eq(&self, other: &EServerFlags) -> (r: bool)
        ensures
            r == (*self == other.0),
    {
        *self == other.0
    }
}

impl vstd::std_specs::cmp::PartialEqSpecImpl<EServerFlags> for i32 {
    open spec fn obeys_eq_spec() -> bool {
        true
    }

    open spec fn eq_spec(&self, other: &EServerFlags) -> bool {
        *self == other.0
    }
}

impl std::ops::BitOr for EServerFlags {
    type Output = Self;

    fn bitor(self, rhs: Self) -> (r: Self::Output)
        ensures
            r.0 == self.0 | rhs.0,
    {
        Self(self.0 | rhs.0)
    }
}

impl vstd::std_specs::ops::BitOrSpecImpl for EServerFlags {
    open spec fn obeys_bitor_spec() -> bool {
        true
    }

    open spec fn bitor_req(self, rhs: Self) -> bool {
        true
    }

    open spec fn bitor_spec(self, rhs: Self) -> Self {
        EServerFlags(self.0 | rhs.0)
    }
}

#[derive(Debug, Clone, Copy, PartialEq, Eq, Structural, PartialOrd, Ord, Hash)]
pub struct EIntroducerRouting(pub i32);

impl EIntroducerRouting {
    pub const P2P_NETWORKING: i32 = 2;
    pub const P2P_VOICE_CHAT: i32 = 1;
}

impl PartialEq<i32> for EIntroducerRouting {
    fn eq(&self, other: &i32) -> (r: bool)
        ensures
            r == (self.0 == *other),
    {
        self.0 == *other
    }
}

impl vstd::std_specs::cmp::PartialEqSpecImpl<i32> for EIntroducerRouting {
    open spec fn obeys_eq_spec() -> bool {
        true
    }

    open spec fn eq_spec(&self, other: &i32) -> bool {
        self.0 == *other
    }
}

impl PartialEq<EIntroducerRouting> for i32 {
    fn eq(&self, other: &EIntroducerRouting) -> (r: bool)
        ensures
            r == (*self == other.0),
    {
        *self == other.0
    }
}

impl vstd::std_specs::cmp::PartialEqSpecImpl<EIntroducerRouting> for i32 {
    open spec fn obeys_eq_spec() -> bool {
        true
    }

    open spec fn eq_spec(&self, other: &EIntroducerRouting) -> bool {
        *self == other.0
    }
}

#[derive(Debug, Clone, Copy, PartialEq, Eq, Structural, PartialOrd, Ord, Hash)]
pub struct EPurchaseResultDetail(pub i32);

impl EPurchaseResultDetail {
    pub const PAYMENT_METHOD_NOT_SUPPORTED_FOR_PRODUCT: i32 = 83;
    pub const PAYMENT_METHOD_TEMPORARILY_UNAVAILABLE: i32 = 82;
    pub const BILLING_NAME_INVALID_RESEMBLES_CREDIT_CARD: i32 = 81;
    pub const CANNOT_SHIP_TO_MILITARY_POST_OFFICE: i32 = 80;
    pub const CREDIT_CARD_NUMBER_INVALID: i32 = 79;
    pub const ADDRESS_INVALID: i32 = 78;
    pub const USER_NOT_ASSOCIATED_WITH_CAFE: i32 = 77;
    pub const USER_ASSOCIATED_WITH_MANY_CAFES: i32 = 76;
    pub const BUSINESS_STORE_COUNTRY_CODE_MISMATCH: i32 = 75;
    pub const ITEMS_NOT_ALLOWED_FOR_COMMERCIAL_USE: i32 = 74;
    pub const GIFT_RECIPIENT_NOT_SPECIFIED: i32 = 73;
    pub const GIFT_PRICING_IMBALANCE: i32 = 72;
    pub const GIFT_INVALID_FOR_RECIPIENT_REGION: i32 = 71;
    pub const GIFT_ALREADY_OWNED: i32 = 70;
    pub const ITEMS_RESERVED_FOR_COMMERCIAL_USE: i32 = 69;
    pub const BLOCKED_BY_US_GOV: i32 = 68;
    pub const BUNDLE_TYPE_CANNOT_BE_GIFTED: i32 = 67;
    pub const DELAYED_COMPLETION: i32 = 66;
    pub const PURCHASE_CANNOT_BE_REPLAYED: i32 = 65;
    pub const PHYSICAL_PRODUCT_LIMIT_EXCEEDED: i32 = 64;
    pub const INVALID_TAX_ADDRESS: i32 = 63;
    pub const UNKNOWN_GLOBAL_COLLECT_ERROR: i32 = 62;
    pub const PAYPAL_INTERNAL_ERROR: i32 = 61;
    pub const HUNG_TRANSACTION_CANCELLED: i32 = 60;
    pub const CANNOT_SHIP_TO_COUNTRY: i32 = 59;
    pub const POSA_CODE_NOT_ACTIVATED: i32 = 58;
    pub const BILLING_AGREEMENT_ALREADY_EXISTS: i32 = 57;
    pub const CART_VALUE_TOO_HIGH: i32 = 56;
    pub const CREDIT_CARD_BIN_MISMATCHES_TYPE: i32 = 55;
    pub const OWNS_EXCLUDED_APP: i32 = 54;
    pub const RATE_LIMITED: i32 = 53;
    pub const OVERLAPPING_PACKAGES_IN_PENDING_TRANSACTION: i32 = 52;
    pub const PURCHASE_AMOUNT_NO_SUPPORTED_BY_PROVIDER: i32 = 51;
    pub const CANNOT_REDEEM_CODE_FROM_CLIENT: i32 = 50;
    pub const NO_CACHED_PAYMENT_METHOD: i32 = 49;
    pub const NO_WALLET: i32 = 48;
    pub const OVERLAPPING_PACKAGES_IN_CART: i32 = 47;
    pub const EXCEEDED_STEAM_LIMIT: i32 = 46;
    pub const OTHER_ABORTABLE_IN_PROGRESS: i32 = 45;
    pub const ACCOUNT_LOCKED: i32 = 44;
    pub const EXPIRED_COUPON: i32 = 43;
    pub const INVALID_COUPON: i32 = 42;
    pub const BILLING_AGREEMENT_CANCELLED: i32 = 41;
    pub const CANNOT_SHIP_INTERNATIONALLY: i32 = 40;
    pub const CANNOT_GIFT_SHIPPED_GOODS: i32 = 39;
    pub const INSUFFICIENT_INVENTORY: i32 = 38;
    pub const CANNOT_SHIP_TO_PO_BOX: i32 = 37;
    pub const MUST_LOGIN_PS3_APP_FOR_PURCHASE: i32 = 36;
    pub const WOULD_EXCEED_MAX_WALLET: i32 = 35;
    pub const TRANSACTION_EXPIRED: i32 = 34;
    pub const EXPIRED_CARD: i32 = 33;
    pub const EMAIL_NOT_VALIDATED: i32 = 32;
    pub const WALLET_CURRENCY_MISMATCH: i32 = 31;
    pub const PRE_APPROVAL_DENIED: i32 = 30;
    pub const NEEDS_PRE_APPROVAL: i32 = 29;
    pub const FAILED_CYBER_CAFE: i32 = 28;
    pub const FAIL_CURRENCY_TRANS_PROVIDER: i32 = 27;
    pub const FORCE_CANCELED_PENDING: i32 = 26;
    pub const CANCELED_BY_NEW_TRANSACTION: i32 = 25;
    pub const DOES_NOT_OWN_REQUIRED_APP: i32 = 24;
    pub const STORE_BILLING_COUNTRY_MISMATCH: i32 = 23;
    pub const INVALID_ACCOUNT: i32 = 22;
    pub const ACCT_NOT_VERIFIED: i32 = 21;
    pub const ACCT_IS_BLOCKED: i32 = 20;
    pub const REGION_NOT_SUPPORTED: i32 = 19;
    pub const INVALID_SHIPPING_ADDRESS: i32 = 18;
    pub const USE_OTHER_FUNCTION_SOURCE: i32 = 17;
    pub const USE_OTHER_PAYMENT_METHOD: i32 = 16;
    pub const DUPLICATE_ACTIVATION_CODE: i32 = 15;
    pub const BAD_ACTIVATION_CODE: i32 = 14;
    pub const RESTRICTED_COUNTRY: i32 = 13;
    pub const CANCELLED_BY_USER: i32 = 12;
    pub const FRAUD_CHECK_FAILED: i32 = 11;
    pub const WRONG_PRICE: i32 = 10;
    pub const ALREADY_PURCHASED: i32 = 9;
    pub const OTHERS_IN_PROGRESS: i32 = 8;
    pub const INVALID_DATA: i32 = 7;
    pub const INVALID_PAYMENT_METHOD: i32 = 6;
    pub const INVALID_PACKAGE: i32 = 5;
    pub const TIMEOUT: i32 = 4;
    pub const CONTACT_SUPPORT: i32 = 3;
    pub const INSUFFICIENT_FUNDS: i32 = 2;
    pub const AVS_FAILURE: i32 = 1;
    pub const NO_DETAIL: i32 = 0;
}

impl PartialEq<i32> for EPurchaseResultDetail {
    fn eq(&self, other: &i32) -> (r: bool)
        ensures
            r == (self.0 == *other),
    {
        self.0 == *other
    }
}

impl vstd::std_specs::cmp::PartialEqSpecImpl<i32> for EPurchaseResultDetail {
    open spec fn obeys_eq_spec() -> bool {
        true
    }

    open spec fn eq_spec(&self, other: &i32) -> bool {
        self.0 == *other
    }
}

impl PartialEq<EPurchaseResultDetail> for i32 {
    fn eq(&self, other: &EPurchaseResultDetail) -> (r: bool)
        ensures
            r == (*self == other.0),
    {
        *self == other.0
    }
}

impl vstd::std_specs::cmp::PartialEqSpecImpl<EPurchaseResultDetail> for i32 {
    open spec fn obeys_eq_spec() -> bool {
        true
    }

    open spec fn eq_spec(&self, other: &EPurchaseResultDetail) -> bool {
        *self == other.0
    }
}

#[derive(Debug, Clone, Copy, PartialEq, Eq, Structural, PartialOrd, Ord, Hash)]
pub struct EPaymentMethod(pub i32);

impl EPaymentMethod {
    pub const COMPLIMENTARY: i32 = 1024;
    pub const SPLIT: i32 = 512;
    pub const OEM_TICKET: i32 = 256;
    pub const MOBILE_WALLET_JAPAN: i32 = 136;
    pub const PAYCO: i32 = 135;
    pub const MASTER_SUBSCRIPTION: i32 = 134;
    pub const PROMOTIONAL: i32 = 131;
    pub const MASTER_COMP: i32 = 130;
    pub const VALVE: i32 = 129;
    pub const WALLET: i32 = 128;
    pub const BIT_COIN: i32 = 79;
    pub const UNION_PAY: i32 = 78;
    pub const TRUSTLY: i32 = 77;
    pub const PAGO_EFECTIVO: i32 = 76;
    pub const SAFETY_PAY: i32 = 75;
    pub const BBVA_CONTINENTAL: i32 = 74;
    pub const BANCO_CREDITO_DE_PERU: i32 = 73;
    pub const MANGIR_KART: i32 = 72;
    pub const PIN_VALIDDA: i32 = 71;
    pub const PALOTO: i32 = 70;
    pub const EFECTY: i32 = 69;
    pub const EXITO: i32 = 68;
    pub const PSE: i32 = 67;
    pub const ONE_CARD: i32 = 66;
    pub const WEB_MONEY_JAPAN: i32 = 65;
    pub const AUTO_GRANT: i32 = 64;
    pub const CASH_U: i32 = 62;
    pub const PTT: i32 = 61;
    pub const DENIZ_BANK: i32 = 60;
    pub const FINANSBANK: i32 = 59;
    pub const BANK_ASYA: i32 = 58;
    pub const HALKBANK: i32 = 57;
    pub const YAPI_KREDI: i32 = 56;
    pub const AKBANK: i32 = 55;
    pub const GARANTI: i32 = 54;
    pub const IS_BANK: i32 = 53;
    pub const THREE_PAY: i32 = 52;
    pub const SPEI: i32 = 51;
    pub const CARNET: i32 = 50;
    pub const TODITO_CASH: i32 = 49;
    pub const OXXO: i32 = 48;
    pub const MAESTRO_BOA_COMPRA: i32 = 47;
    pub const PAYSHOP: i32 = 46;
    pub const MULTIBANCO: i32 = 45;
    pub const GAME_VOUCHER: i32 = 44;
    pub const CONVENIENT_STORE_VOUCHER: i32 = 43;
    pub const HAPPYMONEY_VOUCHER: i32 = 42;
    pub const BOOK_VOUCHER: i32 = 41;
    pub const CULTURE_VOUCHER: i32 = 40;
    pub const ZONG: i32 = 39;
    pub const PAY_EASY: i32 = 38;
    pub const BANK_TRANSFER_JAPAN: i32 = 37;
    pub const CREDIT_CARD_JAPAN: i32 = 36;
    pub const E_CLUB_POINTS: i32 = 35;
    pub const KONBINI: i32 = 34;
    pub const BEELINE: i32 = 33;
    pub const CLICK_AND_BUY: i32 = 32;
    pub const MOL_POINTS: i32 = 31;
    pub const AUTHORIZED_DEVICE: i32 = 30;
    pub const DINERS_CARD_BRAZIL: i32 = 29;
    pub const MASTERCARD_BRAZIL: i32 = 28;
    pub const HIPERCARD: i32 = 27;
    pub const AURA: i32 = 26;
    pub const AMEX_BRAZIL: i32 = 25;
    pub const VISA_BRAZIL: i32 = 24;
    pub const PAGSEGURO: i32 = 23;
    pub const BRADESCO_ONLINE: i32 = 22;
    pub const ITAU_ONLINE: i32 = 21;
    pub const BANCO_DO_BRASIL_ONLINE: i32 = 20;
    pub const BOA_COMPRA_GOLD: i32 = 19;
    pub const BOLETO_BANCARIO: i32 = 18;
    pub const MO_PAY: i32 = 17;
    pub const HARDWARE_PROMO: i32 = 16;
    pub const GAME_STOP: i32 = 15;
    pub const QIWI: i32 = 14;
    pub const KIOSK: i32 = 13;
    pub const YANDEX: i32 = 12;
    pub const ALI_PAY: i32 = 11;
    pub const MONEY_BOOKERS: i32 = 10;
    pub const WEB_MONEY: i32 = 9;
    pub const GUEST_PASS: i32 = 8;
    pub const SOFORT: i32 = 7;
    pub const PAY_SAFE_CARD: i32 = 6;
    pub const IDEAL: i32 = 5;
    pub const PAY_PAL: i32 = 4;
    pub const GIROPAY: i32 = 3;
    pub const CREDIT_CARD: i32 = 2;
    pub const ACTIVATION_CODE: i32 = 1;
    pub const NONE: i32 = 0;
}

impl PartialEq<i32> for EPaymentMethod {
    fn eq(&self, other: &i32) -> (r: bool)
        ensures
            r == (self.0 == *other),
    {
        self.0 == *other
    }
}

impl vstd::std_specs::cmp::PartialEqSpecImpl<i32> for EPaymentMethod {
    open spec fn obeys_eq_spec() -> bool {
        true
    }

    open spec fn eq_spec(&self, other: &i32) -> bool {
        self.0 == *other
    }
}

impl PartialEq<EPaymentMethod> for i32 {
    fn eq(&self, other: &EPaymentMethod) -> (r: bool)
        ensures
            r == (*self == other.0),
    {
        *self == other.0
    }
}

impl vstd::std_specs::cmp::PartialEqSpecImpl<EPaymentMethod> for i32 {
    open spec fn obeys_eq_spec() -> bool {
        true
    }

    open spec fn eq_spec(&self, other: &EPaymentMethod) -> bool {
        *self == other.0
    }
}

#[derive(Debug, Clone, Copy, PartialEq, Eq, Structural, PartialOrd, Ord, Hash)]
pub struct ELicenseType(pub i32);

impl ELicenseType {
    pub const LIMITED_USE_DELAYED_ACTIVATION: i32 = 7;
    pub const RECURRING_OPTION: i32 = 6;
    pub const RECURRING_CHARGE_LIMITED_USE_WITH_OVERAGES: i32 = 5;
    pub const RECURRING_CHARGE_LIMITED_USE: i32 = 4;
    pub const RECURRING_CHARGE: i32 = 3;
    pub const SINGLE_PURCHASE_LIMITED_USE: i32 = 2;
    pub const SINGLE_PURCHASE: i32 = 1;
    pub const NO_LICENSE: i32 = 0;
}

impl PartialEq<i32> for ELicenseType {
    fn eq(&self, other: &i32) -> (r: bool)
        ensures
            r == (self.0 == *other),
    {
        self.0 == *other
    }
}

impl vstd::std_specs::cmp::PartialEqSpecImpl<i32> for ELicenseType {
    open spec fn obeys_eq_spec() -> bool {
        true
    }

    open spec fn eq_spec(&self, other: &i32) -> bool {
        self.0 == *other
    }
}

impl PartialEq<ELicenseType> for i32 {
    fn eq(&self, other: &ELicenseType) -> (r: bool)
        ensures
            r == (*self == other.0),
    {
        *self == other.0
    }
}

impl vstd::std_specs::cmp::PartialEqSpecImpl<ELicenseType> for i32 {
    open spec fn obeys_eq_spec() -> bool {
        true
    }

    open spec fn eq_spec(&self, other: &ELicenseType) -> bool {
        *self == other.0
    }
}

#[derive(Debug, Clone, Copy, PartialEq, Eq, Structural, PartialOrd, Ord, Hash)]
pub struct ELicenseFlags(pub i32);

impl ELicenseFlags {
    pub const NOT_ACTIVATED: i32 = 2048;
    pub const CANCELLED_BY_FRIENDLY_FRAUD_LOCK: i32 = 1024;
    pub const REGION_RESTRICTION_EXPIRED: i32 = 512;
    pub const FORCE_RUN_RESTRICTION: i32 = 256;
    pub const IMPORTED_FROM_STEAM2: i32 = 128;
    pub const LOW_VIOLENCE_CONTENT: i32 = 64;
    pub const CANCELLED_BY_ADMIN: i32 = 32;
    pub const CANCELLED_BY_USER: i32 = 16;
    pub const EXPIRED: i32 = 8;
    pub const PENDING: i32 = 4;
    pub const RENEWAL_FAILED: i32 = 2;
    pub const RENEW: i32 = 1;
    pub const NONE: i32 = 0;
}

impl PartialEq<i32> for ELicenseFlags {
    fn eq(&self, other: &i32) -> (r: bool)
        ensures
            r == (self.0 == *other),
    {
        self.0 == *other
    }
}

impl vstd::std_specs::cmp::PartialEqSpecImpl<i32> for ELicenseFlags {
    open spec fn obeys_eq_spec() -> bool {
        true
    }

    open spec fn eq_spec(&self, other: &i32) -> bool {
        self.0 == *other
    }
}

impl PartialEq<ELicenseFlags> for i32 {
    fn eq(&self, other: &ELicenseFlags) -> (r: bool)
        ensures
            r == (*self == other.0),
    {
        *self == other.0
    }
}

impl vstd::std_specs::cmp::PartialEqSpecImpl<ELicenseFlags> for i32 {
    open spec fn obeys_eq_spec() -> bool {
        true
    }

    open spec fn eq_spec(&self, other: &ELicenseFlags) -> bool {
        *self == other.0
    }
}

impl std::ops::BitOr for ELicenseFlags {
    type Output = Self;

    fn bitor(self, rhs: Self) -> (r: Self::Output)
        ensures
            r.0 == self.0 | rhs.0,
    {
        Self(self.0 | rhs.0)
    }
}

impl vstd::std_specs::ops::BitOrSpecImpl for ELicenseFlags {
    open spec fn obeys_bitor_spec() -> bool {
        true
    }

    open spec fn bitor_req(self, rhs: Self) -> bool {
        true
    }

    open spec fn bitor_spec(self, rhs: Self) -> Self {
        ELicenseFlags(self.0 | rhs.0)
    }
}

#[derive(Debug, Clone, Copy, PartialEq, Eq, Structural, PartialOrd, Ord, Hash)]
pub struct EAppUsageEvent(pub i32);

impl EAppUsageEvent {
    pub const GAME_LAUNCH_FREE_WEEKEND: i32 = 8;
    pub const IN_GAME_AD_VIEWED: i32 = 7;
    pub const MARKETING_MESSAGE_VIEW: i32 = 6;
    pub const PRELOAD_FINISH: i32 = 5;
    pub const PRELOAD_START: i32 = 4;
    pub const MEDIA: i32 = 3;
    pub const GAME_LAUNCH_TRIAL: i32 = 2;
    pub const GAME_LAUNCH: i32 = 1;
}

impl PartialEq<i32> for EAppUsageEvent {
    fn eq(&self, other: &i32) -> (r: bool)
        ensures
            r == (self.0 == *other),
    {
        self.0 == *other
    }
}

impl vstd::std_specs::cmp::PartialEqSpecImpl<i32> for EAppUsageEvent {
    open spec fn obeys_eq_spec() -> bool {
        true
    }

    open spec fn eq_spec(&self, other: &i32) -> bool {
        self.0 == *other
    }
}

impl PartialEq<EAppUsageEvent> for i32 {
    fn eq(&self, other: &EAppUsageEvent) -> (r: bool)
        ensures
            r == (*self == other.0),
    {
        *self == other.0
    }
}

impl vstd::std_specs::cmp::PartialEqSpecImpl<EAppUsageEvent> for i32 {
    open spec fn obeys_eq_spec() -> bool {
        true
    }

    open spec fn eq_spec(&self, other: &EAppUsageEvent) -> bool {
        *self == other.0
    }
}

#[derive(Debug, Clone, Copy, PartialEq, Eq, Structural, PartialOrd, Ord, Hash)]
pub struct EClientPersonaStateFlag(pub i32);

impl EClientPersonaStateFlag {
    pub const WATCHING: i32 = 16384;
    pub const BROADCAST: i32 = 8192;
    pub const RICH_PRESENCE: i32 = 4096;
    pub const FACEBOOK: i32 = 2048;
    pub const CLAN_DATA: i32 = 1024;
    pub const CLAN_TAG: i32 = 1024;
    pub const GAME_DATA_BLOB: i32 = 512;
    pub const GAME_EXTRA_INFO: i32 = 256;
    pub const USER_CLAN_RANK: i32 = 128;
    pub const CLAN_INFO: i32 = 128;
    pub const LAST_SEEN: i32 = 64;
    pub const PRESENCE: i32 = 16;
    pub const SOURCE_ID: i32 = 8;
    pub const QUERY_PORT: i32 = 4;
    pub const PLAYER_NAME: i32 = 2;
    pub const STATUS: i32 = 1;
}

impl PartialEq<i32> for EClientPersonaStateFlag {
    fn eq(&self, other: &i32) -> (r: bool)
        ensures
            r == (self.0 == *other),
    {
        self.0 == *other
    }
}

impl vstd::std_specs::cmp::PartialEqSpecImpl<i32> for EClientPersonaStateFlag {
    open spec fn obeys_eq_spec() -> bool {
        true
    }

    open spec fn eq_spec(&self, other: &i32) -> bool {
        self.0 == *other
    }
}

impl PartialEq<EClientPersonaStateFlag> for i32 {
    fn eq(&self, other: &EClientPersonaStateFlag) -> (r: bool)
        ensures
            r == (*self == other.0),
    {
        *self == other.0
    }
}

impl vstd::std_specs::cmp::PartialEqSpecImpl<EClientPersonaStateFlag> for i32 {
    open spec fn obeys_eq_spec() -> bool {
        true
    }

    open spec fn eq_spec(&self, other: &EClientPersonaStateFlag) -> bool {
        *self == other.0
    }
}

impl std::ops::BitOr for EClientPersonaStateFlag {
    type Output = Self;

    fn bitor(self, rhs: Self) -> (r: Self::Output)
        ensures
            r.0 == self.0 | rhs.0,
    {
        Self(self.0 | rhs.0)
    }
}

impl vstd::std_specs::ops::BitOrSpecImpl for EClientPersonaStateFlag {
    open spec fn obeys_bitor_spec() -> bool {
        true
    }

    open spec fn bitor_req(self, rhs: Self) -> bool {
        true
    }

    open spec fn bitor_spec(self, rhs: Self) -> Self {
        EClientPersonaStateFlag(self.0 | rhs.0)
    }
}

#[derive(Debug, Clone, Copy, PartialEq, Eq, Structural, PartialOrd, Ord, Hash)]
pub struct EPersonaStateFlag(pub i32);

impl EPersonaStateFlag {
    pub const LAUNCH_TYPE_COMPAT_TOOL: i32 = 8192;
    pub const LAUNCH_TYPE_GAMEPAD: i32 = 4096;
    pub const CLIENT_TYPE_VR: i32 = 2048;
    pub const CLIENT_TYPE_TENFOOT: i32 = 1024;
    pub const CLIENT_TYPE_MOBILE: i32 = 512;
    pub const CLIENT_TYPE_WEB: i32 = 256;
    pub const REMOTE_PLAY_TOGETHER: i32 = 8;
    pub const GOLDEN: i32 = 4;
    pub const IN_JOINABLE_GAME: i32 = 2;
    pub const HAS_RICH_PRESENCE: i32 = 1;
}

impl PartialEq<i32> for EPersonaStateFlag {
    fn eq(&self, other: &i32) -> (r: bool)
        ensures
            r == (self.0 == *other),
    {
        self.0 == *other
    }
}

impl vstd::std_specs::cmp::PartialEqSpecImpl<i32> for EPersonaStateFlag {
    open spec fn obeys_eq_spec() -> bool {
        true
    }

    open spec fn eq_spec(&self, other: &i32) -> bool {
        self.0 == *other
    }
}

impl PartialEq<EPersonaStateFlag> for i32 {
    fn eq(&self, other: &EPersonaStateFlag) -> (r: bool)
        ensures
            r == (*self == other.0),
    {
        *self == other.0
    }
}

impl vstd::std_specs::cmp::PartialEqSpecImpl<EPersonaStateFlag> for i32 {
    open spec fn obeys_eq_spec() -> bool {
        true
    }

    open spec fn eq_spec(&self, other: &EPersonaStateFlag) -> bool {
        *self == other.0
    }
}

impl std::ops::BitOr for EPersonaStateFlag {
    type Output = Self;

    fn bitor(self, rhs: Self) -> (r: Self::Output)
        ensures
            r.0 == self.0 | rhs.0,
    {
        Self(self.0 | rhs.0)
    }
}

impl vstd::std_specs::ops::BitOrSpecImpl for EPersonaStateFlag {
    open spec fn obeys_bitor_spec() -> bool {
        true
    }

    open spec fn bitor_req(self, rhs: Self) -> bool {
        true
    }

    open spec fn bitor_spec(self, rhs: Self) -> Self {
        EPersonaStateFlag(self.0 | rhs.0)
    }
}

#[derive(Debug, Clone, Copy, PartialEq, Eq, Structural, PartialOrd, Ord, Hash)]
pub struct EFriendFlags(pub i32);

impl EFriendFlags {
    pub const FLAG_ALL: i32 = 65535;
    pub const CHAT_MEMBER: i32 = 4096;
    pub const SUGGESTED: i32 = 2048;
    pub const IGNORED_FRIEND: i32 = 1024;
    pub const IGNORED: i32 = 512;
    pub const REQUESTING_INFO: i32 = 256;
    pub const REQUESTING_FRIENDSHIP: i32 = 128;
    pub const ON_GAME_SERVER: i32 = 16;
    pub const CLAN_MEMBER: i32 = 8;
    pub const IMMEDIATE: i32 = 4;
    pub const FRIENDSHIP_REQUESTED: i32 = 2;
    pub const BLOCKED: i32 = 1;
    pub const NONE: i32 = 0;
}

impl PartialEq<i32> for EFriendFlags {
    fn eq(&self, other: &i32) -> (r: bool)
        ensures
            r == (self.0 == *other),
    {
        self.0 == *other
    }
}

impl vstd::std_specs::cmp::PartialEqSpecImpl<i32> for EFriendFlags {
    open spec fn obeys_eq_spec() -> bool {
        true
    }

    open spec fn eq_spec(&self, other: &i32) -> bool {
        self.0 == *other
    }
}

impl PartialEq<EFriendFlags> for i32 {
    fn eq(&self, other: &EFriendFlags) -> (r: bool)
        ensures
            r == (*self == other.0),
    {
        *self == other.0
    }
}

impl vstd::std_specs::cmp::PartialEqSpecImpl<EFriendFlags> for i32 {
    open spec fn obeys_eq_spec() -> bool {
        true
    }

    open spec fn eq_spec(&self, other: &EFriendFlags) -> bool {
        *self == other.0
    }
}

impl std::ops::BitOr for EFriendFlags {
    type Output = Self;

    fn bitor(self, rhs: Self) -> (r: Self::Output)
        ensures
            r.0 == self.0 | rhs.0,
    {
        Self(self.0 | rhs.0)
    }
}

impl vstd::std_specs::ops::BitOrSpecImpl for EFriendFlags {
    open spec fn obeys_bitor_spec() -> bool {
        true
    }

    open spec fn bitor_req(self, rhs: Self) -> bool {
        true
    }

    open spec fn bitor_spec(self, rhs: Self) -> Self {
        EFriendFlags(self.0 | rhs.0)
    }
}

#[derive(Debug, Clone, Copy, PartialEq, Eq, Structural, PartialOrd, Ord, Hash)]
pub struct EChatPermission(pub i32);

impl EChatPermission {
    pub const MASK: i32 = 1019;
    pub const OWNER_DEFAULT: i32 = 891;
    pub const OFFICER_DEFAULT: i32 = 282;
    pub const MEMBER_DEFAULT: i32 = 282;
    pub const EVERYONE_DEFAULT: i32 = 10;
    pub const EVERYONE_NOT_IN_CLAN_DEFAULT: i32 = 8;
    pub const CHANGE_ACCESS: i32 = 512;
    pub const BAN: i32 = 256;
    pub const CHANGE_PERMISSIONS: i32 = 128;
    pub const SET_METADATA: i32 = 64;
    pub const MUTE: i32 = 32;
    pub const KICK: i32 = 16;
    pub const TALK: i32 = 8;
    pub const INVITE: i32 = 2;
    pub const CLOSE: i32 = 1;
}

impl PartialEq<i32> for EChatPermission {
    fn eq(&self, other: &i32) -> (r: bool)
        ensures
            r == (self.0 == *other),
    {
        self.0 == *other
    }
}

impl vstd::std_specs::cmp::PartialEqSpecImpl<i32> for EChatPermission {
    open spec fn obeys_eq_spec() -> bool {
        true
    }

    open spec fn eq_spec(&self, other: &i32) -> bool {
        self.0 == *other
    }
}

impl PartialEq<EChatPermission> for i32 {
    fn eq(&self, other: &EChatPermission) -> (r: bool)
        ensures
            r == (*self == other.0),
    {
        *self == other.0
    }
}

impl vstd::std_specs::cmp::PartialEqSpecImpl<EChatPermission> for i32 {
    open spec fn obeys_eq_spec() -> bool {
        true
    }

    open spec fn eq_spec(&self, other: &EChatPermission) -> bool {
        *self == other.0
    }
}

impl std::ops::BitOr for EChatPermission {
    type Output = Self;

    fn bitor(self, rhs: Self) -> (r: Self::Output)
        ensures
            r.0 == self.0 | rhs.0,
    {
        Self(self.0 | rhs.0)
    }
}

impl vstd::std_specs::ops::BitOrSpecImpl for EChatPermission {
    open spec fn obeys_bitor_spec() -> bool {
        true
    }

    open spec fn bitor_req(self, rhs: Self) -> bool {
        true
    }

    open spec fn bitor_spec(self, rhs: Self) -> Self {
        EChatPermission(self.0 | rhs.0)
    }
}

#[derive(Debug, Clone, Copy, PartialEq, Eq, Structural, PartialOrd, Ord, Hash)]
pub struct EClanPermission(pub i32);

impl EClanPermission {
    pub const ANYBODY: i32 = 143;
    pub const OWNER_ALLOWED: i32 = 143;
    pub const OFFICER_ALLOWED: i32 = 142;
    pub const MODERATOR_ALLOWED: i32 = 140;
    pub const MEMBER_ALLOWED: i32 = 132;
    pub const NON_MEMBER: i32 = 128;
    pub const OGG_GAME_OWNER: i32 = 16;
    pub const ALL_MEMBERS: i32 = 15;
    pub const OWNER_OFFICER_MODERATOR: i32 = 11;
    pub const MODERATOR: i32 = 8;
    pub const MEMBER: i32 = 4;
    pub const OWNER_AND_OFFICER: i32 = 3;
    pub const OFFICER: i32 = 2;
    pub const OWNER: i32 = 1;
    pub const NOBODY: i32 = 0;
}

impl PartialEq<i32> for EClanPermission {
    fn eq(&self, other: &i32) -> (r: bool)
        ensures
            r == (self.0 == *other),
    {
        self.0 == *other
    }
}

impl vstd::std_specs::cmp::PartialEqSpecImpl<i32> for EClanPermission {
    open spec fn obeys_eq_spec() -> bool {
        true
    }

    open spec fn eq_spec(&self, other: &i32) -> bool {
        self.0 == *other
    }
}

impl PartialEq<EClanPermission> for i32 {
    fn eq(&self, other: &EClanPermission) -> (r: bool)
        ensures
            r == (*self == other.0),
    {
        *self == other.0
    }
}

impl vstd::std_specs::cmp::PartialEqSpecImpl<EClanPermission> for i32 {
    open spec fn obeys_eq_spec() -> bool {
        true
    }

    open spec fn eq_spec(&self, other: &EClanPermission) -> bool {
        *self == other.0
    }
}

impl std::ops::BitOr for EClanPermission {
    type Output = Self;

    fn bitor(self, rhs: Self) -> (r: Self::Output)
        ensures
            r.0 == self.0 | rhs.0,
    {
        Self(self.0 | rhs.0)
    }
}

impl vstd::std_specs::ops::BitOrSpecImpl for EClanPermission {
    open spec fn obeys_bitor_spec() -> bool {
        true
    }

    open spec fn bitor_req(self, rhs: Self) -> bool {
        true
    }

    open spec fn bitor_spec(self, rhs: Self) -> Self {
        EClanPermission(self.0 | rhs.0)
    }
}

#[derive(Debug, Clone, Copy, PartialEq, Eq, Structural, PartialOrd, Ord, Hash)]
pub struct EAccountFlags(pub i32);

impl EAccountFlags {
    pub const NEEDS_SSA_NEXT_STEAM_LOGON: i32 = 1073741824;
    pub const THIRD_PARTY_SUPPORT: i32 = 536870912;
    pub const PARENTAL_SETTINGS: i32 = 268435456;
    pub const GLOBAL_MODERATOR: i32 = 134217728;
    pub const CLANS_ONLY_FROM_FRIENDS: i32 = 67108864;
    pub const BANNED_FROM_WEB_API: i32 = 33554432;
    pub const MASTER_APP_EDITOR: i32 = 16777216;
    pub const LOCKDOWN: i32 = 8388608;
    pub const NEED_LOGS: i32 = 4194304;
    pub const STEAM2_MIGRATION_COMPLETE: i32 = 2097152;
    pub const LOGON_EXTRA_SECURITY_DISABLED: i32 = 1048576;
    pub const LOGON_EXTRA_SECURITY: i32 = 524288;
    pub const FORCE_EMAIL_VERIFICATION: i32 = 262144;
    pub const FORCE_PASSWORD_CHANGE: i32 = 131072;
    pub const OGG_INVITE_OPT_OUT: i32 = 65536;
    pub const MARKETING_TREATMENT: i32 = 32768;
    pub const EMAIL_VALIDATED: i32 = 16384;
    pub const LIMITED_USER_FORCE: i32 = 8192;
    pub const LIMITED_USER: i32 = 4096;
    pub const DISABLED: i32 = 2048;
    pub const DEBUG: i32 = 1024;
    pub const VAC_BETA: i32 = 512;
    pub const PERSONAL_QA_SET: i32 = 256;
    pub const HWID_SET: i32 = 128;
    pub const APP_EDITOR: i32 = 64;
    pub const SUPERVISOR: i32 = 32;
    pub const ADMIN: i32 = 16;
    pub const SUPPORT: i32 = 8;
    pub const PASSWORD_SET: i32 = 4;
    pub const UNBANNABLE: i32 = 2;
    pub const PERSONA_NAME_SET: i32 = 1;
    pub const NORMAL_USER: i32 = 0;
}

impl PartialEq<i32> for EAccountFlags {
    fn eq(&self, other: &i32) -> (r: bool)
        ensures
            r == (self.0 == *other),
    {
        self.0 == *other
    }
}

impl vstd::std_specs::cmp::PartialEqSpecImpl<i32> for EAccountFlags {
    open spec fn obeys_eq_spec() -> bool {
        true
    }

    open spec fn eq_spec(&self, other: &i32) -> bool {
        self.0 == *other
    }
}

impl PartialEq<EAccountFlags> for i32 {
    fn eq(&self, other: &EAccountFlags) -> (r: bool)
        ensures
            r == (*self == other.0),
    {
        *self == other.0
    }
}

impl vstd::std_specs::cmp::PartialEqSpecImpl<EAccountFlags> for i32 {
    open spec fn obeys_eq_spec() -> bool {
        true
    }

    open spec fn eq_spec(&self, other: &EAccountFlags) -> bool {
        *self == other.0
    }
}

impl std::ops::BitOr for EAccountFlags {
    type Output = Self;

    fn bitor(self, rhs: Self) -> (r: Self::Output)
        ensures
            r.0 == self.0 | rhs.0,
    {
        Self(self.0 | rhs.0)
    }
}

impl vstd::std_specs::ops::BitOrSpecImpl for EAccountFlags {
    open spec fn obeys_bitor_spec() -> bool {
        true
    }

    open spec fn bitor_req(self, rhs: Self) -> bool {
        true
    }

    open spec fn bitor_spec(self, rhs: Self) -> Self {
        EAccountFlags(self.0 | rhs.0)
    }
}

#[derive(Debug, Clone, Copy, PartialEq, Eq, Structural, PartialOrd, Ord, Hash)]
pub struct EFriendRelationship(pub i32);

impl EFriendRelationship {
    pub const IGNORED_FRIEND: i32 = 6;
    pub const IGNORED: i32 = 5;
    pub const REQUEST_INITIATOR: i32 = 4;
    pub const FRIEND: i32 = 3;
    pub const REQUEST_RECIPIENT: i32 = 2;
    pub const BLOCKED: i32 = 1;
    pub const NONE: i32 = 0;
}

impl PartialEq<i32> for EFriendRelationship {
    fn eq(&self, other: &i32) -> (r: bool)
        ensures
            r == (self.0 == *other),
    {
        self.0 == *other
    }
}

impl vstd::std_specs::cmp::PartialEqSpecImpl<i32> for EFriendRelationship {
    open spec fn obeys_eq_spec() -> bool {
        true
    }

    open spec fn eq_spec(&self, other: &i32) -> bool {
        self.0 == *other
    }
}

impl PartialEq<EFriendRelationship> for i32 {
    fn eq(&self, other: &EFriendRelationship) -> (r: bool)
        ensures
            r == (*self == other.0),
    {
        *self == other.0
    }
}

impl vstd::std_specs::cmp::PartialEqSpecImpl<EFriendRelationship> for i32 {
    open spec fn obeys_eq_spec() -> bool {
        true
    }

    open spec fn eq_spec(&self, other: &EFriendRelationship) -> bool {
        *self == other.0
    }
}

#[derive(Debug, Clone, Copy, PartialEq, Eq, Structural, PartialOrd, Ord, Hash)]
pub struct EAccountType(pub i32);

impl EAccountType {
    pub const ANON_USER: i32 = 10;
    pub const CONSOLE_USER: i32 = 9;
    pub const CHAT: i32 = 8;
    pub const CLAN: i32 = 7;
    pub const CONTENT_SERVER: i32 = 6;
    pub const PENDING: i32 = 5;
    pub const ANON_GAME_SERVER: i32 = 4;
    pub const GAME_SERVER: i32 = 3;
    pub const MULTISEAT: i32 = 2;
    pub const INDIVIDUAL: i32 = 1;
    pub const INVALID: i32 = 0;
}

impl PartialEq<i32> for EAccountType {
    fn eq(&self, other: &i32) -> (r: bool)
        ensures
            r == (self.0 == *other),
    {
        self.0 == *other
    }
}

impl vstd::std_specs::cmp::PartialEqSpecImpl<i32> for EAccountType {
    open spec fn obeys_eq_spec() -> bool {
        true
    }

    open spec fn eq_spec(&self, other: &i32) -> bool {
        self.0 == *other
    }
}

impl PartialEq<EAccountType> for i32 {
    fn eq(&self, other: &EAccountType) -> (r: bool)
        ensures
            r == (*self == other.0),
    {
        *self == other.0
    }
}

impl vstd::std_specs::cmp::PartialEqSpecImpl<EAccountType> for i32 {
    open spec fn obeys_eq_spec() -> bool {
        true
    }

    open spec fn eq_spec(&self, other: &EAccountType) -> bool {
        *self == other.0
    }
}

#[derive(Debug, Clone, Copy, PartialEq, Eq, Structural, PartialOrd, Ord, Hash)]
pub struct EPersonaState(pub i32);

impl EPersonaState {
    pub const INVISIBLE: i32 = 7;
    pub const LOOKING_TO_PLAY: i32 = 6;
    pub const LOOKING_TO_TRADE: i32 = 5;
    pub const SNOOZE: i32 = 4;
    pub const AWAY: i32 = 3;
    pub const BUSY: i32 = 2;
    pub const ONLINE: i32 = 1;
    pub const OFFLINE: i32 = 0;
}

impl PartialEq<i32> for EPersonaState {
    fn eq(&self, other: &i32) -> (r: bool)
        ensures
            r == (self.0 == *other),
    {
        self.0 == *other
    }
}

impl vstd::std_specs::cmp::PartialEqSpecImpl<i32> for EPersonaState {
    open spec fn obeys_eq_spec() -> bool {
        true
    }

    open spec fn eq_spec(&self, other: &i32) -> bool {
        self.0 == *other
    }
}

impl PartialEq<EPersonaState> for i32 {
    fn eq(&self, other: &EPersonaState) -> (r: bool)
        ensures
            r == (*self == other.0),
    {
        *self == other.0
    }
}

impl vstd::std_specs::cmp::PartialEqSpecImpl<EPersonaState> for i32 {
    open spec fn obeys_eq_spec() -> bool {
        true
    }

    open spec fn eq_spec(&self, other: &EPersonaState) -> bool {
        *self == other.0
    }
}

#[derive(Debug, Clone, Copy, PartialEq, Eq, Structural, PartialOrd, Ord, Hash)]
pub struct EChatEntryType(pub i32);

impl EChatEntryType {
    pub const LINK_BLOCKED: i32 = 14;
    pub const RESERVED2: i32 = 13;
    pub const RESERVED1: i32 = 12;
    pub const HISTORICAL_CHAT: i32 = 11;
    pub const DISCONNECTED: i32 = 10;
    pub const WAS_BANNED: i32 = 9;
    pub const WAS_KICKED: i32 = 8;
    pub const ENTERED: i32 = 7;
    pub const LEFT_CONVERSATION: i32 = 6;
    pub const INVITE_GAME: i32 = 3;
    pub const TYPING: i32 = 2;
    pub const CHAT_MSG: i32 = 1;
    pub const INVALID: i32 = 0;
}

impl PartialEq<i32> for EChatEntryType {
    fn eq(&self, other: &i32) -> (r: bool)
        ensures
            r == (self.0 == *other),
    {
        self.0 == *other
    }
}

impl vstd::std_specs::cmp::PartialEqSpecImpl<i32> for EChatEntryType {
    open spec fn obeys_eq_spec() -> bool {
        true
    }

    open spec fn eq_spec(&self, other: &i32) -> bool {
        self.0 == *other
    }
}

impl PartialEq<EChatEntryType> for i32 {
    fn eq(&self, other: &EChatEntryType) -> (r: bool)
        ensures
            r == (*self == other.0),
    {
        *self == other.0
    }
}

impl vstd::std_specs::cmp::PartialEqSpecImpl<EChatEntryType> for i32 {
    open spec fn obeys_eq_spec() -> bool {
        true
    }

    open spec fn eq_spec(&self, other: &EChatEntryType) -> bool {
        *self == other.0
    }
}

#[derive(Debug, Clone, Copy, PartialEq, Eq, Structural, PartialOrd, Ord, Hash)]
pub struct EUniverse(pub i32);

impl EUniverse {
    pub const DEV: i32 = 4;
    pub const INTERNAL: i32 = 3;
    pub const BETA: i32 = 2;
    pub const PUBLIC: i32 = 1;
    pub const INVALID: i32 = 0;
}

impl PartialEq<i32> for EUniverse {
    fn eq(&self, other: &i32) -> (r: bool)
        ensures
            r == (self.0 == *other),
    {
        self.0 == *other
    }
}

impl vstd::std_specs::cmp::PartialEqSpecImpl<i32> for EUniverse {
    open spec fn obeys_eq_spec() -> bool {
        true
    }

    open spec fn eq_spec(&self, other: &i32) -> bool {
        self.0 == *other
    }
}

impl PartialEq<EUniverse> for i32 {
    fn eq(&self, other: &EUniverse) -> (r: bool)
        ensures
            r == (*self == other.0),
    {
        *self == other.0
    }
}

impl vstd::std_specs::cmp::PartialEqSpecImpl<EUniverse> for i32 {
    open spec fn obeys_eq_spec() -> bool {
        true
    }

    open spec fn eq_spec(&self, other: &EUniverse) -> bool {
        *self == other.0
    }
}

} // verus!
