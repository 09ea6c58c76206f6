//! Data of channels and messages that the library passes through. Types of
//! users, emojis and select options are the caller's (`U`, `E`, `O`). The
//! `kind` fields hold what the API calls `type`.

use vstd::prelude::*;
use std::collections::HashMap;

verus! {

/// A channel as other objects mention it.
#[derive(Debug)]
pub struct PartialChannel<U> {
    pub id: u64,
    pub kind: u8,
    pub name: Option<String>,
    pub recipients: Option<Vec<U>>,
    pub icon: Option<String>,
    pub guild_id: Option<u64>,
}

/// The interaction a message answers.
#[derive(Debug)]
pub struct MessageInteraction<U> {
    pub id: u64,
    pub kind: u8,
    pub name: String,
    pub user: U,
}

/// What is known of the interaction a message answers.
#[derive(Debug)]
pub struct MessageInteractionMetadata<U> {
    pub id: u64,
    pub kind: u8,
    pub name: Option<String>,
    pub command_type: Option<u8>,
    pub ephemerality_reason: Option<u8>,
    pub user: U,
    pub authorizing_integration_owners: Option<HashMap<String, String>>,
    pub original_response_message_id: Option<u64>,
    pub interacted_message_id: Option<u64>,
    pub triggering_interaction_metadata: Option<Box<MessageInteractionMetadata<U>>>,
    pub target_user: Option<U>,
    pub target_message_id: Option<u64>,
}

/// The activity a message invites to.
#[derive(Debug, PartialEq, Eq)]
pub struct MessageActivity {
    pub kind: MessageActivityType,
    pub session_id: Option<String>,
    pub party_id: Option<String>,
}

/// The message another message refers to.
#[derive(Debug, PartialEq, Eq)]
pub struct MessageReference {
    pub message_id: Option<u64>,
    pub channel_id: u64,
    pub guild_id: Option<u64>,
    pub forward_only: Option<MessageForwardOnly>,
}

/// What of a forwarded message is forwarded.
#[derive(Debug, PartialEq, Eq)]
pub struct MessageForwardOnly {
    pub embed_indices: Option<Vec<u64>>,
    pub attachment_ids: Option<Vec<u64>>,
}

/// A component of a message (a button, a select menu, a row of them...).
#[derive(Debug)]
pub struct MessageComponent<E, O> {
    pub kind: ComponentType,
    pub custom_id: Option<String>,
    pub disabled: Option<bool>,
    pub style: Option<u8>,
    pub label: Option<String>,
    pub emoji: Option<E>,
    pub url: Option<String>,
    pub options: Option<Vec<O>>,
    pub placeholder: Option<String>,
    pub min_values: Option<u64>,
    pub max_values: Option<u64>,
    pub components: Option<Vec<MessageComponent<E, O>>>,
}

/// The kind of a message; codes the library does not know are kept.
#[derive(Clone, Copy, Debug, PartialEq, Eq, Structural)]
pub enum MessageType {
    Default,
    RecipientAdd,
    RecipientRemove,
    Call,
    ChannelNameChange,
    ChannelIconChange,
    ChannelPinnedMessage,
    UserJoin,
    GuildBoost,
    GuildBoostTier1,
    GuildBoostTier2,
    GuildBoostTier3,
    ChannelFollowAdd,
    GuildDiscoveryDisqualified,
    GuildDiscoveryRequalified,
    GuildDiscoveryGracePeriodInitialWarning,
    GuildDiscoveryGracePeriodFinalWarning,
    ThreadCreated,
    Reply,
    ChatInputCommand,
    ThreadStarterMessage,
    GuildInviteReminder,
    ContextMenuCommand,
    AutoModerationAction,
    RoleSubscriptionPurchase,
    InteractionPremiumUpsell,
    StageStart,
    StageEnd,
    StageSpeaker,
    StageTopic,
    GuildApplicationPremiumSubscription,
    GuildIncidentAlertModeEnabled,
    GuildIncidentAlertModeDisabled,
    GuildIncidentReportRaid,
    GuildIncidentReportFalseAlarm,
    PurchaseNotification,
    PollResult,
    Unknown(u16),
}

/// The code of a message kind.
pub open spec fn message_type_code(t: MessageType) -> u16 {
    match t {
        MessageType::Default => 0,
        MessageType::RecipientAdd => 1,
        MessageType::RecipientRemove => 2,
        MessageType::Call => 3,
        MessageType::ChannelNameChange => 4,
        MessageType::ChannelIconChange => 5,
        MessageType::ChannelPinnedMessage => 6,
        MessageType::UserJoin => 7,
        MessageType::GuildBoost => 8,
        MessageType::GuildBoostTier1 => 9,
        MessageType::GuildBoostTier2 => 10,
        MessageType::GuildBoostTier3 => 11,
        MessageType::ChannelFollowAdd => 12,
        MessageType::GuildDiscoveryDisqualified => 14,
        MessageType::GuildDiscoveryRequalified => 15,
        MessageType::GuildDiscoveryGracePeriodInitialWarning => 16,
        MessageType::GuildDiscoveryGracePeriodFinalWarning => 17,
        MessageType::ThreadCreated => 18,
        MessageType::Reply => 19,
        MessageType::ChatInputCommand => 20,
        MessageType::ThreadStarterMessage => 21,
        MessageType::GuildInviteReminder => 22,
        MessageType::ContextMenuCommand => 23,
        MessageType::AutoModerationAction => 24,
        MessageType::RoleSubscriptionPurchase => 25,
        MessageType::InteractionPremiumUpsell => 26,
        MessageType::StageStart => 27,
        MessageType::StageEnd => 28,
        MessageType::StageSpeaker => 29,
        MessageType::StageTopic => 31,
        MessageType::GuildApplicationPremiumSubscription => 32,
        MessageType::GuildIncidentAlertModeEnabled => 36,
        MessageType::GuildIncidentAlertModeDisabled => 37,
        MessageType::GuildIncidentReportRaid => 38,
        MessageType::GuildIncidentReportFalseAlarm => 39,
        MessageType::PurchaseNotification => 44,
        MessageType::PollResult => 46,
        MessageType::Unknown(n) => n,
    }
}

/// The message kind of a code.
pub open spec fn message_type_of(n: u16) -> MessageType {
    if n == 0 { MessageType::Default }
    else if n == 1 { MessageType::RecipientAdd }
    else if n == 2 { MessageType::RecipientRemove }
    else if n == 3 { MessageType::Call }
    else if n == 4 { MessageType::ChannelNameChange }
    else if n == 5 { MessageType::ChannelIconChange }
    else if n == 6 { MessageType::ChannelPinnedMessage }
    else if n == 7 { MessageType::UserJoin }
    else if n == 8 { MessageType::GuildBoost }
    else if n == 9 { MessageType::GuildBoostTier1 }
    else if n == 10 { MessageType::GuildBoostTier2 }
    else if n == 11 { MessageType::GuildBoostTier3 }
    else if n == 12 { MessageType::ChannelFollowAdd }
    else if n == 14 { MessageType::GuildDiscoveryDisqualified }
    else if n == 15 { MessageType::GuildDiscoveryRequalified }
    else if n == 16 { MessageType::GuildDiscoveryGracePeriodInitialWarning }
    else if n == 17 { MessageType::GuildDiscoveryGracePeriodFinalWarning }
    else if n == 18 { MessageType::ThreadCreated }
    else if n == 19 { MessageType::Reply }
    else if n == 20 { MessageType::ChatInputCommand }
    else if n == 21 { MessageType::ThreadStarterMessage }
    else if n == 22 { MessageType::GuildInviteReminder }
    else if n == 23 { MessageType::ContextMenuCommand }
    else if n == 24 { MessageType::AutoModerationAction }
    else if n == 25 { MessageType::RoleSubscriptionPurchase }
    else if n == 26 { MessageType::InteractionPremiumUpsell }
    else if n == 27 { MessageType::StageStart }
    else if n == 28 { MessageType::StageEnd }
    else if n == 29 { MessageType::StageSpeaker }
    else if n == 31 { MessageType::StageTopic }
    else if n == 32 { MessageType::GuildApplicationPremiumSubscription }
    else if n == 36 { MessageType::GuildIncidentAlertModeEnabled }
    else if n == 37 { MessageType::GuildIncidentAlertModeDisabled }
    else if n == 38 { MessageType::GuildIncidentReportRaid }
    else if n == 39 { MessageType::GuildIncidentReportFalseAlarm }
    else if n == 44 { MessageType::PurchaseNotification }
    else if n == 46 { MessageType::PollResult }
    else { MessageType::Unknown(n) }
}

impl Default for MessageType {
    fn default() -> (t: MessageType)
        ensures
            t == MessageType::Default,
    {
        MessageType::Default
    }
}

impl MessageType {
    /// The kind with code `n`; an unknown code is kept as `Unknown(n)`.
    pub fn from_code(n: u16) -> (t: MessageType)
        ensures
            t == message_type_of(n),
    {
        match n {
            0 => MessageType::Default,
            1 => MessageType::RecipientAdd,
            2 => MessageType::RecipientRemove,
            3 => MessageType::Call,
            4 => MessageType::ChannelNameChange,
            5 => MessageType::ChannelIconChange,
            6 => MessageType::ChannelPinnedMessage,
            7 => MessageType::UserJoin,
            8 => MessageType::GuildBoost,
            9 => MessageType::GuildBoostTier1,
            10 => MessageType::GuildBoostTier2,
            11 => MessageType::GuildBoostTier3,
            12 => MessageType::ChannelFollowAdd,
            14 => MessageType::GuildDiscoveryDisqualified,
            15 => MessageType::GuildDiscoveryRequalified,
            16 => MessageType::GuildDiscoveryGracePeriodInitialWarning,
            17 => MessageType::GuildDiscoveryGracePeriodFinalWarning,
            18 => MessageType::ThreadCreated,
            19 => MessageType::Reply,
            20 => MessageType::ChatInputCommand,
            21 => MessageType::ThreadStarterMessage,
            22 => MessageType::GuildInviteReminder,
            23 => MessageType::ContextMenuCommand,
            24 => MessageType::AutoModerationAction,
            25 => MessageType::RoleSubscriptionPurchase,
            26 => MessageType::InteractionPremiumUpsell,
            27 => MessageType::StageStart,
            28 => MessageType::StageEnd,
            29 => MessageType::StageSpeaker,
            31 => MessageType::StageTopic,
            32 => MessageType::GuildApplicationPremiumSubscription,
            36 => MessageType::GuildIncidentAlertModeEnabled,
            37 => MessageType::GuildIncidentAlertModeDisabled,
            38 => MessageType::GuildIncidentReportRaid,
            39 => MessageType::GuildIncidentReportFalseAlarm,
            44 => MessageType::PurchaseNotification,
            46 => MessageType::PollResult,
            _ => MessageType::Unknown(n),
        }
    }

    /// The code of this kind.
    pub fn code(&self) -> (n: u16)
        ensures
            n == message_type_code(*self),
    {
        match *self {
            MessageType::Default => 0,
            MessageType::RecipientAdd => 1,
            MessageType::RecipientRemove => 2,
            MessageType::Call => 3,
            MessageType::ChannelNameChange => 4,
            MessageType::ChannelIconChange => 5,
            MessageType::ChannelPinnedMessage => 6,
            MessageType::UserJoin => 7,
            MessageType::GuildBoost => 8,
            MessageType::GuildBoostTier1 => 9,
            MessageType::GuildBoostTier2 => 10,
            MessageType::GuildBoostTier3 => 11,
            MessageType::ChannelFollowAdd => 12,
            MessageType::GuildDiscoveryDisqualified => 14,
            MessageType::GuildDiscoveryRequalified => 15,
            MessageType::GuildDiscoveryGracePeriodInitialWarning => 16,
            MessageType::GuildDiscoveryGracePeriodFinalWarning => 17,
            MessageType::ThreadCreated => 18,
            MessageType::Reply => 19,
            MessageType::ChatInputCommand => 20,
            MessageType::ThreadStarterMessage => 21,
            MessageType::GuildInviteReminder => 22,
            MessageType::ContextMenuCommand => 23,
            MessageType::AutoModerationAction => 24,
            MessageType::RoleSubscriptionPurchase => 25,
            MessageType::InteractionPremiumUpsell => 26,
            MessageType::StageStart => 27,
            MessageType::StageEnd => 28,
            MessageType::StageSpeaker => 29,
            MessageType::StageTopic => 31,
            MessageType::GuildApplicationPremiumSubscription => 32,
            MessageType::GuildIncidentAlertModeEnabled => 36,
            MessageType::GuildIncidentAlertModeDisabled => 37,
            MessageType::GuildIncidentReportRaid => 38,
            MessageType::GuildIncidentReportFalseAlarm => 39,
            MessageType::PurchaseNotification => 44,
            MessageType::PollResult => 46,
            MessageType::Unknown(n) => n,
        }
    }
}

/// Every code reads back as itself; every kind read from a code gives
/// that code back.
pub proof fn law_message_type_code_roundtrip(n: u16)
    ensures
        message_type_code(message_type_of(n)) == n,
        message_type_of(message_type_code(message_type_of(n))) == message_type_of(n),
{
}

/// Each known message kind has Discord's documented code, and reading
/// that code gives the kind back; any other code is kept as unknown.
pub proof fn law_message_type_documented_codes(n: u16)
    ensures
        message_type_code(MessageType::Default) == 0,
        message_type_of(0) == MessageType::Default,
        message_type_code(MessageType::RecipientAdd) == 1,
        message_type_of(1) == MessageType::RecipientAdd,
        message_type_code(MessageType::RecipientRemove) == 2,
        message_type_of(2) == MessageType::RecipientRemove,
        message_type_code(MessageType::Call) == 3,
        message_type_of(3) == MessageType::Call,
        message_type_code(MessageType::ChannelNameChange) == 4,
        message_type_of(4) == MessageType::ChannelNameChange,
        message_type_code(MessageType::ChannelIconChange) == 5,
        message_type_of(5) == MessageType::ChannelIconChange,
        message_type_code(MessageType::ChannelPinnedMessage) == 6,
        message_type_of(6) == MessageType::ChannelPinnedMessage,
        message_type_code(MessageType::UserJoin) == 7,
        message_type_of(7) == MessageType::UserJoin,
        message_type_code(MessageType::GuildBoost) == 8,
        message_type_of(8) == MessageType::GuildBoost,
        message_type_code(MessageType::GuildBoostTier1) == 9,
        message_type_of(9) == MessageType::GuildBoostTier1,
        message_type_code(MessageType::GuildBoostTier2) == 10,
        message_type_of(10) == MessageType::GuildBoostTier2,
        message_type_code(MessageType::GuildBoostTier3) == 11,
        message_type_of(11) == MessageType::GuildBoostTier3,
        message_type_code(MessageType::ChannelFollowAdd) == 12,
        message_type_of(12) == MessageType::ChannelFollowAdd,
        message_type_code(MessageType::GuildDiscoveryDisqualified) == 14,
        message_type_of(14) == MessageType::GuildDiscoveryDisqualified,
        message_type_code(MessageType::GuildDiscoveryRequalified) == 15,
        message_type_of(15) == MessageType::GuildDiscoveryRequalified,
        message_type_code(MessageType::GuildDiscoveryGracePeriodInitialWarning) == 16,
        message_type_of(16) == MessageType::GuildDiscoveryGracePeriodInitialWarning,
        message_type_code(MessageType::GuildDiscoveryGracePeriodFinalWarning) == 17,
        message_type_of(17) == MessageType::GuildDiscoveryGracePeriodFinalWarning,
        message_type_code(MessageType::ThreadCreated) == 18,
        message_type_of(18) == MessageType::ThreadCreated,
        message_type_code(MessageType::Reply) == 19,
        message_type_of(19) == MessageType::Reply,
        message_type_code(MessageType::ChatInputCommand) == 20,
        message_type_of(20) == MessageType::ChatInputCommand,
        message_type_code(MessageType::ThreadStarterMessage) == 21,
        message_type_of(21) == MessageType::ThreadStarterMessage,
        message_type_code(MessageType::GuildInviteReminder) == 22,
        message_type_of(22) == MessageType::GuildInviteReminder,
        message_type_code(MessageType::ContextMenuCommand) == 23,
        message_type_of(23) == MessageType::ContextMenuCommand,
        message_type_code(MessageType::AutoModerationAction) == 24,
        message_type_of(24) == MessageType::AutoModerationAction,
        message_type_code(MessageType::RoleSubscriptionPurchase) == 25,
        message_type_of(25) == MessageType::RoleSubscriptionPurchase,
        message_type_code(MessageType::InteractionPremiumUpsell) == 26,
        message_type_of(26) == MessageType::InteractionPremiumUpsell,
        message_type_code(MessageType::StageStart) == 27,
        message_type_of(27) == MessageType::StageStart,
        message_type_code(MessageType::StageEnd) == 28,
        message_type_of(28) == MessageType::StageEnd,
        message_type_code(MessageType::StageSpeaker) == 29,
        message_type_of(29) == MessageType::StageSpeaker,
        message_type_code(MessageType::StageTopic) == 31,
        message_type_of(31) == MessageType::StageTopic,
        message_type_code(MessageType::GuildApplicationPremiumSubscription) == 32,
        message_type_of(32) == MessageType::GuildApplicationPremiumSubscription,
        message_type_code(MessageType::GuildIncidentAlertModeEnabled) == 36,
        message_type_of(36) == MessageType::GuildIncidentAlertModeEnabled,
        message_type_code(MessageType::GuildIncidentAlertModeDisabled) == 37,
        message_type_of(37) == MessageType::GuildIncidentAlertModeDisabled,
        message_type_code(MessageType::GuildIncidentReportRaid) == 38,
        message_type_of(38) == MessageType::GuildIncidentReportRaid,
        message_type_code(MessageType::GuildIncidentReportFalseAlarm) == 39,
        message_type_of(39) == MessageType::GuildIncidentReportFalseAlarm,
        message_type_code(MessageType::PurchaseNotification) == 44,
        message_type_of(44) == MessageType::PurchaseNotification,
        message_type_code(MessageType::PollResult) == 46,
        message_type_of(46) == MessageType::PollResult,
        (n != 0 && n != 1 && n != 2 && n != 3 && n != 4 && n != 5 && n != 6 && n != 7 && n != 8 && n != 9 && n != 10 && n != 11 && n != 12 && n != 14 && n != 15 && n != 16 && n != 17 && n != 18 && n != 19 && n != 20 && n != 21 && n != 22 && n != 23 && n != 24 && n != 25 && n != 26 && n != 27 && n != 28 && n != 29 && n != 31 && n != 32 && n != 36 && n != 37 && n != 38 && n != 39 && n != 44 && n != 46) ==> message_type_of(n) == MessageType::Unknown(n),
{
}

/// The kind of a message activity; unknown codes are kept.
#[derive(Clone, Copy, Debug, PartialEq, Eq, Structural)]
pub enum MessageActivityType {
    Join,
    Spectate,
    Listen,
    JoinRequest,
    Unknown(u16),
}

/// The code of a message activity kind.
pub open spec fn activity_type_code(t: MessageActivityType) -> u16 {
    match t {
        MessageActivityType::Join => 1,
        MessageActivityType::Spectate => 2,
        MessageActivityType::Listen => 3,
        MessageActivityType::JoinRequest => 5,
        MessageActivityType::Unknown(n) => n,
    }
}

/// The message activity kind of a code.
pub open spec fn activity_type_of(n: u16) -> MessageActivityType {
    if n == 1 {
        MessageActivityType::Join
    } else if n == 2 {
        MessageActivityType::Spectate
    } else if n == 3 {
        MessageActivityType::Listen
    } else if n == 5 {
        MessageActivityType::JoinRequest
    } else {
        MessageActivityType::Unknown(n)
    }
}

impl Default for MessageActivityType {
    fn default() -> (t: MessageActivityType)
        ensures
            t == MessageActivityType::Join,
    {
        MessageActivityType::Join
    }
}

impl MessageActivityType {
    /// The kind with code `n`; an unknown code is kept.
    pub fn from_code(n: u16) -> (t: MessageActivityType)
        ensures
            t == activity_type_of(n),
    {
        match n {
            1 => MessageActivityType::Join,
            2 => MessageActivityType::Spectate,
            3 => MessageActivityType::Listen,
            5 => MessageActivityType::JoinRequest,
            _ => MessageActivityType::Unknown(n),
        }
    }

    /// The code of this kind.
    pub fn code(&self) -> (n: u16)
        ensures
            n == activity_type_code(*self),
    {
        match *self {
            MessageActivityType::Join => 1,
            MessageActivityType::Spectate => 2,
            MessageActivityType::Listen => 3,
            MessageActivityType::JoinRequest => 5,
            MessageActivityType::Unknown(n) => n,
        }
    }
}

/// Every activity code reads back as itself.
pub proof fn law_activity_type_code_roundtrip(n: u16)
    ensures
        activity_type_code(activity_type_of(n)) == n,
{
}

/// Each known activity kind has its documented code (join 1, spectate 2,
/// listen 3, join request 5), read back from it; other codes are unknown.
pub proof fn law_activity_type_documented_codes(n: u16)
    ensures
        activity_type_code(MessageActivityType::Join) == 1,
        activity_type_code(MessageActivityType::Spectate) == 2,
        activity_type_code(MessageActivityType::Listen) == 3,
        activity_type_code(MessageActivityType::JoinRequest) == 5,
        activity_type_of(1) == MessageActivityType::Join,
        activity_type_of(2) == MessageActivityType::Spectate,
        activity_type_of(3) == MessageActivityType::Listen,
        activity_type_of(5) == MessageActivityType::JoinRequest,
        (n != 1 && n != 2 && n != 3 && n != 5) ==> activity_type_of(n) == MessageActivityType::Unknown(n),
{
}

/// The kind of a message component; unknown codes are kept.
#[derive(Clone, Copy, Debug, PartialEq, Eq, Structural)]
pub enum ComponentType {
    ActionRow,
    Button,
    StringSelect,
    TextInput,
    UserSelect,
    RoleSelect,
    MentionableSelect,
    ChannelSelect,
    Unknown(u16),
}

/// The code of a component kind.
pub open spec fn component_type_code(t: ComponentType) -> u16 {
    match t {
        ComponentType::ActionRow => 1,
        ComponentType::Button => 2,
        ComponentType::StringSelect => 3,
        ComponentType::TextInput => 4,
        ComponentType::UserSelect => 5,
        ComponentType::RoleSelect => 6,
        ComponentType::MentionableSelect => 7,
        ComponentType::ChannelSelect => 8,
        ComponentType::Unknown(n) => n,
    }
}

/// The component kind of a code.
pub open spec fn component_type_of(n: u16) -> ComponentType {
    if n == 1 {
        ComponentType::ActionRow
    } else if n == 2 {
        ComponentType::Button
    } else if n == 3 {
        ComponentType::StringSelect
    } else if n == 4 {
        ComponentType::TextInput
    } else if n == 5 {
        ComponentType::UserSelect
    } else if n == 6 {
        ComponentType::RoleSelect
    } else if n == 7 {
        ComponentType::MentionableSelect
    } else if n == 8 {
        ComponentType::ChannelSelect
    } else {
        ComponentType::Unknown(n)
    }
}

impl Default for ComponentType {
    fn default() -> (t: ComponentType)
        ensures
            t == ComponentType::ActionRow,
    {
        ComponentType::ActionRow
    }
}

impl ComponentType {
    /// The kind with code `n`; an unknown code is kept.
    pub fn from_code(n: u16) -> (t: ComponentType)
        ensures
            t == component_type_of(n),
    {
        match n {
            1 => ComponentType::ActionRow,
            2 => ComponentType::Button,
            3 => ComponentType::StringSelect,
            4 => ComponentType::TextInput,
            5 => ComponentType::UserSelect,
            6 => ComponentType::RoleSelect,
            7 => ComponentType::MentionableSelect,
            8 => ComponentType::ChannelSelect,
            _ => ComponentType::Unknown(n),
        }
    }

    /// The code of this kind.
    pub fn code(&self) -> (n: u16)
        ensures
            n == component_type_code(*self),
    {
        match *self {
            ComponentType::ActionRow => 1,
            ComponentType::Button => 2,
            ComponentType::StringSelect => 3,
            ComponentType::TextInput => 4,
            ComponentType::UserSelect => 5,
            ComponentType::RoleSelect => 6,
            ComponentType::MentionableSelect => 7,
            ComponentType::ChannelSelect => 8,
            ComponentType::Unknown(n) => n,
        }
    }
}

/// Every component code reads back as itself.
pub proof fn law_component_type_code_roundtrip(n: u16)
    ensures
        component_type_code(component_type_of(n)) == n,
{
}

/// Each known component kind has its documented code (action row 1 to
/// channel select 8), read back from it; other codes are unknown.
pub proof fn law_component_type_documented_codes(n: u16)
    ensures
        component_type_code(ComponentType::ActionRow) == 1,
        component_type_of(1) == ComponentType::ActionRow,
        component_type_code(ComponentType::Button) == 2,
        component_type_of(2) == ComponentType::Button,
        component_type_code(ComponentType::StringSelect) == 3,
        component_type_of(3) == ComponentType::StringSelect,
        component_type_code(ComponentType::TextInput) == 4,
        component_type_of(4) == ComponentType::TextInput,
        component_type_code(ComponentType::UserSelect) == 5,
        component_type_of(5) == ComponentType::UserSelect,
        component_type_code(ComponentType::RoleSelect) == 6,
        component_type_of(6) == ComponentType::RoleSelect,
        component_type_code(ComponentType::MentionableSelect) == 7,
        component_type_of(7) == ComponentType::MentionableSelect,
        component_type_code(ComponentType::ChannelSelect) == 8,
        component_type_of(8) == ComponentType::ChannelSelect,
        (n != 1 && n != 2 && n != 3 && n != 4 && n != 5 && n != 6 && n != 7 && n != 8) ==> component_type_of(n) == ComponentType::Unknown(n),
{
}

} // verus!
