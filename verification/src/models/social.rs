//! Friendship, and the direct and group conversations behind the "消息" tab.

use vstd::prelude::*;

use crate::ids::{UnixSeconds, UserId};
use crate::text::{enum_word, enum_word_of, lemma_plain_word_reads_as_itself, same_text};

verus! {

/// Longest accepted note attached to a friend request.
pub const FRIEND_REQUEST_MESSAGE_MAX_CHARS: usize = 200;

/// Longest accepted group title.
pub const CONVERSATION_TITLE_MAX_CHARS: usize = 100;

/// Longest accepted message body.
pub const SOCIAL_MESSAGE_BODY_MAX_CHARS: usize = 4000;

/// Ceiling on group size, counting the owner.
pub const CONVERSATION_MEMBER_MAX: usize = 200;

/// Lifecycle of a friend request. Only `Pending` is live.
#[derive(Debug, Clone, Copy, PartialEq, Eq, Structural)]
pub enum FriendRequestStatus {
    Pending,
    Accepted,
    Declined,
    /// Withdrawn by the requester before the other side answered.
    Cancelled,
}

impl FriendRequestStatus {
    pub open spec fn word(self) -> Seq<char> {
        match self {
            FriendRequestStatus::Pending => "pending"@,
            FriendRequestStatus::Accepted => "accepted"@,
            FriendRequestStatus::Declined => "declined"@,
            FriendRequestStatus::Cancelled => "cancelled"@,
        }
    }

    pub open spec fn from_word(word: Seq<char>) -> Option<FriendRequestStatus> {
        if word == "pending"@ {
            Some(FriendRequestStatus::Pending)
        } else if word == "accepted"@ {
            Some(FriendRequestStatus::Accepted)
        } else if word == "declined"@ {
            Some(FriendRequestStatus::Declined)
        } else if word == "cancelled"@ {
            Some(FriendRequestStatus::Cancelled)
        } else {
            None
        }
    }

    pub fn as_str(self) -> (r: &'static str)
        ensures
            r@ == self.word(),
    {
        match self {
            FriendRequestStatus::Pending => "pending",
            FriendRequestStatus::Accepted => "accepted",
            FriendRequestStatus::Declined => "declined",
            FriendRequestStatus::Cancelled => "cancelled",
        }
    }

    /// Reads a status from text, ignoring surrounding white space and ASCII
    /// case; "invalid friend request status: <word>" otherwise.
    pub fn parse(value: &str) -> (r: Result<FriendRequestStatus, String>)
        ensures
            match Self::from_word(enum_word(value@)) {
                Some(s) => r == Ok::<FriendRequestStatus, String>(s),
                None => r matches Err(m) && m@ == "invalid friend request status: "@
                    + enum_word(value@),
            },
    {
        let word = enum_word_of(value);
        if same_text(word.as_str(), "pending") {
            Ok(FriendRequestStatus::Pending)
        } else if same_text(word.as_str(), "accepted") {
            Ok(FriendRequestStatus::Accepted)
        } else if same_text(word.as_str(), "declined") {
            Ok(FriendRequestStatus::Declined)
        } else if same_text(word.as_str(), "cancelled") {
            Ok(FriendRequestStatus::Cancelled)
        } else {
            let mut m = String::from_str("invalid friend request status: ");
            m.append(word.as_str());
            Err(m)
        }
    }
}

impl std::str::FromStr for FriendRequestStatus {
    type Err = String;

    fn from_str(value: &str) -> (r: Result<Self, Self::Err>)
        ensures
            match Self::from_word(enum_word(value@)) {
                Some(s) => r == Ok::<Self, String>(s),
                None => r matches Err(m) && m@ == "invalid friend request status: "@
                    + enum_word(value@),
            },
    {
        Self::parse(value)
    }
}

/// Which side of a request the reader is on.
#[derive(Debug, Clone, Copy, PartialEq, Eq, Structural)]
pub enum FriendRequestDirection {
    /// Someone asked the reader.
    Incoming,
    /// The reader asked someone.
    Outgoing,
}

/// A friend request as one side sees it: the counterpart plus the direction.
#[derive(Debug, Clone)]
pub struct FriendRequest {
    pub id: i64,
    pub counterpart_user_id: UserId,
    pub direction: FriendRequestDirection,
    pub message: String,
    pub status: FriendRequestStatus,
    pub created_at: UnixSeconds,
    pub responded_at: Option<UnixSeconds>,
}

/// An accepted friendship, from the reader's side.
#[derive(Debug, Clone)]
pub struct Friend {
    pub user_id: UserId,
    pub friended_at: UnixSeconds,
}

/// What accepting a request produced. The conversation is opened eagerly so
/// the client can navigate straight into a thread.
#[derive(Debug, Clone)]
pub struct AcceptedFriendRequest {
    pub friend: Friend,
    pub conversation_id: i64,
}

/// What sending a friend request produced.
#[derive(Debug, Clone)]
pub enum FriendRequestOutcome {
    /// Waiting for the other side to answer.
    Pending { request_id: i64 },
    /// The other side had already asked; two people asking each other is
    /// mutual consent, so the request is settled immediately.
    Accepted(AcceptedFriendRequest),
}

/// The numbers the 消息 tab badges itself with.
#[derive(Debug, Clone, Copy)]
pub struct SocialUnreadSummary {
    pub unread_message_count: i64,
    /// Threads with at least one unread message.
    pub unread_conversation_count: i64,
    pub pending_friend_request_count: i64,
}

/// Direct threads and groups share one table; this is the discriminator.
#[derive(Debug, Clone, Copy, PartialEq, Eq, Structural)]
pub enum ConversationKind {
    /// Exactly two members, created on demand between friends.
    Direct,
    /// Owner plus invited members, with a title.
    Group,
}

impl ConversationKind {
    pub open spec fn word(self) -> Seq<char> {
        match self {
            ConversationKind::Direct => "direct"@,
            ConversationKind::Group => "group"@,
        }
    }

    pub open spec fn from_word(word: Seq<char>) -> Option<ConversationKind> {
        if word == "direct"@ {
            Some(ConversationKind::Direct)
        } else if word == "group"@ {
            Some(ConversationKind::Group)
        } else {
            None
        }
    }

    pub fn as_str(self) -> (r: &'static str)
        ensures
            r@ == self.word(),
    {
        match self {
            ConversationKind::Direct => "direct",
            ConversationKind::Group => "group",
        }
    }

    /// Reads a kind from text, ignoring surrounding white space and ASCII
    /// case; "invalid conversation kind: <word>" otherwise.
    pub fn parse(value: &str) -> (r: Result<ConversationKind, String>)
        ensures
            match Self::from_word(enum_word(value@)) {
                Some(k) => r == Ok::<ConversationKind, String>(k),
                None => r matches Err(m) && m@ == "invalid conversation kind: "@ + enum_word(
                    value@,
                ),
            },
    {
        let word = enum_word_of(value);
        if same_text(word.as_str(), "direct") {
            Ok(ConversationKind::Direct)
        } else if same_text(word.as_str(), "group") {
            Ok(ConversationKind::Group)
        } else {
            let mut m = String::from_str("invalid conversation kind: ");
            m.append(word.as_str());
            Err(m)
        }
    }
}

impl std::str::FromStr for ConversationKind {
    type Err = String;

    fn from_str(value: &str) -> (r: Result<Self, Self::Err>)
        ensures
            match Self::from_word(enum_word(value@)) {
                Some(k) => r == Ok::<Self, String>(k),
                None => r matches Err(m) && m@ == "invalid conversation kind: "@ + enum_word(
                    value@,
                ),
            },
    {
        Self::parse(value)
    }
}

/// What a member may do in a group. Direct threads store `Member` for both.
/// Ranked in declaration order: member, then admin, then owner.
#[derive(Debug, Clone, Copy, PartialEq, Eq, PartialOrd, Ord, Structural)]
pub enum ConversationMemberRole {
    Member,
    /// May add and remove members; may not delete the group.
    Admin,
    Owner,
}

impl ConversationMemberRole {
    pub open spec fn word(self) -> Seq<char> {
        match self {
            ConversationMemberRole::Member => "member"@,
            ConversationMemberRole::Admin => "admin"@,
            ConversationMemberRole::Owner => "owner"@,
        }
    }

    pub open spec fn from_word(word: Seq<char>) -> Option<ConversationMemberRole> {
        if word == "member"@ {
            Some(ConversationMemberRole::Member)
        } else if word == "admin"@ {
            Some(ConversationMemberRole::Admin)
        } else if word == "owner"@ {
            Some(ConversationMemberRole::Owner)
        } else {
            None
        }
    }

    /// The rank behind the role order.
    pub open spec fn rank_spec(self) -> int {
        match self {
            ConversationMemberRole::Member => 0,
            ConversationMemberRole::Admin => 1,
            ConversationMemberRole::Owner => 2,
        }
    }

    pub fn rank(self) -> (r: u8)
        ensures
            r == self.rank_spec(),
    {
        match self {
            ConversationMemberRole::Member => 0,
            ConversationMemberRole::Admin => 1,
            ConversationMemberRole::Owner => 2,
        }
    }

    /// True when `self` ranks at least as high as `other`.
    pub fn outranks_or_equals(self, other: ConversationMemberRole) -> (r: bool)
        ensures
            r == (self.rank_spec() >= other.rank_spec()),
    {
        self.rank() >= other.rank()
    }

    pub fn as_str(self) -> (r: &'static str)
        ensures
            r@ == self.word(),
    {
        match self {
            ConversationMemberRole::Member => "member",
            ConversationMemberRole::Admin => "admin",
            ConversationMemberRole::Owner => "owner",
        }
    }

    /// True for the roles allowed to change the member list and the title.
    pub open spec fn spec_can_manage(self) -> bool {
        self == ConversationMemberRole::Admin || self == ConversationMemberRole::Owner
    }

    pub fn can_manage(self) -> (r: bool)
        ensures
            r == self.spec_can_manage(),
    {
        match self {
            ConversationMemberRole::Admin | ConversationMemberRole::Owner => true,
            ConversationMemberRole::Member => false,
        }
    }

    /// Reads a role from text, ignoring surrounding white space and ASCII
    /// case; "invalid conversation member role: <word>" otherwise.
    pub fn parse(value: &str) -> (r: Result<ConversationMemberRole, String>)
        ensures
            match Self::from_word(enum_word(value@)) {
                Some(k) => r == Ok::<ConversationMemberRole, String>(k),
                None => r matches Err(m) && m@ == "invalid conversation member role: "@
                    + enum_word(value@),
            },
    {
        let word = enum_word_of(value);
        if same_text(word.as_str(), "member") {
            Ok(ConversationMemberRole::Member)
        } else if same_text(word.as_str(), "admin") {
            Ok(ConversationMemberRole::Admin)
        } else if same_text(word.as_str(), "owner") {
            Ok(ConversationMemberRole::Owner)
        } else {
            let mut m = String::from_str("invalid conversation member role: ");
            m.append(word.as_str());
            Err(m)
        }
    }
}

impl std::str::FromStr for ConversationMemberRole {
    type Err = String;

    fn from_str(value: &str) -> (r: Result<Self, Self::Err>)
        ensures
            match Self::from_word(enum_word(value@)) {
                Some(k) => r == Ok::<Self, String>(k),
                None => r matches Err(m) && m@ == "invalid conversation member role: "@
                    + enum_word(value@),
            },
    {
        Self::parse(value)
    }
}

/// Text written by a member, or a system line recording a membership change.
#[derive(Debug, Clone, Copy, PartialEq, Eq, Structural)]
pub enum SocialMessageKind {
    Text,
    System,
}

impl SocialMessageKind {
    pub open spec fn word(self) -> Seq<char> {
        match self {
            SocialMessageKind::Text => "text"@,
            SocialMessageKind::System => "system"@,
        }
    }

    pub open spec fn from_word(word: Seq<char>) -> Option<SocialMessageKind> {
        if word == "text"@ {
            Some(SocialMessageKind::Text)
        } else if word == "system"@ {
            Some(SocialMessageKind::System)
        } else {
            None
        }
    }

    pub fn as_str(self) -> (r: &'static str)
        ensures
            r@ == self.word(),
    {
        match self {
            SocialMessageKind::Text => "text",
            SocialMessageKind::System => "system",
        }
    }

    /// Reads a kind from text, ignoring surrounding white space and ASCII
    /// case; "invalid social message kind: <word>" otherwise.
    pub fn parse(value: &str) -> (r: Result<SocialMessageKind, String>)
        ensures
            match Self::from_word(enum_word(value@)) {
                Some(k) => r == Ok::<SocialMessageKind, String>(k),
                None => r matches Err(m) && m@ == "invalid social message kind: "@ + enum_word(
                    value@,
                ),
            },
    {
        let word = enum_word_of(value);
        if same_text(word.as_str(), "text") {
            Ok(SocialMessageKind::Text)
        } else if same_text(word.as_str(), "system") {
            Ok(SocialMessageKind::System)
        } else {
            let mut m = String::from_str("invalid social message kind: ");
            m.append(word.as_str());
            Err(m)
        }
    }
}

impl std::str::FromStr for SocialMessageKind {
    type Err = String;

    fn from_str(value: &str) -> (r: Result<Self, Self::Err>)
        ensures
            match Self::from_word(enum_word(value@)) {
                Some(k) => r == Ok::<Self, String>(k),
                None => r matches Err(m) && m@ == "invalid social message kind: "@ + enum_word(
                    value@,
                ),
            },
    {
        Self::parse(value)
    }
}

/// One message in a thread.
#[derive(Debug, Clone)]
pub struct SocialMessage {
    pub id: i64,
    pub conversation_id: i64,
    /// `None` for system lines, and for text whose author has been deleted.
    pub sender_user_id: Option<UserId>,
    pub kind: SocialMessageKind,
    /// Empty when `deleted` is true: a removed message keeps its place in the
    /// id sequence because every member's read cursor is an id in it.
    pub body: String,
    pub created_at: UnixSeconds,
    pub deleted: bool,
}

/// A conversation with everything the list row needs, read as one unit.
#[derive(Debug, Clone)]
pub struct ConversationSummary {
    pub id: i64,
    pub kind: ConversationKind,
    /// Empty for direct threads, which render as `counterpart`.
    pub title: String,
    pub owner_user_id: Option<UserId>,
    /// The other participant of a direct thread; `None` for a group.
    pub counterpart_user_id: Option<UserId>,
    pub member_count: i64,
    pub viewer_role: ConversationMemberRole,
    pub muted: bool,
    pub unread_count: i64,
    pub last_message: Option<SocialMessage>,
    pub created_at: UnixSeconds,
    pub updated_at: UnixSeconds,
}

/// A member of a group, for the member sheet.
#[derive(Debug, Clone)]
pub struct ConversationMember {
    pub user_id: UserId,
    pub role: ConversationMemberRole,
    pub joined_at: UnixSeconds,
}

/// Fields accepted when creating a group.
#[derive(Debug, Clone)]
pub struct NewGroupConversation {
    pub title: String,
    /// Accounts invited at creation time, excluding the creator.
    pub member_user_ids: Vec<UserId>,
}

/// One conversation as an administrator sees it in the moderation listing.
#[derive(Debug, Clone)]
pub struct AdminConversationOverview {
    pub id: i64,
    pub kind: ConversationKind,
    /// Empty for direct threads, which have no title of their own.
    pub title: String,
    /// The group's creator, absent for a direct thread or a deleted account.
    pub owner_user_id: Option<UserId>,
    pub member_count: i64,
    /// Messages still standing; a soft-deleted message is not counted.
    pub message_count: i64,
    pub last_message_at: Option<UnixSeconds>,
    pub created_at: UnixSeconds,
}


/// Every stored word reads back as the value that wrote it.
pub proof fn social_words_read_back(
    status: FriendRequestStatus,
    kind: ConversationKind,
    role: ConversationMemberRole,
    message_kind: SocialMessageKind,
)
    ensures
        FriendRequestStatus::from_word(enum_word(status.word())) == Some(status),
        ConversationKind::from_word(enum_word(kind.word())) == Some(kind),
        ConversationMemberRole::from_word(enum_word(role.word())) == Some(role),
        SocialMessageKind::from_word(enum_word(message_kind.word())) == Some(message_kind),
{
    reveal_strlit("pending");
    reveal_strlit("accepted");
    reveal_strlit("declined");
    reveal_strlit("cancelled");
    reveal_strlit("direct");
    reveal_strlit("group");
    reveal_strlit("member");
    reveal_strlit("admin");
    reveal_strlit("owner");
    reveal_strlit("text");
    reveal_strlit("system");
    lemma_plain_word_reads_as_itself(status.word());
    lemma_plain_word_reads_as_itself(kind.word());
    lemma_plain_word_reads_as_itself(role.word());
    lemma_plain_word_reads_as_itself(message_kind.word());
}

/// Managing a group (its member list and its title) is for its owner and
/// its admins alike, and for nobody else: a role may manage exactly when it
/// ranks at least as high as an admin, so a plain member never may and an
/// admin always may.
pub proof fn admins_and_owners_manage_groups(role: ConversationMemberRole)
    ensures
        role.spec_can_manage() <==> role.rank_spec() >= ConversationMemberRole::Admin.rank_spec(),
        role.spec_can_manage() <==> role != ConversationMemberRole::Member,
        ConversationMemberRole::Admin.spec_can_manage(),
        ConversationMemberRole::Owner.spec_can_manage(),
        !ConversationMemberRole::Member.spec_can_manage(),
{
}

/// The roles form a strict ladder, member below admin below owner; so the
/// owner outranks everyone else in a group and an admin outranks only plain
/// members.
pub proof fn roles_form_a_ladder(role: ConversationMemberRole)
    ensures
        ConversationMemberRole::Member.rank_spec() < ConversationMemberRole::Admin.rank_spec(),
        ConversationMemberRole::Admin.rank_spec() < ConversationMemberRole::Owner.rank_spec(),
        role != ConversationMemberRole::Owner ==> role.rank_spec()
            < ConversationMemberRole::Owner.rank_spec(),
        role != ConversationMemberRole::Member ==> role.rank_spec()
            > ConversationMemberRole::Member.rank_spec(),
{
}

} // verus!
