//! Notice events: group membership changes, friend changes and system notices.

use vstd::prelude::*;
use crate::events::traits::{Event, EventMetadata, EventSource};
use crate::text::{opt_view, opt_str_view, opt_as_str};
use crate::time::Timestamp;

verus! {

/// Information about a user.
#[derive(Debug, Clone, PartialEq)]
pub struct UserInfo {
    pub nickname: Option<String>,
    /// Avatar URL.
    pub avatar: Option<String>,
    pub card: Option<String>,
    pub sex: Option<String>,
    pub age: Option<u32>,
}

/// Notice event types.
#[derive(Debug, Clone, PartialEq)]
pub enum NoticeEvent {
    /// A member joined a group.
    GroupMemberJoin {
        user_id: String,
        group_id: String,
        user_info: Option<UserInfo>,
        metadata: EventMetadata,
    },
    /// A member left a group.
    GroupMemberLeave {
        user_id: String,
        group_id: String,
        reason: Option<String>,
        metadata: EventMetadata,
    },
    /// A member was kicked.
    GroupMemberKick {
        user_id: String,
        group_id: String,
        operator_id: String,
        reason: Option<String>,
        metadata: EventMetadata,
    },
    /// A member was banned; duration in seconds, 0 for permanent.
    GroupMemberBan {
        user_id: String,
        group_id: String,
        operator_id: String,
        duration: Option<u64>,
        reason: Option<String>,
        metadata: EventMetadata,
    },
    /// A member was muted; duration in seconds, 0 for permanent.
    GroupMemberMute {
        user_id: String,
        group_id: String,
        operator_id: String,
        duration: Option<u64>,
        reason: Option<String>,
        metadata: EventMetadata,
    },
    /// A group was renamed.
    GroupNameChange {
        old_name: String,
        new_name: String,
        operator_id: String,
        metadata: EventMetadata,
    },
    /// A friend was added.
    FriendAdd {
        user_id: String,
        user_info: Option<UserInfo>,
        metadata: EventMetadata,
    },
    /// A friend was removed.
    FriendDelete {
        user_id: String,
        metadata: EventMetadata,
    },
    /// An invitation to a group.
    GroupInvite {
        group_id: String,
        inviter_id: String,
        invitee_id: Option<String>,
        metadata: EventMetadata,
    },
    /// A group was disbanded.
    GroupDisband {
        group_id: String,
        operator_id: String,
        metadata: EventMetadata,
    },
    /// A friend request notice.
    FriendRequestNotice {
        from_user_id: String,
        metadata: EventMetadata,
    },
    /// A system notice.
    SystemNotice {
        notice_type: String,
        content: String,
        metadata: EventMetadata,
    },
}

impl NoticeEvent {
    /// The metadata of this event.
    pub open spec fn spec_metadata(self) -> EventMetadata {
        match self {
            NoticeEvent::GroupMemberJoin { metadata, .. } => metadata,
            NoticeEvent::GroupMemberLeave { metadata, .. } => metadata,
            NoticeEvent::GroupMemberKick { metadata, .. } => metadata,
            NoticeEvent::GroupMemberBan { metadata, .. } => metadata,
            NoticeEvent::GroupMemberMute { metadata, .. } => metadata,
            NoticeEvent::GroupNameChange { metadata, .. } => metadata,
            NoticeEvent::FriendAdd { metadata, .. } => metadata,
            NoticeEvent::FriendDelete { metadata, .. } => metadata,
            NoticeEvent::GroupInvite { metadata, .. } => metadata,
            NoticeEvent::GroupDisband { metadata, .. } => metadata,
            NoticeEvent::FriendRequestNotice { metadata, .. } => metadata,
            NoticeEvent::SystemNotice { metadata, .. } => metadata,
        }
    }

    /// The dotted type name of this event.
    pub open spec fn spec_event_type(self) -> Seq<char> {
        match self {
            NoticeEvent::GroupMemberJoin { .. } => "notice.group.member.join"@,
            NoticeEvent::GroupMemberLeave { .. } => "notice.group.member.leave"@,
            NoticeEvent::GroupMemberKick { .. } => "notice.group.member.kick"@,
            NoticeEvent::GroupMemberBan { .. } => "notice.group.member.ban"@,
            NoticeEvent::GroupMemberMute { .. } => "notice.group.member.mute"@,
            NoticeEvent::GroupNameChange { .. } => "notice.group.name.change"@,
            NoticeEvent::FriendAdd { .. } => "notice.friend.add"@,
            NoticeEvent::FriendDelete { .. } => "notice.friend.delete"@,
            NoticeEvent::GroupInvite { .. } => "notice.group.invite"@,
            NoticeEvent::GroupDisband { .. } => "notice.group.disband"@,
            NoticeEvent::FriendRequestNotice { .. } => "notice.friend.request"@,
            NoticeEvent::SystemNotice { .. } => "notice.system"@,
        }
    }

    /// The user id this event reports.
    pub open spec fn spec_user_id(self) -> Option<Seq<char>> {
        match self {
            NoticeEvent::GroupMemberJoin { user_id, .. } => Some(user_id@),
            NoticeEvent::GroupMemberLeave { user_id, .. } => Some(user_id@),
            NoticeEvent::GroupMemberKick { user_id, .. } => Some(user_id@),
            NoticeEvent::GroupMemberBan { user_id, .. } => Some(user_id@),
            NoticeEvent::GroupMemberMute { user_id, .. } => Some(user_id@),
            NoticeEvent::GroupNameChange { .. } => None,
            NoticeEvent::FriendAdd { user_id, .. } => Some(user_id@),
            NoticeEvent::FriendDelete { user_id, .. } => Some(user_id@),
            NoticeEvent::GroupInvite { .. } => None,
            NoticeEvent::GroupDisband { .. } => None,
            NoticeEvent::FriendRequestNotice { from_user_id, .. } => Some(from_user_id@),
            NoticeEvent::SystemNotice { .. } => None,
        }
    }

    /// The group id this event reports.
    pub open spec fn spec_group_id(self) -> Option<Seq<char>> {
        match self {
            NoticeEvent::GroupMemberJoin { group_id, .. } => Some(group_id@),
            NoticeEvent::GroupMemberLeave { group_id, .. } => Some(group_id@),
            NoticeEvent::GroupMemberKick { group_id, .. } => Some(group_id@),
            NoticeEvent::GroupMemberBan { group_id, .. } => Some(group_id@),
            NoticeEvent::GroupMemberMute { group_id, .. } => Some(group_id@),
            NoticeEvent::GroupNameChange { .. } => None,
            NoticeEvent::FriendAdd { .. } => None,
            NoticeEvent::FriendDelete { .. } => None,
            NoticeEvent::GroupInvite { group_id, .. } => Some(group_id@),
            NoticeEvent::GroupDisband { group_id, .. } => Some(group_id@),
            NoticeEvent::FriendRequestNotice { .. } => None,
            NoticeEvent::SystemNotice { .. } => None,
        }
    }

    /// The metadata of this event, borrowed.
    pub fn metadata(&self) -> (r: &EventMetadata)
        ensures
            *r == self.spec_metadata(),
    {
        match self {
            NoticeEvent::GroupMemberJoin { metadata, .. } => metadata,
            NoticeEvent::GroupMemberLeave { metadata, .. } => metadata,
            NoticeEvent::GroupMemberKick { metadata, .. } => metadata,
            NoticeEvent::GroupMemberBan { metadata, .. } => metadata,
            NoticeEvent::GroupMemberMute { metadata, .. } => metadata,
            NoticeEvent::GroupNameChange { metadata, .. } => metadata,
            NoticeEvent::FriendAdd { metadata, .. } => metadata,
            NoticeEvent::FriendDelete { metadata, .. } => metadata,
            NoticeEvent::GroupInvite { metadata, .. } => metadata,
            NoticeEvent::GroupDisband { metadata, .. } => metadata,
            NoticeEvent::FriendRequestNotice { metadata, .. } => metadata,
            NoticeEvent::SystemNotice { metadata, .. } => metadata,
        }
    }


}

impl Event for NoticeEvent {
    fn event_id(&self) -> (r: &str)
        ensures
            r@ == self.spec_metadata().event_id@,
    {
        self.metadata().event_id.as_str()
    }

    fn event_type(&self) -> (r: &str)
        ensures
            r@ == self.spec_event_type(),
    {
        match self {
            NoticeEvent::GroupMemberJoin { .. } => "notice.group.member.join",
            NoticeEvent::GroupMemberLeave { .. } => "notice.group.member.leave",
            NoticeEvent::GroupMemberKick { .. } => "notice.group.member.kick",
            NoticeEvent::GroupMemberBan { .. } => "notice.group.member.ban",
            NoticeEvent::GroupMemberMute { .. } => "notice.group.member.mute",
            NoticeEvent::GroupNameChange { .. } => "notice.group.name.change",
            NoticeEvent::FriendAdd { .. } => "notice.friend.add",
            NoticeEvent::FriendDelete { .. } => "notice.friend.delete",
            NoticeEvent::GroupInvite { .. } => "notice.group.invite",
            NoticeEvent::GroupDisband { .. } => "notice.group.disband",
            NoticeEvent::FriendRequestNotice { .. } => "notice.friend.request",
            NoticeEvent::SystemNotice { .. } => "notice.system",
        }
    }

    fn timestamp(&self) -> (r: Timestamp)
        ensures
            r == self.spec_metadata().timestamp,
    {
        self.metadata().timestamp
    }

    fn source(&self) -> (r: EventSource)
        ensures
            r == self.spec_metadata().source,
    {
        self.metadata().source.clone()
    }

    fn user_id(&self) -> (r: Option<&str>)
        ensures
            opt_str_view(r) == self.spec_user_id(),
    {
        match self {
            NoticeEvent::GroupMemberJoin { user_id, .. } => Some(user_id.as_str()),
            NoticeEvent::GroupMemberLeave { user_id, .. } => Some(user_id.as_str()),
            NoticeEvent::GroupMemberKick { user_id, .. } => Some(user_id.as_str()),
            NoticeEvent::GroupMemberBan { user_id, .. } => Some(user_id.as_str()),
            NoticeEvent::GroupMemberMute { user_id, .. } => Some(user_id.as_str()),
            NoticeEvent::GroupNameChange { .. } => None,
            NoticeEvent::FriendAdd { user_id, .. } => Some(user_id.as_str()),
            NoticeEvent::FriendDelete { user_id, .. } => Some(user_id.as_str()),
            NoticeEvent::GroupInvite { .. } => None,
            NoticeEvent::GroupDisband { .. } => None,
            NoticeEvent::FriendRequestNotice { from_user_id, .. } => Some(from_user_id.as_str()),
            NoticeEvent::SystemNotice { .. } => None,
        }
    }

    fn group_id(&self) -> (r: Option<&str>)
        ensures
            opt_str_view(r) == self.spec_group_id(),
    {
        match self {
            NoticeEvent::GroupMemberJoin { group_id, .. } => Some(group_id.as_str()),
            NoticeEvent::GroupMemberLeave { group_id, .. } => Some(group_id.as_str()),
            NoticeEvent::GroupMemberKick { group_id, .. } => Some(group_id.as_str()),
            NoticeEvent::GroupMemberBan { group_id, .. } => Some(group_id.as_str()),
            NoticeEvent::GroupMemberMute { group_id, .. } => Some(group_id.as_str()),
            NoticeEvent::GroupNameChange { .. } => None,
            NoticeEvent::FriendAdd { .. } => None,
            NoticeEvent::FriendDelete { .. } => None,
            NoticeEvent::GroupInvite { group_id, .. } => Some(group_id.as_str()),
            NoticeEvent::GroupDisband { group_id, .. } => Some(group_id.as_str()),
            NoticeEvent::FriendRequestNotice { .. } => None,
            NoticeEvent::SystemNotice { .. } => None,
        }
    }

    fn self_id(&self) -> (r: Option<&str>)
        ensures
            opt_str_view(r) == opt_view(self.spec_metadata().self_id),
    {
        opt_as_str(&self.metadata().self_id)
    }

    fn correlation_id(&self) -> (r: Option<&str>)
        ensures
            opt_str_view(r) == opt_view(self.spec_metadata().correlation_id),
    {
        opt_as_str(&self.metadata().correlation_id)
    }
}


/// Each kind of notice has its own dotted type name under `notice.`; two notices have the same type exactly when they are of the same kind.
pub proof fn lemma_notice_types(a: NoticeEvent, b: NoticeEvent)
    ensures
        a is GroupMemberJoin ==> a.spec_event_type() == "notice.group.member.join"@,
        a is GroupMemberLeave ==> a.spec_event_type() == "notice.group.member.leave"@,
        a is GroupMemberKick ==> a.spec_event_type() == "notice.group.member.kick"@,
        a is GroupMemberBan ==> a.spec_event_type() == "notice.group.member.ban"@,
        a is GroupMemberMute ==> a.spec_event_type() == "notice.group.member.mute"@,
        a is GroupNameChange ==> a.spec_event_type() == "notice.group.name.change"@,
        a is FriendAdd ==> a.spec_event_type() == "notice.friend.add"@,
        a is FriendDelete ==> a.spec_event_type() == "notice.friend.delete"@,
        a is GroupInvite ==> a.spec_event_type() == "notice.group.invite"@,
        a is GroupDisband ==> a.spec_event_type() == "notice.group.disband"@,
        a is FriendRequestNotice ==> a.spec_event_type() == "notice.friend.request"@,
        a is SystemNotice ==> a.spec_event_type() == "notice.system"@,
        a.spec_event_type() == b.spec_event_type() ==> ((a is GroupMemberJoin && b is GroupMemberJoin) || (a is GroupMemberLeave && b is GroupMemberLeave) || (a is GroupMemberKick && b is GroupMemberKick) || (a is GroupMemberBan && b is GroupMemberBan) || (a is GroupMemberMute && b is GroupMemberMute) || (a is GroupNameChange && b is GroupNameChange) || (a is FriendAdd && b is FriendAdd) || (a is FriendDelete && b is FriendDelete) || (a is GroupInvite && b is GroupInvite) || (a is GroupDisband && b is GroupDisband) || (a is FriendRequestNotice && b is FriendRequestNotice) || (a is SystemNotice && b is SystemNotice)),
{
    reveal_strlit("notice.group.member.join");
    reveal_strlit("notice.group.member.leave");
    reveal_strlit("notice.group.member.kick");
    reveal_strlit("notice.group.member.ban");
    reveal_strlit("notice.group.member.mute");
    reveal_strlit("notice.group.name.change");
    reveal_strlit("notice.friend.add");
    reveal_strlit("notice.friend.delete");
    reveal_strlit("notice.group.invite");
    reveal_strlit("notice.group.disband");
    reveal_strlit("notice.friend.request");
    reveal_strlit("notice.system");
    let x = a.spec_event_type();
    let y = b.spec_event_type();
    if x == y {
        assert(x.len() == y.len() && x[7] == y[7] && x[13] == y[13] && x[14] == y[14] && x[20] == y[20]);
    }
}


/// Which ids a notice reports: member events report their member and group, a friend event its user, a friend request its sender, an invite or disband its group, and the others neither.
pub proof fn lemma_notice_ids(a: NoticeEvent)
    ensures
        a matches NoticeEvent::GroupMemberJoin { user_id, .. } ==> a.spec_user_id() == Some(user_id@),
        a matches NoticeEvent::GroupMemberLeave { user_id, .. } ==> a.spec_user_id() == Some(user_id@),
        a matches NoticeEvent::GroupMemberKick { user_id, .. } ==> a.spec_user_id() == Some(user_id@),
        a matches NoticeEvent::GroupMemberBan { user_id, .. } ==> a.spec_user_id() == Some(user_id@),
        a matches NoticeEvent::GroupMemberMute { user_id, .. } ==> a.spec_user_id() == Some(user_id@),
        a is GroupNameChange ==> a.spec_user_id() is None,
        a matches NoticeEvent::FriendAdd { user_id, .. } ==> a.spec_user_id() == Some(user_id@),
        a matches NoticeEvent::FriendDelete { user_id, .. } ==> a.spec_user_id() == Some(user_id@),
        a is GroupInvite ==> a.spec_user_id() is None,
        a is GroupDisband ==> a.spec_user_id() is None,
        a matches NoticeEvent::FriendRequestNotice { from_user_id, .. } ==> a.spec_user_id() == Some(from_user_id@),
        a is SystemNotice ==> a.spec_user_id() is None,
        a matches NoticeEvent::GroupMemberJoin { group_id, .. } ==> a.spec_group_id() == Some(group_id@),
        a matches NoticeEvent::GroupMemberLeave { group_id, .. } ==> a.spec_group_id() == Some(group_id@),
        a matches NoticeEvent::GroupMemberKick { group_id, .. } ==> a.spec_group_id() == Some(group_id@),
        a matches NoticeEvent::GroupMemberBan { group_id, .. } ==> a.spec_group_id() == Some(group_id@),
        a matches NoticeEvent::GroupMemberMute { group_id, .. } ==> a.spec_group_id() == Some(group_id@),
        a is GroupNameChange ==> a.spec_group_id() is None,
        a is FriendAdd ==> a.spec_group_id() is None,
        a is FriendDelete ==> a.spec_group_id() is None,
        a matches NoticeEvent::GroupInvite { group_id, .. } ==> a.spec_group_id() == Some(group_id@),
        a matches NoticeEvent::GroupDisband { group_id, .. } ==> a.spec_group_id() == Some(group_id@),
        a is FriendRequestNotice ==> a.spec_group_id() is None,
        a is SystemNotice ==> a.spec_group_id() is None,
{
}

} // verus!
