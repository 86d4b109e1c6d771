//! Request events: friend requests, group invitations and their outcomes.

use vstd::prelude::*;
use crate::events::traits::{Event, EventMetadata, EventSource};
use crate::text::{opt_view, opt_str_view, opt_as_str};
use crate::time::Timestamp;

verus! {

/// Request event types.
#[derive(Debug, Clone, PartialEq)]
pub enum RequestEvent {
    /// A friend request.
    FriendRequest {
        from_user_id: String,
        comment: Option<String>,
        metadata: EventMetadata,
    },
    /// An invitation to a group.
    GroupInvite {
        inviter_id: String,
        group_id: String,
        message: Option<String>,
        metadata: EventMetadata,
    },
    /// A request to join a group.
    GroupJoinRequest {
        user_id: String,
        group_id: String,
        reason: Option<String>,
        metadata: EventMetadata,
    },
    /// A request was approved.
    RequestApprove {
        request_type: String,
        request_id: String,
        approver_id: Option<String>,
        metadata: EventMetadata,
    },
    /// A request was rejected.
    RequestReject {
        request_type: String,
        request_id: String,
        rejector_id: Option<String>,
        reason: Option<String>,
        metadata: EventMetadata,
    },
    /// A request was cancelled.
    RequestCancel {
        request_type: String,
        request_id: String,
        canceled_by: String,
        reason: Option<String>,
        metadata: EventMetadata,
    },
}

impl RequestEvent {
    /// The metadata of this event.
    pub open spec fn spec_metadata(self) -> EventMetadata {
        match self {
            RequestEvent::FriendRequest { metadata, .. } => metadata,
            RequestEvent::GroupInvite { metadata, .. } => metadata,
            RequestEvent::GroupJoinRequest { metadata, .. } => metadata,
            RequestEvent::RequestApprove { metadata, .. } => metadata,
            RequestEvent::RequestReject { metadata, .. } => metadata,
            RequestEvent::RequestCancel { metadata, .. } => metadata,
        }
    }

    /// The dotted type name of this event.
    pub open spec fn spec_event_type(self) -> Seq<char> {
        match self {
            RequestEvent::FriendRequest { .. } => "request.friend"@,
            RequestEvent::GroupInvite { .. } => "request.group.invite"@,
            RequestEvent::GroupJoinRequest { .. } => "request.group.join"@,
            RequestEvent::RequestApprove { .. } => "request.approve"@,
            RequestEvent::RequestReject { .. } => "request.reject"@,
            RequestEvent::RequestCancel { .. } => "request.cancel"@,
        }
    }

    /// The user id this event reports.
    pub open spec fn spec_user_id(self) -> Option<Seq<char>> {
        match self {
            RequestEvent::FriendRequest { from_user_id, .. } => Some(from_user_id@),
            RequestEvent::GroupInvite { inviter_id, .. } => Some(inviter_id@),
            RequestEvent::GroupJoinRequest { user_id, .. } => Some(user_id@),
            RequestEvent::RequestApprove { .. } => None,
            RequestEvent::RequestReject { .. } => None,
            RequestEvent::RequestCancel { .. } => None,
        }
    }

    /// The group id this event reports.
    pub open spec fn spec_group_id(self) -> Option<Seq<char>> {
        match self {
            RequestEvent::FriendRequest { .. } => None,
            RequestEvent::GroupInvite { group_id, .. } => Some(group_id@),
            RequestEvent::GroupJoinRequest { group_id, .. } => Some(group_id@),
            RequestEvent::RequestApprove { .. } => None,
            RequestEvent::RequestReject { .. } => None,
            RequestEvent::RequestCancel { .. } => None,
        }
    }

    /// The metadata of this event, borrowed.
    pub fn metadata(&self) -> (r: &EventMetadata)
        ensures
            *r == self.spec_metadata(),
    {
        match self {
            RequestEvent::FriendRequest { metadata, .. } => metadata,
            RequestEvent::GroupInvite { metadata, .. } => metadata,
            RequestEvent::GroupJoinRequest { metadata, .. } => metadata,
            RequestEvent::RequestApprove { metadata, .. } => metadata,
            RequestEvent::RequestReject { metadata, .. } => metadata,
            RequestEvent::RequestCancel { metadata, .. } => metadata,
        }
    }


}

impl Event for RequestEvent {
    fn event_id(&self) -> (r: &str)
        ensures
            r@ == self.spec_metadata().event_id@,
    {
        self.metadata().event_id.as_str()
    }

    fn event_type(&self) -> (r: &str)
        ensures
            r@ == self.spec_event_type(),
    {
        match self {
            RequestEvent::FriendRequest { .. } => "request.friend",
            RequestEvent::GroupInvite { .. } => "request.group.invite",
            RequestEvent::GroupJoinRequest { .. } => "request.group.join",
            RequestEvent::RequestApprove { .. } => "request.approve",
            RequestEvent::RequestReject { .. } => "request.reject",
            RequestEvent::RequestCancel { .. } => "request.cancel",
        }
    }

    fn timestamp(&self) -> (r: Timestamp)
        ensures
            r == self.spec_metadata().timestamp,
    {
        self.metadata().timestamp
    }

    fn source(&self) -> (r: EventSource)
        ensures
            r == self.spec_metadata().source,
    {
        self.metadata().source.clone()
    }

    fn user_id(&self) -> (r: Option<&str>)
        ensures
            opt_str_view(r) == self.spec_user_id(),
    {
        match self {
            RequestEvent::FriendRequest { from_user_id, .. } => Some(from_user_id.as_str()),
            RequestEvent::GroupInvite { inviter_id, .. } => Some(inviter_id.as_str()),
            RequestEvent::GroupJoinRequest { user_id, .. } => Some(user_id.as_str()),
            RequestEvent::RequestApprove { .. } => None,
            RequestEvent::RequestReject { .. } => None,
            RequestEvent::RequestCancel { .. } => None,
        }
    }

    fn group_id(&self) -> (r: Option<&str>)
        ensures
            opt_str_view(r) == self.spec_group_id(),
    {
        match self {
            RequestEvent::FriendRequest { .. } => None,
            RequestEvent::GroupInvite { group_id, .. } => Some(group_id.as_str()),
            RequestEvent::GroupJoinRequest { group_id, .. } => Some(group_id.as_str()),
            RequestEvent::RequestApprove { .. } => None,
            RequestEvent::RequestReject { .. } => None,
            RequestEvent::RequestCancel { .. } => None,
        }
    }

    fn self_id(&self) -> (r: Option<&str>)
        ensures
            opt_str_view(r) == opt_view(self.spec_metadata().self_id),
    {
        opt_as_str(&self.metadata().self_id)
    }

    fn correlation_id(&self) -> (r: Option<&str>)
        ensures
            opt_str_view(r) == opt_view(self.spec_metadata().correlation_id),
    {
        opt_as_str(&self.metadata().correlation_id)
    }
}


/// Each kind of request has its own dotted type name under `request.`; two requests have the same type exactly when they are of the same kind.
pub proof fn lemma_request_types(a: RequestEvent, b: RequestEvent)
    ensures
        a is FriendRequest ==> a.spec_event_type() == "request.friend"@,
        a is GroupInvite ==> a.spec_event_type() == "request.group.invite"@,
        a is GroupJoinRequest ==> a.spec_event_type() == "request.group.join"@,
        a is RequestApprove ==> a.spec_event_type() == "request.approve"@,
        a is RequestReject ==> a.spec_event_type() == "request.reject"@,
        a is RequestCancel ==> a.spec_event_type() == "request.cancel"@,
        a.spec_event_type() == b.spec_event_type() ==> ((a is FriendRequest && b is FriendRequest) || (a is GroupInvite && b is GroupInvite) || (a is GroupJoinRequest && b is GroupJoinRequest) || (a is RequestApprove && b is RequestApprove) || (a is RequestReject && b is RequestReject) || (a is RequestCancel && b is RequestCancel)),
{
    reveal_strlit("request.friend");
    reveal_strlit("request.group.invite");
    reveal_strlit("request.group.join");
    reveal_strlit("request.approve");
    reveal_strlit("request.reject");
    reveal_strlit("request.cancel");
    let x = a.spec_event_type();
    let y = b.spec_event_type();
    if x == y {
        assert(x.len() == y.len() && x[8] == y[8] && x[14] == y[14]);
    }
}


/// Which ids a request reports: a friend request its sender, an invite its inviter and group, a join request its user and group, and approvals, rejections and cancellations neither.
pub proof fn lemma_request_ids(a: RequestEvent)
    ensures
        a matches RequestEvent::FriendRequest { from_user_id, .. } ==> a.spec_user_id() == Some(from_user_id@),
        a matches RequestEvent::GroupInvite { inviter_id, .. } ==> a.spec_user_id() == Some(inviter_id@),
        a matches RequestEvent::GroupJoinRequest { user_id, .. } ==> a.spec_user_id() == Some(user_id@),
        a is RequestApprove ==> a.spec_user_id() is None,
        a is RequestReject ==> a.spec_user_id() is None,
        a is RequestCancel ==> a.spec_user_id() is None,
        a is FriendRequest ==> a.spec_group_id() is None,
        a matches RequestEvent::GroupInvite { group_id, .. } ==> a.spec_group_id() == Some(group_id@),
        a matches RequestEvent::GroupJoinRequest { group_id, .. } ==> a.spec_group_id() == Some(group_id@),
        a is RequestApprove ==> a.spec_group_id() is None,
        a is RequestReject ==> a.spec_group_id() is None,
        a is RequestCancel ==> a.spec_group_id() is None,
{
}

} // verus!
