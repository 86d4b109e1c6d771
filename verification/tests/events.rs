use loquat::events::block::{Block, BlockType};
use loquat::events::event::UnifiedEvent;
use loquat::events::event_enum::EventEnum;
use loquat::events::group::Group;
use loquat::events::message::MessageEvent;
use loquat::events::notice::NoticeEvent;
use loquat::events::package::{Package, PackagePayload};
use loquat::events::payloads_legacy::{
    BlobPayload, MessageContent, MessagePayload, MessageSubtype, NoticeContent, NoticePayload,
    NoticeSubtype, PayloadType, RequestContent, RequestPayload, RequestSubtype, TextPayload,
};
use loquat::events::request::RequestEvent;
use loquat::events::target_site::TargetSite;
use loquat::events::traits::{Event, EventMetadata, EventSource};

#[test]
fn test_block_creation() {
    let block = Block::new(BlockType::Message);
    assert!(block.groups.is_empty());
    assert_eq!(block.block_type, BlockType::Message);
    assert!(!block.block_id.is_empty());
}

#[test]
fn test_block_builder() {
    let group = Group::new("test_group");
    let block = Block::new(BlockType::Default).with_group(group);
    assert_eq!(block.groups.len(), 1);
}

#[test]
fn test_simple_event_creation() {
    let metadata = EventMetadata::new("test.event").with_source(EventSource::System);
    let event = UnifiedEvent::simple("meta.heartbeat", metadata);
    assert!(event.is_simple());
    assert!(!event.is_group());
    assert_eq!(event.event_type(), "meta.heartbeat");
}

#[test]
fn test_message_text_event() {
    let metadata = EventMetadata::new("message.text")
        .with_user_id("user123")
        .with_group_id("group456");
    let event = UnifiedEvent::message_text("Hello world", metadata);
    assert!(event.is_group());
    assert!(event.is_message());
    assert!(!event.is_notice());
    assert_eq!(event.event_type(), "message.text");
    assert_eq!(event.user_id(), Some("user123"));
    assert_eq!(event.group_id(), Some("group456"));
}

#[test]
fn test_message_content_access() {
    let metadata = EventMetadata::new("message.text");
    let event = UnifiedEvent::message_text("Hello", metadata);
    if let Some(payload) = event.as_message() {
        if let MessageContent::Text { text } = &payload.content {
            assert_eq!(text, "Hello");
        } else {
            panic!("Expected Text content");
        }
    } else {
        panic!("Expected message payload");
    }
}

#[test]
fn test_heartbeat_event() {
    let metadata = EventMetadata::new("heartbeat");
    let event = UnifiedEvent::heartbeat(5000, metadata);
    assert!(event.is_simple());
    assert_eq!(event.event_type(), "meta.heartbeat");
}

#[test]
fn test_notice_member_join() {
    let metadata = EventMetadata::new("notice.group.member.join")
        .with_user_id("user123")
        .with_group_id("group456");
    let event = UnifiedEvent::notice_member_join(
        "user123".to_string(),
        "group456".to_string(),
        None,
        metadata,
    );
    assert!(event.is_group());
    assert!(event.is_notice());
    assert_eq!(event.event_type(), "notice.group.member.join");
}

#[test]
fn test_request_friend() {
    let metadata = EventMetadata::new("request.friend").with_user_id("user123");
    let event =
        UnifiedEvent::request_friend("user123".to_string(), Some("Hi".to_string()), metadata);
    assert!(event.is_group());
    assert!(event.is_request());
    assert_eq!(event.event_type(), "request.friend");
}

#[test]
fn test_event_enum_message() {
    let message_event = MessageEvent::Text {
        text: "Hello".to_string(),
        metadata: EventMetadata::default(),
    };
    let event_enum = EventEnum::Message(message_event);
    assert!(event_enum.is_message());
    assert!(!event_enum.is_notice());
    assert!(event_enum.as_message().is_some());
}

#[test]
fn test_group_creation() {
    let group = Group::new("test_group");
    assert!(group.events.is_empty());
    assert_eq!(group.group_id, "test_group");
    assert!(group.group_type.is_none());
}

#[test]
fn test_group_with_type() {
    let group = Group::with_type("test_group", "message");
    assert_eq!(group.group_id, "test_group");
    assert_eq!(group.group_type, Some("message".to_string()));
}

#[test]
fn test_group_builder() {
    let message_event = EventEnum::Message(MessageEvent::Text {
        text: "Hello".to_string(),
        metadata: EventMetadata::default(),
    });
    let group = Group::new("test_group").with_event(message_event);
    assert_eq!(group.events.len(), 1);
}

#[test]
fn test_message_event_text() {
    let metadata = EventMetadata::new("message.text")
        .with_user_id("user123")
        .with_group_id("group456");
    let event = MessageEvent::Text { text: "Hello world".to_string(), metadata: metadata.clone() };
    assert_eq!(event.event_type(), "message.text");
    assert_eq!(event.content(), Some("Hello world"));
    assert_eq!(event.media_url(), None);
}

#[test]
fn test_message_event_image() {
    let metadata = EventMetadata::new("message.image");
    let event = MessageEvent::Image {
        url: "https://example.com/image.jpg".to_string(),
        caption: Some("A beautiful image".to_string()),
        metadata: metadata.clone(),
    };
    assert_eq!(event.event_type(), "message.image");
    assert_eq!(event.content(), Some("A beautiful image"));
    assert_eq!(event.media_url(), Some("https://example.com/image.jpg"));
}

#[test]
fn test_message_event_at() {
    let metadata = EventMetadata::new("message.at");
    let event = MessageEvent::At {
        text: "@all Hello".to_string(),
        at_list: vec!["user1".to_string(), "user2".to_string()],
        metadata: metadata.clone(),
    };
    assert_eq!(event.event_type(), "message.at");
    assert_eq!(event.content(), Some("@all Hello"));
    assert_eq!(event.user_id(), None);
}

#[test]
fn test_notice_event_group_member_join() {
    let metadata = EventMetadata::new("notice.group.member.join")
        .with_user_id("user123")
        .with_group_id("group456");
    let event = NoticeEvent::GroupMemberJoin {
        user_id: "user123".to_string(),
        group_id: "group456".to_string(),
        user_info: None,
        metadata: metadata.clone(),
    };
    assert_eq!(event.event_type(), "notice.group.member.join");
    assert_eq!(event.user_id(), Some("user123"));
    assert_eq!(event.group_id(), Some("group456"));
}

#[test]
fn test_notice_event_friend_add() {
    let metadata = EventMetadata::new("notice.friend.add").with_user_id("user123");
    let event = NoticeEvent::FriendAdd {
        user_id: "user123".to_string(),
        user_info: None,
        metadata: metadata.clone(),
    };
    assert_eq!(event.event_type(), "notice.friend.add");
    assert_eq!(event.user_id(), Some("user123"));
    assert_eq!(event.group_id(), None);
}

#[test]
fn test_notice_event_system() {
    let metadata = EventMetadata::new("notice.system").with_source(EventSource::System);
    let event = NoticeEvent::SystemNotice {
        notice_type: "maintenance".to_string(),
        content: "System will be down for maintenance".to_string(),
        metadata: metadata.clone(),
    };
    assert_eq!(event.event_type(), "notice.system");
    assert_eq!(event.source(), EventSource::System);
}

#[test]
fn test_package_creation() {
    let package = Package::new();
    assert!(package.target_sites.is_empty());
    assert!(package.blocks.is_empty());
    assert!(!package.package_id.is_empty());
}

#[test]
fn test_message_payload_text() {
    let metadata = EventMetadata::new("message.text")
        .with_user_id("user123")
        .with_group_id("group456");
    let payload = MessagePayload {
        subtype: MessageSubtype::Text,
        content: MessageContent::Text { text: "Hello world".to_string() },
        metadata,
    };
    assert_eq!(payload.event_type(), "message.text");
    assert_eq!(payload.content.text(), Some("Hello world"));
}

#[test]
fn test_notice_payload_member_join() {
    let metadata = EventMetadata::new("notice.group.member.join")
        .with_user_id("user123")
        .with_group_id("group456");
    let payload = NoticePayload {
        subtype: NoticeSubtype::GroupMemberJoin,
        content: NoticeContent::GroupMemberJoin {
            user_id: "user123".to_string(),
            group_id: "group456".to_string(),
            user_info: None,
        },
        metadata,
    };
    assert_eq!(payload.event_type(), "notice.group.member.join");
}

#[test]
fn test_request_payload_friend() {
    let metadata = EventMetadata::new("request.friend").with_user_id("user123");
    let payload = RequestPayload {
        subtype: RequestSubtype::Friend,
        content: RequestContent::Friend {
            from_user_id: "user123".to_string(),
            comment: Some("Let's be friends".to_string()),
        },
        metadata,
    };
    assert_eq!(payload.event_type(), "request.friend");
}

#[test]
fn payloads_legacy_test_text_payload() {
    let payload = TextPayload::new("Hello world");
    assert_eq!(payload.payload_type_name(), "text");
    assert_eq!(payload.content, "Hello world");
}

#[test]
fn payloads_legacy_test_blob_payload() {
    let data = vec![1u8, 2u8, 3u8];
    let payload = BlobPayload::new(data.clone(), "application/octet-stream".to_string());
    assert_eq!(payload.payload_type_name(), "blob");
    assert_eq!(payload.data, data);
}

#[test]
fn test_request_event_friend() {
    let metadata = EventMetadata::new("request.friend").with_user_id("user123");
    let event = RequestEvent::FriendRequest {
        from_user_id: "user123".to_string(),
        comment: Some("Let's be friends".to_string()),
        metadata: metadata.clone(),
    };
    assert_eq!(event.event_type(), "request.friend");
    assert_eq!(event.user_id(), Some("user123"));
    assert_eq!(event.group_id(), None);
}

#[test]
fn test_request_event_group_invite() {
    let metadata = EventMetadata::new("request.group.invite")
        .with_user_id("inviter123")
        .with_group_id("group456");
    let event = RequestEvent::GroupInvite {
        inviter_id: "inviter123".to_string(),
        group_id: "group456".to_string(),
        message: Some("Please join our group".to_string()),
        metadata: metadata.clone(),
    };
    assert_eq!(event.event_type(), "request.group.invite");
    assert_eq!(event.user_id(), Some("inviter123"));
    assert_eq!(event.group_id(), Some("group456"));
}

#[test]
fn test_request_event_approve() {
    let metadata = EventMetadata::new("request.approve").with_self_id("bot123");
    let event = RequestEvent::RequestApprove {
        request_type: "friend".to_string(),
        request_id: "req-001".to_string(),
        approver_id: Some("admin123".to_string()),
        metadata: metadata.clone(),
    };
    assert_eq!(event.event_type(), "request.approve");
    assert_eq!(event.self_id(), Some("bot123"));
}

#[test]
fn test_domain_constructors() {
    let text = TargetSite::domain_text();
    let image = TargetSite::domain_image();
    let custom = TargetSite::domain_custom("video");
    assert_eq!(text.dimension(), "domain");
    assert_eq!(text.tag_string(), "Text");
    assert_eq!(image.dimension(), "domain");
    assert_eq!(image.tag_string(), "Image");
    assert_eq!(custom.dimension(), "domain");
    assert_eq!(custom.tag_string(), "Custom(\"video\")");
}

#[test]
fn test_motif_constructors() {
    let command = TargetSite::motif_command();
    let mention = TargetSite::motif_mention();
    let custom = TargetSite::motif_custom("emoji");
    assert_eq!(command.dimension(), "motif");
    assert_eq!(command.tag_string(), "Command");
    assert_eq!(mention.dimension(), "motif");
    assert_eq!(mention.tag_string(), "Mention");
    assert_eq!(custom.dimension(), "motif");
    assert_eq!(custom.tag_string(), "Custom(\"emoji\")");
}

#[test]
fn test_state_constructors() {
    let weather = TargetSite::state_intent_weather();
    let vip = TargetSite::state_user_vip();
    let custom = TargetSite::state_custom("processing");
    assert_eq!(weather.dimension(), "state");
    assert_eq!(weather.tag_string(), "IntentWeather");
    assert_eq!(vip.dimension(), "state");
    assert_eq!(vip.tag_string(), "UserVip");
    assert_eq!(custom.dimension(), "state");
    assert_eq!(custom.tag_string(), "Custom(\"processing\")");
}

#[test]
fn test_context_constructors() {
    let group = TargetSite::context_group();
    let night = TargetSite::context_night_mode();
    let custom = TargetSite::context_custom("emergency");
    assert_eq!(group.dimension(), "context");
    assert_eq!(group.tag_string(), "Group");
    assert_eq!(night.dimension(), "context");
    assert_eq!(night.tag_string(), "NightMode");
    assert_eq!(custom.dimension(), "context");
    assert_eq!(custom.tag_string(), "Custom(\"emergency\")");
}

#[test]
fn test_equality() {
    let site1 = TargetSite::domain_text();
    let site2 = TargetSite::domain_text();
    let site3 = TargetSite::domain_image();
    assert_eq!(site1, site2);
    assert_ne!(site1, site3);
}

#[test]
fn test_event_metadata_creation() {
    let metadata = EventMetadata::new("test_event")
        .with_user_id("user123")
        .with_group_id("group456")
        .with_source(EventSource::User);
    assert_eq!(metadata.user_id, Some("user123".to_string()));
    assert_eq!(metadata.group_id, Some("group456".to_string()));
    assert_eq!(metadata.source, EventSource::User);
}

#[test]
fn test_event_metadata_with_extra() {
    let metadata = EventMetadata::new("test_event").with_extra("custom_key", "\"custom_value\"");
    assert_eq!(metadata.extra.get("custom_key"), Some("\"custom_value\""));
}

#[test]
fn event_ids_carry_the_event_type_prefix() {
    let metadata = EventMetadata::new("message.text");
    assert!(metadata.event_id.starts_with("message.text-"));
    let parts: Vec<&str> = metadata.event_id.splitn(3, '-').collect();
    assert_eq!(parts.len(), 3);
    assert!(parts[1].chars().all(|c| c.is_ascii_digit() || c == '-'));
}

#[test]
fn heartbeat_records_its_interval() {
    let event = UnifiedEvent::heartbeat(5000, EventMetadata::new("heartbeat"));
    match event.as_simple() {
        Some(simple) => assert_eq!(simple.metadata.extra.get("interval"), Some("5000")),
        None => panic!("expected a simple event"),
    }
}

#[test]
fn packages_carry_payloads_with_their_type_names() {
    use_payload();
}

fn use_payload() {
    let p = Package::new().with_payload(PackagePayload::Text(TextPayload::new("hi")));
    assert!(p.has_payload_type("text"));
    match p.get_payload() {
        Some(PackagePayload::Text(t)) => assert_eq!(t.content, "hi"),
        _ => panic!("expected a text payload"),
    }
    let mut q = Package::new().with_payload(PackagePayload::Blob(BlobPayload::new(vec![1], "x".to_string())));
    assert_eq!(q.payload_type, Some("blob".to_string()));
    if let Some(PackagePayload::Blob(b)) = q.get_payload_mut() {
        b.data.push(2);
    }
    match q.get_payload() {
        Some(PackagePayload::Blob(b)) => assert_eq!(b.data, vec![1, 2]),
        _ => panic!("expected a blob payload"),
    }
    assert!(Package::new().get_payload().is_none());
}
