use std::cell::RefCell;

use kissabot::api::{MessageAPI, Page};
use kissabot::event::{ReplyError, SEvent, SEventContent, SEventExt, SEventType};
use kissabot::resources::{Channel, ChannelType, Message};

#[test]
fn default_at_is_blank() {
    let e = SEventContent::default_at(1234);
    assert_eq!(e.id, 0);
    assert_eq!(e.ty, SEventType::Unknown);
    assert_eq!(e.platfrom, "");
    assert_eq!(e.self_id, "");
    assert_eq!(e.timestamp, 1234);
    assert!(e.argv.is_none());
    assert!(e.button.is_none());
    assert!(e.channel.is_none());
    assert!(e.guild.is_none());
    assert!(e.login.is_none());
    assert!(e.member.is_none());
    assert!(e.message.is_none());
    assert!(e.operator.is_none());
    assert!(e.role.is_none());
    assert!(e.user.is_none());
}

#[test]
fn try_default_is_stamped_with_now() {
    let before = std::time::SystemTime::now()
        .duration_since(std::time::UNIX_EPOCH)
        .unwrap()
        .as_millis();
    let e = SEventContent::try_default().expect("clock after the epoch");
    let after = std::time::SystemTime::now()
        .duration_since(std::time::UNIX_EPOCH)
        .unwrap()
        .as_millis();
    assert!(before <= e.timestamp && e.timestamp <= after);
    assert_eq!(e.id, 0);
    assert_eq!(e.ty, SEventType::Unknown);
    assert!(e.channel.is_none());
}

struct Recorder {
    created: RefCell<Vec<(String, String)>>,
    fail: bool,
}

impl MessageAPI for Recorder {
    fn create(&self, channel_id: String, content: String) -> anyhow::Result<Vec<Message>> {
        self.created.borrow_mut().push((channel_id, content));
        if self.fail {
            Err(anyhow::Error::msg("platform refused"))
        } else {
            Ok(vec![])
        }
    }
    fn get(&self, _channel_id: String, _message_id: String) -> anyhow::Result<Message> {
        Err(anyhow::Error::msg("unused"))
    }
    fn delete(&self, _channel_id: String, _message_id: String) -> anyhow::Result<()> {
        Ok(())
    }
    fn update(&self, _c: String, _m: String, _content: String) -> anyhow::Result<()> {
        Ok(())
    }
    fn list(&self, _c: String, _next: Option<String>) -> anyhow::Result<Page<Message>> {
        Ok(Page { data: vec![], next: None })
    }
}

fn event_in(channel: Option<&str>) -> SEvent {
    let mut content = SEventContent::default_at(0);
    content.ty = SEventType::MessageCreated;
    content.channel = channel.map(|id| Channel {
        id: id.to_string(),
        ty: ChannelType::Text,
        name: None,
        parent_id: None,
    });
    SEvent { content, from_adapter: 7 }
}

#[test]
fn reply_creates_message_in_event_channel() {
    let api = Recorder { created: RefCell::new(vec![]), fail: false };
    let ev = event_in(Some("chan-42"));
    assert_eq!(ev.reply_channel_id(), Some("chan-42".to_string()));
    assert!(ev.reply(&api, "pong".to_string()).is_ok());
    assert_eq!(
        *api.created.borrow(),
        vec![("chan-42".to_string(), "pong".to_string())]
    );
}

#[test]
fn reply_without_channel_fails_and_sends_nothing() {
    let api = Recorder { created: RefCell::new(vec![]), fail: false };
    let ev = event_in(None);
    assert_eq!(ev.reply_channel_id(), None);
    let r = ev.reply(&api, "pong".to_string());
    match r {
        Err(ReplyError::MissingChannel) => {}
        other => panic!("unexpected {:?}", other),
    }
    assert!(api.created.borrow().is_empty());
    assert_eq!(ReplyError::MissingChannel.describe(), "频道资源不存在");
}

#[test]
fn reply_reports_adapter_error() {
    let api = Recorder { created: RefCell::new(vec![]), fail: true };
    let ev = event_in(Some("c"));
    match ev.reply(&api, "hi".to_string()) {
        Err(e @ ReplyError::Api(_)) => assert_eq!(e.describe(), "platform refused"),
        other => panic!("unexpected {:?}", other),
    }
    assert_eq!(api.created.borrow().len(), 1);
}

#[test]
fn reply_outcome_maps_adapter_answer() {
    assert!(kissabot::event::reply_outcome(Ok(vec![])).is_ok());
    match kissabot::event::reply_outcome(Err(anyhow::Error::msg("down"))) {
        Err(ReplyError::Api(e)) => assert_eq!(e.to_string(), "down"),
        other => panic!("unexpected {:?}", other),
    }
}

#[test]
fn millis_from_parts_counts_whole_milliseconds() {
    assert_eq!(kissabot::clock::millis_from_parts(2, 345_678_901), 2345);
    assert_eq!(kissabot::clock::millis_from_parts(0, 999_999), 0);
    assert_eq!(
        kissabot::clock::millis_from_parts(u64::MAX, 999_999_999),
        (u64::MAX as u128) * 1000 + 999
    );
    let d = std::time::Duration::new(1_700_000_000, 123_456_789);
    assert_eq!(kissabot::clock::millis_from_parts(d.as_secs(), d.subsec_nanos()), d.as_millis());
}

#[test]
fn unix_elapsed_now_has_subsecond_nanos() {
    let (secs, nanos) = kissabot::clock::unix_elapsed_now().expect("clock after the epoch");
    assert!(nanos < 1_000_000_000);
    assert!(secs > 1_600_000_000);
}
