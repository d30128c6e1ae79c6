use kissabot::topic::event::{
    reply_result, Channel, Either, Guild, KEvent, MessageCreated, MessageCreatedExt, SharedBot,
    User,
};
use kissabot::topic::message::{Message, MessageNode};

fn alice() -> User {
    User {
        id: "u1".to_string(),
        name: "alice".to_string(),
        nick: Some("al".to_string()),
        avatar_url: None,
        is_bot: false,
    }
}

#[test]
fn channel_from_and_deref() {
    let c = Channel::from(Either::Left(alice()));
    match &*c {
        Either::Left(u) => assert_eq!(u.id, "u1"),
        Either::Right(_) => panic!("expected a user"),
    }
    let g = Channel::from(Either::<User, Guild>::Right(Guild {}));
    assert!(matches!(&*g, Either::Right(_)));
}

#[test]
fn channel_clone_is_equal() {
    let c = Channel::from(Either::Left(alice()));
    let d = c.clone();
    match (&*c, &*d) {
        (Either::Left(a), Either::Left(b)) => {
            assert_eq!(a.id, b.id);
            assert_eq!(a.name, b.name);
            assert_eq!(a.nick, b.nick);
            assert_eq!(a.is_bot, b.is_bot);
        }
        _ => panic!("clone changed the side"),
    }
}

#[derive(Default)]
struct RecordingBot {
    sent: std::cell::RefCell<Vec<(usize, String)>>,
    fail: bool,
}

impl SharedBot for RecordingBot {
    fn create_message(&self, message: Message, channel: Channel) -> anyhow::Result<u32> {
        let to = match &*channel {
            Either::Left(u) => u.id.clone(),
            Either::Right(_) => "guild".to_string(),
        };
        self.sent.borrow_mut().push((message.len(), to));
        if self.fail {
            Err(anyhow::Error::msg("offline"))
        } else {
            Ok(99)
        }
    }
}

fn received(bot: RecordingBot) -> KEvent<MessageCreated, RecordingBot> {
    KEvent {
        bot,
        adapter_id: 3,
        inner: MessageCreated {
            from: Channel::from(Either::Left(alice())),
            message: vec![MessageNode::String("hi".to_string())],
            message_id: "m1".to_string(),
            time: 17,
        },
    }
}

#[test]
fn kevent_derefs_to_inner() {
    let ev = received(RecordingBot::default());
    assert_eq!(ev.message_id, "m1");
    assert_eq!(ev.time, 17);
    assert_eq!(ev.adapter_id, 3);
}

#[test]
fn reply_goes_to_source_channel() {
    let ev = received(RecordingBot::default());
    match &*ev.reply_channel() {
        Either::Left(u) => assert_eq!(u.id, "u1"),
        Either::Right(_) => panic!("expected the sender"),
    }
    let answer = vec![
        MessageNode::String("a".to_string()),
        MessageNode::String("b".to_string()),
    ];
    assert!(ev.reply(answer).is_ok());
    assert_eq!(*ev.bot.sent.borrow(), vec![(2, "u1".to_string())]);
}

#[test]
fn reply_reports_bot_error() {
    let ev = received(RecordingBot { sent: Default::default(), fail: true });
    let r = ev.reply(vec![]);
    assert_eq!(r.unwrap_err().to_string(), "offline");
    assert_eq!(ev.bot.sent.borrow().len(), 1);
}

#[test]
fn reply_result_drops_id_and_keeps_error() {
    assert!(reply_result(Ok(5)).is_ok());
    let e = reply_result(Err(anyhow::Error::msg("bad"))).unwrap_err();
    assert_eq!(e.to_string(), "bad");
}
