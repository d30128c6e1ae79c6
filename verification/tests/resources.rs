use kissabot::resources::{ChannelType, Interaction, Status};

#[test]
fn channel_type_from_known_codes() {
    assert_eq!(ChannelType::from(0isize), ChannelType::Text);
    assert_eq!(ChannelType::from(1isize), ChannelType::Direct);
    assert_eq!(ChannelType::from(2isize), ChannelType::Category);
    assert_eq!(ChannelType::from(3isize), ChannelType::Voice);
}

#[test]
fn channel_type_from_other_codes_is_unknown() {
    assert_eq!(ChannelType::from(-1isize), ChannelType::Unknown);
    assert_eq!(ChannelType::from(4isize), ChannelType::Unknown);
    assert_eq!(ChannelType::from(isize::MAX), ChannelType::Unknown);
    assert_eq!(ChannelType::from(isize::MIN), ChannelType::Unknown);
}

#[test]
fn channel_type_codes() {
    assert_eq!(isize::from(ChannelType::Text), 0);
    assert_eq!(isize::from(ChannelType::Direct), 1);
    assert_eq!(isize::from(ChannelType::Category), 2);
    assert_eq!(isize::from(ChannelType::Voice), 3);
    assert_eq!(isize::from(ChannelType::Unknown), -1);
}

#[test]
fn channel_type_round_trip() {
    for t in [
        ChannelType::Text,
        ChannelType::Direct,
        ChannelType::Category,
        ChannelType::Voice,
        ChannelType::Unknown,
    ] {
        assert_eq!(ChannelType::from(isize::from(t)), t);
    }
}

#[test]
fn channel_type_code_normalizes() {
    for n in -5isize..10 {
        let expected = if (0..=3).contains(&n) { n } else { -1 };
        assert_eq!(isize::from(ChannelType::from(n)), expected);
    }
}

#[test]
fn status_from_codes() {
    assert_eq!(Status::from(0isize), Status::Offline);
    assert_eq!(Status::from(1isize), Status::Online);
    assert_eq!(Status::from(2isize), Status::Connect);
    assert_eq!(Status::from(3isize), Status::Disconnect);
    assert_eq!(Status::from(4isize), Status::Reconnect);
    assert_eq!(Status::from(5isize), Status::Unknown);
    assert_eq!(Status::from(-7isize), Status::Unknown);
}

#[test]
fn status_codes_and_round_trip() {
    assert_eq!(isize::from(Status::Offline), 0);
    assert_eq!(isize::from(Status::Online), 1);
    assert_eq!(isize::from(Status::Connect), 2);
    assert_eq!(isize::from(Status::Disconnect), 3);
    assert_eq!(isize::from(Status::Reconnect), 4);
    assert_eq!(isize::from(Status::Unknown), -1);
    for s in [
        Status::Offline,
        Status::Online,
        Status::Connect,
        Status::Disconnect,
        Status::Reconnect,
        Status::Unknown,
    ] {
        assert_eq!(Status::from(isize::from(s)), s);
    }
    for n in -5isize..10 {
        let expected = if (0..=4).contains(&n) { n } else { -1 };
        assert_eq!(isize::from(Status::from(n)), expected);
    }
}

#[test]
fn interaction_clone_keeps_json() {
    let i = Interaction {
        name: "roll".to_string(),
        arguments: vec![serde_json::Value::from(6), serde_json::Value::from("d")],
        options: serde_json::Value::from(true),
    };
    let c = i.clone();
    assert_eq!(c.name, "roll");
    assert_eq!(c.arguments, i.arguments);
    assert_eq!(c.arguments[0], serde_json::Value::from(6));
    assert_eq!(c.options, serde_json::Value::from(true));
}
