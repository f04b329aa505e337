use qhy_core::topic::{device_topic, parse_action, property_target, split_device_topic, PropertyTarget, TopicAction};

#[test]
fn device_state_topic() {
    assert_eq!(device_topic("QHY600M-1"), "devices/QHY600M-1");
    assert_eq!(device_topic(""), "devices/");
}

#[test]
fn command_topics_split() {
    assert_eq!(
        split_device_topic("devices/cam1/expose"),
        Some(("cam1".to_string(), "expose".to_string()))
    );
    assert_eq!(
        split_device_topic("devices/cam1/set/extra"),
        Some(("cam1".to_string(), "set/extra".to_string()))
    );
    assert_eq!(split_device_topic("devices//set"), Some((String::new(), "set".to_string())));
    assert_eq!(split_device_topic("devices/cam1/"), Some(("cam1".to_string(), String::new())));
}

#[test]
fn other_topics_do_not_split() {
    assert_eq!(split_device_topic("devices/cam1"), None);
    assert_eq!(split_device_topic("devices"), None);
    assert_eq!(split_device_topic("gadgets/cam1/expose"), None);
    assert_eq!(split_device_topic("/devices/cam1/expose"), None);
    assert_eq!(split_device_topic(""), None);
}

#[test]
fn state_topic_round_trips_through_command_split() {
    let t = format!("{}/expose", device_topic("QHY-7"));
    assert_eq!(split_device_topic(&t), Some(("QHY-7".to_string(), "expose".to_string())));
}

#[test]
fn actions() {
    assert_eq!(parse_action("expose"), Some(TopicAction::Expose));
    assert_eq!(parse_action("set"), Some(TopicAction::Update));
    assert_eq!(parse_action("set/extra"), None);
    assert_eq!(parse_action("Expose"), None);
}

#[test]
fn property_targets() {
    assert_eq!(property_target("gain"), Some(PropertyTarget::Gain));
    assert_eq!(property_target("offset"), Some(PropertyTarget::Offset));
    assert_eq!(property_target("exposure"), Some(PropertyTarget::Exposure));
    assert_eq!(property_target("bin"), Some(PropertyTarget::Bin));
    assert_eq!(property_target("temperature"), None);
}
