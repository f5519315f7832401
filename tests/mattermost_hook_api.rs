use ctftimebot::mattermost_hook_api::{Attachment, Message, PostUpdate, Props};

#[test]
fn test_convert_message_to_update() {
    let mut msg = Message::default();
    msg.text = Some("Hello World".to_string());
    msg.attachments.push({
        let mut att = Attachment::default();
        att.fallback = "Hello Fallback".to_string();
        att
    });

    let pu: PostUpdate = msg.into();
    if let Some(Some(prop)) = pu.props {
        assert_eq!(prop.attachments.len(), 1);
        assert!(prop.card.is_none());
    } else {
        assert!(
            false,
            "PostUpdate does not follow the expected structure. It should have a PostProps value."
        );
    }
    assert_eq!(pu.message.unwrap().unwrap(), "Hello World");
}

#[test]
fn update_of_empty_message_changes_nothing() {
    let pu = PostUpdate::from_message(Message::default());
    assert!(pu.message.is_none());
    assert!(pu.props.is_none());
}

#[test]
fn update_carries_card_of_props() {
    let mut msg = Message::default();
    msg.props = Some(Props {
        card: Some("This is a String".to_string()),
        ..Default::default()
    });
    let pu = PostUpdate::from(msg);
    assert!(pu.message.is_none());
    match pu.props {
        Some(Some(p)) => {
            assert_eq!(p.card, Some("This is a String".to_string()));
            assert!(p.attachments.is_empty());
            assert!(p.extras.is_empty());
        }
        _ => panic!("expected new properties"),
    }
}
