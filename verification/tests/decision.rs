use notifier::decision::{notify, MsgTarget, Notification};
use notifier::policy::Notifier;

fn all_policies() -> Vec<Notifier> {
    vec![
        Notifier::Off,
        Notifier::Mentions,
        Notifier::Messages,
        Notifier::Channel("#foo".to_string()),
    ]
}

fn notification(summary: &str, body: &str) -> Option<Notification> {
    Some(Notification { summary: summary.to_string(), body: body.to_string() })
}

#[test]
fn notify_fills_the_request() {
    let request = notify("alice in #rust", "hello");
    assert_eq!(request.summary, "alice in #rust");
    assert_eq!(request.body, "hello");
}

#[test]
fn own_message_is_never_notified() {
    let targets = [
        MsgTarget::Chan { chan: "#foo" },
        MsgTarget::User { nick: "me" },
        MsgTarget::Other,
    ];
    for policy in all_policies() {
        for target in targets.iter() {
            for mention in [false, true] {
                assert_eq!(policy.notify_privmsg("me", "hi me", target, "me", mention), None);
            }
        }
    }
}

#[test]
fn nick_is_compared_exactly() {
    let target = MsgTarget::User { nick: "Me" };
    assert_eq!(
        Notifier::Messages.notify_privmsg("Me", "hi", &target, "me", false),
        notification("Me sent a private message", "hi")
    );
    assert_eq!(
        Notifier::Messages.notify_privmsg("me_", "hi", &target, "me", false),
        notification("me_ sent a private message", "hi")
    );
}

#[test]
fn off_notifies_nothing() {
    let targets = [
        MsgTarget::Chan { chan: "#foo" },
        MsgTarget::User { nick: "alice" },
        MsgTarget::Other,
    ];
    for target in targets.iter() {
        for mention in [false, true] {
            assert_eq!(Notifier::Off.notify_privmsg("alice", "hi", target, "me", mention), None);
        }
    }
}

#[test]
fn messages_notifies_channel_messages() {
    let target = MsgTarget::Chan { chan: "#rust" };
    for mention in [false, true] {
        assert_eq!(
            Notifier::Messages.notify_privmsg("alice", "hello", &target, "me", mention),
            notification("alice in #rust", "hello")
        );
    }
}

#[test]
fn messages_notifies_private_messages() {
    let target = MsgTarget::User { nick: "alice" };
    for mention in [false, true] {
        assert_eq!(
            Notifier::Messages.notify_privmsg("alice", "hello", &target, "me", mention),
            notification("alice sent a private message", "hello")
        );
    }
}

#[test]
fn mentions_skips_channel_message_without_mention() {
    let target = MsgTarget::Chan { chan: "#rust" };
    assert_eq!(Notifier::Mentions.notify_privmsg("alice", "hello", &target, "me", false), None);
}

#[test]
fn mentions_notifies_channel_message_with_mention() {
    let target = MsgTarget::Chan { chan: "#rust" };
    assert_eq!(
        Notifier::Mentions.notify_privmsg("alice", "me: hello", &target, "me", true),
        notification("alice in #rust", "me: hello")
    );
}

#[test]
fn mentions_notifies_private_messages() {
    let target = MsgTarget::User { nick: "alice" };
    for mention in [false, true] {
        assert_eq!(
            Notifier::Mentions.notify_privmsg("alice", "hello", &target, "me", mention),
            notification("alice sent a private message", "hello")
        );
    }
}

#[test]
fn channel_policy_titles_with_its_own_channel() {
    let policy = Notifier::Channel("#foo".to_string());
    let target = MsgTarget::Chan { chan: "#bar" };
    for mention in [false, true] {
        assert_eq!(
            policy.notify_privmsg("alice", "hello", &target, "me", mention),
            notification("alice in #foo", "hello")
        );
    }
}

#[test]
fn channel_policy_notifies_its_own_channel() {
    let policy = Notifier::Channel("#foo".to_string());
    let target = MsgTarget::Chan { chan: "#foo" };
    assert_eq!(
        policy.notify_privmsg("alice", "hello", &target, "me", false),
        notification("alice in #foo", "hello")
    );
}

#[test]
fn channel_policy_notifies_private_messages() {
    let policy = Notifier::Channel("#foo".to_string());
    let target = MsgTarget::User { nick: "alice" };
    assert_eq!(
        policy.notify_privmsg("alice", "hello", &target, "me", false),
        notification("alice sent a private message", "hello")
    );
}

#[test]
fn private_title_names_the_sender() {
    let target = MsgTarget::User { nick: "peer" };
    assert_eq!(
        Notifier::Messages.notify_privmsg("alice", "hello", &target, "me", false),
        notification("alice sent a private message", "hello")
    );
}

#[test]
fn other_targets_are_never_notified() {
    for policy in all_policies() {
        for mention in [false, true] {
            assert_eq!(
                policy.notify_privmsg("alice", "hello", &MsgTarget::Other, "me", mention),
                None
            );
        }
    }
}

#[test]
fn body_is_stripped() {
    let target = MsgTarget::Chan { chan: "#rust" };
    assert_eq!(
        Notifier::Messages.notify_privmsg("alice", "\x0304red text\x0f", &target, "me", false),
        notification("alice in #rust", "red text")
    );
    let target = MsgTarget::User { nick: "alice" };
    assert_eq!(
        Notifier::Mentions.notify_privmsg("alice", "\x02bold\x02 \x031,2x", &target, "me", false),
        notification("alice sent a private message", "bold x")
    );
}

#[test]
fn title_is_taken_as_given() {
    let target = MsgTarget::Chan { chan: "#Rust" };
    assert_eq!(
        Notifier::Messages.notify_privmsg("Alice", "", &target, "alice", false),
        notification("Alice in #Rust", "")
    );
}

#[test]
fn policy_is_left_as_it_was() {
    let policy = Notifier::Channel("#foo".to_string());
    let before = policy.clone();
    let _ = policy.notify_privmsg("alice", "hi", &MsgTarget::Chan { chan: "#bar" }, "me", true);
    assert_eq!(policy, before);
}
