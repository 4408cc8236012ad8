use psst::config::Platform;
use psst::notification::{
    create_notifier, macos_sound_file, test_notifications, titlecase, Backend, LinuxNotifier,
    Notification,
};

fn notification(tag: &str) -> Notification {
    Notification {
        tag: tag.into(),
        title: "title".into(),
        subtitle: Some("subtitle".into()),
        body: "body".into(),
        sound: Some("bell".into()),
        thread_id: "!room".into(),
        replace: false,
    }
}

#[test]
fn backend_by_platform() {
    assert_eq!(create_notifier(Platform::Linux).unwrap(), Backend::Linux);
    assert_eq!(create_notifier(Platform::Macos).unwrap(), Backend::Macos);
    assert_eq!(
        create_notifier(Platform::Other).unwrap_err().message,
        "notifications not supported on this platform"
    );
}

#[test]
fn same_tag_reuses_the_popup() {
    let mut n = LinuxNotifier::new();
    let popup = n.popup(&notification("a"));
    assert_eq!(popup.app_name, "psst");
    assert_eq!(popup.summary, "title");
    assert_eq!(popup.body, "body");
    assert_eq!(popup.sound_name, Some("bell".to_string()));
    assert_eq!(popup.id, None);
    n.shown("a", 7);
    assert_eq!(n.popup(&notification("a")).id, Some(7));
    assert_eq!(n.popup(&notification("b")).id, None);
    n.shown("a", 8);
    assert_eq!(n.close("a"), Some(8));
    assert_eq!(n.close("a"), None);
    assert_eq!(n.popup(&notification("a")).id, None);
}

#[test]
fn titlecase_ignores_the_given_case() {
    assert_eq!(titlecase("blow"), "Blow");
    assert_eq!(titlecase("BLOW"), "Blow");
    assert_eq!(titlecase("Blow"), "Blow");
    assert_eq!(titlecase(""), "");
    assert_eq!(titlecase("élan VITAL"), "élan vital");
    assert_eq!(macos_sound_file("tINK"), "Tink.aiff");
}

#[test]
fn test_notifications_are_silent_and_noisy() {
    let (silent, noisy) = test_notifications(Platform::Macos);
    assert_eq!(silent.tag, "psst-test-silent");
    assert_eq!(silent.sound, None);
    assert_eq!(silent.body, "silent test notification");
    assert_eq!(noisy.tag, "psst-test-noisy");
    assert_eq!(noisy.sound, Some("Blow".to_string()));
    assert_eq!(noisy.thread_id, "psst-test");
    let (_, noisy) = test_notifications(Platform::Linux);
    assert_eq!(noisy.sound, Some("message-new-instant".to_string()));
}
