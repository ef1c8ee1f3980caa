use notify_rust::error::{Error, ErrorKind};
use notify_rust::macos::NotificationHandle;
use notify_rust::notification::Notification;
use notify_rust::timeout::Timeout;
use notify_rust::windows::{IconCrop, IconType};

#[test]
fn new_notification_has_stated_defaults() {
    let n = Notification::new();
    assert_eq!(n.summary, "");
    assert_eq!(n.subtitle, None);
    assert_eq!(n.body, "");
    assert_eq!(n.icon.0, "");
    assert_eq!(n.icon.1, IconCrop::Square);
    assert_eq!(n.sound_name, None);
    assert_eq!(n.timeout, Timeout::Default);
    assert_eq!(n.app_id, None);
    assert_eq!(n.path_to_image, None);
}

#[test]
fn builder_sets_every_field() {
    let n = Notification::new()
        .summary("Title")
        .subtitle("Second line")
        .body("Message")
        .icon(IconType::with_crop("/tmp/icon.png", IconCrop::Circular))
        .sound_name("Mail")
        .timeout(Timeout::Milliseconds(4000))
        .app_id("com.example.app")
        .image_path("/tmp/picture.png");
    assert_eq!(n.summary, "Title");
    assert_eq!(n.subtitle.as_deref(), Some("Second line"));
    assert_eq!(n.body, "Message");
    assert_eq!(n.icon.0, "/tmp/icon.png");
    assert_eq!(n.icon.1, IconCrop::Circular);
    assert_eq!(n.sound_name.as_deref(), Some("Mail"));
    assert_eq!(n.timeout, Timeout::Milliseconds(4000));
    assert_eq!(n.app_id.as_deref(), Some("com.example.app"));
    assert_eq!(n.path_to_image.as_deref(), Some("/tmp/picture.png"));
}

#[test]
fn clone_preserves_every_field() {
    let n = Notification::new()
        .summary("A")
        .subtitle("B")
        .body("C")
        .sound_name("Default")
        .timeout(Timeout::Never)
        .app_id("id")
        .image_path("/p");
    let copy = n.clone();
    assert_eq!(copy, n);
}

#[test]
fn handle_wraps_and_reads_back() {
    let n = Notification::new().summary("kept").body("alive");
    let expected = n.clone();
    let handle = NotificationHandle::new(n);
    assert_eq!(*handle.notification(), expected);
}

#[test]
fn handle_allows_modification_without_resending() {
    let n = Notification::new().summary("before");
    let mut handle = NotificationHandle::new(n);
    handle.notification_mut().summary = "after".to_string();
    assert_eq!(handle.notification().summary, "after");
}

#[test]
fn error_keeps_message_per_category() {
    let native = Error::from_kind(ErrorKind::Msg("toast failed".to_string()));
    assert_eq!(native.message(), "toast failed");
    let delivery = Error::from_kind(ErrorKind::Notification("could not deliver".to_string()));
    assert_eq!(delivery.message(), "could not deliver");
    assert_eq!(
        delivery.kind,
        ErrorKind::Notification("could not deliver".to_string())
    );
    let registration = Error::from_kind(ErrorKind::Application("bad identity".to_string()));
    assert_eq!(registration.message(), "bad identity");
    assert_eq!(
        registration.kind,
        ErrorKind::Application("bad identity".to_string())
    );
}

#[test]
fn default_timeout_is_the_default_policy() {
    assert_eq!(Timeout::default(), Timeout::Default);
}
