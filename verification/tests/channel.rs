use handlebars_server::reload::{event_payload, Poll, ReloadHub, ReloadKind};

#[test]
fn events_arrive_in_publish_order() {
    let mut hub = ReloadHub::new(8);
    let mut subscriber = hub.subscribe();
    hub.publish(ReloadKind::Value);
    hub.publish(ReloadKind::Page);
    hub.publish(ReloadKind::Value);
    assert_eq!(subscriber.poll(&hub), Poll::Event(ReloadKind::Value));
    assert_eq!(subscriber.poll(&hub), Poll::Event(ReloadKind::Page));
    assert_eq!(subscriber.poll(&hub), Poll::Event(ReloadKind::Value));
    assert_eq!(subscriber.poll(&hub), Poll::Empty);
}

#[test]
fn subscriber_misses_events_before_subscribing() {
    let mut hub = ReloadHub::new(8);
    hub.publish(ReloadKind::Page);
    let mut subscriber = hub.subscribe();
    assert_eq!(subscriber.poll(&hub), Poll::Empty);
    hub.publish(ReloadKind::Value);
    assert_eq!(subscriber.poll(&hub), Poll::Event(ReloadKind::Value));
}

#[test]
fn slow_subscriber_lags_instead_of_blocking() {
    let mut hub = ReloadHub::new(2);
    let mut slow = hub.subscribe();
    hub.publish(ReloadKind::Page);
    hub.publish(ReloadKind::Value);
    hub.publish(ReloadKind::Page);
    hub.publish(ReloadKind::Page);
    hub.publish(ReloadKind::Value);
    assert_eq!(slow.poll(&hub), Poll::Lagged(3));
    assert_eq!(slow.poll(&hub), Poll::Event(ReloadKind::Page));
    assert_eq!(slow.poll(&hub), Poll::Event(ReloadKind::Value));
    assert_eq!(slow.poll(&hub), Poll::Empty);
}

#[test]
fn vanished_subscriber_does_not_stall_publication() {
    let mut hub = ReloadHub::new(1);
    let gone = hub.subscribe();
    drop(gone);
    let mut live = hub.subscribe();
    hub.publish(ReloadKind::Page);
    hub.publish(ReloadKind::Value);
    hub.publish(ReloadKind::Page);
    assert_eq!(live.poll(&hub), Poll::Lagged(2));
    assert_eq!(live.poll(&hub), Poll::Event(ReloadKind::Page));
    assert_eq!(live.poll(&hub), Poll::Empty);
}

#[test]
fn payloads_distinguish_the_two_kinds() {
    assert_eq!(event_payload(ReloadKind::Value), "reload_value");
    assert_eq!(event_payload(ReloadKind::Page), "reload_page");
}
