use ddcutil_varlink::device::HeaderConstants;
use ddcutil_varlink::events::{
    native_ddc_event_callback, DdcutilEvent, DdcutilEventKind, InternalEvent, InternalEventKind,
    InternalEventType,
};
use ddcutil_varlink::polling::{
    build_connection_event, build_dpms_change_event, compare_states, DisplayState, StateTable,
};
use ddcutil_varlink::service::{
    build_dpms_event, build_hotplug_event, build_vcp_changed_event, DdcutilService,
};
use ddcutil_varlink::subscribers::{
    broadcast_to_subscribers, retain_marked, send_to_subscribers,
    subscribe_to_intneral_events, unsubscribe_from_events, SubscriberRegistry,
};
use crossbeam_channel::unbounded;

fn constants() -> HeaderConstants {
    HeaderConstants {
        ro: 0x0400,
        wo: 0x0200,
        rw: 0x0100,
        complex_cont: 0x0040,
        complex_nc: 0x0010,
        cont: 0x00c0,
        event_display_connected: 2,
        event_display_disconnected: 3,
        event_dpms_awake: 0,
        event_dpms_asleep: 1,
        event_ddc_working: 4,
        event_class_dpms: 1,
        event_class_display_connection: 2,
    }
}

#[test]
fn kinds_have_names() {
    let names: Vec<&str> = vec![
        DdcutilEventKind::Connected.as_str(),
        DdcutilEventKind::Disconnected.as_str(),
        DdcutilEventKind::ConnectedDisplaysChanged.as_str(),
        DdcutilEventKind::DpmsAwake.as_str(),
        DdcutilEventKind::DpmsAsleep.as_str(),
        DdcutilEventKind::DdcWorking.as_str(),
        DdcutilEventKind::DdcNotWorking.as_str(),
        DdcutilEventKind::Unknown(5).as_str(),
    ];
    assert_eq!(
        names,
        vec![
            "DisplayConnected",
            "DisplayDisconnected",
            "ConnectedDisplaysChanged",
            "DpmsAwake",
            "DpmsAsleep",
            "DdcWorking",
            "DdcNotWorking",
            "Unknown",
        ]
    );
    assert_eq!(InternalEventType::Connected.as_str(), "DisplayConnected");
    assert_eq!(InternalEventType::Disconnected.as_str(), "DisplayDisconnected");
    assert_eq!(InternalEventType::DpmsAwake.as_str(), "DpmsAwake");
    assert_eq!(InternalEventType::DpmsAsleep.as_str(), "DpmsAsleep");
    assert_eq!(InternalEventType::VcpChange.as_str(), "VcpChange");
}

#[test]
fn notices_become_events() {
    let notice = native_ddc_event_callback(2, &constants());
    assert!(notice.need_poll);
    assert_eq!(notice.event.kind, DdcutilEventKind::Connected);
    assert_eq!(notice.event.data, "{\"event_type\":2,\"flags\":0}");
    let kinds: Vec<(DdcutilEventKind, bool)> = (0u32..6)
        .map(|t| {
            let n = native_ddc_event_callback(t, &constants());
            (n.event.kind, n.need_poll)
        })
        .collect();
    assert_eq!(
        kinds,
        vec![
            (DdcutilEventKind::DpmsAwake, true),
            (DdcutilEventKind::DpmsAsleep, true),
            (DdcutilEventKind::Connected, true),
            (DdcutilEventKind::Disconnected, true),
            (DdcutilEventKind::DdcWorking, false),
            (DdcutilEventKind::Unknown(5), false),
        ]
    );
}

#[test]
fn events_go_to_subscribers_with_their_data() {
    let event = DdcutilEvent { kind: DdcutilEventKind::Unknown(9), data: "{}".to_owned() };
    let internal = event.into_internal();
    assert_eq!(internal.kind, InternalEventKind::Unknown(9));
    assert_eq!(internal.data, "{}");
    let event = DdcutilEvent { kind: DdcutilEventKind::DpmsAsleep, data: String::new() };
    assert_eq!(event.into_internal().kind, InternalEventKind::DpmsAsleep);
}

#[test]
fn polling_events_are_built() {
    let event = build_connection_event(true);
    assert_eq!(event.kind, DdcutilEventKind::ConnectedDisplaysChanged);
    assert_eq!(event.data, "{\"event_type\":\"DisplayConnected\",\"flags\":0}");
    assert_eq!(
        build_connection_event(false).data,
        "{\"event_type\":\"DisplayDisconnected\",\"flags\":0}"
    );
    let state = DisplayState { display_number: 3, display_ref: 1, awake: true };
    let event = build_dpms_change_event(&"AP8=".to_owned(), state);
    assert_eq!(event.kind, DdcutilEventKind::DpmsAwake);
    assert_eq!(
        event.data,
        "{\"awake\":true,\"display_number\":3,\"edid_base64\":\"AP8=\",\"flags\":0}"
    );
}

#[test]
fn service_events_are_built() {
    let event = build_vcp_changed_event(None, None, 16, -5, "a \"b\"\n\u{1}".to_owned());
    assert_eq!(event.kind, InternalEventKind::VcpChange);
    assert_eq!(
        event.data,
        "{\"client_context\":\"a \\\"b\\\"\\n\\u0001\",\"display_number\":null,\
         \"edid_base64\":null,\"event_type\":\"VcpChange\",\"new_value\":-5,\
         \"origin\":\"ddcutil-varlink\",\"vcp_code\":16}"
    );
    let event = build_vcp_changed_event(Some(2), Some("AP8="), 16, 50, String::new());
    assert_eq!(
        event.data,
        "{\"client_context\":\"\",\"display_number\":2,\"edid_base64\":\"AP8=\",\
         \"event_type\":\"VcpChange\",\"new_value\":50,\"origin\":\"ddcutil-varlink\",\
         \"vcp_code\":16}"
    );
    let edid = "AP8=".to_owned();
    let event = build_hotplug_event(&edid, InternalEventType::Disconnected);
    assert_eq!(event.kind, InternalEventKind::ConnectedDisplaysChanged);
    assert_eq!(
        event.data,
        "{\"edid_base64\":\"AP8=\",\"event_type\":\"DisplayDisconnected\",\"flags\":0,\
         \"origin\":\"polling\"}"
    );
    let event = build_dpms_event(&edid, InternalEventType::DpmsAwake);
    assert_eq!(event.kind, InternalEventKind::ConnectedDisplaysChanged);
    assert_eq!(
        event.data,
        "{\"awake\":true,\"edid_base64\":\"AP8=\",\"event_type\":\"DpmsAwake\",\"flags\":0,\
         \"origin\":\"polling\"}"
    );
    assert!(build_dpms_event(&edid, InternalEventType::DpmsAsleep)
        .data
        .starts_with("{\"awake\":false,"));
}

fn table(displays: &[(&str, bool)]) -> StateTable {
    let mut table = StateTable::new();
    for (i, (edid, awake)) in displays.iter().enumerate() {
        let state = DisplayState {
            display_number: i as i32 + 1,
            display_ref: i,
            awake: *awake,
        };
        table.insert(edid.to_string(), state);
    }
    table
}

fn told(current: &[(&str, bool)], previous: &[(&str, bool)], initializing: bool) -> Vec<String> {
    let (_, events) = compare_states(&table(current), &table(previous), initializing);
    events.iter().map(|e| e.kind.as_str().to_owned()).collect()
}

#[test]
fn table_keeps_one_state_per_display() {
    let mut t = table(&[("A", true), ("B", false)]);
    assert_eq!(t.len(), 2);
    assert!(t.get(&"A".to_owned()).unwrap().awake);
    assert!(t.get(&"C".to_owned()).is_none());
    t.insert("A".to_owned(), DisplayState { display_number: 9, display_ref: 9, awake: false });
    assert_eq!(t.len(), 2);
    assert_eq!(t.get(&"A".to_owned()).unwrap().display_number, 9);
    assert_eq!(t.get(&"B".to_owned()).unwrap().display_number, 2);
}

#[test]
fn changes_are_told() {
    assert!(told(&[("A", true)], &[("A", true)], false).is_empty());
    assert_eq!(told(&[("A", true)], &[], false), vec!["ConnectedDisplaysChanged"]);
    assert_eq!(told(&[], &[("A", true)], false), vec!["ConnectedDisplaysChanged"]);
    assert_eq!(told(&[("A", true)], &[("A", false)], false), vec!["DpmsAwake"]);
    assert_eq!(
        told(&[("A", false), ("B", true)], &[("A", true), ("C", true)], false),
        vec!["ConnectedDisplaysChanged", "DpmsAsleep"]
    );
    assert!(told(&[("A", true)], &[], true).is_empty());
}

#[test]
fn new_displays_prevail_over_lost_ones() {
    let (changed, events) = compare_states(&table(&[("B", true)]), &table(&[("A", true)]), false);
    assert!(changed);
    assert_eq!(events[0].data, "{\"event_type\":\"DisplayConnected\",\"flags\":0}");
    let (changed, events) = compare_states(&table(&[]), &table(&[("A", true)]), false);
    assert!(changed);
    assert_eq!(events[0].data, "{\"event_type\":\"DisplayDisconnected\",\"flags\":0}");
    let (changed, _) = compare_states(&table(&[("A", true)]), &table(&[]), true);
    assert!(changed);
}

fn event(data: &str) -> InternalEvent {
    InternalEvent { kind: InternalEventKind::Connected, data: data.to_owned() }
}

#[test]
fn subscribers_get_numbers_of_their_own() {
    let mut registry = SubscriberRegistry::new();
    let (sender, _receiver) = unbounded();
    assert_eq!(subscribe_to_intneral_events(&mut registry, sender.clone()), 0);
    assert_eq!(subscribe_to_intneral_events(&mut registry, sender.clone()), 1);
    unsubscribe_from_events(&mut registry, 0);
    assert_eq!(subscribe_to_intneral_events(&mut registry, sender), 2);
    let ids: Vec<usize> = registry.subscribers.iter().map(|s| s.id).collect();
    assert_eq!(ids, vec![1, 2]);
}

#[test]
fn numbers_start_over_after_the_last() {
    let mut registry = SubscriberRegistry::new();
    registry.next_id = usize::MAX;
    let (sender, _receiver) = unbounded();
    assert_eq!(subscribe_to_intneral_events(&mut registry, sender), usize::MAX);
    assert_eq!(registry.next_id, 0);
}

#[test]
fn unsubscribing_restores_the_list() {
    let mut registry = SubscriberRegistry::new();
    let (sender, _receiver) = unbounded();
    subscribe_to_intneral_events(&mut registry, sender.clone());
    let id = subscribe_to_intneral_events(&mut registry, sender);
    unsubscribe_from_events(&mut registry, id);
    let ids: Vec<usize> = registry.subscribers.iter().map(|s| s.id).collect();
    assert_eq!(ids, vec![0]);
    unsubscribe_from_events(&mut registry, 77);
    assert_eq!(registry.subscribers.len(), 1);
}

#[test]
fn marked_subscribers_are_kept() {
    let mut registry = SubscriberRegistry::new();
    let (sender, _receiver) = unbounded();
    for _ in 0..4 {
        subscribe_to_intneral_events(&mut registry, sender.clone());
    }
    let gone = retain_marked(&mut registry, &vec![false, true, false, true]);
    let gone: Vec<usize> = gone.iter().map(|s| s.id).collect();
    assert_eq!(gone, vec![0, 2]);
    let ids: Vec<usize> = registry.subscribers.iter().map(|s| s.id).collect();
    assert_eq!(ids, vec![1, 3]);
}

#[test]
fn every_subscriber_receives_the_event() {
    let mut registry = SubscriberRegistry::new();
    let (first, at_first) = unbounded();
    let (second, at_second) = unbounded();
    subscribe_to_intneral_events(&mut registry, first);
    subscribe_to_intneral_events(&mut registry, second);
    broadcast_to_subscribers(&mut registry, event("one"));
    broadcast_to_subscribers(&mut registry, event("two"));
    for receiver in [at_first, at_second] {
        assert_eq!(receiver.recv().unwrap().data, "one");
        let last = receiver.recv().unwrap();
        assert_eq!(last.data, "two");
        assert_eq!(last.kind, InternalEventKind::Connected);
        assert!(receiver.try_recv().is_err());
    }
}

#[test]
fn deaf_subscribers_are_dropped() {
    let mut registry = SubscriberRegistry::new();
    let (first, at_first) = unbounded();
    let (second, at_second) = unbounded();
    subscribe_to_intneral_events(&mut registry, first);
    subscribe_to_intneral_events(&mut registry, second);
    drop(at_first);
    let gone = broadcast_to_subscribers(&mut registry, event("x"));
    assert_eq!(gone.len(), 1);
    assert_eq!(gone[0].id, 0);
    let ids: Vec<usize> = registry.subscribers.iter().map(|s| s.id).collect();
    assert_eq!(ids, vec![1]);
    assert_eq!(at_second.recv().unwrap().data, "x");
}

#[test]
fn written_features_are_broadcast() {
    let mut registry = SubscriberRegistry::new();
    let (sender, receiver) = unbounded();
    let id = DdcutilService::subscribe_to_internal_events(&mut registry, sender);
    DdcutilService::broadcast_set_vcp(&mut registry, Some(1), None, 16, 50, None);
    let event = receiver.recv().unwrap();
    assert_eq!(event.kind, InternalEventKind::VcpChange);
    assert_eq!(
        event.data,
        "{\"client_context\":\"\",\"display_number\":1,\"edid_base64\":null,\
         \"event_type\":\"VcpChange\",\"new_value\":50,\"origin\":\"ddcutil-varlink\",\
         \"vcp_code\":16}"
    );
    DdcutilService::unsubscribe_from_events(&mut registry, id);
    assert!(registry.subscribers.is_empty());
}

#[test]
fn deaf_subscriber_does_not_keep_others_from_the_event() {
    let mut registry = SubscriberRegistry::new();
    let (first, at_first) = unbounded();
    let (second, at_second) = unbounded();
    let (third, at_third) = unbounded();
    for sender in [first, second, third] {
        subscribe_to_intneral_events(&mut registry, sender);
    }
    drop(at_second);
    assert_eq!(send_to_subscribers(&mut registry, &event("y")), vec![true, false, true]);
    for receiver in [at_first, at_third] {
        assert_eq!(receiver.recv().unwrap().data, "y");
        assert!(receiver.try_recv().is_err());
    }
    assert_eq!(registry.subscribers.len(), 3);
}
