use tauri_specta::payload::structured_payload;
use tauri_specta::{
    collect_events, EventCollection, EventDescriptor, EventError, EventRegistry,
    EventRegistryMeta, PayloadError, PluginName,
};

fn demo_events() -> Vec<EventDescriptor> {
    vec![
        EventDescriptor { sid: 1, name: "EventA" },
        EventDescriptor { sid: 2, name: "EventB" },
    ]
}

#[test]
fn host_event_wire_name_is_its_logical_name() {
    assert_eq!(PluginName::app().apply_as_prefix("update"), "update");
    let meta = EventRegistryMeta { plugin_name: PluginName::app() };
    assert_eq!(meta.wrap_with_plugin("EventA"), "EventA");
}

#[test]
fn plugin_event_wire_name_is_prefixed() {
    assert_eq!(PluginName::new("demo").apply_as_prefix("EventB"), "demo:EventB");
    let meta = EventRegistryMeta { plugin_name: PluginName::new("demo") };
    assert_eq!(meta.wrap_with_plugin("EventA"), "demo:EventA");
}

#[test]
fn two_plugins_do_not_collide_on_one_name() {
    let a = PluginName::new("alpha").apply_as_prefix("update");
    let b = PluginName::new("beta").apply_as_prefix("update");
    let host = PluginName::app().apply_as_prefix("update");
    assert_eq!(a, "alpha:update");
    assert_eq!(b, "beta:update");
    assert_ne!(a, b);
    assert_ne!(a, host);
}

#[test]
fn registering_a_type_twice_fails() {
    let mut c = EventCollection::new();
    assert_eq!(c.register(7, "Ping"), Ok(()));
    assert_eq!(c.register(7, "Ping"), Err(EventError::RegisteredTwice("Ping".to_string())));
    assert_eq!(c.len(), 1);
}

#[test]
fn registering_a_taken_name_fails() {
    let mut c = EventCollection::default();
    assert_eq!(c.register(7, "Ping"), Ok(()));
    assert_eq!(c.register(8, "Ping"), Err(EventError::NameTaken("Ping".to_string())));
    assert_eq!(c.len(), 1);
    assert!(c.contains_id(7));
    assert!(!c.contains_id(8));
    assert!(c.contains_name("Ping"));
}

#[test]
fn distinct_events_all_register() {
    let c = EventCollection::from_events(&demo_events()).unwrap();
    assert_eq!(c.len(), 2);
    assert_eq!(c.id_at(0), 1);
    assert_eq!(c.id_at(1), 2);
    assert_eq!(c.name_at(1), "EventB");
}

#[test]
fn duplicate_in_a_list_aborts_the_collection() {
    let mut events = demo_events();
    events.push(EventDescriptor { sid: 1, name: "EventC" });
    assert_eq!(
        EventCollection::from_events(&events).err(),
        Some(EventError::RegisteredTwice("EventC".to_string()))
    );
    let mut events = demo_events();
    events.push(EventDescriptor { sid: 3, name: "EventA" });
    assert_eq!(
        EventCollection::from_events(&events).err(),
        Some(EventError::NameTaken("EventA".to_string()))
    );
}

#[test]
fn empty_collection_merges() {
    let mut reg = EventRegistry::new();
    assert_eq!(reg.register_collection(EventCollection::new(), PluginName::app()), Ok(()));
    assert!(!reg.contains(0));
}

#[test]
fn second_merge_of_a_type_fails_and_keeps_first_owner() {
    let mut reg = EventRegistry::default();
    let first = EventCollection::from_events(&demo_events()).unwrap();
    assert_eq!(reg.register_collection(first, PluginName::new("demo")), Ok(()));
    let second = EventCollection::from_events(&vec![
        EventDescriptor { sid: 9, name: "Other" },
        EventDescriptor { sid: 2, name: "EventB" },
    ])
    .unwrap();
    assert_eq!(
        reg.register_collection(second, PluginName::new("other")),
        Err(EventError::AlreadyMerged("EventB".to_string()))
    );
    assert!(!reg.contains(9));
    assert_eq!(reg.event_wire_name(2, "EventB"), Ok("demo:EventB".to_string()));
}

#[test]
fn dispatch_on_unmerged_type_names_the_event() {
    let reg = EventRegistry::new();
    assert_eq!(
        reg.event_wire_name(1, "EventA"),
        Err(EventError::NotRegistered("EventA".to_string()))
    );
    assert!(reg.get_meta(1, "EventA").is_err());
}

#[test]
fn end_to_end_demo_plugin() {
    let mut reg = EventRegistry::new();
    let c = EventCollection::from_events(&demo_events()).unwrap();
    reg.register_collection(c, PluginName::new("demo")).unwrap();
    assert_eq!(reg.event_wire_name(1, "EventA"), Ok("demo:EventA".to_string()));
    assert_eq!(reg.event_wire_name(2, "EventB"), Ok("demo:EventB".to_string()));
    assert_eq!(reg.get_meta(2, "EventB").unwrap().plugin_name.name, Some("demo"));
    let raw = serde_json::to_string(&"hello".to_string()).unwrap();
    let value = structured_payload(&raw).unwrap();
    assert_eq!(value, serde_json::Value::String("hello".to_string()));
    let payload: String = serde_json::from_value(value).unwrap();
    assert_eq!(payload, "hello");
}

#[test]
fn host_events_merge_under_their_own_names() {
    let mut reg = EventRegistry::new();
    let c = EventCollection::from_events(&demo_events()).unwrap();
    reg.register_collection(c, PluginName::app()).unwrap();
    assert_eq!(reg.event_wire_name(1, "EventA"), Ok("EventA".to_string()));
}

#[test]
fn payload_round_trip() {
    let v: Vec<u32> = vec![1, 2, 3];
    let raw = serde_json::to_string(&v).unwrap();
    let back: Vec<u32> = serde_json::from_value(structured_payload(&raw).unwrap()).unwrap();
    assert_eq!(back, v);
}

#[test]
fn malformed_payload_is_reported() {
    assert_eq!(structured_payload("{").err(), Some(PayloadError::Malformed));
    assert_eq!(structured_payload("").err(), Some(PayloadError::Malformed));
}

#[test]
fn null_payload_parses() {
    assert_eq!(structured_payload("null"), Ok(serde_json::Value::Null));
}

#[test]
fn collect_events_pairs_names_with_schemas() {
    let mut types = specta::Types::default();
    let schemas = vec![
        <String as specta::Type>::definition(&mut types),
        <u32 as specta::Type>::definition(&mut types),
    ];
    let (c, data) = collect_events(&demo_events(), schemas).unwrap();
    assert_eq!(c.len(), 2);
    assert_eq!(data.len(), 2);
    assert_eq!(data[0].name, "EventA");
    assert_eq!(data[1].name, "EventB");
}

#[test]
fn collect_events_rejects_duplicates() {
    let mut types = specta::Types::default();
    let events = vec![
        EventDescriptor { sid: 1, name: "EventA" },
        EventDescriptor { sid: 1, name: "EventA" },
    ];
    let schemas = vec![
        <String as specta::Type>::definition(&mut types),
        <String as specta::Type>::definition(&mut types),
    ];
    assert!(collect_events(&events, schemas).is_err());
}

#[test]
fn first_repeat_in_a_list_is_the_one_reported() {
    let events = vec![
        EventDescriptor { sid: 1, name: "EventA" },
        EventDescriptor { sid: 2, name: "EventB" },
        EventDescriptor { sid: 3, name: "EventA" },
        EventDescriptor { sid: 2, name: "EventD" },
    ];
    assert_eq!(
        EventCollection::from_events(&events).err(),
        Some(EventError::NameTaken("EventA".to_string()))
    );
}

#[test]
fn repeated_id_and_name_reports_the_id() {
    let mut c = EventCollection::new();
    assert_eq!(c.register(4, "Tick"), Ok(()));
    assert_eq!(c.register(4, "Tick"), Err(EventError::RegisteredTwice("Tick".to_string())));
}
