use statsig_rust::event_emitter::{SdkEvent, SdkEventCode, SdkEventEmitter, SubscriptionID};
use std::cell::{Cell, RefCell};

#[test]
fn subscription_id_round_trip() {
    let id = SubscriptionID { value: "abc".to_string(), event: "gate_evaluated".to_string() };
    let encoded = id.encode();
    assert_eq!(encoded, "abc@gate_evaluated");
    let decoded = SubscriptionID::decode(&encoded).unwrap();
    assert_eq!(decoded.value, "abc");
    assert_eq!(decoded.event, "gate_evaluated");
    assert!(SubscriptionID::decode("a@b@c").is_none());
    assert!(SubscriptionID::decode("abc").is_none());
}

#[test]
fn event_codes() {
    assert_eq!(SdkEventCode::from_name("*").as_raw(), 1);
    assert_eq!(SdkEventCode::from_name("specs_updated"), SdkEventCode::SpecsUpdated);
    assert_eq!(SdkEventCode::from_name("nope").as_raw(), 0);
}

#[test]
fn emitter_calls_listeners_in_order() {
    let calls = RefCell::new(Vec::new());
    let mut emitter: SdkEventEmitter<Box<dyn Fn(u32) + '_>> = SdkEventEmitter::new();
    let a = emitter.subscribe("gate_evaluated", Box::new(|e: u32| calls.borrow_mut().push(("a", e))));
    let _b = emitter.subscribe("gate_evaluated", Box::new(|e: u32| calls.borrow_mut().push(("b", e))));
    let _all = emitter.subscribe("*", Box::new(|e: u32| calls.borrow_mut().push(("all", e))));
    let bad = emitter.subscribe("bogus", Box::new(|_: u32| {}));
    assert_eq!(bad.value, "ERROR");

    emitter.emit(SdkEventCode::GateEvaluated, 7);
    assert_eq!(*calls.borrow(), vec![("all", 7), ("a", 7), ("b", 7)]);

    emitter.unsubscribe_by_id(&a);
    assert_eq!(emitter.subscription_values("gate_evaluated").len(), 1);
    calls.borrow_mut().clear();
    emitter.emit(SdkEventCode::GateEvaluated, 8);
    assert_eq!(*calls.borrow(), vec![("all", 8), ("b", 8)]);

    emitter.unsubscribe("gate_evaluated");
    assert!(emitter.subscription_values("gate_evaluated").is_empty());
    emitter.unsubscribe_all();
    assert!(emitter.subscription_values("*").is_empty());
}

type Callback<'a> = Box<dyn Fn(u32) + 'a>;

fn sub<'a>(emitter: &mut SdkEventEmitter<Callback<'a>>, event: &str, counter: &'a Cell<usize>) -> SubscriptionID {
    emitter.subscribe(event, Box::new(move |_: u32| counter.set(counter.get() + 1)))
}

fn emit(emitter: &SdkEventEmitter<Callback<'_>>, event: &str) {
    match event {
        "gate_evaluated" => {
            emitter.emit(SdkEventCode::GateEvaluated, 1);
        },
        "dynamic_config_evaluated" => {
            emitter.emit(SdkEventCode::DynamicConfigEvaluated, 2);
        },
        _ => panic!("Unsupported event: {event}"),
    }
}

#[test]
fn test_unsub_by_event() {
    let (first_counter, second_counter, third_counter) = (Cell::new(0), Cell::new(0), Cell::new(0));
    let mut event_emitter: SdkEventEmitter<Callback<'_>> = SdkEventEmitter::new();

    sub(&mut event_emitter, "gate_evaluated", &first_counter);
    sub(&mut event_emitter, "gate_evaluated", &second_counter);
    sub(&mut event_emitter, "dynamic_config_evaluated", &third_counter);

    emit(&event_emitter, "gate_evaluated");

    assert_eq!(first_counter.get(), 1);
    assert_eq!(second_counter.get(), 1);
    assert_eq!(third_counter.get(), 0);

    emit(&event_emitter, "dynamic_config_evaluated");
    assert_eq!(third_counter.get(), 1);

    event_emitter.unsubscribe("gate_evaluated");
    emit(&event_emitter, "gate_evaluated");

    assert_eq!(first_counter.get(), 1);
    assert_eq!(second_counter.get(), 1);
    assert_eq!(third_counter.get(), 1);

    emit(&event_emitter, "dynamic_config_evaluated");
    assert_eq!(third_counter.get(), 2);
}

#[test]
fn test_unsub_by_event_and_id() {
    let (first_counter, second_counter, third_counter) = (Cell::new(0), Cell::new(0), Cell::new(0));
    let mut event_emitter: SdkEventEmitter<Callback<'_>> = SdkEventEmitter::new();

    let first_id = sub(&mut event_emitter, "gate_evaluated", &first_counter);
    sub(&mut event_emitter, "gate_evaluated", &second_counter);
    sub(&mut event_emitter, "dynamic_config_evaluated", &third_counter);

    emit(&event_emitter, "gate_evaluated");
    emit(&event_emitter, "dynamic_config_evaluated");

    assert_eq!(first_counter.get(), 1);
    assert_eq!(second_counter.get(), 1);
    assert_eq!(third_counter.get(), 1);

    event_emitter.unsubscribe_by_id(&first_id);
    emit(&event_emitter, "gate_evaluated");
    emit(&event_emitter, "dynamic_config_evaluated");

    assert_eq!(first_counter.get(), 1);
    assert_eq!(second_counter.get(), 2);
    assert_eq!(third_counter.get(), 2);
}

#[test]
fn test_unsub_all() {
    let (first_counter, second_counter, third_counter) = (Cell::new(0), Cell::new(0), Cell::new(0));
    let mut event_emitter: SdkEventEmitter<Callback<'_>> = SdkEventEmitter::new();

    sub(&mut event_emitter, "gate_evaluated", &first_counter);
    sub(&mut event_emitter, "gate_evaluated", &second_counter);
    sub(&mut event_emitter, "dynamic_config_evaluated", &third_counter);

    emit(&event_emitter, "gate_evaluated");
    emit(&event_emitter, "dynamic_config_evaluated");

    assert_eq!(first_counter.get(), 1);
    assert_eq!(second_counter.get(), 1);
    assert_eq!(third_counter.get(), 1);

    event_emitter.unsubscribe_all();

    emit(&event_emitter, "gate_evaluated");
    emit(&event_emitter, "dynamic_config_evaluated");

    assert_eq!(first_counter.get(), 1);
    assert_eq!(second_counter.get(), 1);
    assert_eq!(third_counter.get(), 1);
}

#[test]
fn test_sub_all() {
    let counter = Cell::new(0);
    let mut event_emitter: SdkEventEmitter<Callback<'_>> = SdkEventEmitter::new();
    sub(&mut event_emitter, "*", &counter);

    emit(&event_emitter, "gate_evaluated");
    assert_eq!(counter.get(), 1);

    emit(&event_emitter, "dynamic_config_evaluated");
    assert_eq!(counter.get(), 2);
}

#[test]
fn decoded_subscription_encodes_back_to_its_text() {
    for text in ["v1@gate_evaluated", "@", "x@", "@y"] {
        let id = SubscriptionID::decode(text).unwrap();
        assert_eq!(id.encode(), text);
    }
    assert!(SubscriptionID::decode("").is_none());
    assert!(SubscriptionID::decode("@@").is_none());
}

#[test]
fn event_names_and_kinds() {
    let e = SdkEvent::GateEvaluated { gate_name: "g", rule_id: "r", value: true, reason: "Network" };
    assert_eq!(e.get_code(), SdkEventCode::GateEvaluated);
    assert_eq!(e.get_name(), "gate_evaluated");
    let e = SdkEvent::LayerEvaluated { layer_name: "l", reason: "Network", rule_id: None };
    assert_eq!(e.get_name(), "layer_evaluated");
    assert_eq!(SdkEventCode::from_name(e.get_name()), e.get_code());
}
