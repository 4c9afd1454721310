use std::sync::atomic::{AtomicUsize, Ordering};
use std::sync::{Arc, Mutex};

use serde_json::Value;
use sidex_app::event_bus::{same_event_type, Event, EventBus, EventType};

type Listener = Arc<dyn Fn(&Event) + Send + Sync>;

fn fire(bus: &mut EventBus<Listener>, event: Event) {
    let (event, calls) = bus.emit(event);
    for cb in calls {
        cb(&event);
    }
}

fn counter(count: &Arc<AtomicUsize>) -> Listener {
    let c = Arc::clone(count);
    Arc::new(move |_: &Event| {
        c.fetch_add(1, Ordering::Relaxed);
    })
}

#[test]
fn emit_invokes_listener() {
    let mut bus: EventBus<Listener> = EventBus::new();
    let count = Arc::new(AtomicUsize::new(0));
    bus.on(EventType::FileSaved, counter(&count));

    fire(&mut bus, Event::new(EventType::FileSaved, "test"));
    assert_eq!(count.load(Ordering::Relaxed), 1);

    fire(&mut bus, Event::new(EventType::FileSaved, "test"));
    assert_eq!(count.load(Ordering::Relaxed), 2);
}

#[test]
fn once_fires_only_once() {
    let mut bus: EventBus<Listener> = EventBus::new();
    let count = Arc::new(AtomicUsize::new(0));
    bus.once(EventType::FileOpened, counter(&count));

    fire(&mut bus, Event::new(EventType::FileOpened, "test"));
    fire(&mut bus, Event::new(EventType::FileOpened, "test"));
    assert_eq!(count.load(Ordering::Relaxed), 1);
}

#[test]
fn off_removes_listener() {
    let mut bus: EventBus<Listener> = EventBus::new();
    let count = Arc::new(AtomicUsize::new(0));
    let id = bus.on(EventType::FileSaved, counter(&count));

    fire(&mut bus, Event::new(EventType::FileSaved, "test"));
    assert_eq!(count.load(Ordering::Relaxed), 1);

    bus.off(id);
    fire(&mut bus, Event::new(EventType::FileSaved, "test"));
    assert_eq!(count.load(Ordering::Relaxed), 1);
}

#[test]
fn async_emit_queues_events() {
    let mut bus: EventBus<Listener> = EventBus::new();
    bus.emit_async(Event::new(EventType::FileCreated, "test"));
    bus.emit_async(Event::new(EventType::FileDeleted, "test"));
    assert!(bus.has_pending());

    let events = bus.drain();
    assert_eq!(events.len(), 2);
    assert!(!bus.has_pending());
}

#[test]
fn flush_dispatches_pending() {
    let mut bus: EventBus<Listener> = EventBus::new();
    let count = Arc::new(AtomicUsize::new(0));
    bus.on(EventType::FileSaved, counter(&count));

    bus.emit_async(Event::new(EventType::FileSaved, "test"));
    bus.emit_async(Event::new(EventType::FileSaved, "test"));
    assert_eq!(count.load(Ordering::Relaxed), 0);

    for (event, calls) in bus.flush() {
        for cb in calls {
            cb(&event);
        }
    }
    assert_eq!(count.load(Ordering::Relaxed), 2);
    assert!(!bus.has_pending());
}

#[test]
fn listener_count() {
    let mut bus: EventBus<Listener> = EventBus::new();
    assert_eq!(bus.listener_count(&EventType::FileSaved), 0);

    let id1 = bus.on(EventType::FileSaved, Arc::new(|_: &Event| {}));
    let _id2 = bus.on(EventType::FileSaved, Arc::new(|_: &Event| {}));
    assert_eq!(bus.listener_count(&EventType::FileSaved), 2);

    bus.off(id1);
    assert_eq!(bus.listener_count(&EventType::FileSaved), 1);
}

#[test]
fn custom_event_type() {
    let mut bus: EventBus<Listener> = EventBus::new();
    let count = Arc::new(AtomicUsize::new(0));
    bus.on(EventType::Custom("myext.custom".into()), counter(&count));

    fire(&mut bus, Event::new(EventType::Custom("myext.custom".into()), "ext"));
    assert_eq!(count.load(Ordering::Relaxed), 1);

    fire(&mut bus, Event::new(EventType::Custom("other".into()), "ext"));
    assert_eq!(count.load(Ordering::Relaxed), 1);
}

#[test]
fn event_carries_data() {
    let mut bus: EventBus<Listener> = EventBus::new();
    let captured = Arc::new(Mutex::new(Value::Null));
    let cap = Arc::clone(&captured);
    bus.on(
        EventType::FileCreated,
        Arc::new(move |e: &Event| {
            *cap.lock().unwrap() = e.data.clone();
        }),
    );

    let mut map = serde_json::Map::new();
    map.insert("path".to_string(), Value::String("/tmp/foo.rs".to_string()));
    let data = Value::Object(map);
    fire(&mut bus, Event::new(EventType::FileCreated, "fs").with_data(data.clone()));
    assert_eq!(*captured.lock().unwrap(), data);
}

#[test]
fn listeners_are_called_in_registration_order_per_type() {
    let mut bus: EventBus<u32> = EventBus::new();
    let a = bus.on(EventType::FileSaved, 1);
    bus.on(EventType::FileOpened, 2);
    bus.once(EventType::FileSaved, 3);
    bus.on(EventType::FileSaved, 4);
    let (_, calls) = bus.emit(Event::new(EventType::FileSaved, "t"));
    assert_eq!(calls, vec![1, 3, 4]);
    let (_, calls) = bus.emit(Event::new(EventType::FileSaved, "t"));
    assert_eq!(calls, vec![1, 4]);
    bus.off(a);
    let (_, calls) = bus.emit(Event::new(EventType::FileSaved, "t"));
    assert_eq!(calls, vec![4]);
    assert!(same_event_type(&EventType::Custom("x".into()), &EventType::Custom("x".into())));
    assert!(!same_event_type(&EventType::FileSaved, &EventType::FileOpened));
    assert!(!same_event_type(&EventType::Custom("FileSaved".into()), &EventType::FileSaved));
}
