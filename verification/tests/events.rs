use bondage::events::{delivery, Action, Event, EventSystem, EventSystemTrait, Pending};
use bondage::host::{HostTag, HostValue};
use bondage::transfer::{TransferError, Transferable};

struct Tick {
    count: String,
}

impl Transferable for Tick {
    fn host_tag() -> HostTag {
        HostTag::String
    }

    fn to_js(&self) -> Result<HostValue, TransferError> {
        self.count.to_js()
    }

    fn from_js(host: &HostValue) -> Result<Self, TransferError> {
        Ok(Tick { count: String::from_js(host)? })
    }
}

impl Event for Tick {
    fn name(&self) -> String {
        "tick".to_string()
    }

    fn data(&self) -> Result<HostValue, TransferError> {
        self.to_js()
    }
}

struct Broken;

impl Transferable for Broken {
    fn host_tag() -> HostTag {
        HostTag::Object
    }

    fn to_js(&self) -> Result<HostValue, TransferError> {
        Err(TransferError::Malformed)
    }

    fn from_js(_: &HostValue) -> Result<Self, TransferError> {
        Err(TransferError::Malformed)
    }
}

impl Event for Broken {
    fn name(&self) -> String {
        "broken".to_string()
    }

    fn data(&self) -> Result<HostValue, TransferError> {
        self.to_js()
    }
}

fn tick(count: &str) -> Tick {
    Tick { count: count.to_string() }
}

fn text(value: &str) -> HostValue {
    HostValue::String(value.to_string())
}

#[test]
fn new_system_has_no_listener_and_no_events() {
    let mut system: EventSystem<u32> = EventSystem::new();
    assert_eq!(system.listener(), None);
    assert_eq!(system.next_event(), None);
}

#[test]
fn event_before_listener_is_discarded_and_not_replayed() {
    let mut system: EventSystem<u32> = EventSystem::new();
    system.dispatch_event(tick("early"));
    let early = system.next_event().unwrap();
    assert_eq!(delivery(system.listener(), early), Action::Discard);
    system.set_event_listener(7);
    assert_eq!(system.next_event(), None);
    system.dispatch_event(tick("late"));
    let late = system.next_event().unwrap();
    assert_eq!(delivery(system.listener(), late), Action::Invoke(&7, "tick".to_string(), text("late")));
    assert_eq!(system.next_event(), None);
}

#[test]
fn events_are_delivered_in_dispatch_order() {
    let mut system: EventSystem<u32> = EventSystem::new();
    system.set_event_listener(1);
    system.dispatch_event(tick("first"));
    system.dispatch_event(tick("second"));
    system.dispatch_event(tick("third"));
    let mut seen = Vec::new();
    while let Some(event) = system.next_event() {
        match delivery(system.listener(), event) {
            Action::Invoke(_, _, HostValue::String(count)) => seen.push(count),
            other => panic!("unexpected action {:?}", other),
        }
    }
    assert_eq!(seen, vec!["first".to_string(), "second".to_string(), "third".to_string()]);
}

#[test]
fn listener_is_read_when_the_event_is_due() {
    let mut system: EventSystem<u32> = EventSystem::new();
    system.dispatch_event(tick("queued"));
    system.set_event_listener(3);
    let event = system.next_event().unwrap();
    assert_eq!(delivery(system.listener(), event), Action::Invoke(&3, "tick".to_string(), text("queued")));
}

#[test]
fn last_registered_listener_wins() {
    let mut system: EventSystem<u32> = EventSystem::new();
    system.set_event_listener(1);
    system.set_event_listener(2);
    assert_eq!(system.listener(), Some(&2));
    system.dispatch_event(tick("x"));
    let event = system.next_event().unwrap();
    assert_eq!(delivery(system.listener(), event), Action::Invoke(&2, "tick".to_string(), text("x")));
}

#[test]
fn event_without_payload_fails_whoever_listens() {
    let mut system: EventSystem<u32> = EventSystem::new();
    system.dispatch_event(Broken);
    let event = system.next_event().unwrap();
    assert_eq!(event, Pending { name: "broken".to_string(), data: Err(TransferError::Malformed) });
    assert_eq!(delivery(system.listener(), event), Action::Fail(TransferError::Malformed));
    system.set_event_listener(9);
    system.dispatch_event(Broken);
    let event = system.next_event().unwrap();
    assert_eq!(delivery(system.listener(), event), Action::Fail(TransferError::Malformed));
}

#[test]
fn ready_place_forwards_to_its_system() {
    let mut place: Option<EventSystem<u32>> = Some(EventSystem::new());
    place.set_event_listener(5);
    place.dispatch_event(tick("a"));
    place.dispatch_event(tick("b"));
    let system = place.as_mut().unwrap();
    assert_eq!(system.listener(), Some(&5));
    assert_eq!(system.next_event(), Some(Pending { name: "tick".to_string(), data: Ok(text("a")) }));
    assert_eq!(system.next_event(), Some(Pending { name: "tick".to_string(), data: Ok(text("b")) }));
    assert_eq!(system.next_event(), None);
}
