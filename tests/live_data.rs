use kobalt_core::state::LiveData;
use std::sync::atomic::{AtomicI32, Ordering};
use std::sync::{Arc, Mutex};

type IntListener = Box<dyn Fn(&i32) + Send + Sync>;
type TextListener = Box<dyn Fn(&String) + Send + Sync>;

#[test]
fn test_live_data_basic() {
    let mut live_data: LiveData<i32, IntListener> = LiveData::new(10);
    assert_eq!(live_data.get(), 10);

    live_data.set(20);
    assert_eq!(live_data.get(), 20);
}

#[test]
fn test_live_data_observer() {
    let mut live_data: LiveData<i32, IntListener> = LiveData::new(0);
    let captured = Arc::new(AtomicI32::new(0));

    let c = captured.clone();
    live_data.observe(Box::new(move |value| {
        c.store(*value, Ordering::SeqCst);
    }));

    live_data.set(42);
    assert_eq!(captured.load(Ordering::SeqCst), 42);

    live_data.set(100);
    assert_eq!(captured.load(Ordering::SeqCst), 100);
}

#[test]
fn test_live_data_multiple_observers() {
    let mut live_data: LiveData<i32, IntListener> = LiveData::new(0);
    let captured1 = Arc::new(AtomicI32::new(0));
    let captured2 = Arc::new(AtomicI32::new(0));

    let c1 = captured1.clone();
    live_data.observe(Box::new(move |value| {
        c1.store(*value, Ordering::SeqCst);
    }));

    let c2 = captured2.clone();
    live_data.observe(Box::new(move |value| {
        c2.store(*value * 2, Ordering::SeqCst);
    }));

    live_data.set(10);
    assert_eq!(captured1.load(Ordering::SeqCst), 10);
    assert_eq!(captured2.load(Ordering::SeqCst), 20);
}

#[test]
fn test_live_data_update() {
    let mut live_data: LiveData<i32, IntListener> = LiveData::new(5);

    live_data.update(|v| v + 10);
    assert_eq!(live_data.get(), 15);

    live_data.update(|v| v * 2);
    assert_eq!(live_data.get(), 30);
}

#[test]
fn test_live_data_clear_observers() {
    let mut live_data: LiveData<i32, IntListener> = LiveData::new(0);
    let captured = Arc::new(AtomicI32::new(0));

    let c = captured.clone();
    live_data.observe(Box::new(move |value| {
        c.store(*value, Ordering::SeqCst);
    }));

    live_data.set(10);
    assert_eq!(captured.load(Ordering::SeqCst), 10);

    live_data.clear_observers();
    live_data.set(20);
    // Still 10: the listener was removed.
    assert_eq!(captured.load(Ordering::SeqCst), 10);
}

#[test]
fn test_live_data_observer_count() {
    let mut live_data: LiveData<i32, IntListener> = LiveData::new(0);
    assert_eq!(live_data.observer_count(), 0);

    live_data.observe(Box::new(|_| {}));
    assert_eq!(live_data.observer_count(), 1);

    live_data.observe(Box::new(|_| {}));
    assert_eq!(live_data.observer_count(), 2);

    live_data.clear_observers();
    assert_eq!(live_data.observer_count(), 0);
}

#[test]
fn test_live_data_clone() {
    let live_data1: Arc<Mutex<LiveData<i32, IntListener>>> =
        Arc::new(Mutex::new(LiveData::new(10)));
    let live_data2 = live_data1.clone();

    live_data1.lock().unwrap().set(20);
    assert_eq!(live_data2.lock().unwrap().get(), 20);
}

#[test]
fn test_live_data_string() {
    let mut live_data: LiveData<String, TextListener> = LiveData::new(String::from("Hello"));
    let captured = Arc::new(Mutex::new(String::new()));

    let c = captured.clone();
    live_data.observe(Box::new(move |value| {
        *c.lock().unwrap() = value.clone();
    }));

    live_data.set(String::from("World"));
    assert_eq!(*captured.lock().unwrap(), "World");
}

#[test]
fn live_data_observe_returns_index() {
    let mut live_data: LiveData<i32, IntListener> = LiveData::new(0);
    assert_eq!(live_data.observe(Box::new(|_| {})), 0);
    assert_eq!(live_data.observe(Box::new(|_| {})), 1);
    live_data.clear_observers();
    assert_eq!(live_data.observe(Box::new(|_| {})), 0);
}

#[test]
fn live_data_update_notifies_with_new_value() {
    let mut live_data: LiveData<i32, IntListener> = LiveData::new(7);
    let seen = Arc::new(Mutex::new(Vec::new()));
    let s = seen.clone();
    live_data.observe(Box::new(move |v| s.lock().unwrap().push(*v)));
    live_data.update(|v| v - 10);
    live_data.set(4);
    assert_eq!(*seen.lock().unwrap(), vec![-3, 4]);
    assert_eq!(live_data.get(), 4);
}
