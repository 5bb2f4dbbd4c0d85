use audio_tap::error::Error;
use audio_tap::listener::Listener;

#[test]
fn register_duplicate_key_errors() {
    let mut reg: Listener<Vec<u32>> = Listener::new();
    assert!(reg.register("tap".to_string(), Vec::new()).is_ok());
    match reg.register("tap".to_string(), vec![1]) {
        Err(Error::DuplicateListenerKey(k)) => assert_eq!(k, "tap"),
        other => panic!("expected DuplicateListenerKey, got {:?}", other),
    }
    assert_eq!(reg.len(), 1);
}

#[test]
fn remove_then_reregister_succeeds() {
    let mut reg: Listener<Vec<u32>> = Listener::new();
    assert!(reg.register("tap".to_string(), Vec::new()).is_ok());
    assert!(reg.remove(&"tap".to_string()));
    assert!(reg.register("tap".to_string(), vec![3]).is_ok());
    assert_eq!(reg.poll(&"tap".to_string()), Some(vec![3]));
}

#[test]
fn remove_twice_is_a_noop_the_second_time() {
    let mut reg: Listener<Vec<u32>> = Listener::new();
    assert!(reg.register("k".to_string(), Vec::new()).is_ok());
    assert!(reg.remove(&"k".to_string()));
    assert!(!reg.remove(&"k".to_string()));
    assert_eq!(reg.len(), 0);
}

#[test]
fn remove_absent_key_is_a_noop() {
    let mut reg: Listener<Vec<u32>> = Listener::new();
    assert!(reg.register("a".to_string(), vec![1]).is_ok());
    assert!(!reg.remove(&"never".to_string()));
    assert_eq!(reg.len(), 1);
    assert_eq!(reg.poll(&"a".to_string()), Some(vec![1]));
}

#[test]
fn dispatch_reaches_every_consumer() {
    let mut reg: Listener<Vec<u32>> = Listener::new();
    assert!(reg.register("a".to_string(), Vec::new()).is_ok());
    assert!(reg.register("b".to_string(), Vec::new()).is_ok());
    reg.dispatch(&vec![1, 2, 3]);
    assert_eq!(reg.poll(&"a".to_string()), Some(vec![1, 2, 3]));
    assert_eq!(reg.poll(&"b".to_string()), Some(vec![1, 2, 3]));
}

#[test]
fn poll_absent_key_is_none() {
    let reg: Listener<Vec<u32>> = Listener::new();
    assert_eq!(reg.poll(&"nobody".to_string()), None);
}

#[test]
fn create_attaches_to_the_existing_slot() {
    let mut reg: Listener<Vec<u32>> = Listener::new();
    let first = reg.create("shared".to_string(), vec![7]);
    assert_eq!(first, vec![7]);
    reg.dispatch(&vec![9, 9]);
    let second = reg.create("shared".to_string(), vec![0]);
    assert_eq!(second, vec![9, 9]);
    assert_eq!(reg.len(), 1);
}

#[test]
fn slots_keep_their_value_until_next_dispatch() {
    let mut reg: Listener<Vec<u32>> = Listener::new();
    assert!(reg.register("a".to_string(), vec![5]).is_ok());
    assert_eq!(reg.poll(&"a".to_string()), Some(vec![5]));
    reg.dispatch(&vec![6]);
    reg.dispatch(&vec![7]);
    assert_eq!(reg.poll(&"a".to_string()), Some(vec![7]));
}
