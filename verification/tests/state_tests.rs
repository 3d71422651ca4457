use std::any::Any;
use std::sync::Arc;
use wsforge::state::{AppState, TypeKey};

type Shared = Arc<dyn Any + Send + Sync>;

const U32: TypeKey = 1;
const STRING: TypeKey = 2;
const BOOL: TypeKey = 3;

fn shared<T: Any + Send + Sync>(value: T) -> Shared {
    Arc::new(value)
}

fn typed<T: Any + Send + Sync>(value: Option<&Shared>) -> Option<Arc<T>> {
    value.cloned().and_then(|v| v.downcast::<T>().ok())
}

#[test]
fn test_insert_and_get() {
    let mut state: AppState<Shared> = AppState::new();
    state.insert(STRING, shared(String::from("test")));

    let value: Option<Arc<String>> = typed(state.get(STRING));
    assert_eq!(*value.unwrap(), "test");
}

#[test]
fn test_multiple_types() {
    let mut state: AppState<Shared> = AppState::new();
    state.insert(U32, shared(42_u32));
    state.insert(STRING, shared(String::from("hello")));
    state.insert(BOOL, shared(true));

    assert_eq!(*typed::<u32>(state.get(U32)).unwrap(), 42);
    assert_eq!(*typed::<String>(state.get(STRING)).unwrap(), "hello");
    assert_eq!(*typed::<bool>(state.get(BOOL)).unwrap(), true);
}

#[test]
fn test_get_nonexistent() {
    let state: AppState<Shared> = AppState::new();
    let value: Option<Arc<String>> = typed(state.get(STRING));
    assert!(value.is_none());
}

#[test]
fn test_contains() {
    let mut state: AppState<Shared> = AppState::new();
    assert!(!state.contains(U32));

    state.insert(U32, shared(42_u32));
    assert!(state.contains(U32));
}

#[test]
fn test_remove() {
    let mut state: AppState<Shared> = AppState::new();
    state.insert(U32, shared(42_u32));

    assert!(state.contains(U32));

    let removed = state.remove(U32).and_then(|v| v.downcast::<u32>().ok());
    assert_eq!(*removed.unwrap(), 42);
    assert!(!state.contains(U32));
}

#[test]
fn test_len_and_empty() {
    let mut state: AppState<Shared> = AppState::new();
    assert!(state.is_empty());
    assert_eq!(state.len(), 0);

    state.insert(U32, shared(42_u32));
    assert!(!state.is_empty());
    assert_eq!(state.len(), 1);

    state.insert(STRING, shared(String::from("test")));
    assert_eq!(state.len(), 2);
}

#[test]
fn test_clear() {
    let mut state: AppState<Shared> = AppState::new();
    state.insert(U32, shared(42_u32));
    state.insert(STRING, shared(String::from("test")));

    assert_eq!(state.len(), 2);

    state.clear();

    assert_eq!(state.len(), 0);
    assert!(state.is_empty());
}

#[test]
fn test_replace_value() {
    let mut state: AppState<Shared> = AppState::new();
    state.insert(U32, shared(10_u32));
    assert_eq!(*typed::<u32>(state.get(U32)).unwrap(), 10);

    state.insert(U32, shared(20_u32));
    assert_eq!(*typed::<u32>(state.get(U32)).unwrap(), 20);
}

#[test]
fn insert_under_one_key_leaves_the_others() {
    let mut state: AppState<u32> = AppState::new();
    state.insert(1, 100);
    state.insert(2, 200);
    state.insert(1, 101);
    assert_eq!(state.get(1), Some(&101));
    assert_eq!(state.get(2), Some(&200));
    assert_eq!(state.get(3), None);
    assert_eq!(state.remove(2), Some(200));
    assert_eq!(state.remove(2), None);
    assert_eq!(state.get(1), Some(&101));
    assert_eq!(state.len(), 1);
}

#[test]
fn default_state_is_empty() {
    let state: AppState<u8> = AppState::default();
    assert!(state.is_empty());
    assert!(!state.contains(0));
}
