use server_dispatch::render_state::{RenderHandleState, RootFactory, ServeConfig};
use server_dispatch::scope::ContextSlot;
use std::cell::Cell;
use std::sync::Arc;

#[derive(Debug, PartialEq)]
struct Engine {
    cache_size: usize,
}

#[derive(Debug, PartialEq, Clone)]
struct Incremental {
    cache_size: usize,
}

fn config(cache_size: usize) -> ServeConfig<Incremental, &'static str> {
    ServeConfig { incremental: Incremental { cache_size }, settings: "index.html" }
}

#[test]
fn engine_is_built_once_and_shared() {
    let built = Cell::new(0);
    let mut state: RenderHandleState<Incremental, &str, RootFactory<&str>, Engine> =
        RenderHandleState::new(config(8), "app");
    assert!(!state.is_initialized());
    let first = state.ssr_state(|config: &Incremental| {
        built.set(built.get() + 1);
        Arc::new(Engine { cache_size: config.cache_size })
    });
    assert!(state.is_initialized());
    assert_eq!(first.cache_size, 8);
    let mut served = vec![first.clone()];
    for _ in 0..9 {
        served.push(state.ssr_state(|config: &Incremental| {
            built.set(built.get() + 1);
            Arc::new(Engine { cache_size: config.cache_size + 1 })
        }));
    }
    assert_eq!(built.get(), 1);
    assert!(served.iter().all(|engine| Arc::ptr_eq(engine, &first)));
    assert_eq!(Arc::strong_count(&first), 12);
}

#[test]
fn supplied_engine_is_used_and_never_rebuilt() {
    let shared = Arc::new(Engine { cache_size: 3 });
    let mut one = RenderHandleState::new_with_virtual_dom_factory(config(1), 10u8)
        .with_ssr_state(shared.clone());
    let mut two = RenderHandleState::new_with_virtual_dom_factory(config(2), 20u8)
        .with_ssr_state(shared.clone());
    assert!(one.is_initialized());
    let from_one = one.ssr_state(|_: &Incremental| panic!("the engine was supplied"));
    let from_two = two.ssr_state(|_: &Incremental| panic!("the engine was supplied"));
    assert!(Arc::ptr_eq(&from_one, &shared));
    assert!(Arc::ptr_eq(&from_two, &shared));
}

#[test]
fn with_config_keeps_factory_and_engine() {
    let mut state: RenderHandleState<Incremental, &str, u8, Engine> =
        RenderHandleState::new_with_virtual_dom_factory(config(1), 7u8);
    let engine = state.ssr_state(|config: &Incremental| Arc::new(Engine { cache_size: config.cache_size }));
    let mut state = state.with_config(config(99));
    assert_eq!(state.config().incremental, Incremental { cache_size: 99 });
    assert_eq!(state.config().settings, "index.html");
    assert_eq!(state.virtual_dom_factory(), &7u8);
    assert!(state.is_initialized());
    let again = state.ssr_state(|config: &Incremental| Arc::new(Engine { cache_size: config.cache_size }));
    assert!(Arc::ptr_eq(&again, &engine));
    assert_eq!(again.cache_size, 1);
}

#[test]
fn engine_is_built_from_the_configuration_in_force() {
    let state: RenderHandleState<Incremental, &str, RootFactory<&str>, Engine> =
        RenderHandleState::new(config(1), "app");
    assert_eq!(state.virtual_dom_factory().root, "app");
    let mut state = state.with_config(config(5));
    let engine = state.ssr_state(|config: &Incremental| Arc::new(Engine { cache_size: config.cache_size }));
    assert_eq!(engine.cache_size, 5);
}

#[test]
fn copy_of_a_handle_shares_the_engine_it_had() {
    let mut state: RenderHandleState<Incremental, &str, u8, Engine> =
        RenderHandleState::new_with_virtual_dom_factory(config(4), 7u8);
    let early = state.clone();
    let engine = state.ssr_state(|part: &Incremental| Arc::new(Engine { cache_size: part.cache_size }));
    let mut late = state.clone();
    assert!(!early.is_initialized());
    assert!(late.is_initialized());
    assert_eq!(late.virtual_dom_factory(), &7u8);
    let shared = late.ssr_state(|_: &Incremental| panic!("the copy has the engine"));
    assert!(Arc::ptr_eq(&shared, &engine));
}

#[test]
fn slot_starts_empty() {
    let slot: ContextSlot<u32> = ContextSlot::new();
    assert_eq!(slot.current(), None);
}

#[test]
fn nested_scopes_show_the_innermost_and_restore_the_outer() {
    let mut slot = ContextSlot::new();
    let before_outer = slot.enter("outer");
    assert_eq!(before_outer, None);
    assert_eq!(slot.current(), Some(&"outer"));
    let before_inner = slot.enter("inner");
    assert_eq!(before_inner, Some("outer"));
    assert_eq!(slot.current(), Some(&"inner"));
    assert_eq!(slot.leave(before_inner), Some("inner"));
    assert_eq!(slot.current(), Some(&"outer"));
    assert_eq!(slot.leave(before_outer), Some("outer"));
    assert_eq!(slot.current(), None);
}

#[test]
fn interleaved_requests_see_their_own_context() {
    let mut slot = ContextSlot::new();
    let mut seen_by_a = Vec::new();
    let mut seen_by_b = Vec::new();
    for turn in 0..6 {
        if turn % 2 == 0 {
            let kept = slot.enter("a");
            seen_by_a.push(*slot.current().unwrap());
            assert_eq!(slot.leave(kept), Some("a"));
        } else {
            let kept = slot.enter("b");
            seen_by_b.push(*slot.current().unwrap());
            assert_eq!(slot.leave(kept), Some("b"));
        }
        assert_eq!(slot.current(), None);
    }
    assert_eq!(seen_by_a, vec!["a", "a", "a"]);
    assert_eq!(seen_by_b, vec!["b", "b", "b"]);
}
