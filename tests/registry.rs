use global_hotkey::ident::{allocate_identifier, contains_id, first_fresh};
use global_hotkey::keys::{Code, HotKey, Modifiers, CONTROL, SHIFT};
use global_hotkey::registry::{batch_outcome, Error, GlobalHotKeyEvent, HotKeyState, Registry};

fn hk(bits: u32, key: Code) -> HotKey {
    HotKey::new(Modifiers::from_bits(bits), key)
}

fn bind(reg: &mut Registry, h: HotKey) -> u32 {
    let p = reg.prepare_register(&h).unwrap();
    let id = p.id;
    reg.complete_register(p, true).unwrap();
    id
}

#[test]
fn register_then_activation_publishes_one_pressed_event() {
    let mut reg = Registry::new();
    let h = hk(CONTROL | SHIFT, Code::KeyA);
    let p = reg.prepare_register(&h).unwrap();
    assert_eq!(p.trigger, "SHIFT+CTRL+A");
    assert_eq!(p.hotkey, h);
    let id = p.id;
    assert_eq!(reg.complete_register(p, true), Ok(()));
    assert_eq!(reg.len(), 1);
    assert!(reg.is_active_id(id));
    assert_eq!(reg.on_activated(id), Some(GlobalHotKeyEvent { id, state: HotKeyState::Pressed }));
    assert_eq!(reg.on_deactivated(id), Some(GlobalHotKeyEvent { id, state: HotKeyState::Released }));
    assert_eq!(reg.on_activated(id.wrapping_add(1)), None);
}

#[test]
fn unsupported_key_is_refused_and_nothing_is_added() {
    let mut reg = Registry::new();
    let h = hk(SHIFT, Code::F20);
    assert_eq!(reg.prepare_register(&h).err(), Some(Error::UnsupportedKey(h)));
    assert_eq!(reg.len(), 0);
    assert_eq!(reg.unregister(&h), Err(Error::UnsupportedKey(h)));
}

#[test]
fn second_registration_of_same_hotkey_is_refused() {
    let mut reg = Registry::new();
    let h = hk(CONTROL, Code::KeyQ);
    bind(&mut reg, h);
    assert_eq!(reg.prepare_register(&h).err(), Some(Error::AlreadyRegistered(h)));
    assert_eq!(reg.len(), 1);
    let other = hk(SHIFT, Code::KeyQ);
    bind(&mut reg, other);
    assert_eq!(reg.len(), 2);
}

#[test]
fn unregister_removes_identifier_and_silences_events() {
    let mut reg = Registry::new();
    let h = hk(SHIFT, Code::KeyB);
    let keep = hk(SHIFT, Code::KeyC);
    let id = bind(&mut reg, h);
    let kept = bind(&mut reg, keep);
    assert_eq!(reg.unregister(&h), Ok(id));
    assert!(!reg.is_active_id(id));
    assert!(reg.is_active_id(kept));
    assert!(!reg.is_registered(&h));
    assert_eq!(reg.on_activated(id), None);
    assert_eq!(reg.on_deactivated(id), None);
    assert_eq!(reg.unregister(&h), Err(Error::NotRegistered(h)));
    let again = bind(&mut reg, h);
    assert_eq!(reg.on_activated(again), Some(GlobalHotKeyEvent { id: again, state: HotKeyState::Pressed }));
}

#[test]
fn backend_rejection_leaves_registry_unchanged() {
    let mut reg = Registry::new();
    let h = hk(CONTROL, Code::Tab);
    let p = reg.prepare_register(&h).unwrap();
    let id = p.id;
    assert_eq!(reg.complete_register(p, false), Err(Error::BackendRejected(h)));
    assert_eq!(reg.len(), 0);
    assert!(!reg.is_active_id(id));
    assert!(!reg.is_registered(&h));
}

#[test]
fn colliding_draws_exhaust_the_allocation() {
    let mut reg = Registry::new();
    let first = hk(CONTROL, Code::KeyX);
    let p = reg.prepare_register_from(&first, &vec![7]).unwrap();
    assert_eq!(p.id, 7);
    reg.complete_register(p, true).unwrap();
    let second = hk(CONTROL, Code::KeyY);
    assert_eq!(reg.prepare_register_from(&second, &vec![7, 7, 7]).err(), Some(Error::IdentifiersExhausted));
    assert_eq!(reg.prepare_register_from(&second, &vec![]).err(), Some(Error::IdentifiersExhausted));
    assert_eq!(reg.prepare_register_from(&second, &vec![7, 9, 11]).unwrap().id, 9);
}

#[test]
fn allocation_never_repeats_in_constrained_space() {
    let mut active: Vec<u32> = Vec::new();
    let mut state: u64 = 12345;
    let mut exhausted = 0;
    for _ in 0..10_000 {
        let mut draws = Vec::new();
        for _ in 0..200 {
            state = state.wrapping_mul(6364136223846793005).wrapping_add(1442695040888963407);
            draws.push(((state >> 33) % 16384) as u32);
        }
        match first_fresh(&active, &draws) {
            Some(id) => {
                assert!(!active.contains(&id));
                assert!(draws.contains(&id));
                active.push(id);
            }
            None => exhausted += 1,
        }
    }
    assert!(active.len() > 9_000);
    assert_eq!(active.len() + exhausted, 10_000);
}

#[test]
fn first_fresh_takes_the_first_free_draw() {
    let active = vec![1, 2, 3];
    assert_eq!(first_fresh(&active, &vec![2, 3, 4, 5]), Some(4));
    assert_eq!(first_fresh(&active, &vec![1, 2, 3]), None);
    assert!(contains_id(&active, 2));
    assert!(!contains_id(&active, 4));
}

#[test]
fn random_allocation_avoids_active_identifiers() {
    let active: Vec<u32> = (0..1000).collect();
    for _ in 0..100 {
        if let Some(id) = allocate_identifier(&active) {
            assert!(!active.contains(&id));
        }
    }
}

#[test]
fn release_all_returns_every_identifier_and_is_repeatable() {
    let mut reg = Registry::new();
    let a = bind(&mut reg, hk(SHIFT, Code::Digit1));
    let b = bind(&mut reg, hk(SHIFT, Code::Digit2));
    assert_eq!(reg.release_all(), vec![a, b]);
    assert_eq!(reg.len(), 0);
    assert_eq!(reg.on_activated(a), None);
    assert_eq!(reg.release_all(), Vec::<u32>::new());
}

#[test]
fn batch_reports_every_failure() {
    let h1 = hk(SHIFT, Code::F20);
    let h2 = hk(SHIFT, Code::KeyA);
    let results = vec![Err(Error::UnsupportedKey(h1)), Ok(()), Err(Error::AlreadyRegistered(h2)), Ok(())];
    assert_eq!(
        batch_outcome(&results),
        Err(vec![(0, Error::UnsupportedKey(h1)), (2, Error::AlreadyRegistered(h2))])
    );
    assert_eq!(batch_outcome(&vec![Ok(()), Ok(())]), Ok(()));
    assert_eq!(batch_outcome(&vec![]), Ok(()));
}

#[test]
fn fresh_registry_always_registers_a_named_key() {
    for key in [Code::KeyA, Code::F12, Code::Escape] {
        let reg = Registry::new();
        let p = reg.prepare_register(&hk(SHIFT, key)).unwrap();
        assert!(!reg.is_active_id(p.id));
    }
    assert!(allocate_identifier(&Vec::new()).is_some());
}

#[test]
fn completion_refuses_conflicts() {
    let mut reg = Registry::new();
    let h = hk(CONTROL, Code::KeyK);
    let stale = reg.prepare_register_from(&h, &vec![5]).unwrap();
    let p = reg.prepare_register_from(&h, &vec![5]).unwrap();
    reg.complete_register(p, true).unwrap();
    assert_eq!(reg.complete_register(stale, true), Err(Error::AlreadyRegistered(h)));
    let other = hk(SHIFT, Code::KeyK);
    let clash = reg.prepare_register_from(&other, &vec![6]).unwrap();
    let clash = global_hotkey::registry::Pending { id: 5, ..clash };
    assert_eq!(reg.complete_register(clash, true), Err(Error::IdentifierInUse(5)));
    assert_eq!(reg.len(), 1);
}
