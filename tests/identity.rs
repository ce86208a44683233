use hot_reload::identity::{DynId, IdentityCounter};
use std::any::TypeId;

#[test]
fn assigned_identities_are_distinct() {
    let mut counter = IdentityCounter::new();
    let mut seen: Vec<DynId> = Vec::new();
    for _ in 0..100 {
        assert!(counter.has_next());
        let id = DynId::new_extern(&mut counter);
        assert!(!seen.contains(&id));
        seen.push(id);
    }
    assert_eq!(seen.len(), 100);
}

#[test]
fn assigned_identities_count_up_from_zero() {
    let mut counter = IdentityCounter::new();
    assert_eq!(DynId::new_extern(&mut counter), DynId::Extern(0));
    assert_eq!(DynId::new_extern(&mut counter), DynId::Extern(1));
    assert_eq!(DynId::new_extern(&mut counter), DynId::Extern(2));
}

#[test]
fn native_identity_converts_back() {
    let tid = TypeId::of::<u32>();
    let id = DynId::from(tid);
    assert_eq!(id, DynId::Typed(tid));
    assert_eq!(id.to_typeid(), Some(tid));
}

#[test]
fn assigned_identity_has_no_native_form() {
    assert_eq!(DynId::Extern(7).to_typeid(), None);
}

#[test]
fn native_identities_compare_by_type() {
    assert_eq!(DynId::Typed(TypeId::of::<u8>()), DynId::Typed(TypeId::of::<u8>()));
    assert_ne!(DynId::Typed(TypeId::of::<u8>()), DynId::Typed(TypeId::of::<u16>()));
    assert_ne!(DynId::Typed(TypeId::of::<u8>()), DynId::Extern(0));
}
