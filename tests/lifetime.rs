use napi_class::{
    check_class_status, check_status, new_instance, property_name, Bridge, ClassInstance, Error, FinalizeAction, NapiRaw,
    NapiValue, Object,
    PropertyAttributes, Registry, ReferenceEntry, FinalizeChain, Status, TaggedObject, This,
};

struct Counter {
    value: u32,
}

struct Other;

const COUNTER_TAG: u64 = 11;
const OTHER_TAG: u64 = 22;
const ENV: u64 = 1;
const WRAPPER: u64 = 500;
const ADDRESS: u64 = 0x1000;
const OBJECT_REF: u64 = 77;

fn bridge_with_counter() -> Bridge {
    let mut bridge = Bridge::new();
    assert!(new_instance(&mut bridge, "Counter", COUNTER_TAG, ADDRESS, 0, OBJECT_REF).is_ok());
    bridge
}

#[test]
fn scenario_recover_counter_and_reject_other_type() {
    let mut boxed = TaggedObject::new(COUNTER_TAG, Counter { value: 0 });
    let mut bridge = Bridge::new();
    assert!(new_instance(&mut bridge, "Counter", boxed.type_id, ADDRESS, 0, OBJECT_REF).is_ok());
    let c = ClassInstance::<Counter>::from_napi_value(
        &bridge, ENV, WRAPPER, Some(ADDRESS), COUNTER_TAG, "Counter",
    )
    .unwrap();
    assert_eq!(c.inner(), ADDRESS);
    assert_eq!(c.value, WRAPPER);
    assert_eq!(c.env, ENV);
    assert_eq!(bridge.slot(ADDRESS).unwrap().type_id, boxed.type_id);
    assert_eq!(boxed.take().unwrap().value, 0);
    let other = ClassInstance::<Other>::from_napi_value(
        &bridge, ENV, WRAPPER, Some(ADDRESS), OTHER_TAG, "Other",
    );
    let e = other.err().unwrap();
    assert_eq!(e.status, Status::InvalidArg);
    assert_eq!(e.reason, "Invalid argument, Other on unwrap is not the type of wrapped object");
}

#[test]
fn scenario_reference_chain_runs_once_on_collection() {
    let mut bridge = bridge_with_counter();
    assert!(bridge.add_reference(ADDRESS, 5).is_ok());
    assert_eq!(bridge.holders(ADDRESS), Some(2));
    assert!(bridge.take_payload(ADDRESS));
    match bridge.raw_finalize_unchecked(ADDRESS, Ok(())) {
        FinalizeAction::RunChain { callbacks, reference, holders } => {
            assert_eq!(callbacks, vec![5]);
            assert_eq!(reference, OBJECT_REF);
            assert_eq!(holders, 2);
        }
        _ => panic!("expected the chain to run"),
    }
    assert!(!bridge.is_registered(ADDRESS));
    assert_eq!(bridge.drop_reference(ADDRESS), None);
    assert!(!bridge.take_payload(ADDRESS));
}

#[test]
fn scenario_failed_teardown_throws_and_keeps_entry() {
    let mut bridge = bridge_with_counter();
    assert!(bridge.take_payload(ADDRESS));
    let action = bridge.raw_finalize_unchecked(
        ADDRESS,
        Err(Error::from_reason(Status::GenericFailure, "teardown failed")),
    );
    match action {
        FinalizeAction::Throw(e) => {
            assert_eq!(e.status, Status::GenericFailure);
            assert_eq!(e.reason, "teardown failed");
        }
        _ => panic!("expected an exception"),
    }
    assert!(bridge.is_registered(ADDRESS));
    assert!(!bridge.take_payload(ADDRESS));
}

#[test]
fn finalize_without_reference_runs_empty_chain() {
    let mut bridge = bridge_with_counter();
    assert_eq!(bridge.holders(ADDRESS), Some(1));
    assert!(bridge.take_payload(ADDRESS));
    match bridge.raw_finalize_unchecked(ADDRESS, Ok(())) {
        FinalizeAction::RunChain { callbacks, reference, holders } => {
            assert!(callbacks.is_empty());
            assert_eq!(reference, OBJECT_REF);
            assert_eq!(holders, 1);
        }
        _ => panic!("expected the chain to run"),
    }
    assert!(bridge.slot(ADDRESS).is_none());
}

#[test]
fn second_finalize_is_short_circuited() {
    let mut bridge = bridge_with_counter();
    assert!(bridge.take_payload(ADDRESS));
    assert!(matches!(
        bridge.raw_finalize_unchecked(ADDRESS, Ok(())),
        FinalizeAction::RunChain { .. }
    ));
    assert!(!bridge.take_payload(ADDRESS));
    assert!(matches!(bridge.raw_finalize_unchecked(ADDRESS, Ok(())), FinalizeAction::Done));
}

#[test]
fn recovery_fails_after_payload_taken() {
    let mut bridge = bridge_with_counter();
    assert!(bridge.take_payload(ADDRESS));
    let r = ClassInstance::<Counter>::from_napi_value(
        &bridge, ENV, WRAPPER, Some(ADDRESS), COUNTER_TAG, "Counter",
    );
    let e = r.err().unwrap();
    assert_eq!(e.status, Status::InvalidArg);
    assert_eq!(e.reason, "Invalid argument, nothing attach to js_object");
}

#[test]
fn recovery_fails_without_pointer_or_box() {
    let bridge = bridge_with_counter();
    let none = ClassInstance::<Counter>::from_napi_value(&bridge, ENV, WRAPPER, None, COUNTER_TAG, "Counter");
    assert_eq!(none.err().unwrap().status, Status::InvalidArg);
    let unknown =
        ClassInstance::<Counter>::from_napi_value(&bridge, ENV, WRAPPER, Some(0x2000), COUNTER_TAG, "Counter");
    assert_eq!(unknown.err().unwrap().status, Status::InvalidArg);
}

#[test]
fn tagged_object_take_twice() {
    let mut boxed = TaggedObject::new(COUNTER_TAG, Counter { value: 3 });
    assert!(boxed.is_attached());
    assert_eq!(boxed.take().unwrap().value, 3);
    assert!(boxed.take().is_none());
    assert!(!boxed.is_attached());
    assert_eq!(boxed.type_id, COUNTER_TAG);
}

#[test]
fn registry_take_is_idempotent() {
    let mut registry = Registry::new();
    registry.register(9, ReferenceEntry { reference: 4, chain: FinalizeChain::new() });
    assert!(registry.contains(9));
    assert_eq!(registry.holders_of(9), Some(1));
    let first = registry.take(9).unwrap();
    assert_eq!(first.reference, 4);
    assert!(first.chain.callbacks.is_empty());
    assert!(registry.take(9).is_none());
    assert!(!registry.contains(9));
}

#[test]
fn second_reference_is_refused_and_drop_restores_count() {
    let mut bridge = bridge_with_counter();
    assert!(bridge.add_reference(ADDRESS, 1).is_ok());
    let again = bridge.add_reference(ADDRESS, 2);
    assert_eq!(again.err().unwrap().status, Status::InvalidArg);
    assert_eq!(bridge.drop_reference(ADDRESS), Some(2));
    assert_eq!(bridge.holders(ADDRESS), Some(1));
    assert!(bridge.add_reference(ADDRESS, 3).is_ok());
    assert!(bridge.take_payload(ADDRESS));
    match bridge.raw_finalize_unchecked(ADDRESS, Ok(())) {
        FinalizeAction::RunChain { callbacks, .. } => assert_eq!(callbacks, vec![1, 3]),
        _ => panic!("expected the chain to run"),
    }
}

#[test]
fn reference_to_unknown_box_is_refused() {
    let mut bridge = Bridge::new();
    assert_eq!(bridge.add_reference(ADDRESS, 1).err().unwrap().status, Status::InvalidArg);
    assert_eq!(bridge.drop_reference(ADDRESS), None);
}

#[test]
fn failed_wrap_records_nothing() {
    let mut bridge = Bridge::new();
    let e = new_instance(&mut bridge, "Counter", COUNTER_TAG, ADDRESS, 9, OBJECT_REF).err().unwrap();
    assert_eq!(e.status, Status::GenericFailure);
    assert_eq!(e.reason, "Failed to wrap native object of class `Counter`");
    assert!(!bridge.is_registered(ADDRESS));
    assert!(bridge.slot(ADDRESS).is_none());
}

#[test]
fn new_instance_records_box() {
    let bridge = bridge_with_counter();
    let slot = bridge.slot(ADDRESS).unwrap();
    assert_eq!(slot.type_id, COUNTER_TAG);
    assert!(slot.attached);
    assert!(bridge.is_registered(ADDRESS));
}

#[test]
fn assign_to_this_keeps_the_same_payload() {
    let bridge = bridge_with_counter();
    let c = ClassInstance::<Counter>::from_napi_value(&bridge, ENV, WRAPPER, Some(ADDRESS), COUNTER_TAG, "Counter")
        .unwrap();
    let mut this = This::from(Object { env: ENV, value: 900 });
    let d = c.assign_to_this("counter", "Counter", &mut this, 0).unwrap();
    assert_eq!(d.inner(), c.inner());
    assert_eq!(d.value, c.value);
    assert_eq!(this.object.value, 900);
    let attrs = PropertyAttributes { writable: true, enumerable: false, configurable: true };
    let e = c.assign_to_this_with_attributes("counter", attrs, &mut this, 0).unwrap();
    assert_eq!(e.inner(), ADDRESS);
}

#[test]
fn assign_to_this_errors() {
    let c = ClassInstance::<Counter>::new(WRAPPER, ENV, ADDRESS);
    let mut this = This::from(Object { env: ENV, value: 900 });
    let nul = c.assign_to_this("a\0b", "Counter", &mut this, 0).err().unwrap();
    assert_eq!(nul.status, Status::GenericFailure);
    assert_eq!(nul.reason, "nul byte found in property name");
    let host = c.assign_to_this("ab", "Counter", &mut this, 1).err().unwrap();
    assert_eq!(host.status, Status::InvalidArg);
    assert_eq!(host.reason, "Failed to assign ClassInstance<Counter> to this");
    let attrs = PropertyAttributes { writable: false, enumerable: true, configurable: false };
    let define = c.assign_to_this_with_attributes("ab", attrs, &mut this, 10).err().unwrap();
    assert_eq!(define.status, Status::PendingException);
    assert_eq!(define.reason, "Failed to define properties on This in `assign_to_this_with_attributes`");
    let define_nul = c.assign_to_this_with_attributes("a\0", attrs, &mut this, 0).err().unwrap();
    assert_eq!(define_nul.status, Status::GenericFailure);
    assert_eq!(define_nul.reason, "nul byte found in property name");
}

#[test]
fn property_name_is_nul_terminated() {
    assert_eq!(property_name("ab").unwrap(), vec![b'a', b'b', 0]);
    assert_eq!(property_name("").unwrap(), vec![0]);
    assert_eq!(property_name("x\0").err().unwrap().status, Status::GenericFailure);
}

#[test]
fn attribute_bits_encoding() {
    let all = PropertyAttributes { writable: true, enumerable: true, configurable: true };
    assert_eq!(all.bits(), 7);
    let some = PropertyAttributes { writable: false, enumerable: true, configurable: false };
    assert_eq!(some.bits(), 2);
}

#[test]
fn status_codes() {
    assert!(check_status(0, "m").is_ok());
    let e = check_status(1, "m").err().unwrap();
    assert_eq!(e.status, Status::InvalidArg);
    assert_eq!(e.reason, "m");
    assert_eq!(Status::from_code(9), Status::GenericFailure);
    assert_eq!(Status::from_code(23), Status::CannotRunJs);
    assert_eq!(Status::from_code(99), Status::Unknown);
}

#[test]
fn object_views() {
    let c = ClassInstance::<Counter>::new(WRAPPER, ENV, ADDRESS);
    let o = c.as_object(3);
    assert_eq!(o, Object { env: 3, value: WRAPPER });
    let mut this = This::from(o);
    assert_eq!(this.deref().value, WRAPPER);
    this.deref_mut().value = 1;
    assert_eq!(this.object.value, 1);
}

#[test]
fn receiver_from_raw_values() {
    let t = <This<Object> as NapiValue>::from_raw(ENV, 42, true).unwrap();
    assert_eq!(t.object, Object { env: ENV, value: 42 });
    assert_eq!(t.raw(), 42);
    let bad = <This<Object> as NapiValue>::from_raw(ENV, 42, false);
    let bad = bad.err().unwrap();
    assert_eq!(bad.status, Status::ObjectExpected);
    assert_eq!(bad.reason, "Expected an object");
    let u = <This<Object> as NapiValue>::from_raw_unchecked(ENV, 7);
    assert_eq!(u.object, Object { env: ENV, value: 7 });
    let c = ClassInstance::<Counter>::new(WRAPPER, ENV, ADDRESS);
    assert_eq!(c.raw(), WRAPPER);
}

#[test]
fn class_status_names_the_class() {
    assert!(check_class_status(0, "Failed to construct class", "Counter").is_ok());
    let e = check_class_status(9, "Failed to construct class", "Counter").err().unwrap();
    assert_eq!(e.status, Status::GenericFailure);
    assert_eq!(e.reason, "Failed to construct class `Counter`");
}
