use netpbm_wic_codec::guids::{
    Guid, PropertyKey, NETPBM_DECODER_ID, PROPERTY_STORE_CLASS_ID, VENDOR_VICTOR_ID,
};
use netpbm_wic_codec::platform_ids::{
    horizontal_size_key, vertical_size_key, IID_ICLASS_FACTORY, IID_IINITIALIZE_WITH_STREAM,
    IID_IPROPERTY_STORE, IID_IUNKNOWN,
};
use netpbm_wic_codec::property_store::SLOT_COUNT;
use netpbm_wic_codec::{
    ClassFactory, ClassKind, ComError, Interface, PropValue, PropertyStore, PropertyTable, Server,
};

fn guid(v: u128) -> Guid {
    Guid::from_u128(v)
}

fn property_store_factory(server: &Server) -> ClassFactory {
    server
        .get_class_object(&guid(PROPERTY_STORE_CLASS_ID), &guid(IID_ICLASS_FACTORY))
        .unwrap()
}

#[test]
fn it_works() {
    let result = netpbm_wic_codec::add(2, 2);
    assert_eq!(result, 4);
}

#[test]
fn get_count() {
    let mut store = PropertyStore::new();
    store.initialize(&[], 0).unwrap();
    assert_eq!(store.query_interface(&guid(IID_IPROPERTY_STORE)), Ok(Interface::PropertyStore));
    let count = store.get_count();
    assert_eq!(5u32, count);
}

#[test]
fn create_using_class_factory() {
    let mut server = Server::new();
    let factory = ClassFactory { kind: ClassKind::PropertyStore };
    let mut store = factory
        .create_instance(&mut server, false, &guid(IID_IINITIALIZE_WITH_STREAM))
        .unwrap();
    store.initialize(&[], 0).unwrap();
    assert_eq!(store.query_interface(&guid(IID_IPROPERTY_STORE)), Ok(Interface::PropertyStore));
    let count = store.get_count();
    assert_eq!(5u32, count);
}

#[test]
fn unbound_store_reports_nothing() {
    let store = PropertyStore::new();
    assert_eq!(store.get_count(), 0);
    for i in [0u32, 1, 4, 5, 6, u32::MAX] {
        assert_eq!(store.get_at(i), Err(ComError::InvalidArgument));
    }
    assert_eq!(store.get_value(&horizontal_size_key()), PropValue::Empty);
}

#[test]
fn bound_store_reports_five_keys() {
    let mut store = PropertyStore::new();
    store.initialize(&[1, 2, 3], 7).unwrap();
    assert_eq!(store.get_count(), 5);
    assert_eq!(SLOT_COUNT, 5);
    assert_eq!(store.get_at(0), Ok(horizontal_size_key()));
    assert_eq!(store.get_at(1), Ok(vertical_size_key()));
    for i in 2u32..5 {
        assert_eq!(store.get_at(i), Ok(PropertyKey::null()));
    }
    assert_eq!(store.get_at(5), Err(ComError::InvalidArgument));
    assert_eq!(store.get_at(u32::MAX), Err(ComError::InvalidArgument));
}

#[test]
fn bound_store_values() {
    let mut store = PropertyStore::new();
    store.initialize(&[], 0).unwrap();
    assert_eq!(store.get_value(&horizontal_size_key()), PropValue::Int(1));
    assert_eq!(store.get_value(&vertical_size_key()), PropValue::Int(2));
    assert_eq!(store.get_value(&PropertyKey::null()), PropValue::Empty);
}

#[test]
fn missing_key_gives_empty_value() {
    let mut store = PropertyStore::new();
    store.initialize(&[], 0).unwrap();
    let other = PropertyKey { fmtid: guid(VENDOR_VICTOR_ID), pid: 3 };
    assert_eq!(store.get_value(&other), PropValue::Empty);
    let h = horizontal_size_key();
    let same_set_other_pid = PropertyKey { fmtid: h.fmtid, pid: 99 };
    assert_eq!(store.get_value(&same_set_other_pid), PropValue::Empty);
}

#[test]
fn second_initialize_changes_nothing() {
    let mut store = PropertyStore::new();
    store.initialize(&[], 0).unwrap();
    assert_eq!(store.initialize(&[9, 9], 1), Ok(()));
    assert_eq!(store.get_count(), 5);
    assert_eq!(store.get_at(0), Ok(horizontal_size_key()));
    assert_eq!(store.get_value(&horizontal_size_key()), PropValue::Int(1));
}

#[test]
fn writes_are_denied_before_and_after_binding() {
    let mut store = PropertyStore::new();
    let h = horizontal_size_key();
    assert_eq!(store.set_value(&h, &PropValue::Int(99)), Err(ComError::AccessDenied));
    assert_eq!(store.commit(), Err(ComError::AccessDenied));
    assert_eq!(store.get_count(), 0);
    store.initialize(&[], 0).unwrap();
    assert_eq!(
        store.set_value(&h, &PropValue::Text("wide".to_string())),
        Err(ComError::AccessDenied)
    );
    assert_eq!(store.commit(), Err(ComError::AccessDenied));
    assert_eq!(store.get_count(), 5);
    assert_eq!(store.get_value(&h), PropValue::Int(1));
}

#[test]
fn store_interfaces() {
    let store = PropertyStore::new();
    assert_eq!(store.query_interface(&guid(IID_IUNKNOWN)), Ok(Interface::Unknown));
    assert_eq!(
        store.query_interface(&guid(IID_IINITIALIZE_WITH_STREAM)),
        Ok(Interface::InitializeWithStream)
    );
    assert_eq!(store.query_interface(&guid(IID_ICLASS_FACTORY)), Err(ComError::NoSuchInterface));
    assert_eq!(store.query_interface(&guid(VENDOR_VICTOR_ID)), Err(ComError::NoSuchInterface));
}

#[test]
fn prop_value_copies() {
    let t = PropValue::Text("abc".to_string());
    assert_eq!(t.copied(), t);
    assert!(!t.is_empty());
    assert!(PropValue::Empty.is_empty());
    assert_eq!(PropValue::Int(-4).copied(), PropValue::Int(-4));
}

#[test]
fn table_hides_records_until_bound() {
    let mut table = PropertyTable::new();
    assert_eq!(table.count(), 0);
    assert_eq!(table.entry_at(0), Err(ComError::InvalidArgument));
    assert_eq!(table.value_for(&PropertyKey::null()), PropValue::Empty);
    assert_eq!(table.bind(&[]), Ok(()));
    assert_eq!(table.count(), 5);
    assert_eq!(table.entry_at(4), Ok(PropertyKey::null()));
    assert_eq!(table.value_for(&vertical_size_key()), PropValue::Int(2));
}

#[test]
fn platform_keys() {
    let h = horizontal_size_key();
    let v = vertical_size_key();
    assert_eq!(h.fmtid.to_u128(), 0x6444048f_4c8b_11d1_8b70_080036b11a03);
    assert_eq!(h.pid, 3);
    assert_eq!(v.fmtid, h.fmtid);
    assert_eq!(v.pid, 4);
    assert_eq!(guid(NETPBM_DECODER_ID).to_u128(), 0x4db4f1de_8b5d_4e8a_9b83_b5164a4f0206);
    assert_eq!(Guid::zero().to_u128(), 0);
}

#[test]
fn full_scenario_through_dispatch() {
    let mut server = Server::new();
    let factory = property_store_factory(&server);
    assert_eq!(factory.kind, ClassKind::PropertyStore);
    let mut store = factory
        .create_instance(&mut server, false, &guid(IID_IINITIALIZE_WITH_STREAM))
        .unwrap();
    assert_eq!(store.query_interface(&guid(IID_IPROPERTY_STORE)), Ok(Interface::PropertyStore));
    assert_eq!(store.initialize(&[], 0), Ok(()));
    assert_eq!(store.get_count(), 5);
    let h = store.get_at(0).unwrap();
    assert_eq!(h, horizontal_size_key());
    assert_eq!(store.get_value(&h), PropValue::Int(1));
    assert_eq!(store.set_value(&h, &PropValue::Int(99)), Err(ComError::AccessDenied));
    assert_eq!(store.get_value(&h), PropValue::Int(1));
    server.release(store);
    assert!(server.can_unload_now());
}
