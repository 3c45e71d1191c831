use std::cell::RefCell;

use chip_sys::chip::{lock, ChipContext, EndpointRegistration, StaticEndpoint, BRIDGE_NODE, ROOT_NODE};
use chip_sys::descriptor::{Cluster, DeviceType, EndpointType};
use chip_sys::error::{
    ChipError, EmberAfError, EmberAfStatus_EMBER_ZCL_STATUS_DUPLICATE_EXISTS,
    EmberAfStatus_EMBER_ZCL_STATUS_FAILURE, EmberAfStatus_EMBER_ZCL_STATUS_RESOURCE_EXHAUSTED,
    EmberAfStatus_EMBER_ZCL_STATUS_SUCCESS,
};
use chip_sys::table::{chip_kInvalidEndpointId, EndpointTable, ENDPOINT_ID_RANGE_START};

fn light() -> (Vec<DeviceType>, EndpointType) {
    (
        vec![DeviceType::of(0x0100), DeviceType::of(0x0013)],
        EndpointType::new(vec![Cluster::on_off(), Cluster::descriptor(), Cluster::bridged()]),
    )
}

fn no_lock() -> Option<(fn(), fn())> {
    None
}

#[test]
fn register_enable_drop_scenario() {
    let mut table = EndpointTable::new(4).unwrap();
    let (device_types, endpoint_type) = light();
    let data_versions = [0u32; 2];
    let id = ENDPOINT_ID_RANGE_START;
    let registration = EndpointRegistration::new(
        &mut table,
        id,
        &device_types,
        &endpoint_type,
        &data_versions,
        BRIDGE_NODE,
        |slot, given, ep, versions, types, parent| {
            assert_eq!(slot, 0);
            assert_eq!(given, 3);
            assert_eq!(ep.raw().cluster_count, 3);
            assert_eq!(versions.len(), 2);
            assert_eq!(types.len(), 2);
            assert_eq!(parent, 1);
            EmberAfStatus_EMBER_ZCL_STATUS_SUCCESS
        },
    )
    .unwrap();
    assert_eq!(registration.id(), id);
    let index = EndpointRegistration::find_index(&table, id).unwrap();
    assert!((index as usize) < table.len());
    assert_eq!(index, 3);
    assert_eq!(registration.index(&table), Some(3));
    let calls = RefCell::new(Vec::new());
    let hooks = no_lock();
    lock(&hooks, |ctx: &ChipContext| {
        registration.enable(&table, ctx, true, |endpoint, on| calls.borrow_mut().push((endpoint, on)));
        registration.enable(&table, ctx, false, |endpoint, on| calls.borrow_mut().push((endpoint, on)));
    });
    assert_eq!(*calls.borrow(), vec![(3, true), (3, false)]);
    let cleared = RefCell::new(Vec::new());
    registration.release(&mut table, |slot| cleared.borrow_mut().push(slot));
    assert_eq!(*cleared.borrow(), vec![0]);
    assert_eq!(EndpointRegistration::find_index(&table, id), None);
}

#[test]
fn duplicate_registration_does_not_ask_the_runtime() {
    let mut table = EndpointTable::new(4).unwrap();
    let (device_types, endpoint_type) = light();
    let data_versions = [0u32; 3];
    let first = EndpointRegistration::new(
        &mut table,
        7,
        &device_types,
        &endpoint_type,
        &data_versions,
        BRIDGE_NODE,
        |_, _, _, _, _, _| EmberAfStatus_EMBER_ZCL_STATUS_SUCCESS,
    );
    assert!(first.is_ok());
    let asked = RefCell::new(0);
    let second = EndpointRegistration::new(
        &mut table,
        7,
        &device_types,
        &endpoint_type,
        &data_versions,
        BRIDGE_NODE,
        |_, _, _, _, _, _| {
            *asked.borrow_mut() += 1;
            EmberAfStatus_EMBER_ZCL_STATUS_SUCCESS
        },
    );
    assert_eq!(
        second.unwrap_err(),
        EmberAfError::from(EmberAfStatus_EMBER_ZCL_STATUS_DUPLICATE_EXISTS)
    );
    assert_eq!(*asked.borrow(), 0);
    assert_eq!(table.find_index(7), Some(3));
    assert_eq!(table.find_index(chip_kInvalidEndpointId), Some(4));
}

#[test]
fn exhausted_registration_does_not_ask_the_runtime() {
    let mut table = EndpointTable::new(1).unwrap();
    let (device_types, endpoint_type) = light();
    let data_versions = [0u32; 3];
    let first = EndpointRegistration::confirm(&mut table, 7, EmberAfStatus_EMBER_ZCL_STATUS_SUCCESS)
        .unwrap();
    let asked = RefCell::new(0);
    let second = EndpointRegistration::new(
        &mut table,
        8,
        &device_types,
        &endpoint_type,
        &data_versions,
        ROOT_NODE,
        |_, _, _, _, _, _| {
            *asked.borrow_mut() += 1;
            EmberAfStatus_EMBER_ZCL_STATUS_SUCCESS
        },
    );
    assert_eq!(
        second.unwrap_err(),
        EmberAfError::from(EmberAfStatus_EMBER_ZCL_STATUS_RESOURCE_EXHAUSTED)
    );
    assert_eq!(*asked.borrow(), 0);
    first.release(&mut table, |slot| assert_eq!(slot, 0));
    let third = EndpointRegistration::new(
        &mut table,
        8,
        &device_types,
        &endpoint_type,
        &data_versions,
        ROOT_NODE,
        |slot, id, _, _, _, parent| {
            assert_eq!((slot, id, parent), (0, 8, 0));
            EmberAfStatus_EMBER_ZCL_STATUS_SUCCESS
        },
    );
    assert_eq!(third.unwrap().id(), 8);
    let fourth = EndpointRegistration::confirm(&mut table, 9, EmberAfStatus_EMBER_ZCL_STATUS_SUCCESS);
    assert_eq!(
        fourth.unwrap_err(),
        EmberAfError::from(EmberAfStatus_EMBER_ZCL_STATUS_RESOURCE_EXHAUSTED)
    );
}

#[test]
fn refusal_of_the_runtime_is_the_error_and_changes_nothing() {
    let mut table = EndpointTable::new(2).unwrap();
    let (device_types, endpoint_type) = light();
    let data_versions = [0u32; 3];
    let refused = EndpointRegistration::new(
        &mut table,
        5,
        &device_types,
        &endpoint_type,
        &data_versions,
        BRIDGE_NODE,
        |_, _, _, _, _, _| EmberAfStatus_EMBER_ZCL_STATUS_FAILURE,
    );
    assert_eq!(
        refused.unwrap_err(),
        EmberAfError::from(EmberAfStatus_EMBER_ZCL_STATUS_FAILURE)
    );
    assert_eq!(table.find_index(5), None);
    assert_eq!(table.find_index(chip_kInvalidEndpointId), Some(3));
}

#[test]
fn release_never_frees_another_slot() {
    let mut table = EndpointTable::new(3).unwrap();
    let a = EndpointRegistration::confirm(&mut table, 10, 0).unwrap();
    let b = EndpointRegistration::confirm(&mut table, 11, 0).unwrap();
    let c = EndpointRegistration::confirm(&mut table, 12, 0).unwrap();
    b.release(&mut table, |slot| assert_eq!(slot, 1));
    assert_eq!(table.find_index(10), Some(3));
    assert_eq!(table.find_index(11), None);
    assert_eq!(table.find_index(12), Some(5));
    c.release(&mut table, |slot| assert_eq!(slot, 2));
    a.release(&mut table, |slot| assert_eq!(slot, 0));
    assert_eq!(table.find_index(10), None);
    assert_eq!(table.find_index(12), None);
    assert_eq!(table.find_index(0), Some(0));
}

#[test]
fn static_endpoint_ids() {
    assert_eq!(ROOT_NODE.id(), 0);
    assert_eq!(BRIDGE_NODE.id(), 1);
    let other: StaticEndpoint<9> = StaticEndpoint;
    assert_eq!(other.id(), 9);
}

#[test]
fn static_endpoints_are_initialized_in_order() {
    let log = RefCell::new(Vec::new());
    let result = StaticEndpoint::<0>::initialize(
        &|id: u16, types: Vec<DeviceType>| {
            log.borrow_mut().push(format!("types {} {:?}", id, types[0].id().device_id));
            assert_eq!(types.len(), 1);
            assert_eq!(types[0].id().device_version, 1);
            0
        },
        &|id: u16, enable: bool| log.borrow_mut().push(format!("enable {} {}", id, enable)),
    );
    assert_eq!(result, Ok(()));
    assert_eq!(
        *log.borrow(),
        vec!["types 0 22", "types 1 14", "enable 2 false", "enable 1 false"]
    );
}

#[test]
fn static_endpoints_stop_at_first_refusal() {
    let log = RefCell::new(Vec::new());
    let result = StaticEndpoint::<0>::initialize(
        &|id: u16, _types: Vec<DeviceType>| {
            log.borrow_mut().push(id);
            if id == 1 { 0x2f } else { 0 }
        },
        &|id: u16, _enable: bool| log.borrow_mut().push(100 + id),
    );
    assert_eq!(result, Err(ChipError::from_code(0x2f)));
    assert_eq!(*log.borrow(), vec![0, 1]);
    let log = RefCell::new(Vec::new());
    let result = StaticEndpoint::<0>::initialize(
        &|id: u16, _types: Vec<DeviceType>| {
            log.borrow_mut().push(id);
            3
        },
        &|id: u16, _enable: bool| log.borrow_mut().push(100 + id),
    );
    assert_eq!(result, Err(ChipError::from_code(3)));
    assert_eq!(*log.borrow(), vec![0]);
}

#[test]
fn static_endpoint_enable_hands_its_id() {
    let log = RefCell::new(Vec::new());
    BRIDGE_NODE.enable(true, &|id: u16, enable: bool| log.borrow_mut().push((id, enable)));
    assert_eq!(*log.borrow(), vec![(1, true)]);
    let r = ROOT_NODE.initialize_ep(vec![DeviceType::of(0x16)], &|id: u16, types: Vec<DeviceType>| {
        assert_eq!(id, 0);
        assert_eq!(types, vec![DeviceType::new(0x16, 1)]);
        9
    });
    assert_eq!(r, Err(ChipError::from_code(9)));
}
