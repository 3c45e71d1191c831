use chip_sys::chip::{
    Attribute, Cluster, DeviceType, TestComissionableDataProvider, ENDPOINT_COUNT,
    ENDPOINT_ID_RANGE_START,
};
use chip_sys::{
    cb, chip_ClusterId, chip_EndpointId, chip_kInvalidEndpointId, ChipError, EmberAfError,
    EmberAfStatus, EmberAfStatus_EMBER_ZCL_STATUS_FAILURE, CHIP_ERROR, FIXED_ENDPOINT_COUNT,
    ZCL_BRIDGED_DEVICE_BASIC_CLUSTER_ID, ZCL_ON_OFF_ATTRIBUTE_ID, ZCL_ON_OFF_CLUSTER_ID,
    ZCL_REACHABLE_ATTRIBUTE_ID,
};

#[test]
fn names_are_reachable_from_the_root_and_from_chip() {
    let endpoint: chip_EndpointId = ENDPOINT_ID_RANGE_START;
    let cluster: chip_ClusterId = ZCL_ON_OFF_CLUSTER_ID;
    let status: EmberAfStatus = EmberAfStatus_EMBER_ZCL_STATUS_FAILURE;
    let code: CHIP_ERROR = cb::CHIP_ERROR_NOT_IMPLEMENTED;
    assert_eq!((endpoint, cluster, status, code), (3, 6, 1, 0x2d));
    assert_eq!(FIXED_ENDPOINT_COUNT as usize + ENDPOINT_COUNT, 7);
    assert_eq!(chip_kInvalidEndpointId, u16::MAX);
    assert_eq!(ZCL_BRIDGED_DEVICE_BASIC_CLUSTER_ID, 0x39);
    assert_eq!((ZCL_ON_OFF_ATTRIBUTE_ID, ZCL_REACHABLE_ATTRIBUTE_ID), (0, 0x11));
    assert_eq!(ChipError::from_code(code).code(), 0x2d);
    assert_eq!(EmberAfError::from(status).code(), 1);
    assert_eq!(Cluster::on_off().id(), cluster);
    assert_eq!(Attribute::boolean(ZCL_ON_OFF_ATTRIBUTE_ID).size(), 1);
    assert_eq!(DeviceType::of(0x0100).id().device_version, 1);
    let _provider = TestComissionableDataProvider;
    let _same: chip_sys::dynamic::Cluster = Cluster::bridged();
}
