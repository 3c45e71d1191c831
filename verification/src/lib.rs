//! Verified bookkeeping for a Matter bridge: status codes, endpoint
//! descriptors, the dynamic endpoint table and the callback registry.
//!
//! The runtime itself is not here. Whatever only the runtime can do reaches
//! this library as a value that was read from it or as a function that
//! calls it; the library decides what is asked of it and what its answers
//! mean.
//!
//! - [`error`]: the two status domains as results.
//! - [`zcl`]: the numbers of the data model.
//! - [`descriptor`]: device types, commands, attributes, clusters and
//!   endpoint types.
//! - [`table`]: the endpoint index table, what a registration and a release
//!   do to it, and what holds of every sequence of them.
//! - [`callbacks`]: the registry and its entry points.
//! - [`chip`]: the context, the start of the stack, the fixed endpoints and
//!   the registration of dynamic ones.
//! - [`dynamic`]: an endpoint with its descriptors in one value, and the
//!   commissioning data as results.

pub mod callbacks;
pub mod chip;
pub mod descriptor;
pub mod dynamic;
pub mod error;
pub mod table;
pub mod zcl;

pub use crate::callbacks as cb;
pub use crate::error::{
    CHIP_ERROR, CHIP_NO_ERROR, ChipError, EmberAfError, EmberAfStatus,
    EmberAfStatus_EMBER_ZCL_STATUS_DUPLICATE_EXISTS, EmberAfStatus_EMBER_ZCL_STATUS_FAILURE,
    EmberAfStatus_EMBER_ZCL_STATUS_RESOURCE_EXHAUSTED, EmberAfStatus_EMBER_ZCL_STATUS_SUCCESS,
};
pub use crate::table::{chip_kInvalidEndpointId, FIXED_ENDPOINT_COUNT};
pub use crate::zcl::{
    ATTRIBUTE_MASK_EXTERNAL_STORAGE, CLUSTER_MASK_SERVER, EmberAfAttributeMask,
    EmberAfAttributeType, EmberAfClusterMask, ZCL_ARRAY_ATTRIBUTE_TYPE,
    ZCL_BITMAP16_ATTRIBUTE_TYPE, ZCL_BITMAP32_ATTRIBUTE_TYPE, ZCL_BITMAP64_ATTRIBUTE_TYPE,
    ZCL_BITMAP8_ATTRIBUTE_TYPE, ZCL_BOOLEAN_ATTRIBUTE_TYPE, ZCL_BRIDGED_DEVICE_BASIC_CLUSTER_ID,
    ZCL_CHAR_STRING_ATTRIBUTE_TYPE, ZCL_CLIENT_LIST_ATTRIBUTE_ID, ZCL_CURRENT_LEVEL_ATTRIBUTE_ID,
    ZCL_DESCRIPTOR_CLUSTER_ID, ZCL_DEVICE_LIST_ATTRIBUTE_ID, ZCL_INT16S_ATTRIBUTE_TYPE,
    ZCL_INT16U_ATTRIBUTE_TYPE, ZCL_INT32S_ATTRIBUTE_TYPE, ZCL_INT32U_ATTRIBUTE_TYPE,
    ZCL_INT64S_ATTRIBUTE_TYPE, ZCL_INT64U_ATTRIBUTE_TYPE, ZCL_INT8S_ATTRIBUTE_TYPE,
    ZCL_INT8U_ATTRIBUTE_TYPE, ZCL_KEYPAD_INPUT_CLUSTER_ID, ZCL_LEVEL_CONTROL_CLUSTER_ID,
    ZCL_MEDIA_PLAYBACK_CLUSTER_ID, ZCL_MEDIA_PLAYBACK_STATE_ATTRIBUTE_ID,
    ZCL_NAVIGATE_TARGET_COMMAND_ID, ZCL_NAVIGATE_TARGET_RESPONSE_COMMAND_ID,
    ZCL_NODE_LABEL_ATTRIBUTE_ID, ZCL_ON_LEVEL_ATTRIBUTE_ID, ZCL_ON_OFF_ATTRIBUTE_ID,
    ZCL_ON_OFF_CLUSTER_ID, ZCL_OPTIONS_ATTRIBUTE_ID, ZCL_PARTS_LIST_ATTRIBUTE_ID,
    ZCL_PAUSE_COMMAND_ID, ZCL_PLAYBACK_RESPONSE_COMMAND_ID, ZCL_PLAY_COMMAND_ID,
    ZCL_REACHABLE_ATTRIBUTE_ID, ZCL_SEND_KEY_COMMAND_ID, ZCL_SEND_KEY_RESPONSE_COMMAND_ID,
    ZCL_SERVER_LIST_ATTRIBUTE_ID, ZCL_STOP_COMMAND_ID, ZCL_TARGET_NAVIGATOR_CLUSTER_ID,
    ZCL_TARGET_NAVIGATOR_CURRENT_TARGET_ATTRIBUTE_ID, ZCL_TARGET_NAVIGATOR_LIST_ATTRIBUTE_ID,
    chip_AttributeId, chip_ClusterId, chip_CommandId, chip_DataVersion, chip_EndpointId,
};
