//! Numbers of the data model: the integer types of its ids, the cluster,
//! attribute and command ids that the presets use, the attribute storage type
//! tags and the mask bits.

use vstd::prelude::*;

verus! {

/// Id of an endpoint.
#[allow(non_camel_case_types)]
pub type chip_EndpointId = u16;

/// Id of a cluster.
#[allow(non_camel_case_types)]
pub type chip_ClusterId = u32;

/// Id of an attribute within its cluster.
#[allow(non_camel_case_types)]
pub type chip_AttributeId = u32;

/// Id of a command within its cluster.
#[allow(non_camel_case_types)]
pub type chip_CommandId = u32;

/// Version counter of a cluster's data.
#[allow(non_camel_case_types)]
pub type chip_DataVersion = u32;

/// Tag of an attribute's storage type.
pub type EmberAfAttributeType = u8;

/// Mask bits of an attribute.
pub type EmberAfAttributeMask = u8;

/// Mask bits of a cluster.
pub type EmberAfClusterMask = u8;

/// Attribute mask bit: the value is kept by the host, not by the runtime.
pub const ATTRIBUTE_MASK_EXTERNAL_STORAGE: EmberAfAttributeMask = 0x10;

/// Cluster mask bit: the cluster is a server.
pub const CLUSTER_MASK_SERVER: EmberAfClusterMask = 0x40;

/// Storage type: boolean.
pub const ZCL_BOOLEAN_ATTRIBUTE_TYPE: EmberAfAttributeType = 0x10;

/// Storage type: bitmap of 8 bits.
pub const ZCL_BITMAP8_ATTRIBUTE_TYPE: EmberAfAttributeType = 0x18;

/// Storage type: bitmap of 16 bits.
pub const ZCL_BITMAP16_ATTRIBUTE_TYPE: EmberAfAttributeType = 0x19;

/// Storage type: bitmap of 32 bits.
pub const ZCL_BITMAP32_ATTRIBUTE_TYPE: EmberAfAttributeType = 0x1B;

/// Storage type: bitmap of 64 bits.
pub const ZCL_BITMAP64_ATTRIBUTE_TYPE: EmberAfAttributeType = 0x1F;

/// Storage type: unsigned integer of 8 bits.
pub const ZCL_INT8U_ATTRIBUTE_TYPE: EmberAfAttributeType = 0x20;

/// Storage type: unsigned integer of 16 bits.
pub const ZCL_INT16U_ATTRIBUTE_TYPE: EmberAfAttributeType = 0x21;

/// Storage type: unsigned integer of 32 bits.
pub const ZCL_INT32U_ATTRIBUTE_TYPE: EmberAfAttributeType = 0x23;

/// Storage type: unsigned integer of 64 bits.
pub const ZCL_INT64U_ATTRIBUTE_TYPE: EmberAfAttributeType = 0x27;

/// Storage type: signed integer of 8 bits.
pub const ZCL_INT8S_ATTRIBUTE_TYPE: EmberAfAttributeType = 0x28;

/// Storage type: signed integer of 16 bits.
pub const ZCL_INT16S_ATTRIBUTE_TYPE: EmberAfAttributeType = 0x29;

/// Storage type: signed integer of 32 bits.
pub const ZCL_INT32S_ATTRIBUTE_TYPE: EmberAfAttributeType = 0x2B;

/// Storage type: signed integer of 64 bits.
pub const ZCL_INT64S_ATTRIBUTE_TYPE: EmberAfAttributeType = 0x2F;

/// Storage type: character string with a length byte.
pub const ZCL_CHAR_STRING_ATTRIBUTE_TYPE: EmberAfAttributeType = 0x42;

/// Storage type: array.
pub const ZCL_ARRAY_ATTRIBUTE_TYPE: EmberAfAttributeType = 0x48;

/// Cluster: on/off.
pub const ZCL_ON_OFF_CLUSTER_ID: chip_ClusterId = 0x0006;

/// Cluster: level control.
pub const ZCL_LEVEL_CONTROL_CLUSTER_ID: chip_ClusterId = 0x0008;

/// Cluster: descriptor.
pub const ZCL_DESCRIPTOR_CLUSTER_ID: chip_ClusterId = 0x001D;

/// Cluster: basic information of a bridged device.
pub const ZCL_BRIDGED_DEVICE_BASIC_CLUSTER_ID: chip_ClusterId = 0x0039;

/// Cluster: target navigator.
pub const ZCL_TARGET_NAVIGATOR_CLUSTER_ID: chip_ClusterId = 0x0505;

/// Cluster: media playback.
pub const ZCL_MEDIA_PLAYBACK_CLUSTER_ID: chip_ClusterId = 0x0506;

/// Cluster: keypad input.
pub const ZCL_KEYPAD_INPUT_CLUSTER_ID: chip_ClusterId = 0x0509;

/// On/off: the state.
pub const ZCL_ON_OFF_ATTRIBUTE_ID: chip_AttributeId = 0x0000;

/// Level control: the current level.
pub const ZCL_CURRENT_LEVEL_ATTRIBUTE_ID: chip_AttributeId = 0x0000;

/// Level control: the options.
pub const ZCL_OPTIONS_ATTRIBUTE_ID: chip_AttributeId = 0x000F;

/// Level control: the level to switch on at.
pub const ZCL_ON_LEVEL_ATTRIBUTE_ID: chip_AttributeId = 0x0011;

/// Descriptor: the device types.
pub const ZCL_DEVICE_LIST_ATTRIBUTE_ID: chip_AttributeId = 0x0000;

/// Descriptor: the server clusters.
pub const ZCL_SERVER_LIST_ATTRIBUTE_ID: chip_AttributeId = 0x0001;

/// Descriptor: the client clusters.
pub const ZCL_CLIENT_LIST_ATTRIBUTE_ID: chip_AttributeId = 0x0002;

/// Descriptor: the endpoints below this one.
pub const ZCL_PARTS_LIST_ATTRIBUTE_ID: chip_AttributeId = 0x0003;

/// Bridged device: the label of the node.
pub const ZCL_NODE_LABEL_ATTRIBUTE_ID: chip_AttributeId = 0x0005;

/// Bridged device: whether the device can be reached.
pub const ZCL_REACHABLE_ATTRIBUTE_ID: chip_AttributeId = 0x0011;

/// Target navigator: the targets.
pub const ZCL_TARGET_NAVIGATOR_LIST_ATTRIBUTE_ID: chip_AttributeId = 0x0000;

/// Target navigator: the current target.
pub const ZCL_TARGET_NAVIGATOR_CURRENT_TARGET_ATTRIBUTE_ID: chip_AttributeId = 0x0001;

/// Media playback: the playback state.
pub const ZCL_MEDIA_PLAYBACK_STATE_ATTRIBUTE_ID: chip_AttributeId = 0x0000;

/// Target navigator: navigate to a target.
pub const ZCL_NAVIGATE_TARGET_COMMAND_ID: chip_CommandId = 0x00;

/// Target navigator: the answer to navigate.
pub const ZCL_NAVIGATE_TARGET_RESPONSE_COMMAND_ID: chip_CommandId = 0x01;

/// Media playback: play.
pub const ZCL_PLAY_COMMAND_ID: chip_CommandId = 0x00;

/// Media playback: pause.
pub const ZCL_PAUSE_COMMAND_ID: chip_CommandId = 0x01;

/// Media playback: stop.
pub const ZCL_STOP_COMMAND_ID: chip_CommandId = 0x02;

/// Media playback: the answer to a playback command.
pub const ZCL_PLAYBACK_RESPONSE_COMMAND_ID: chip_CommandId = 0x0A;

/// Keypad input: send a key.
pub const ZCL_SEND_KEY_COMMAND_ID: chip_CommandId = 0x00;

/// Keypad input: the answer to send a key.
pub const ZCL_SEND_KEY_RESPONSE_COMMAND_ID: chip_CommandId = 0x01;

} // verus!
