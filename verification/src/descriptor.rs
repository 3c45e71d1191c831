//! Descriptors of device types, commands, attributes, clusters and endpoint
//! types: plain records in the shape that the runtime reads.
//!
//! A descriptor is built once and never changed afterwards.

use vstd::prelude::*;
use crate::zcl::{
    chip_AttributeId, chip_ClusterId, chip_CommandId, EmberAfAttributeMask, EmberAfAttributeType,
    EmberAfClusterMask, ATTRIBUTE_MASK_EXTERNAL_STORAGE, CLUSTER_MASK_SERVER,
    ZCL_ARRAY_ATTRIBUTE_TYPE, ZCL_BITMAP16_ATTRIBUTE_TYPE, ZCL_BITMAP32_ATTRIBUTE_TYPE,
    ZCL_BITMAP64_ATTRIBUTE_TYPE, ZCL_BITMAP8_ATTRIBUTE_TYPE, ZCL_BOOLEAN_ATTRIBUTE_TYPE,
    ZCL_CHAR_STRING_ATTRIBUTE_TYPE, ZCL_INT16S_ATTRIBUTE_TYPE, ZCL_INT16U_ATTRIBUTE_TYPE,
    ZCL_INT32S_ATTRIBUTE_TYPE, ZCL_INT32U_ATTRIBUTE_TYPE, ZCL_INT64S_ATTRIBUTE_TYPE,
    ZCL_INT64U_ATTRIBUTE_TYPE, ZCL_INT8S_ATTRIBUTE_TYPE, ZCL_INT8U_ATTRIBUTE_TYPE,
};
use crate::zcl::{
    ZCL_BRIDGED_DEVICE_BASIC_CLUSTER_ID, ZCL_CLIENT_LIST_ATTRIBUTE_ID,
    ZCL_CURRENT_LEVEL_ATTRIBUTE_ID, ZCL_DESCRIPTOR_CLUSTER_ID, ZCL_DEVICE_LIST_ATTRIBUTE_ID,
    ZCL_KEYPAD_INPUT_CLUSTER_ID, ZCL_LEVEL_CONTROL_CLUSTER_ID, ZCL_MEDIA_PLAYBACK_CLUSTER_ID,
    ZCL_MEDIA_PLAYBACK_STATE_ATTRIBUTE_ID,
    ZCL_NAVIGATE_TARGET_COMMAND_ID, ZCL_NAVIGATE_TARGET_RESPONSE_COMMAND_ID,
    ZCL_NODE_LABEL_ATTRIBUTE_ID, ZCL_ON_LEVEL_ATTRIBUTE_ID, ZCL_ON_OFF_ATTRIBUTE_ID,
    ZCL_ON_OFF_CLUSTER_ID, ZCL_OPTIONS_ATTRIBUTE_ID, ZCL_PARTS_LIST_ATTRIBUTE_ID,
    ZCL_PAUSE_COMMAND_ID, ZCL_PLAYBACK_RESPONSE_COMMAND_ID, ZCL_PLAY_COMMAND_ID,
    ZCL_REACHABLE_ATTRIBUTE_ID, ZCL_SEND_KEY_COMMAND_ID, ZCL_SEND_KEY_RESPONSE_COMMAND_ID,
    ZCL_SERVER_LIST_ATTRIBUTE_ID, ZCL_STOP_COMMAND_ID, ZCL_TARGET_NAVIGATOR_CLUSTER_ID,
    ZCL_TARGET_NAVIGATOR_CURRENT_TARGET_ATTRIBUTE_ID, ZCL_TARGET_NAVIGATOR_LIST_ATTRIBUTE_ID,
};

verus! {

/// A device type tag as the runtime reads it.
#[derive(Copy, Clone, Debug, PartialEq, Eq, Structural)]
pub struct EmberAfDeviceType {
    pub device_id: u16,
    pub device_version: u8,
}

/// A device type that an endpoint announces.
#[derive(Copy, Clone, Debug, PartialEq, Eq, Structural)]
pub struct DeviceType(pub EmberAfDeviceType);

impl View for DeviceType {
    type V = EmberAfDeviceType;

    open spec fn view(&self) -> EmberAfDeviceType {
        self.0
    }
}

impl DeviceType {
    /// The tag as the runtime reads it.
    pub fn id(&self) -> (r: EmberAfDeviceType)
        ensures
            r == self@,
    {
        self.0
    }

    /// The device type `id` in its first version, as a mathematical value.
    pub open spec fn spec_of(id: u16) -> Self {
        DeviceType(EmberAfDeviceType { device_id: id, device_version: 1 })
    }

    /// The device type `id` in its first version.
    #[verifier::when_used_as_spec(spec_of)]
    pub fn of(id: u16) -> (r: Self)
        ensures
            r == Self::spec_of(id),
            r@ == (EmberAfDeviceType { device_id: id, device_version: 1 }),
    {
        Self::new(id, 1)
    }

    /// The device type `id` in the given version.
    pub fn new(id: u16, version: u8) -> (r: Self)
        ensures
            r@ == (EmberAfDeviceType { device_id: id, device_version: version }),
    {
        Self(EmberAfDeviceType { device_id: id, device_version: version })
    }
}

/// The device types of one endpoint.
pub type DeviceTypes<'a> = &'a [DeviceType];

/// A command of a cluster, by its id.
#[derive(Copy, Clone, Debug, PartialEq, Eq, Structural)]
pub struct Command(pub chip_CommandId);

impl View for Command {
    type V = chip_CommandId;

    open spec fn view(&self) -> chip_CommandId {
        self.0
    }
}

impl Command {
    /// The entry that closes a command list.
    pub fn end() -> (r: Self)
        ensures
            r == Command(0),
    {
        Self(0)
    }

    /// The command's id.
    pub fn id(&self) -> (r: chip_CommandId)
        ensures
            r == self@,
    {
        self.0
    }

    /// The command with the given id.
    pub fn new(id: chip_CommandId) -> (r: Self)
        ensures
            r == Command(id),
    {
        Self(id)
    }
}

/// The commands of one direction of a cluster.
pub type Commands<'a> = &'a [Command];

/// The command list of a cluster without commands in one direction: the
/// closing entry alone.
pub fn empty_commands() -> (r: Vec<Command>)
    ensures
        r@ == seq![Command(0)],
{
    let mut commands: Vec<Command> = Vec::new();
    commands.push(Command::end());
    assert(commands@ =~= seq![Command(0)]);
    commands
}

/// An attribute's metadata as the runtime reads it.
#[derive(Copy, Clone, Debug, PartialEq, Eq, Structural)]
pub struct EmberAfAttributeMetadata {
    pub attribute_id: chip_AttributeId,
    pub attribute_type: EmberAfAttributeType,
    pub size: u16,
    pub mask: EmberAfAttributeMask,
    pub default_value: u32,
}

/// An attribute of a cluster. Its value is always kept by the host: reads
/// and writes are forwarded to the host's callback.
#[derive(Copy, Clone, Debug, PartialEq, Eq, Structural)]
pub struct Attribute(EmberAfAttributeMetadata);

impl View for Attribute {
    type V = EmberAfAttributeMetadata;

    closed spec fn view(&self) -> EmberAfAttributeMetadata {
        self.0
    }
}

impl Attribute {
    /// Every attribute is marked as externally stored.
    #[verifier::type_invariant]
    spec fn externally_stored(self) -> bool {
        self.0.mask & ATTRIBUTE_MASK_EXTERNAL_STORAGE == ATTRIBUTE_MASK_EXTERNAL_STORAGE
    }

    /// The metadata of [`Attribute::new`]: the arguments as they are, the
    /// externally stored bit added to the mask, and no default value.
    pub open spec fn metadata(
        id: chip_AttributeId,
        attr_type: EmberAfAttributeType,
        size: u16,
        mask: EmberAfAttributeMask,
    ) -> EmberAfAttributeMetadata {
        EmberAfAttributeMetadata {
            attribute_id: id,
            attribute_type: attr_type,
            size,
            mask: mask | ATTRIBUTE_MASK_EXTERNAL_STORAGE,
            default_value: 0,
        }
    }

    /// An attribute with the given id, storage type, size in bytes and mask.
    pub fn new(
        id: chip_AttributeId,
        attr_type: EmberAfAttributeType,
        size: u16,
        mask: EmberAfAttributeMask,
    ) -> (r: Self)
        ensures
            r@ == Self::metadata(id, attr_type, size, mask),
    {
        assert((mask | 0x10u8) & 0x10u8 == 0x10u8) by (bit_vector);
        Self(
            EmberAfAttributeMetadata {
                attribute_id: id,
                attribute_type: attr_type,
                size,
                mask: mask | ATTRIBUTE_MASK_EXTERNAL_STORAGE,
                default_value: 0,
            },
        )
    }

    /// The metadata as the runtime reads it.
    pub fn raw(&self) -> (r: &EmberAfAttributeMetadata)
        ensures
            *r == self@,
            r.mask & ATTRIBUTE_MASK_EXTERNAL_STORAGE == ATTRIBUTE_MASK_EXTERNAL_STORAGE,
    {
        proof {
            use_type_invariant(self);
        }
        &self.0
    }

    /// The attribute's id.
    pub fn id(&self) -> (r: chip_AttributeId)
        ensures
            r == self@.attribute_id,
    {
        self.0.attribute_id
    }

    /// The tag of the attribute's storage type.
    pub fn attr_type(&self) -> (r: EmberAfAttributeType)
        ensures
            r == self@.attribute_type,
    {
        self.0.attribute_type
    }

    /// The attribute's size in bytes.
    pub fn size(&self) -> (r: usize)
        ensures
            r == self@.size,
    {
        self.0.size as usize
    }

    /// A boolean of one byte.
    pub fn boolean(id: chip_AttributeId) -> (r: Self)
        ensures
            r@ == Self::metadata(id, ZCL_BOOLEAN_ATTRIBUTE_TYPE, 1, 0),
    {
        Self::new(id, ZCL_BOOLEAN_ATTRIBUTE_TYPE, 1, 0)
    }

    /// A bitmap of 8 bits, one byte.
    pub fn b8(id: chip_AttributeId) -> (r: Self)
        ensures
            r@ == Self::metadata(id, ZCL_BITMAP8_ATTRIBUTE_TYPE, 1, 0),
    {
        Self::new(id, ZCL_BITMAP8_ATTRIBUTE_TYPE, 1, 0)
    }

    /// A bitmap of 16 bits, two bytes.
    pub fn b16(id: chip_AttributeId) -> (r: Self)
        ensures
            r@ == Self::metadata(id, ZCL_BITMAP16_ATTRIBUTE_TYPE, 2, 0),
    {
        Self::new(id, ZCL_BITMAP16_ATTRIBUTE_TYPE, 2, 0)
    }

    /// A bitmap of 32 bits, four bytes.
    pub fn b32(id: chip_AttributeId) -> (r: Self)
        ensures
            r@ == Self::metadata(id, ZCL_BITMAP32_ATTRIBUTE_TYPE, 4, 0),
    {
        Self::new(id, ZCL_BITMAP32_ATTRIBUTE_TYPE, 4, 0)
    }

    /// A bitmap of 64 bits, eight bytes.
    pub fn b64(id: chip_AttributeId) -> (r: Self)
        ensures
            r@ == Self::metadata(id, ZCL_BITMAP64_ATTRIBUTE_TYPE, 8, 0),
    {
        Self::new(id, ZCL_BITMAP64_ATTRIBUTE_TYPE, 8, 0)
    }

    /// An unsigned integer of 8 bits, one byte.
    pub fn u8(id: chip_AttributeId) -> (r: Self)
        ensures
            r@ == Self::metadata(id, ZCL_INT8U_ATTRIBUTE_TYPE, 1, 0),
    {
        Self::new(id, ZCL_INT8U_ATTRIBUTE_TYPE, 1, 0)
    }

    /// An unsigned integer of 16 bits, two bytes.
    pub fn u16(id: chip_AttributeId) -> (r: Self)
        ensures
            r@ == Self::metadata(id, ZCL_INT16U_ATTRIBUTE_TYPE, 2, 0),
    {
        Self::new(id, ZCL_INT16U_ATTRIBUTE_TYPE, 2, 0)
    }

    /// An unsigned integer of 32 bits, four bytes.
    pub fn u32(id: chip_AttributeId) -> (r: Self)
        ensures
            r@ == Self::metadata(id, ZCL_INT32U_ATTRIBUTE_TYPE, 4, 0),
    {
        Self::new(id, ZCL_INT32U_ATTRIBUTE_TYPE, 4, 0)
    }

    /// An unsigned integer of 64 bits, eight bytes.
    pub fn u64(id: chip_AttributeId) -> (r: Self)
        ensures
            r@ == Self::metadata(id, ZCL_INT64U_ATTRIBUTE_TYPE, 8, 0),
    {
        Self::new(id, ZCL_INT64U_ATTRIBUTE_TYPE, 8, 0)
    }

    /// A signed integer of 8 bits, one byte.
    pub fn i8(id: chip_AttributeId) -> (r: Self)
        ensures
            r@ == Self::metadata(id, ZCL_INT8S_ATTRIBUTE_TYPE, 1, 0),
    {
        Self::new(id, ZCL_INT8S_ATTRIBUTE_TYPE, 1, 0)
    }

    /// A signed integer of 16 bits, two bytes.
    pub fn i16(id: chip_AttributeId) -> (r: Self)
        ensures
            r@ == Self::metadata(id, ZCL_INT16S_ATTRIBUTE_TYPE, 2, 0),
    {
        Self::new(id, ZCL_INT16S_ATTRIBUTE_TYPE, 2, 0)
    }

    /// A signed integer of 32 bits, four bytes.
    pub fn i32(id: chip_AttributeId) -> (r: Self)
        ensures
            r@ == Self::metadata(id, ZCL_INT32S_ATTRIBUTE_TYPE, 4, 0),
    {
        Self::new(id, ZCL_INT32S_ATTRIBUTE_TYPE, 4, 0)
    }

    /// A signed integer of 64 bits, eight bytes.
    pub fn i64(id: chip_AttributeId) -> (r: Self)
        ensures
            r@ == Self::metadata(id, ZCL_INT64S_ATTRIBUTE_TYPE, 8, 0),
    {
        Self::new(id, ZCL_INT64S_ATTRIBUTE_TYPE, 8, 0)
    }

    /// A character string of up to 32 bytes.
    pub fn string(id: chip_AttributeId) -> (r: Self)
        ensures
            r@ == Self::metadata(id, ZCL_CHAR_STRING_ATTRIBUTE_TYPE, 32, 0),
    {
        Self::new(id, ZCL_CHAR_STRING_ATTRIBUTE_TYPE, 32, 0)
    }

    /// An array of up to 254 bytes.
    pub fn array(id: chip_AttributeId) -> (r: Self)
        ensures
            r@ == Self::metadata(id, ZCL_ARRAY_ATTRIBUTE_TYPE, 254, 0),
    {
        Self::new(id, ZCL_ARRAY_ATTRIBUTE_TYPE, 254, 0)
    }
}

/// The attributes of one cluster.
pub type Attributes<'a> = &'a [Attribute];

/// The views of a list of attributes, in order.
pub open spec fn attribute_records(attributes: Seq<Attribute>) -> Seq<EmberAfAttributeMetadata> {
    attributes.map_values(|a: Attribute| a@)
}

/// The ids of a list of commands, in order.
pub open spec fn command_ids(commands: Seq<Command>) -> Seq<chip_CommandId> {
    commands.map_values(|c: Command| c@)
}

/// A cluster as the runtime reads it.
#[derive(Debug, PartialEq, Eq)]
pub struct EmberAfCluster {
    pub cluster_id: chip_ClusterId,
    pub attributes: Vec<Attribute>,
    pub attribute_count: u16,
    pub cluster_size: u16,
    pub mask: EmberAfClusterMask,
    pub accepted_command_list: Vec<Command>,
    pub generated_command_list: Vec<Command>,
}

/// A cluster: its id, its attributes and the commands it accepts and
/// generates.
#[derive(Debug, PartialEq, Eq)]
pub struct Cluster(EmberAfCluster);

impl View for Cluster {
    type V = EmberAfCluster;

    closed spec fn view(&self) -> EmberAfCluster {
        self.0
    }
}

impl Cluster {
    /// The attribute count is the number of attributes, cut to 16 bits.
    #[verifier::type_invariant]
    spec fn counted(self) -> bool {
        self.0.attribute_count == self.0.attributes@.len() % 0x10000
    }

    /// The cluster is a server cluster with the given id, attributes and
    /// command ids; its attribute count is the number of attributes, cut to
    /// 16 bits, and its size is zero.
    pub open spec fn describes(
        self,
        id: chip_ClusterId,
        attributes: Seq<EmberAfAttributeMetadata>,
        accepted_commands: Seq<chip_CommandId>,
        generated_commands: Seq<chip_CommandId>,
    ) -> bool {
        &&& self@.cluster_id == id
        &&& attribute_records(self@.attributes@) == attributes
        &&& self@.attribute_count == attributes.len() % 0x10000
        &&& self@.cluster_size == 0
        &&& self@.mask == CLUSTER_MASK_SERVER
        &&& command_ids(self@.accepted_command_list@) == accepted_commands
        &&& command_ids(self@.generated_command_list@) == generated_commands
    }

    /// A server cluster with the given id, attributes and command lists.
    pub fn new(
        id: chip_ClusterId,
        attributes: Vec<Attribute>,
        accepted_commands: Vec<Command>,
        generated_commands: Vec<Command>,
    ) -> (r: Self)
        ensures
            r@.attributes@ == attributes@,
            r@.accepted_command_list@ == accepted_commands@,
            r@.generated_command_list@ == generated_commands@,
            r.describes(
                id,
                attribute_records(attributes@),
                command_ids(accepted_commands@),
                command_ids(generated_commands@),
            ),
    {
        let attribute_count = (attributes.len() % 0x10000) as u16;
        Self(
            EmberAfCluster {
                cluster_id: id,
                attributes,
                attribute_count,
                cluster_size: 0,
                mask: CLUSTER_MASK_SERVER,
                accepted_command_list: accepted_commands,
                generated_command_list: generated_commands,
            },
        )
    }

    /// The cluster as the runtime reads it.
    pub fn raw(&self) -> (r: &EmberAfCluster)
        ensures
            *r == self@,
            r.attribute_count == r.attributes@.len() % 0x10000,
    {
        proof {
            use_type_invariant(self);
        }
        &self.0
    }

    /// The cluster's id.
    pub fn id(&self) -> (r: chip_ClusterId)
        ensures
            r == self@.cluster_id,
    {
        self.0.cluster_id
    }

    /// The descriptor cluster: the lists of device types, server clusters,
    /// client clusters and parts, each an array; no commands.
    pub fn descriptor() -> (r: Cluster)
        ensures
            r.describes(
                ZCL_DESCRIPTOR_CLUSTER_ID,
                seq![
                    Attribute::metadata(
                        ZCL_DEVICE_LIST_ATTRIBUTE_ID,
                        ZCL_ARRAY_ATTRIBUTE_TYPE,
                        254,
                        0,
                    ),
                    Attribute::metadata(
                        ZCL_SERVER_LIST_ATTRIBUTE_ID,
                        ZCL_ARRAY_ATTRIBUTE_TYPE,
                        254,
                        0,
                    ),
                    Attribute::metadata(
                        ZCL_CLIENT_LIST_ATTRIBUTE_ID,
                        ZCL_ARRAY_ATTRIBUTE_TYPE,
                        254,
                        0,
                    ),
                    Attribute::metadata(
                        ZCL_PARTS_LIST_ATTRIBUTE_ID,
                        ZCL_ARRAY_ATTRIBUTE_TYPE,
                        254,
                        0,
                    ),
                ],
                seq![0u32],
                seq![0u32],
            ),
    {
        let mut attributes: Vec<Attribute> = Vec::new();
        attributes.push(Attribute::array(ZCL_DEVICE_LIST_ATTRIBUTE_ID));
        attributes.push(Attribute::array(ZCL_SERVER_LIST_ATTRIBUTE_ID));
        attributes.push(Attribute::array(ZCL_CLIENT_LIST_ATTRIBUTE_ID));
        attributes.push(Attribute::array(ZCL_PARTS_LIST_ATTRIBUTE_ID));
        let r = Cluster::new(
            ZCL_DESCRIPTOR_CLUSTER_ID,
            attributes,
            empty_commands(),
            empty_commands(),
        );
        assert(attribute_records(r@.attributes@) =~= seq![
            Attribute::metadata(ZCL_DEVICE_LIST_ATTRIBUTE_ID, ZCL_ARRAY_ATTRIBUTE_TYPE, 254, 0),
            Attribute::metadata(ZCL_SERVER_LIST_ATTRIBUTE_ID, ZCL_ARRAY_ATTRIBUTE_TYPE, 254, 0),
            Attribute::metadata(ZCL_CLIENT_LIST_ATTRIBUTE_ID, ZCL_ARRAY_ATTRIBUTE_TYPE, 254, 0),
            Attribute::metadata(ZCL_PARTS_LIST_ATTRIBUTE_ID, ZCL_ARRAY_ATTRIBUTE_TYPE, 254, 0),
        ]);
        assert(command_ids(r@.accepted_command_list@) =~= seq![0u32]);
        assert(command_ids(r@.generated_command_list@) =~= seq![0u32]);
        r
    }

    /// The cluster of a bridged device's basic information: the node label,
    /// a string, and whether the device can be reached, a boolean; no
    /// commands.
    pub fn bridged() -> (r: Cluster)
        ensures
            r.describes(
                ZCL_BRIDGED_DEVICE_BASIC_CLUSTER_ID,
                seq![
                    Attribute::metadata(
                        ZCL_NODE_LABEL_ATTRIBUTE_ID,
                        ZCL_CHAR_STRING_ATTRIBUTE_TYPE,
                        32,
                        0,
                    ),
                    Attribute::metadata(
                        ZCL_REACHABLE_ATTRIBUTE_ID,
                        ZCL_BOOLEAN_ATTRIBUTE_TYPE,
                        1,
                        0,
                    ),
                ],
                seq![0u32],
                seq![0u32],
            ),
    {
        let mut attributes: Vec<Attribute> = Vec::new();
        attributes.push(Attribute::string(ZCL_NODE_LABEL_ATTRIBUTE_ID));
        attributes.push(Attribute::boolean(ZCL_REACHABLE_ATTRIBUTE_ID));
        let r = Cluster::new(
            ZCL_BRIDGED_DEVICE_BASIC_CLUSTER_ID,
            attributes,
            empty_commands(),
            empty_commands(),
        );
        assert(attribute_records(r@.attributes@) =~= seq![
            Attribute::metadata(ZCL_NODE_LABEL_ATTRIBUTE_ID, ZCL_CHAR_STRING_ATTRIBUTE_TYPE, 32, 0),
            Attribute::metadata(ZCL_REACHABLE_ATTRIBUTE_ID, ZCL_BOOLEAN_ATTRIBUTE_TYPE, 1, 0),
        ]);
        assert(command_ids(r@.accepted_command_list@) =~= seq![0u32]);
        assert(command_ids(r@.generated_command_list@) =~= seq![0u32]);
        r
    }

    /// The on/off cluster: the on/off state, a boolean; no commands.
    pub fn on_off() -> (r: Cluster)
        ensures
            r.describes(
                ZCL_ON_OFF_CLUSTER_ID,
                seq![
                    Attribute::metadata(
                        ZCL_ON_OFF_ATTRIBUTE_ID,
                        ZCL_BOOLEAN_ATTRIBUTE_TYPE,
                        1,
                        0,
                    ),
                ],
                seq![0u32],
                seq![0u32],
            ),
    {
        let mut attributes: Vec<Attribute> = Vec::new();
        attributes.push(Attribute::boolean(ZCL_ON_OFF_ATTRIBUTE_ID));
        let r = Cluster::new(ZCL_ON_OFF_CLUSTER_ID, attributes, empty_commands(), empty_commands());
        assert(attribute_records(r@.attributes@) =~= seq![
            Attribute::metadata(ZCL_ON_OFF_ATTRIBUTE_ID, ZCL_BOOLEAN_ATTRIBUTE_TYPE, 1, 0),
        ]);
        assert(command_ids(r@.accepted_command_list@) =~= seq![0u32]);
        assert(command_ids(r@.generated_command_list@) =~= seq![0u32]);
        r
    }

    /// The level control cluster: the current level and the on level, each
    /// an unsigned integer of 8 bits, and the options, a bitmap of 8 bits;
    /// no commands.
    pub fn level_control() -> (r: Cluster)
        ensures
            r.describes(
                ZCL_LEVEL_CONTROL_CLUSTER_ID,
                seq![
                    Attribute::metadata(
                        ZCL_CURRENT_LEVEL_ATTRIBUTE_ID,
                        ZCL_INT8U_ATTRIBUTE_TYPE,
                        1,
                        0,
                    ),
                    Attribute::metadata(ZCL_ON_LEVEL_ATTRIBUTE_ID, ZCL_INT8U_ATTRIBUTE_TYPE, 1, 0),
                    Attribute::metadata(ZCL_OPTIONS_ATTRIBUTE_ID, ZCL_BITMAP8_ATTRIBUTE_TYPE, 1, 0),
                ],
                seq![0u32],
                seq![0u32],
            ),
    {
        let mut attributes: Vec<Attribute> = Vec::new();
        attributes.push(Attribute::u8(ZCL_CURRENT_LEVEL_ATTRIBUTE_ID));
        attributes.push(Attribute::u8(ZCL_ON_LEVEL_ATTRIBUTE_ID));
        attributes.push(Attribute::b8(ZCL_OPTIONS_ATTRIBUTE_ID));
        let r = Cluster::new(
            ZCL_LEVEL_CONTROL_CLUSTER_ID,
            attributes,
            empty_commands(),
            empty_commands(),
        );
        assert(attribute_records(r@.attributes@) =~= seq![
            Attribute::metadata(ZCL_CURRENT_LEVEL_ATTRIBUTE_ID, ZCL_INT8U_ATTRIBUTE_TYPE, 1, 0),
            Attribute::metadata(ZCL_ON_LEVEL_ATTRIBUTE_ID, ZCL_INT8U_ATTRIBUTE_TYPE, 1, 0),
            Attribute::metadata(ZCL_OPTIONS_ATTRIBUTE_ID, ZCL_BITMAP8_ATTRIBUTE_TYPE, 1, 0),
        ]);
        assert(command_ids(r@.accepted_command_list@) =~= seq![0u32]);
        assert(command_ids(r@.generated_command_list@) =~= seq![0u32]);
        r
    }

    /// The target navigator cluster: the list of targets, an array, and the
    /// current target, an unsigned integer of 8 bits. It accepts the
    /// command to navigate and generates the response to it.
    pub fn target_navigator() -> (r: Cluster)
        ensures
            r.describes(
                ZCL_TARGET_NAVIGATOR_CLUSTER_ID,
                seq![
                    Attribute::metadata(
                        ZCL_TARGET_NAVIGATOR_LIST_ATTRIBUTE_ID,
                        ZCL_ARRAY_ATTRIBUTE_TYPE,
                        254,
                        0,
                    ),
                    Attribute::metadata(
                        ZCL_TARGET_NAVIGATOR_CURRENT_TARGET_ATTRIBUTE_ID,
                        ZCL_INT8U_ATTRIBUTE_TYPE,
                        1,
                        0,
                    ),
                ],
                seq![ZCL_NAVIGATE_TARGET_COMMAND_ID, 0u32],
                seq![ZCL_NAVIGATE_TARGET_RESPONSE_COMMAND_ID, 0u32],
            ),
    {
        let mut attributes: Vec<Attribute> = Vec::new();
        attributes.push(Attribute::array(ZCL_TARGET_NAVIGATOR_LIST_ATTRIBUTE_ID));
        attributes.push(Attribute::u8(ZCL_TARGET_NAVIGATOR_CURRENT_TARGET_ATTRIBUTE_ID));
        let mut accepted_commands: Vec<Command> = Vec::new();
        accepted_commands.push(Command::new(ZCL_NAVIGATE_TARGET_COMMAND_ID));
        accepted_commands.push(Command::end());
        let mut generated_commands: Vec<Command> = Vec::new();
        generated_commands.push(Command::new(ZCL_NAVIGATE_TARGET_RESPONSE_COMMAND_ID));
        generated_commands.push(Command::end());
        let r = Cluster::new(
            ZCL_TARGET_NAVIGATOR_CLUSTER_ID,
            attributes,
            accepted_commands,
            generated_commands,
        );
        assert(attribute_records(r@.attributes@) =~= seq![
            Attribute::metadata(
                ZCL_TARGET_NAVIGATOR_LIST_ATTRIBUTE_ID,
                ZCL_ARRAY_ATTRIBUTE_TYPE,
                254,
                0,
            ),
            Attribute::metadata(
                ZCL_TARGET_NAVIGATOR_CURRENT_TARGET_ATTRIBUTE_ID,
                ZCL_INT8U_ATTRIBUTE_TYPE,
                1,
                0,
            ),
        ]);
        assert(command_ids(r@.accepted_command_list@) =~= seq![
            ZCL_NAVIGATE_TARGET_COMMAND_ID,
            0u32,
        ]);
        assert(command_ids(r@.generated_command_list@) =~= seq![
            ZCL_NAVIGATE_TARGET_RESPONSE_COMMAND_ID,
            0u32,
        ]);
        r
    }

    /// The media playback cluster: the playback state, an unsigned integer
    /// of 8 bits. It accepts play, pause and stop and generates the playback
    /// response.
    pub fn media_playback() -> (r: Cluster)
        ensures
            r.describes(
                ZCL_MEDIA_PLAYBACK_CLUSTER_ID,
                seq![
                    Attribute::metadata(
                        ZCL_MEDIA_PLAYBACK_STATE_ATTRIBUTE_ID,
                        ZCL_INT8U_ATTRIBUTE_TYPE,
                        1,
                        0,
                    ),
                ],
                seq![ZCL_PLAY_COMMAND_ID, ZCL_PAUSE_COMMAND_ID, ZCL_STOP_COMMAND_ID, 0u32],
                seq![ZCL_PLAYBACK_RESPONSE_COMMAND_ID, 0u32],
            ),
    {
        let mut attributes: Vec<Attribute> = Vec::new();
        attributes.push(Attribute::u8(ZCL_MEDIA_PLAYBACK_STATE_ATTRIBUTE_ID));
        let mut accepted_commands: Vec<Command> = Vec::new();
        accepted_commands.push(Command::new(ZCL_PLAY_COMMAND_ID));
        accepted_commands.push(Command::new(ZCL_PAUSE_COMMAND_ID));
        accepted_commands.push(Command::new(ZCL_STOP_COMMAND_ID));
        accepted_commands.push(Command::end());
        let mut generated_commands: Vec<Command> = Vec::new();
        generated_commands.push(Command::new(ZCL_PLAYBACK_RESPONSE_COMMAND_ID));
        generated_commands.push(Command::end());
        let r = Cluster::new(
            ZCL_MEDIA_PLAYBACK_CLUSTER_ID,
            attributes,
            accepted_commands,
            generated_commands,
        );
        assert(attribute_records(r@.attributes@) =~= seq![
            Attribute::metadata(
                ZCL_MEDIA_PLAYBACK_STATE_ATTRIBUTE_ID,
                ZCL_INT8U_ATTRIBUTE_TYPE,
                1,
                0,
            ),
        ]);
        assert(command_ids(r@.accepted_command_list@) =~= seq![
            ZCL_PLAY_COMMAND_ID,
            ZCL_PAUSE_COMMAND_ID,
            ZCL_STOP_COMMAND_ID,
            0u32,
        ]);
        assert(command_ids(r@.generated_command_list@) =~= seq![
            ZCL_PLAYBACK_RESPONSE_COMMAND_ID,
            0u32,
        ]);
        r
    }

    /// The keypad input cluster: no attributes. It accepts the command to
    /// send a key and generates the response to it.
    pub fn keypad_input() -> (r: Cluster)
        ensures
            r.describes(
                ZCL_KEYPAD_INPUT_CLUSTER_ID,
                seq![],
                seq![ZCL_SEND_KEY_COMMAND_ID, 0u32],
                seq![ZCL_SEND_KEY_RESPONSE_COMMAND_ID, 0u32],
            ),
    {
        let attributes: Vec<Attribute> = Vec::new();
        let mut accepted_commands: Vec<Command> = Vec::new();
        accepted_commands.push(Command::new(ZCL_SEND_KEY_COMMAND_ID));
        accepted_commands.push(Command::end());
        let mut generated_commands: Vec<Command> = Vec::new();
        generated_commands.push(Command::new(ZCL_SEND_KEY_RESPONSE_COMMAND_ID));
        generated_commands.push(Command::end());
        let r = Cluster::new(
            ZCL_KEYPAD_INPUT_CLUSTER_ID,
            attributes,
            accepted_commands,
            generated_commands,
        );
        assert(attribute_records(r@.attributes@) =~= seq![]);
        assert(command_ids(r@.accepted_command_list@) =~= seq![ZCL_SEND_KEY_COMMAND_ID, 0u32]);
        assert(command_ids(r@.generated_command_list@) =~= seq![
            ZCL_SEND_KEY_RESPONSE_COMMAND_ID,
            0u32,
        ]);
        r
    }

    /// A cursor over the cluster's attributes, before the first of them.
    pub fn attributes(&self) -> (r: AttributeIterator<'_>)
        ensures
            r.cluster() == *self,
            r.position() == 0,
    {
        AttributeIterator { cluster: self, index: 0 }
    }
}

/// The clusters of one endpoint type.
pub type Clusters<'a> = &'a [Cluster];

/// A cursor over the attributes of a cluster, in their order.
pub struct AttributeIterator<'i> {
    cluster: &'i Cluster,
    index: usize,
}

impl<'i> AttributeIterator<'i> {
    /// The cluster whose attributes are visited.
    pub closed spec fn cluster(&self) -> Cluster {
        *self.cluster
    }

    /// Number of attributes handed out so far.
    pub closed spec fn position(&self) -> nat {
        self.index as nat
    }

    /// The next attribute, until as many were handed out as the cluster's
    /// attribute count says; `None` from then on.
    pub fn next(&mut self) -> (r: Option<&'i Attribute>)
        ensures
            final(self).cluster() == old(self).cluster(),
            old(self).position() < old(self).cluster()@.attribute_count ==> {
                &&& old(self).position() < old(self).cluster()@.attributes@.len()
                &&& r == Some(&old(self).cluster()@.attributes@[old(self).position() as int])
                &&& final(self).position() == old(self).position() + 1
            },
            old(self).position() >= old(self).cluster()@.attribute_count ==> {
                &&& r is None
                &&& final(self).position() == old(self).position()
            },
    {
        let cluster: &'i Cluster = self.cluster;
        proof {
            use_type_invariant(cluster);
        }
        if self.index < cluster.0.attribute_count as usize {
            let attribute = &cluster.0.attributes[self.index];
            self.index += 1;
            Some(attribute)
        } else {
            None
        }
    }
}

/// An endpoint type as the runtime reads it.
#[derive(Debug, PartialEq, Eq)]
pub struct EmberAfEndpointType {
    pub cluster: Vec<Cluster>,
    pub cluster_count: u8,
    pub endpoint_size: u16,
}

/// The clusters that an endpoint of this type offers.
#[derive(Debug, PartialEq, Eq)]
pub struct EndpointType(EmberAfEndpointType);

impl View for EndpointType {
    type V = EmberAfEndpointType;

    closed spec fn view(&self) -> EmberAfEndpointType {
        self.0
    }
}

impl EndpointType {
    /// The cluster count is the number of clusters, cut to 8 bits.
    #[verifier::type_invariant]
    spec fn counted(self) -> bool {
        self.0.cluster_count == self.0.cluster@.len() % 0x100
    }

    /// An endpoint type with the given clusters. Its cluster count is their
    /// number, cut to 8 bits; its size is zero.
    pub fn new(clusters: Vec<Cluster>) -> (r: Self)
        ensures
            r@.cluster@ == clusters@,
            r@.cluster_count == clusters@.len() % 0x100,
            r@.endpoint_size == 0,
    {
        let cluster_count = (clusters.len() % 0x100) as u8;
        Self(EmberAfEndpointType { cluster: clusters, cluster_count, endpoint_size: 0 })
    }

    /// The endpoint type as the runtime reads it.
    pub fn raw(&self) -> (r: &EmberAfEndpointType)
        ensures
            *r == self@,
            r.cluster_count == r.cluster@.len() % 0x100,
    {
        proof {
            use_type_invariant(self);
        }
        &self.0
    }

    /// A cursor over the clusters, before the first of them.
    pub fn clusters(&self) -> (r: ClusterIterator<'_>)
        ensures
            r.endpoint_type() == *self,
            r.position() == 0,
    {
        ClusterIterator { ep: self, index: 0 }
    }
}

/// A cursor over the clusters of an endpoint type, in their order.
pub struct ClusterIterator<'i> {
    ep: &'i EndpointType,
    index: usize,
}

impl<'i> ClusterIterator<'i> {
    /// The endpoint type whose clusters are visited.
    pub closed spec fn endpoint_type(&self) -> EndpointType {
        *self.ep
    }

    /// Number of clusters handed out so far.
    pub closed spec fn position(&self) -> nat {
        self.index as nat
    }

    /// The next cluster, until as many were handed out as the endpoint
    /// type's cluster count says; `None` from then on.
    pub fn next(&mut self) -> (r: Option<&'i Cluster>)
        ensures
            final(self).endpoint_type() == old(self).endpoint_type(),
            old(self).position() < old(self).endpoint_type()@.cluster_count ==> {
                &&& old(self).position() < old(self).endpoint_type()@.cluster@.len()
                &&& r == Some(&old(self).endpoint_type()@.cluster@[old(self).position() as int])
                &&& final(self).position() == old(self).position() + 1
            },
            old(self).position() >= old(self).endpoint_type()@.cluster_count ==> {
                &&& r is None
                &&& final(self).position() == old(self).position()
            },
    {
        let ep: &'i EndpointType = self.ep;
        proof {
            use_type_invariant(ep);
        }
        if self.index < ep.0.cluster_count as usize {
            let cluster = &ep.0.cluster[self.index];
            self.index += 1;
            Some(cluster)
        } else {
            None
        }
    }
}

} // verus!
