use chip_sys::descriptor::{
    empty_commands, Attribute, Cluster, Command, DeviceType, EmberAfAttributeMetadata,
    EmberAfDeviceType, EndpointType,
};
use chip_sys::zcl::{
    ATTRIBUTE_MASK_EXTERNAL_STORAGE, CLUSTER_MASK_SERVER, ZCL_ARRAY_ATTRIBUTE_TYPE,
    ZCL_BITMAP16_ATTRIBUTE_TYPE, ZCL_BITMAP32_ATTRIBUTE_TYPE, ZCL_BITMAP64_ATTRIBUTE_TYPE,
    ZCL_BITMAP8_ATTRIBUTE_TYPE, ZCL_BOOLEAN_ATTRIBUTE_TYPE, ZCL_BRIDGED_DEVICE_BASIC_CLUSTER_ID,
    ZCL_CHAR_STRING_ATTRIBUTE_TYPE, ZCL_DESCRIPTOR_CLUSTER_ID, ZCL_INT16S_ATTRIBUTE_TYPE,
    ZCL_INT16U_ATTRIBUTE_TYPE, ZCL_INT32S_ATTRIBUTE_TYPE, ZCL_INT32U_ATTRIBUTE_TYPE,
    ZCL_INT64S_ATTRIBUTE_TYPE, ZCL_INT64U_ATTRIBUTE_TYPE, ZCL_INT8S_ATTRIBUTE_TYPE,
    ZCL_INT8U_ATTRIBUTE_TYPE, ZCL_KEYPAD_INPUT_CLUSTER_ID, ZCL_LEVEL_CONTROL_CLUSTER_ID,
    ZCL_MEDIA_PLAYBACK_CLUSTER_ID, ZCL_ON_OFF_CLUSTER_ID, ZCL_TARGET_NAVIGATOR_CLUSTER_ID,
};

fn meta(id: u32, attr_type: u8, size: u16) -> EmberAfAttributeMetadata {
    EmberAfAttributeMetadata {
        attribute_id: id,
        attribute_type: attr_type,
        size,
        mask: 0x10,
        default_value: 0,
    }
}

fn ids(commands: &[Command]) -> Vec<u32> {
    commands.iter().map(|c| c.id()).collect()
}

fn records(cluster: &Cluster) -> Vec<EmberAfAttributeMetadata> {
    cluster.raw().attributes.iter().map(|a| *a.raw()).collect()
}

#[test]
fn device_type_of_is_version_one() {
    assert_eq!(DeviceType::of(0x0100).id(), EmberAfDeviceType { device_id: 0x0100, device_version: 1 });
    assert_eq!(DeviceType::new(0x0013, 2).id(), EmberAfDeviceType { device_id: 0x0013, device_version: 2 });
    assert_eq!(DeviceType::of(7), DeviceType::new(7, 1));
}

#[test]
fn command_keeps_its_id() {
    assert_eq!(Command::new(0x0A).id(), 0x0A);
    assert_eq!(Command::end().id(), 0);
    assert_eq!(ids(&empty_commands()), vec![0]);
}

#[test]
fn attribute_new_packs_and_marks_external() {
    let a = Attribute::new(0x11, 0x42, 32, 0x01);
    assert_eq!(a.id(), 0x11);
    assert_eq!(a.attr_type(), 0x42);
    assert_eq!(a.size(), 32);
    assert_eq!(
        *a.raw(),
        EmberAfAttributeMetadata {
            attribute_id: 0x11,
            attribute_type: 0x42,
            size: 32,
            mask: 0x11,
            default_value: 0,
        }
    );
    assert_eq!(ATTRIBUTE_MASK_EXTERNAL_STORAGE, 0x10);
    for mask in 0u8..=255 {
        let raw = *Attribute::new(1, 2, 3, mask).raw();
        assert_eq!(raw.mask, mask | 0x10);
        assert_eq!(raw.mask & ATTRIBUTE_MASK_EXTERNAL_STORAGE, ATTRIBUTE_MASK_EXTERNAL_STORAGE);
    }
}

#[test]
fn attribute_presets() {
    assert_eq!(*Attribute::boolean(5).raw(), meta(5, ZCL_BOOLEAN_ATTRIBUTE_TYPE, 1));
    assert_eq!(*Attribute::b8(5).raw(), meta(5, ZCL_BITMAP8_ATTRIBUTE_TYPE, 1));
    assert_eq!(*Attribute::b16(5).raw(), meta(5, ZCL_BITMAP16_ATTRIBUTE_TYPE, 2));
    assert_eq!(*Attribute::b32(5).raw(), meta(5, ZCL_BITMAP32_ATTRIBUTE_TYPE, 4));
    assert_eq!(*Attribute::b64(5).raw(), meta(5, ZCL_BITMAP64_ATTRIBUTE_TYPE, 8));
    assert_eq!(*Attribute::u8(5).raw(), meta(5, ZCL_INT8U_ATTRIBUTE_TYPE, 1));
    assert_eq!(*Attribute::u16(5).raw(), meta(5, ZCL_INT16U_ATTRIBUTE_TYPE, 2));
    assert_eq!(*Attribute::u32(5).raw(), meta(5, ZCL_INT32U_ATTRIBUTE_TYPE, 4));
    assert_eq!(*Attribute::u64(5).raw(), meta(5, ZCL_INT64U_ATTRIBUTE_TYPE, 8));
    assert_eq!(*Attribute::i8(5).raw(), meta(5, ZCL_INT8S_ATTRIBUTE_TYPE, 1));
    assert_eq!(*Attribute::i16(5).raw(), meta(5, ZCL_INT16S_ATTRIBUTE_TYPE, 2));
    assert_eq!(*Attribute::i32(5).raw(), meta(5, ZCL_INT32S_ATTRIBUTE_TYPE, 4));
    assert_eq!(*Attribute::i64(5).raw(), meta(5, ZCL_INT64S_ATTRIBUTE_TYPE, 8));
    assert_eq!(*Attribute::string(5).raw(), meta(5, ZCL_CHAR_STRING_ATTRIBUTE_TYPE, 32));
    assert_eq!(*Attribute::array(5).raw(), meta(5, ZCL_ARRAY_ATTRIBUTE_TYPE, 254));
}

#[test]
fn attribute_type_tags() {
    assert_eq!(ZCL_BOOLEAN_ATTRIBUTE_TYPE, 0x10);
    assert_eq!(ZCL_BITMAP8_ATTRIBUTE_TYPE, 0x18);
    assert_eq!(ZCL_INT8U_ATTRIBUTE_TYPE, 0x20);
    assert_eq!(ZCL_INT64S_ATTRIBUTE_TYPE, 0x2F);
    assert_eq!(ZCL_CHAR_STRING_ATTRIBUTE_TYPE, 0x42);
    assert_eq!(ZCL_ARRAY_ATTRIBUTE_TYPE, 0x48);
}

#[test]
fn cluster_new_packs_its_arguments() {
    let cluster = Cluster::new(
        0x1234,
        vec![Attribute::u8(1), Attribute::string(2)],
        vec![Command::new(3), Command::end()],
        vec![Command::end()],
    );
    assert_eq!(cluster.id(), 0x1234);
    let raw = cluster.raw();
    assert_eq!(raw.cluster_id, 0x1234);
    assert_eq!(raw.attribute_count, 2);
    assert_eq!(raw.cluster_size, 0);
    assert_eq!(raw.mask, CLUSTER_MASK_SERVER);
    assert_eq!(CLUSTER_MASK_SERVER, 0x40);
    assert_eq!(raw.attributes, vec![Attribute::u8(1), Attribute::string(2)]);
    assert_eq!(ids(&raw.accepted_command_list), vec![3, 0]);
    assert_eq!(ids(&raw.generated_command_list), vec![0]);
}

#[test]
fn cluster_presets() {
    let d = Cluster::descriptor();
    assert_eq!(d.id(), ZCL_DESCRIPTOR_CLUSTER_ID);
    assert_eq!(d.id(), 0x001D);
    assert_eq!(
        records(&d),
        vec![
            meta(0, ZCL_ARRAY_ATTRIBUTE_TYPE, 254),
            meta(1, ZCL_ARRAY_ATTRIBUTE_TYPE, 254),
            meta(2, ZCL_ARRAY_ATTRIBUTE_TYPE, 254),
            meta(3, ZCL_ARRAY_ATTRIBUTE_TYPE, 254),
        ]
    );
    assert_eq!(ids(&d.raw().accepted_command_list), vec![0]);
    assert_eq!(ids(&d.raw().generated_command_list), vec![0]);

    let b = Cluster::bridged();
    assert_eq!(b.id(), ZCL_BRIDGED_DEVICE_BASIC_CLUSTER_ID);
    assert_eq!(b.id(), 0x0039);
    assert_eq!(
        records(&b),
        vec![meta(0x05, ZCL_CHAR_STRING_ATTRIBUTE_TYPE, 32), meta(0x11, ZCL_BOOLEAN_ATTRIBUTE_TYPE, 1)]
    );

    let o = Cluster::on_off();
    assert_eq!(o.id(), ZCL_ON_OFF_CLUSTER_ID);
    assert_eq!(o.id(), 0x0006);
    assert_eq!(records(&o), vec![meta(0, ZCL_BOOLEAN_ATTRIBUTE_TYPE, 1)]);
    assert_eq!(o.raw().attribute_count, 1);

    let l = Cluster::level_control();
    assert_eq!(l.id(), ZCL_LEVEL_CONTROL_CLUSTER_ID);
    assert_eq!(l.id(), 0x0008);
    assert_eq!(
        records(&l),
        vec![
            meta(0x00, ZCL_INT8U_ATTRIBUTE_TYPE, 1),
            meta(0x11, ZCL_INT8U_ATTRIBUTE_TYPE, 1),
            meta(0x0F, ZCL_BITMAP8_ATTRIBUTE_TYPE, 1),
        ]
    );
}

#[test]
fn cluster_presets_with_commands() {
    let t = Cluster::target_navigator();
    assert_eq!(t.id(), ZCL_TARGET_NAVIGATOR_CLUSTER_ID);
    assert_eq!(t.id(), 0x0505);
    assert_eq!(
        records(&t),
        vec![meta(0, ZCL_ARRAY_ATTRIBUTE_TYPE, 254), meta(1, ZCL_INT8U_ATTRIBUTE_TYPE, 1)]
    );
    assert_eq!(ids(&t.raw().accepted_command_list), vec![0, 0]);
    assert_eq!(ids(&t.raw().generated_command_list), vec![1, 0]);

    let m = Cluster::media_playback();
    assert_eq!(m.id(), ZCL_MEDIA_PLAYBACK_CLUSTER_ID);
    assert_eq!(m.id(), 0x0506);
    assert_ne!(m.id(), t.id());
    assert_eq!(records(&m), vec![meta(0, ZCL_INT8U_ATTRIBUTE_TYPE, 1)]);
    assert_eq!(ids(&m.raw().accepted_command_list), vec![0, 1, 2, 0]);
    assert_eq!(ids(&m.raw().generated_command_list), vec![0x0A, 0]);

    let k = Cluster::keypad_input();
    assert_eq!(k.id(), ZCL_KEYPAD_INPUT_CLUSTER_ID);
    assert_eq!(k.id(), 0x0509);
    assert_ne!(k.id(), t.id());
    assert_ne!(k.id(), m.id());
    assert_eq!(records(&k), vec![]);
    assert_eq!(k.raw().attribute_count, 0);
    assert_eq!(ids(&k.raw().accepted_command_list), vec![0, 0]);
    assert_eq!(ids(&k.raw().generated_command_list), vec![1, 0]);
}

#[test]
fn attribute_cursor_visits_in_order() {
    let cluster = Cluster::level_control();
    let mut cursor = cluster.attributes();
    assert_eq!(cursor.next().map(|a| a.id()), Some(0x00));
    assert_eq!(cursor.next().map(|a| a.id()), Some(0x11));
    assert_eq!(cursor.next().map(|a| a.id()), Some(0x0F));
    assert!(cursor.next().is_none());
    assert!(cursor.next().is_none());
    let empty = Cluster::keypad_input();
    assert!(empty.attributes().next().is_none());
}

#[test]
fn attribute_count_is_cut_to_16_bits() {
    let many: Vec<Attribute> = (0..0x10001u32).map(Attribute::u8).collect();
    let cluster = Cluster::new(1, many, vec![], vec![]);
    assert_eq!(cluster.raw().attribute_count, 1);
    assert_eq!(cluster.raw().attributes.len(), 0x10001);
    let mut cursor = cluster.attributes();
    assert_eq!(cursor.next().map(|a| a.id()), Some(0));
    assert!(cursor.next().is_none());
}

#[test]
fn endpoint_type_counts_and_visits_clusters() {
    let ep = EndpointType::new(vec![Cluster::on_off(), Cluster::descriptor(), Cluster::bridged()]);
    assert_eq!(ep.raw().cluster_count, 3);
    assert_eq!(ep.raw().endpoint_size, 0);
    let mut cursor = ep.clusters();
    assert_eq!(cursor.next().map(|c| c.id()), Some(0x0006));
    assert_eq!(cursor.next().map(|c| c.id()), Some(0x001D));
    assert_eq!(cursor.next().map(|c| c.id()), Some(0x0039));
    assert!(cursor.next().is_none());
    let none = EndpointType::new(vec![]);
    assert_eq!(none.raw().cluster_count, 0);
    assert!(none.clusters().next().is_none());
}

#[test]
fn cluster_count_is_cut_to_8_bits() {
    let clusters: Vec<Cluster> = (0..257u32).map(|i| Cluster::new(i, vec![], vec![], vec![])).collect();
    let ep = EndpointType::new(clusters);
    assert_eq!(ep.raw().cluster_count, 1);
    assert_eq!(ep.raw().cluster.len(), 257);
    let mut cursor = ep.clusters();
    assert_eq!(cursor.next().map(|c| c.id()), Some(0));
    assert!(cursor.next().is_none());
    let exact: Vec<Cluster> = (0..256u32).map(|i| Cluster::new(i, vec![], vec![], vec![])).collect();
    let ep = EndpointType::new(exact);
    assert_eq!(ep.raw().cluster_count, 0);
    assert!(ep.clusters().next().is_none());
}

#[test]
fn integer_presets_have_the_byte_size_of_their_width() {
    assert_eq!(Attribute::u8(0).size(), 1);
    assert_eq!(Attribute::u16(0).size(), 2);
    assert_eq!(Attribute::u32(0).size(), 4);
    assert_eq!(Attribute::u64(0).size(), 8);
    assert_eq!(Attribute::i8(0).size(), 1);
    assert_eq!(Attribute::i16(0).size(), 2);
    assert_eq!(Attribute::i32(0).size(), 4);
    assert_eq!(Attribute::i64(0).size(), 8);
    assert_eq!(Attribute::b8(0).size(), 1);
    assert_eq!(Attribute::b16(0).size(), 2);
    assert_eq!(Attribute::b32(0).size(), 4);
    assert_eq!(Attribute::b64(0).size(), 8);
    assert_eq!(Attribute::u16(0).attr_type(), ZCL_INT16U_ATTRIBUTE_TYPE);
}
