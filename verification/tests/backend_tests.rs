use controller_tray::backend::{
    center_enumerated_axis, find_first_controller, guid_tail, joystick_layout, ObjectFormat,
    FORMAT_FLAG_ABSOLUTE, OBJECT_COUNT, OBJ_TYPE_AXIS, OBJ_TYPE_BUTTON, OBJ_TYPE_POV,
    STATE_BLOCK_SIZE,
};

#[test]
fn first_answering_slot_wins() {
    assert_eq!(find_first_controller(&[false, true, true, false]), Some(1));
    assert_eq!(find_first_controller(&[true, false, false, false]), Some(0));
    assert_eq!(find_first_controller(&[false, false, false, true]), Some(3));
    assert_eq!(find_first_controller(&[false, false, false, false]), None);
}

#[test]
fn centering_maps_the_unsigned_range_onto_the_signed_one() {
    assert_eq!(center_enumerated_axis(32767), 0);
    assert_eq!(center_enumerated_axis(0), -32767);
    assert_eq!(center_enumerated_axis(65535), 32768);
}

#[test]
fn layout_has_the_standard_object_count() {
    assert_eq!(joystick_layout().len(), OBJECT_COUNT);
}

#[test]
fn layout_places_axes_sliders_hats_and_buttons() {
    let objects = joystick_layout();
    // x axis at the head of the state block
    assert_eq!(
        objects[0],
        ObjectFormat { guid_data1: 0xA36D02E0, offset: 0, type_flags: OBJ_TYPE_AXIS }
    );
    // y axis next to it
    assert_eq!(objects[1].guid_data1, 0xA36D02E1);
    assert_eq!(objects[1].offset, 4);
    // second slider at offset 28
    assert_eq!(
        objects[7],
        ObjectFormat { guid_data1: 0xA36D02E4, offset: 28, type_flags: OBJ_TYPE_AXIS }
    );
    // last hat at offset 44
    assert_eq!(
        objects[11],
        ObjectFormat { guid_data1: 0xA36D02E5, offset: 44, type_flags: OBJ_TYPE_POV }
    );
    // first and last buttons, one byte apart from 48
    assert_eq!(
        objects[12],
        ObjectFormat { guid_data1: 0xA36D02F0, offset: 48, type_flags: OBJ_TYPE_BUTTON }
    );
    assert_eq!(
        objects[43],
        ObjectFormat { guid_data1: 0xA36D02F0, offset: 79, type_flags: OBJ_TYPE_BUTTON }
    );
}

#[test]
fn type_masks_mark_optional_objects_of_any_instance() {
    assert_eq!(OBJ_TYPE_AXIS, 0x80FF_FF02);
    assert_eq!(OBJ_TYPE_POV, 0x80FF_FF10);
    assert_eq!(OBJ_TYPE_BUTTON, 0x80FF_FF04);
}

#[test]
fn format_header_values() {
    assert_eq!(FORMAT_FLAG_ABSOLUTE, 1);
    assert_eq!(STATE_BLOCK_SIZE, 80);
    // the last button's byte ends exactly at the block's size
    let objects = joystick_layout();
    assert_eq!(objects[OBJECT_COUNT - 1].offset + 1, STATE_BLOCK_SIZE);
}

#[test]
fn shared_guid_tail() {
    let (d2, d3, d4) = guid_tail();
    assert_eq!(d2, 0xC9F3);
    assert_eq!(d3, 0x11CF);
    assert_eq!(d4, [0xBF, 0xC7, 0x44, 0x45, 0x53, 0x54, 0x00, 0x00]);
}
