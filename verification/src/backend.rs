//! Backend-side values the platform layer needs: the slot-scan order of the
//! indexed gamepad API, the centering of the enumerated API's unsigned axis
//! range onto the common signed range, and the fixed joystick data layout
//! each enumerated device is configured with once per acquisition.

use vstd::prelude::*;

verus! {

/// Number of controller slots the indexed gamepad API exposes.
pub const GAMEPAD_SLOTS: usize = 4;

/// Lower bound of the enumerated API's configured axis range.
pub const ENUM_AXIS_MIN: i32 = 0;

/// Upper bound of the enumerated API's configured axis range.
pub const ENUM_AXIS_MAX: i32 = 65535;

/// Center of the enumerated API's configured axis range; subtracted so both
/// backends deliver the same symmetric signed range.
pub const ENUM_AXIS_CENTER: i32 = 32767;

/// Pick the controller slot to use: the lowest-numbered slot that answered
/// the probe, or `None` while no slot answers.
///
/// `connected` holds one probe result per slot, in slot order.
pub fn find_first_controller(connected: &[bool; GAMEPAD_SLOTS]) -> (r: Option<u32>)
    ensures
        match r {
            Some(i) => 0 <= i < 4 && connected[i as int] && forall|j: int|
                0 <= j < i ==> !connected[j],
            None => forall|j: int| 0 <= j < 4 ==> !connected[j],
        },
{
    let mut i: usize = 0;
    while i < 4
        invariant
            i <= 4,
            forall|j: int| 0 <= j < i ==> !connected[j],
        decreases 4 - i,
    {
        if connected[i] {
            return Some(i as u32);
        }
        i = i + 1;
    }
    None
}

/// Translate one axis reading of the enumerated backend from its configured
/// unsigned range to the common signed range around a zero center.
pub fn center_enumerated_axis(raw: i32) -> (r: i32)
    requires
        ENUM_AXIS_MIN <= raw <= ENUM_AXIS_MAX,
    ensures
        r == raw - ENUM_AXIS_CENTER,
        -32767 <= r <= 32768,
{
    raw - ENUM_AXIS_CENTER
}

/// Object type mask of an optional absolute axis of any instance.
pub const OBJ_TYPE_AXIS: u32 = 0x80000000 | 0x00000002 | 0x00FFFF00;

/// Object type mask of an optional point-of-view hat of any instance.
pub const OBJ_TYPE_POV: u32 = 0x80000000 | 0x00000010 | 0x00FFFF00;

/// Object type mask of an optional push button of any instance.
pub const OBJ_TYPE_BUTTON: u32 = 0x80000000 | 0x00000004 | 0x00FFFF00;

/// Data-format flag declaring absolute axis reporting.
pub const FORMAT_FLAG_ABSOLUTE: u32 = 1;

/// Size in bytes of the fixed per-device state block the layout describes:
/// six axes, two sliders and four hats of four bytes each, then thirty-two
/// one-byte buttons.
pub const STATE_BLOCK_SIZE: u32 = 80;

/// Number of objects in the fixed layout.
pub const OBJECT_COUNT: usize = 44;

/// One object of the fixed joystick layout: which standard object class it
/// is (the distinguishing word of the platform's class identifier), where
/// its value sits in the state block, and its type mask.
#[derive(Clone, Copy, Debug, PartialEq, Eq, Structural)]
pub struct ObjectFormat {
    /// Distinguishing first word of the standard object class identifier;
    /// the remaining words are shared by all classes and fixed by
    /// [`guid_tail`].
    pub guid_data1: u32,
    /// Byte offset of the object's value inside the state block.
    pub offset: u32,
    /// Object type mask.
    pub type_flags: u32,
}

/// The shared tail of every standard object class identifier, as the
/// remaining words `(data2, data3, data4)`.
pub fn guid_tail() -> (r: (u16, u16, [u8; 8]))
    ensures
        r.0 == 0xC9F3,
        r.1 == 0x11CF,
        r.2@ =~= seq![0xBFu8, 0xC7u8, 0x44u8, 0x45u8, 0x53u8, 0x54u8, 0u8, 0u8],
{
    (0xC9F3, 0x11CF, [0xBF, 0xC7, 0x44, 0x45, 0x53, 0x54, 0x00, 0x00])
}

/// Distinguishing identifier word of object `i` of the layout: the six
/// axes X, Y, Z, RX, RY, RZ in order, then the slider class twice, the hat
/// class four times, and the button class for the rest.
pub open spec fn layout_guid_data1(i: int) -> u32 {
    if i == 0 {
        0xA36D02E0u32
    } else if i == 1 {
        0xA36D02E1u32
    } else if i == 2 {
        0xA36D02E2u32
    } else if i == 3 {
        0xA36D02F4u32
    } else if i == 4 {
        0xA36D02F5u32
    } else if i == 5 {
        0xA36D02E3u32
    } else if i < 8 {
        0xA36D02E4u32
    } else if i < 12 {
        0xA36D02E5u32
    } else {
        0xA36D02F0u32
    }
}

/// Byte offset of object `i`: axes at 0..24, sliders at 24..32, hats at
/// 32..48, buttons one byte each from 48.
pub open spec fn layout_offset(i: int) -> u32 {
    if i < 8 {
        (4 * i) as u32
    } else if i < 12 {
        (32 + 4 * (i - 8)) as u32
    } else {
        (48 + (i - 12)) as u32
    }
}

/// Type mask of object `i`.
pub open spec fn layout_type_flags(i: int) -> u32 {
    if i < 8 {
        OBJ_TYPE_AXIS
    } else if i < 12 {
        OBJ_TYPE_POV
    } else {
        OBJ_TYPE_BUTTON
    }
}

/// Every object's value lies inside the state block: the axes, sliders
/// and hats are four-byte words, the buttons single bytes, and the last
/// button ends exactly at the block's size.
pub proof fn lemma_layout_inside_state_block(i: int)
    requires
        0 <= i < OBJECT_COUNT,
    ensures
        layout_offset(i) + (if i < 12 {
            4int
        } else {
            1int
        }) <= STATE_BLOCK_SIZE,
{
}

/// Whether a built object list is exactly the fixed joystick layout.
pub open spec fn is_joystick_layout(objects: Seq<ObjectFormat>) -> bool {
    &&& objects.len() == OBJECT_COUNT
    &&& forall|i: int|
        0 <= i < objects.len() ==> #[trigger] objects[i] == (ObjectFormat {
            guid_data1: layout_guid_data1(i),
            offset: layout_offset(i),
            type_flags: layout_type_flags(i),
        })
}

/// Build the fixed joystick data layout an enumerated device is configured
/// with: the standard eighty-byte state block of six axes, two sliders,
/// four hats and thirty-two buttons, every object optional and of any
/// instance.
pub fn joystick_layout() -> (objects: Vec<ObjectFormat>)
    ensures
        is_joystick_layout(objects@),
{
    let mut objects: Vec<ObjectFormat> = Vec::new();
    objects.push(ObjectFormat { guid_data1: 0xA36D02E0, offset: 0, type_flags: OBJ_TYPE_AXIS });
    objects.push(ObjectFormat { guid_data1: 0xA36D02E1, offset: 4, type_flags: OBJ_TYPE_AXIS });
    objects.push(ObjectFormat { guid_data1: 0xA36D02E2, offset: 8, type_flags: OBJ_TYPE_AXIS });
    objects.push(ObjectFormat { guid_data1: 0xA36D02F4, offset: 12, type_flags: OBJ_TYPE_AXIS });
    objects.push(ObjectFormat { guid_data1: 0xA36D02F5, offset: 16, type_flags: OBJ_TYPE_AXIS });
    objects.push(ObjectFormat { guid_data1: 0xA36D02E3, offset: 20, type_flags: OBJ_TYPE_AXIS });
    let mut i: usize = 6;
    while i < 8
        invariant
            6 <= i <= 8,
            objects@.len() == i,
            forall|j: int|
                0 <= j < i ==> #[trigger] objects@[j] == (ObjectFormat {
                    guid_data1: layout_guid_data1(j),
                    offset: layout_offset(j),
                    type_flags: layout_type_flags(j),
                }),
        decreases 8 - i,
    {
        objects.push(
            ObjectFormat {
                guid_data1: 0xA36D02E4,
                offset: (4 * i) as u32,
                type_flags: OBJ_TYPE_AXIS,
            },
        );
        i = i + 1;
    }
    while i < 12
        invariant
            8 <= i <= 12,
            objects@.len() == i,
            forall|j: int|
                0 <= j < i ==> #[trigger] objects@[j] == (ObjectFormat {
                    guid_data1: layout_guid_data1(j),
                    offset: layout_offset(j),
                    type_flags: layout_type_flags(j),
                }),
        decreases 12 - i,
    {
        objects.push(
            ObjectFormat {
                guid_data1: 0xA36D02E5,
                offset: (32 + 4 * (i - 8)) as u32,
                type_flags: OBJ_TYPE_POV,
            },
        );
        i = i + 1;
    }
    while i < 44
        invariant
            12 <= i <= 44,
            objects@.len() == i,
            forall|j: int|
                0 <= j < i ==> #[trigger] objects@[j] == (ObjectFormat {
                    guid_data1: layout_guid_data1(j),
                    offset: layout_offset(j),
                    type_flags: layout_type_flags(j),
                }),
        decreases 44 - i,
    {
        objects.push(
            ObjectFormat {
                guid_data1: 0xA36D02F0,
                offset: (48 + (i - 12)) as u32,
                type_flags: OBJ_TYPE_BUTTON,
            },
        );
        i = i + 1;
    }
    objects
}

} // verus!
