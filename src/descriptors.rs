use vstd::prelude::*;

verus! {

/// USB vendor identifier of the gamepad.
pub const VENDOR_ID: u16 = 0x10C0;

/// USB product identifier of the gamepad.
pub const PRODUCT_ID: u16 = 0x82C0;

/// Largest packet on the control endpoint.
pub const ENDPOINT0_SIZE: u8 = 64;

/// Interface number of the gamepad.
pub const GAMEPAD_INTERFACE: u8 = 0;

/// Interrupt IN endpoint that carries the gamepad reports.
pub const GAMEPAD_ENDPOINT: u8 = 1;

/// Largest packet on the gamepad endpoint.
pub const GAMEPAD_SIZE: u8 = 64;

/// Buffer setting of the gamepad endpoint (double bank).
pub const GAMEPAD_BUFFER: u8 = 0x02;

/// Length of the HID report descriptor.
pub const HID_REPORT_DESC_SIZE: usize = 55;

/// Length of the configuration descriptor with its interface, HID and
/// endpoint descriptors.
pub const CONFIG1_DESC_SIZE: usize = 34;

/// The device descriptor: USB 1.1, control packets of 64 bytes, the vendor and product identifiers in little-endian order, one configuration.
pub open spec fn device_descriptor_bytes() -> Seq<u8> {
    seq![18u8, 1u8, 0x10u8, 0x01u8, 0u8, 0u8, 0u8, 64u8, 0xC0u8, 0x10u8, 0xC0u8, 0x82u8, 0x00u8, 0x01u8, 1u8, 2u8, 0u8, 1u8]
}

/// The device descriptor: USB 1.1, control packets of 64 bytes, the vendor and product identifiers in little-endian order, one configuration.
pub fn device_descriptor() -> (r: Vec<u8>)
    ensures
        r@ == device_descriptor_bytes(),
{
    let r: Vec<u8> = vec![
        18, 1, 0x10, 0x01, 0, 0, 0, 64, 0xC0, 0x10, 0xC0, 0x82, 0x00, 0x01, 1, 2, 0, 1
    ];
    assert(r@ =~= device_descriptor_bytes());
    r
}

/// The configuration descriptor: one HID interface with one interrupt IN endpoint of 64 bytes polled every 10 ms.
pub open spec fn config1_descriptor_bytes() -> Seq<u8> {
    seq![9u8, 2u8, 34u8, 0u8, 1u8, 1u8, 0u8, 0x80u8, 50u8, 9u8, 4u8, 0u8, 0u8, 1u8, 0x03u8, 0x00u8, 0x00u8, 0u8, 9u8, 0x21u8, 0x11u8, 0x01u8, 0u8, 1u8, 0x22u8, 55u8, 0u8, 7u8, 5u8, 0x81u8, 0x03u8, 64u8, 0u8, 10u8]
}

/// The configuration descriptor: one HID interface with one interrupt IN endpoint of 64 bytes polled every 10 ms.
pub fn config1_descriptor() -> (r: Vec<u8>)
    ensures
        r@ == config1_descriptor_bytes(),
{
    let r: Vec<u8> = vec![
        9, 2, 34, 0, 1, 1, 0, 0x80, 50, 9, 4, 0, 0, 1, 0x03, 0x00, 0x00, 0, 9, 0x21, 0x11, 0x01,
        0, 1, 0x22, 55, 0, 7, 5, 0x81, 0x03, 64, 0, 10
    ];
    assert(r@ =~= config1_descriptor_bytes());
    r
}

/// The HID report descriptor: a generic desktop gamepad with two 8-bit axes and eleven buttons padded to sixteen bits.
pub open spec fn hid_report_descriptor_bytes() -> Seq<u8> {
    seq![0x05u8, 0x01u8, 0x09u8, 0x04u8, 0xa1u8, 0x01u8, 0xa1u8, 0x02u8, 0x15u8, 0x00u8, 0x26u8, 0xffu8, 0x00u8, 0x35u8, 0x00u8, 0x46u8, 0xffu8, 0x00u8, 0x05u8, 0x01u8, 0x75u8, 0x08u8, 0x95u8, 0x02u8, 0x09u8, 0x30u8, 0x09u8, 0x31u8, 0x81u8, 0x02u8, 0xc0u8, 0xa1u8, 0x02u8, 0x05u8, 0x09u8, 0x25u8, 0x01u8, 0x15u8, 0x00u8, 0x19u8, 0x01u8, 0x29u8, 0x0Bu8, 0x95u8, 0x0Bu8, 0x75u8, 0x01u8, 0x81u8, 0x02u8, 0x95u8, 0x05u8, 0x81u8, 0x01u8, 0xc0u8, 0xc0u8]
}

/// The HID report descriptor: a generic desktop gamepad with two 8-bit axes and eleven buttons padded to sixteen bits.
pub fn hid_report_descriptor() -> (r: Vec<u8>)
    ensures
        r@ == hid_report_descriptor_bytes(),
{
    let r: Vec<u8> = vec![
        0x05, 0x01, 0x09, 0x04, 0xa1, 0x01, 0xa1, 0x02, 0x15, 0x00, 0x26, 0xff, 0x00, 0x35, 0x00,
        0x46, 0xff, 0x00, 0x05, 0x01, 0x75, 0x08, 0x95, 0x02, 0x09, 0x30, 0x09, 0x31, 0x81, 0x02,
        0xc0, 0xa1, 0x02, 0x05, 0x09, 0x25, 0x01, 0x15, 0x00, 0x19, 0x01, 0x29, 0x0B, 0x95, 0x0B,
        0x75, 0x01, 0x81, 0x02, 0x95, 0x05, 0x81, 0x01, 0xc0, 0xc0
    ];
    assert(r@ =~= hid_report_descriptor_bytes());
    r
}

/// String descriptor zero: the one supported language, US English.
pub open spec fn language_descriptor_bytes() -> Seq<u8> {
    seq![4u8, 3u8, 0x09u8, 0x04u8]
}

/// String descriptor zero: the one supported language, US English.
pub fn language_descriptor() -> (r: Vec<u8>)
    ensures
        r@ == language_descriptor_bytes(),
{
    let r: Vec<u8> = vec![
        4, 3, 0x09, 0x04
    ];
    assert(r@ =~= language_descriptor_bytes());
    r
}

/// String descriptor of the manufacturer, 'OFS'.
pub open spec fn manufacturer_descriptor_bytes() -> Seq<u8> {
    seq![8u8, 3u8, 0x4fu8, 0x00u8, 0x46u8, 0x00u8, 0x53u8, 0x00u8]
}

/// String descriptor of the manufacturer, 'OFS'.
pub fn manufacturer_descriptor() -> (r: Vec<u8>)
    ensures
        r@ == manufacturer_descriptor_bytes(),
{
    let r: Vec<u8> = vec![
        8, 3, 0x4f, 0x00, 0x46, 0x00, 0x53, 0x00
    ];
    assert(r@ =~= manufacturer_descriptor_bytes());
    r
}

/// String descriptor of the product, 'Open Fight Stick v2a'.
pub open spec fn product_descriptor_bytes() -> Seq<u8> {
    seq![42u8, 3u8, 0x4fu8, 0x00u8, 0x70u8, 0x00u8, 0x65u8, 0x00u8, 0x6eu8, 0x00u8, 0x20u8, 0x00u8, 0x46u8, 0x00u8, 0x69u8, 0x00u8, 0x67u8, 0x00u8, 0x68u8, 0x00u8, 0x74u8, 0x00u8, 0x20u8, 0x00u8, 0x53u8, 0x00u8, 0x74u8, 0x00u8, 0x69u8, 0x00u8, 0x63u8, 0x00u8, 0x6bu8, 0x00u8, 0x20u8, 0x00u8, 0x76u8, 0x00u8, 0x32u8, 0x00u8, 0x61u8, 0x00u8]
}

/// String descriptor of the product, 'Open Fight Stick v2a'.
pub fn product_descriptor() -> (r: Vec<u8>)
    ensures
        r@ == product_descriptor_bytes(),
{
    let r: Vec<u8> = vec![
        42, 3, 0x4f, 0x00, 0x70, 0x00, 0x65, 0x00, 0x6e, 0x00, 0x20, 0x00, 0x46, 0x00, 0x69, 0x00,
        0x67, 0x00, 0x68, 0x00, 0x74, 0x00, 0x20, 0x00, 0x53, 0x00, 0x74, 0x00, 0x69, 0x00, 0x63,
        0x00, 0x6b, 0x00, 0x20, 0x00, 0x76, 0x00, 0x32, 0x00, 0x61, 0x00
    ];
    assert(r@ =~= product_descriptor_bytes());
    r
}

/// Feature report answered to a HID GET_REPORT request.
pub open spec fn init_bytes_spec() -> Seq<u8> {
    seq![0x21u8, 0x26u8, 0x01u8, 0x07u8, 0x00u8, 0x00u8, 0x00u8, 0x00u8]
}

/// Feature report answered to a HID GET_REPORT request.
pub fn init_bytes() -> (r: Vec<u8>)
    ensures
        r@ == init_bytes_spec(),
{
    let r: Vec<u8> = vec![
        0x21, 0x26, 0x01, 0x07, 0x00, 0x00, 0x00, 0x00
    ];
    assert(r@ =~= init_bytes_spec());
    r
}

/// Configuration of endpoints 1 to 4, in order: an enable byte, then, for an enabled endpoint, its two configuration bytes.
pub open spec fn endpoint_table_bytes() -> Seq<u8> {
    seq![1u8, 0xC1u8, 0x32u8, 0u8, 0u8, 0u8]
}

/// Configuration of endpoints 1 to 4, in order: an enable byte, then, for an enabled endpoint, its two configuration bytes.
pub fn endpoint_table() -> (r: Vec<u8>)
    ensures
        r@ == endpoint_table_bytes(),
{
    let r: Vec<u8> = vec![
        1, 0xC1, 0x32, 0, 0, 0
    ];
    assert(r@ =~= endpoint_table_bytes());
    r
}

/// A descriptor the host can ask for, under its `wValue` and `wIndex` keys.
pub struct Descriptor {
    pub value: u16,
    pub index: u16,
    pub data: Vec<u8>,
}

impl Descriptor {
    pub fn new(value: u16, index: u16, data: Vec<u8>) -> (r: Descriptor)
        ensures
            r.value == value,
            r.index == index,
            r.data@ == data@,
    {
        Descriptor { value, index, data }
    }
}

/// The descriptor stored under the keys `value` and `index`, if any.
pub open spec fn descriptor_for(value: u16, index: u16) -> Option<Seq<u8>> {
    if value == 0x0100 && index == 0 {
        Some(device_descriptor_bytes())
    } else if value == 0x0200 && index == 0 {
        Some(config1_descriptor_bytes())
    } else if value == 0x2200 && index == GAMEPAD_INTERFACE as u16 {
        Some(hid_report_descriptor_bytes())
    } else if value == 0x0300 && index == 0 {
        Some(language_descriptor_bytes())
    } else if value == 0x0301 && index == 0x0409 {
        Some(manufacturer_descriptor_bytes())
    } else if value == 0x0302 && index == 0x0409 {
        Some(product_descriptor_bytes())
    } else {
        None
    }
}

/// Whether `d` is stored under the keys `value` and `index`.
pub open spec fn keyed(d: Descriptor, value: u16, index: u16) -> bool {
    d.value == value && d.index == index
}

/// The table of every descriptor the device hands out.
pub fn descriptor_list() -> (r: Vec<Descriptor>)
    ensures
        forall|value: u16, index: u16|
            #![trigger descriptor_for(value, index)]
            match descriptor_for(value, index) {
                Some(d) => exists|i: int|
                    0 <= i < r.len() && #[trigger] keyed(r[i], value, index) && r[i].data@ == d,
                None => forall|i: int| 0 <= i < r.len() ==> !#[trigger] keyed(r[i], value, index),
            },
        forall|i: int| 0 <= i < r.len() ==> descriptor_for(r[i].value, r[i].index) == Some(r[i].data@),
{
    let mut r: Vec<Descriptor> = Vec::new();
    r.push(Descriptor::new(0x0100, 0x0000, device_descriptor()));
    r.push(Descriptor::new(0x0200, 0x0000, config1_descriptor()));
    r.push(Descriptor::new(0x2200, GAMEPAD_INTERFACE as u16, hid_report_descriptor()));
    r.push(Descriptor::new(0x0300, 0x0000, language_descriptor()));
    r.push(Descriptor::new(0x0301, 0x0409, manufacturer_descriptor()));
    r.push(Descriptor::new(0x0302, 0x0409, product_descriptor()));
    assert forall|value: u16, index: u16|
        #![trigger descriptor_for(value, index)]
        match descriptor_for(value, index) {
            Some(d) => exists|i: int|
                0 <= i < r.len() && #[trigger] keyed(r[i], value, index) && r[i].data@ == d,
            None => forall|i: int| 0 <= i < r.len() ==> !#[trigger] keyed(r[i], value, index),
        } by {
        if value == 0x0100 && index == 0 {
            assert(keyed(r[0], value, index));
        } else if value == 0x0200 && index == 0 {
            assert(keyed(r[1], value, index));
        } else if value == 0x2200 && index == 0 {
            assert(keyed(r[2], value, index));
        } else if value == 0x0300 && index == 0 {
            assert(keyed(r[3], value, index));
        } else if value == 0x0301 && index == 0x0409 {
            assert(keyed(r[4], value, index));
        } else if value == 0x0302 && index == 0x0409 {
            assert(keyed(r[5], value, index));
        }
    }
    r
}

/// Position of the first descriptor of `list` stored under `value` and
/// `index`, if there is one.
pub fn find_descriptor(list: &Vec<Descriptor>, value: u16, index: u16) -> (r: Option<usize>)
    ensures
        match r {
            Some(i) => i < list.len() && keyed(list[i as int], value, index) && forall|j: int|
                0 <= j < i ==> !#[trigger] keyed(list[j], value, index),
            None => forall|j: int| 0 <= j < list.len() ==> !#[trigger] keyed(list[j], value, index),
        },
{
    let mut i: usize = 0;
    while i < list.len()
        invariant
            i <= list.len(),
            forall|j: int| 0 <= j < i ==> !#[trigger] keyed(list[j], value, index),
        decreases list.len() - i,
    {
        if list[i].value == value && list[i].index == index {
            return Some(i);
        }
        i = i + 1;
    }
    None
}

/// The bytes of the descriptor stored under `value` and `index`, if any.
pub fn lookup_descriptor(value: u16, index: u16) -> (r: Option<Vec<u8>>)
    ensures
        match r {
            Some(d) => descriptor_for(value, index) == Some(d@),
            None => descriptor_for(value, index) is None,
        },
{
    let mut list = descriptor_list();
    match find_descriptor(&list, value, index) {
        Some(i) => {
            let d = list.swap_remove(i);
            Some(d.data)
        },
        None => {
            proof {
                if let Some(d) = descriptor_for(value, index) {
                    let i = choose|i: int| 0 <= i < list.len() && #[trigger] keyed(list[i], value, index) && list[i].data@ == d;
                    assert(keyed(list[i], value, index));
                }
            }
            None
        },
    }
}

} // verus!
