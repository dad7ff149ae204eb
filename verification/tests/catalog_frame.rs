//! The register catalog and the transport frames built from it.

use dc_load_control_loop_rs::catalog::{
    adc_mode_descriptor, catalog, channel_descriptor, gain_descriptor, id_descriptor,
    offset_descriptor, status_descriptor, Access,
};
use dc_load_control_loop_rs::frame::{
    build_read_frame, build_write_frame, read_command, read_payload, write_command,
};
use dc_load_control_loop_rs::register::{Register, StatusRegister};

#[test]
fn catalog_addresses_in_declared_order() {
    let entries = catalog();
    let addresses: Vec<u8> = entries.iter().map(|d| d.address).collect();
    assert_eq!(
        addresses,
        vec![
            0x00, 0x01, 0x02, 0x03, 0x04, 0x04, 0x06, 0x07, // core registers
            0x10, 0x11, 0x12, 0x13, // channels
            0x20, 0x21, 0x22, 0x23, // setups
            0x28, 0x29, 0x2a, 0x2b, // filter configuration, standard layout
            0x28, 0x29, 0x2a, 0x2b, // filter configuration, direct decimation
            0x30, 0x31, 0x32, 0x33, // offsets
            0x38, 0x39, 0x3a, 0x3b, // gains
        ]
    );
}

#[test]
fn catalog_widths_sum_to_the_register_width() {
    for d in catalog() {
        assert!(1 <= d.width && d.width <= 4);
        assert!(d.address <= 0x3f);
        let sum: u32 = d.field_widths.iter().map(|w| *w as u32).sum();
        assert!(sum <= 8 * d.width as u32);
        assert_eq!(sum, 8 * d.width as u32);
    }
}

#[test]
fn catalog_capabilities() {
    let entries = catalog();
    let read_only: Vec<u8> = entries
        .iter()
        .filter(|d| d.access == Access::ReadOnly)
        .map(|d| d.address)
        .collect();
    // Status, register check, data, data + status, and id.
    assert_eq!(read_only, vec![0x00, 0x03, 0x04, 0x04, 0x07]);
}

#[test]
fn command_bytes_for_every_declared_address() {
    for address in 0x00u8..=0x3b {
        assert_eq!(read_command(address), address | 0x40);
        assert_eq!(read_command(address), address + 0x40);
        assert_eq!(write_command(address), address);
    }
}

#[test]
fn read_frame_is_command_byte_then_dont_care_bytes() {
    assert_eq!(build_read_frame(&status_descriptor()), vec![0x40, 0x00]);
    assert_eq!(build_read_frame(&adc_mode_descriptor()), vec![0x41, 0x00, 0x00]);
    assert_eq!(build_read_frame(&id_descriptor()), vec![0x47, 0x00, 0x00]);
    assert_eq!(
        build_read_frame(&channel_descriptor(2)),
        vec![0x52, 0x00, 0x00]
    );
}

#[test]
fn write_frame_is_command_byte_then_payload() {
    assert_eq!(
        build_write_frame(&offset_descriptor(0), &[0x80, 0x00, 0x00]),
        vec![0x30, 0x80, 0x00, 0x00]
    );
    assert_eq!(
        build_write_frame(&gain_descriptor(3), &[0x50, 0x00, 0x00]),
        vec![0x3b, 0x50, 0x00, 0x00]
    );
}

#[test]
fn read_payload_drops_the_command_slot_byte() {
    assert_eq!(read_payload(&[0xff, 0x0c, 0xd0], 2), vec![0x0c, 0xd0]);
    assert_eq!(read_payload(&[0x00, 0x80], 1), vec![0x80]);
}

#[test]
fn full_read_flow_on_an_exchanged_frame() {
    // Frame as transmitted, then as it looks after the device shifted its
    // status register into the payload slot.
    let mut frame = build_read_frame(&status_descriptor());
    assert_eq!(frame, vec![0x40, 0x00]);
    frame[1] = 0x80;
    let payload = read_payload(&frame, 1);
    let buf: [u8; 1] = payload.as_slice().try_into().unwrap();
    let status = StatusRegister::from_buffer(&buf).unwrap();
    assert!(status.ready);
}
