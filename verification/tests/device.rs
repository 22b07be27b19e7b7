use device_query::device::{
    device_name, largest_component, name_len, render_block, DeviceProperties, FIELD_WIDTH,
    NAME_CAPACITY,
};

fn buffer_with(name: &[u8]) -> Vec<u8> {
    let mut buffer = vec![0u8; NAME_CAPACITY];
    buffer[..name.len()].copy_from_slice(name);
    buffer
}

fn sample_properties() -> DeviceProperties {
    DeviceProperties {
        shared_mem_per_block: 49152,
        total_constant_memory: 65536,
        regs_per_block: 65536,
        max_grid_size: [2147483647, 65535, 65535],
        max_threads_dim: [1024, 1024, 64],
        max_threads_per_block: 1024,
        simd_width: 32,
    }
}

#[test]
fn constants_of_the_report() {
    assert_eq!(NAME_CAPACITY, 128);
    assert_eq!(FIELD_WIDTH, 15);
}

#[test]
fn largest_component_of_three() {
    assert_eq!(largest_component(&[1, 2, 3]), 3);
    assert_eq!(largest_component(&[3, 2, 1]), 3);
    assert_eq!(largest_component(&[2, 3, 1]), 3);
    assert_eq!(largest_component(&[7, 7, 7]), 7);
    assert_eq!(largest_component(&[-5, -2, -9]), -2);
    assert_eq!(largest_component(&[2147483647, 65535, 65535]), 2147483647);
    assert_eq!(largest_component(&[1024, 1024, 64]), 1024);
}

#[test]
fn name_length_is_the_place_of_the_first_zero_byte() {
    assert_eq!(name_len(&buffer_with(b"Tesla")), 5);
    assert_eq!(name_len(&[b'a', 0, b'b', 0]), 1);
    assert_eq!(name_len(&[0, b'a', b'b']), 0);
    assert_eq!(name_len(&[b'a', b'b', 0]), 2);
    for p in 0..NAME_CAPACITY {
        let mut buffer = vec![b'x'; NAME_CAPACITY];
        buffer[p] = 0;
        assert_eq!(name_len(&buffer), p);
    }
}

#[test]
fn name_length_without_a_zero_byte_is_zero() {
    assert_eq!(name_len(&[]), 0);
    assert_eq!(name_len(&[b'a']), 0);
    assert_eq!(name_len(&vec![b'x'; NAME_CAPACITY]), 0);
}

#[test]
fn name_ends_at_the_first_zero_byte() {
    assert_eq!(device_name(&buffer_with(b"Tesla")), "Tesla");
    assert_eq!(device_name(&buffer_with(b"NVIDIA GeForce RTX 4090")), "NVIDIA GeForce RTX 4090");
    assert_eq!(device_name(&[b'a', 0, b'b', 0]), "a");
    assert_eq!(device_name(&buffer_with(b"")), "");
    for p in 0..NAME_CAPACITY {
        let mut buffer = vec![b'x'; NAME_CAPACITY];
        buffer[p] = 0;
        assert_eq!(device_name(&buffer).len(), p);
    }
}

#[test]
fn buffer_without_a_zero_byte_holds_the_empty_name() {
    assert_eq!(device_name(&vec![b'x'; NAME_CAPACITY]), "");
    assert_eq!(device_name(&[b'G', b'P', b'U']), "");
    assert_eq!(device_name(&[]), "");
}

#[test]
fn name_is_decoded_as_utf8() {
    assert_eq!(device_name(&buffer_with("Gerät µ".as_bytes())), "Gerät µ");
}

#[test]
fn ill_formed_bytes_are_replaced() {
    assert_eq!(device_name(&[b'a', 0xff, b'b', 0]), "a\u{fffd}b");
    assert_eq!(device_name(&[0xc3, 0]), "\u{fffd}");
    assert_eq!(device_name(&[0xe2, 0x82, 0]), "\u{fffd}");
    assert_eq!(device_name(&[0x80, 0x80, 0, b'z']), "\u{fffd}\u{fffd}");
}

#[test]
fn block_of_a_device() {
    let block = render_block(0, "Tesla", 25769803776, &sample_properties(), 32);
    let expected = "0: Tesla\n\
        \x20 Total memory:        25.769.803.776 bytes\n\
        \x20 Shared memory:               49.152 bytes\n\
        \x20 Constant memory:             65.536 bytes\n\
        \x20 Block registers:             65.536\n\
        \x20 Warp size:                       32\n\
        \x20 Max grid size:        2.147.483.647\n\
        \x20 Max block size:               1.024\n\
        \x20 Threads per block:            1.024\n\
        \x20 SIMD width:                      32\n\
        \n";
    assert_eq!(block, expected);
}

#[test]
fn block_has_the_header_the_nine_fields_in_order_and_an_empty_line() {
    let block = render_block(3, "Device", 8589934592, &sample_properties(), 64);
    let lines: Vec<&str> = block.split('\n').collect();
    assert_eq!(lines.len(), 12);
    assert_eq!(lines[0], "3: Device");
    let labels = [
        "  Total memory:       ",
        "  Shared memory:      ",
        "  Constant memory:    ",
        "  Block registers:    ",
        "  Warp size:          ",
        "  Max grid size:      ",
        "  Max block size:     ",
        "  Threads per block:  ",
        "  SIMD width:         ",
    ];
    for (i, label) in labels.iter().enumerate() {
        assert!(lines[i + 1].starts_with(label));
        assert_eq!(label.len(), 22);
    }
    for line in &lines[1..4] {
        assert!(line.ends_with(" bytes"));
        assert_eq!(line.len(), 22 + 15 + 6);
    }
    for line in &lines[4..10] {
        assert_eq!(line.len(), 22 + 15);
    }
    assert_eq!(lines[1], format!("  Total memory:       {:>15} bytes", "8.589.934.592"));
    assert_eq!(lines[5], format!("  Warp size:          {:>15}", "64"));
    assert_eq!(lines[10], "");
    assert_eq!(lines[11], "");
    assert!(block.ends_with("\n\n"));
}

#[test]
fn block_takes_the_largest_dimension() {
    let mut properties = sample_properties();
    properties.max_grid_size = [7, 65535, 11];
    properties.max_threads_dim = [16, 32, 64];
    let block = render_block(1, "", 1, &properties, 32);
    let lines: Vec<&str> = block.split('\n').collect();
    assert_eq!(lines[0], "1: ");
    assert_eq!(lines[6], format!("  Max grid size:      {:>15}", "65.535"));
    assert_eq!(lines[7], format!("  Max block size:     {:>15}", "64"));
}

#[test]
fn block_of_values_with_three_digits() {
    let mut properties = sample_properties();
    properties.simd_width = 128;
    let block = render_block(0, "x", 0, &properties, 32);
    let lines: Vec<&str> = block.split('\n').collect();
    assert_eq!(lines[1], format!("  Total memory:       {:>15} bytes", "0"));
    assert_eq!(lines[9], format!("  SIMD width:         {:>15}", ""));
}
