use device_query::device::{render_block, DeviceProperties, NAME_CAPACITY};
use device_query::recording::{replay, DeviceRecord, Recording};
use device_query::reporter::{Attribute, DriverError, Query, ReportError};

fn sample(seed: i32) -> DeviceProperties {
    DeviceProperties {
        shared_mem_per_block: 49152,
        total_constant_memory: 65536,
        regs_per_block: 65536 + seed,
        max_grid_size: [2147483647, 65535, 65535],
        max_threads_dim: [1024, 1024, 64],
        max_threads_per_block: 1024,
        simd_width: 32,
    }
}

fn buffer(name: &str) -> [u8; NAME_CAPACITY] {
    let mut buffer = [0u8; NAME_CAPACITY];
    buffer[..name.len()].copy_from_slice(name.as_bytes());
    buffer
}

fn healthy(index: i32) -> DeviceRecord {
    DeviceRecord {
        properties: Ok(sample(index)),
        name: Ok(buffer(&format!("device {}", index))),
        total_memory: Ok(1024 * (index as u64 + 1)),
        warp_size: Ok(32),
    }
}

fn block_of(index: i32) -> String {
    render_block(
        index,
        &format!("device {}", index),
        1024 * (index as u64 + 1),
        &sample(index),
        32,
    )
}

fn driver_with(devices: Vec<DeviceRecord>) -> Recording {
    Recording { context_failure: None, count_failure: None, devices }
}

#[test]
fn every_device_is_reported_in_ascending_order() {
    for k in 0..6 {
        let report = replay(&driver_with((0..k).map(healthy).collect()));
        assert_eq!(report.outcome, Ok(()));
        assert_eq!(report.blocks.len(), k as usize);
        for (i, block) in report.blocks.iter().enumerate() {
            assert_eq!(*block, block_of(i as i32));
            assert!(block.starts_with(&format!("{}: device {}\n", i, i)));
        }
    }
}

#[test]
fn every_block_has_the_nine_fields_in_order() {
    let report = replay(&driver_with((0..3).map(healthy).collect()));
    let labels = [
        "  Total memory:       ",
        "  Shared memory:      ",
        "  Constant memory:    ",
        "  Block registers:    ",
        "  Warp size:          ",
        "  Max grid size:      ",
        "  Max block size:     ",
        "  Threads per block:  ",
        "  SIMD width:         ",
    ];
    assert_eq!(report.blocks.len(), 3);
    for block in &report.blocks {
        let lines: Vec<&str> = block.split('\n').collect();
        assert_eq!(lines.len(), 12);
        for (i, label) in labels.iter().enumerate() {
            assert!(lines[i + 1].starts_with(label));
        }
        assert_eq!(lines[10], "");
    }
}

#[test]
fn no_device_gives_no_block() {
    let report = replay(&driver_with(Vec::new()));
    assert_eq!(report.blocks, Vec::<String>::new());
    assert_eq!(report.outcome, Ok(()));
}

#[test]
fn failed_property_query_is_fatal() {
    for j in 0..4 {
        let mut devices: Vec<DeviceRecord> = (0..4).map(healthy).collect();
        devices[j].properties = Err(DriverError { code: 700 + j as u32 });
        let report = replay(&driver_with(devices));
        assert_eq!(report.blocks.len(), j);
        for (i, block) in report.blocks.iter().enumerate() {
            assert_eq!(*block, block_of(i as i32));
        }
        assert_eq!(
            report.outcome,
            Err(ReportError::DriverCallFailure {
                query: Query::Properties { device: j as i32 },
                error: DriverError { code: 700 + j as u32 },
            })
        );
    }
}

#[test]
fn failed_name_query_is_fatal() {
    let mut devices: Vec<DeviceRecord> = (0..3).map(healthy).collect();
    devices[1].name = Err(DriverError { code: 5 });
    let report = replay(&driver_with(devices));
    assert_eq!(report.blocks, vec![block_of(0)]);
    assert_eq!(
        report.outcome,
        Err(ReportError::DriverCallFailure {
            query: Query::Name { device: 1 },
            error: DriverError { code: 5 },
        })
    );
}

#[test]
fn failed_memory_query_is_fatal() {
    let mut devices: Vec<DeviceRecord> = (0..3).map(healthy).collect();
    devices[2].total_memory = Err(DriverError { code: 6 });
    let report = replay(&driver_with(devices));
    assert_eq!(report.blocks, vec![block_of(0), block_of(1)]);
    assert_eq!(
        report.outcome,
        Err(ReportError::DriverCallFailure {
            query: Query::TotalMemory { device: 2 },
            error: DriverError { code: 6 },
        })
    );
}

#[test]
fn failed_attribute_query_is_fatal() {
    let mut devices: Vec<DeviceRecord> = (0..3).map(healthy).collect();
    devices[0].warp_size = Err(DriverError { code: 8 });
    let report = replay(&driver_with(devices));
    assert_eq!(report.blocks, Vec::<String>::new());
    assert_eq!(
        report.outcome,
        Err(ReportError::DriverCallFailure {
            query: Query::Attribute { device: 0, attribute: Attribute::WarpSize },
            error: DriverError { code: 8 },
        })
    );
}

#[test]
fn first_failure_of_a_device_is_the_one_reported() {
    let mut devices: Vec<DeviceRecord> = (0..2).map(healthy).collect();
    devices[1].name = Err(DriverError { code: 1 });
    devices[1].total_memory = Err(DriverError { code: 2 });
    devices[1].warp_size = Err(DriverError { code: 3 });
    let report = replay(&driver_with(devices));
    assert_eq!(report.blocks, vec![block_of(0)]);
    assert_eq!(
        report.outcome,
        Err(ReportError::DriverCallFailure {
            query: Query::Name { device: 1 },
            error: DriverError { code: 1 },
        })
    );
}

#[test]
fn devices_after_a_failure_are_not_reported() {
    let mut devices: Vec<DeviceRecord> = (0..5).map(healthy).collect();
    devices[1].properties = Err(DriverError { code: 1 });
    devices[3].properties = Err(DriverError { code: 3 });
    let report = replay(&driver_with(devices));
    assert_eq!(report.blocks, vec![block_of(0)]);
    assert_eq!(
        report.outcome,
        Err(ReportError::DriverCallFailure {
            query: Query::Properties { device: 1 },
            error: DriverError { code: 1 },
        })
    );
}

#[test]
fn refused_context_gives_no_block() {
    let recording = Recording {
        context_failure: Some(DriverError { code: 100 }),
        count_failure: Some(DriverError { code: 3 }),
        devices: (0..2).map(healthy).collect(),
    };
    let report = replay(&recording);
    assert_eq!(report.blocks, Vec::<String>::new());
    assert_eq!(
        report.outcome,
        Err(ReportError::AcquisitionFailure { error: DriverError { code: 100 } })
    );
}

#[test]
fn failed_count_gives_no_block() {
    let recording = Recording {
        context_failure: None,
        count_failure: Some(DriverError { code: 3 }),
        devices: (0..2).map(healthy).collect(),
    };
    let report = replay(&recording);
    assert_eq!(report.blocks, Vec::<String>::new());
    assert_eq!(
        report.outcome,
        Err(ReportError::DriverCallFailure {
            query: Query::DeviceCount,
            error: DriverError { code: 3 },
        })
    );
}
