//! Behavioural tests of the two report encoders on synthetic snapshots.

use pc_meterd::metrics::{DiskSpace, LoadAverages, SystemMetrics, UserMetrics};
use pc_meterd::report::{encode_system_report, encode_user_report};

#[test]
fn system_report_is_64_bytes() {
    let m = SystemMetrics {
        global_cpu_percent: 42,
        used_memory: 8_000,
        total_memory: 16_000,
        core_usage_percent: vec![1, 2, 3, 4],
    };
    let buf = encode_system_report(&m);
    assert_eq!(buf.len(), 64);
}

#[test]
fn user_report_is_64_bytes() {
    let m = UserMetrics {
        used_swap: 1,
        total_swap: 2,
        load: LoadAverages { one_centi: 100, five_centi: 200, fifteen_centi: 300 },
        disks: vec![DiskSpace { available_bytes: 5, total_bytes: 10 }],
        temperatures: vec![30, 40],
    };
    let buf = encode_user_report(&m);
    assert_eq!(buf.len(), 64);
}

#[test]
fn report_id_zero_and_type_tags() {
    let s = SystemMetrics {
        global_cpu_percent: 99,
        used_memory: 3,
        total_memory: 4,
        core_usage_percent: vec![7],
    };
    let u = UserMetrics {
        used_swap: 3,
        total_swap: 4,
        load: LoadAverages { one_centi: 0, five_centi: 0, fifteen_centi: 0 },
        disks: vec![],
        temperatures: vec![],
    };
    let sys_buf = encode_system_report(&s);
    let user_buf = encode_user_report(&u);
    assert_eq!(sys_buf[0], 0);
    assert_eq!(sys_buf[1], 0);
    assert_eq!(user_buf[0], 0);
    assert_eq!(user_buf[1], 1);
}

#[test]
fn memory_used_percentage() {
    // Memory used=50 of total=200 is 25 percent; the memory field sits at
    // offset 3, after the report id, the tag and the global CPU byte.
    let m = SystemMetrics {
        global_cpu_percent: 11,
        used_memory: 50,
        total_memory: 200,
        core_usage_percent: vec![],
    };
    let buf = encode_system_report(&m);
    assert_eq!(buf[2], 11);
    assert_eq!(buf[3], 25);
}

#[test]
fn zero_total_memory_encodes_zero() {
    let m = SystemMetrics {
        global_cpu_percent: 11,
        used_memory: 50,
        total_memory: 0,
        core_usage_percent: vec![9],
    };
    let buf = encode_system_report(&m);
    assert_eq!(buf[3], 0);
    assert_eq!(buf.len(), 64);
}

#[test]
fn sixty_cores_truncated_to_fifty_four() {
    let cores: Vec<u8> = (0..60).map(|i| i as u8 + 1).collect();
    let m = SystemMetrics {
        global_cpu_percent: 1,
        used_memory: 1,
        total_memory: 2,
        core_usage_percent: cores,
    };
    let buf = encode_system_report(&m);
    assert_eq!(buf.len(), 64);
    assert_eq!(buf[4], 60);
    for i in 0..54 {
        assert_eq!(buf[10 + i], i as u8 + 1);
    }
    // The last buffer byte holds the 54th core; the 55th onward are dropped.
    assert_eq!(buf[63], 54);
}

#[test]
fn any_core_count_up_to_three_hundred_encodes() {
    for n in 0..=300usize {
        let cores: Vec<u8> = (0..n).map(|i| (i % 101) as u8).collect();
        let m = SystemMetrics {
            global_cpu_percent: 0,
            used_memory: 0,
            total_memory: 0,
            core_usage_percent: cores,
        };
        let buf = encode_system_report(&m);
        assert_eq!(buf.len(), 64);
        let expected_count = if n > 255 { 255 } else { n as u8 };
        assert_eq!(buf[4], expected_count);
        let written = if n > 54 { 54 } else { n };
        for i in 0..written {
            assert_eq!(buf[10 + i], (i % 101) as u8);
        }
        for i in written..54 {
            assert_eq!(buf[10 + i], 0);
        }
    }
}

#[test]
fn fifteen_disks_count_but_ten_entries() {
    // Disk k is (k+1) tenths full free: available = (k+1), total = 10,
    // so its free-space percentage is (k+1) * 10.
    let disks: Vec<DiskSpace> = (0..15)
        .map(|k| DiskSpace { available_bytes: k as u64 + 1, total_bytes: 20 })
        .collect();
    let m = UserMetrics {
        used_swap: 0,
        total_swap: 0,
        load: LoadAverages { one_centi: 0, five_centi: 0, fifteen_centi: 0 },
        disks,
        temperatures: vec![],
    };
    let buf = encode_user_report(&m);
    assert_eq!(buf[9], 15);
    for k in 0..10 {
        assert_eq!(buf[10 + k], ((k as u64 + 1) * 100 / 20) as u8);
    }
    // The 11th to 15th disks are absent: the bytes after the disk region
    // (here, the empty sensor region) stay zero.
    for i in 20..64 {
        assert_eq!(buf[i], 0);
    }
}

#[test]
fn twenty_five_sensors_truncated_to_twenty() {
    let temps: Vec<i64> = (0..25).map(|k| 30 + k as i64).collect();
    let m = UserMetrics {
        used_swap: 0,
        total_swap: 0,
        load: LoadAverages { one_centi: 0, five_centi: 0, fifteen_centi: 0 },
        disks: vec![],
        temperatures: temps,
    };
    let buf = encode_user_report(&m);
    for k in 0..20 {
        assert_eq!(buf[20 + k], 30 + k as u8);
    }
    // The 21st onward are dropped; everything past the sensor region is zero.
    for i in 40..64 {
        assert_eq!(buf[i], 0);
    }
}

#[test]
fn encoding_twice_is_byte_identical() {
    let s = SystemMetrics {
        global_cpu_percent: 73,
        used_memory: 123_456,
        total_memory: 654_321,
        core_usage_percent: vec![10, 20, 30],
    };
    let u = UserMetrics {
        used_swap: 77,
        total_swap: 200,
        load: LoadAverages { one_centi: 154, five_centi: 98, fifteen_centi: 10_001 },
        disks: vec![DiskSpace { available_bytes: 3, total_bytes: 9 }],
        temperatures: vec![-1, 55],
    };
    assert_eq!(encode_system_report(&s), encode_system_report(&s));
    assert_eq!(encode_user_report(&u), encode_user_report(&u));
}

#[test]
fn swap_percentage_and_zero_guard() {
    let half = UserMetrics {
        used_swap: 512,
        total_swap: 1024,
        load: LoadAverages { one_centi: 0, five_centi: 0, fifteen_centi: 0 },
        disks: vec![],
        temperatures: vec![],
    };
    let none = UserMetrics {
        used_swap: 512,
        total_swap: 0,
        load: LoadAverages { one_centi: 0, five_centi: 0, fifteen_centi: 0 },
        disks: vec![],
        temperatures: vec![],
    };
    assert_eq!(encode_user_report(&half)[2], 50);
    assert_eq!(encode_user_report(&none)[2], 0);
}

#[test]
fn load_average_integer_and_fraction_bytes() {
    // Loads 2.54, 0.05 and 300.00, in hundredths. The fraction byte carries
    // the hundredths; the integer byte saturates at 255.
    let m = UserMetrics {
        used_swap: 0,
        total_swap: 0,
        load: LoadAverages { one_centi: 254, five_centi: 5, fifteen_centi: 30_000 },
        disks: vec![],
        temperatures: vec![],
    };
    let buf = encode_user_report(&m);
    assert_eq!(buf[3], 2);
    assert_eq!(buf[4], 54);
    assert_eq!(buf[5], 0);
    assert_eq!(buf[6], 5);
    assert_eq!(buf[7], 255);
    assert_eq!(buf[8], 0);
}

#[test]
fn negative_temperature_wraps_to_high_byte() {
    let m = UserMetrics {
        used_swap: 0,
        total_swap: 0,
        load: LoadAverages { one_centi: 0, five_centi: 0, fifteen_centi: 0 },
        disks: vec![],
        temperatures: vec![-5, 26],
    };
    let buf = encode_user_report(&m);
    assert_eq!(buf[20], 251);
    assert_eq!(buf[21], 26);
}

#[test]
fn zero_total_disk_encodes_zero() {
    let m = UserMetrics {
        used_swap: 0,
        total_swap: 0,
        load: LoadAverages { one_centi: 0, five_centi: 0, fifteen_centi: 0 },
        disks: vec![
            DiskSpace { available_bytes: 9, total_bytes: 0 },
            DiskSpace { available_bytes: 30, total_bytes: 40 },
        ],
        temperatures: vec![],
    };
    let buf = encode_user_report(&m);
    assert_eq!(buf[9], 2);
    assert_eq!(buf[10], 0);
    assert_eq!(buf[11], 75);
}
