use annepro2_tools::text::{format_bytes, format_transfer_progress};

/// What the byte count looks like when printed through `f64`.
fn through_f64(bytes: usize) -> String {
    const KIB: usize = 1024;
    const MIB: usize = 1024 * KIB;
    if bytes >= MIB {
        format!("{:.1} MiB", bytes as f64 / MIB as f64)
    } else if bytes >= KIB {
        format!("{:.1} KiB", bytes as f64 / KIB as f64)
    } else {
        format!("{bytes} B")
    }
}

#[test]
fn byte_counts_below_one_kib_are_exact() {
    assert_eq!(format_bytes(0), "0 B");
    assert_eq!(format_bytes(7), "7 B");
    assert_eq!(format_bytes(1023), "1023 B");
}

#[test]
fn byte_counts_round_to_one_decimal() {
    assert_eq!(format_bytes(1024), "1.0 KiB");
    assert_eq!(format_bytes(1280), "1.2 KiB");
    assert_eq!(format_bytes(1331), "1.3 KiB");
    assert_eq!(format_bytes(1536), "1.5 KiB");
    assert_eq!(format_bytes(1048575), "1024.0 KiB");
    assert_eq!(format_bytes(1048576), "1.0 MiB");
    assert_eq!(format_bytes(3 * 1048576 + 262144), "3.2 MiB");
}

#[test]
fn byte_counts_agree_with_float_formatting() {
    for bytes in 0..70_000usize {
        assert_eq!(format_bytes(bytes), through_f64(bytes), "{bytes}");
    }
    for step in 0..20_000usize {
        let bytes = 1048576 + step * 52_429 + step % 7;
        assert_eq!(format_bytes(bytes), through_f64(bytes), "{bytes}");
    }
}

#[test]
fn huge_byte_counts_agree_with_float_formatting() {
    let mut samples = vec![
        usize::MAX,
        usize::MAX - 1,
        1usize << 53,
        (1usize << 53) + 1,
        (1usize << 53) + 3,
        (1usize << 54) + 2,
        (1usize << 54) + 6,
        (1usize << 63) + 1024,
        (1usize << 63) - 1,
    ];
    let mut x: u64 = 0x9e37_79b9_7f4a_7c15;
    for _ in 0..5000 {
        x ^= x << 13;
        x ^= x >> 7;
        x ^= x << 17;
        samples.push(x as usize);
        samples.push((x >> 9) as usize);
        samples.push((x >> 30) as usize);
    }
    for bytes in samples {
        assert_eq!(format_bytes(bytes), through_f64(bytes), "{bytes}");
    }
}

#[test]
fn progress_line_caps_and_handles_empty_totals() {
    assert_eq!(
        format_transfer_progress(0, 0, 0x10),
        "Writing [========================] 100% 0 B/0 B (next 0x00000010)"
    );
    assert_eq!(
        format_transfer_progress(500, 100, 0xabcdef01),
        "Writing [========================] 100% 100 B/100 B (next 0xabcdef01)"
    );
    assert_eq!(
        format_transfer_progress(0, 3000, 0),
        "Writing [------------------------]   0% 0 B/2.9 KiB (next 0x00000000)"
    );
    assert_eq!(
        format_transfer_progress(1, 3, 0x4000),
        "Writing [========----------------]  33% 1 B/3 B (next 0x00004000)"
    );
}
