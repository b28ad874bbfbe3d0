use untar::size::format_size;

fn float_rendering(size: u64) -> String {
    if size < 1024 {
        format!("{} B", size)
    } else if size < 1024 * 1024 {
        format!("{:.1} KB", size as f64 / 1024.0)
    } else if size < 1024 * 1024 * 1024 {
        format!("{:.1} MB", size as f64 / (1024.0 * 1024.0))
    } else {
        format!("{:.1} GB", size as f64 / (1024.0 * 1024.0 * 1024.0))
    }
}

#[test]
fn test_format_size() {
    assert_eq!(format_size(0), "0 B");
    assert_eq!(format_size(512), "512 B");
    assert_eq!(format_size(1024), "1.0 KB");
    assert_eq!(format_size(1536), "1.5 KB");
    assert_eq!(format_size(1024 * 1024), "1.0 MB");
    assert_eq!(format_size(1024 * 1024 * 1024), "1.0 GB");
}

#[test]
fn format_size_below_each_boundary() {
    assert_eq!(format_size(1023), "1023 B");
    assert_eq!(format_size(1024 * 1024 - 1), "1024.0 KB");
    assert_eq!(format_size(1024 * 1024 * 1024 - 1), "1024.0 MB");
    assert_eq!(format_size(u64::MAX), "17179869184.0 GB");
}

#[test]
fn format_size_ties_go_to_the_even_digit() {
    assert_eq!(format_size(1280), "1.2 KB");
    assert_eq!(format_size(1792), "1.8 KB");
    assert_eq!(format_size(1024 + 51), "1.0 KB");
    assert_eq!(format_size(1024 + 52), "1.1 KB");
    assert_eq!(format_size(5 * 1024 * 1024 / 4), "1.2 MB");
    assert_eq!(format_size(7 * 1024 * 1024 * 1024 / 4), "1.8 GB");
}

#[test]
fn format_size_agrees_with_float_rendering_near_boundaries() {
    let anchors: [u64; 12] = [
        0,
        1024,
        1024 * 1024,
        1024 * 1024 * 1024,
        1 << 40,
        1 << 52,
        1 << 53,
        (1 << 53) + (1 << 29),
        1 << 60,
        (1 << 63) + (1 << 40),
        u64::MAX - 5000,
        3 * (1 << 54) + 12345,
    ];
    for anchor in anchors {
        for offset in 0..4000u64 {
            let size = anchor.saturating_add(offset);
            assert_eq!(format_size(size), float_rendering(size), "size {}", size);
            let below = anchor.saturating_sub(offset);
            assert_eq!(format_size(below), float_rendering(below), "size {}", below);
        }
    }
}

#[test]
fn format_size_agrees_with_float_rendering_on_a_sweep() {
    let mut size: u64 = 1;
    let mut step: u64 = 1;
    while size < u64::MAX / 3 {
        assert_eq!(format_size(size), float_rendering(size), "size {}", size);
        assert_eq!(format_size(size + 256), float_rendering(size + 256), "size {}", size + 256);
        size = size + size / 2 + step;
        step = step * 3 % 1021 + 1;
    }
}
