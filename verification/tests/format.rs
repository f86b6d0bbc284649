use dtop::format::{
    bar_fill, create_progress_bar, decimal_text, format_bytes_per_sec, percent_text,
};

#[test]
fn test_progress_bar_with_wide_width() {
    // Test that progress bar function creates bars with percentages
    let progress_bar = create_progress_bar(4250, 20);

    // Should contain progress bar characters
    assert!(
        progress_bar.contains('█') || progress_bar.contains('░'),
        "Progress bar should contain bar characters, got: {}",
        progress_bar
    );

    // Should contain the percentage
    assert!(
        progress_bar.contains("42.5%"),
        "Progress bar should contain percentage, got: {}",
        progress_bar
    );

    // Verify it has both bar and percentage (don't check exact byte length due to Unicode)
    let parts: Vec<&str> = progress_bar.split_whitespace().collect();
    assert!(
        parts.len() >= 2,
        "Progress bar should have bar and percentage parts"
    )
}

#[test]
fn test_progress_bar_edge_cases() {
    // Test 0%
    let bar_0 = create_progress_bar(0, 20);
    assert!(bar_0.contains("0.0%") || bar_0.contains("  0.0%"));
    assert!(bar_0.contains('░')); // Should be all empty

    // Test 100%
    let bar_100 = create_progress_bar(10000, 20);
    assert!(bar_100.contains("100.0%"));
    assert!(bar_100.contains('█')); // Should be all filled

    // Test 50%
    let bar_50 = create_progress_bar(5000, 20);
    assert!(bar_50.contains("50.0%"));
    assert!(bar_50.contains('█') && bar_50.contains('░')); // Should have both
}

#[test]
fn progress_bars_are_exact() {
    assert_eq!(create_progress_bar(0, 20), format!("{}   0.0%", "░".repeat(20)));
    assert_eq!(create_progress_bar(10000, 20), format!("{} 100.0%", "█".repeat(20)));
    assert_eq!(
        create_progress_bar(4250, 20),
        format!("{}{}  42.5%", "█".repeat(9), "░".repeat(11))
    );
    assert_eq!(
        create_progress_bar(5000, 20),
        format!("{}{}  50.0%", "█".repeat(10), "░".repeat(10))
    );
    // above 100 % the bar is full and the figures say how much
    assert_eq!(create_progress_bar(25000, 4), "████ 250.0%");
    assert_eq!(create_progress_bar(1234, 0), "  12.3%");
}

#[test]
fn bar_fill_rounds_to_whole_cells() {
    assert_eq!(bar_fill(0, 20), 0);
    assert_eq!(bar_fill(249, 20), 0);
    assert_eq!(bar_fill(250, 20), 1);
    assert_eq!(bar_fill(4250, 20), 9);
    assert_eq!(bar_fill(9750, 20), 20);
    assert_eq!(bar_fill(10000, 20), 20);
    assert_eq!(bar_fill(u32::MAX, 20), 20);
    assert_eq!(bar_fill(5000, usize::MAX), usize::MAX / 2 + 1);
    for width in 0..50usize {
        for value in (0..=12000u32).step_by(37) {
            let shown = f64::from(value.min(10000)) / 100.0;
            let expected = ((shown / 100.0) * width as f64).round() as usize;
            assert_eq!(bar_fill(value, width), expected, "{} of {}", value, width);
        }
    }
}

#[test]
fn percentages_have_one_decimal_and_five_columns() {
    assert_eq!(percent_text(0), "  0.0%");
    assert_eq!(percent_text(4250), " 42.5%");
    assert_eq!(percent_text(4254), " 42.5%");
    assert_eq!(percent_text(4255), " 42.6%");
    assert_eq!(percent_text(999), " 10.0%");
    assert_eq!(percent_text(10000), "100.0%");
    assert_eq!(percent_text(123456), "1234.6%");
    assert_eq!(percent_text(u32::MAX), "42949673.0%");
    assert_eq!(percent_text(4250), format!("{:5.1}%", 42.5));
}

#[test]
fn rates_pick_their_unit() {
    assert_eq!(format_bytes_per_sec(0), "0B/s");
    assert_eq!(format_bytes_per_sec(512), "512B/s");
    assert_eq!(format_bytes_per_sec(1023), "1023B/s");
    assert_eq!(format_bytes_per_sec(1024), "1.0KB/s");
    assert_eq!(format_bytes_per_sec(1536), "1.5KB/s");
    assert_eq!(format_bytes_per_sec(2048), "2.0KB/s");
    assert_eq!(format_bytes_per_sec(1024 * 1024 - 1), "1024.0KB/s");
    assert_eq!(format_bytes_per_sec(1024 * 1024), "1.00MB/s");
    assert_eq!(format_bytes_per_sec(1289748), "1.23MB/s");
    assert_eq!(format_bytes_per_sec(104857600), "100.00MB/s");
    assert_eq!(format_bytes_per_sec(1024 * 1024 * 1024), "1.00GB/s");
    assert_eq!(format_bytes_per_sec(5 * 1024 * 1024 * 1024 + 1024 * 1024 * 512), "5.50GB/s");
    assert_eq!(format_bytes_per_sec(u64::MAX), "17179869184.00GB/s");
}

#[test]
fn decimal_numbers() {
    assert_eq!(decimal_text(0), "0");
    assert_eq!(decimal_text(7), "7");
    assert_eq!(decimal_text(10), "10");
    assert_eq!(decimal_text(1234567890), "1234567890");
    assert_eq!(decimal_text(u64::MAX), u64::MAX.to_string());
}
