use ios::size::size_converter;

fn by_floating_point(byte_size: u64) -> String {
    let names = ["B", "KB", "MB", "GB", "TB", "PB", "EB", "ZB", "YB"];
    let mut index = 0;
    let mut size = byte_size as f64;
    while size >= 1024.0 && index < names.len() - 1 {
        size /= 1024.0;
        index += 1;
    }
    format!("{:.2} {}", size, names[index])
}

#[test]
fn small_sizes_are_in_bytes() {
    assert_eq!(size_converter(0), "0.00 B");
    assert_eq!(size_converter(1), "1.00 B");
    assert_eq!(size_converter(1023), "1023.00 B");
}

#[test]
fn each_unit_is_1024_of_the_one_below() {
    assert_eq!(size_converter(1024), "1.00 KB");
    assert_eq!(size_converter(1536), "1.50 KB");
    assert_eq!(size_converter(1_048_576), "1.00 MB");
    assert_eq!(size_converter(1_073_741_824), "1.00 GB");
    assert_eq!(size_converter(1_099_511_627_776), "1.00 TB");
    assert_eq!(size_converter(1_125_899_906_842_624), "1.00 PB");
    assert_eq!(size_converter(1_152_921_504_606_846_976), "1.00 EB");
}

#[test]
fn hundredths_round_to_nearest() {
    assert_eq!(size_converter(1025), "1.00 KB");
    assert_eq!(size_converter(1029), "1.00 KB");
    assert_eq!(size_converter(1030), "1.01 KB");
    assert_eq!(size_converter(1_048_575), "1024.00 KB");
}

#[test]
fn ties_round_to_the_even_hundredth() {
    assert_eq!(size_converter(1152), "1.12 KB");
    assert_eq!(size_converter(1408), "1.38 KB");
    assert_eq!(size_converter(1152), by_floating_point(1152));
    assert_eq!(size_converter(1408), by_floating_point(1408));
}

#[test]
fn the_largest_size_is_sixteen_exabytes() {
    assert_eq!(size_converter(u64::MAX), "16.00 EB");
    assert_eq!(size_converter(u64::MAX), by_floating_point(u64::MAX));
}

#[test]
fn sizes_beyond_double_precision_round_first() {
    let just_below_an_exabyte = (1u64 << 60) - 1;
    assert_eq!(size_converter(just_below_an_exabyte), "1.00 EB");
    assert_eq!(size_converter(just_below_an_exabyte), by_floating_point(just_below_an_exabyte));
    let odd = (1u64 << 53) + 1;
    assert_eq!(size_converter(odd), by_floating_point(odd));
    let odd = (1u64 << 53) + 3;
    assert_eq!(size_converter(odd), by_floating_point(odd));
}

#[test]
fn agrees_with_floating_point_on_a_sweep() {
    let mut value: u64 = 1;
    let mut step: u64 = 1;
    let mut count = 0;
    while count < 20_000 {
        assert_eq!(size_converter(value), by_floating_point(value), "at {}", value);
        let next = value.wrapping_mul(6364136223846793005).wrapping_add(1442695040888963407);
        step = step.rotate_left(7) ^ next;
        value = next >> (step % 64);
        count += 1;
    }
}

#[test]
fn agrees_with_floating_point_around_unit_limits() {
    let mut power: u32 = 10;
    while power < 64 {
        let limit = 1u64 << power;
        let mut offset: u64 = 0;
        while offset < 300 {
            assert_eq!(size_converter(limit + offset), by_floating_point(limit + offset));
            assert_eq!(size_converter(limit - offset), by_floating_point(limit - offset));
            offset += 1;
        }
        power += 1;
    }
}
