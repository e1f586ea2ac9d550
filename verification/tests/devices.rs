use master_browser::device::{
    device_path, disk_entry, is_disk_name, is_partition_of, list_raw_devices, parse_decimal,
    partition_entry, size_from_sector_count, DeviceNode, PartitionNode,
};
use master_browser::text::{has_prefix, has_suffix};

#[test]
fn disks_are_known_by_their_prefix() {
    for name in ["sda", "sdb", "sd", "nvme0n1", "mmcblk0", "loop7", "loop"] {
        assert!(is_disk_name(name));
    }
    let others =
        ["", "s", "hda", "vda", "dm-0", "sr0", "ram0", "nvm", "mmcbl", "loo", "xsda", "SDA"];
    for name in others {
        assert!(!is_disk_name(name));
    }
}

#[test]
fn partitions_go_on_after_the_name_of_their_disk() {
    assert!(is_partition_of("sda1", "sda"));
    assert!(is_partition_of("mmcblk0p1", "mmcblk0"));
    assert!(is_partition_of("nvme0n1p2", "nvme0n1"));
    assert!(!is_partition_of("sda", "sda"));
    assert!(!is_partition_of("sdb1", "sda"));
    assert!(!is_partition_of("sd", "sda"));
    assert!(!is_partition_of("size", "sda"));
    assert!(!is_partition_of("", "sda"));
    assert!(is_partition_of("x", ""));
    assert!(!is_partition_of("", ""));
}

#[test]
fn prefixes_and_suffixes() {
    assert!(has_prefix("abc", ""));
    assert!(has_prefix("abc", "ab"));
    assert!(has_prefix("abc", "abc"));
    assert!(!has_prefix("abc", "abcd"));
    assert!(!has_prefix("abc", "b"));
    assert!(has_prefix("日本語", "日本"));
    assert!(has_suffix("abc", ""));
    assert!(has_suffix("abc", "bc"));
    assert!(has_suffix("abc", "abc"));
    assert!(!has_suffix("abc", "xabc"));
    assert!(!has_suffix("abc", "b"));
    assert!(has_suffix("日本語", "本語"));
    assert!(!has_suffix("", "a"));
    assert!(has_suffix("", ""));
}

#[test]
fn decimal_numbers_are_read() {
    assert_eq!(parse_decimal("0"), Some(0));
    assert_eq!(parse_decimal("7"), Some(7));
    assert_eq!(parse_decimal("007"), Some(7));
    assert_eq!(parse_decimal("+42"), Some(42));
    assert_eq!(parse_decimal("1953525168"), Some(1953525168));
    assert_eq!(parse_decimal("18446744073709551615"), Some(u64::MAX));
}

#[test]
fn what_is_no_decimal_number_is_refused() {
    for text in ["", "+", "-", "-1", "-0", "++1", "+-1", "1+", " 1", "1 ", "1_000", "0x10", "1e3",
        "12a", "a12", "٣", "1.0", "18446744073709551616", "99999999999999999999",
        "184467440737095516150"]
    {
        assert_eq!(parse_decimal(text), None);
    }
}

#[test]
fn decimal_reading_agrees_with_the_standard_parser() {
    for text in ["0", "00", "+0", "+00009", "9", "10", "18446744073709551615",
        "18446744073709551616", "18446744073709551609", "1844674407370955161",
        "28446744073709551615", "", "+", "x", "-5", "5-", "１２"]
    {
        assert_eq!(parse_decimal(text), text.parse::<u64>().ok());
    }
}

#[test]
fn size_is_sectors_times_512() {
    assert_eq!(size_from_sector_count("0\n"), 0);
    assert_eq!(size_from_sector_count("1\n"), 512);
    assert_eq!(size_from_sector_count("204800\n"), 104857600);
    assert_eq!(size_from_sector_count("  1953525168  "), 1953525168 * 512);
    assert_eq!(size_from_sector_count("36028797018963967"), 36028797018963967 * 512);
}

#[test]
fn size_is_zero_where_it_cannot_be_told() {
    assert_eq!(size_from_sector_count(""), 0);
    assert_eq!(size_from_sector_count("\n"), 0);
    assert_eq!(size_from_sector_count("many"), 0);
    assert_eq!(size_from_sector_count("12 34"), 0);
    assert_eq!(size_from_sector_count("36028797018963968"), 0);
    assert_eq!(size_from_sector_count("18446744073709551615"), 0);
    assert_eq!(size_from_sector_count("18446744073709551616"), 0);
}

#[test]
fn device_nodes_live_in_dev() {
    assert_eq!(device_path("sda"), "/dev/sda");
    assert_eq!(device_path(""), "/dev/");
}

#[test]
fn entries_for_disks_and_partitions() {
    let first = partition_entry("sda1", 1024);
    assert_eq!(first.name, "sda1");
    assert_eq!(first.path, "/dev/sda1");
    assert_eq!(first.size, 1024);
    assert_eq!(first.fs_type, None);
    let d = disk_entry("sda", 4096, vec![first, partition_entry("sda2", 2048)]);
    assert_eq!(d.name, "sda");
    assert_eq!(d.path, "/dev/sda");
    assert_eq!(d.size, 4096);
    assert_eq!(d.device_type, "disk");
    assert_eq!(d.partitions.len(), 2);
    assert_eq!(d.partitions[1].path, "/dev/sda2");
}

fn below(name: &str, size: Option<&str>) -> PartitionNode {
    PartitionNode { name: name.to_string(), size_text: size.map(|s| s.to_string()) }
}

fn node(name: &str, size: Option<&str>, entries: Vec<PartitionNode>) -> DeviceNode {
    DeviceNode { name: name.to_string(), size_text: size.map(|s| s.to_string()), entries }
}

#[test]
fn devices_are_listed_with_their_partitions() {
    let nodes = vec![
        node(
            "sda",
            Some("1000\n"),
            vec![
                below("queue", None),
                below("sda1", Some("600\n")),
                below("size", None),
                below("sda2", Some("400\n")),
                below("sdb1", Some("1\n")),
            ],
        ),
        node("dm-0", Some("50\n"), vec![below("dm-0p1", Some("5\n"))]),
        node("nvme0n1", Some("2048\n"), vec![below("nvme0n1p1", None)]),
        node("loop0", None, Vec::new()),
        node("sr0", Some("8\n"), Vec::new()),
    ];
    let devices = list_raw_devices(&nodes);
    let names: Vec<&str> = devices.iter().map(|d| d.name.as_str()).collect();
    assert_eq!(names, ["sda", "nvme0n1", "loop0"]);
    let sda = &devices[0];
    assert_eq!(sda.path, "/dev/sda");
    assert_eq!(sda.size, 512_000);
    assert_eq!(sda.device_type, "disk");
    let parts: Vec<(&str, &str, u64)> =
        sda.partitions.iter().map(|p| (p.name.as_str(), p.path.as_str(), p.size)).collect();
    assert_eq!(parts, [("sda1", "/dev/sda1", 307_200), ("sda2", "/dev/sda2", 204_800)]);
    assert!(sda.partitions.iter().all(|p| p.fs_type.is_none()));
    assert_eq!(devices[1].size, 2048 * 512);
    assert_eq!(devices[1].partitions.len(), 1);
    assert_eq!(devices[1].partitions[0].size, 0);
    assert_eq!(devices[2].size, 0);
    assert!(devices[2].partitions.is_empty());
}

#[test]
fn no_directories_give_no_devices() {
    assert!(list_raw_devices(&Vec::new()).is_empty());
    assert!(list_raw_devices(&vec![node("ram0", Some("1"), Vec::new())]).is_empty());
}
