use alpheratz::config::Config;
use alpheratz::config::Entry;
use alpheratz::config::Protocol;
use alpheratz::config::SavedTag;
use alpheratz::download::Arch;
use alpheratz::download::arch_name;
use alpheratz::download::combine_initrd_parts;
use alpheratz::download::expand_vars;
use alpheratz::download::trim_trailing_newlines;
use alpheratz::fsutil::is_driver_file_name;
use alpheratz::fsutil::path_join;
use alpheratz::menu::Selection;
use alpheratz::menu::index_to_selection;
use alpheratz::menu::total_items;
use alpheratz::net::parse_mac;
use alpheratz::net::pick_nic;
use alpheratz::serial::serial_hex;
use alpheratz::serial::serial_str;

fn entry(name: &str) -> Entry {
    Entry { name: String::from(name), protocol: Protocol::Canicula, identity: None, files: vec![] }
}

#[test]
fn serial_hex_prints_full_width() {
    assert_eq!(serial_hex(0x1234ABCD), b"0x000000001234abcd".to_vec());
    assert_eq!(serial_hex(0), b"0x0000000000000000".to_vec());
    assert_eq!(serial_hex(u64::MAX), b"0xffffffffffffffff".to_vec());
    assert_eq!(serial_hex(0xFFFF_FFFF_8000_0000), b"0xffffffff80000000".to_vec());
}

#[test]
fn serial_str_hands_back_the_bytes() {
    assert_eq!(serial_str("[PT] ok\r\n"), b"[PT] ok\r\n".to_vec());
    assert_eq!(serial_str(""), Vec::<u8>::new());
}

#[test]
fn expand_vars_replaces_every_occurrence() {
    assert_eq!(expand_vars("\\EFI\\${arch}\\vmlinuz", Arch::X86_64), "\\EFI\\x86_64\\vmlinuz");
    assert_eq!(expand_vars("no variable here", Arch::Riscv64), "no variable here");
    assert_eq!(expand_vars("${arch}/${arch}", Arch::Aarch64), "aarch64/aarch64");
    assert_eq!(expand_vars("", Arch::Loongarch64), "");
    assert_eq!(expand_vars("${arch", Arch::X86_64), "${arch");
}

#[test]
fn arch_names() {
    assert_eq!(arch_name(Arch::X86_64), "x86_64");
    assert_eq!(arch_name(Arch::Aarch64), "aarch64");
    assert_eq!(arch_name(Arch::Riscv64), "riscv64");
    assert_eq!(arch_name(Arch::Loongarch64), "loongarch64");
}

#[test]
fn combine_initrd_parts_concatenates_in_order() {
    assert_eq!(combine_initrd_parts(&vec![]), None);
    assert_eq!(combine_initrd_parts(&vec![vec![1, 2, 3]]), Some(vec![1, 2, 3]));
    assert_eq!(
        combine_initrd_parts(&vec![vec![1, 2], vec![], vec![3]]),
        Some(vec![1, 2, 3])
    );
}

#[test]
fn trim_trailing_newlines_strips_only_the_tail() {
    assert_eq!(trim_trailing_newlines(&b"root=/dev/sda\n".to_vec()), b"root=/dev/sda".to_vec());
    assert_eq!(trim_trailing_newlines(&b"quiet\n\n\n".to_vec()), b"quiet".to_vec());
    assert_eq!(trim_trailing_newlines(&b"a\nb".to_vec()), b"a\nb".to_vec());
    assert_eq!(trim_trailing_newlines(&b"\n".to_vec()), Vec::<u8>::new());
    assert_eq!(trim_trailing_newlines(&Vec::new()), Vec::<u8>::new());
}

#[test]
fn parse_mac_accepts_both_separators() {
    assert_eq!(
        parse_mac("aa:bb:cc:dd:ee:0f"),
        Some(vec![0xAA, 0xBB, 0xCC, 0xDD, 0xEE, 0x0F])
    );
    assert_eq!(
        parse_mac("52-54-00-12-34-56"),
        Some(vec![0x52, 0x54, 0x00, 0x12, 0x34, 0x56])
    );
    assert_eq!(
        parse_mac("A1:b2:C3:d4:E5:f6"),
        Some(vec![0xA1, 0xB2, 0xC3, 0xD4, 0xE5, 0xF6])
    );
    assert_eq!(parse_mac(""), None);
    assert_eq!(parse_mac("aa:bb:cc:dd:ee"), None);
    assert_eq!(parse_mac("aa:bb:cc:dd:ee:0g"), None);
    assert_eq!(parse_mac("aabbccddee0f12345"), None);
    assert_eq!(parse_mac("aa:bb:cc:dd:ee:0f:"), None);
}

#[test]
fn pick_nic_prefers_the_wanted_address() {
    let macs = vec![
        vec![0x52, 0x54, 0, 0, 0, 1],
        vec![0x52, 0x54, 0, 0, 0, 2],
        vec![0x52, 0x54, 0, 0, 0, 3],
    ];
    assert_eq!(pick_nic(&macs, &Some(vec![0x52, 0x54, 0, 0, 0, 2])), 1);
    assert_eq!(pick_nic(&macs, &Some(vec![0x52, 0x54, 0, 0, 0, 9])), 0);
    assert_eq!(pick_nic(&macs, &None), 0);
}

#[test]
fn path_join_inserts_one_separator() {
    assert_eq!(path_join("\\EFI\\drivers", "e1000.efi"), "\\EFI\\drivers\\e1000.efi");
    assert_eq!(path_join("\\EFI\\drivers\\", "e1000.efi"), "\\EFI\\drivers\\e1000.efi");
    assert_eq!(path_join("", "e1000.efi"), "\\e1000.efi");
}

#[test]
fn driver_file_names() {
    assert!(is_driver_file_name("e1000.efi"));
    assert!(is_driver_file_name("E1000.EFI"));
    assert!(is_driver_file_name("snp.Efi"));
    assert!(!is_driver_file_name("readme.txt"));
    assert!(!is_driver_file_name("."));
    assert!(!is_driver_file_name(".."));
    assert!(!is_driver_file_name("efi"));
}

#[test]
fn saved_tag_parsing() {
    assert!(SavedTag::parse("@saved").is_some());
    assert!(SavedTag::parse("@Saved").is_none());
    assert!(SavedTag::parse("saved").is_none());
    assert!(SavedTag::parse("").is_none());
}

#[test]
fn default_entry_index_and_defaults() {
    let mut cfg = Config::default();
    assert_eq!(cfg.timeout, 3);
    assert!(!cfg.shutdown);
    assert!(!cfg.firmware);
    assert!(cfg.entry.is_empty());
    assert_eq!(cfg.default_entry_index(), 0);
    cfg.default = alpheratz::config::Default::Index(2);
    assert_eq!(cfg.default_entry_index(), 2);
    cfg.default = alpheratz::config::Default::Saved(SavedTag);
    assert_eq!(cfg.default_entry_index(), 0);
}

#[test]
fn protocol_names() {
    assert_eq!(Protocol::Canicula.as_str(), "canicula");
    assert_eq!(Protocol::Linux.as_str(), "linux");
}

#[test]
fn menu_rows_and_selection() {
    let mut cfg = Config::default();
    cfg.entry = vec![entry("one"), entry("two")];
    assert_eq!(total_items(&cfg), 2);
    cfg.firmware = true;
    cfg.shutdown = true;
    assert_eq!(total_items(&cfg), 4);
    assert_eq!(index_to_selection(&cfg, 0), Selection::Entry(0));
    assert_eq!(index_to_selection(&cfg, 1), Selection::Entry(1));
    assert_eq!(index_to_selection(&cfg, 2), Selection::Firmware);
    assert_eq!(index_to_selection(&cfg, 3), Selection::Shutdown);
    cfg.firmware = false;
    assert_eq!(total_items(&cfg), 3);
    assert_eq!(index_to_selection(&cfg, 2), Selection::Shutdown);
}
