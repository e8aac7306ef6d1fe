use no_hidden_extensions::err::Error;
use no_hidden_extensions::process::{
    find_process_id_by_name, find_process_id_in_snapshot, read_snapshot, take_entry,
    trim_trailing_nuls, ProcessEntry, ProcessRecord, IMAGE_NAME_CAPACITY,
};

fn record(pid: u32, name: &str) -> ProcessRecord {
    ProcessRecord { pid, name: String::from(name) }
}

fn padded(name: &[u8]) -> Vec<u8> {
    let mut buffer = vec![0u8; 260];
    buffer[..name.len()].copy_from_slice(name);
    buffer
}

fn entry(pid: u32, name: &[u8]) -> ProcessEntry {
    ProcessEntry { pid, image_name: padded(name) }
}

#[test]
fn lookup_finds_the_process_with_the_exact_name() {
    let records = vec![record(4012, "explorer.exe"), record(77, "notepad.exe")];
    assert_eq!(find_process_id_by_name(&records, "explorer.exe"), Ok(4012));
    assert_eq!(find_process_id_by_name(&records, "notepad.exe"), Ok(77));
}

#[test]
fn lookup_fails_for_a_name_that_no_process_has() {
    let records = vec![record(4012, "explorer.exe"), record(77, "notepad.exe")];
    assert_eq!(
        find_process_id_by_name(&records, "calc.exe"),
        Err(Error::ProcessNotFound { name: String::from("calc.exe") })
    );
}

#[test]
fn lookup_never_matches_a_part_of_a_name() {
    let records = vec![record(4012, "explorer.exe"), record(77, "notepad.exe")];
    for target in ["explorer", "explorer.ex", "xplorer.exe", ".exe", "", "explorer.exe ", "explorer.exe2", "iexplorer.exe"] {
        assert_eq!(
            find_process_id_by_name(&records, target),
            Err(Error::ProcessNotFound { name: String::from(target) })
        );
    }
}

#[test]
fn lookup_is_case_sensitive() {
    let records = vec![record(4012, "explorer.exe")];
    assert_eq!(
        find_process_id_by_name(&records, "Explorer.EXE"),
        Err(Error::ProcessNotFound { name: String::from("Explorer.EXE") })
    );
}

#[test]
fn lookup_takes_the_first_of_several_matches() {
    let records = vec![record(1, "svchost.exe"), record(2, "explorer.exe"), record(3, "explorer.exe")];
    assert_eq!(find_process_id_by_name(&records, "explorer.exe"), Ok(2));
    assert_eq!(find_process_id_by_name(&records, "svchost.exe"), Ok(1));
}

#[test]
fn lookup_in_an_empty_snapshot_fails() {
    let records: Vec<ProcessRecord> = Vec::new();
    assert_eq!(
        find_process_id_by_name(&records, "explorer.exe"),
        Err(Error::ProcessNotFound { name: String::from("explorer.exe") })
    );
}

#[test]
fn trailing_nuls_are_trimmed_and_no_others() {
    assert_eq!(trim_trailing_nuls("explorer.exe\0\0\0"), "explorer.exe");
    assert_eq!(trim_trailing_nuls("explorer.exe"), "explorer.exe");
    assert_eq!(trim_trailing_nuls(""), "");
    assert_eq!(trim_trailing_nuls("\0\0"), "");
    assert_eq!(trim_trailing_nuls("a\0b\0"), "a\0b");
    assert_eq!(trim_trailing_nuls("\0a"), "\0a");
    assert_eq!(trim_trailing_nuls("d\u{e9}j\u{e0}\0"), "d\u{e9}j\u{e0}");
}

#[test]
fn an_entry_is_decoded_to_its_name() {
    assert_eq!(entry(4012, b"explorer.exe").record(), record(4012, "explorer.exe"));
    assert_eq!(entry(0, b"").record(), record(0, ""));
    assert_eq!(entry(9, "d\u{e9}j\u{e0}.exe".as_bytes()).record(), record(9, "d\u{e9}j\u{e0}.exe"));
}

#[test]
fn an_entry_without_padding_is_decoded_whole() {
    let full = ProcessEntry { pid: 5, image_name: b"cmd.exe".to_vec() };
    assert_eq!(full.record(), record(5, "cmd.exe"));
}

#[test]
fn ill_formed_bytes_are_replaced_in_the_name() {
    assert_eq!(entry(8, &[0x66, 0xff, 0x6f]).record(), record(8, "f\u{fffd}o"));
    assert_eq!(entry(8, &[0xc3]).record(), record(8, "\u{fffd}"));
}

#[test]
fn leftovers_of_a_longer_name_spoil_the_match() {
    // A buffer that was not cleared after "explorer.exe" and then took "cmd.exe".
    let mut buffer = padded(b"explorer.exe");
    buffer[..8].copy_from_slice(b"cmd.exe\0");
    let stale = ProcessEntry { pid: 6, image_name: buffer };
    assert_eq!(stale.record(), record(6, "cmd.exe\0.exe"));
    assert_eq!(
        find_process_id_in_snapshot(&vec![stale], "cmd.exe"),
        Err(Error::ProcessNotFound { name: String::from("cmd.exe") })
    );
    assert_eq!(find_process_id_in_snapshot(&vec![entry(6, b"cmd.exe")], "cmd.exe"), Ok(6));
}

#[test]
fn a_snapshot_is_decoded_in_order() {
    let entries = vec![entry(4, b"System"), entry(4012, b"explorer.exe"), entry(77, b"notepad.exe")];
    assert_eq!(
        read_snapshot(&entries),
        vec![record(4, "System"), record(4012, "explorer.exe"), record(77, "notepad.exe")]
    );
    assert_eq!(read_snapshot(&Vec::new()), Vec::<ProcessRecord>::new());
}

#[test]
fn lookup_in_a_raw_snapshot() {
    let entries = vec![entry(4012, b"explorer.exe"), entry(77, b"notepad.exe")];
    assert_eq!(find_process_id_in_snapshot(&entries, "explorer.exe"), Ok(4012));
    assert_eq!(find_process_id_in_snapshot(&entries, "notepad.exe"), Ok(77));
    assert_eq!(
        find_process_id_in_snapshot(&entries, "calc.exe"),
        Err(Error::ProcessNotFound { name: String::from("calc.exe") })
    );
    assert_eq!(
        find_process_id_in_snapshot(&entries, "explorer"),
        Err(Error::ProcessNotFound { name: String::from("explorer") })
    );
}

fn write_name(scratch: &mut [u8; 260], name: &[u8]) {
    // As the operating system does: the name and its terminator, and nothing beyond them.
    scratch[..name.len()].copy_from_slice(name);
    scratch[name.len()] = 0;
}

#[test]
fn taking_an_entry_clears_the_scratch_buffer() {
    assert_eq!(IMAGE_NAME_CAPACITY, 260);
    let mut scratch = [0u8; 260];
    write_name(&mut scratch, b"explorer.exe");
    let taken = take_entry(4012, &mut scratch);
    assert_eq!(taken, entry(4012, b"explorer.exe"));
    assert_eq!(scratch, [0u8; 260]);
    let mut full = [0x61u8; 260];
    let taken = take_entry(1, &mut full);
    assert_eq!(taken, ProcessEntry { pid: 1, image_name: vec![0x61u8; 260] });
    assert_eq!(full, [0u8; 260]);
}

#[test]
fn a_shorter_name_after_a_longer_one_is_found() {
    let mut scratch = [0u8; 260];
    let mut snapshot = Vec::new();
    for (pid, name) in [(4012u32, &b"explorer.exe"[..]), (6, &b"cmd.exe"[..]), (77, &b"notepad.exe"[..])] {
        write_name(&mut scratch, name);
        snapshot.push(take_entry(pid, &mut scratch));
    }
    assert_eq!(find_process_id_in_snapshot(&snapshot, "cmd.exe"), Ok(6));
    assert_eq!(find_process_id_in_snapshot(&snapshot, "explorer.exe"), Ok(4012));
    assert_eq!(find_process_id_in_snapshot(&snapshot, "notepad.exe"), Ok(77));
    assert_eq!(
        read_snapshot(&snapshot),
        vec![record(4012, "explorer.exe"), record(6, "cmd.exe"), record(77, "notepad.exe")]
    );
}
