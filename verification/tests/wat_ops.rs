// Tests of the two WAT synthesizers: exact emitted text, structural balance,
// dispatch-list shape, and the empty no-op fragments.

use stylus_benchmark::br;
use stylus_benchmark::br_table;

fn count(hay: &[u8], needle: u8) -> usize {
    hay.iter().filter(|b| **b == needle).count()
}

fn count_sub(hay: &[u8], needle: &[u8]) -> usize {
    if needle.is_empty() || hay.len() < needle.len() {
        return 0;
    }
    (0..=hay.len() - needle.len()).filter(|i| &hay[*i..*i + needle.len()] == needle).count()
}

#[test]
fn br_zero_ops_is_empty() {
    let mut wat: Vec<u8> = Vec::new();
    br::write_wat_ops(&mut wat, 0);
    assert!(wat.is_empty());
}

#[test]
fn br_one_op_exact_text() {
    let mut wat: Vec<u8> = Vec::new();
    br::write_wat_ops(&mut wat, 1);
    let lines = [
        "            (block",
        "                (block ",
        "                    (block ",
        "                        br 2",
        "                    )",
        "                )",
        "            )",
    ];
    let expected = lines.join("\n") + "\n";
    assert_eq!(String::from_utf8(wat).unwrap(), expected);
}

#[test]
fn br_two_ops_balanced_with_two_branches() {
    let mut wat: Vec<u8> = Vec::new();
    br::write_wat_ops(&mut wat, 2);
    assert_eq!(count(&wat, b'('), 6);
    assert_eq!(count(&wat, b')'), 6);
    assert_eq!(count_sub(&wat, b"br 2"), 2);
    assert_eq!(count_sub(&wat, b"(block"), 6);
}

#[test]
fn br_appends_after_existing_content() {
    let mut wat: Vec<u8> = b"(module\n".to_vec();
    br::write_wat_ops(&mut wat, 1);
    assert!(wat.starts_with(b"(module\n"));
    assert_eq!(count(&wat, b'('), 4);
}

#[test]
fn br_many_ops_counts_scale() {
    let mut wat: Vec<u8> = Vec::new();
    br::write_wat_ops(&mut wat, 25);
    assert_eq!(count(&wat, b'('), 75);
    assert_eq!(count(&wat, b')'), 75);
    assert_eq!(count_sub(&wat, b"br 2"), 25);
}

#[test]
fn br_table_zero_ops_is_empty() {
    let mut wat: Vec<u8> = Vec::new();
    br_table::write_wat_ops(&mut wat, 0, 3);
    assert!(wat.is_empty());
}

#[test]
fn br_table_one_op_table_three_exact_text() {
    let mut wat: Vec<u8> = Vec::new();
    br_table::write_wat_ops(&mut wat, 1, 3);
    let lines = [
        "            (block",
        "                (block",
        "                    (block",
        "                        i32.const 3",
        "                        br_table 0 1 2",
        "                    )",
        "                )",
        "            )",
    ];
    let expected = lines.join("\n") + "\n";
    assert_eq!(String::from_utf8(wat).unwrap(), expected);
}

#[test]
fn br_table_selector_is_table_size_and_targets_ascend() {
    let mut wat: Vec<u8> = Vec::new();
    br_table::write_wat_ops(&mut wat, 1, 3);
    let text = String::from_utf8(wat).unwrap();
    assert!(text.contains("i32.const 3\n"));
    assert!(text.contains("br_table 0 1 2\n"));
    assert_eq!(count(text.as_bytes(), b'('), 3);
    assert_eq!(count(text.as_bytes(), b')'), 3);
}

#[test]
fn br_table_multi_digit_targets() {
    let mut wat: Vec<u8> = Vec::new();
    br_table::write_wat_ops(&mut wat, 1, 12);
    let text = String::from_utf8(wat).unwrap();
    assert!(text.contains("i32.const 12\n"));
    assert!(text.contains("br_table 0 1 2 3 4 5 6 7 8 9 10 11\n"));
    assert_eq!(count(text.as_bytes(), b'('), 12);
    assert_eq!(count(text.as_bytes(), b')'), 12);
}

#[test]
fn br_table_counts_scale_with_ops_and_table_size() {
    let mut wat: Vec<u8> = Vec::new();
    br_table::write_wat_ops(&mut wat, 2, 4);
    assert_eq!(count(&wat, b'('), 8);
    assert_eq!(count(&wat, b')'), 8);
    assert_eq!(count_sub(&wat, b"br_table 0 1 2 3\n"), 2);
    assert_eq!(count_sub(&wat, b"i32.const 4\n"), 2);
}

#[test]
fn br_table_table_size_one() {
    let mut wat: Vec<u8> = Vec::new();
    br_table::write_wat_ops(&mut wat, 1, 1);
    let lines = [
        "            (block",
        "                i32.const 1",
        "                br_table 0",
        "            )",
    ];
    let expected = lines.join("\n") + "\n";
    assert_eq!(String::from_utf8(wat).unwrap(), expected);
}

#[test]
fn rm_identation_removes_one_step() {
    let mut s: Vec<u8> = b"            ".to_vec();
    br_table::rm_identation(&mut s);
    assert_eq!(s, b"        ".to_vec());
}

#[test]
fn rm_identation_empties_short_buffer() {
    let mut s: Vec<u8> = b"  ".to_vec();
    br_table::rm_identation(&mut s);
    assert!(s.is_empty());
}
