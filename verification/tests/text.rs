use tari_universe::name_table::NameTable;
use tari_universe::text::{
    fields, is_white_space, lines, parse_u32, same_text, trim, u32_to_string,
};

const SAMPLES: [&str; 16] = [
    "",
    " ",
    "\n",
    "\r\n",
    "\n\n",
    "a",
    "a\n",
    "a\r\n",
    "a\r",
    "a\rb\nc\r\r\n",
    " a b\t",
    "\u{3000}x\u{a0}",
    "1,2,3",
    ",",
    ", ,\n,x",
    "\u{fe}\u{1F600},\u{2029} y \n z",
];

#[test]
fn white_space_is_that_of_unicode() {
    for code in 0..=0x10FFFFu32 {
        if let Some(c) = char::from_u32(code) {
            assert_eq!(is_white_space(c), c.is_whitespace(), "{code:x}");
        }
    }
}

#[test]
fn texts_are_trimmed_and_taken_apart_as_by_the_standard_library() {
    for sample in SAMPLES {
        assert_eq!(trim(sample), sample.trim());
        assert_eq!(lines(sample), sample.lines().collect::<Vec<_>>());
        assert_eq!(fields(sample, ','), sample.split(',').collect::<Vec<_>>());
        for other in SAMPLES {
            assert_eq!(same_text(sample, other), sample == other);
        }
    }
}

#[test]
fn numbers_are_read_as_by_the_standard_library() {
    for text in [
        "", "+", "-", "0", "-0", "+0", "007", "42", "+42", "++1", "1 ", " 1", "1_0", "4294967295",
        "4294967296", "+4294967295", "99999999999999999999999", "00000000000000000000000001", "x",
        "1x", "\u{0661}",
    ] {
        assert_eq!(parse_u32(text), text.parse::<u32>().ok(), "{text}");
    }
}

#[test]
fn numbers_are_written_and_read_back() {
    for n in [0u32, 1, 9, 10, 11, 99, 100, 4096, 1_000_000_007, u32::MAX] {
        assert_eq!(u32_to_string(n), n.to_string());
        assert_eq!(parse_u32(&u32_to_string(n)), Some(n));
    }
}

#[test]
fn lines_are_read_one_by_one() {
    assert_eq!(lines("first\r\nsecond\n\nlast"), vec!["first", "second", "", "last"]);
}

#[test]
fn a_name_table_holds_one_value_per_name() {
    let mut table: NameTable<u32> = NameTable::new();
    assert_eq!(table.get("a"), None);
    table.insert("a".to_string(), 1);
    table.insert("b".to_string(), 2);
    table.insert("a".to_string(), 3);
    assert_eq!(table.get("a"), Some(&3));
    assert_eq!(table.get("b"), Some(&2));
    assert_eq!(table.get("c"), None);
    assert_eq!(table.entries(), &vec![("a".to_string(), 3), ("b".to_string(), 2)]);
    let copy = table.clone();
    table.insert("b".to_string(), 5);
    assert_eq!(copy.get("b"), Some(&2));
}
