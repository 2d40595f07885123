use todo_list::storage::{decode, encode, join_lines, texts_from_records};

fn owned(texts: &[&str]) -> Vec<String> {
    texts.iter().map(|text| text.to_string()).collect()
}

#[test]
fn encode_writes_one_line_for_each_text() {
    assert_eq!(encode(&owned(&["a", "b"])), Some(b"a\nb\n".to_vec()));
    assert_eq!(encode(&owned(&["Buy milk"])), Some(b"Buy milk\n".to_vec()));
}

#[test]
fn encode_of_no_text_is_empty() {
    assert_eq!(encode(&Vec::new()), Some(Vec::<u8>::new()));
}

#[test]
fn encode_quotes_where_the_format_needs_it() {
    assert_eq!(encode(&owned(&["a,b"])), Some(b"\"a,b\"\n".to_vec()));
    assert_eq!(encode(&owned(&["say \"hi\""])), Some(b"\"say \"\"hi\"\"\"\n".to_vec()));
    assert_eq!(encode(&owned(&["two\nlines"])), Some(b"\"two\nlines\"\n".to_vec()));
    assert_eq!(encode(&owned(&[""])), Some(b"\"\"\n".to_vec()));
}

#[test]
fn encode_writes_text_outside_ascii_as_utf8() {
    assert_eq!(encode(&owned(&["caf\u{e9}"])), Some("caf\u{e9}\n".as_bytes().to_vec()));
}

#[test]
fn decode_reads_one_text_for_each_line() {
    assert_eq!(decode(b"a\nb\n"), owned(&["a", "b"]));
    assert_eq!(decode(b"a\nb"), owned(&["a", "b"]));
    assert_eq!(decode(b"a\r\nb\r\n"), owned(&["a", "b"]));
}

#[test]
fn decode_of_nothing_is_empty() {
    assert_eq!(decode(b""), Vec::<String>::new());
    assert_eq!(decode(b"\n\n"), Vec::<String>::new());
}

#[test]
fn decode_reads_the_first_line_as_a_text() {
    assert_eq!(decode(b"header\nvalue\n"), owned(&["header", "value"]));
}

#[test]
fn decode_takes_the_first_field_of_each_record() {
    assert_eq!(decode(b"a,b\nc,d\n"), owned(&["a", "c"]));
}

#[test]
fn decode_passes_over_records_of_another_length() {
    assert_eq!(decode(b"a,b\nc\nd,e\n"), owned(&["a", "d"]));
    assert_eq!(decode(b"a\nb,c\nd\n"), owned(&["a", "d"]));
}

#[test]
fn decode_passes_over_records_that_are_not_utf8() {
    assert_eq!(decode(b"a\n\xff\nb\n"), owned(&["a", "b"]));
}

#[test]
fn decode_undoes_the_quoting() {
    assert_eq!(decode(b"\"a,b\"\n\"say \"\"hi\"\"\"\n\"\"\n"), owned(&["a,b", "say \"hi\"", ""]));
}

#[test]
fn decode_keeps_whitespace_around_a_text() {
    assert_eq!(decode(b" a \n"), owned(&[" a "]));
}

#[test]
fn decode_gives_back_what_encode_was_given() {
    let lists = [
        owned(&[]),
        owned(&["a"]),
        owned(&["Buy milk", "Call home", "Buy milk"]),
        owned(&["a b", "caf\u{e9}", "x;y", "#1"]),
        owned(&["a,b", "say \"hi\"", "two\nlines", " padded "]),
    ];
    for texts in lists {
        let bytes = encode(&texts).expect("every text has a record");
        assert_eq!(decode(&bytes), texts);
    }
}

#[test]
fn join_lines_puts_the_lines_together() {
    let lines = vec![Some(b"a\n".to_vec()), Some(Vec::new()), Some(b"bc\n".to_vec())];
    assert_eq!(join_lines(&lines), Some(b"a\nbc\n".to_vec()));
    assert_eq!(join_lines(&Vec::new()), Some(Vec::new()));
}

#[test]
fn join_lines_gives_nothing_where_a_line_is_missing() {
    let lines = vec![Some(b"a\n".to_vec()), None, Some(b"b\n".to_vec())];
    assert_eq!(join_lines(&lines), None);
    assert_eq!(join_lines(&vec![None, Some(b"b\n".to_vec())]), None);
    assert_eq!(join_lines(&vec![Some(b"a\n".to_vec()), None]), None);
    assert_eq!(join_lines(&vec![None]), None);
}

#[test]
fn texts_from_records_takes_the_first_fields() {
    let records = vec![Some(owned(&["a", "b"])), Some(owned(&["c"]))];
    assert_eq!(texts_from_records(&records), owned(&["a", "c"]));
}

#[test]
fn texts_from_records_passes_over_rejected_records() {
    let records = vec![None, Some(owned(&["a"])), None, None, Some(owned(&["b"]))];
    assert_eq!(texts_from_records(&records), owned(&["a", "b"]));
    assert_eq!(texts_from_records(&vec![None]), Vec::<String>::new());
}

#[test]
fn texts_from_records_puts_the_placeholder_for_a_record_without_fields() {
    let records = vec![Some(owned(&["a"])), Some(Vec::new())];
    assert_eq!(texts_from_records(&records), owned(&["a", "ERROR"]));
}
