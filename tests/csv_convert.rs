use rstool::csv_convert::record_fields;

fn strings(v: &[&str]) -> Vec<String> {
    v.iter().map(|s| s.to_string()).collect()
}

#[test]
fn fields_pair_with_headers() {
    let h = strings(&["Name", "Position", "Kit Number"]);
    let r = strings(&["Alice", "Forward", "9"]);
    assert_eq!(
        record_fields(&h, &r),
        vec![
            ("Name".to_string(), "Alice".to_string()),
            ("Position".to_string(), "Forward".to_string()),
            ("Kit Number".to_string(), "9".to_string()),
        ]
    );
}

#[test]
fn unpaired_fields_are_left_out() {
    let h = strings(&["a", "b"]);
    assert_eq!(record_fields(&h, &strings(&["1"])), vec![("a".to_string(), "1".to_string())]);
    assert_eq!(record_fields(&h, &strings(&["1", "2", "3"])).len(), 2);
    assert!(record_fields(&strings(&[]), &strings(&["x"])).is_empty());
}
