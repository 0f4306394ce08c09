use forzalife::text::{decimal_string, split_fields};

#[test]
fn fields_are_split_at_every_comma() {
    assert_eq!(split_fields("1,10.5,-3,200"), vec!["1", "10.5", "-3", "200"]);
    assert_eq!(split_fields(""), vec![""]);
    assert_eq!(split_fields(","), vec!["", ""]);
    assert_eq!(split_fields("a,,b,"), vec!["a", "", "b", ""]);
    assert_eq!(split_fields("Citroën,2CV"), vec!["Citroën", "2CV"]);
}

#[test]
fn split_fields_join_back_to_the_line() {
    for line in ["247,Toyota,2000GT,,,,1969,Japan,,,60", "x", ",,", "no commas here"] {
        assert_eq!(split_fields(line).join(","), line);
    }
}

#[test]
fn decimal_strings_have_no_leading_zeros() {
    assert_eq!(decimal_string(0), "0");
    assert_eq!(decimal_string(7), "7");
    assert_eq!(decimal_string(10), "10");
    assert_eq!(decimal_string(255), "255");
    assert_eq!(decimal_string(1_000_000), "1000000");
    assert_eq!(decimal_string(u64::MAX), "18446744073709551615");
}
