use cvmfs_server_scraper::dates::UtcDateTime;
use cvmfs_server_scraper::errors::ManifestError;
use cvmfs_server_scraper::utilities::{
    parse_boolean_field, parse_hex_field, parse_number_field, parse_timestamp_field,
    timestamp_or_invalid, ManifestFields,
};

fn fields_with(key: char, value: &str) -> ManifestFields {
    let mut data = ManifestFields::new();
    data.insert(key, value.to_string());
    data
}

#[test]
fn test_parse_boolean_field_yes() {
    assert_eq!(parse_boolean_field(&fields_with('A', "yes"), 'A').unwrap(), true);
}

#[test]
fn test_parse_boolean_field_upper_and_mixed_case() {
    assert_eq!(parse_boolean_field(&fields_with('A', "YES"), 'A').unwrap(), true);
    assert_eq!(parse_boolean_field(&fields_with('A', "Yes"), 'A').unwrap(), true);
    assert_eq!(parse_boolean_field(&fields_with('A', "yEs"), 'A').unwrap(), true);
}

#[test]
fn test_parse_boolean_field_no() {
    assert_eq!(parse_boolean_field(&fields_with('A', "no"), 'A').unwrap(), false);
}

#[test]
fn test_parse_boolean_field_empty() {
    assert_eq!(parse_boolean_field(&fields_with('A', ""), 'A').unwrap(), false);
}

#[test]
fn test_parse_boolean_field_not_yes_no() {
    assert_eq!(parse_boolean_field(&fields_with('A', "invalid"), 'A').unwrap(), false);
    assert_eq!(parse_boolean_field(&fields_with('A', "true"), 'A').unwrap(), false);
    assert_eq!(parse_boolean_field(&fields_with('A', "yes "), 'A').unwrap(), false);
    assert_eq!(parse_boolean_field(&fields_with('A', "ye"), 'A').unwrap(), false);
}

#[test]
fn test_parse_boolean_field_absent() {
    assert_eq!(
        parse_boolean_field(&fields_with('A', "yes"), 'G'),
        Err(ManifestError::MissingField('G'))
    );
    assert_eq!(
        parse_boolean_field(&fields_with('A', "yes"), 'a'),
        Err(ManifestError::MissingField('a'))
    );
}

#[test]
fn test_parse_valid_hex_field_chars() {
    assert_eq!(parse_hex_field(&fields_with('R', "aabbcc"), 'R').unwrap().to_string(), "aabbcc");
}

#[test]
fn test_parse_valid_hex_field_uppercasechars() {
    assert_eq!(parse_hex_field(&fields_with('R', "AABBCC"), 'R').unwrap().to_string(), "aabbcc");
}

#[test]
fn test_parse_valid_hex_field_numbers() {
    assert_eq!(parse_hex_field(&fields_with('R', "123456"), 'R').unwrap().to_string(), "123456");
}

#[test]
fn test_parse_valid_hex_field_all() {
    assert_eq!(
        parse_hex_field(&fields_with('R', "1234567890abcdef"), 'R').unwrap().to_string(),
        "1234567890abcdef"
    );
}

#[test]
fn test_parse_valid_hex_field_empty() {
    assert_eq!(parse_hex_field(&fields_with('R', ""), 'R').unwrap().to_string(), "");
}

#[test]
fn test_parse_invalid_hex_field_odd() {
    assert_eq!(
        parse_hex_field(&fields_with('R', "B"), 'R'),
        Err(ManifestError::ParseError('R', "Invalid hex string: B".to_string()))
    );
}

#[test]
fn test_parse_invalid_hex_field_invalid() {
    assert_eq!(
        parse_hex_field(&fields_with('R', "invalid"), 'R'),
        Err(ManifestError::ParseError('R', "Invalid hex string: invalid".to_string()))
    );
}

#[test]
fn test_parse_hex_field_absent() {
    assert_eq!(
        parse_hex_field(&fields_with('R', "aa"), 'C'),
        Err(ManifestError::MissingField('C'))
    );
}

#[test]
fn test_parse_number_field() {
    assert_eq!(parse_number_field::<i64>(&fields_with('B', "1024"), 'B'), Ok(1024));
    assert_eq!(parse_number_field::<i64>(&fields_with('B', "-1024"), 'B'), Ok(-1024));
    assert_eq!(parse_number_field::<i64>(&fields_with('B', "+7"), 'B'), Ok(7));
    assert_eq!(parse_number_field::<i64>(&fields_with('B', "0007"), 'B'), Ok(7));
    assert_eq!(parse_number_field::<i32>(&fields_with('D', "240"), 'D'), Ok(240));
    assert_eq!(
        parse_number_field::<i64>(&fields_with('B', "9223372036854775807"), 'B'),
        Ok(i64::MAX)
    );
    assert_eq!(
        parse_number_field::<i64>(&fields_with('B', "-9223372036854775808"), 'B'),
        Ok(i64::MIN)
    );
    assert_eq!(parse_number_field::<i32>(&fields_with('D', "2147483647"), 'D'), Ok(i32::MAX));
    assert_eq!(parse_number_field::<i32>(&fields_with('D', "-2147483648"), 'D'), Ok(i32::MIN));
}

#[test]
fn test_parse_number_field_failures() {
    assert_eq!(
        parse_number_field::<i64>(&fields_with('B', "10"), 'T'),
        Err(ManifestError::MissingField('T'))
    );
    assert_eq!(
        parse_number_field::<i64>(&fields_with('B', ""), 'B'),
        Err(ManifestError::ParseError('B', "cannot parse integer from empty string".to_string()))
    );
    assert_eq!(
        parse_number_field::<i64>(&fields_with('B', "12a"), 'B'),
        Err(ManifestError::ParseError('B', "invalid digit found in string".to_string()))
    );
    assert_eq!(
        parse_number_field::<i64>(&fields_with('B', "-"), 'B'),
        Err(ManifestError::ParseError('B', "invalid digit found in string".to_string()))
    );
    assert_eq!(
        parse_number_field::<i64>(&fields_with('B', "9223372036854775808"), 'B'),
        Err(ManifestError::ParseError('B', "number too large to fit in target type".to_string()))
    );
    assert_eq!(
        parse_number_field::<i64>(&fields_with('B', "-9223372036854775809"), 'B'),
        Err(ManifestError::ParseError('B', "number too small to fit in target type".to_string()))
    );
    assert_eq!(
        parse_number_field::<i32>(&fields_with('D', "2147483648"), 'D'),
        Err(ManifestError::ParseError('D', "number too large to fit in target type".to_string()))
    );
    assert_eq!(
        parse_number_field::<i32>(&fields_with('D', "-2147483649"), 'D'),
        Err(ManifestError::ParseError('D', "number too small to fit in target type".to_string()))
    );
}

#[test]
fn test_parse_number_field_agrees_with_std() {
    let texts = [
        "", "+", "-", "0", "-0", "+0", "1", "-1", "12345", "1 ", " 1", "1_000", "٣", "--1", "+-1",
        "2147483647", "2147483648", "-2147483648", "-2147483649", "99999999999", "-99999999999",
        "99999999999x", "x99999999999", "9223372036854775807", "9223372036854775808",
        "-9223372036854775808", "-9223372036854775809", "92233720368547758070",
        "9223372036854775807x", "00000000000000000000000000001",
    ];
    for text in texts {
        let wide = text.parse::<i64>().map_err(|e| ManifestError::ParseError('B', e.to_string()));
        assert_eq!(parse_number_field::<i64>(&fields_with('B', text), 'B'), wide, "{:?}", text);
        let narrow = text.parse::<i32>().map_err(|e| ManifestError::ParseError('D', e.to_string()));
        assert_eq!(parse_number_field::<i32>(&fields_with('D', text), 'D'), narrow, "{:?}", text);
    }
}

#[test]
fn test_parse_timestamp_field() {
    assert_eq!(
        parse_timestamp_field(&fields_with('T', "1718717104"), 'T'),
        Ok(UtcDateTime { secs: 1718717104, nanos: 0 })
    );
    assert_eq!(
        parse_timestamp_field(&fields_with('T', "-1"), 'T'),
        Ok(UtcDateTime { secs: -1, nanos: 0 })
    );
    assert_eq!(
        parse_timestamp_field(&fields_with('T', "x"), 'T'),
        Err(ManifestError::ParseError('T', "invalid digit found in string".to_string()))
    );
    assert_eq!(
        parse_timestamp_field(&fields_with('T', "9223372036854775807"), 'T'),
        Err(ManifestError::ParseError('T', "Invalid timestamp".to_string()))
    );
    assert_eq!(
        parse_timestamp_field(&fields_with('B', "1"), 'T'),
        Err(ManifestError::MissingField('T'))
    );
}

#[test]
fn test_manifest_fields_last_value_wins() {
    let mut data = ManifestFields::new();
    assert!(data.get('N').is_none());
    data.insert('N', "one".to_string());
    data.insert('n', "lower".to_string());
    data.insert('N', "two".to_string());
    assert_eq!(data.get('N'), Some(&"two".to_string()));
    assert_eq!(data.get('n'), Some(&"lower".to_string()));
    assert_eq!(data.get('M'), None);
}

#[test]
fn test_timestamp_or_invalid() {
    assert_eq!(
        timestamp_or_invalid('T', Some(UtcDateTime { secs: 3, nanos: 0 })),
        Ok(UtcDateTime { secs: 3, nanos: 0 })
    );
    assert_eq!(
        timestamp_or_invalid('T', None),
        Err(ManifestError::ParseError('T', "Invalid timestamp".to_string()))
    );
}
