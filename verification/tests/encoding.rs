use drive_client::query::{push_query, QueryField, ScalarValue};
use drive_client::schema::{ChangesGetStartPageTokenParams, ChangesListParams, FilesGetParams};

fn encode(fields: &Vec<QueryField>) -> Vec<u8> {
    let mut out: Vec<u8> = Vec::new();
    push_query(&mut out, fields);
    out
}

#[test]
fn encoding_is_deterministic() {
    let make = || ChangesListParams {
        drive_id: Some("drive one".to_string()),
        include_removed: Some(true),
        page_size: Some(25),
        page_token: "tok/77".to_string(),
        spaces: Some("drive,appDataFolder".to_string()),
        ..Default::default()
    };
    let a = encode(&make().to_parameters().query);
    let b = encode(&make().to_parameters().query);
    assert_eq!(a, b);
}

#[test]
fn unset_fields_leave_no_trace() {
    let params = FilesGetParams {
        file_id: "f1".to_string(),
        supports_all_drives: Some(true),
        ..Default::default()
    };
    let out = encode(&params.to_parameters().query);
    let text = String::from_utf8(out).unwrap();
    assert_eq!(text, "&supportsAllDrives=true");
    assert!(!text.contains("acknowledgeAbuse"));
    assert!(!text.contains("includePermissionsForView"));
    assert!(!text.contains("supportsTeamDrives"));
}

#[test]
fn all_unset_encodes_to_nothing() {
    let out = encode(&FilesGetParams { file_id: "f1".to_string(), ..Default::default() }
        .to_parameters()
        .query);
    assert_eq!(out, Vec::<u8>::new());
}

#[test]
fn hostile_value_is_fully_escaped() {
    let fields = vec![QueryField {
        name: b"q".to_vec(),
        value: Some(ScalarValue::Text(b"a b&c=d?e/f".to_vec())),
    }];
    let out = encode(&fields);
    let text = String::from_utf8(out).unwrap();
    assert_eq!(text, "&q=a%20b%26c%3Dd%3Fe%2Ff");
    let value_part = &text[3..];
    assert!(!value_part.contains(' '));
    assert!(!value_part.contains('&'));
    assert!(!value_part.contains('='));
    assert!(!value_part.contains('?'));
    assert!(!value_part.contains('/'));
}

#[test]
fn escaping_matches_the_reference_encoder() {
    let samples: Vec<&[u8]> = vec![
        b"plain",
        b"a b&c=d?e/f",
        b"\x00\x01\xfe\xff",
        "smørrebrød".as_bytes(),
        b"AZaz09",
        b"%already%",
    ];
    for sample in samples {
        let fields = vec![QueryField {
            name: b"v".to_vec(),
            value: Some(ScalarValue::Text(sample.to_vec())),
        }];
        let mine = String::from_utf8(encode(&fields)).unwrap();
        let reference = format!(
            "&v={}",
            percent_encoding::percent_encode(sample, percent_encoding::NON_ALPHANUMERIC)
        );
        assert_eq!(mine, reference);
    }
}

#[test]
fn boolean_and_integer_values_use_canonical_text() {
    let fields = vec![
        QueryField { name: b"yes".to_vec(), value: Some(ScalarValue::Flag(true)) },
        QueryField { name: b"no".to_vec(), value: Some(ScalarValue::Flag(false)) },
        QueryField { name: b"n".to_vec(), value: Some(ScalarValue::Int(1024)) },
        QueryField { name: b"m".to_vec(), value: Some(ScalarValue::Int(-5)) },
        QueryField { name: b"z".to_vec(), value: Some(ScalarValue::Int(0)) },
        QueryField { name: b"min".to_vec(), value: Some(ScalarValue::Int(i64::MIN)) },
    ];
    let text = String::from_utf8(encode(&fields)).unwrap();
    assert_eq!(
        text,
        "&yes=true&no=false&n=1024&m=%2D5&z=0&min=%2D9223372036854775808"
    );
}

#[test]
fn required_field_is_always_appended() {
    let params = ChangesListParams { page_token: "".to_string(), ..Default::default() };
    let text = String::from_utf8(encode(&params.to_parameters().query)).unwrap();
    assert_eq!(text, "&pageToken=");
}

#[test]
fn optional_fields_keep_declared_order() {
    let params = ChangesListParams {
        drive_id: Some("d".to_string()),
        include_removed: Some(false),
        page_size: Some(3),
        page_token: "t".to_string(),
        team_drive_id: Some("td".to_string()),
        ..Default::default()
    };
    let text = String::from_utf8(encode(&params.to_parameters().query)).unwrap();
    assert_eq!(
        text,
        "&driveId=d&includeRemoved=false&pageSize=3&teamDriveId=td&pageToken=t"
    );
}

#[test]
fn start_page_token_conversion_keeps_declared_order() {
    let params = ChangesGetStartPageTokenParams {
        drive_id: Some("d/1".to_string()),
        supports_all_drives: Some(false),
        supports_team_drives: None,
        team_drive_id: Some("t".to_string()),
    };
    let text = String::from_utf8(encode(&params.to_parameters().query)).unwrap();
    assert_eq!(text, "&driveId=d%2F1&supportsAllDrives=false&teamDriveId=t");
}

#[test]
fn empty_value_still_appends_name_and_equals() {
    let fields = vec![QueryField {
        name: b"q".to_vec(),
        value: Some(ScalarValue::Text(Vec::new())),
    }];
    let text = String::from_utf8(encode(&fields)).unwrap();
    assert_eq!(text, "&q=");
}

#[test]
fn unicode_value_escapes_every_byte() {
    let fields = vec![QueryField {
        name: b"q".to_vec(),
        value: Some(ScalarValue::Text("ø".as_bytes().to_vec())),
    }];
    let text = String::from_utf8(encode(&fields)).unwrap();
    assert_eq!(text, "&q=%C3%B8");
}
