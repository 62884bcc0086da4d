use px_tools::decimal::{parse_u32, zero_padded};
use px_tools::layout::{DicomInfo, InfoError, TagTexts};

fn texts(series_number: &str, instance_number: &str) -> TagTexts {
    TagTexts {
        patient_id: "ABC".to_string(),
        patient_name: "DOE^JANE".to_string(),
        patient_birth_date: "19700101".to_string(),
        study_description: "MRI BRAIN".to_string(),
        accession_number: "A1".to_string(),
        study_date: "20240101".to_string(),
        series_number: series_number.to_string(),
        series_description: "T1".to_string(),
        instance_number: instance_number.to_string(),
        sop_instance_uid: "1.2.9".to_string(),
    }
}

fn full_path(datadir: &str, info: &DicomInfo) -> String {
    let (dirs, file) = info.to_path_parts();
    let mut path = datadir.to_string();
    for d in dirs.iter().chain(std::iter::once(&file)) {
        path.push('/');
        path.push_str(d);
    }
    path
}

#[test]
fn canonical_path_of_example_instance() {
    let info = DicomInfo::from_tags(texts("7", "42")).unwrap();
    assert_eq!(info.series_number, 7);
    assert_eq!(info.instance_number, 42);
    let (dirs, file) = info.to_path_parts();
    assert_eq!(
        dirs,
        vec![
            "ABC-DOE^JANE-19700101".to_string(),
            "MRI BRAIN-A1-20240101".to_string(),
            "00007-T1".to_string()
        ]
    );
    assert_eq!(file, "0042-1.2.9.dcm");
    assert_eq!(
        full_path("/out", &info),
        "/out/ABC-DOE^JANE-19700101/MRI BRAIN-A1-20240101/00007-T1/0042-1.2.9.dcm"
    );
}

#[test]
fn path_is_the_same_on_every_run() {
    let a = DicomInfo::from_tags(texts("7", "42")).unwrap();
    let b = DicomInfo::from_tags(texts("7", "42")).unwrap();
    assert_eq!(a.to_path_parts(), b.to_path_parts());
    assert_eq!(a.to_path_parts(), a.to_path_parts());
}

#[test]
fn wide_numbers_are_not_truncated() {
    let info = DicomInfo::from_tags(texts("123456", "98765")).unwrap();
    let (dirs, file) = info.to_path_parts();
    assert_eq!(dirs[2], "123456-T1");
    assert_eq!(file, "98765-1.2.9.dcm");
}

#[test]
fn numbers_at_exact_width() {
    let info = DicomInfo::from_tags(texts("12345", "1234")).unwrap();
    let (dirs, file) = info.to_path_parts();
    assert_eq!(dirs[2], "12345-T1");
    assert_eq!(file, "1234-1.2.9.dcm");
}

#[test]
fn bad_series_number_is_rejected() {
    assert_eq!(
        DicomInfo::from_tags(texts("seven", "42")).err(),
        Some(InfoError::BadSeriesNumber)
    );
    assert_eq!(
        DicomInfo::from_tags(texts("", "x")).err(),
        Some(InfoError::BadSeriesNumber)
    );
}

#[test]
fn bad_instance_number_is_rejected() {
    assert_eq!(
        DicomInfo::from_tags(texts("7", "4294967296")).err(),
        Some(InfoError::BadInstanceNumber)
    );
    assert_eq!(
        DicomInfo::from_tags(texts("7", "-1")).err(),
        Some(InfoError::BadInstanceNumber)
    );
}

#[test]
fn zero_padding_widths() {
    assert_eq!(zero_padded(7, 5), "00007");
    assert_eq!(zero_padded(0, 4), "0000");
    assert_eq!(zero_padded(42, 4), "0042");
    assert_eq!(zero_padded(99999, 5), "99999");
    assert_eq!(zero_padded(100000, 5), "100000");
    assert_eq!(zero_padded(u32::MAX, 5), "4294967295");
    assert_eq!(zero_padded(5, 0), "5");
}

#[test]
fn parse_unsigned_text() {
    assert_eq!(parse_u32("7"), Some(7));
    assert_eq!(parse_u32("+7"), Some(7));
    assert_eq!(parse_u32("0042"), Some(42));
    assert_eq!(parse_u32("4294967295"), Some(u32::MAX));
    assert_eq!(parse_u32("4294967296"), None);
    assert_eq!(parse_u32("99999999999"), None);
    assert_eq!(parse_u32(""), None);
    assert_eq!(parse_u32("+"), None);
    assert_eq!(parse_u32("-1"), None);
    assert_eq!(parse_u32("7a"), None);
    assert_eq!(parse_u32(" 7"), None);
}
