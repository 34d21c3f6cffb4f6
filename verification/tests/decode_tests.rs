use simdb::datatype::SqlDataType;
use simdb::decode::{decode_class, format_fixed2, render_row, CellValue, DecodeClass};

#[test]
fn fixed_two_decimals() {
    assert_eq!(format_fixed2(350), "3.50");
    assert_eq!(format_fixed2(0), "0.00");
    assert_eq!(format_fixed2(12), "0.12");
    assert_eq!(format_fixed2(5), "0.05");
    assert_eq!(format_fixed2(100), "1.00");
    assert_eq!(format_fixed2(-350), "-3.50");
    assert_eq!(format_fixed2(-7), "-0.07");
    assert_eq!(format_fixed2(123456), "1234.56");
    assert_eq!(format_fixed2(i64::MIN), "-92233720368547758.08");
    assert_eq!(format_fixed2(i64::MAX), "92233720368547758.07");
}

#[test]
fn classify_type_tags() {
    assert!(SqlDataType::Varchar.is_text_like());
    assert!(SqlDataType::WChar.is_text_like());
    assert!(!SqlDataType::WLongVarchar.is_text_like());
    assert!(SqlDataType::Double.is_numeric());
    assert!(SqlDataType::TinyInt.is_numeric());
    assert!(!SqlDataType::Bit.is_numeric());
    assert!(SqlDataType::Date.is_date_time());
    assert!(SqlDataType::Timestamp.is_date_time());
    assert!(!SqlDataType::Time.is_date_time());
    assert!(SqlDataType::Time.is_time());
    assert!(SqlDataType::Varbinary.is_binary());
    assert!(!SqlDataType::Varchar.is_binary());
}

#[test]
fn decode_dispatch() {
    assert_eq!(decode_class(&SqlDataType::Varchar), DecodeClass::TextClass);
    assert_eq!(decode_class(&SqlDataType::Char), DecodeClass::TextClass);
    assert_eq!(decode_class(&SqlDataType::Double), DecodeClass::NumberClass);
    assert_eq!(decode_class(&SqlDataType::Numeric), DecodeClass::NumberClass);
    assert_eq!(decode_class(&SqlDataType::Date), DecodeClass::DateClass);
    assert_eq!(decode_class(&SqlDataType::Timestamp), DecodeClass::TimestampClass);
    assert_eq!(decode_class(&SqlDataType::Time), DecodeClass::TimeClass);
    // Everything outside the known classes falls back to a text reading.
    assert_eq!(decode_class(&SqlDataType::Binary), DecodeClass::FallbackClass);
    assert_eq!(decode_class(&SqlDataType::Bit), DecodeClass::FallbackClass);
    assert_eq!(decode_class(&SqlDataType::Unknown), DecodeClass::FallbackClass);
    assert_eq!(decode_class(&SqlDataType::Other), DecodeClass::FallbackClass);
}

#[test]
fn render_cells() {
    assert_eq!(CellValue::Null.render(), "NULL");
    assert_eq!(CellValue::Text("A".to_string()).render(), "A");
    assert_eq!(CellValue::Number { hundredths: 350 }.render(), "3.50");
    assert_eq!(CellValue::Date { year: 2024, month: 1, day: 5 }.render(), "2024.1.5");
    assert_eq!(CellValue::Time { hour: 9, minute: 5, second: 7 }.render(), "9:5:7");
    assert_eq!(
        CellValue::Timestamp { year: 2024, month: 1, day: 5, hour: 9, minute: 5, second: 7 }
            .render(),
        "2024.1.5 9:5:7"
    );
}

#[test]
fn insert_then_query_renders_row() {
    // The round-trip scenario's decode half: a row inserted as
    // {SimTime: 1.0, Variant: "A", X: 3.5} and queried as [Variant,
    // SimTime, X] decodes X as 3.50 and Variant as the literal A.
    let x: f64 = 3.5;
    let sim_time: f64 = 1.0;
    let cells = vec![
        CellValue::Text("A".to_string()),
        CellValue::Number { hundredths: (sim_time * 100.0) as i64 },
        CellValue::Number { hundredths: (x * 100.0) as i64 },
    ];
    assert_eq!(cells[2].render(), "3.50");
    assert_eq!(cells[0].render(), "A");
    assert_eq!(render_row(&cells), "A,\t1.00,\t3.50,\t");
}

#[test]
fn render_row_marks_nulls() {
    let cells = vec![CellValue::Null, CellValue::Text("x".to_string())];
    assert_eq!(render_row(&cells), "NULL,\tx,\t");
    assert_eq!(render_row(&Vec::new()), "");
}
