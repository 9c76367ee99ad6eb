use guntamatic::daq::{DaqData, DaqDescription, DaqValue, DataType, JsonNumber, JsonValue, Unit};
use guntamatic::points::{
    daq_data_to_points, dash_white_space, field_value, measurement_name, FieldValue,
    MeasurementPoint,
};

#[test]
fn measurement_names_are_lowercase_and_dashed() {
    assert_eq!(measurement_name(3, "Kesseltemperatur"), "3_kesseltemperatur");
    assert_eq!(measurement_name(10, "Puffer T5"), "10_puffer-t5");
    assert_eq!(measurement_name(0, "A  \t B\n"), "0_a-b-");
    assert_eq!(measurement_name(4294967295, "X"), "4294967295_x");
}

#[test]
fn white_space_runs_become_one_dash() {
    assert_eq!(dash_white_space("a b"), "a-b");
    assert_eq!(dash_white_space("  a \u{3000}\u{a0} b  "), "-a-b-");
    assert_eq!(dash_white_space("ab"), "ab");
    assert_eq!(dash_white_space(""), "");
}

#[test]
fn field_values_follow_the_type() {
    assert_eq!(field_value(DataType::Boolean, &JsonValue::Bool(true)), FieldValue::Bool(true));
    assert_eq!(field_value(DataType::Boolean, &JsonValue::Null), FieldValue::Bool(false));
    assert_eq!(
        field_value(DataType::Integer, &JsonValue::Number(JsonNumber::NegInt(-3))),
        FieldValue::Int(-3)
    );
    assert_eq!(field_value(DataType::Integer, &JsonValue::String("5".into())), FieldValue::Int(0));
    assert_eq!(
        field_value(DataType::Float, &JsonValue::Number(JsonNumber::Float(2.5f64.to_bits()))),
        FieldValue::Float(JsonNumber::Float(2.5f64.to_bits()))
    );
    assert_eq!(
        field_value(DataType::Float, &JsonValue::Bool(true)),
        FieldValue::Float(JsonNumber::PosInt(0))
    );
    assert_eq!(
        field_value(DataType::String, &JsonValue::String("on".into())),
        FieldValue::Str("on".into())
    );
    assert_eq!(field_value(DataType::String, &JsonValue::Null), FieldValue::Str(String::new()));
}

#[test]
fn one_point_per_value() {
    let data = DaqData {
        values: vec![
            DaqValue {
                value: JsonValue::Number(JsonNumber::Float(61.5f64.to_bits())),
                description: DaqDescription {
                    id: 3,
                    name: "Kesseltemperatur".into(),
                    typ: DataType::Float,
                    unit: Some(Unit::DegreeCelsius),
                },
            },
            DaqValue {
                value: JsonValue::String("Heizen".into()),
                description: DaqDescription {
                    id: 12,
                    name: "Betrieb Kessel".into(),
                    typ: DataType::String,
                    unit: None,
                },
            },
        ],
    };
    assert_eq!(
        daq_data_to_points(data),
        vec![
            MeasurementPoint {
                measurement: "3_kesseltemperatur".into(),
                field: "value".into(),
                value: FieldValue::Float(JsonNumber::Float(61.5f64.to_bits())),
            },
            MeasurementPoint {
                measurement: "12_betrieb-kessel".into(),
                field: "value".into(),
                value: FieldValue::Str("Heizen".into()),
            },
        ]
    );
    assert!(daq_data_to_points(DaqData { values: vec![] }).is_empty());
}
