use guntamatic::daq::{
    daq_data_url, daq_description_url, DaqData, DaqDescription, DaqDescriptionList, DaqValue,
    DataType, JsonNumber, JsonValue, RawData, Unit,
};

fn description_from_json(v: &serde_json::Value) -> DaqDescription {
    DaqDescription {
        id: v["id"].as_u64().unwrap() as u32,
        name: v["name"].as_str().unwrap().to_string(),
        typ: DataType::from_name(v["type"].as_str().unwrap()).unwrap(),
        unit: v["unit"].as_str().map(|s| Unit::from_symbol(s).unwrap()),
    }
}

fn json_from_serde(v: &serde_json::Value) -> JsonValue {
    match v {
        serde_json::Value::Null => JsonValue::Null,
        serde_json::Value::Bool(b) => JsonValue::Bool(*b),
        serde_json::Value::Number(n) => {
            if let Some(u) = n.as_u64() {
                JsonValue::Number(JsonNumber::PosInt(u))
            } else if let Some(i) = n.as_i64() {
                JsonValue::Number(JsonNumber::NegInt(i))
            } else {
                JsonValue::Number(JsonNumber::Float(n.as_f64().unwrap().to_bits()))
            }
        }
        serde_json::Value::String(s) => JsonValue::String(s.clone()),
        serde_json::Value::Array(a) => JsonValue::Array(a.iter().map(json_from_serde).collect()),
        serde_json::Value::Object(o) => JsonValue::Object(
            o.iter().map(|(k, v)| (k.clone(), json_from_serde(v))).collect(),
        ),
    }
}

#[test]
fn test_parse_description() {
    let s = r#"[
            {"id":3,"name":"Kesseltemperatur","type":"float","unit":"°C"},
            {"id":10,"name":"Puffer T5","type":"float","unit":"°C"}
        ]"#;
    let parsed: serde_json::Value = serde_json::from_str(s).unwrap();
    let desc = DaqDescriptionList {
        list: parsed.as_array().unwrap().iter().map(description_from_json).collect(),
    };
    assert_eq!(
        desc,
        DaqDescriptionList {
            list: vec![
                DaqDescription {
                    id: 3,
                    name: "Kesseltemperatur".to_string(),
                    typ: DataType::Float,
                    unit: Some(Unit::DegreeCelsius),
                },
                DaqDescription {
                    id: 10,
                    name: "Puffer T5".to_string(),
                    typ: DataType::Float,
                    unit: Some(Unit::DegreeCelsius),
                },
            ],
        }
    );
}

#[test]
fn test_parse_raw_data() {
    let s = r#"[
            1, 10.23, "hello world!", false
        ]"#;
    let parsed: serde_json::Value = serde_json::from_str(s).unwrap();
    let raw_data = RawData {
        data: parsed.as_array().unwrap().iter().map(json_from_serde).collect(),
    };
    assert_eq!(
        raw_data,
        RawData {
            data: vec![
                JsonValue::Number(JsonNumber::PosInt(1)),
                JsonValue::Number(JsonNumber::Float(10.23f64.to_bits())),
                JsonValue::String("hello world!".to_string()),
                JsonValue::Bool(false),
            ],
        }
    );
}

#[test]
fn data_type_names_are_read() {
    assert_eq!(DataType::from_name("float"), Ok(DataType::Float));
    assert_eq!(DataType::from_name("integer"), Ok(DataType::Integer));
    assert_eq!(DataType::from_name("boolean"), Ok(DataType::Boolean));
    assert_eq!(DataType::from_name("string"), Ok(DataType::String));
}

#[test]
fn unknown_data_type_is_an_error() {
    let e = DataType::from_name("Float").unwrap_err();
    assert_eq!(e.value, "Float");
    assert_eq!(e.expected, vec!["float", "integer", "boolean", "string"]);
    assert!(DataType::from_name("").is_err());
}

#[test]
fn unit_symbols_round_trip() {
    for u in [Unit::DegreeCelsius, Unit::Percent, Unit::Days, Unit::Hours, Unit::CubicMeter] {
        assert_eq!(Unit::from_symbol(&u.to_string()), Ok(u));
    }
    assert_eq!(Unit::DegreeCelsius.to_string(), "°C");
    assert_eq!(Unit::CubicMeter.to_string(), "m3");
    assert_eq!(Unit::from_symbol("%"), Ok(Unit::Percent));
}

#[test]
fn unknown_unit_is_an_error() {
    let e = Unit::from_symbol("C").unwrap_err();
    assert_eq!(e.value, "C");
    assert_eq!(e.expected, vec!["°C", "%", "d", "h", "m3"]);
}

#[test]
fn json_accessors() {
    assert_eq!(JsonValue::Bool(true).as_bool(), Some(true));
    assert_eq!(JsonValue::Null.as_bool(), None);
    assert_eq!(JsonValue::Number(JsonNumber::PosInt(7)).as_i64(), Some(7));
    assert_eq!(JsonValue::Number(JsonNumber::PosInt(u64::MAX)).as_i64(), None);
    assert_eq!(JsonValue::Number(JsonNumber::NegInt(-4)).as_i64(), Some(-4));
    assert_eq!(JsonValue::Number(JsonNumber::Float(1.5f64.to_bits())).as_i64(), None);
    assert_eq!(JsonValue::String("x".to_string()).as_str(), Some("x"));
    assert_eq!(JsonValue::Bool(false).as_str(), None);
    assert_eq!(
        JsonValue::Number(JsonNumber::NegInt(-4)).as_number(),
        Some(JsonNumber::NegInt(-4))
    );
}

fn desc(id: u32, name: &str) -> DaqDescription {
    DaqDescription { id, name: name.to_string(), typ: DataType::Integer, unit: None }
}

#[test]
fn descriptions_pair_with_values_in_order() {
    let d = DaqData::from_parts(
        DaqDescriptionList { list: vec![desc(1, "a"), desc(2, "b"), desc(3, "c")] },
        RawData { data: vec![JsonValue::Bool(true), JsonValue::Null] },
    );
    assert_eq!(
        d,
        DaqData {
            values: vec![
                DaqValue { value: JsonValue::Bool(true), description: desc(1, "a") },
                DaqValue { value: JsonValue::Null, description: desc(2, "b") },
            ],
        }
    );
    let e = DaqData::from_parts(
        DaqDescriptionList { list: vec![desc(1, "a")] },
        RawData { data: vec![JsonValue::Null, JsonValue::Bool(false)] },
    );
    assert_eq!(e.values.len(), 1);
    let f = DaqData::from_parts(DaqDescriptionList { list: vec![] }, RawData { data: vec![] });
    assert!(f.values.is_empty());
}

#[test]
fn daq_urls() {
    assert_eq!(
        daq_description_url("192.168.1.5", "SECRET"),
        "http://192.168.1.5/ext/daqdesc.cgi?key=SECRET"
    );
    assert_eq!(daq_data_url("heater", "k"), "http://heater/ext/daqdata.cgi?key=k");
}

#[test]
fn float_numbers_compare_as_floats() {
    let z = JsonNumber::Float(0.0f64.to_bits());
    let nz = JsonNumber::Float((-0.0f64).to_bits());
    assert_eq!(z, nz);
    assert_ne!(JsonNumber::Float(1.5f64.to_bits()), JsonNumber::Float(2.5f64.to_bits()));
    assert_ne!(JsonNumber::PosInt(0), z);
    assert_ne!(JsonNumber::Float(f64::NAN.to_bits()), JsonNumber::Float(f64::NAN.to_bits()));
    assert_eq!(JsonNumber::NegInt(-2), JsonNumber::NegInt(-2));
}

#[test]
fn json_values_clone_deeply() {
    let v = JsonValue::Object(vec![(
        "a".to_string(),
        JsonValue::Array(vec![JsonValue::Null, JsonValue::String("s".to_string())]),
    )]);
    assert_eq!(v.clone(), v);
    let d = DaqData {
        values: vec![DaqValue { value: JsonValue::Bool(true), description: desc(4, "x") }],
    };
    assert_eq!(d.clone(), d);
    let r = RawData { data: vec![JsonValue::Number(JsonNumber::NegInt(-1))] };
    assert_eq!(r.clone(), r);
}
