use guntamatic::api::{
    parset_url, set_additional_hot_water_reload_url, set_boiler_mode_url,
    set_control_program_url, set_heating_circuit_program_url, set_hot_water_reload_url,
    value_query, BoilerMode, Context, ControlProgram, HeatingProgram, Synonym, Value,
};

fn ctx() -> Context {
    Context { addr: "10.0.0.2".to_string(), key: "K3Y".to_string() }
}

#[test]
fn synonyms_as_text() {
    assert_eq!(Synonym::BoilerMode.to_text(), "PK002");
    assert_eq!(Synonym::ControlProgram.to_text(), "PR001");
    assert_eq!(Synonym::HeatingProgram { heating_circuit_id: 2 }.to_text(), "HK201");
    assert_eq!(Synonym::HeatingProgram { heating_circuit_id: 8 }.to_text(), "HK801");
    assert_eq!(Synonym::HotWaterReload { heating_circuit_id: 0 }.to_text(), "BK006");
    assert_eq!(Synonym::AdditionalHotWaterReload { heating_circuit_id: 1 }.to_text(), "ZK106");
}

#[test]
fn codes() {
    assert_eq!(BoilerMode::Auto.code(), 0);
    assert_eq!(BoilerMode::On.code(), 2);
    assert_eq!(ControlProgram::Manual.code(), 3);
    assert_eq!(HeatingProgram::Reduce.code(), 3);
    assert_eq!(Value::new(5u8).value, 5);
}

#[test]
fn parset_urls() {
    assert_eq!(
        parset_url(&ctx(), Synonym::BoilerMode, Value::new(1)),
        "http://10.0.0.2/ext/parset.cgi?key=K3Y&syn=PK002&value=1"
    );
    assert_eq!(
        set_boiler_mode_url(&ctx(), BoilerMode::On),
        "http://10.0.0.2/ext/parset.cgi?key=K3Y&syn=PK002&value=2"
    );
    assert_eq!(
        set_control_program_url(&ctx(), ControlProgram::HotWater),
        "http://10.0.0.2/ext/parset.cgi?key=K3Y&syn=PR001&value=2"
    );
    assert_eq!(
        set_heating_circuit_program_url(&ctx(), 7, HeatingProgram::Heat),
        "http://10.0.0.2/ext/parset.cgi?key=K3Y&syn=HK701&value=2"
    );
    assert_eq!(
        set_hot_water_reload_url(&ctx(), 1),
        "http://10.0.0.2/ext/parset.cgi?key=K3Y&syn=BK106&value=1"
    );
    assert_eq!(
        set_additional_hot_water_reload_url(&ctx(), 2),
        "http://10.0.0.2/ext/parset.cgi?key=K3Y&syn=ZK206&value=1"
    );
}

#[test]
fn value_queries() {
    assert_eq!(value_query(0), "value=0");
    assert_eq!(value_query(3), "value=3");
    assert_eq!(value_query(255), "value=255");
}
