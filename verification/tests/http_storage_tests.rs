use bmos::http::{route, EchoRoute, HttpMethod};
use bmos::sensor::TestStruct;
use bmos::storage::{create_sensor_value_table, create_sensors_table, create_tables, create_types_and_units};

#[test]
fn echo_routes() {
    assert_eq!(route(HttpMethod::Get, "/"), EchoRoute::Index);
    assert_eq!(route(HttpMethod::Get, "/echo"), EchoRoute::Index);
    assert_eq!(route(HttpMethod::Post, "/echo"), EchoRoute::Echo);
    assert_eq!(route(HttpMethod::Post, "/"), EchoRoute::NotFound);
    assert_eq!(route(HttpMethod::Get, "/echo/"), EchoRoute::NotFound);
    assert_eq!(route(HttpMethod::Get, "/foo"), EchoRoute::NotFound);
    assert_eq!(route(HttpMethod::Other, "/echo"), EchoRoute::NotFound);
    assert_eq!(route(HttpMethod::Get, ""), EchoRoute::NotFound);
}

#[test]
fn schema_statements_in_order() {
    let tu = create_types_and_units();
    assert_eq!(tu.len(), 16);
    assert!(tu[0].starts_with("CREATE TABLE sensor_value_types"));
    assert!(tu[1].contains("'Temperature'"));
    assert!(tu[7].contains("'HeatFlow'"));
    assert!(tu[8].starts_with("CREATE TABLE sensor_value_units"));
    assert!(tu[15].contains("'kWh', 'Kilowatt Hours'"));
    let all = create_tables();
    assert_eq!(all.len(), 18);
    assert_eq!(&all[..16], &tu[..]);
    assert_eq!(all[16], create_sensors_table());
    assert_eq!(all[17], create_sensor_value_table());
    assert!(all[17].starts_with("CREATE TABLE sensor_values"));
}

#[test]
fn test_struct_holds_its_fields() {
    let t = TestStruct { test: 3, vec: vec!["a".to_string(), "b".to_string()] };
    let u = t.clone();
    assert_eq!(u.test, 3);
    assert_eq!(u.vec, vec!["a".to_string(), "b".to_string()]);
}

#[test]
fn schema_statement_text_is_kept() {
    assert_eq!(
        create_sensor_value_table(),
        "CREATE TABLE sensor_values (\n                    ts              TIMESTAMP NOT NULL PRIMARY KEY,\n                    sensor_id       INTEGER NOT NULL,\n                    value           REAL NOT NULL DEFAULT 'NaN',\n                    FOREIGN KEY     (sensor_id) REFERENCES sensors(id)\n                )"
    );
    assert_eq!(
        create_types_and_units()[1],
        "INSERT INTO sensor_value_types (name) VALUES ('Temperature')"
    );
}
