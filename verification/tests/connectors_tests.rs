use plumb::connectors::{
    csv_connector_type, get_available_connector_types, is_connector_available,
    websocket_connector_type,
};

#[test]
fn connector_type_identifiers() {
    assert_eq!(csv_connector_type(), "csv");
    assert_eq!(websocket_connector_type(), "websocket");
}

#[test]
fn available_types_listed_once_each() {
    assert_eq!(get_available_connector_types(), vec!["csv", "websocket"]);
}

#[test]
fn availability_of_registered_types() {
    assert!(is_connector_available("csv"));
    assert!(is_connector_available("websocket"));
}

#[test]
fn availability_of_unknown_types() {
    assert!(!is_connector_available("kafka"));
    assert!(!is_connector_available(""));
    assert!(!is_connector_available("CSV"));
    assert!(!is_connector_available("csv "));
    assert!(!is_connector_available("websocke"));
}

#[test]
fn availability_matches_listing() {
    let listed = get_available_connector_types();
    for t in ["csv", "websocket", "kafka", "http", "Csv"] {
        assert_eq!(is_connector_available(t), listed.contains(&t));
    }
}
