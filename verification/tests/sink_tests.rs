use modbus_logger::codec::SampleValue;
use modbus_logger::sink::{create_table_statement, insert_statement, quote_identifier, Sample};

#[test]
fn quote_identifier_wraps_a_plain_name() {
    assert_eq!(quote_identifier("PLC_2"), "\"PLC_2\"");
}

#[test]
fn quote_identifier_of_the_empty_name() {
    assert_eq!(quote_identifier(""), "\"\"");
}

#[test]
fn quote_identifier_doubles_quotes() {
    assert_eq!(quote_identifier("a\"b"), "\"a\"\"b\"");
    assert_eq!(quote_identifier("\""), "\"\"\"\"");
    assert_eq!(quote_identifier("\"\""), "\"\"\"\"\"\"");
}

#[test]
fn quote_identifier_keeps_reserved_words_and_odd_characters_as_one_name() {
    assert_eq!(quote_identifier("select"), "\"select\"");
    assert_eq!(quote_identifier("x; DROP TABLE y"), "\"x; DROP TABLE y\"");
    assert_eq!(quote_identifier("Kessel 3 – Süd"), "\"Kessel 3 – Süd\"");
}

#[test]
fn create_table_statement_names_the_five_columns() {
    assert_eq!(
        create_table_statement("PLC_2"),
        "CREATE TABLE IF NOT EXISTS \"PLC_2\" (id INTEGER PRIMARY KEY, timestamp INTEGER, \
         tag TEXT NOT NULL, description TEXT NOT NULL, value REAL)"
    );
}

#[test]
fn insert_statement_takes_four_parameters() {
    assert_eq!(
        insert_statement("PLC_2"),
        "INSERT INTO \"PLC_2\" (id, timestamp, tag, description, value) \
         VALUES (NULL, ?1, ?2, ?3, ?4)"
    );
}

#[test]
fn statements_escape_the_device_name() {
    assert_eq!(
        insert_statement("a\"b"),
        "INSERT INTO \"a\"\"b\" (id, timestamp, tag, description, value) \
         VALUES (NULL, ?1, ?2, ?3, ?4)"
    );
    assert!(create_table_statement("a\"b").starts_with("CREATE TABLE IF NOT EXISTS \"a\"\"b\" ("));
}

#[test]
fn sample_insert_statement_goes_to_its_device() {
    let sample = Sample {
        device_name: "Boiler".to_string(),
        tag_name: "TT-1".to_string(),
        tag_description: "Temperature".to_string(),
        timestamp: 1_700_000_000,
        value: SampleValue::Integer(7),
    };
    assert_eq!(sample.insert_statement(), insert_statement("Boiler"));
}
