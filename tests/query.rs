use arduinors::cli::{query_from_board_entry, query_from_board_list, Error, Query};

const DEVICE_LIST_HEADER: &'static str = "FQBN\tPort\tID\tBoard Name";
const SOME_QUERY_ITEM: &'static str = "Query::Item/1'\\\"_";
const SOME_QUERY: Query = Query::Fqbn;

#[test]
fn query_no_devices() {
    let no_device_list = format!("{}\n", DEVICE_LIST_HEADER);

    let result = query_from_board_list(SOME_QUERY, &no_device_list);
    let err = result.unwrap_err();

    assert_eq!(err, Error::NoDevice);
}

#[test]
fn query_multiple_devices() {
    let multi_device_list = format!("{}\n1\t2\t3\t4\nA\tB\tC\tD\n", DEVICE_LIST_HEADER);

    let result = query_from_board_list(SOME_QUERY, &multi_device_list);
    let err = result.unwrap_err();

    assert_eq!(err, Error::MultipleDevices);
}

#[test]
fn unexpected_syntax() {
    const INVALID_ENTRY: &'static str = "1\t2\t3\t4\t5\n";

    let result = query_from_board_entry(SOME_QUERY, INVALID_ENTRY);
    let err = result.unwrap_err();

    assert_eq!(err, Error::UnexpectedSyntax);
}

#[test]
fn valid_list() {
    let valid_list = format!("{}\n\t\n1\t2\t3\t4\n\t\n", DEVICE_LIST_HEADER);

    let result = query_from_board_list(SOME_QUERY, &valid_list);

    assert!(result.is_ok());
}

#[test]
fn valid_fqbn_query() {
    let board_list = format!("{}\n{}\t2\t3\t4\n\t\n", DEVICE_LIST_HEADER, SOME_QUERY_ITEM);
    let query = Query::Fqbn;

    let result = query_from_board_list(query, &board_list);
    let query_item = result.unwrap();

    assert_eq!(query_item, SOME_QUERY_ITEM);
}

#[test]
fn valid_port_query() {
    let board_list = format!("{}\n1\t{}\t3\t4\n\t\n", DEVICE_LIST_HEADER, SOME_QUERY_ITEM);
    let query = Query::Port;

    let result = query_from_board_list(query, &board_list);
    let query_item = result.unwrap();

    assert_eq!(query_item, SOME_QUERY_ITEM);
}

#[test]
fn header_only_without_line_end() {
    assert_eq!(query_from_board_list(Query::Port, DEVICE_LIST_HEADER), Err(Error::NoDevice));
}

#[test]
fn empty_listing() {
    assert_eq!(query_from_board_list(Query::Port, ""), Err(Error::NoDevice));
}

#[test]
fn blank_rows_are_not_devices() {
    let list = format!("{}\n \n\t\t\n\u{a0}\u{3000}\n", DEVICE_LIST_HEADER);

    assert_eq!(query_from_board_list(Query::Port, &list), Err(Error::NoDevice));
}

#[test]
fn row_with_five_fields() {
    let list = format!("{}\n1\t2\t3\t4\t5\n", DEVICE_LIST_HEADER);

    assert_eq!(query_from_board_list(Query::Fqbn, &list), Err(Error::UnexpectedSyntax));
}

#[test]
fn row_with_three_fields() {
    let list = format!("{}\n1\t2\t3\n", DEVICE_LIST_HEADER);

    assert_eq!(query_from_board_list(Query::Fqbn, &list), Err(Error::UnexpectedSyntax));
}

#[test]
fn row_with_empty_fqbn() {
    let list = format!("{}\n\t/dev/ttyACM0\t0x2341:0x0043\tUnknown\n", DEVICE_LIST_HEADER);

    assert_eq!(query_from_board_list(Query::Port, &list), Err(Error::MissingCore));
}

#[test]
fn row_with_blank_fqbn() {
    assert_eq!(query_from_board_entry(Query::Id, "  \t2\t3\t4"), Err(Error::MissingCore));
}

#[test]
fn every_column_can_be_queried() {
    let list = format!("{}\narduino:avr:uno\t/dev/ttyACM0\t0x2341:0x0043\tArduino Uno\n", DEVICE_LIST_HEADER);

    assert_eq!(query_from_board_list(Query::Fqbn, &list).unwrap(), "arduino:avr:uno");
    assert_eq!(query_from_board_list(Query::Port, &list).unwrap(), "/dev/ttyACM0");
    assert_eq!(query_from_board_list(Query::Id, &list).unwrap(), "0x2341:0x0043");
    assert_eq!(query_from_board_list(Query::BoardName, &list).unwrap(), "Arduino Uno");
}

#[test]
fn carriage_returns_end_lines() {
    let list = format!("{}\r\n\r\n1\t2\t3\tUno\r\n", DEVICE_LIST_HEADER);

    assert_eq!(query_from_board_list(Query::BoardName, &list).unwrap(), "Uno");
}

#[test]
fn spaces_stay_inside_fields() {
    assert_eq!(query_from_board_entry(Query::BoardName, "a b\tc\td\te f").unwrap(), "e f");
    assert_eq!(query_from_board_entry(Query::Fqbn, "a b c d"), Err(Error::UnexpectedSyntax));
}
