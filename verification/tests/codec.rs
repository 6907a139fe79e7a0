//! The mapping between entities and rows, on plain values.

use planner_store::client::{client_from_row, client_to_row, clients_from_rows, Client};
use planner_store::column::{
    flag_value, get_flag, get_list, get_opt_int, get_opt_real, get_opt_text, get_text,
    list_value, opt_int_value, opt_real_value, opt_text_value, text_value,
};
use planner_store::decimal::{decimal_text, signed_decimal_text};
use planner_store::error::{kind_text, RowError, StoreError};
use planner_store::list::{decode_list, encode_list, unwrap_list};
use planner_store::project::{project_from_row, project_to_row, projects_from_rows, Project};
use planner_store::schema::{INSERT_CLIENT, INSERT_PROJECT, INSERT_TASK};
use planner_store::task::{insert_task, task_from_row, task_to_row, tasks_from_rows, Task};
use planner_store::text::{decode_text, encode_text};
use planner_store::value::{Real, SqlValue, ValueKind};

fn text(s: &str) -> SqlValue {
    SqlValue::Text(s.as_bytes().to_vec())
}

fn strings(items: &[&str]) -> Vec<String> {
    items.iter().map(|s| s.to_string()).collect()
}

fn sample_task() -> Task {
    Task {
        id: "t-1".to_string(),
        project_id: Some("p-1".to_string()),
        client_id: None,
        title: "Write the report".to_string(),
        description: Some("Quarterly \"numbers\"\nand a path C:\\tmp".to_string()),
        status: "open".to_string(),
        due: None,
        priority: Some(3),
        effort: Some(Real::Double(2.5f64.to_bits())),
        impact: Some(-7),
        confidence: Some(Real::Double(0.8f64.to_bits())),
        is_next_step: true,
        tags: strings(&["alpha", "beta", "a,b", "quote\"d", "", "caf\u{e9} \u{1F600}"]),
        links: Vec::new(),
        created_at: "2024-03-01T10:00:00+00:00".to_string(),
        updated_at: "2024-03-01T10:00:00+00:00".to_string(),
        score: None,
    }
}

fn sample_client() -> Client {
    Client {
        id: "c-1".to_string(),
        name: "Acme".to_string(),
        tags: strings(&["vip"]),
        contacts: strings(&["ann@example.org", "bob@example.org"]),
        links: Vec::new(),
        next_step: Some("call".to_string()),
        next_step_due: None,
        created_at: "2024-03-01T10:00:00+00:00".to_string(),
        updated_at: "2024-03-01T10:00:00+00:00".to_string(),
    }
}

fn sample_project() -> Project {
    Project {
        id: "p-1".to_string(),
        client_id: None,
        kind: "internal".to_string(),
        project_type: Some("research".to_string()),
        status: None,
        title: "Survey".to_string(),
        description: None,
        tags: strings(&["x", "y"]),
        next_step: None,
        next_step_due: Some("2024-04-01T00:00:00+00:00".to_string()),
        created_at: "2024-03-01T10:00:00+00:00".to_string(),
        updated_at: "2024-03-01T10:00:00+00:00".to_string(),
    }
}

// ---- lists ---------------------------------------------------------------

#[test]
fn list_is_written_as_json_array() {
    assert_eq!(encode_list(&strings(&["a", "b"])), "[\"a\",\"b\"]");
    assert_eq!(encode_list(&Vec::new()), "[]");
    assert_eq!(encode_list(&strings(&["say \"hi\"", "a\\b", "line\nbreak"])),
        "[\"say \\\"hi\\\"\",\"a\\\\b\",\"line\\nbreak\"]");
}

#[test]
fn list_is_read_from_json_array() {
    assert_eq!(decode_list("[\"a\",\"b\"]"), strings(&["a", "b"]));
    assert_eq!(decode_list(" [ \"x\" ,\n\"\\u0041\" ] "), strings(&["x", "A"]));
    assert_eq!(decode_list("[]"), Vec::<String>::new());
}

#[test]
fn list_round_trips_in_order() {
    let cases: Vec<Vec<String>> = vec![
        Vec::new(),
        strings(&[""]),
        strings(&["one"]),
        strings(&["b", "a", "b", "a"]),
        strings(&["with,comma", "with]bracket", "with \"quote\"", "back\\slash"]),
        strings(&["tab\there", "nul\u{0}", "bell\u{7}", "\u{1f}", "\u{7f}"]),
        strings(&["gr\u{fc}n", "\u{65e5}\u{672c}", "\u{1F600}", "[\"nested\"]"]),
    ];
    for list in cases {
        assert_eq!(decode_list(&encode_list(&list)), list);
    }
}

#[test]
fn unreadable_list_text_reads_as_empty() {
    assert_eq!(decode_list(""), Vec::<String>::new());
    assert_eq!(decode_list("not json"), Vec::<String>::new());
    assert_eq!(decode_list("[\"unterminated"), Vec::<String>::new());
    assert_eq!(decode_list("[1, 2]"), Vec::<String>::new());
    assert_eq!(decode_list("{\"a\": \"b\"}"), Vec::<String>::new());
    assert_eq!(decode_list("\"just a string\""), Vec::<String>::new());
    assert_eq!(decode_list("[\"a\"] trailing"), Vec::<String>::new());
    assert_eq!(decode_list("null"), Vec::<String>::new());
}

#[test]
fn failed_parse_defaults_to_empty_list() {
    assert_eq!(unwrap_list(None), Vec::<String>::new());
    assert_eq!(unwrap_list(Some(strings(&["kept"]))), strings(&["kept"]));
    assert_eq!(unwrap_list(Some(Vec::new())), Vec::<String>::new());
}

// ---- text ----------------------------------------------------------------

#[test]
fn text_is_stored_as_utf8_bytes() {
    assert_eq!(encode_text("abc"), vec![0x61, 0x62, 0x63]);
    assert_eq!(encode_text("\u{e9}"), vec![0xc3, 0xa9]);
    assert_eq!(encode_text(""), Vec::<u8>::new());
}

#[test]
fn bytes_are_read_as_utf8_text() {
    assert_eq!(decode_text(&vec![0x61, 0x62, 0x63]), Some("abc".to_string()));
    assert_eq!(decode_text(&vec![0xc3, 0xa9]), Some("\u{e9}".to_string()));
    assert_eq!(decode_text(&Vec::new()), Some(String::new()));
}

#[test]
fn invalid_utf8_is_not_text() {
    assert_eq!(decode_text(&vec![0xff]), None);
    assert_eq!(decode_text(&vec![0xc3]), None);
    assert_eq!(decode_text(&vec![0x61, 0x80]), None);
    assert_eq!(decode_text(&vec![0xed, 0xa0, 0x80]), None);
}

// ---- single columns ------------------------------------------------------

#[test]
fn each_kind_of_field_has_its_stored_value() {
    assert_eq!(text_value(&"hi".to_string()), text("hi"));
    assert_eq!(opt_text_value(&Some("hi".to_string())), text("hi"));
    assert_eq!(opt_text_value(&None), SqlValue::Null);
    assert_eq!(opt_int_value(Some(-5)), SqlValue::Integer(-5));
    assert_eq!(opt_int_value(Some(i32::MAX)), SqlValue::Integer(2147483647));
    assert_eq!(opt_int_value(None), SqlValue::Null);
    assert_eq!(opt_real_value(Some(Real::Double(1.5f64.to_bits()))), SqlValue::Real(1.5f64.to_bits()));
    assert_eq!(opt_real_value(Some(Real::Whole(4))), SqlValue::Integer(4));
    assert_eq!(opt_real_value(None), SqlValue::Null);
    assert_eq!(flag_value(true), SqlValue::Integer(1));
    assert_eq!(flag_value(false), SqlValue::Integer(0));
    assert_eq!(list_value(&strings(&["a"])), text("[\"a\"]"));
    assert_eq!(list_value(&Vec::new()), text("[]"));
}

#[test]
fn required_text_column() {
    let row = vec![text("hi"), SqlValue::Null, SqlValue::Text(vec![0xff]), SqlValue::Blob(vec![1])];
    assert_eq!(get_text(&row, 0), Ok("hi".to_string()));
    assert_eq!(get_text(&row, 1), Err(RowError::WrongType { index: 1, found: ValueKind::Null }));
    assert_eq!(get_text(&row, 2), Err(RowError::InvalidText { index: 2 }));
    assert_eq!(get_text(&row, 3), Err(RowError::WrongType { index: 3, found: ValueKind::Blob }));
    assert_eq!(get_text(&row, 4), Err(RowError::MissingColumn { index: 4 }));
}

#[test]
fn optional_text_column() {
    let row = vec![text("hi"), SqlValue::Null, SqlValue::Integer(1), SqlValue::Text(vec![0xc3])];
    assert_eq!(get_opt_text(&row, 0), Ok(Some("hi".to_string())));
    assert_eq!(get_opt_text(&row, 1), Ok(None));
    assert_eq!(
        get_opt_text(&row, 2),
        Err(RowError::WrongType { index: 2, found: ValueKind::Integer })
    );
    assert_eq!(get_opt_text(&row, 3), Err(RowError::InvalidText { index: 3 }));
    assert_eq!(get_opt_text(&row, 9), Err(RowError::MissingColumn { index: 9 }));
}

#[test]
fn optional_whole_number_column() {
    let row = vec![
        SqlValue::Integer(42),
        SqlValue::Null,
        SqlValue::Integer(2147483647),
        SqlValue::Integer(2147483648),
        SqlValue::Integer(-2147483648),
        SqlValue::Integer(-2147483649),
        SqlValue::Real(1.0f64.to_bits()),
        text("7"),
    ];
    assert_eq!(get_opt_int(&row, 0), Ok(Some(42)));
    assert_eq!(get_opt_int(&row, 1), Ok(None));
    assert_eq!(get_opt_int(&row, 2), Ok(Some(i32::MAX)));
    assert_eq!(get_opt_int(&row, 3), Err(RowError::OutOfRange { index: 3, value: 2147483648 }));
    assert_eq!(get_opt_int(&row, 4), Ok(Some(i32::MIN)));
    assert_eq!(get_opt_int(&row, 5), Err(RowError::OutOfRange { index: 5, value: -2147483649 }));
    assert_eq!(get_opt_int(&row, 6), Err(RowError::WrongType { index: 6, found: ValueKind::Real }));
    assert_eq!(get_opt_int(&row, 7), Err(RowError::WrongType { index: 7, found: ValueKind::Text }));
    assert_eq!(get_opt_int(&row, 8), Err(RowError::MissingColumn { index: 8 }));
}

#[test]
fn optional_real_number_column() {
    let row = vec![
        SqlValue::Real(0.25f64.to_bits()),
        SqlValue::Null,
        SqlValue::Integer(3),
        text("0.5"),
        SqlValue::Blob(Vec::new()),
    ];
    assert_eq!(get_opt_real(&row, 0), Ok(Some(Real::Double(0.25f64.to_bits()))));
    assert_eq!(get_opt_real(&row, 1), Ok(None));
    assert_eq!(get_opt_real(&row, 2), Ok(Some(Real::Whole(3))));
    assert_eq!(get_opt_real(&row, 3), Err(RowError::WrongType { index: 3, found: ValueKind::Text }));
    assert_eq!(get_opt_real(&row, 4), Err(RowError::WrongType { index: 4, found: ValueKind::Blob }));
    assert_eq!(get_opt_real(&row, 5), Err(RowError::MissingColumn { index: 5 }));
}

#[test]
fn flag_column() {
    let row = vec![SqlValue::Integer(0), SqlValue::Integer(1), SqlValue::Integer(-3), SqlValue::Null];
    assert_eq!(get_flag(&row, 0), Ok(false));
    assert_eq!(get_flag(&row, 1), Ok(true));
    assert_eq!(get_flag(&row, 2), Ok(true));
    assert_eq!(get_flag(&row, 3), Err(RowError::WrongType { index: 3, found: ValueKind::Null }));
    assert_eq!(get_flag(&row, 4), Err(RowError::MissingColumn { index: 4 }));
}

#[test]
fn list_column_is_lenient() {
    let row = vec![
        text("[\"a\",\"b\"]"),
        SqlValue::Null,
        text("oops"),
        SqlValue::Integer(5),
        SqlValue::Text(vec![0xff, 0xfe]),
        SqlValue::Blob(b"[\"a\"]".to_vec()),
        SqlValue::Real(1.0f64.to_bits()),
    ];
    assert_eq!(get_list(&row, 0), Ok(strings(&["a", "b"])));
    assert_eq!(get_list(&row, 1), Ok(Vec::new()));
    assert_eq!(get_list(&row, 2), Ok(Vec::new()));
    assert_eq!(get_list(&row, 3), Ok(Vec::new()));
    assert_eq!(get_list(&row, 4), Ok(Vec::new()));
    assert_eq!(get_list(&row, 5), Ok(Vec::new()));
    assert_eq!(get_list(&row, 6), Ok(Vec::new()));
    assert_eq!(get_list(&row, 7), Err(RowError::MissingColumn { index: 7 }));
}

// ---- rows ----------------------------------------------------------------

#[test]
fn task_row_has_every_column_in_order() {
    let row = task_to_row(&sample_task());
    let expected = vec![
        text("t-1"),
        text("p-1"),
        SqlValue::Null,
        text("Write the report"),
        text("Quarterly \"numbers\"\nand a path C:\\tmp"),
        text("open"),
        SqlValue::Null,
        SqlValue::Integer(3),
        SqlValue::Real(2.5f64.to_bits()),
        SqlValue::Integer(-7),
        SqlValue::Real(0.8f64.to_bits()),
        SqlValue::Integer(1),
        text("[\"alpha\",\"beta\",\"a,b\",\"quote\\\"d\",\"\",\"caf\u{e9} \u{1F600}\"]"),
        text("[]"),
        text("2024-03-01T10:00:00+00:00"),
        text("2024-03-01T10:00:00+00:00"),
        SqlValue::Null,
    ];
    assert_eq!(row, expected);
}

#[test]
fn client_row_has_every_column_in_order() {
    let row = client_to_row(&sample_client());
    let expected = vec![
        text("c-1"),
        text("Acme"),
        text("[\"vip\"]"),
        text("[\"ann@example.org\",\"bob@example.org\"]"),
        text("[]"),
        text("call"),
        SqlValue::Null,
        text("2024-03-01T10:00:00+00:00"),
        text("2024-03-01T10:00:00+00:00"),
    ];
    assert_eq!(row, expected);
}

#[test]
fn project_row_has_every_column_in_order() {
    let row = project_to_row(&sample_project());
    let expected = vec![
        text("p-1"),
        SqlValue::Null,
        text("internal"),
        text("research"),
        SqlValue::Null,
        text("Survey"),
        SqlValue::Null,
        text("[\"x\",\"y\"]"),
        SqlValue::Null,
        text("2024-04-01T00:00:00+00:00"),
        text("2024-03-01T10:00:00+00:00"),
        text("2024-03-01T10:00:00+00:00"),
    ];
    assert_eq!(row, expected);
}

#[test]
fn task_round_trips_through_its_row() {
    let task = sample_task();
    assert_eq!(task_from_row(&task_to_row(&task)), Ok(task));
}

#[test]
fn client_round_trips_through_its_row() {
    let client = sample_client();
    assert_eq!(client_from_row(&client_to_row(&client)), Ok(client));
}

#[test]
fn project_round_trips_through_its_row() {
    let project = sample_project();
    assert_eq!(project_from_row(&project_to_row(&project)), Ok(project));
}

#[test]
fn absent_fields_stay_absent() {
    let mut task = sample_task();
    task.project_id = None;
    task.client_id = None;
    task.description = None;
    task.due = None;
    task.priority = None;
    task.effort = None;
    task.impact = None;
    task.confidence = None;
    task.score = None;
    let row = task_to_row(&task);
    for index in [1usize, 2, 4, 6, 7, 8, 9, 10, 16] {
        assert_eq!(row[index], SqlValue::Null);
    }
    let back = task_from_row(&row).unwrap();
    assert_eq!(back.due, None);
    assert_eq!(back.priority, None);
    assert_eq!(back.effort, None);
    assert_eq!(back, task);
}

#[test]
fn empty_text_is_not_absent() {
    let mut task = sample_task();
    task.due = Some(String::new());
    task.priority = Some(0);
    task.effort = Some(Real::Double(0.0f64.to_bits()));
    let back = task_from_row(&task_to_row(&task)).unwrap();
    assert_eq!(back.due, Some(String::new()));
    assert_eq!(back.priority, Some(0));
    assert_eq!(back.effort, Some(Real::Double(0)));
}

#[test]
fn whole_number_in_a_real_column_is_kept() {
    let mut row = task_to_row(&sample_task());
    row[8] = SqlValue::Integer(5);
    let task = task_from_row(&row).unwrap();
    assert_eq!(task.effort, Some(Real::Whole(5)));
    assert_eq!(task_to_row(&task)[8], SqlValue::Integer(5));
}

#[test]
fn first_unreadable_column_decides_the_error() {
    let mut row = task_to_row(&sample_task());
    row[7] = text("high");
    row[3] = SqlValue::Null;
    row[11] = SqlValue::Null;
    assert_eq!(
        task_from_row(&row),
        Err(RowError::WrongType { index: 3, found: ValueKind::Null })
    );
    row[3] = text("title");
    assert_eq!(
        task_from_row(&row),
        Err(RowError::WrongType { index: 7, found: ValueKind::Text })
    );
    row[7] = SqlValue::Integer(1 << 40);
    assert_eq!(task_from_row(&row), Err(RowError::OutOfRange { index: 7, value: 1 << 40 }));
    row[7] = SqlValue::Null;
    assert_eq!(
        task_from_row(&row),
        Err(RowError::WrongType { index: 11, found: ValueKind::Null })
    );
}

#[test]
fn short_row_is_refused() {
    let mut row = task_to_row(&sample_task());
    row.truncate(16);
    assert_eq!(task_from_row(&row), Err(RowError::MissingColumn { index: 16 }));
    assert_eq!(task_from_row(&Vec::new()), Err(RowError::MissingColumn { index: 0 }));
    assert_eq!(client_from_row(&vec![text("c"), text("n")]), Err(RowError::MissingColumn { index: 2 }));
    assert_eq!(project_from_row(&vec![text("p")]), Err(RowError::MissingColumn { index: 1 }));
}

#[test]
fn extra_columns_are_ignored() {
    let client = sample_client();
    let mut row = client_to_row(&client);
    row.push(SqlValue::Integer(99));
    assert_eq!(client_from_row(&row), Ok(client));
}

#[test]
fn damaged_list_column_does_not_fail_the_row() {
    let mut row = client_to_row(&sample_client());
    row[2] = text("{broken");
    row[3] = SqlValue::Null;
    let client = client_from_row(&row).unwrap();
    assert_eq!(client.tags, Vec::<String>::new());
    assert_eq!(client.contacts, Vec::<String>::new());
    assert_eq!(client.name, "Acme");
}

#[test]
fn invalid_utf8_in_a_text_column_is_an_error() {
    let mut row = project_to_row(&sample_project());
    row[5] = SqlValue::Text(vec![0x80]);
    assert_eq!(project_from_row(&row), Err(RowError::InvalidText { index: 5 }));
}

// ---- listings ------------------------------------------------------------

#[test]
fn listing_without_rows_is_empty() {
    assert_eq!(tasks_from_rows(&Vec::new()), Ok(Vec::new()));
    assert_eq!(clients_from_rows(&Vec::new()), Ok(Vec::new()));
    assert_eq!(projects_from_rows(&Vec::new()), Ok(Vec::new()));
}

#[test]
fn listing_keeps_the_order_of_the_rows() {
    let mut first = sample_task();
    first.id = "first".to_string();
    let mut second = sample_task();
    second.id = "second".to_string();
    second.tags = Vec::new();
    let rows = vec![task_to_row(&second), task_to_row(&first), task_to_row(&second)];
    assert_eq!(tasks_from_rows(&rows), Ok(vec![second.clone(), first, second]));
}

#[test]
fn listing_fails_with_the_first_unreadable_row() {
    let good = task_to_row(&sample_task());
    let mut bad_title = good.clone();
    bad_title[3] = SqlValue::Integer(1);
    let mut bad_id = good.clone();
    bad_id[0] = SqlValue::Null;
    let rows = vec![good.clone(), bad_title, good, bad_id];
    assert_eq!(
        tasks_from_rows(&rows),
        Err(RowError::WrongType { index: 3, found: ValueKind::Integer })
    );
}

#[test]
fn client_and_project_listings_read_every_row() {
    let client = sample_client();
    let project = sample_project();
    assert_eq!(
        clients_from_rows(&vec![client_to_row(&client), client_to_row(&client)]),
        Ok(vec![client.clone(), client])
    );
    assert_eq!(projects_from_rows(&vec![project_to_row(&project)]), Ok(vec![project]));
    assert_eq!(
        projects_from_rows(&vec![vec![SqlValue::Null]]),
        Err(RowError::WrongType { index: 0, found: ValueKind::Null })
    );
    assert_eq!(
        clients_from_rows(&vec![Vec::new()]),
        Err(RowError::MissingColumn { index: 0 })
    );
}

// ---- statements ----------------------------------------------------------

#[test]
fn insert_statement_pairs_text_and_row() {
    let task = sample_task();
    let statement = insert_task(&task);
    assert_eq!(statement.sql, INSERT_TASK);
    assert_eq!(statement.values, task_to_row(&task));
    assert_eq!(statement.values.len(), 17);
}

#[test]
fn insert_texts_name_as_many_parameters_as_columns() {
    assert_eq!(INSERT_CLIENT.matches('?').count(), 9);
    assert_eq!(INSERT_PROJECT.matches('?').count(), 12);
    assert_eq!(INSERT_TASK.matches('?').count(), 17);
    assert!(INSERT_TASK.ends_with("?17)"));
}

// ---- messages ------------------------------------------------------------

#[test]
fn numbers_are_spelled_in_decimal() {
    assert_eq!(decimal_text(0), "0");
    assert_eq!(decimal_text(7), "7");
    assert_eq!(decimal_text(10), "10");
    assert_eq!(decimal_text(1234567890), "1234567890");
    assert_eq!(decimal_text(u64::MAX), "18446744073709551615");
    assert_eq!(signed_decimal_text(0), "0");
    assert_eq!(signed_decimal_text(-1), "-1");
    assert_eq!(signed_decimal_text(2147483648), "2147483648");
    assert_eq!(signed_decimal_text(i64::MAX), "9223372036854775807");
    assert_eq!(signed_decimal_text(i64::MIN), "-9223372036854775808");
}

#[test]
fn row_errors_describe_themselves() {
    assert_eq!(RowError::MissingColumn { index: 16 }.message(), "no column at index 16");
    assert_eq!(
        RowError::WrongType { index: 3, found: ValueKind::Null }.message(),
        "unexpected NULL value at index 3"
    );
    assert_eq!(
        RowError::WrongType { index: 0, found: ValueKind::Integer }.message(),
        "unexpected INTEGER value at index 0"
    );
    assert_eq!(
        RowError::WrongType { index: 1, found: ValueKind::Real }.message(),
        "unexpected REAL value at index 1"
    );
    assert_eq!(
        RowError::WrongType { index: 2, found: ValueKind::Text }.message(),
        "unexpected TEXT value at index 2"
    );
    assert_eq!(
        RowError::WrongType { index: 12, found: ValueKind::Blob }.message(),
        "unexpected BLOB value at index 12"
    );
    assert_eq!(
        RowError::OutOfRange { index: 7, value: -2147483649 }.message(),
        "integer -2147483649 out of range at index 7"
    );
    assert_eq!(
        RowError::InvalidText { index: 5 }.message(),
        "text that is not valid UTF-8 at index 5"
    );
}

#[test]
fn store_errors_describe_themselves() {
    assert_eq!(
        StoreError::Init("unable to open database file".to_string()).message(),
        "unable to open database file"
    );
    assert_eq!(StoreError::Unavailable.message(), "store unavailable");
    assert_eq!(
        StoreError::Query("no such table: tasks".to_string()).message(),
        "no such table: tasks"
    );
    assert_eq!(
        StoreError::Row(RowError::MissingColumn { index: 2 }).message(),
        "no column at index 2"
    );
}

#[test]
fn storage_classes_have_names() {
    assert_eq!(SqlValue::Null.kind(), ValueKind::Null);
    assert_eq!(SqlValue::Integer(1).kind(), ValueKind::Integer);
    assert_eq!(SqlValue::Real(0).kind(), ValueKind::Real);
    assert_eq!(SqlValue::Text(Vec::new()).kind(), ValueKind::Text);
    assert_eq!(SqlValue::Blob(Vec::new()).kind(), ValueKind::Blob);
    assert_eq!(kind_text(ValueKind::Text), "TEXT");
}
