use hank_pdk::outbound::{db_fetch_values, db_query_request, db_query_result, DbFetchError};
use hank_types::database::{PreparedStatement, Results};
use hank_types::DbQueryOutput;

fn rows(rows: Vec<&str>) -> DbQueryOutput {
    DbQueryOutput {
        results: Some(Results {
            rows: rows.into_iter().map(|r| r.to_string()).collect(),
        }),
        error: None,
    }
}

#[test]
fn db_query_request_wraps_the_statement() {
    let statement = PreparedStatement {
        sql: "SELECT * FROM quotes WHERE id = ?".to_string(),
        values: vec!["7".to_string()],
    };
    let request = db_query_request(statement.clone());
    assert_eq!(request.prepared_statement, Some(statement));
}

#[test]
fn db_query_error_surfaces_the_exact_string_and_no_rows() {
    let output = DbQueryOutput {
        results: Some(Results {
            rows: vec!["{}".to_string()],
        }),
        error: Some("no such table: quotes".to_string()),
    };
    assert_eq!(
        db_query_result(output),
        Err("no such table: quotes".to_string())
    );
}

#[test]
fn db_query_returns_the_rows_on_success() {
    let output = rows(vec![r#"{"id":1}"#, r#"{"id":2}"#]);
    let results = db_query_result(output).unwrap();
    assert_eq!(results.rows.len(), 2);
    assert_eq!(results.rows[0], r#"{"id":1}"#);
}

#[test]
fn db_query_missing_results_defaults_to_empty() {
    let output = DbQueryOutput {
        results: None,
        error: None,
    };
    let results = db_query_result(output).unwrap();
    assert!(results.rows.is_empty());
}

#[test]
fn db_fetch_decodes_each_row_independently() {
    let output = rows(vec![r#"{"a":1}"#, "[1,2]", "3"]);
    let values = db_fetch_values(output).unwrap();
    assert_eq!(values.len(), 3);
    assert_eq!(
        values[1],
        serde_json::from_str::<serde_json::Value>("[1,2]").unwrap()
    );
    assert_eq!(
        values[2],
        serde_json::from_str::<serde_json::Value>("3").unwrap()
    );
}

#[test]
fn db_fetch_reports_the_first_malformed_row() {
    let output = rows(vec!["1", "not json", "also not json"]);
    assert!(matches!(
        db_fetch_values(output),
        Err(DbFetchError::MalformedRow(1))
    ));
}

#[test]
fn db_fetch_surfaces_the_host_error() {
    let output = DbQueryOutput {
        results: None,
        error: Some("database is locked".to_string()),
    };
    match db_fetch_values(output) {
        Err(DbFetchError::Host(e)) => assert_eq!(e, "database is locked"),
        other => panic!("expected a host error, got {:?}", other.is_ok()),
    }
}

#[test]
fn db_fetch_of_no_rows_is_empty() {
    let output = DbQueryOutput {
        results: None,
        error: None,
    };
    assert_eq!(db_fetch_values(output).unwrap().len(), 0);
}
