use questdb::{Atomicity, ClientError, PagingRange, QuestDB};

#[test]
fn exec_url_with_no_optional_parameters() {
    let c = QuestDB::new("http://host:9000");
    let url = c.exec_url("select 1", None, None, None);
    assert_eq!(url, "http://host:9000/exec?query=select%201");
}

#[test]
fn exec_url_keeps_only_present_parameters() {
    let c = QuestDB::new("http://host:9000");
    let url = c.exec_url("q", None, Some(true), None);
    assert_eq!(url, "http://host:9000/exec?query=q&count=true");
}

#[test]
fn exec_url_with_all_parameters_in_order() {
    let c = QuestDB::new("http://host:9000");
    let url = c.exec_url("q", Some(PagingRange::Bounds(10, 20)), Some(true), Some(false));
    assert_eq!(url, "http://host:9000/exec?query=q&limit=10,20&count=true&nm=false");
}

#[test]
fn limit_single_value() {
    assert_eq!(PagingRange::Upper(20).as_query_value(), "20");
}

#[test]
fn limit_pair_value() {
    assert_eq!(PagingRange::Bounds(10, 20).as_query_value(), "10,20");
}

#[test]
fn decimal_text_of_edge_values() {
    assert_eq!(questdb::u64_to_dec(0), "0");
    assert_eq!(questdb::u64_to_dec(12345), "12345");
    assert_eq!(questdb::u64_to_dec(18446744073709551615), "18446744073709551615");
}

#[test]
fn atomicity_serializes_as_lowercase() {
    assert_eq!(Atomicity::Strict.as_query_value(), "strict");
    assert_eq!(Atomicity::Relaxed.as_query_value(), "relaxed");
}

#[test]
fn imp_url_carries_atomicity() {
    let c = QuestDB::new("http://h");
    let strict = c.imp_url("t", None, None, Some(Atomicity::Strict));
    assert_eq!(strict, "http://h/imp?fmt=json&name=t&atomicity=strict");
    let relaxed = c.imp_url("t", None, None, Some(Atomicity::Relaxed));
    assert_eq!(relaxed, "http://h/imp?fmt=json&name=t&atomicity=relaxed");
}

#[test]
fn percent_encoding_escapes_reserved_bytes() {
    let c = QuestDB::new("");
    let url = c.exec_url("a b/\u{e9}*", None, None, None);
    assert_eq!(url, "/exec?query=a%20b%2F%C3%A9%2A");
}

#[test]
fn file_name_is_final_path_segment() {
    assert_eq!(questdb::file_name_of("./links.csv"), "links.csv");
    assert_eq!(questdb::file_name_of("/a/b/c.txt"), "c.txt");
}

#[test]
fn file_name_of_path_without_separator_is_whole_string() {
    assert_eq!(questdb::file_name_of("links.csv"), "links.csv");
}

#[test]
fn file_name_ignores_trailing_separators() {
    assert_eq!(questdb::file_name_of("dir/"), "dir");
    assert_eq!(questdb::file_name_of("a/b//"), "b");
}

#[test]
fn file_name_of_path_without_segment_falls_back_to_full_path() {
    assert_eq!(questdb::file_name_of(""), "");
    assert_eq!(questdb::file_name_of("//"), "//");
    assert_eq!(questdb::file_name_of(".."), "..");
}

#[test]
fn file_name_of_path_ending_in_parent_dir_falls_back_to_full_path() {
    assert_eq!(questdb::file_name_of("a/.."), "a/..");
    assert_eq!(questdb::file_name_of("a/../"), "a/../");
}

#[test]
fn file_name_skips_current_dir_segments() {
    assert_eq!(questdb::file_name_of("a/."), "a");
    assert_eq!(questdb::file_name_of("foo.txt/."), "foo.txt");
    assert_eq!(questdb::file_name_of("a/.//"), "a");
}

#[test]
fn file_name_of_path_of_only_current_dir_segments_falls_back_to_full_path() {
    assert_eq!(questdb::file_name_of("./"), "./");
    assert_eq!(questdb::file_name_of("./."), "./.");
    assert_eq!(questdb::file_name_of("."), ".");
    assert_eq!(questdb::file_name_of("/."), "/.");
}

#[test]
fn response_without_dataset_is_query_failure() {
    let body = "{\"query\":\"select x\",\"error\":\"Invalid column\",\"position\":8}";
    match questdb::exec_result(body) {
        Err(ClientError::QueryFailed(e)) => {
            assert_eq!(e.query, "select x");
            assert_eq!(e.error, "Invalid column");
            assert_eq!(e.position, 8);
        }
        other => panic!("expected QueryFailed, got {:?}", other),
    }
}

#[test]
fn malformed_body_is_decode_error() {
    match questdb::exec_result("this is not json") {
        Err(ClientError::DecodeError(_)) => {}
        other => panic!("expected DecodeError, got {:?}", other),
    }
}

#[test]
fn body_matching_neither_shape_is_decode_error() {
    match questdb::exec_result("{\"foo\":1}") {
        Err(ClientError::DecodeError(_)) => {}
        other => panic!("expected DecodeError, got {:?}", other),
    }
}

#[test]
fn dataset_body_yields_rows_unchanged() {
    let v = match questdb::exec_result("{\"dataset\":[[1,2],[3,4]]}") {
        Ok(v) => v,
        Err(e) => panic!("expected a dataset, got {:?}", e),
    };
    let rows: Vec<(i64, i64)> = match serde_json::from_value(v) {
        Ok(r) => r,
        Err(e) => panic!("rows did not decode: {}", e),
    };
    assert_eq!(rows, vec![(1, 2), (3, 4)]);
}

#[test]
fn end_to_end_exec_scenario() {
    let c = QuestDB::new("http://host:9000");
    let url = c.exec_url("select * from t", Some(PagingRange::Upper(5)), None, None);
    assert_eq!(url, "http://host:9000/exec?query=select%20%2A%20from%20t&limit=5");
    let body = "{\"dataset\":[[1,\"2021-01-01\",20.5,3]]}";
    let v = match questdb::exec_result(body) {
        Ok(v) => v,
        Err(e) => panic!("expected a dataset, got {:?}", e),
    };
    let rows: Vec<(i64, String, f64, i64)> = match serde_json::from_value(v) {
        Ok(r) => r,
        Err(e) => panic!("rows did not decode: {}", e),
    };
    assert_eq!(rows.len(), 1);
    assert_eq!(rows[0].0, 1);
    assert_eq!(rows[0].1, "2021-01-01");
    assert!(rows[0].2 == 20.5);
    assert_eq!(rows[0].3, 3);
}

#[test]
fn failed_file_read_becomes_io_error_and_no_request() {
    let c = QuestDB::new("http://h");
    let r = c.import_request(
        "./nope.csv",
        "t",
        None,
        None,
        None,
        Err("no such file".to_string()),
    );
    match r {
        Err(ClientError::IoError(m)) => assert_eq!(m, "no such file"),
        other => panic!("expected IoError, got {:?}", other),
    }
}

#[test]
fn successful_file_read_forms_the_whole_request() {
    let c = QuestDB::new("http://h");
    let r = c.import_request(
        "./links.csv",
        "nu_table2",
        Some(false),
        Some(true),
        Some(Atomicity::Strict),
        Ok(vec![1u8, 2, 3]),
    );
    match r {
        Ok(req) => {
            assert_eq!(
                req.url,
                "http://h/imp?fmt=json&name=nu_table2&overwrite=false&durable=true&atomicity=strict"
            );
            assert_eq!(req.file_name, "links.csv");
            assert_eq!(req.data, vec![1u8, 2, 3]);
        }
        other => panic!("expected a request, got {:?}", other),
    }
}

#[test]
fn exp_url_keeps_query_verbatim() {
    let c = QuestDB::new("http://host:9000");
    let url = c.exp_url("select * from nu_table", Some(PagingRange::Upper(5)));
    assert_eq!(url, "http://host:9000/exp?query=select * from nu_table&limit=5");
}

#[test]
fn server_failure_payload_becomes_query_failed() {
    let e = questdb::SQLError {
        query: "select x".to_string(),
        error: "Invalid column".to_string(),
        position: 8,
    };
    let r = questdb::result_from_payload(Ok(questdb::ResponsePayload::Failure(e)));
    match r {
        Err(ClientError::QueryFailed(f)) => {
            assert_eq!(f.query, "select x");
            assert_eq!(f.error, "Invalid column");
            assert_eq!(f.position, 8);
        }
        other => panic!("expected QueryFailed, got {:?}", other),
    }
}
