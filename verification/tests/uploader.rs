use rl_bc_uploader::uploader::{
    interpret_answer, upload_file_name, upload_outcome, upload_query, upload_url, UploadError,
};

#[test]
fn created_answer_gives_the_stored_id() {
    let r = upload_outcome(201, r#"{"id":"3f2a-11","location":"x"}"#.to_string());
    assert_eq!(r.unwrap(), "3f2a-11");
}

#[test]
fn created_answer_without_id_gives_question_mark() {
    assert_eq!(upload_outcome(201, "not json".to_string()).unwrap(), "?");
    assert_eq!(upload_outcome(201, r#"{"id":5}"#.to_string()).unwrap(), "?");
    assert_eq!(upload_outcome(201, String::new()).unwrap(), "?");
}

#[test]
fn conflict_is_a_duplicate_with_the_existing_id() {
    match upload_outcome(409, r#"{"error":"duplicate replay","id":"old-1"}"#.to_string()) {
        Err(UploadError::Duplicate { id }) => assert_eq!(id, "old-1"),
        other => panic!("unexpected {:?}", other),
    }
}

#[test]
fn other_status_is_a_failure_with_body() {
    match upload_outcome(401, r#"{"id":"x"}"#.to_string()) {
        Err(UploadError::Failed { status, body }) => {
            assert_eq!(status, 401);
            assert_eq!(body, r#"{"id":"x"}"#);
        }
        other => panic!("unexpected {:?}", other),
    }
    assert!(matches!(upload_outcome(200, String::new()), Err(UploadError::Failed { status: 200, .. })));
}

#[test]
fn answer_interpretation_given_id() {
    assert_eq!(interpret_answer(201, String::new(), Some("k".into())).unwrap(), "k");
    assert!(matches!(interpret_answer(409, String::new(), None), Err(UploadError::Duplicate { id }) if id == "?"));
}

#[test]
fn request_parts() {
    assert_eq!(upload_url(), "https://ballchasing.com/api/v2/upload");
    assert_eq!(upload_file_name(Some("m.replay".into())), "m.replay");
    assert_eq!(upload_file_name(None), "replay.replay");
    assert_eq!(
        upload_query("private", None),
        vec![("visibility".to_string(), "private".to_string())]
    );
    assert_eq!(
        upload_query("public", Some("grp-1")),
        vec![
            ("visibility".to_string(), "public".to_string()),
            ("group".to_string(), "grp-1".to_string())
        ]
    );
}
