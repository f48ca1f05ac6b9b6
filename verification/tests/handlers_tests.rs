use local_server::envelope::ServerError;
use local_server::handlers::{
    default_exact_match, field_in_whitelist, lookup_response, store_response, validate_query_field,
    QueryFieldParams,
};

#[test]
fn lookup_of_present_entity_wraps_it() {
    let r = lookup_response(Ok(Some(5)), "Matter not found").unwrap();
    assert_eq!(r.code, 200);
    assert_eq!(r.msg, "success");
    assert_eq!(r.data, Some(5));
}

#[test]
fn lookup_of_nonexistent_id_is_404_with_empty_data() {
    let r: Result<_, ServerError> = lookup_response(Ok(None::<i32>), "Matter not found");
    match r {
        Err(e) => {
            assert!(matches!(e, ServerError::NotFound(_)));
            let env = e.into_envelope();
            assert_eq!(env.code, 404);
            assert_eq!(env.msg, "Matter not found");
            assert!(env.data.is_none());
        }
        Ok(_) => panic!("expected NotFound"),
    }
}

#[test]
fn lookup_store_failure_is_a_database_error() {
    let r = lookup_response(Err::<Option<i32>, _>(String::from("locked")), "x");
    match r {
        Err(ServerError::DatabaseError(msg)) => assert_eq!(msg, "locked"),
        _ => panic!("expected DatabaseError"),
    }
}

#[test]
fn store_success_wraps_the_value() {
    let r = store_response(Ok::<_, String>(vec![1, 2])).unwrap();
    assert_eq!(r.code, 200);
    assert_eq!(r.data, Some(vec![1, 2]));
}

#[test]
fn store_failure_is_a_database_error() {
    let r = store_response(Err::<i32, _>(String::from("oops")));
    assert!(matches!(r, Err(ServerError::DatabaseError(_))));
}

#[test]
fn exact_match_defaults_to_substring_match() {
    assert!(!default_exact_match());
}

#[test]
fn unlisted_field_is_rejected_before_any_store_call() {
    let params = QueryFieldParams {
        field: String::from("secret"),
        value: String::from("x"),
        exact_match: default_exact_match(),
    };
    match validate_query_field(&params) {
        Err(ServerError::BadRequest(msg)) => {
            assert_eq!(
                msg,
                "Invalid field name: secret. Valid fields are: id, title, description, tags, \
                 priority, type, reserved_1, reserved_2, reserved_3, reserved_4, reserved_5"
            );
        }
        _ => panic!("expected BadRequest"),
    }
}

#[test]
fn every_listed_field_is_accepted() {
    for field in [
        "id",
        "title",
        "description",
        "tags",
        "priority",
        "type",
        "reserved_1",
        "reserved_2",
        "reserved_3",
        "reserved_4",
        "reserved_5",
    ] {
        assert!(field_in_whitelist(field), "{field} should be allowed");
        let params = QueryFieldParams {
            field: String::from(field),
            value: String::new(),
            exact_match: true,
        };
        assert!(validate_query_field(&params).is_ok());
    }
}

#[test]
fn field_check_is_exact_not_prefix() {
    assert!(!field_in_whitelist("titl"));
    assert!(!field_in_whitelist("title "));
    assert!(!field_in_whitelist("Title"));
}
