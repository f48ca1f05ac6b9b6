use local_server::envelope::ServerError;
use local_server::tags::parse_tag_names;

#[test]
fn batch_with_repetition_dedups_to_two_names() {
    let r = parse_tag_names("a, a , b").unwrap();
    assert_eq!(r.len(), 2);
    assert_eq!(r[0], "a");
    assert_eq!(r[1], "b");
}

#[test]
fn batch_of_separators_and_spaces_is_a_bad_request() {
    let r = parse_tag_names(" , ");
    match r {
        Err(ServerError::BadRequest(msg)) => {
            assert_eq!(msg, "No valid tag names provided");
        }
        _ => panic!("expected a BadRequest"),
    }
}

#[test]
fn empty_input_is_a_bad_request() {
    assert!(matches!(parse_tag_names(""), Err(ServerError::BadRequest(_))));
}

#[test]
fn first_occurrence_order_is_kept() {
    let r = parse_tag_names("b,a,b,c,a").unwrap();
    assert_eq!(r, vec!["b", "a", "c"]);
}

#[test]
fn empty_segments_are_dropped() {
    let r = parse_tag_names("a,,b ,, ").unwrap();
    assert_eq!(r, vec!["a", "b"]);
}

#[test]
fn single_name_is_trimmed() {
    let r = parse_tag_names("  urgent\t").unwrap();
    assert_eq!(r, vec!["urgent"]);
}
