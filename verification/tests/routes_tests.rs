use local_server::routes::{dispatch, Method, RouteTarget};

fn hit(m: Method, path: &str) -> (RouteTarget, Vec<String>) {
    dispatch(m, path).expect(path)
}

#[test]
fn collection_routes_dispatch_without_params() {
    assert_eq!(hit(Method::Post, "/matter").0, RouteTarget::CreateMatter);
    assert_eq!(hit(Method::Get, "/matter").0, RouteTarget::GetAllMatters);
    assert_eq!(hit(Method::Post, "/tags").0, RouteTarget::CreateTag);
    assert_eq!(hit(Method::Get, "/tags").0, RouteTarget::GetAllTags);
    assert_eq!(hit(Method::Post, "/repeat-task").0, RouteTarget::CreateRepeatTask);
    assert_eq!(hit(Method::Get, "/repeat-task").0, RouteTarget::GetAllRepeatTasks);
    assert_eq!(hit(Method::Post, "/todo").0, RouteTarget::CreateTodo);
    assert_eq!(hit(Method::Get, "/todo").0, RouteTarget::GetAllTodos);
    assert_eq!(hit(Method::Post, "/notification").0, RouteTarget::CreateNotification);
    assert!(hit(Method::Get, "/matter").1.is_empty());
}

#[test]
fn entity_routes_capture_the_id() {
    let (t, p) = hit(Method::Get, "/matter/abc-123");
    assert_eq!(t, RouteTarget::GetMatter);
    assert_eq!(p, vec!["abc-123"]);
    let (t, p) = hit(Method::Put, "/todo/9");
    assert_eq!(t, RouteTarget::UpdateTodo);
    assert_eq!(p, vec!["9"]);
    let (t, p) = hit(Method::Delete, "/kv/color");
    assert_eq!(t, RouteTarget::DeleteKv);
    assert_eq!(p, vec!["color"]);
    let (t, p) = hit(Method::Delete, "/tags/a,b");
    assert_eq!(t, RouteTarget::DeleteTag);
    assert_eq!(p, vec!["a,b"]);
}

#[test]
fn literal_segments_win_over_captures() {
    assert_eq!(hit(Method::Get, "/matter/range").0, RouteTarget::GetMattersByRange);
    assert_eq!(hit(Method::Get, "/matter/query").0, RouteTarget::QueryMatterByField);
    assert_eq!(hit(Method::Get, "/repeat-task/active").0, RouteTarget::GetActiveRepeatTasks);
    assert_eq!(hit(Method::Get, "/notification/unread").0, RouteTarget::GetUnreadNotifications);
    assert_eq!(hit(Method::Put, "/notification/read-all").0, RouteTarget::MarkAllNotificationsAsRead);
    // a PUT has no literal route at /matter/range, so "range" is an id there
    let (t, p) = hit(Method::Put, "/matter/range");
    assert_eq!(t, RouteTarget::UpdateMatter);
    assert_eq!(p, vec!["range"]);
}

#[test]
fn three_segment_routes_tell_the_read_forms_apart() {
    let (t, p) = hit(Method::Put, "/notification/read/2");
    assert_eq!(t, RouteTarget::MarkNotificationAsReadByType);
    assert_eq!(p, vec!["2"]);
    let (t, p) = hit(Method::Put, "/notification/55/read");
    assert_eq!(t, RouteTarget::MarkNotificationAsRead);
    assert_eq!(p, vec!["55"]);
    let (t, p) = hit(Method::Put, "/tags/update/home");
    assert_eq!(t, RouteTarget::UpdateTagLastUsedAt);
    assert_eq!(p, vec!["home"]);
}

#[test]
fn status_route_captures_id_and_status_in_order() {
    let (t, p) = hit(Method::Put, "/repeat-task/12/status/3");
    assert_eq!(t, RouteTarget::UpdateRepeatTaskStatus);
    assert_eq!(p, vec!["12", "3"]);
}

#[test]
fn unknown_requests_do_not_dispatch() {
    assert!(dispatch(Method::Get, "/nope").is_none());
    assert!(dispatch(Method::Post, "/matter/7").is_none());
    assert!(dispatch(Method::Get, "").is_none());
    assert!(dispatch(Method::Get, "matter").is_none());
    assert!(dispatch(Method::Delete, "/notification/1/read").is_none());
    assert!(dispatch(Method::Get, "/repeat-task/12/status/3").is_none());
}
