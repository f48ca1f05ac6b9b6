//! The stateless mapping from method and path to handler.
//!
//! The route table of the service, written as one total function on the
//! path's segments. A literal segment must match exactly; a capture
//! segment (an id, a key, a batch of names) is handed back as a
//! parameter, in route order. Literal routes win over captures on the
//! same prefix, so `/matter/range` is the range query while
//! `/matter/7` fetches an entity.
use vstd::prelude::*;
use crate::text::{split_char, split_on, str_eq};

verus! {

/// The request methods the table distinguishes.
#[derive(Clone, Copy, PartialEq, Eq, Structural, Debug)]
pub enum Method {
    Get,
    Post,
    Put,
    Delete,
}

/// Every handler a request can dispatch to.
#[derive(Clone, Copy, PartialEq, Eq, Structural, Debug)]
pub enum RouteTarget {
    CreateMatter,
    GetMatter,
    UpdateMatter,
    DeleteMatter,
    GetMattersByRange,
    GetAllMatters,
    QueryMatterByField,
    GetKv,
    SetKv,
    DeleteKv,
    CreateTag,
    GetAllTags,
    DeleteTag,
    UpdateTagLastUsedAt,
    CreateRepeatTask,
    GetRepeatTask,
    UpdateRepeatTask,
    DeleteRepeatTask,
    GetAllRepeatTasks,
    GetActiveRepeatTasks,
    UpdateRepeatTaskStatus,
    CreateTodo,
    GetTodo,
    UpdateTodo,
    DeleteTodo,
    GetAllTodos,
    CreateNotification,
    GetNotification,
    UpdateNotification,
    DeleteNotification,
    GetUnreadNotifications,
    MarkNotificationAsRead,
    MarkNotificationAsReadByType,
    MarkAllNotificationsAsRead,
}

/// The route table over the path's slash-separated segments: the handler
/// and its captured parameters, or nothing when no route matches.
pub open spec fn route_spec(m: Method, segs: Seq<Seq<char>>) -> Option<
    (RouteTarget, Seq<Seq<char>>),
> {
    if segs.len() == 1 {
        let s0 = segs[0];
        if s0 == "matter"@ {
            match m {
                Method::Post => Some((RouteTarget::CreateMatter, Seq::<Seq<char>>::empty())),
                Method::Get => Some((RouteTarget::GetAllMatters, Seq::<Seq<char>>::empty())),
                _ => None,
            }
        } else if s0 == "tags"@ {
            match m {
                Method::Post => Some((RouteTarget::CreateTag, Seq::<Seq<char>>::empty())),
                Method::Get => Some((RouteTarget::GetAllTags, Seq::<Seq<char>>::empty())),
                _ => None,
            }
        } else if s0 == "repeat-task"@ {
            match m {
                Method::Post => Some((RouteTarget::CreateRepeatTask, Seq::<Seq<char>>::empty())),
                Method::Get => Some((RouteTarget::GetAllRepeatTasks, Seq::<Seq<char>>::empty())),
                _ => None,
            }
        } else if s0 == "todo"@ {
            match m {
                Method::Post => Some((RouteTarget::CreateTodo, Seq::<Seq<char>>::empty())),
                Method::Get => Some((RouteTarget::GetAllTodos, Seq::<Seq<char>>::empty())),
                _ => None,
            }
        } else if s0 == "notification"@ {
            match m {
                Method::Post => Some((RouteTarget::CreateNotification, Seq::<Seq<char>>::empty())),
                _ => None,
            }
        } else {
            None
        }
    } else if segs.len() == 2 {
        let s0 = segs[0];
        let s1 = segs[1];
        if s0 == "matter"@ {
            match m {
                Method::Get => if s1 == "range"@ {
                    Some((RouteTarget::GetMattersByRange, Seq::<Seq<char>>::empty()))
                } else if s1 == "query"@ {
                    Some((RouteTarget::QueryMatterByField, Seq::<Seq<char>>::empty()))
                } else {
                    Some((RouteTarget::GetMatter, seq![s1]))
                },
                Method::Put => Some((RouteTarget::UpdateMatter, seq![s1])),
                Method::Delete => Some((RouteTarget::DeleteMatter, seq![s1])),
                Method::Post => None,
            }
        } else if s0 == "kv"@ {
            match m {
                Method::Get => Some((RouteTarget::GetKv, seq![s1])),
                Method::Put => Some((RouteTarget::SetKv, seq![s1])),
                Method::Delete => Some((RouteTarget::DeleteKv, seq![s1])),
                Method::Post => None,
            }
        } else if s0 == "tags"@ {
            match m {
                Method::Delete => Some((RouteTarget::DeleteTag, seq![s1])),
                _ => None,
            }
        } else if s0 == "repeat-task"@ {
            match m {
                Method::Get => if s1 == "active"@ {
                    Some((RouteTarget::GetActiveRepeatTasks, Seq::<Seq<char>>::empty()))
                } else {
                    Some((RouteTarget::GetRepeatTask, seq![s1]))
                },
                Method::Put => Some((RouteTarget::UpdateRepeatTask, seq![s1])),
                Method::Delete => Some((RouteTarget::DeleteRepeatTask, seq![s1])),
                Method::Post => None,
            }
        } else if s0 == "todo"@ {
            match m {
                Method::Get => Some((RouteTarget::GetTodo, seq![s1])),
                Method::Put => Some((RouteTarget::UpdateTodo, seq![s1])),
                Method::Delete => Some((RouteTarget::DeleteTodo, seq![s1])),
                Method::Post => None,
            }
        } else if s0 == "notification"@ {
            match m {
                Method::Get => if s1 == "unread"@ {
                    Some((RouteTarget::GetUnreadNotifications, Seq::<Seq<char>>::empty()))
                } else {
                    Some((RouteTarget::GetNotification, seq![s1]))
                },
                Method::Put => if s1 == "read-all"@ {
                    Some((RouteTarget::MarkAllNotificationsAsRead, Seq::<Seq<char>>::empty()))
                } else {
                    Some((RouteTarget::UpdateNotification, seq![s1]))
                },
                Method::Delete => Some((RouteTarget::DeleteNotification, seq![s1])),
                Method::Post => None,
            }
        } else {
            None
        }
    } else if segs.len() == 3 {
        let s0 = segs[0];
        let s1 = segs[1];
        let s2 = segs[2];
        if s0 == "tags"@ && s1 == "update"@ && m is Put {
            Some((RouteTarget::UpdateTagLastUsedAt, seq![s2]))
        } else if s0 == "notification"@ && m is Put {
            if s1 == "read"@ {
                Some((RouteTarget::MarkNotificationAsReadByType, seq![s2]))
            } else if s2 == "read"@ {
                Some((RouteTarget::MarkNotificationAsRead, seq![s1]))
            } else {
                None
            }
        } else {
            None
        }
    } else if segs.len() == 4 {
        let s0 = segs[0];
        let s1 = segs[1];
        let s2 = segs[2];
        let s3 = segs[3];
        if s0 == "repeat-task"@ && s2 == "status"@ && m is Put {
            Some((RouteTarget::UpdateRepeatTaskStatus, seq![s1, s3]))
        } else {
            None
        }
    } else {
        None
    }
}

/// The route of a whole request path: it must start with a slash, and
/// the rest is split on slashes and looked up in the table.
pub open spec fn path_route(m: Method, p: Seq<char>) -> Option<(RouteTarget, Seq<Seq<char>>)> {
    if p.len() == 0 || p[0] != '/' {
        None
    } else {
        route_spec(m, split_on(p.drop_first(), '/'))
    }
}

/// No captured parameters.
fn no_params() -> (r: Vec<String>)
    ensures
        r@.map_values(|x: String| x@) == Seq::<Seq<char>>::empty(),
{
    let r: Vec<String> = Vec::new();
    proof {
        assert(r@.map_values(|x: String| x@) =~= Seq::<Seq<char>>::empty());
    }
    r
}

/// One captured parameter.
fn one_param(a: &String) -> (r: Vec<String>)
    ensures
        r@.map_values(|x: String| x@) == seq![a@],
{
    let r = vec![a.clone()];
    proof {
        assert(r@.map_values(|x: String| x@) =~= seq![a@]);
    }
    r
}

/// Two captured parameters, in route order.
fn two_params(a: &String, b: &String) -> (r: Vec<String>)
    ensures
        r@.map_values(|x: String| x@) == seq![a@, b@],
{
    let r = vec![a.clone(), b.clone()];
    proof {
        assert(r@.map_values(|x: String| x@) =~= seq![a@, b@]);
    }
    r
}

/// Looks a request up in the route table: the handler to run and the
/// captured path parameters, or nothing when no route matches.
pub fn dispatch(m: Method, path: &str) -> (r: Option<(RouteTarget, Vec<String>)>)
    ensures
        r is Some <==> path_route(m, path@) is Some,
        r is Some ==> r->Some_0.0 == path_route(m, path@)->Some_0.0,
        r is Some ==> r->Some_0.1@.map_values(|x: String| x@) == path_route(m, path@)->Some_0.1,
{
    if path.unicode_len() == 0 || path.get_char(0) != '/' {
        return None;
    }
    let n = path.unicode_len();
    let tail = path.substring_char(1, n);
    proof {
        assert(tail@ =~= path@.drop_first());
    }
    let segs = split_char(tail, '/');
    let ghost segs_v = segs@.map_values(|x: String| x@);
    if segs.len() == 1 {
        let s0 = &segs[0];
        if str_eq(s0.as_str(), "matter") {
            match m {
                Method::Post => Some((RouteTarget::CreateMatter, no_params())),
                Method::Get => Some((RouteTarget::GetAllMatters, no_params())),
                _ => None,
            }
        } else if str_eq(s0.as_str(), "tags") {
            match m {
                Method::Post => Some((RouteTarget::CreateTag, no_params())),
                Method::Get => Some((RouteTarget::GetAllTags, no_params())),
                _ => None,
            }
        } else if str_eq(s0.as_str(), "repeat-task") {
            match m {
                Method::Post => Some((RouteTarget::CreateRepeatTask, no_params())),
                Method::Get => Some((RouteTarget::GetAllRepeatTasks, no_params())),
                _ => None,
            }
        } else if str_eq(s0.as_str(), "todo") {
            match m {
                Method::Post => Some((RouteTarget::CreateTodo, no_params())),
                Method::Get => Some((RouteTarget::GetAllTodos, no_params())),
                _ => None,
            }
        } else if str_eq(s0.as_str(), "notification") {
            match m {
                Method::Post => Some((RouteTarget::CreateNotification, no_params())),
                _ => None,
            }
        } else {
            None
        }
    } else if segs.len() == 2 {
        let s0 = &segs[0];
        let s1 = &segs[1];
        if str_eq(s0.as_str(), "matter") {
            match m {
                Method::Get => if str_eq(s1.as_str(), "range") {
                    Some((RouteTarget::GetMattersByRange, no_params()))
                } else if str_eq(s1.as_str(), "query") {
                    Some((RouteTarget::QueryMatterByField, no_params()))
                } else {
                    Some((RouteTarget::GetMatter, one_param(s1)))
                },
                Method::Put => Some((RouteTarget::UpdateMatter, one_param(s1))),
                Method::Delete => Some((RouteTarget::DeleteMatter, one_param(s1))),
                Method::Post => None,
            }
        } else if str_eq(s0.as_str(), "kv") {
            match m {
                Method::Get => Some((RouteTarget::GetKv, one_param(s1))),
                Method::Put => Some((RouteTarget::SetKv, one_param(s1))),
                Method::Delete => Some((RouteTarget::DeleteKv, one_param(s1))),
                Method::Post => None,
            }
        } else if str_eq(s0.as_str(), "tags") {
            match m {
                Method::Delete => Some((RouteTarget::DeleteTag, one_param(s1))),
                _ => None,
            }
        } else if str_eq(s0.as_str(), "repeat-task") {
            match m {
                Method::Get => if str_eq(s1.as_str(), "active") {
                    Some((RouteTarget::GetActiveRepeatTasks, no_params()))
                } else {
                    Some((RouteTarget::GetRepeatTask, one_param(s1)))
                },
                Method::Put => Some((RouteTarget::UpdateRepeatTask, one_param(s1))),
                Method::Delete => Some((RouteTarget::DeleteRepeatTask, one_param(s1))),
                Method::Post => None,
            }
        } else if str_eq(s0.as_str(), "todo") {
            match m {
                Method::Get => Some((RouteTarget::GetTodo, one_param(s1))),
                Method::Put => Some((RouteTarget::UpdateTodo, one_param(s1))),
                Method::Delete => Some((RouteTarget::DeleteTodo, one_param(s1))),
                Method::Post => None,
            }
        } else if str_eq(s0.as_str(), "notification") {
            match m {
                Method::Get => if str_eq(s1.as_str(), "unread") {
                    Some((RouteTarget::GetUnreadNotifications, no_params()))
                } else {
                    Some((RouteTarget::GetNotification, one_param(s1)))
                },
                Method::Put => if str_eq(s1.as_str(), "read-all") {
                    Some((RouteTarget::MarkAllNotificationsAsRead, no_params()))
                } else {
                    Some((RouteTarget::UpdateNotification, one_param(s1)))
                },
                Method::Delete => Some((RouteTarget::DeleteNotification, one_param(s1))),
                Method::Post => None,
            }
        } else {
            None
        }
    } else if segs.len() == 3 {
        let s0 = &segs[0];
        let s1 = &segs[1];
        let s2 = &segs[2];
        if str_eq(s0.as_str(), "tags") && str_eq(s1.as_str(), "update") && matches!(m, Method::Put)
        {
            Some((RouteTarget::UpdateTagLastUsedAt, one_param(s2)))
        } else if str_eq(s0.as_str(), "notification") && matches!(m, Method::Put) {
            if str_eq(s1.as_str(), "read") {
                Some((RouteTarget::MarkNotificationAsReadByType, one_param(s2)))
            } else if str_eq(s2.as_str(), "read") {
                Some((RouteTarget::MarkNotificationAsRead, one_param(s1)))
            } else {
                None
            }
        } else {
            None
        }
    } else if segs.len() == 4 {
        let s0 = &segs[0];
        let s1 = &segs[1];
        let s2 = &segs[2];
        if str_eq(s0.as_str(), "repeat-task") && str_eq(s2.as_str(), "status") && matches!(
            m,
            Method::Put,
        ) {
            Some((RouteTarget::UpdateRepeatTaskStatus, two_params(s1, &segs[3])))
        } else {
            None
        }
    } else {
        None
    }
}

} // verus!
