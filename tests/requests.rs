use v2ex::{
    bearer_value, effective_page, get_member_request, get_token_request, DeleteNotificationReq,
    Expiration, GetNodeReq, GetNodeTopicsReq, GetNotificationsReq, GetTopicRepliesReq, GetTopicReq,
    Method, PostTokenReq, Scope, V2EX_API_DOMAIN,
};

#[test]
fn get_notifications() {
    let r = GetNotificationsReq { page: 1 }.to_request();
    assert_eq!(r.method, Method::Get);
    assert_eq!(r.path, "/notifications");
    assert_eq!(r.page, Some(1));
    assert!(r.body.is_none());
    assert_eq!(r.url(), "https://www.v2ex.com/api/v2/notifications");
}

#[test]
fn delete_notification() {
    let r = DeleteNotificationReq { notification_id: 1 }.to_request();
    assert_eq!(r.method, Method::Delete);
    assert_eq!(r.path, "/notifications/1");
    assert!(r.page.is_none());
    assert!(r.body.is_none());
}

#[test]
fn get_member() {
    let r = get_member_request();
    assert_eq!(r.method, Method::Get);
    assert_eq!(r.path, "/member");
    assert!(r.page.is_none());
    assert!(r.body.is_none());
}

#[test]
fn get_token() {
    let r = get_token_request();
    assert_eq!(r.method, Method::Get);
    assert_eq!(r.path, "/token");
    assert!(r.page.is_none());
    assert!(r.body.is_none());
}

#[test]
fn post_token() {
    let req = PostTokenReq { scope: Scope::Regular, expiration: Expiration::Day30 };
    let r = req.to_request();
    assert_eq!(r.method, Method::Post);
    assert_eq!(r.path, "/tokens");
    assert!(r.page.is_none());
    assert_eq!(r.body.as_deref(), Some(r#"{"scope":"regular","expiration":"2592000"}"#));
}

#[test]
fn get_node() {
    let req = GetNodeReq { node_name: "rust".to_string() };
    let r = req.to_request();
    assert_eq!(r.method, Method::Get);
    assert_eq!(r.path, "/nodes/rust");
    assert!(r.page.is_none());
    assert!(r.body.is_none());
}

#[test]
fn get_node_topics() {
    let req = GetNodeTopicsReq { node_name: "rust".to_string(), page: 1 };
    let r = req.to_request();
    assert_eq!(r.method, Method::Get);
    assert_eq!(r.path, "/nodes/rust/topics");
    assert_eq!(r.page, Some(1));
    assert!(r.body.is_none());
}

#[test]
fn get_topic() {
    let r = GetTopicReq { topic_id: 1029068 }.to_request();
    assert_eq!(r.method, Method::Get);
    assert_eq!(r.path, "/topics/1029068");
    assert!(r.page.is_none());
    assert!(r.body.is_none());
}

#[test]
fn get_topic_replies() {
    let r = GetTopicRepliesReq { topic_id: 1029068, page: 1 }.to_request();
    assert_eq!(r.method, Method::Get);
    assert_eq!(r.path, "/topics/1029068/replies");
    assert_eq!(r.page, Some(1));
    assert!(r.body.is_none());
}

#[test]
fn page_zero_asks_for_first_page() {
    assert_eq!(effective_page(0), 1);
    assert_eq!(GetNotificationsReq { page: 0 }.to_request().page, Some(1));
    assert_eq!(GetNodeTopicsReq { node_name: "rust".to_string(), page: 0 }.to_request().page, Some(1));
    assert_eq!(GetTopicRepliesReq { topic_id: 7, page: 0 }.to_request().page, Some(1));
}

#[test]
fn positive_page_is_kept() {
    assert_eq!(effective_page(1), 1);
    assert_eq!(effective_page(3), 3);
    assert_eq!(effective_page(u32::MAX), u32::MAX);
    assert_eq!(GetTopicRepliesReq { topic_id: 7, page: 12 }.to_request().page, Some(12));
}

#[test]
fn ids_are_written_in_decimal() {
    assert_eq!(GetTopicReq { topic_id: 0 }.to_request().path, "/topics/0");
    assert_eq!(GetTopicReq { topic_id: 10 }.to_request().path, "/topics/10");
    assert_eq!(
        DeleteNotificationReq { notification_id: u32::MAX }.to_request().path,
        "/notifications/4294967295"
    );
}

#[test]
fn url_prefixes_api_origin() {
    let r = GetTopicReq { topic_id: 42 }.to_request();
    assert_eq!(r.url(), format!("{}{}", V2EX_API_DOMAIN, "/topics/42"));
    assert_eq!(V2EX_API_DOMAIN, "https://www.v2ex.com/api/v2");
}

#[test]
fn bearer_header_value() {
    assert_eq!(bearer_value("abc123"), "Bearer abc123");
    assert_eq!(bearer_value(""), "Bearer ");
}
