//! The records that the API's responses carry. Every response but two is a
//! flat JSON object that merges the `Status` envelope with a `result` payload.
use vstd::prelude::*;

verus! {

/// The envelope of most responses: whether the call succeeded, and why not.
#[derive(Debug)]
pub struct Status {
    pub success: bool,
    pub message: String,
}

/// A member's profile; every link and avatar may be missing.
#[derive(Debug)]
pub struct Member {
    pub id: u32,
    pub username: String,
    pub url: String,
    pub website: Option<String>,
    pub twitter: Option<String>,
    pub psn: Option<String>,
    pub github: Option<String>,
    pub btc: Option<String>,
    pub location: Option<String>,
    pub tagline: Option<String>,
    pub bio: Option<String>,
    pub avatar: Option<String>,
    pub avatar_mini: Option<String>,
    pub avatar_normal: Option<String>,
    pub avatar_large: Option<String>,
    pub created: i64,
    pub last_modified: Option<i64>,
}

/// The answer to a request for one's own profile: it has no `message`.
#[derive(Debug)]
pub struct GetMemberRsp {
    pub success: bool,
    pub result: Member,
}

/// The token in use and how it has been used.
#[derive(Debug)]
pub struct TokenDetails {
    pub token: String,
    pub scope: String,
    pub expiration: i64,
    pub good_for_days: u8,
    pub total_used: u32,
    pub last_used: i64,
    pub created: i64,
}

#[derive(Debug)]
pub struct GetTokenRsp {
    pub status: Status,
    pub result: TokenDetails,
}

/// A newly created token.
#[derive(Debug)]
pub struct Token {
    pub token: String,
}

/// The answer to a request for a new token: it has no `message`.
#[derive(Debug)]
pub struct PostTokenRsp {
    pub success: bool,
    pub result: Token,
}

/// A node (a board of topics).
#[derive(Debug)]
pub struct NodeDetails {
    pub id: u16,
    pub url: String,
    pub name: String,
    pub title: String,
    pub header: String,
    pub footer: String,
    pub avatar: String,
    pub topics: u32,
    pub created: i64,
    pub last_modified: i64,
}

#[derive(Debug)]
pub struct GetNodeRsp {
    pub status: Status,
    pub result: NodeDetails,
}

/// A topic as a node lists it.
#[derive(Debug)]
pub struct NodeTopic {
    pub id: u32,
    pub title: String,
    pub content: String,
    pub content_rendered: String,
    pub syntax: u8,
    pub url: String,
    pub replies: u32,
    pub last_reply_by: String,
    pub created: i64,
    pub last_modified: i64,
    pub last_touched: i64,
}

#[derive(Debug)]
pub struct GetNodeTopicsRsp {
    pub status: Status,
    pub result: Vec<NodeTopic>,
}

/// A topic in full: the fields of its summary, its author and its node.
#[derive(Debug)]
pub struct TopicDetails {
    pub details: NodeTopic,
    pub member: Member,
    pub node: NodeDetails,
}

#[derive(Debug)]
pub struct GetTopicRsp {
    pub status: Status,
    pub result: TopicDetails,
}

/// One reply to a topic.
#[derive(Debug)]
pub struct TopicReply {
    pub id: u32,
    pub content: String,
    pub content_rendered: String,
    pub created: i64,
    pub member: Member,
}

#[derive(Debug)]
pub struct GetTopicRepliesRsp {
    pub status: Status,
    pub result: Vec<TopicReply>,
}

/// The answer to a request for notifications: the envelope alone, since the
/// shape of a notification is not settled.
#[derive(Debug)]
pub struct GetNotificationsRsp {
    pub status: Status,
}

#[derive(Debug)]
pub struct DeleteNotificationRsp {
    pub status: Status,
}

} // verus!
