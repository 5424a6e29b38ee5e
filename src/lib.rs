//! Typed client binding for the V2EX REST API: request descriptors, response
//! schemas, and the rate-limit tracker fed by every response.
pub mod rate;
pub mod token;
pub mod schema;
pub mod request;

pub use rate::{RateHeaders, RateLimit, RateTracker, RateUpdate};
pub use request::{
    bearer_value, effective_page, get_member_request, get_token_request, ApiRequest,
    DeleteNotificationReq, GetNodeReq, GetNodeTopicsReq, GetNotificationsReq, GetTopicRepliesReq,
    GetTopicReq, Method, V2EX_API_DOMAIN,
};
pub use schema::{
    DeleteNotificationRsp, GetMemberRsp, GetNodeRsp, GetNodeTopicsRsp, GetNotificationsRsp,
    GetTokenRsp, GetTopicRepliesRsp, GetTopicRsp, Member, NodeDetails, NodeTopic, PostTokenRsp,
    Status, Token, TokenDetails, TopicDetails, TopicReply,
};
pub use token::{Expiration, PostTokenReq, Scope};
