//! Messages that go out.

use crate::adapter::{AdapterView, WeChatAdapter};
use crate::channel;
use crate::channel::{ChannelContent, ChannelUser};
use crate::http;
use crate::http::{IoError, PostRequest, PostView};
use crate::json;
use crate::json::{Json, JsonView};
use crate::outside;
use crate::text;
use vstd::prelude::*;

verus! {

/// How long a request that is answered at once may take, in seconds.
pub const API_TIMEOUT_SECS: u64 = 15;

/// The item list of a message that says `content`.
pub open spec fn text_items(content: Seq<char>) -> JsonView {
    JsonView::Array(
        seq![
            JsonView::Object(
                map![
                    "type"@ => JsonView::Number(Some(1)),
                    "text_item"@ => JsonView::Object(map!["text"@ => JsonView::Text(content)]),
                ],
            ),
        ],
    )
}

/// The document that asks the bot API to send `content` to a user. `client_id` names the request,
/// and `context_token` is the one that the user sent last.
pub open spec fn send_document(
    user_id: Seq<char>,
    content: Seq<char>,
    client_id: Seq<char>,
    context_token: Seq<char>,
    channel_version: Seq<char>,
) -> JsonView {
    JsonView::Object(
        map![
            "msg"@ => JsonView::Object(
                map![
                    "from_user_id"@ => JsonView::Text(Seq::empty()),
                    "to_user_id"@ => JsonView::Text(user_id),
                    "client_id"@ => JsonView::Text(client_id),
                    "message_type"@ => JsonView::Number(Some(2)),
                    "message_state"@ => JsonView::Number(Some(2)),
                    "item_list"@ => text_items(content),
                    "context_token"@ => JsonView::Text(context_token),
                ],
            ),
            "base_info"@ => http::base_info(channel_version),
        ],
    )
}

/// The item list of a message that says `content`.
fn build_text_items(content: &str) -> (items: Json)
    ensures
        items@ == text_items(content@),
        items.encodable(),
{
    let mut inner: Vec<(String, Json)> = Vec::new();
    json::push_member(&mut inner, "text", Json::Text(content.to_owned()));
    let mut item: Vec<(String, Json)> = Vec::new();
    json::push_member(&mut item, "type", Json::Number(Some(1)));
    json::push_member(&mut item, "text_item", Json::Object(inner));
    let mut list: Vec<Json> = Vec::new();
    json::push_item(&mut list, Json::Object(item));
    assert(Json::Array(list)@->Array_0 =~= text_items(content@)->Array_0);
    Json::Array(list)
}

/// The document that asks the bot API to send `content` to a user.
pub fn build_send_document(
    user_id: &str,
    content: &str,
    client_id: &str,
    context_token: &str,
    channel_version: &str,
) -> (document: Json)
    ensures
        document@ == send_document(
            user_id@,
            content@,
            client_id@,
            context_token@,
            channel_version@,
        ),
        document.encodable(),
        document@.nested_within(outside::READABLE_LEVELS as nat),
{
    let mut msg: Vec<(String, Json)> = Vec::new();
    json::push_member(&mut msg, "from_user_id", Json::Text(String::new()));
    json::push_member(&mut msg, "to_user_id", Json::Text(user_id.to_owned()));
    json::push_member(&mut msg, "client_id", Json::Text(client_id.to_owned()));
    json::push_member(&mut msg, "message_type", Json::Number(Some(2)));
    json::push_member(&mut msg, "message_state", Json::Number(Some(2)));
    json::push_member(&mut msg, "item_list", build_text_items(content));
    json::push_member(&mut msg, "context_token", Json::Text(context_token.to_owned()));
    let mut document: Vec<(String, Json)> = Vec::new();
    json::push_member(&mut document, "msg", Json::Object(msg));
    json::push_member(&mut document, "base_info", http::build_base_info(channel_version));
    proof {
        reveal_with_fuel(JsonView::nested_within, 6);
    }
    Json::Object(document)
}

/// The context token that goes along to a user: the last one they sent, or an empty one.
pub open spec fn context_to_send(adapter: AdapterView, user_id: Seq<char>) -> Seq<char> {
    match adapter.context_token(user_id) {
        Some(token) => token,
        None => Seq::empty(),
    }
}

/// The request that sends `content` to a user, from an adapter that is logged in.
pub open spec fn send_request(
    adapter: AdapterView,
    user_id: Seq<char>,
    content: Seq<char>,
    fresh: Seq<char>,
    channel_version: Seq<char>,
) -> PostView {
    PostView {
        url: adapter.api_url("sendmessage"@),
        headers: http::api_headers(adapter.bot_token),
        body: outside::json_bytes(
            send_document(
                user_id,
                content,
                "openfang-"@ + fresh,
                context_to_send(adapter, user_id),
                channel_version,
            ),
        ),
        timeout_ms: (API_TIMEOUT_SECS * 1000) as nat,
    }
}

/// The message of a send that was not tried because there is no login.
pub open spec fn not_logged_in() -> Seq<char> {
    "WeChat is not logged in"@
}

impl WeChatAdapter {
    /// The request that sends `content` to a user, under a client identifier made of `fresh`. Its
    /// body reads as the document that asks for that.
    pub fn send_text_as(
        &self,
        user_id: &str,
        content: &str,
        fresh: &str,
        channel_version: &str,
    ) -> (r: Result<PostRequest, IoError>)
        ensures
            match r {
                Ok(request) => {
                    &&& self@.bot_token is Some
                    &&& request@ == send_request(
                        self@,
                        user_id@,
                        content@,
                        fresh@,
                        channel_version@,
                    )
                    &&& outside::json_document(request.body@) == Some(
                        send_document(
                            user_id@,
                            content@,
                            "openfang-"@ + fresh@,
                            context_to_send(self@, user_id@),
                            channel_version@,
                        ),
                    )
                },
                Err(error) => self@.bot_token is None && error.message@ == not_logged_in(),
            },
    {
        let token = match self.get_token() {
            Some(token) => token,
            None => {
                return Err(http::io_error("WeChat is not logged in".to_owned()));
            },
        };
        let mut client_id = "openfang-".to_owned();
        client_id.append(fresh);
        let context_token = match self.get_context_token(user_id) {
            Some(token) => token,
            None => String::new(),
        };
        let document = build_send_document(
            user_id,
            content,
            client_id.as_str(),
            context_token.as_str(),
            channel_version,
        );
        Ok(
            PostRequest {
                url: self.api_url("sendmessage"),
                headers: http::build_headers(Some(token.as_str())),
                body: document.encode(),
                timeout_ms: API_TIMEOUT_SECS * 1000,
            },
        )
    }

    /// The request that sends `content` to a user.
    pub fn send_text(&self, user_id: &str, content: &str, channel_version: &str) -> (r: Result<
        PostRequest,
        IoError,
    >)
        ensures
            match r {
                Ok(request) => {
                    &&& self@.bot_token is Some
                    &&& exists|fresh: Seq<char>|
                        {
                            &&& outside::is_uuid_v4(fresh)
                            &&& request@ == #[trigger] send_request(
                                self@,
                                user_id@,
                                content@,
                                fresh,
                                channel_version@,
                            )
                            &&& outside::json_document(request.body@) == Some(
                                send_document(
                                    user_id@,
                                    content@,
                                    "openfang-"@ + fresh,
                                    context_to_send(self@, user_id@),
                                    channel_version@,
                                ),
                            )
                        }
                },
                Err(error) => self@.bot_token is None && error.message@ == not_logged_in(),
            },
    {
        let fresh = outside::new_uuid_v4();
        self.send_text_as(user_id, content, fresh.as_str(), channel_version)
    }

    /// The request that sends a content to a user.
    pub fn send(&self, user: &ChannelUser, content: &ChannelContent, channel_version: &str) -> (r:
        Result<PostRequest, IoError>)
        ensures
            match r {
                Ok(request) => {
                    &&& self@.bot_token is Some
                    &&& exists|fresh: Seq<char>|
                        {
                            &&& outside::is_uuid_v4(fresh)
                            &&& request@ == #[trigger] send_request(
                                self@,
                                user@.platform_id,
                                channel::plain_text(content@),
                                fresh,
                                channel_version@,
                            )
                            &&& outside::json_document(request.body@) == Some(
                                send_document(
                                    user@.platform_id,
                                    channel::plain_text(content@),
                                    "openfang-"@ + fresh,
                                    context_to_send(self@, user@.platform_id),
                                    channel_version@,
                                ),
                            )
                        }
                },
                Err(error) => self@.bot_token is None && error.message@ == not_logged_in(),
            },
    {
        let plain = content.to_plain_text();
        assert(user@.platform_id == user.platform_id@);
        self.send_text(user.platform_id.as_str(), plain.as_str(), channel_version)
    }

    /// Takes note of the answer to a send: its status, and its text where that is no success.
    pub fn finish_send(&mut self, status: u16, text: &str) -> (r: Result<(), IoError>)
        requires
            http::valid_status(status as int),
            http::success_status(status as int) ==> old(self)@.runtime.messages_sent < u64::MAX,
        ensures
            match r {
                Ok(()) => http::success_status(status as int) && final(self)@ == old(
                    self,
                )@.after_sending(),
                Err(error) => {
                    &&& !http::success_status(status as int)
                    &&& final(self)@ == old(self)@
                    &&& error.message@ == http::refusal(
                        "WeChat sendMessage failed"@,
                        status as int,
                        text@,
                    )
                },
            },
    {
        if !http::is_success(status) {
            return Err(
                http::io_error(http::refusal_message("WeChat sendMessage failed", status, text)),
            );
        }
        self.record_sent();
        Ok(())
    }
}

} // verus!
