//! The reference integration: a group-chat webhook bot. It translates
//! text and markdown messages into the bot's JSON wire format,
//! refuses the other shapes, and interprets the bot's
//! `{errcode, errmsg}` response envelope.

use vstd::prelude::*;
use vstd::string::*;
use crate::decimal::{dec_digits, dec_int, i64_to_string, u64_to_string};
use crate::error::{ErrorModel, PushError};
use crate::json::{
    field_of, json_quote, json_quote_array, json_quoted, json_string_array, lookup_field,
    parse_flat_object, parse_object, JsonScalar, SpecScalar,
};
use crate::message::{InfoModel, MessageModel, MessageType, PlatformInfo};
use crate::platform::{
    opt_str_view, PlatformFactory, PushInitConfig, PushPlatform, PushPlatformCapabilities,
    WireModel, WireRequest,
};
use crate::result::{PushResult, ResultModel};

verus! {

/// The configuration of the webhook bot: the token embedded in its
/// webhook URL. The bot uses no separate signing secret.
pub struct WxWorkConfig {
    pub token: String,
}

/// The webhook URL the bot posts to, with the token embedded.
pub open spec fn wxwork_url_model(token: Seq<char>) -> Seq<char> {
    "https://qyapi.weixin.qq.com/cgi-bin/webhook/send?key="@ + token
}

impl PushInitConfig for WxWorkConfig {
    open spec fn spec_platform_name(&self) -> Seq<char> {
        "wxwork"@
    }

    open spec fn spec_webhook_url(&self) -> Seq<char> {
        wxwork_url_model(self.token@)
    }

    open spec fn spec_secret(&self) -> Option<Seq<char>> {
        None
    }

    open spec fn spec_timeout(&self) -> u64 {
        30
    }

    open spec fn spec_retry_count(&self) -> u32 {
        3
    }

    fn platform_name(&self) -> (r: &str) {
        "wxwork"
    }

    fn webhook_url(&self) -> (r: String) {
        let url = String::from_str("https://qyapi.weixin.qq.com/cgi-bin/webhook/send?key=")
            .concat(self.token.as_str());
        url
    }

    fn secret(&self) -> (r: Option<&str>) {
        None
    }

    fn timeout(&self) -> (r: u64) {
        30
    }

    fn retry_count(&self) -> (r: u32) {
        3
    }
}

/// The wire body of a text message: content plus the mentioned users.
/// The mobile-number mention list is always left empty.
pub open spec fn text_payload_model(content: Seq<char>, mentions: Seq<Seq<char>>) -> Seq<char> {
    "{\"msgtype\":\"text\",\"text\":{\"content\":"@ + json_quoted(content)
        + ",\"mentioned_list\":"@ + json_string_array(mentions)
        + ",\"mentioned_mobile_list\":[]}}"@
}

/// The wire body of a markdown message.
pub open spec fn markdown_payload_model(content: Seq<char>) -> Seq<char> {
    "{\"msgtype\":\"markdown\",\"markdown\":{\"content\":"@ + json_quoted(content) + "}}"@
}

/// The `{errcode, errmsg}` envelope of a response body, when the body
/// is a JSON object holding an integer `errcode` and a string
/// `errmsg`; other fields are ignored.
pub open spec fn envelope_of(body: Seq<char>) -> Option<(int, Seq<char>)> {
    match parse_object(body) {
        Some(fields) => match (field_of(fields, "errcode"@), field_of(fields, "errmsg"@)) {
            (Some(SpecScalar::Int(c)), Some(SpecScalar::Str(m))) => Some((c, m)),
            _ => None,
        },
        None => None,
    }
}

/// Reads the `{errcode, errmsg}` envelope out of a response body,
/// exactly as `envelope_of` describes.
pub fn parse_envelope(body: &str) -> (r: Option<(i64, String)>)
    ensures
        (match (r, envelope_of(body@)) {
            (Some(p), Some(q)) => p.0 as int == q.0 && p.1@ == q.1,
            (None, None) => true,
            _ => false,
        }),
{
    match parse_flat_object(body) {
        Some(fields) => {
            let code = lookup_field(&fields, "errcode");
            let msg = lookup_field(&fields, "errmsg");
            match (code, msg) {
                (Some(c), Some(m)) => match (c, m) {
                    (JsonScalar::Int(cv), JsonScalar::Str(mv)) => Some((*cv, mv.clone())),
                    _ => None,
                },
                _ => None,
            }
        },
        None => None,
    }
}

/// The group-chat webhook bot.
pub struct WxWorkGroupBotPlatform {
    pub config: WxWorkConfig,
}

impl WxWorkGroupBotPlatform {
    /// Builds the wire request of a text message with the given
    /// mentions.
    fn text_wire(&self, content: &str, mentions: &Vec<String>) -> (r: WireRequest)
        ensures
            r@.url == wxwork_url_model(self.config.token@),
            r@.body == text_payload_model(content@, mentions.deep_view()),
    {
        let url = self.config.webhook_url();
        let mut body = String::from_str("{\"msgtype\":\"text\",\"text\":{\"content\":");
        let quoted = json_quote(content);
        body.append(quoted.as_str());
        body.append(",\"mentioned_list\":");
        let arr = json_quote_array(mentions);
        body.append(arr.as_str());
        body.append(",\"mentioned_mobile_list\":[]}}");
        WireRequest { url, body }
    }

    /// Builds the wire request of a markdown message.
    fn markdown_wire(&self, content: &str) -> (r: WireRequest)
        ensures
            r@.url == wxwork_url_model(self.config.token@),
            r@.body == markdown_payload_model(content@),
    {
        let url = self.config.webhook_url();
        let mut body = String::from_str("{\"msgtype\":\"markdown\",\"markdown\":{\"content\":");
        let quoted = json_quote(content);
        body.append(quoted.as_str());
        body.append("}}");
        WireRequest { url, body }
    }
}

impl PushPlatformCapabilities for WxWorkGroupBotPlatform {
    open spec fn init_spec(&self) -> Result<(), ErrorModel> {
        Ok(())
    }

    open spec fn init_is_noop(&self) -> bool {
        true
    }

    open spec fn send_text_spec(&self, content: Seq<char>, mentions: Seq<Seq<char>>) -> Result<
        WireModel,
        ErrorModel,
    > {
        Ok(
            WireModel {
                url: wxwork_url_model(self.config.token@),
                body: text_payload_model(content, mentions),
            },
        )
    }

    open spec fn send_markdown_spec(&self, content: Seq<char>) -> Result<WireModel, ErrorModel> {
        Ok(
            WireModel {
                url: wxwork_url_model(self.config.token@),
                body: markdown_payload_model(content),
            },
        )
    }

    open spec fn send_rich_spec(
        &self,
        title: Seq<char>,
        content: Seq<char>,
        url: Option<Seq<char>>,
    ) -> Result<WireModel, ErrorModel> {
        Err(ErrorModel::Platform("WxWork Bot does not support rich text messages directly."@))
    }

    open spec fn send_image_spec(
        &self,
        image_url: Seq<char>,
        caption: Option<Seq<char>>,
    ) -> Result<WireModel, ErrorModel> {
        Err(ErrorModel::Platform("WxWork Bot image sending requires pre-uploading."@))
    }

    open spec fn send_link_spec(
        &self,
        title: Seq<char>,
        description: Seq<char>,
        url: Seq<char>,
        image_url: Option<Seq<char>>,
    ) -> Result<WireModel, ErrorModel> {
        Err(ErrorModel::Platform("WxWork Bot does not support link messages."@))
    }

    open spec fn send_spec(&self, m: MessageModel) -> Result<WireModel, ErrorModel> {
        match m {
            MessageModel::Text(content) => self.send_text_spec(content, Seq::empty()),
            MessageModel::Markdown(content) => self.send_markdown_spec(content),
            _ => Err(ErrorModel::Message("Unsupported message type for WxWork Bot"@)),
        }
    }

    open spec fn interpret_spec(&self, status: u16, body: Seq<char>) -> Result<
        ResultModel,
        ErrorModel,
    > {
        if !(200 <= status && status < 300) {
            Err(
                ErrorModel::Network(
                    "Request failed with status: "@ + dec_digits(status as nat) + ", body: "@
                        + body,
                ),
            )
        } else {
            match envelope_of(body) {
                None => Err(ErrorModel::Platform("Invalid response from WxWork API: "@ + body)),
                Some((code, msg)) => if code == 0 {
                    Ok(ResultModel { message_id: None, success: true, response: Some(body) })
                } else {
                    Err(
                        ErrorModel::Platform(
                            "WxWork API Error: code="@ + dec_int(code) + ", message="@ + msg,
                        ),
                    )
                },
            }
        }
    }

    open spec fn health_spec(&self) -> Result<bool, ErrorModel> {
        Ok(true)
    }

    open spec fn info_spec(&self) -> InfoModel {
        InfoModel {
            name: "wxwork"@,
            version: "0.1.0"@,
            features: seq!["text"@, "markdown"@],
            supports_markdown: true,
            supports_rich_text: false,
            supports_images: false,
        }
    }

    fn init(&mut self) -> (r: Result<(), PushError>) {
        Ok(())
    }

    fn send_text(&self, content: &str) -> (r: Result<WireRequest, PushError>) {
        let mentions: Vec<String> = Vec::new();
        let wire = self.text_wire(content, &mentions);
        proof {
            assert(mentions.deep_view() =~= Seq::<Seq<char>>::empty());
        }
        Ok(wire)
    }

    fn send_text_with_mention(&self, content: &str, mention_list: Vec<String>) -> (r: Result<
        WireRequest,
        PushError,
    >) {
        let wire = self.text_wire(content, &mention_list);
        Ok(wire)
    }

    fn send_markdown(&self, content: &str) -> (r: Result<WireRequest, PushError>) {
        Ok(self.markdown_wire(content))
    }

    fn send_rich(&self, title: &str, content: &str, url: Option<&str>) -> (r: Result<
        WireRequest,
        PushError,
    >) {
        Err(
            PushError::PlatformError(
                String::from_str("WxWork Bot does not support rich text messages directly."),
            ),
        )
    }

    fn send_image(&self, image_url: &str, caption: Option<&str>) -> (r: Result<
        WireRequest,
        PushError,
    >) {
        Err(
            PushError::PlatformError(
                String::from_str("WxWork Bot image sending requires pre-uploading."),
            ),
        )
    }

    fn send_link(
        &self,
        title: &str,
        description: &str,
        url: &str,
        image_url: Option<&str>,
    ) -> (r: Result<WireRequest, PushError>) {
        Err(PushError::PlatformError(String::from_str("WxWork Bot does not support link messages.")))
    }

    fn send(&self, message: MessageType) -> (r: Result<WireRequest, PushError>) {
        match message {
            MessageType::Text(content) => {
                let mentions: Vec<String> = Vec::new();
                let wire = self.text_wire(content.as_str(), &mentions);
                proof {
                    assert(mentions.deep_view() =~= Seq::<Seq<char>>::empty());
                }
                Ok(wire)
            },
            MessageType::Markdown(content) => Ok(self.markdown_wire(content.as_str())),
            _ => Err(
                PushError::MessageError(String::from_str("Unsupported message type for WxWork Bot")),
            ),
        }
    }

    fn interpret_response(&self, status: u16, body: &str) -> (r: Result<PushResult, PushError>) {
        if !(200 <= status && status < 300) {
            let mut m = String::from_str("Request failed with status: ");
            let digits = u64_to_string(status as u64);
            m.append(digits.as_str());
            m.append(", body: ");
            m.append(body);
            Err(PushError::NetworkError(m))
        } else {
            match parse_envelope(body) {
                None => {
                    let mut m = String::from_str("Invalid response from WxWork API: ");
                    m.append(body);
                    Err(PushError::PlatformError(m))
                },
                Some((code, msg)) => {
                    if code == 0 {
                        let mut result = PushResult::default();
                        result.success = true;
                        result.response = Some(String::from_str(body));
                        Ok(result)
                    } else {
                        let mut m = String::from_str("WxWork API Error: code=");
                        let digits = i64_to_string(code);
                        m.append(digits.as_str());
                        m.append(", message=");
                        m.append(msg.as_str());
                        Err(PushError::PlatformError(m))
                    }
                },
            }
        }
    }

    fn health_check(&self) -> (r: Result<bool, PushError>) {
        Ok(true)
    }

    fn platform_info(&self) -> (r: PlatformInfo) {
        let mut features: Vec<String> = Vec::new();
        features.push(String::from_str("text"));
        features.push(String::from_str("markdown"));
        let info = PlatformInfo {
            name: String::from_str("wxwork"),
            version: String::from_str("0.1.0"),
            features,
            supports_markdown: true,
            supports_rich_text: false,
            supports_images: false,
        };
        proof {
            assert(info@.features =~= seq!["text"@, "markdown"@]);
            assert(info@ =~= self.info_spec());
        }
        info
    }
}

impl PushPlatform<WxWorkConfig> for WxWorkGroupBotPlatform {
    open spec fn new_ens(config: WxWorkConfig, r: Self) -> bool {
        r == (WxWorkGroupBotPlatform { config })
    }

    fn new(config: WxWorkConfig) -> (r: Self) {
        WxWorkGroupBotPlatform { config }
    }
}

/// The value of the `token` field of a configuration text, when the
/// text is a JSON object holding a string `token`; other fields are
/// ignored.
pub open spec fn wxwork_token_of(config: Seq<char>) -> Option<Seq<char>> {
    match parse_object(config) {
        Some(fields) => match field_of(fields, "token"@) {
            Some(SpecScalar::Str(t)) => Some(t),
            _ => None,
        },
        None => None,
    }
}

/// Builds webhook-bot instances from configuration texts.
pub struct WxWorkPlatformFactory;

impl PlatformFactory for WxWorkPlatformFactory {
    type Platform = WxWorkGroupBotPlatform;

    open spec fn spec_name(&self) -> Seq<char> {
        "wxwork"@
    }

    open spec fn config_ok(&self, config: Seq<char>) -> bool {
        wxwork_token_of(config) is Some
    }

    open spec fn created_ens(&self, config: Seq<char>, p: WxWorkGroupBotPlatform) -> bool {
        match wxwork_token_of(config) {
            Some(t) => p.config.token@ == t,
            None => false,
        }
    }

    open spec fn create_err(&self, config: Seq<char>) -> ErrorModel {
        if parse_object(config) is None {
            ErrorModel::Config("WxWork configuration is not a JSON object"@)
        } else {
            ErrorModel::Config("WxWork configuration needs a string field \"token\""@)
        }
    }

    fn create(&self, config: &str) -> (r: Result<WxWorkGroupBotPlatform, PushError>) {
        match parse_flat_object(config) {
            Some(fields) => match lookup_field(&fields, "token") {
                Some(j) => match j {
                    JsonScalar::Str(t) => {
                        let cfg = WxWorkConfig { token: t.clone() };
                        Ok(WxWorkGroupBotPlatform::new(cfg))
                    },
                    _ => Err(
                        PushError::ConfigError(
                            String::from_str(
                                "WxWork configuration needs a string field \"token\"",
                            ),
                        ),
                    ),
                },
                None => Err(
                    PushError::ConfigError(
                        String::from_str("WxWork configuration needs a string field \"token\""),
                    ),
                ),
            },
            None => Err(
                PushError::ConfigError(
                    String::from_str("WxWork configuration is not a JSON object"),
                ),
            ),
        }
    }

    fn name(&self) -> (r: &str) {
        "wxwork"
    }
}

} // verus!
