//! The capability boundary: the operation set every integration must
//! support, stated so that the dispatch path never depends on a
//! concrete platform type. Each implementation describes its own
//! behaviour through the spec functions of these traits, and the
//! executable methods are bound to those descriptions.

use vstd::prelude::*;
use crate::error::{ErrorModel, PushError};
use crate::message::{MessageModel, MessageType, PlatformInfo};
use crate::result::{PushResult, ResultModel};

verus! {

/// An outbound HTTP request a platform has prepared: the webhook URL
/// and the JSON body to post to it. Performing the request is the
/// caller's task; preparing and interpreting it are the platform's.
pub struct WireRequest {
    pub url: String,
    pub body: String,
}

/// The model of a wire request.
#[verifier::ext_equal]
pub struct WireModel {
    pub url: Seq<char>,
    pub body: Seq<char>,
}

impl View for WireRequest {
    type V = WireModel;

    open spec fn view(&self) -> WireModel {
        WireModel { url: self.url@, body: self.body@ }
    }
}

pub open spec fn opt_str_view(o: Option<&str>) -> Option<Seq<char>> {
    match o {
        Some(s) => Some(s@),
        None => None,
    }
}

pub open spec fn wire_res_matches(
    r: Result<WireRequest, PushError>,
    sp: Result<WireModel, ErrorModel>,
) -> bool {
    match (r, sp) {
        (Ok(w), Ok(m)) => w@ == m,
        (Err(e), Err(em)) => e@ == em,
        _ => false,
    }
}

pub open spec fn result_res_matches(
    r: Result<PushResult, PushError>,
    sp: Result<ResultModel, ErrorModel>,
) -> bool {
    match (r, sp) {
        (Ok(p), Ok(m)) => p.model() == m,
        (Err(e), Err(em)) => e@ == em,
        _ => false,
    }
}

/// The configuration surface every integration exposes.
pub trait PushInitConfig {
    spec fn spec_platform_name(&self) -> Seq<char>;

    spec fn spec_webhook_url(&self) -> Seq<char>;

    spec fn spec_secret(&self) -> Option<Seq<char>>;

    spec fn spec_timeout(&self) -> u64;

    spec fn spec_retry_count(&self) -> u32;

    /// The identifier of the platform this configuration is for.
    fn platform_name(&self) -> (r: &str)
        ensures
            r@ == self.spec_platform_name(),
    ;

    /// The full webhook URL the platform posts to.
    fn webhook_url(&self) -> (r: String)
        ensures
            r@ == self.spec_webhook_url(),
    ;

    /// The signing secret, for platforms that use one.
    fn secret(&self) -> (r: Option<&str>)
        ensures
            opt_str_view(r) == self.spec_secret(),
    ;

    /// The request timeout in seconds.
    fn timeout(&self) -> (r: u64)
        ensures
            r == self.spec_timeout(),
    ;

    /// How often a failed delivery may be retried.
    fn retry_count(&self) -> (r: u32)
        ensures
            r == self.spec_retry_count(),
    ;
}

/// The uniform operation set of an integration. The send methods
/// translate one message shape into the platform's wire format;
/// `interpret_response` reads the platform's answer back into a
/// normalized result.
pub trait PushPlatformCapabilities: Sized {
    /// What `init` yields; the platform may also change its state,
    /// unless it declares its `init` a no-op.
    spec fn init_spec(&self) -> Result<(), ErrorModel>;

    /// Whether this platform's `init` leaves it unchanged.
    spec fn init_is_noop(&self) -> bool;

    /// The wire request a text message produces, with the given users
    /// mentioned, or the error it is refused with.
    spec fn send_text_spec(&self, content: Seq<char>, mentions: Seq<Seq<char>>) -> Result<
        WireModel,
        ErrorModel,
    >;

    spec fn send_markdown_spec(&self, content: Seq<char>) -> Result<WireModel, ErrorModel>;

    spec fn send_rich_spec(
        &self,
        title: Seq<char>,
        content: Seq<char>,
        url: Option<Seq<char>>,
    ) -> Result<WireModel, ErrorModel>;

    spec fn send_image_spec(&self, image_url: Seq<char>, caption: Option<Seq<char>>) -> Result<
        WireModel,
        ErrorModel,
    >;

    spec fn send_link_spec(
        &self,
        title: Seq<char>,
        description: Seq<char>,
        url: Seq<char>,
        image_url: Option<Seq<char>>,
    ) -> Result<WireModel, ErrorModel>;

    /// What `send` yields for each message shape.
    spec fn send_spec(&self, m: MessageModel) -> Result<WireModel, ErrorModel>;

    /// What interpreting the webhook's answer yields: the normalized
    /// result, apart from its timestamp, or the error.
    spec fn interpret_spec(&self, status: u16, body: Seq<char>) -> Result<ResultModel, ErrorModel>;

    spec fn health_spec(&self) -> Result<bool, ErrorModel>;

    spec fn info_spec(&self) -> crate::message::InfoModel;

    /// One-time setup; a no-op for platforms that need none.
    fn init(&mut self) -> (r: Result<(), PushError>)
        ensures
            (match (r, old(self).init_spec()) {
                (Ok(u), Ok(v)) => u == v,
                (Err(e), Err(em)) => e@ == em,
                _ => false,
            }),
            old(self).init_is_noop() ==> *final(self) == *old(self),
    ;

    /// Prepares delivery of a plain text message.
    fn send_text(&self, content: &str) -> (r: Result<WireRequest, PushError>)
        ensures
            wire_res_matches(r, self.send_text_spec(content@, Seq::empty())),
    ;

    /// Prepares delivery of a plain text message mentioning the given
    /// users.
    fn send_text_with_mention(&self, content: &str, mention_list: Vec<String>) -> (r: Result<
        WireRequest,
        PushError,
    >)
        ensures
            wire_res_matches(r, self.send_text_spec(content@, mention_list.deep_view())),
    ;

    /// Prepares delivery of a markdown message.
    fn send_markdown(&self, content: &str) -> (r: Result<WireRequest, PushError>)
        ensures
            wire_res_matches(r, self.send_markdown_spec(content@)),
    ;

    /// Prepares delivery of a rich message.
    fn send_rich(&self, title: &str, content: &str, url: Option<&str>) -> (r: Result<
        WireRequest,
        PushError,
    >)
        ensures
            wire_res_matches(r, self.send_rich_spec(title@, content@, opt_str_view(url))),
    ;

    /// Prepares delivery of an image message.
    fn send_image(&self, image_url: &str, caption: Option<&str>) -> (r: Result<
        WireRequest,
        PushError,
    >)
        ensures
            wire_res_matches(r, self.send_image_spec(image_url@, opt_str_view(caption))),
    ;

    /// Prepares delivery of a link message.
    fn send_link(
        &self,
        title: &str,
        description: &str,
        url: &str,
        image_url: Option<&str>,
    ) -> (r: Result<WireRequest, PushError>)
        ensures
            wire_res_matches(
                r,
                self.send_link_spec(title@, description@, url@, opt_str_view(image_url)),
            ),
    ;

    /// The generic entry point: prepares delivery of any message by
    /// its shape, or refuses shapes the platform does not support.
    fn send(&self, message: MessageType) -> (r: Result<WireRequest, PushError>)
        ensures
            wire_res_matches(r, self.send_spec(message@)),
    ;

    /// Reads the webhook's HTTP status and response body back into a
    /// normalized result.
    fn interpret_response(&self, status: u16, body: &str) -> (r: Result<PushResult, PushError>)
        ensures
            result_res_matches(r, self.interpret_spec(status, body@)),
    ;

    /// A cheap liveness probe; it must not deliver anything.
    fn health_check(&self) -> (r: Result<bool, PushError>)
        ensures
            (match (r, self.health_spec()) {
                (Ok(b), Ok(c)) => b == c,
                (Err(e), Err(em)) => e@ == em,
                _ => false,
            }),
    ;

    /// The static capability descriptor of this integration.
    fn platform_info(&self) -> (r: PlatformInfo)
        ensures
            r@ == self.info_spec(),
    ;
}

/// Construction of a platform from its typed configuration.
pub trait PushPlatform<C: PushInitConfig>: PushPlatformCapabilities {
    /// How the built instance relates to the configuration.
    spec fn new_ens(config: C, r: Self) -> bool;

    /// Builds an instance from the typed configuration. No delivery
    /// and no network contact happens here.
    fn new(config: C) -> (r: Self)
        ensures
            Self::new_ens(config, r),
    ;
}

/// Builds a capability-set instance from an opaque configuration
/// text, keyed by platform name. The registry maps names to values of
/// this trait.
pub trait PlatformFactory: Sized {
    type Platform: PushPlatformCapabilities;

    /// The registry key this factory is registered under.
    spec fn spec_name(&self) -> Seq<char>;

    /// Whether a configuration text is acceptable.
    spec fn config_ok(&self, config: Seq<char>) -> bool;

    /// How a built platform relates to the configuration it was built
    /// from.
    spec fn created_ens(&self, config: Seq<char>, p: Self::Platform) -> bool;

    /// The exact error an unacceptable configuration is refused with.
    spec fn create_err(&self, config: Seq<char>) -> ErrorModel;

    /// Builds a platform instance from the configuration text, or
    /// fails with a configuration error. Never performs network I/O.
    fn create(&self, config: &str) -> (r: Result<Self::Platform, PushError>)
        ensures
            (match r {
                Ok(p) => self.config_ok(config@) && self.created_ens(config@, p),
                Err(e) => !self.config_ok(config@) && e@ == self.create_err(config@) && (e@ matches
                ErrorModel::Config(_)),
            }),
    ;

    /// The platform name, the registry key.
    fn name(&self) -> (r: &str)
        ensures
            r@ == self.spec_name(),
    ;
}

} // verus!
