//! Messaging bridges (Telegram, WhatsApp): webhook intake with signature
//! checks and per-minute rate limits, outbound delivery planning with
//! retries, and per-bridge health counters.
use vstd::prelude::*;

use crate::digest::{lemma_hex_lower_normalized, sha256, signature_for, signature_spec};
use vstd::utf8::encode_utf8;
use crate::observability::now_unix;
use crate::text::{
    concat2, concat3, lowercase_text, lowercased, opt_str_text, opt_text, same_text,
    strip_trailing, strip_trailing_exec, string_or, text_or, trim_text, trimmed,
};

verus! {

/// Credentials and limits of the bridges.
#[derive(Debug, Clone)]
pub struct BridgeConfig {
    pub telegram_bot_token: String,
    pub telegram_signing_secret: String,
    pub whatsapp_api_url: String,
    pub whatsapp_access_token: String,
    pub whatsapp_signing_secret: String,
    pub rate_limit_per_minute: u32,
    pub outbound_max_retries: u32,
}

/// Why a bridge operation failed.
#[derive(Debug)]
pub enum BridgeError {
    NotConfigured(&'static str),
    InvalidSignature,
    RateLimited(String),
    Http(String),
    Payload(String),
}

/// The text of an error as its `Display` renders it.
pub open spec fn bridge_error_text(e: BridgeError) -> Seq<char> {
    match e {
        BridgeError::NotConfigured(m) => "bridge not configured: "@ + m@,
        BridgeError::InvalidSignature => "signature verification failed"@,
        BridgeError::RateLimited(b) => "rate limit exceeded for bridge "@ + b@,
        BridgeError::Http(m) => "http error: "@ + m@,
        BridgeError::Payload(m) => "payload error: "@ + m@,
    }
}

impl BridgeError {
    /// The error's text.
    pub fn message(&self) -> (s: String)
        ensures
            s@ == bridge_error_text(*self),
    {
        match self {
            BridgeError::NotConfigured(m) => concat2("bridge not configured: ", m),
            BridgeError::InvalidSignature => "signature verification failed".to_owned(),
            BridgeError::RateLimited(b) => concat2("rate limit exceeded for bridge ", b.as_str()),
            BridgeError::Http(m) => concat2("http error: ", m.as_str()),
            BridgeError::Payload(m) => concat2("payload error: ", m.as_str()),
        }
    }
}

/// The health report of one bridge.
#[derive(Debug, Clone)]
pub struct BridgeHealth {
    pub bridge: String,
    pub inbound_events: u64,
    pub outbound_sent: u64,
    pub outbound_failed: u64,
    pub consecutive_failures: u32,
    pub status: String,
    pub last_error: Option<String>,
    pub last_event_unix: Option<u64>,
}

/// The health reports of both bridges.
#[derive(Debug, Clone)]
pub struct BridgesHealthResponse {
    pub telegram: BridgeHealth,
    pub whatsapp: BridgeHealth,
}

/// An inbound message in bridge-independent form.
#[derive(Debug, Clone)]
pub struct NormalizedBridgeEvent {
    pub bridge: String,
    pub user_id: String,
    pub channel_id: String,
    pub text: String,
    pub received_at_unix: u64,
}

/// A message to send out through a bridge.
#[derive(Debug, Clone)]
pub struct OutboundReply {
    pub bridge: String,
    pub channel_id: String,
    pub text: String,
}

/// Traffic counters of one bridge.
#[derive(Debug, Clone)]
pub struct BridgeMetrics {
    pub inbound_events: u64,
    pub outbound_sent: u64,
    pub outbound_failed: u64,
    pub consecutive_failures: u32,
    pub last_error: Option<String>,
    pub last_event_unix: Option<u64>,
}

impl BridgeMetrics {
    /// All counters zero, no error and no event yet.
    pub fn zero() -> (m: Self)
        ensures
            m.inbound_events == 0 && m.outbound_sent == 0 && m.outbound_failed == 0
                && m.consecutive_failures == 0 && m.last_error is None && m.last_event_unix is None,
    {
        BridgeMetrics {
            inbound_events: 0,
            outbound_sent: 0,
            outbound_failed: 0,
            consecutive_failures: 0,
            last_error: None,
            last_event_unix: None,
        }
    }
}

/// The count of inbound messages in the current minute of one bridge.
#[derive(Debug, Clone, Copy)]
pub struct WindowRateCounter {
    pub window_epoch_minute: u64,
    pub count: u32,
}

/// The two bridges.
#[derive(Debug, Clone, Copy, PartialEq, Eq)]
pub enum BridgeKind {
    Telegram,
    Whatsapp,
}

/// `x + 1`, saturating at `u32::MAX`.
pub open spec fn sat_inc_u32(x: u32) -> u32 {
    if x == u32::MAX {
        x
    } else {
        (x + 1) as u32
    }
}

/// `x + 1`, saturating at `u64::MAX`.
pub open spec fn sat_inc_u64(x: u64) -> u64 {
    if x == u64::MAX {
        x
    } else {
        (x + 1) as u64
    }
}

/// The counter after one more inbound message at time `now`: a new minute
/// starts the count afresh.
pub open spec fn next_window(c: WindowRateCounter, now: u64) -> WindowRateCounter {
    let minute = (now / 60) as u64;
    WindowRateCounter {
        window_epoch_minute: minute,
        count: sat_inc_u32(
            if c.window_epoch_minute == minute {
                c.count
            } else {
                0
            },
        ),
    }
}

/// Whether a webhook call is accepted: no secret is configured, or the
/// header, trimmed and lowercased, is the payload's signature.
pub open spec fn signature_accepted(secret: Seq<char>, payload: Seq<char>, header: Option<Seq<char>>) -> bool {
    secret.len() == 0 || (header matches Some(h) && lowercased(trimmed(h)) == signature_spec(
        secret,
        payload,
    ))
}

/// The counters after one more inbound message at time `now`.
pub open spec fn inbound_recorded(m: BridgeMetrics, now: u64) -> BridgeMetrics {
    BridgeMetrics { inbound_events: (m.inbound_events + 1) as u64, last_event_unix: Some(now), ..m }
}

/// The counters after a delivered message at time `now`.
pub open spec fn success_recorded(m: BridgeMetrics, now: u64) -> BridgeMetrics {
    BridgeMetrics {
        outbound_sent: sat_inc_u64(m.outbound_sent),
        consecutive_failures: 0,
        last_error: None,
        last_event_unix: Some(now),
        ..m
    }
}

/// Whether `after` are the counters `before` after a failed delivery with
/// error text `error` at time `now`.
pub open spec fn failure_recorded(before: BridgeMetrics, after: BridgeMetrics, error: Seq<char>, now: u64) -> bool {
    &&& after.inbound_events == before.inbound_events
    &&& after.outbound_sent == before.outbound_sent
    &&& after.outbound_failed == sat_inc_u64(before.outbound_failed)
    &&& after.consecutive_failures == sat_inc_u32(before.consecutive_failures)
    &&& after.last_error matches Some(e) && e@ == error
    &&& after.last_event_unix == Some(now)
}

/// The bridge that a bridge name selects for bookkeeping: `telegram`
/// selects Telegram and every other name WhatsApp.
pub open spec fn metrics_target(bridge: Seq<char>) -> BridgeKind {
    if bridge == "telegram"@ {
        BridgeKind::Telegram
    } else {
        BridgeKind::Whatsapp
    }
}

/// Builds an inbound event; a missing text becomes empty and a missing
/// user or channel becomes `unknown`.
pub fn normalized_event(
    bridge: &str,
    text: Option<String>,
    user_id: Option<String>,
    channel_id: Option<String>,
    received_at_unix: u64,
) -> (ev: NormalizedBridgeEvent)
    ensures
        ev.bridge@ == bridge@,
        ev.text@ == text_or(opt_text(text), Seq::empty()),
        ev.user_id@ == text_or(opt_text(user_id), "unknown"@),
        ev.channel_id@ == text_or(opt_text(channel_id), "unknown"@),
        ev.received_at_unix == received_at_unix,
{
    proof {
        reveal_strlit("");
    }
    NormalizedBridgeEvent {
        bridge: bridge.to_owned(),
        user_id: string_or(user_id, "unknown"),
        channel_id: string_or(channel_id, "unknown"),
        text: string_or(text, ""),
        received_at_unix,
    }
}

/// The error `serde_json` reports for a payload that is not JSON, as text
/// (`None` for well-formed JSON).
pub uninterp spec fn json_error(payload: Seq<char>) -> Option<Seq<char>>;

/// The string at a JSON pointer of a payload (`None` when the payload is
/// not JSON, nothing is there, or what is there is not a string).
pub uninterp spec fn json_str_at(payload: Seq<char>, pointer: Seq<char>) -> Option<Seq<char>>;

/// The JSON text of the value at a JSON pointer of a payload (`None` when
/// the payload is not JSON or nothing is there).
pub uninterp spec fn json_rendered_at(payload: Seq<char>, pointer: Seq<char>) -> Option<Seq<char>>;

/// Parses the payload with `serde_json::from_str` into a `Value`; gives the
/// parse error's text (its `Display`) on failure and `None` on success.
#[verifier::external_body]
fn json_parse_error(payload: &str) -> (r: Option<String>)
    ensures
        opt_text(r) == json_error(payload@),
{
    match serde_json::from_str::<serde_json::Value>(payload) {
        Ok(_) => None,
        Err(err) => Some(err.to_string()),
    }
}

/// Parses the payload with `serde_json::from_str`, looks up `pointer` with
/// `Value::pointer`, and gives the string there (`Value::as_str`).
#[verifier::external_body]
fn json_pointer_str(payload: &str, pointer: &str) -> (r: Option<String>)
    ensures
        opt_text(r) == json_str_at(payload@, pointer@),
{
    let value: serde_json::Value = match serde_json::from_str(payload) {
        Ok(v) => v,
        Err(_) => return None,
    };
    value.pointer(pointer).and_then(serde_json::Value::as_str).map(str::to_owned)
}

/// Parses the payload with `serde_json::from_str`, looks up `pointer` with
/// `Value::pointer`, and renders the value there as JSON (`to_string`).
#[verifier::external_body]
fn json_pointer_rendered(payload: &str, pointer: &str) -> (r: Option<String>)
    ensures
        opt_text(r) == json_rendered_at(payload@, pointer@),
{
    let value: serde_json::Value = match serde_json::from_str(payload) {
        Ok(v) => v,
        Err(_) => return None,
    };
    value.pointer(pointer).map(ToString::to_string)
}

/// The health report of one bridge: `degraded` after three or more
/// consecutive delivery failures, `healthy` otherwise.
pub fn to_health(bridge: &str, metrics: &BridgeMetrics) -> (h: BridgeHealth)
    ensures
        h.bridge@ == bridge@,
        h.inbound_events == metrics.inbound_events,
        h.outbound_sent == metrics.outbound_sent,
        h.outbound_failed == metrics.outbound_failed,
        h.consecutive_failures == metrics.consecutive_failures,
        h.status@ == if metrics.consecutive_failures >= 3 {
            "degraded"@
        } else {
            "healthy"@
        },
        opt_text(h.last_error) == opt_text(metrics.last_error),
        h.last_event_unix == metrics.last_event_unix,
{
    let status = if metrics.consecutive_failures >= 3 {
        "degraded".to_owned()
    } else {
        "healthy".to_owned()
    };
    let last_error = match &metrics.last_error {
        Some(e) => Some(e.clone()),
        None => None,
    };
    BridgeHealth {
        bridge: bridge.to_owned(),
        inbound_events: metrics.inbound_events,
        outbound_sent: metrics.outbound_sent,
        outbound_failed: metrics.outbound_failed,
        consecutive_failures: metrics.consecutive_failures,
        status,
        last_error,
        last_event_unix: metrics.last_event_unix,
    }
}

/// Checks a webhook call's signature header against the payload.
pub fn verify_signature(payload: &str, signature_header: Option<&str>, secret: &str) -> (r: Result<(), BridgeError>)
    ensures
        r is Ok <==> signature_accepted(secret@, payload@, opt_str_text(signature_header)),
        r matches Err(e) ==> e is InvalidSignature,
{
    if secret.is_empty() {
        return Ok(());
    }
    let signature = match signature_header {
        Some(s) => s,
        None => return Err(BridgeError::InvalidSignature),
    };
    let expected = signature_for(secret, payload);
    let trimmed_sig = trim_text(signature);
    let got = lowercase_text(trimmed_sig.as_str());
    if expected != got {
        return Err(BridgeError::InvalidSignature);
    }
    Ok(())
}

/// What a delivery attempt sends: the endpoint, the bearer token if any, and
/// the message.
#[derive(Debug, Clone)]
pub struct OutboundRequest {
    pub kind: BridgeKind,
    pub url: String,
    pub bearer_token: Option<String>,
    pub channel_id: String,
    pub text: String,
}

/// A checked outbound message with the number of delivery attempts it gets.
#[derive(Debug, Clone)]
pub struct OutboundPlan {
    pub reply: OutboundReply,
    pub max_attempts: u32,
}

/// What to do after a delivery attempt.
#[derive(Debug)]
pub enum OutboundStep {
    /// The message was delivered.
    Delivered,
    /// Wait this long, then try again.
    Backoff { backoff_ms: u64 },
    /// Wait this long, then give up with this error.
    Failed { backoff_ms: u64, error: BridgeError },
}

/// The wait after failed attempt number `attempt` (from 0): 150 ms doubled
/// per attempt, saturating at `u64::MAX`.
pub open spec fn backoff_spec(attempt: u32) -> u64 {
    let ms = 150 * vstd::arithmetic::power2::pow2(attempt as nat);
    if ms > u64::MAX {
        u64::MAX
    } else {
        ms as u64
    }
}

/// The wait after failed attempt number `attempt`.
pub fn retry_backoff_ms(attempt: u32) -> (ms: u64)
    ensures
        ms == backoff_spec(attempt),
{
    let mut ms: u64 = 150;
    let mut i: u32 = 0;
    proof {
        vstd::arithmetic::power2::lemma2_to64();
    }
    while i < attempt
        invariant
            i <= attempt,
            ms == backoff_spec(i),
        decreases attempt - i,
    {
        proof {
            vstd::arithmetic::power2::lemma_pow2_unfold((i + 1) as nat);
        }
        if ms > u64::MAX / 2 {
            ms = u64::MAX;
        } else {
            ms = ms * 2;
        }
        i = i + 1;
    }
    proof {
        vstd::arithmetic::power2::lemma2_to64();
    }
    ms
}

/// The message bridges, their limits and their counters. Delivery itself is
/// done by the caller, which follows the plan and steps given here.
pub struct BridgeHub {
    config: BridgeConfig,
    telegram_metrics: BridgeMetrics,
    whatsapp_metrics: BridgeMetrics,
    telegram_window: WindowRateCounter,
    whatsapp_window: WindowRateCounter,
}

impl BridgeHub {
    /// The configuration.
    pub closed spec fn config_spec(&self) -> BridgeConfig {
        self.config
    }

    /// The counters of a bridge.
    pub closed spec fn metrics_spec(&self, kind: BridgeKind) -> BridgeMetrics {
        match kind {
            BridgeKind::Telegram => self.telegram_metrics,
            BridgeKind::Whatsapp => self.whatsapp_metrics,
        }
    }

    /// The rate window of a bridge.
    pub closed spec fn window_spec(&self, kind: BridgeKind) -> WindowRateCounter {
        match kind {
            BridgeKind::Telegram => self.telegram_window,
            BridgeKind::Whatsapp => self.whatsapp_window,
        }
    }

    /// A hub with the given configuration, zero counters and empty windows.
    pub fn new(config: BridgeConfig) -> (hub: Self)
        ensures
            hub.config_spec() == config,
            forall|k: BridgeKind| #[trigger] hub.metrics_spec(k) == (BridgeMetrics {
                inbound_events: 0,
                outbound_sent: 0,
                outbound_failed: 0,
                consecutive_failures: 0,
                last_error: None,
                last_event_unix: None,
            }),
            forall|k: BridgeKind| #[trigger] hub.window_spec(k) == (WindowRateCounter {
                window_epoch_minute: 0,
                count: 0,
            }),
    {
        BridgeHub {
            config,
            telegram_metrics: BridgeMetrics::zero(),
            whatsapp_metrics: BridgeMetrics::zero(),
            telegram_window: WindowRateCounter { window_epoch_minute: 0, count: 0 },
            whatsapp_window: WindowRateCounter { window_epoch_minute: 0, count: 0 },
        }
    }
}


/// The name of a bridge.
pub open spec fn bridge_name(kind: BridgeKind) -> Seq<char> {
    match kind {
        BridgeKind::Telegram => "telegram"@,
        BridgeKind::Whatsapp => "whatsapp"@,
    }
}

/// The name of a bridge.
pub fn bridge_name_exec(kind: BridgeKind) -> (s: &'static str)
    ensures
        s@ == bridge_name(kind),
{
    match kind {
        BridgeKind::Telegram => "telegram",
        BridgeKind::Whatsapp => "whatsapp",
    }
}

/// The secret that signs a bridge's webhooks.
pub open spec fn signing_secret(config: BridgeConfig, kind: BridgeKind) -> Seq<char> {
    match kind {
        BridgeKind::Telegram => config.telegram_signing_secret@,
        BridgeKind::Whatsapp => config.whatsapp_signing_secret@,
    }
}

/// The other bridge.
pub open spec fn other_bridge(kind: BridgeKind) -> BridgeKind {
    match kind {
        BridgeKind::Telegram => BridgeKind::Whatsapp,
        BridgeKind::Whatsapp => BridgeKind::Telegram,
    }
}

impl BridgeHub {
    /// Whether a webhook call on `kind` at time `now` passes the signature
    /// check and the rate limit.
    pub open spec fn admits(&self, kind: BridgeKind, payload: Seq<char>, header: Option<Seq<char>>, now: u64) -> bool {
        &&& signature_accepted(signing_secret(self.config_spec(), kind), payload, header)
        &&& next_window(self.window_spec(kind), now).count <= self.config_spec().rate_limit_per_minute
    }

    /// Counts an inbound message on `kind` at time `now` against the
    /// per-minute limit; refuses it when the minute's count exceeds the limit.
    fn check_rate_limit(&mut self, kind: BridgeKind, now: u64) -> (r: Result<(), BridgeError>)
        ensures
            final(self).config_spec() == old(self).config_spec(),
            final(self).metrics_spec(BridgeKind::Telegram) == old(self).metrics_spec(BridgeKind::Telegram),
            final(self).metrics_spec(BridgeKind::Whatsapp) == old(self).metrics_spec(BridgeKind::Whatsapp),
            final(self).window_spec(kind) == next_window(old(self).window_spec(kind), now),
            final(self).window_spec(other_bridge(kind)) == old(self).window_spec(other_bridge(kind)),
            r is Ok <==> next_window(old(self).window_spec(kind), now).count
                <= old(self).config_spec().rate_limit_per_minute,
            r matches Err(e) ==> (e matches BridgeError::RateLimited(b) && b@ == bridge_name(kind)),
    {
        let minute = now / 60;
        let mut c = match kind {
            BridgeKind::Telegram => self.telegram_window,
            BridgeKind::Whatsapp => self.whatsapp_window,
        };
        if c.window_epoch_minute != minute {
            c.window_epoch_minute = minute;
            c.count = 0;
        }
        c.count = c.count.saturating_add(1);
        match kind {
            BridgeKind::Telegram => {
                self.telegram_window = c;
            },
            BridgeKind::Whatsapp => {
                self.whatsapp_window = c;
            },
        }
        if c.count > self.config.rate_limit_per_minute {
            return Err(BridgeError::RateLimited(bridge_name_exec(kind).to_owned()));
        }
        Ok(())
    }

    /// The signature check and the rate limit of a webhook call; the rate
    /// window moves only for calls whose signature is accepted.
    fn admit_webhook(&mut self, kind: BridgeKind, payload: &str, signature_header: Option<&str>, now: u64) -> (r: Result<(), BridgeError>)
        ensures
            final(self).config_spec() == old(self).config_spec(),
            final(self).metrics_spec(BridgeKind::Telegram) == old(self).metrics_spec(BridgeKind::Telegram),
            final(self).metrics_spec(BridgeKind::Whatsapp) == old(self).metrics_spec(BridgeKind::Whatsapp),
            final(self).window_spec(other_bridge(kind)) == old(self).window_spec(other_bridge(kind)),
            signature_accepted(signing_secret(old(self).config_spec(), kind), payload@, opt_str_text(signature_header))
                ==> final(self).window_spec(kind) == next_window(old(self).window_spec(kind), now),
            !signature_accepted(signing_secret(old(self).config_spec(), kind), payload@, opt_str_text(signature_header))
                ==> final(self).window_spec(kind) == old(self).window_spec(kind) && (r matches Err(e)
                && e is InvalidSignature),
            r is Ok <==> old(self).admits(kind, payload@, opt_str_text(signature_header), now),
            signature_accepted(signing_secret(old(self).config_spec(), kind), payload@, opt_str_text(signature_header))
                && r is Err ==> (r matches Err(e) && e matches BridgeError::RateLimited(b) && b@ == bridge_name(kind)),
    {
        let verified = match kind {
            BridgeKind::Telegram => verify_signature(payload, signature_header, self.config.telegram_signing_secret.as_str()),
            BridgeKind::Whatsapp => verify_signature(payload, signature_header, self.config.whatsapp_signing_secret.as_str()),
        };
        match verified {
            Err(e) => Err(e),
            Ok(()) => self.check_rate_limit(kind, now),
        }
    }

    /// Takes a Telegram webhook call received at time `now`: checks its
    /// signature and the rate limit, parses the payload, counts the message
    /// and gives it in bridge-independent form.
    pub fn ingest_telegram_webhook_at(&mut self, payload: &str, signature_header: Option<&str>, now: u64) -> (r: Result<NormalizedBridgeEvent, BridgeError>)
        requires
            old(self).metrics_spec(BridgeKind::Telegram).inbound_events < u64::MAX,
        ensures
            final(self).config_spec() == old(self).config_spec(),
            final(self).metrics_spec(BridgeKind::Whatsapp) == old(self).metrics_spec(BridgeKind::Whatsapp),
            final(self).window_spec(BridgeKind::Whatsapp) == old(self).window_spec(BridgeKind::Whatsapp),
            !signature_accepted(old(self).config_spec().telegram_signing_secret@, payload@, opt_str_text(signature_header))
                ==> (r matches Err(e) && e is InvalidSignature) && final(self).window_spec(BridgeKind::Telegram)
                == old(self).window_spec(BridgeKind::Telegram),
            signature_accepted(old(self).config_spec().telegram_signing_secret@, payload@, opt_str_text(signature_header))
                ==> final(self).window_spec(BridgeKind::Telegram) == next_window(old(self).window_spec(BridgeKind::Telegram), now),
            signature_accepted(old(self).config_spec().telegram_signing_secret@, payload@, opt_str_text(signature_header))
                && !old(self).admits(BridgeKind::Telegram, payload@, opt_str_text(signature_header), now)
                ==> (r matches Err(e) && e matches BridgeError::RateLimited(b) && b@ == "telegram"@),
            old(self).admits(BridgeKind::Telegram, payload@, opt_str_text(signature_header), now)
                && json_error(payload@) is Some ==> (r matches Err(e) && e matches BridgeError::Payload(m)
                && m@ == "invalid telegram payload: "@ + json_error(payload@)->0),
            r is Ok <==> old(self).admits(BridgeKind::Telegram, payload@, opt_str_text(signature_header), now)
                && json_error(payload@) is None,
            r is Ok ==> final(self).metrics_spec(BridgeKind::Telegram) == inbound_recorded(
                old(self).metrics_spec(BridgeKind::Telegram),
                now,
            ),
            r is Err ==> final(self).metrics_spec(BridgeKind::Telegram) == old(self).metrics_spec(BridgeKind::Telegram),
            r matches Ok(ev) ==> ev.bridge@ == "telegram"@ && ev.received_at_unix == now
                && ev.text@ == text_or(json_str_at(payload@, "/message/text"@), Seq::empty())
                && ev.user_id@ == text_or(json_rendered_at(payload@, "/message/from/id"@), "unknown"@)
                && ev.channel_id@ == text_or(json_rendered_at(payload@, "/message/chat/id"@), "unknown"@),
    {
        match self.admit_webhook(BridgeKind::Telegram, payload, signature_header, now) {
            Err(e) => return Err(e),
            Ok(()) => {},
        }
        match json_parse_error(payload) {
            Some(err) => {
                return Err(BridgeError::Payload(concat2("invalid telegram payload: ", err.as_str())));
            },
            None => {},
        }
        let text = json_pointer_str(payload, "/message/text");
        let user_id = json_pointer_rendered(payload, "/message/from/id");
        let channel_id = json_pointer_rendered(payload, "/message/chat/id");
        self.telegram_metrics.inbound_events = self.telegram_metrics.inbound_events + 1;
        self.telegram_metrics.last_event_unix = Some(now);
        Ok(normalized_event("telegram", text, user_id, channel_id, now))
    }

    /// Takes a WhatsApp webhook call received at time `now`: checks its
    /// signature and the rate limit, parses the payload, counts the message
    /// and gives it in bridge-independent form.
    pub fn ingest_whatsapp_webhook_at(&mut self, payload: &str, signature_header: Option<&str>, now: u64) -> (r: Result<NormalizedBridgeEvent, BridgeError>)
        requires
            old(self).metrics_spec(BridgeKind::Whatsapp).inbound_events < u64::MAX,
        ensures
            final(self).config_spec() == old(self).config_spec(),
            final(self).metrics_spec(BridgeKind::Telegram) == old(self).metrics_spec(BridgeKind::Telegram),
            final(self).window_spec(BridgeKind::Telegram) == old(self).window_spec(BridgeKind::Telegram),
            !signature_accepted(old(self).config_spec().whatsapp_signing_secret@, payload@, opt_str_text(signature_header))
                ==> (r matches Err(e) && e is InvalidSignature) && final(self).window_spec(BridgeKind::Whatsapp)
                == old(self).window_spec(BridgeKind::Whatsapp),
            signature_accepted(old(self).config_spec().whatsapp_signing_secret@, payload@, opt_str_text(signature_header))
                ==> final(self).window_spec(BridgeKind::Whatsapp) == next_window(old(self).window_spec(BridgeKind::Whatsapp), now),
            signature_accepted(old(self).config_spec().whatsapp_signing_secret@, payload@, opt_str_text(signature_header))
                && !old(self).admits(BridgeKind::Whatsapp, payload@, opt_str_text(signature_header), now)
                ==> (r matches Err(e) && e matches BridgeError::RateLimited(b) && b@ == "whatsapp"@),
            old(self).admits(BridgeKind::Whatsapp, payload@, opt_str_text(signature_header), now)
                && json_error(payload@) is Some ==> (r matches Err(e) && e matches BridgeError::Payload(m)
                && m@ == "invalid whatsapp payload: "@ + json_error(payload@)->0),
            r is Ok <==> old(self).admits(BridgeKind::Whatsapp, payload@, opt_str_text(signature_header), now)
                && json_error(payload@) is None,
            r is Ok ==> final(self).metrics_spec(BridgeKind::Whatsapp) == inbound_recorded(
                old(self).metrics_spec(BridgeKind::Whatsapp),
                now,
            ),
            r is Err ==> final(self).metrics_spec(BridgeKind::Whatsapp) == old(self).metrics_spec(BridgeKind::Whatsapp),
            r matches Ok(ev) ==> ev.bridge@ == "whatsapp"@ && ev.received_at_unix == now
                && ev.text@ == text_or(json_str_at(payload@, "/entry/0/changes/0/value/messages/0/text/body"@), Seq::empty())
                && ev.user_id@ == text_or(json_str_at(payload@, "/entry/0/changes/0/value/messages/0/from"@), "unknown"@)
                && ev.channel_id@ == text_or(json_rendered_at(payload@, "/entry/0/id"@), "unknown"@),
    {
        match self.admit_webhook(BridgeKind::Whatsapp, payload, signature_header, now) {
            Err(e) => return Err(e),
            Ok(()) => {},
        }
        match json_parse_error(payload) {
            Some(err) => {
                return Err(BridgeError::Payload(concat2("invalid whatsapp payload: ", err.as_str())));
            },
            None => {},
        }
        let text = json_pointer_str(payload, "/entry/0/changes/0/value/messages/0/text/body");
        let user_id = json_pointer_str(payload, "/entry/0/changes/0/value/messages/0/from");
        let channel_id = json_pointer_rendered(payload, "/entry/0/id");
        self.whatsapp_metrics.inbound_events = self.whatsapp_metrics.inbound_events + 1;
        self.whatsapp_metrics.last_event_unix = Some(now);
        Ok(normalized_event("whatsapp", text, user_id, channel_id, now))
    }

    /// Takes a Telegram webhook call, stamped with the current time.
    pub fn ingest_telegram_webhook(&mut self, payload: &str, signature_header: Option<&str>) -> (r: Result<NormalizedBridgeEvent, BridgeError>)
        requires
            old(self).metrics_spec(BridgeKind::Telegram).inbound_events < u64::MAX,
        ensures
            final(self).config_spec() == old(self).config_spec(),
            final(self).metrics_spec(BridgeKind::Whatsapp) == old(self).metrics_spec(BridgeKind::Whatsapp),
            final(self).window_spec(BridgeKind::Whatsapp) == old(self).window_spec(BridgeKind::Whatsapp),
            !signature_accepted(old(self).config_spec().telegram_signing_secret@, payload@, opt_str_text(signature_header))
                ==> (r matches Err(e) && e is InvalidSignature),
            exists|now: u64| {
                &&& final(self).window_spec(BridgeKind::Telegram) == if signature_accepted(
                    old(self).config_spec().telegram_signing_secret@,
                    payload@,
                    opt_str_text(signature_header),
                ) {
                    next_window(old(self).window_spec(BridgeKind::Telegram), now)
                } else {
                    old(self).window_spec(BridgeKind::Telegram)
                }
                &&& (r is Ok <==> old(self).admits(BridgeKind::Telegram, payload@, opt_str_text(signature_header), now)
                    && json_error(payload@) is None)
                &&& (r matches Ok(ev) ==> ev.received_at_unix == now)
                &&& (r is Ok ==> final(self).metrics_spec(BridgeKind::Telegram) == inbound_recorded(
                    old(self).metrics_spec(BridgeKind::Telegram),
                    now,
                ))
                &&& (r is Err ==> final(self).metrics_spec(BridgeKind::Telegram) == old(self).metrics_spec(BridgeKind::Telegram))
            },
            r matches Ok(ev) ==> ev.bridge@ == "telegram"@
                && ev.text@ == text_or(json_str_at(payload@, "/message/text"@), Seq::empty())
                && ev.user_id@ == text_or(json_rendered_at(payload@, "/message/from/id"@), "unknown"@)
                && ev.channel_id@ == text_or(json_rendered_at(payload@, "/message/chat/id"@), "unknown"@),
    {
        let now = now_unix();
        self.ingest_telegram_webhook_at(payload, signature_header, now)
    }

    /// Takes a WhatsApp webhook call, stamped with the current time.
    pub fn ingest_whatsapp_webhook(&mut self, payload: &str, signature_header: Option<&str>) -> (r: Result<NormalizedBridgeEvent, BridgeError>)
        requires
            old(self).metrics_spec(BridgeKind::Whatsapp).inbound_events < u64::MAX,
        ensures
            final(self).config_spec() == old(self).config_spec(),
            final(self).metrics_spec(BridgeKind::Telegram) == old(self).metrics_spec(BridgeKind::Telegram),
            final(self).window_spec(BridgeKind::Telegram) == old(self).window_spec(BridgeKind::Telegram),
            !signature_accepted(old(self).config_spec().whatsapp_signing_secret@, payload@, opt_str_text(signature_header))
                ==> (r matches Err(e) && e is InvalidSignature),
            exists|now: u64| {
                &&& final(self).window_spec(BridgeKind::Whatsapp) == if signature_accepted(
                    old(self).config_spec().whatsapp_signing_secret@,
                    payload@,
                    opt_str_text(signature_header),
                ) {
                    next_window(old(self).window_spec(BridgeKind::Whatsapp), now)
                } else {
                    old(self).window_spec(BridgeKind::Whatsapp)
                }
                &&& (r is Ok <==> old(self).admits(BridgeKind::Whatsapp, payload@, opt_str_text(signature_header), now)
                    && json_error(payload@) is None)
                &&& (r matches Ok(ev) ==> ev.received_at_unix == now)
                &&& (r is Ok ==> final(self).metrics_spec(BridgeKind::Whatsapp) == inbound_recorded(
                    old(self).metrics_spec(BridgeKind::Whatsapp),
                    now,
                ))
                &&& (r is Err ==> final(self).metrics_spec(BridgeKind::Whatsapp) == old(self).metrics_spec(BridgeKind::Whatsapp))
            },
            r matches Ok(ev) ==> ev.bridge@ == "whatsapp"@
                && ev.text@ == text_or(json_str_at(payload@, "/entry/0/changes/0/value/messages/0/text/body"@), Seq::empty())
                && ev.user_id@ == text_or(json_str_at(payload@, "/entry/0/changes/0/value/messages/0/from"@), "unknown"@)
                && ev.channel_id@ == text_or(json_rendered_at(payload@, "/entry/0/id"@), "unknown"@),
    {
        let now = now_unix();
        self.ingest_whatsapp_webhook_at(payload, signature_header, now)
    }

    /// The health reports of both bridges.
    pub fn health(&self) -> (h: BridgesHealthResponse)
        ensures
            h.telegram.bridge@ == "telegram"@,
            h.whatsapp.bridge@ == "whatsapp"@,
            h.telegram.inbound_events == self.metrics_spec(BridgeKind::Telegram).inbound_events,
            h.whatsapp.inbound_events == self.metrics_spec(BridgeKind::Whatsapp).inbound_events,
            h.telegram.outbound_sent == self.metrics_spec(BridgeKind::Telegram).outbound_sent,
            h.whatsapp.outbound_sent == self.metrics_spec(BridgeKind::Whatsapp).outbound_sent,
            h.telegram.outbound_failed == self.metrics_spec(BridgeKind::Telegram).outbound_failed,
            h.whatsapp.outbound_failed == self.metrics_spec(BridgeKind::Whatsapp).outbound_failed,
            h.telegram.consecutive_failures == self.metrics_spec(BridgeKind::Telegram).consecutive_failures,
            h.whatsapp.consecutive_failures == self.metrics_spec(BridgeKind::Whatsapp).consecutive_failures,
            h.telegram.status@ == (if self.metrics_spec(BridgeKind::Telegram).consecutive_failures >= 3 {
                "degraded"@
            } else {
                "healthy"@
            }),
            h.whatsapp.status@ == (if self.metrics_spec(BridgeKind::Whatsapp).consecutive_failures >= 3 {
                "degraded"@
            } else {
                "healthy"@
            }),
            opt_text(h.telegram.last_error) == opt_text(self.metrics_spec(BridgeKind::Telegram).last_error),
            opt_text(h.whatsapp.last_error) == opt_text(self.metrics_spec(BridgeKind::Whatsapp).last_error),
            h.telegram.last_event_unix == self.metrics_spec(BridgeKind::Telegram).last_event_unix,
            h.whatsapp.last_event_unix == self.metrics_spec(BridgeKind::Whatsapp).last_event_unix,
    {
        BridgesHealthResponse {
            telegram: to_health("telegram", &self.telegram_metrics),
            whatsapp: to_health("whatsapp", &self.whatsapp_metrics),
        }
    }
}


/// The endpoint that delivers a Telegram message for the given bot token.
pub open spec fn telegram_url(token: Seq<char>) -> Seq<char> {
    "https://api.telegram.org/bot"@ + token + "/sendMessage"@
}

/// The endpoint that delivers a WhatsApp message for the given API base URL.
pub open spec fn whatsapp_url(api_url: Seq<char>) -> Seq<char> {
    strip_trailing(api_url, '/') + "/messages"@
}

/// The number of delivery attempts a message gets: the configured number of
/// retries, and at least one.
pub open spec fn attempts_allowed(config: BridgeConfig) -> u32 {
    if config.outbound_max_retries < 1 {
        1
    } else {
        config.outbound_max_retries
    }
}

impl BridgeHub {
    /// Checks an outbound message before delivery: its text is trimmed, and
    /// an empty text is refused.
    pub fn prepare_outbound(&self, reply: OutboundReply) -> (r: Result<OutboundPlan, BridgeError>)
        ensures
            r is Ok <==> trimmed(reply.text@).len() > 0,
            r matches Ok(p) ==> p.reply.bridge == reply.bridge && p.reply.channel_id == reply.channel_id
                && p.reply.text@ == trimmed(reply.text@) && p.max_attempts == attempts_allowed(
                self.config_spec(),
            ),
            r matches Err(e) ==> (e matches BridgeError::Payload(m) && m@ == "empty outbound text"@),
    {
        let text = trim_text(reply.text.as_str());
        if text.as_str().is_empty() {
            return Err(BridgeError::Payload("empty outbound text".to_owned()));
        }
        let max_attempts = if self.config.outbound_max_retries < 1 {
            1
        } else {
            self.config.outbound_max_retries
        };
        Ok(OutboundPlan {
            reply: OutboundReply { bridge: reply.bridge, channel_id: reply.channel_id, text },
            max_attempts,
        })
    }

    /// What one delivery attempt of `reply` sends, or why it cannot be sent:
    /// the bridge's token is missing or the bridge is unknown.
    pub fn outbound_request(&self, reply: &OutboundReply) -> (r: Result<OutboundRequest, BridgeError>)
        ensures
            reply.bridge@ == "telegram"@ ==> {
                if self.config_spec().telegram_bot_token@.len() == 0 {
                    r matches Err(e) && e matches BridgeError::NotConfigured(m) && m@ == "telegram token missing"@
                } else {
                    r matches Ok(q) && q.kind == BridgeKind::Telegram && q.url@ == telegram_url(
                        self.config_spec().telegram_bot_token@,
                    ) && q.bearer_token is None && q.channel_id@ == reply.channel_id@ && q.text@
                        == reply.text@
                }
            },
            reply.bridge@ == "whatsapp"@ ==> {
                if self.config_spec().whatsapp_access_token@.len() == 0 {
                    r matches Err(e) && e matches BridgeError::NotConfigured(m) && m@ == "whatsapp access token missing"@
                } else {
                    r matches Ok(q) && q.kind == BridgeKind::Whatsapp && q.url@ == whatsapp_url(
                        self.config_spec().whatsapp_api_url@,
                    ) && opt_text(q.bearer_token) == Some(self.config_spec().whatsapp_access_token@)
                        && q.channel_id@ == reply.channel_id@ && q.text@ == reply.text@
                }
            },
            reply.bridge@ != "telegram"@ && reply.bridge@ != "whatsapp"@ ==> (r matches Err(e)
                && e matches BridgeError::Payload(m) && m@ == "unsupported bridge '"@ + reply.bridge@ + "'"@),
    {
        proof {
            reveal_strlit("telegram");
            reveal_strlit("whatsapp");
            assert("telegram"@[0] != "whatsapp"@[0]);
            assert("telegram"@ != "whatsapp"@);
        }
        if same_text(reply.bridge.as_str(), "telegram") {
            if self.config.telegram_bot_token.as_str().is_empty() {
                return Err(BridgeError::NotConfigured("telegram token missing"));
            }
            let url = concat3("https://api.telegram.org/bot", self.config.telegram_bot_token.as_str(), "/sendMessage");
            Ok(OutboundRequest {
                kind: BridgeKind::Telegram,
                url,
                bearer_token: None,
                channel_id: reply.channel_id.clone(),
                text: reply.text.clone(),
            })
        } else if same_text(reply.bridge.as_str(), "whatsapp") {
            if self.config.whatsapp_access_token.as_str().is_empty() {
                return Err(BridgeError::NotConfigured("whatsapp access token missing"));
            }
            let base = strip_trailing_exec(self.config.whatsapp_api_url.as_str(), '/');
            let url = concat2(base.as_str(), "/messages");
            Ok(OutboundRequest {
                kind: BridgeKind::Whatsapp,
                url,
                bearer_token: Some(self.config.whatsapp_access_token.clone()),
                channel_id: reply.channel_id.clone(),
                text: reply.text.clone(),
            })
        } else {
            Err(BridgeError::Payload(concat3("unsupported bridge '", reply.bridge.as_str(), "'")))
        }
    }

    /// Counts a delivered message on the bridge that `bridge` selects.
    fn record_success(&mut self, bridge: &str, now: u64)
        ensures
            final(self).config_spec() == old(self).config_spec(),
            forall|k: BridgeKind| #[trigger] final(self).window_spec(k) == old(self).window_spec(k),
            final(self).metrics_spec(metrics_target(bridge@)) == success_recorded(
                old(self).metrics_spec(metrics_target(bridge@)),
                now,
            ),
            final(self).metrics_spec(other_bridge(metrics_target(bridge@))) == old(self).metrics_spec(
                other_bridge(metrics_target(bridge@)),
            ),
    {
        let metrics = select_metrics_mut(bridge, &mut self.telegram_metrics, &mut self.whatsapp_metrics);
        metrics.outbound_sent = metrics.outbound_sent.saturating_add(1);
        metrics.consecutive_failures = 0;
        metrics.last_error = None;
        metrics.last_event_unix = Some(now);
    }

    /// Counts a failed delivery with the given error text on the bridge that
    /// `bridge` selects.
    fn record_failure(&mut self, bridge: &str, error: &str, now: u64)
        ensures
            final(self).config_spec() == old(self).config_spec(),
            forall|k: BridgeKind| #[trigger] final(self).window_spec(k) == old(self).window_spec(k),
            failure_recorded(
                old(self).metrics_spec(metrics_target(bridge@)),
                final(self).metrics_spec(metrics_target(bridge@)),
                error@,
                now,
            ),
            final(self).metrics_spec(other_bridge(metrics_target(bridge@))) == old(self).metrics_spec(
                other_bridge(metrics_target(bridge@)),
            ),
    {
        let metrics = select_metrics_mut(bridge, &mut self.telegram_metrics, &mut self.whatsapp_metrics);
        metrics.outbound_failed = metrics.outbound_failed.saturating_add(1);
        metrics.consecutive_failures = metrics.consecutive_failures.saturating_add(1);
        metrics.last_error = Some(error.to_owned());
        metrics.last_event_unix = Some(now);
    }

    /// Books the result of delivery attempt number `attempt` (from 0) of a
    /// planned message at time `now`, and says what comes next: done after a
    /// delivery; after a failure, a wait, then another attempt while the
    /// plan allows one, or giving up with the failure.
    pub fn outbound_step_at(&mut self, plan: &OutboundPlan, attempt: u32, result: Result<(), BridgeError>, now: u64) -> (step: OutboundStep)
        requires
            attempt < plan.max_attempts,
        ensures
            final(self).config_spec() == old(self).config_spec(),
            forall|k: BridgeKind| #[trigger] final(self).window_spec(k) == old(self).window_spec(k),
            final(self).metrics_spec(other_bridge(metrics_target(plan.reply.bridge@))) == old(self).metrics_spec(
                other_bridge(metrics_target(plan.reply.bridge@)),
            ),
            result is Ok ==> step is Delivered && final(self).metrics_spec(metrics_target(plan.reply.bridge@))
                == success_recorded(old(self).metrics_spec(metrics_target(plan.reply.bridge@)), now),
            result matches Err(e) ==> failure_recorded(
                old(self).metrics_spec(metrics_target(plan.reply.bridge@)),
                final(self).metrics_spec(metrics_target(plan.reply.bridge@)),
                bridge_error_text(e),
                now,
            ),
            result is Err && attempt + 1 < plan.max_attempts ==> (step matches OutboundStep::Backoff { backoff_ms }
                && backoff_ms == backoff_spec(attempt)),
            attempt + 1 >= plan.max_attempts ==> (result matches Err(e) ==> (step matches OutboundStep::Failed {
                backoff_ms,
                error,
            } && backoff_ms == backoff_spec(attempt) && error == e)),
    {
        match result {
            Ok(()) => {
                self.record_success(plan.reply.bridge.as_str(), now);
                OutboundStep::Delivered
            },
            Err(e) => {
                let text = e.message();
                self.record_failure(plan.reply.bridge.as_str(), text.as_str(), now);
                let backoff_ms = retry_backoff_ms(attempt);
                if attempt + 1 < plan.max_attempts {
                    OutboundStep::Backoff { backoff_ms }
                } else {
                    OutboundStep::Failed { backoff_ms, error: e }
                }
            },
        }
    }

    /// Books the result of a delivery attempt, stamped with the current time.
    pub fn outbound_step(&mut self, plan: &OutboundPlan, attempt: u32, result: Result<(), BridgeError>) -> (step: OutboundStep)
        requires
            attempt < plan.max_attempts,
        ensures
            final(self).config_spec() == old(self).config_spec(),
            forall|k: BridgeKind| #[trigger] final(self).window_spec(k) == old(self).window_spec(k),
            final(self).metrics_spec(other_bridge(metrics_target(plan.reply.bridge@))) == old(self).metrics_spec(
                other_bridge(metrics_target(plan.reply.bridge@)),
            ),
            result is Ok ==> step is Delivered,
            exists|now: u64| {
                &&& (result is Ok ==> final(self).metrics_spec(metrics_target(plan.reply.bridge@))
                    == success_recorded(old(self).metrics_spec(metrics_target(plan.reply.bridge@)), now))
                &&& (result matches Err(e) ==> failure_recorded(
                    old(self).metrics_spec(metrics_target(plan.reply.bridge@)),
                    final(self).metrics_spec(metrics_target(plan.reply.bridge@)),
                    bridge_error_text(e),
                    now,
                ))
            },
            result is Err && attempt + 1 < plan.max_attempts ==> (step matches OutboundStep::Backoff { backoff_ms }
                && backoff_ms == backoff_spec(attempt)),
            attempt + 1 >= plan.max_attempts ==> (result matches Err(e) ==> (step matches OutboundStep::Failed {
                backoff_ms,
                error,
            } && backoff_ms == backoff_spec(attempt) && error == e)),
    {
        let now = now_unix();
        self.outbound_step_at(plan, attempt, result, now)
    }
}

/// The counters that a bridge name selects for bookkeeping: Telegram's for
/// `telegram`, WhatsApp's for every other name.
fn select_metrics_mut<'a>(bridge: &str, telegram: &'a mut BridgeMetrics, whatsapp: &'a mut BridgeMetrics) -> (m: &'a mut BridgeMetrics)
    ensures
        metrics_target(bridge@) == BridgeKind::Telegram ==> *m == *old(telegram) && *final(telegram)
            == *final(m) && *final(whatsapp) == *old(whatsapp),
        metrics_target(bridge@) == BridgeKind::Whatsapp ==> *m == *old(whatsapp) && *final(whatsapp)
            == *final(m) && *final(telegram) == *old(telegram),
{
    if same_text(bridge, "telegram") {
        telegram
    } else {
        whatsapp
    }
}

/// The rate window after `k` calls at time `now`, starting from `c`.
pub open spec fn window_after_calls(c: WindowRateCounter, now: u64, k: nat) -> WindowRateCounter
    decreases k,
{
    if k == 0 {
        c
    } else {
        next_window(window_after_calls(c, now, (k - 1) as nat), now)
    }
}

/// Per-minute limit: starting from a window of an earlier minute, the `k`-th
/// signed call within the same minute brings the count to `k`, so exactly the
/// first `limit` calls of the minute are admitted.
pub proof fn law_rate_limit_admits_first_calls(c: WindowRateCounter, now: u64, k: nat, limit: u32)
    requires
        c.window_epoch_minute != now / 60,
        1 <= k <= u32::MAX,
    ensures
        window_after_calls(c, now, k).count == k,
        window_after_calls(c, now, k).window_epoch_minute == now / 60,
        (window_after_calls(c, now, k).count <= limit) <==> k <= limit,
    decreases k,
{
    if k > 1 {
        law_rate_limit_admits_first_calls(c, now, (k - 1) as nat, limit);
    } else {
        assert(window_after_calls(c, now, 0) == c);
    }
}

/// A delivery clears the failure streak to zero and the last error, counts
/// one more sent message and leaves the other counters alone, so the bridge
/// reports healthy; after it, `k` failures in a row leave a streak of exactly
/// `k`.
pub proof fn law_delivery_restores_health(m: BridgeMetrics, now: u64)
    ensures
        success_recorded(m, now).consecutive_failures == 0,
        success_recorded(m, now).last_error is None,
        success_recorded(m, now).last_event_unix == Some(now),
        m.outbound_sent < u64::MAX ==> success_recorded(m, now).outbound_sent == m.outbound_sent + 1,
        success_recorded(m, now).inbound_events == m.inbound_events,
        success_recorded(m, now).outbound_failed == m.outbound_failed,
        forall|after: BridgeMetrics, e: Seq<char>, t: u64|
            #[trigger] failure_recorded(success_recorded(m, now), after, e, t) ==> after.consecutive_failures == 1,
{
}

/// Three failed deliveries in a row, with no delivery between them, make a
/// bridge report degraded.
pub proof fn law_three_failures_degrade(m0: BridgeMetrics, m1: BridgeMetrics, m2: BridgeMetrics, m3: BridgeMetrics, e1: Seq<char>, e2: Seq<char>, e3: Seq<char>, t1: u64, t2: u64, t3: u64)
    requires
        failure_recorded(m0, m1, e1, t1),
        failure_recorded(m1, m2, e2, t2),
        failure_recorded(m2, m3, e3, t3),
    ensures
        m3.consecutive_failures >= 3,
{
}

/// A webhook call whose header holds the signature of its payload under the
/// configured secret passes the signature check.
pub proof fn law_signed_payload_accepted(secret: Seq<char>, payload: Seq<char>)
    ensures
        signature_accepted(secret, payload, Some(signature_spec(secret, payload))),
{
    lemma_hex_lower_normalized(sha256(encode_utf8(secret) + seq![58u8] + encode_utf8(payload)));
}

} // verus!
