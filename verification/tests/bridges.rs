use ultra_core::bridges::{
    normalized_event, retry_backoff_ms, to_health, verify_signature, BridgeConfig, BridgeError,
    BridgeHub, BridgeKind, BridgeMetrics, OutboundReply, OutboundStep,
};
use ultra_core::digest::signature_for;

fn config(limit: u32, retries: u32) -> BridgeConfig {
    BridgeConfig {
        telegram_bot_token: String::new(),
        telegram_signing_secret: String::new(),
        whatsapp_api_url: "https://example.com".to_owned(),
        whatsapp_access_token: String::new(),
        whatsapp_signing_secret: String::new(),
        rate_limit_per_minute: limit,
        outbound_max_retries: retries,
    }
}

#[test]
fn signature_matches() {
    let payload = "{\"x\":1}";
    let sig = signature_for("abc", payload);
    assert_eq!(sig, signature_for("abc", payload));
}

#[test]
fn signature_is_hex_sha256_of_secret_colon_payload() {
    assert_eq!(
        signature_for("abc", "{\"x\":1}"),
        "af8cf91504fdb9fce76d2ca0b1315b00756deb5f5b55940baee5d46f1559ae12"
    );
}

#[test]
fn rate_limit_blocks_after_threshold() {
    let mut hub = BridgeHub::new(BridgeConfig {
        telegram_bot_token: String::new(),
        telegram_signing_secret: String::new(),
        whatsapp_api_url: "https://example.com".to_owned(),
        whatsapp_access_token: String::new(),
        whatsapp_signing_secret: String::new(),
        rate_limit_per_minute: 1,
        outbound_max_retries: 1,
    });

    let p = r#"{"message":{"text":"hi"}}"#;
    let _ = hub.ingest_telegram_webhook(p, None);
    let second = hub.ingest_telegram_webhook(p, None);
    assert!(matches!(second, Err(BridgeError::RateLimited(_))));
}

#[test]
fn rate_window_restarts_each_minute() {
    let mut hub = BridgeHub::new(config(2, 1));
    let p = r#"{"message":{"text":"hi"}}"#;
    assert!(hub.ingest_telegram_webhook_at(p, None, 600).is_ok());
    assert!(hub.ingest_telegram_webhook_at(p, None, 610).is_ok());
    assert!(matches!(hub.ingest_telegram_webhook_at(p, None, 619), Err(BridgeError::RateLimited(b)) if b == "telegram"));
    assert!(hub.ingest_telegram_webhook_at(p, None, 660).is_ok());
    // WhatsApp has its own window.
    assert!(hub.ingest_whatsapp_webhook_at("{}", None, 619).is_ok());
}

#[test]
fn telegram_event_fields_come_from_the_payload() {
    let mut hub = BridgeHub::new(config(10, 1));
    let p = r#"{"message":{"text":"hello","from":{"id":42},"chat":{"id":"c-7"}}}"#;
    let ev = hub.ingest_telegram_webhook_at(p, None, 1000).unwrap();
    assert_eq!(ev.bridge, "telegram");
    assert_eq!(ev.text, "hello");
    assert_eq!(ev.user_id, "42");
    assert_eq!(ev.channel_id, "\"c-7\"");
    assert_eq!(ev.received_at_unix, 1000);
    let h = hub.health();
    assert_eq!(h.telegram.inbound_events, 1);
    assert_eq!(h.telegram.last_event_unix, Some(1000));
    assert_eq!(h.whatsapp.inbound_events, 0);
}

#[test]
fn missing_fields_get_defaults() {
    let mut hub = BridgeHub::new(config(10, 1));
    let ev = hub.ingest_telegram_webhook_at("{}", None, 5).unwrap();
    assert_eq!(ev.text, "");
    assert_eq!(ev.user_id, "unknown");
    assert_eq!(ev.channel_id, "unknown");
}

#[test]
fn whatsapp_event_fields_come_from_the_payload() {
    let mut hub = BridgeHub::new(config(10, 1));
    let p = r#"{"entry":[{"id":"E1","changes":[{"value":{"messages":[{"from":"4915","text":{"body":"hey"}}]}}]}]}"#;
    let ev = hub.ingest_whatsapp_webhook_at(p, None, 77).unwrap();
    assert_eq!(ev.bridge, "whatsapp");
    assert_eq!(ev.text, "hey");
    assert_eq!(ev.user_id, "4915");
    assert_eq!(ev.channel_id, "\"E1\"");
}

#[test]
fn invalid_json_is_a_payload_error() {
    let mut hub = BridgeHub::new(config(10, 1));
    match hub.ingest_whatsapp_webhook_at("not json", None, 1) {
        Err(BridgeError::Payload(m)) => assert!(m.starts_with("invalid whatsapp payload: "), "{m}"),
        other => panic!("unexpected {other:?}"),
    }
    assert_eq!(hub.health().whatsapp.inbound_events, 0);
}

#[test]
fn signed_webhooks_need_a_matching_header() {
    let mut cfg = config(10, 1);
    cfg.telegram_signing_secret = "secret".to_owned();
    let mut hub = BridgeHub::new(cfg);
    let p = r#"{"message":{"text":"hi"}}"#;
    assert!(matches!(hub.ingest_telegram_webhook_at(p, None, 1), Err(BridgeError::InvalidSignature)));
    assert!(matches!(hub.ingest_telegram_webhook_at(p, Some("00"), 1), Err(BridgeError::InvalidSignature)));
    let good = "  D693BD5CF87EB1B4635B8E90F3E17F4C874F57D2971F942946A230629131841D \n";
    assert!(hub.ingest_telegram_webhook_at(p, Some(good), 1).is_ok());
}

#[test]
fn verify_signature_without_secret_accepts_anything() {
    assert!(verify_signature("x", None, "").is_ok());
    assert!(matches!(verify_signature("x", None, "s"), Err(BridgeError::InvalidSignature)));
}

#[test]
fn outbound_text_is_trimmed_and_must_not_be_empty() {
    let hub = BridgeHub::new(config(10, 0));
    let reply = OutboundReply { bridge: "telegram".to_owned(), channel_id: "1".to_owned(), text: "  hi \n".to_owned() };
    let plan = hub.prepare_outbound(reply).unwrap();
    assert_eq!(plan.reply.text, "hi");
    assert_eq!(plan.max_attempts, 1);
    let empty = OutboundReply { bridge: "telegram".to_owned(), channel_id: "1".to_owned(), text: " \t ".to_owned() };
    assert!(matches!(hub.prepare_outbound(empty), Err(BridgeError::Payload(m)) if m == "empty outbound text"));
}

#[test]
fn outbound_requests_per_bridge() {
    let mut cfg = config(10, 3);
    cfg.telegram_bot_token = "TOKEN".to_owned();
    cfg.whatsapp_access_token = "WA".to_owned();
    cfg.whatsapp_api_url = "https://graph.example.com/v20.0//".to_owned();
    let hub = BridgeHub::new(cfg);
    let t = OutboundReply { bridge: "telegram".to_owned(), channel_id: "9".to_owned(), text: "x".to_owned() };
    let q = hub.outbound_request(&t).unwrap();
    assert_eq!(q.kind, BridgeKind::Telegram);
    assert_eq!(q.url, "https://api.telegram.org/botTOKEN/sendMessage");
    assert!(q.bearer_token.is_none());
    let w = OutboundReply { bridge: "whatsapp".to_owned(), channel_id: "9".to_owned(), text: "x".to_owned() };
    let q = hub.outbound_request(&w).unwrap();
    assert_eq!(q.url, "https://graph.example.com/v20.0/messages");
    assert_eq!(q.bearer_token.as_deref(), Some("WA"));
    let o = OutboundReply { bridge: "sms".to_owned(), channel_id: "9".to_owned(), text: "x".to_owned() };
    assert!(matches!(hub.outbound_request(&o), Err(BridgeError::Payload(m)) if m == "unsupported bridge 'sms'"));
}

#[test]
fn missing_tokens_are_not_configured() {
    let hub = BridgeHub::new(config(10, 3));
    let t = OutboundReply { bridge: "telegram".to_owned(), channel_id: "9".to_owned(), text: "x".to_owned() };
    assert!(matches!(hub.outbound_request(&t), Err(BridgeError::NotConfigured("telegram token missing"))));
    let w = OutboundReply { bridge: "whatsapp".to_owned(), channel_id: "9".to_owned(), text: "x".to_owned() };
    assert!(matches!(hub.outbound_request(&w), Err(BridgeError::NotConfigured("whatsapp access token missing"))));
}

#[test]
fn retries_then_fails_and_degrades_health() {
    let mut hub = BridgeHub::new(config(10, 3));
    let reply = OutboundReply { bridge: "whatsapp".to_owned(), channel_id: "1".to_owned(), text: "hi".to_owned() };
    let plan = hub.prepare_outbound(reply).unwrap();
    assert_eq!(plan.max_attempts, 3);
    let s0 = hub.outbound_step_at(&plan, 0, Err(BridgeError::Http("boom".to_owned())), 10);
    assert!(matches!(s0, OutboundStep::Backoff { backoff_ms: 150 }));
    let s1 = hub.outbound_step_at(&plan, 1, Err(BridgeError::Http("boom".to_owned())), 11);
    assert!(matches!(s1, OutboundStep::Backoff { backoff_ms: 300 }));
    let s2 = hub.outbound_step_at(&plan, 2, Err(BridgeError::Http("boom".to_owned())), 12);
    assert!(matches!(s2, OutboundStep::Failed { backoff_ms: 600, error: BridgeError::Http(_) }));
    let h = hub.health();
    assert_eq!(h.whatsapp.outbound_failed, 3);
    assert_eq!(h.whatsapp.consecutive_failures, 3);
    assert_eq!(h.whatsapp.status, "degraded");
    assert_eq!(h.whatsapp.last_error.as_deref(), Some("http error: boom"));
    assert_eq!(h.whatsapp.last_event_unix, Some(12));
    let ok = hub.outbound_step_at(&plan, 0, Ok(()), 13);
    assert!(matches!(ok, OutboundStep::Delivered));
    let h = hub.health();
    assert_eq!(h.whatsapp.outbound_sent, 1);
    assert_eq!(h.whatsapp.status, "healthy");
    assert!(h.whatsapp.last_error.is_none());
}

#[test]
fn unknown_bridges_are_booked_on_whatsapp() {
    let mut hub = BridgeHub::new(config(10, 1));
    let reply = OutboundReply { bridge: "sms".to_owned(), channel_id: "1".to_owned(), text: "hi".to_owned() };
    let plan = hub.prepare_outbound(reply).unwrap();
    let _ = hub.outbound_step_at(&plan, 0, Err(BridgeError::Payload("x".to_owned())), 3);
    let h = hub.health();
    assert_eq!(h.whatsapp.outbound_failed, 1);
    assert_eq!(h.telegram.outbound_failed, 0);
}

#[test]
fn backoff_doubles_and_saturates() {
    assert_eq!(retry_backoff_ms(0), 150);
    assert_eq!(retry_backoff_ms(3), 1200);
    assert_eq!(retry_backoff_ms(70), u64::MAX);
}

#[test]
fn error_messages_match_their_display() {
    assert_eq!(BridgeError::NotConfigured("x").message(), "bridge not configured: x");
    assert_eq!(BridgeError::InvalidSignature.message(), "signature verification failed");
    assert_eq!(BridgeError::RateLimited("telegram".to_owned()).message(), "rate limit exceeded for bridge telegram");
    assert_eq!(BridgeError::Http("e".to_owned()).message(), "http error: e");
    assert_eq!(BridgeError::Payload("p".to_owned()).message(), "payload error: p");
}

#[test]
fn health_status_thresholds() {
    let mut m = BridgeMetrics::zero();
    m.consecutive_failures = 2;
    assert_eq!(to_health("telegram", &m).status, "healthy");
    m.consecutive_failures = 3;
    assert_eq!(to_health("telegram", &m).status, "degraded");
}

#[test]
fn normalized_event_defaults() {
    let ev = normalized_event("telegram", None, Some("u".to_owned()), None, 9);
    assert_eq!(ev.text, "");
    assert_eq!(ev.user_id, "u");
    assert_eq!(ev.channel_id, "unknown");
}

#[test]
fn computed_signatures_are_accepted() {
    for (secret, payload) in [("abc", "{\"x\":1}"), ("k", ""), ("ключ", "{\"text\":\"héllo\"}")] {
        let sig = signature_for(secret, payload);
        assert!(verify_signature(payload, Some(sig.as_str()), secret).is_ok());
        assert!(verify_signature(payload, Some(sig.to_uppercase().as_str()), secret).is_ok());
    }
}

#[test]
fn untimed_telegram_intake_counts_the_message() {
    let mut hub = BridgeHub::new(config(10, 1));
    let p = r#"{"message":{"text":"hi","from":{"id":42},"chat":{"id":-7}}}"#;
    let ev = hub.ingest_telegram_webhook(p, None).expect("accepted");
    assert_eq!(ev.bridge, "telegram");
    assert_eq!(ev.user_id, "42");
    assert_eq!(ev.channel_id, "-7");
    assert_eq!(ev.text, "hi");
    let h = hub.health();
    assert_eq!(h.telegram.inbound_events, 1);
    assert_eq!(h.whatsapp.inbound_events, 0);
}

#[test]
fn untimed_whatsapp_intake_counts_the_message() {
    let mut hub = BridgeHub::new(config(10, 1));
    let p = r#"{"entry":[{"id":99,"changes":[{"value":{"messages":[{"from":"15550001","text":{"body":"hello"}}]}}]}]}"#;
    let ev = hub.ingest_whatsapp_webhook(p, None).expect("accepted");
    assert_eq!(ev.bridge, "whatsapp");
    assert_eq!(ev.user_id, "15550001");
    assert_eq!(ev.channel_id, "99");
    assert_eq!(ev.text, "hello");
    assert_eq!(hub.health().whatsapp.inbound_events, 1);
    assert!(hub.ingest_whatsapp_webhook("not json", None).is_err());
    assert_eq!(hub.health().whatsapp.inbound_events, 1);
}

#[test]
fn refused_untimed_intake_leaves_health_unchanged() {
    let mut cfg = config(10, 1);
    cfg.telegram_signing_secret = "secret".to_owned();
    let mut hub = BridgeHub::new(cfg);
    let p = r#"{"message":{"text":"hi"}}"#;
    assert!(matches!(hub.ingest_telegram_webhook(p, Some("00")), Err(BridgeError::InvalidSignature)));
    let h = hub.health();
    assert_eq!(h.telegram.inbound_events, 0);
    assert_eq!(h.telegram.last_event_unix, None);
}

#[test]
fn signatures_are_64_lowercase_hex_chars() {
    for (secret, payload) in [("abc", "{}"), ("", ""), ("k", "héllo")] {
        let sig = signature_for(secret, payload);
        assert_eq!(sig.chars().count(), 64);
        assert!(sig.chars().all(|c| c.is_ascii_digit() || ('a'..='f').contains(&c)));
    }
}
