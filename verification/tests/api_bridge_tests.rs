use rune_core::api_bridge::extract_header;
use rune_core::api_bridge::extract_request_id;
use rune_core::api_bridge::extract_request_tracking_id;
use rune_core::api_bridge::map_api_error;
use rune_core::api_bridge::ApiError;
use rune_core::api_bridge::CoreAuthProvider;
use rune_core::api_bridge::Header;
use rune_core::api_bridge::RuneAuth;
use rune_core::api_bridge::TransportError;
use rune_core::client::ModelProviderInfo;
use rune_core::client::WireApi;
use rune_core::error::RuneErr;
use rune_core::protocol::RateLimitSnapshot;
use rune_core::protocol::RateLimitWindow;
use rune_core::api_bridge::auth_provider_from_auth;

fn header(name: &str, value: &str) -> Header {
    Header {
        name: name.to_string(),
        value: value.to_string(),
    }
}

#[test]
fn map_api_error_maps_model_cap_headers() {
    let headers = vec![
        header("x-rune-model-cap-model", "boomslang"),
        header("x-rune-model-cap-reset-after-seconds", "120"),
    ];
    let err = map_api_error(ApiError::Transport(TransportError::Http {
        status: 429,
        url: Some("http://example.com/v1/responses".to_string()),
        headers: Some(headers),
        body: Some(String::new()),
    }));

    let RuneErr::ModelCap(model_cap) = err else {
        panic!("expected RuneErr::ModelCap, got {err:?}");
    };
    assert_eq!(model_cap.model, "boomslang");
    assert_eq!(model_cap.reset_after_seconds, Some(120));
}

#[test]
fn usage_limit_errors_carry_the_header_rate_limits_and_promo() {
    let body = "{\"error\":{\"type\":\"usage_limit_reached\",\"plan_type\":\"plus\"}}";
    let headers = vec![
        header("x-rune-primary-used-percent", "85"),
        header("x-rune-primary-reset-after-seconds", "3600"),
        header("x-rune-secondary-used-percent", "40"),
        header("x-rune-promo-message", "upgrade for more"),
    ];
    let err = map_api_error(ApiError::Transport(TransportError::Http {
        status: 429,
        url: None,
        headers: Some(headers),
        body: Some(body.to_string()),
    }));
    let RuneErr::UsageLimitReached(u) = err else {
        panic!("expected UsageLimitReached, got {err:?}");
    };
    assert_eq!(
        u.rate_limits,
        Some(RateLimitSnapshot {
            primary: Some(RateLimitWindow {
                used_percent: 85,
                resets_in_seconds: Some(3600),
            }),
            secondary: Some(RateLimitWindow {
                used_percent: 40,
                resets_in_seconds: None,
            }),
        })
    );
    assert_eq!(u.promo_message, Some("upgrade for more".to_string()));
}

#[test]
fn usage_limit_body_parses_through_the_json_reader() {
    let body = "{\"error\":{\"type\":\"usage_limit_reached\",\"plan_type\":\"plus\",\"resets_at\":1431648000}}";
    let err = map_api_error(ApiError::Transport(TransportError::Http {
        status: 429,
        url: None,
        headers: None,
        body: Some(body.to_string()),
    }));
    let RuneErr::UsageLimitReached(u) = err else {
        panic!("expected UsageLimitReached, got {err:?}");
    };
    assert_eq!(u.plan_type, Some("plus".to_string()));
    assert_eq!(u.resets_at, Some(1431648000));
    assert_eq!(u.rate_limits, None);
    assert_eq!(u.promo_message, None);
}

#[test]
fn usage_limit_with_out_of_range_reset_drops_the_timestamp() {
    let body = "{\"error\":{\"type\":\"usage_limit_reached\",\"resets_at\":9223372036854775807}}";
    let err = map_api_error(ApiError::Transport(TransportError::Http {
        status: 429,
        url: None,
        headers: None,
        body: Some(body.to_string()),
    }));
    let RuneErr::UsageLimitReached(u) = err else {
        panic!("expected UsageLimitReached, got {err:?}");
    };
    assert_eq!(u.resets_at, None);
}

#[test]
fn usage_not_included_body_maps_to_its_variant() {
    let body = "{\"error\":{\"type\":\"usage_not_included\"}}";
    let err = map_api_error(ApiError::Transport(TransportError::Http {
        status: 429,
        url: None,
        headers: None,
        body: Some(body.to_string()),
    }));
    assert_eq!(err, RuneErr::UsageNotIncluded);
}

#[test]
fn unparseable_429_falls_back_to_retry_limit_with_tracking_id() {
    let err = map_api_error(ApiError::Transport(TransportError::Http {
        status: 429,
        url: None,
        headers: Some(vec![header("cf-ray", "ray-77")]),
        body: Some("not json".to_string()),
    }));
    let RuneErr::RetryLimit(rl) = err else {
        panic!("expected RetryLimit, got {err:?}");
    };
    assert_eq!(rl.status, 429);
    assert_eq!(rl.request_id, Some("ray-77".to_string()));
}

#[test]
fn bad_request_with_image_phrase_is_typed() {
    let err = map_api_error(ApiError::Transport(TransportError::Http {
        status: 400,
        url: None,
        headers: None,
        body: Some(
            "The image data you provided does not represent a valid image; sorry".to_string(),
        ),
    }));
    assert_eq!(err, RuneErr::InvalidImageRequest);
    let err = map_api_error(ApiError::Transport(TransportError::Http {
        status: 400,
        url: None,
        headers: None,
        body: Some("field missing".to_string()),
    }));
    assert_eq!(err, RuneErr::InvalidRequest("field missing".to_string()));
}

#[test]
fn other_statuses_become_unexpected_status_with_request_ids() {
    let err = map_api_error(ApiError::Transport(TransportError::Http {
        status: 503,
        url: Some("http://x/y".to_string()),
        headers: Some(vec![
            header("x-request-id", "req-1"),
            header("cf-ray", "ray-2"),
        ]),
        body: Some("overloaded".to_string()),
    }));
    let RuneErr::UnexpectedStatus(ue) = err else {
        panic!("expected UnexpectedStatus, got {err:?}");
    };
    assert_eq!(ue.status, 503);
    assert_eq!(ue.body, "overloaded");
    assert_eq!(ue.url, Some("http://x/y".to_string()));
    assert_eq!(ue.request_id, Some("req-1".to_string()));
    assert_eq!(ue.cf_ray, Some("ray-2".to_string()));
}

#[test]
fn simple_variants_map_one_to_one() {
    assert_eq!(
        map_api_error(ApiError::ContextWindowExceeded),
        RuneErr::ContextWindowExceeded
    );
    assert_eq!(map_api_error(ApiError::QuotaExceeded), RuneErr::QuotaExceeded);
    assert_eq!(
        map_api_error(ApiError::UsageNotIncluded),
        RuneErr::UsageNotIncluded
    );
    assert_eq!(
        map_api_error(ApiError::Stream("eof".to_string())),
        RuneErr::Stream("eof".to_string(), None)
    );
    assert_eq!(
        map_api_error(ApiError::Retryable {
            message: "again".to_string(),
            delay_ms: Some(250)
        }),
        RuneErr::Stream("again".to_string(), Some(250))
    );
    assert_eq!(
        map_api_error(ApiError::Transport(TransportError::Timeout)),
        RuneErr::Timeout
    );
    let err = map_api_error(ApiError::Transport(TransportError::RetryLimit));
    let RuneErr::RetryLimit(rl) = err else {
        panic!("expected RetryLimit");
    };
    assert_eq!(rl.status, 500);
    assert_eq!(rl.request_id, None);
    let err = map_api_error(ApiError::Transport(TransportError::Http {
        status: 500,
        url: None,
        headers: None,
        body: None,
    }));
    assert_eq!(err, RuneErr::InternalServerError);
}

#[test]
fn header_extraction_prefers_request_id_headers() {
    let hs = vec![
        header("x-oai-request-id", "oai-9"),
        header("cf-ray", "ray-3"),
    ];
    assert_eq!(extract_header(Some(&hs), "cf-ray"), Some("ray-3".to_string()));
    assert_eq!(extract_header(Some(&hs), "missing"), None);
    assert_eq!(extract_header(None, "cf-ray"), None);
    assert_eq!(extract_request_id(Some(&hs)), Some("oai-9".to_string()));
    let only_ray = vec![header("cf-ray", "ray-3")];
    assert_eq!(extract_request_id(Some(&only_ray)), None);
    assert_eq!(
        extract_request_tracking_id(Some(&only_ray)),
        Some("ray-3".to_string())
    );
}

fn provider(api_key: Option<&str>, bearer: Option<&str>) -> ModelProviderInfo {
    ModelProviderInfo {
        name: "mock".to_string(),
        base_url: "http://localhost".to_string(),
        wire_api: WireApi::Responses,
        api_key: api_key.map(str::to_string),
        experimental_bearer_token: bearer.map(str::to_string),
        request_max_retries: 3,
        stream_max_retries: 2,
    }
}

#[test]
fn auth_provider_prefers_api_key_then_bearer_then_login() {
    let r = auth_provider_from_auth(None, &provider(Some("sk-test"), Some("tok"))).unwrap();
    assert_eq!(r.bearer_token(), Some("sk-test".to_string()));
    assert_eq!(r.account_id(), None);

    let r = auth_provider_from_auth(None, &provider(None, Some("tok"))).unwrap();
    assert_eq!(r.bearer_token(), Some("tok".to_string()));

    let auth = RuneAuth {
        token: Some("login-token".to_string()),
        account_id: Some("acct-1".to_string()),
    };
    let r = auth_provider_from_auth(Some(auth), &provider(None, None)).unwrap();
    assert_eq!(r.bearer_token(), Some("login-token".to_string()));
    assert_eq!(r.account_id(), Some("acct-1".to_string()));

    let r = auth_provider_from_auth(None, &provider(None, None)).unwrap();
    assert_eq!(
        r,
        CoreAuthProvider {
            token: None,
            account_id: None
        }
    );

    let broken = RuneAuth {
        token: None,
        account_id: None,
    };
    assert!(auth_provider_from_auth(Some(broken), &provider(None, None)).is_err());
}
