use plingding::config::PushProvider;
use plingding::dispatch::{
    build_dispatch_request, interpret_response, ntfy_priority_label, Attachment, DispatchError,
    HttpRequestPlan, NtfyBody,
};

fn pushover_provider(base_url: Option<&str>, user_key: Option<&str>) -> PushProvider {
    PushProvider {
        name: "po".to_string(),
        provider_type: "pushover".to_string(),
        api_key: "SECRET-REDACTED".to_string(),
        user_key: user_key.map(|u| u.to_string()),
        base_url: base_url.map(|u| u.to_string()),
        default: true,
    }
}

fn ntfy_provider(base_url: Option<&str>) -> PushProvider {
    PushProvider {
        name: "nt".to_string(),
        provider_type: "ntfy".to_string(),
        api_key: "SECRET-REDACTED".to_string(),
        user_key: None,
        base_url: base_url.map(|u| u.to_string()),
        default: true,
    }
}

fn field_pairs(plan: &HttpRequestPlan) -> Vec<(String, String)> {
    match plan {
        HttpRequestPlan::MultipartPost { fields, .. } => {
            fields.iter().map(|f| (f.name.clone(), f.value.clone())).collect()
        }
        _ => panic!("expected a multipart plan"),
    }
}

#[test]
fn priority_labels_are_total() {
    assert_eq!(ntfy_priority_label(-2), "min");
    assert_eq!(ntfy_priority_label(-1), "low");
    assert_eq!(ntfy_priority_label(0), "default");
    assert_eq!(ntfy_priority_label(1), "high");
    assert_eq!(ntfy_priority_label(2), "max");
    assert_eq!(ntfy_priority_label(3), "default");
    assert_eq!(ntfy_priority_label(-3), "default");
    assert_eq!(ntfy_priority_label(i8::MAX), "default");
    assert_eq!(ntfy_priority_label(i8::MIN), "default");
}

#[test]
fn pushover_plan_has_the_four_fields() {
    let p = pushover_provider(None, Some("user-1"));
    let plan = build_dispatch_request(&p, "hello", 1, None).unwrap();
    assert_eq!(
        field_pairs(&plan),
        vec![
            ("token".to_string(), "SECRET-REDACTED".to_string()),
            ("user".to_string(), "user-1".to_string()),
            ("message".to_string(), "hello".to_string()),
            ("priority".to_string(), "1".to_string()),
        ]
    );
}

#[test]
fn pushover_plan_defaults_url_and_empty_user() {
    let p = pushover_provider(None, None);
    let plan = build_dispatch_request(&p, "hi", 0, None).unwrap();
    match &plan {
        HttpRequestPlan::MultipartPost { url, attachment, .. } => {
            assert_eq!(url, "https://api.pushover.net/1/messages.json");
            assert!(attachment.is_none());
        }
        _ => panic!("expected a multipart plan"),
    }
    let pairs = field_pairs(&plan);
    assert_eq!(pairs[1], ("user".to_string(), "".to_string()));
    assert_eq!(pairs[3], ("priority".to_string(), "0".to_string()));
}

#[test]
fn pushover_plan_uses_configured_url() {
    let p = pushover_provider(Some("https://example.test/messages"), None);
    let plan = build_dispatch_request(&p, "hi", 0, None).unwrap();
    match plan {
        HttpRequestPlan::MultipartPost { url, .. } => {
            assert_eq!(url, "https://example.test/messages");
        }
        _ => panic!("expected a multipart plan"),
    }
}

#[test]
fn pushover_plan_stringifies_negative_priority() {
    let p = pushover_provider(None, None);
    let plan = build_dispatch_request(&p, "hi", -2, None).unwrap();
    assert_eq!(field_pairs(&plan)[3].1, "-2");
    let plan = build_dispatch_request(&p, "hi", i8::MIN, None).unwrap();
    assert_eq!(field_pairs(&plan)[3].1, "-128");
    let plan = build_dispatch_request(&p, "hi", i8::MAX, None).unwrap();
    assert_eq!(field_pairs(&plan)[3].1, "127");
}

#[test]
fn pushover_plan_carries_the_attachment() {
    let p = pushover_provider(None, None);
    let image = Attachment { filename: "shot.jpg".to_string(), bytes: vec![1, 2, 3] };
    let plan = build_dispatch_request(&p, "hi", 0, Some(&image)).unwrap();
    match plan {
        HttpRequestPlan::MultipartPost { attachment: Some(a), .. } => {
            assert_eq!(a.filename, "shot.jpg");
            assert_eq!(a.bytes, vec![1, 2, 3]);
        }
        _ => panic!("expected an attachment"),
    }
}

#[test]
fn ntfy_plan_carries_token_label_and_text_body() {
    let p = ntfy_provider(Some("https://ntfy.test/topic"));
    let plan = build_dispatch_request(&p, "hello", 2, None).unwrap();
    match plan {
        HttpRequestPlan::BearerPost { url, token, priority_label, body } => {
            assert_eq!(url, "https://ntfy.test/topic");
            assert_eq!(token, "SECRET-REDACTED");
            assert_eq!(priority_label, "max");
            match body {
                NtfyBody::Text(t) => assert_eq!(t, "hello"),
                _ => panic!("expected a text body"),
            }
        }
        _ => panic!("expected a bearer plan"),
    }
}

#[test]
fn ntfy_image_replaces_the_text_body() {
    let p = ntfy_provider(Some("https://ntfy.test/topic"));
    let image = Attachment { filename: "shot.jpg".to_string(), bytes: vec![9, 8] };
    let plan = build_dispatch_request(&p, "dropped text", 0, Some(&image)).unwrap();
    match plan {
        HttpRequestPlan::BearerPost { body: NtfyBody::Image { filename, bytes }, .. } => {
            assert_eq!(filename, "shot.jpg");
            assert_eq!(bytes, vec![9, 8]);
        }
        _ => panic!("expected an image body"),
    }
}

#[test]
fn ntfy_without_base_url_fails_before_any_request() {
    let p = ntfy_provider(None);
    let err = build_dispatch_request(&p, "hi", 0, None).unwrap_err();
    match err {
        DispatchError::MissingBaseUrl(d) => {
            assert_eq!(d, "Base URL is required for ntfy provider");
        }
        _ => panic!("expected a missing-base-URL error"),
    }
}

#[test]
fn unsupported_type_fails_naming_provider_and_type() {
    let p = PushProvider {
        name: "legacy".to_string(),
        provider_type: "email".to_string(),
        api_key: "k".to_string(),
        user_key: None,
        base_url: Some("https://example.test".to_string()),
        default: false,
    };
    let err = build_dispatch_request(&p, "hi", 0, None).unwrap_err();
    match err {
        DispatchError::UnsupportedProviderType(d) => {
            assert_eq!(d, "Unsupported provider type for legacy: email");
            assert_eq!(err_detail_roundtrip(&DispatchError::UnsupportedProviderType(d.clone())), d);
        }
        _ => panic!("expected an unsupported-type error"),
    }
}

fn err_detail_roundtrip(e: &DispatchError) -> String {
    e.detail().to_string()
}

#[test]
fn success_status_yields_confirmation() {
    let p = pushover_provider(None, None);
    let ok = interpret_response(&p, 200, "").unwrap();
    assert_eq!(ok, "Notification sent successfully to Pushover (po)");
    let ok = interpret_response(&p, 299, "ignored").unwrap();
    assert_eq!(ok, "Notification sent successfully to Pushover (po)");
}

#[test]
fn failure_status_captures_body_verbatim() {
    let p = ntfy_provider(Some("https://ntfy.test/topic"));
    let err = interpret_response(&p, 404, "no such topic").unwrap_err();
    assert_eq!(err, "Failed to send notification to ntfy (nt): no such topic");
    let err = interpret_response(&p, 300, "").unwrap_err();
    assert_eq!(err, "Failed to send notification to ntfy (nt): ");
}
