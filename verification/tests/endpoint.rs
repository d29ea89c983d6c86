use webpush_client::{Channel, KeyMaterial, NicoPushEndpointClient, RegisterWebPushEndpointRequest};

fn hex(text: &str) -> Vec<u8> {
    (0..text.len() / 2)
        .map(|i| u8::from_str_radix(&text[2 * i..2 * i + 2], 16).unwrap())
        .collect()
}

const AUTH: &str = "05305932a1c7eabe13b6cec9fda48882";
const PUBLIC: &str = "042571b2becdfde360551aaf1ed0f4cd366c11cebe555f89bcb7b186a53339173168ece2ebe018597bd30479b86e3c8f8eced577ca59187e9246990db682008b0e";
const AUTH_TEXT: &str = "BTBZMqHH6r4Tts7J_aSIgg";
const PUBLIC_TEXT: &str =
    "BCVxsr7N_eNgVRqvHtD0zTZsEc6-VV-JvLexhqUzORcxaOzi6-AYWXvTBHm4bjyPjs7Vd8pZGH6SRpkNtoIAiw4";

#[test]
fn secret_and_key_are_written_in_base64() {
    let request = RegisterWebPushEndpointRequest::new(
        "https://push.example/xyz".to_string(),
        hex(AUTH),
        hex(PUBLIC),
    );
    assert_eq!(request.dest_app, "nico_account_webpush");
    assert_eq!(request.endpoint.endpoint, "https://push.example/xyz");
    assert_eq!(request.endpoint.auth, AUTH_TEXT);
    assert_eq!(request.endpoint.p256dh, PUBLIC_TEXT);
}

#[test]
fn base64_has_neither_padding_nor_plus_nor_slash() {
    let request = RegisterWebPushEndpointRequest::new(
        String::new(),
        vec![0xfb, 0xff],
        vec![0xff, 0xfe, 0xfd, 0xfc],
    );
    assert_eq!(request.endpoint.auth, "-_8");
    assert_eq!(request.endpoint.p256dh, "__79_A");
    let empty = RegisterWebPushEndpointRequest::new(String::new(), Vec::new(), vec![0]);
    assert_eq!(empty.endpoint.auth, "");
    assert_eq!(empty.endpoint.p256dh, "AA");
}

#[test]
fn body_is_the_documented_object() {
    let request = RegisterWebPushEndpointRequest::new(
        "https://push.example/xyz".to_string(),
        hex(AUTH),
        hex(PUBLIC),
    );
    assert_eq!(
        request.to_json(),
        format!(
            r#"{{"destApp":"nico_account_webpush","endpoint":{{"endpoint":"https://push.example/xyz","auth":"{AUTH_TEXT}","p256dh":"{PUBLIC_TEXT}"}}}}"#
        ),
    );
}

#[test]
fn endpoint_is_escaped_in_the_body() {
    let request =
        RegisterWebPushEndpointRequest::new("https://e/\"x\"".to_string(), vec![1], vec![2]);
    let body: serde_json::Value = serde_json::from_str(&request.to_json()).unwrap();
    assert_eq!(body["endpoint"]["endpoint"], "https://e/\"x\"");
}

#[test]
fn request_carries_url_credential_and_body() {
    let client = NicoPushEndpointClient::new(
        "https://app.example/endpoints.json".to_string(),
        "user_session=secret".to_string(),
    );
    assert_eq!(client.url, "https://app.example/endpoints.json");
    assert_eq!(client.session, "user_session=secret");
    let request = client.register("https://push.example/xyz".to_string(), hex(AUTH), hex(PUBLIC));
    assert_eq!(request.url, "https://app.example/endpoints.json");
    let headers: Vec<(&str, &str)> =
        request.headers.iter().map(|h| (h.name.as_str(), h.value.as_str())).collect();
    assert_eq!(
        headers,
        vec![
            ("Cookie", "user_session=secret"),
            ("X-Frontend-Id", "8"),
            ("X-Request-With", "https://account.nicovideo.jp/my/account"),
            ("Content-Type", "application/json"),
        ],
    );
    let expected = RegisterWebPushEndpointRequest::new(
        "https://push.example/xyz".to_string(),
        hex(AUTH),
        hex(PUBLIC),
    );
    assert_eq!(request.body, expected.to_json());
}

#[test]
fn any_status_from_200_to_299_is_success() {
    assert!(!NicoPushEndpointClient::accepted(0));
    assert!(!NicoPushEndpointClient::accepted(199));
    assert!(NicoPushEndpointClient::accepted(200));
    assert!(NicoPushEndpointClient::accepted(204));
    assert!(NicoPushEndpointClient::accepted(299));
    assert!(!NicoPushEndpointClient::accepted(300));
    assert!(!NicoPushEndpointClient::accepted(401));
    assert!(!NicoPushEndpointClient::accepted(u16::MAX));
}

#[test]
fn channel_is_registered_with_its_own_secret_and_key() {
    let client = NicoPushEndpointClient::new("https://app.example/e".to_string(), "s=1".to_string());
    let private_key = hex("ab5757a70dd4a53e553a6bbf71ffefea2874ec07a6b379e3c48f895a02dc33de");
    let channel = Channel {
        channel_id: "c1".to_string(),
        endpoint: "https://push.example/xyz".to_string(),
        keys: KeyMaterial::new(private_key, hex(AUTH)).unwrap(),
    };
    let request = client.register_channel(&channel);
    let expected = client.register("https://push.example/xyz".to_string(), hex(AUTH), hex(PUBLIC));
    assert_eq!(request.url, expected.url);
    assert_eq!(request.body, expected.body);
    assert_eq!(request.headers.len(), expected.headers.len());
    assert!(request.body.contains(AUTH_TEXT));
    assert!(request.body.contains(PUBLIC_TEXT));
}
