use weboxide::api::{Author, Embed, Field, Footer, Image, Provider, Thumbnail, Video};
use weboxide::error::{request_outcome, ApiError};
use weboxide::webhook_client::{LooksConfig, MediaConfig, Method, WebhookClient};

fn client(username: Option<&str>) -> WebhookClient {
    WebhookClient::new(
        reqwest::Client::new(),
        "https://discord.com/api/webhooks/1/abc".to_string(),
        None,
        username.map(|u| u.to_string()),
        vec![],
    )
}

fn field(name: &str, value: &str, inline: bool) -> Field {
    Field { name: name.to_string(), value: value.to_string(), inline }
}

#[test]
fn hello_ping_body() {
    let mut c = client(Some("Bot"));
    c.add_embed("Hello".to_string(), None, vec![]);
    assert_eq!(
        c.message_body("ping"),
        r#"{"avatar_url":null,"username":"Bot","embeds":[{"title":"Hello","fields":[]}],"content":"ping"}"#
    );
    let r = c.message_request("ping");
    assert_eq!(r.method, Method::Post);
    assert_eq!(r.url, "https://discord.com/api/webhooks/1/abc");
    assert_eq!(r.body.unwrap(), c.message_body("ping"));
}

#[test]
fn plain_embed_has_no_other_keys() {
    let mut c = client(None);
    c.add_embed(
        "T".to_string(),
        Some("D".to_string()),
        vec![field("a", "b", true)],
    );
    assert_eq!(
        c.embeds[0].to_json(),
        r#"{"title":"T","description":"D","fields":[{"name":"a","value":"b","inline":true}]}"#
    );
    let json = c.message_body("");
    for key in ["timestamp", "color", "footer", "image", "thumbnail", "video", "provider", "author"] {
        assert!(!json.contains(key));
    }
}

#[test]
fn from_parts_sets_every_attribute() {
    let mut c = client(None);
    let looks = LooksConfig {
        timestamp: Some(true),
        color: Some(16711680),
        footer: Some(Footer { text: Some("f".to_string()), icon_url: None }),
        author: Some(Author { name: "me".to_string(), url: None, icon_url: Some("i".to_string()) }),
    };
    let media = MediaConfig {
        image: Some(Image { url: "u1".to_string(), height: Some(10), width: None }),
        thumbnail: Some(Thumbnail { url: "u2".to_string(), height: None, width: Some(0) }),
        video: Some(Video { url: "u3".to_string(), height: Some(720), width: Some(1280) }),
        provider: Some(Provider { name: None, url: Some("p".to_string()) }),
    };
    c.add_embed_from_parts("T".to_string(), None, vec![], looks, media);
    assert_eq!(
        c.embeds[0].to_json(),
        [
            r#"{"title":"T","fields":[],"timestamp":true,"color":16711680,"#,
            r#""footer":{"text":"f"},"image":{"url":"u1","height":10},"#,
            r#""thumbnail":{"url":"u2","width":0},"#,
            r#""video":{"url":"u3","height":720,"width":1280},"#,
            r#""provider":{"url":"p"},"author":{"name":"me","icon_url":"i"}}"#
        ]
        .concat()
    );
}

#[test]
fn from_parts_equals_direct_construction() {
    let mut c = client(None);
    let looks = LooksConfig { color: Some(7), ..Default::default() };
    let media = MediaConfig {
        provider: Some(Provider { name: Some("n".to_string()), url: None }),
        ..Default::default()
    };
    c.add_embed_from_parts("T".to_string(), Some("D".to_string()), vec![], looks, media);
    let direct = Embed {
        title: "T".to_string(),
        description: Some("D".to_string()),
        color: Some(7),
        provider: Some(Provider { name: Some("n".to_string()), url: None }),
        ..Default::default()
    };
    assert_eq!(c.embeds[0].to_json(), direct.to_json());
}

#[test]
fn fields_keep_their_order() {
    let e = Embed {
        title: "x".to_string(),
        fields: vec![field("1", "a", false), field("2", "b", true), field("3", "c", false)],
        ..Default::default()
    };
    assert_eq!(
        e.to_json(),
        [
            r#"{"title":"x","fields":[{"name":"1","value":"a","inline":false},"#,
            r#"{"name":"2","value":"b","inline":true},"#,
            r#"{"name":"3","value":"c","inline":false}]}"#
        ]
        .concat()
    );
}

#[test]
fn same_inputs_same_bytes() {
    let build = || {
        let mut c = WebhookClient::new(
            reqwest::Client::new(),
            "https://h/1/t".to_string(),
            Some("https://a".to_string()),
            Some("Bot".to_string()),
            vec![Embed { title: "e".to_string(), ..Default::default() }],
        );
        c.add_embed("Hello".to_string(), None, vec![field("k", "v", true)]);
        c
    };
    let (a, b) = (build(), build());
    assert_eq!(a.message_body("m"), b.message_body("m"));
    assert_eq!(a.message_request("m").url, b.message_request("m").url);
}

#[test]
fn two_embeds_one_body() {
    let mut c = client(Some("Bot"));
    c.add_embed("one".to_string(), None, vec![]);
    c.add_embed("two".to_string(), None, vec![]);
    assert_eq!(
        c.message_body("hi"),
        [
            r#"{"avatar_url":null,"username":"Bot","embeds":[{"title":"one","fields":[]},"#,
            r#"{"title":"two","fields":[]}],"content":"hi"}"#
        ]
        .concat()
    );
}

#[test]
fn embeds_stay_after_a_message() {
    let mut c = client(None);
    c.add_embed("one".to_string(), None, vec![]);
    let first = c.message_body("a");
    let second = c.message_body("a");
    assert_eq!(first, second);
    assert_eq!(c.embeds.len(), 1);
}

#[test]
fn transport_failure_is_wrapped() {
    let err = reqwest::Client::new().get("not a url").build().unwrap_err();
    let outcome = request_outcome(Err(err));
    assert!(matches!(outcome, Err(ApiError::RequestError(_))));
}

#[test]
fn any_status_counts_as_sent() {
    assert!(request_outcome(Ok(200)).is_ok());
    assert!(request_outcome(Ok(204)).is_ok());
    assert!(request_outcome(Ok(400)).is_ok());
    assert!(request_outcome(Ok(500)).is_ok());
}

#[test]
fn error_from_transport_error() {
    let err = reqwest::Client::new().get("::").build().unwrap_err();
    assert!(matches!(ApiError::from(err), ApiError::RequestError(_)));
}

#[test]
fn delete_has_no_body_and_keeps_embeds() {
    let mut c = client(None);
    let r = c.delete_request();
    assert_eq!(r.method, Method::Delete);
    assert_eq!(r.url, "https://discord.com/api/webhooks/1/abc");
    assert!(r.body.is_none());
    assert!(c.embeds.is_empty());
    c.add_embed("kept".to_string(), None, vec![]);
    let _ = c.delete_request();
    assert_eq!(c.embeds.len(), 1);
    assert_eq!(c.embeds[0].title, "kept");
}

#[test]
fn text_is_escaped() {
    let f = field("a\"b", "line\nbreak\\", false);
    assert_eq!(
        f.to_json(),
        r#"{"name":"a\"b","value":"line\nbreak\\","inline":false}"#
    );
}

#[test]
fn avatar_and_username_present() {
    let c = WebhookClient::new(
        reqwest::Client::new(),
        "u".to_string(),
        Some("https://img".to_string()),
        Some("Bot".to_string()),
        vec![],
    );
    assert_eq!(
        c.message_body("x"),
        r#"{"avatar_url":"https://img","username":"Bot","embeds":[],"content":"x"}"#
    );
}

#[test]
fn empty_records_encode_without_optional_keys() {
    assert_eq!(Footer::default().to_json(), "{}");
    assert_eq!(Provider::default().to_json(), "{}");
    assert_eq!(Image::default().to_json(), r#"{"url":""}"#);
    assert_eq!(Author::default().to_json(), r#"{"name":""}"#);
    assert_eq!(Embed::default().to_json(), r#"{"title":"","fields":[]}"#);
    assert_eq!(Field::default().to_json(), r#"{"name":"","value":"","inline":false}"#);
}

#[test]
fn colors_in_decimal() {
    for (color, text) in [(0u32, "0"), (9, "9"), (10, "10"), (255, "255"), (u32::MAX, "4294967295")] {
        let e = Embed { title: "c".to_string(), color: Some(color), ..Default::default() };
        assert_eq!(e.to_json(), format!(r#"{{"title":"c","fields":[],"color":{}}}"#, text));
    }
}

#[test]
fn timestamp_false_is_kept() {
    let e = Embed { title: "t".to_string(), timestamp: Some(false), ..Default::default() };
    assert_eq!(e.to_json(), r#"{"title":"t","fields":[],"timestamp":false}"#);
}
