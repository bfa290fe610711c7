use base64::Engine;
use imagen::adapters::live::gemini::{endpoint, inline_images, thinking_level};
use imagen::adapters::live::openai::{authorization, encoded_images, mime_type, request_size};
use imagen::adapters::live::{
    check_status, collect_images, decode_images, excerpt_is_defined, no_images, parse_failure,
    EncodedImage,
};
use imagen::error::ImageError;
use imagen::ports::image_generator::ImageRequest;

fn request(size: &str, aspect_ratio: &str, format: &str, thinking: Option<&str>) -> ImageRequest {
    ImageRequest {
        model: "gemini-3-pro-image-preview".into(),
        prompt: "a cat".into(),
        aspect_ratio: aspect_ratio.into(),
        size: size.into(),
        quality: "auto".into(),
        format: format.into(),
        count: 1,
        thinking: thinking.map(String::from),
    }
}

fn encoded(data: &str, mime_type: &str) -> EncodedImage {
    EncodedImage { data: data.into(), mime_type: mime_type.into() }
}

fn api_failure<T: std::fmt::Debug>(result: Result<T, ImageError>) -> (u16, String) {
    match result {
        Err(ImageError::Api { status, message }) => (status, message),
        other => panic!("unexpected: {:?}", other),
    }
}

#[test]
fn status_outside_the_200s_is_an_api_error() {
    assert!(check_status(200, "ok").is_ok());
    assert!(check_status(204, "").is_ok());
    assert!(check_status(299, "").is_ok());
    assert_eq!(api_failure(check_status(199, "early")), (199, "early".to_string()));
    assert_eq!(api_failure(check_status(300, "moved")), (300, "moved".to_string()));
    assert_eq!(api_failure(check_status(401, "denied")), (401, "denied".to_string()));
    assert_eq!(api_failure(check_status(500, "")), (500, String::new()));
}

#[test]
fn parse_failure_keeps_the_detail() {
    assert_eq!(
        parse_failure("missing field `data`").message(),
        "API error (200): Failed to parse response: missing field `data`"
    );
}

#[test]
fn images_decode_in_order() {
    let items = vec![encoded("AQID", "image/png"), encoded("/9j/4A==", "image/jpeg"), encoded("", "x")];
    let images = decode_images(&items).unwrap();
    assert_eq!(images.len(), 3);
    assert_eq!(images[0].data, vec![1, 2, 3]);
    assert_eq!(images[0].mime_type, "image/png");
    assert_eq!(images[1].data, vec![0xFF, 0xD8, 0xFF, 0xE0]);
    assert_eq!(images[1].mime_type, "image/jpeg");
    assert!(images[2].data.is_empty());
    assert!(decode_images(&vec![]).unwrap().is_empty());
}

#[test]
fn first_bad_item_ends_the_decoding() {
    let items = vec![encoded("AQID", "image/png"), encoded("!!!", "image/png"), encoded("@", "x")];
    let reason =
        base64::engine::general_purpose::STANDARD.decode("!!!").unwrap_err().to_string();
    assert_eq!(
        api_failure(decode_images(&items)),
        (200, format!("Failed to decode base64: {reason}"))
    );
    assert_eq!(
        api_failure(collect_images(&items, "body")),
        (200, format!("Failed to decode base64: {reason}"))
    );
}

#[test]
fn answer_without_images_shows_its_body() {
    assert_eq!(
        api_failure(collect_images(&vec![], r#"{"data": []}"#)),
        (200, r#"No images in response. Body: {"data": []}"#.to_string())
    );
    let exact = "x".repeat(500);
    assert_eq!(no_images(&exact).message(), format!("API error (200): No images in response. Body: {exact}"));
    let long = format!("{}{}", "x".repeat(500), "tail");
    assert_eq!(
        api_failure(collect_images(&vec![], &long)),
        (200, format!("No images in response. Body: {}...", "x".repeat(500)))
    );
}

#[test]
fn excerpt_needs_a_character_boundary() {
    assert!(excerpt_is_defined(""));
    assert!(excerpt_is_defined(&"x".repeat(501)));
    // Byte 500 falls into the middle of a two byte character.
    let split = format!("{}é", "x".repeat(499));
    assert_eq!(split.len(), 501);
    assert!(!excerpt_is_defined(&split));
    let whole = format!("{}é!", "x".repeat(498));
    assert!(excerpt_is_defined(&whole));
    assert_eq!(
        no_images(&whole).message(),
        format!("API error (200): No images in response. Body: {}é...", "x".repeat(498))
    );
    // A short body is shown as it is.
    assert!(excerpt_is_defined("é"));
}

#[test]
fn collected_images_make_the_response() {
    let response = collect_images(&vec![encoded("AQID", "image/webp")], "ignored").unwrap();
    assert_eq!(response.images.len(), 1);
    assert_eq!(response.images[0].data, vec![1, 2, 3]);
    assert_eq!(response.images[0].mime_type, "image/webp");
}

#[test]
fn openai_size_follows_ratio_only_at_1k() {
    assert_eq!(request_size(&request("1K", "1:1", "png", None)), "1024x1024");
    assert_eq!(request_size(&request("1K", "16:9", "png", None)), "1536x1024");
    assert_eq!(request_size(&request("1K", "9:16", "png", None)), "1024x1536");
    assert_eq!(request_size(&request("1K", "7:3", "png", None)), "auto");
    assert_eq!(request_size(&request("2K", "16:9", "png", None)), "auto");
    assert_eq!(request_size(&request("4K", "1:1", "png", None)), "auto");
}

#[test]
fn openai_header_and_images() {
    assert_eq!(authorization("key-123"), "Bearer key-123");
    let request = request("1K", "1:1", "webp", None);
    assert_eq!(mime_type(&request), "image/webp");
    let items = encoded_images(vec!["AQID".to_string(), "BA==".to_string()], &request);
    assert_eq!(items.len(), 2);
    assert_eq!(items[0].data, "AQID");
    assert_eq!(items[1].data, "BA==");
    assert_eq!(items[1].mime_type, "image/webp");
    assert!(encoded_images(vec![], &request).is_empty());
}

#[test]
fn gemini_endpoint_and_thinking_level() {
    let plain = request("1K", "1:1", "png", None);
    assert_eq!(
        endpoint(&plain),
        "https://generativelanguage.googleapis.com/v1beta/models/gemini-3-pro-image-preview:generateContent"
    );
    assert_eq!(thinking_level(&plain), None);
    assert_eq!(
        thinking_level(&request("1K", "1:1", "png", Some("medium"))).as_deref(),
        Some("MEDIUM")
    );
    assert_eq!(
        thinking_level(&request("1K", "1:1", "png", Some("straße"))).as_deref(),
        Some("STRASSE")
    );
}

#[test]
fn gemini_inline_data_is_taken_in_order() {
    let candidates = vec![
        vec![None, Some(encoded("a", "image/png")), None, Some(encoded("b", "image/jpeg"))],
        vec![],
        vec![None],
        vec![Some(encoded("c", "image/webp"))],
    ];
    let items = inline_images(&candidates);
    let found: Vec<(&str, &str)> =
        items.iter().map(|i| (i.data.as_str(), i.mime_type.as_str())).collect();
    assert_eq!(found, vec![("a", "image/png"), ("b", "image/jpeg"), ("c", "image/webp")]);
    assert!(inline_images(&vec![]).is_empty());
    assert!(inline_images(&vec![vec![None, None]]).is_empty());
}
