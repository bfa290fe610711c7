use imagen::adapters::recording::image_generator::record_generation;
use imagen::adapters::recording::{encode_outcome, record_result};
use imagen::adapters::replaying::image_generator::ReplayingImageGenerator;
use imagen::adapters::replaying::{next_output, replay_result, try_next_output};
use imagen::cassette::format::Timestamp;
use imagen::cassette::recorder::CassetteRecorder;
use imagen::cassette::replayer::{CassetteReplayer, ReplayError};
use imagen::error::ImageError;
use imagen::ports::image_generator::ImageRequest;
use serde_json::Value;

fn json(text: &str) -> Value {
    serde_json::from_str(text).unwrap()
}

fn stamp() -> Timestamp {
    Timestamp { secs: 1769904000, nanos: 0 }
}

fn sample_request() -> ImageRequest {
    ImageRequest {
        model: "gemini-3.1-flash-image-preview".into(),
        prompt: "a cat".into(),
        aspect_ratio: "1:1".into(),
        size: "1K".into(),
        quality: "auto".into(),
        format: "jpeg".into(),
        count: 1,
        thinking: None,
    }
}

#[test]
fn success_is_tagged_ok() {
    assert_eq!(encode_outcome(Ok(json(r#"{"images": []}"#))), json(r#"{"Ok": {"images": []}}"#));
    assert_eq!(encode_outcome(Ok(Value::Null)), json(r#"{"Ok": null}"#));
}

#[test]
fn failure_is_tagged_err_with_its_message() {
    assert_eq!(
        encode_outcome(Err("API error (500): boom".to_string())),
        json(r#"{"Err": "API error (500): boom"}"#)
    );
}

#[test]
fn tagged_failure_reads_back_as_message() {
    assert_eq!(replay_result(json(r#"{"Err": "boom"}"#)), Err("boom".to_string()));
    assert_eq!(replay_result(json(r#"{"Err": ""}"#)), Err(String::new()));
}

#[test]
fn failure_without_text_gets_the_stock_message() {
    assert_eq!(replay_result(json(r#"{"Err": 42}"#)), Err("replayed error".to_string()));
    assert_eq!(replay_result(json(r#"{"Err": null}"#)), Err("replayed error".to_string()));
}

#[test]
fn tagged_success_reads_back_as_payload() {
    assert_eq!(replay_result(json(r#"{"Ok": {"images": []}}"#)), Ok(json(r#"{"images": []}"#)));
    assert_eq!(replay_result(json(r#"{"Ok": [1, 2]}"#)), Ok(json("[1, 2]")));
}

#[test]
fn untagged_output_is_a_payload() {
    assert_eq!(replay_result(json(r#"{"images": []}"#)), Ok(json(r#"{"images": []}"#)));
    assert_eq!(replay_result(json("[1]")), Ok(json("[1]")));
    assert_eq!(replay_result(json(r#""text""#)), Ok(json(r#""text""#)));
    assert_eq!(replay_result(Value::Null), Ok(Value::Null));
}

#[test]
fn failure_tag_wins_over_success_tag() {
    assert_eq!(replay_result(json(r#"{"Ok": 1, "Err": "e"}"#)), Err("e".to_string()));
    assert_eq!(replay_result(json(r#"{"Ok": 1, "Err": 2}"#)), Err("replayed error".to_string()));
}

#[test]
fn lower_case_members_are_no_tags() {
    // Without `Ok` and `Err` the output is a bare payload, whatever else it holds.
    assert_eq!(replay_result(json(r#"{"err": "lower"}"#)), Ok(json(r#"{"err": "lower"}"#)));
    assert_eq!(replay_result(json(r#"{"ok": [1, 2]}"#)), Ok(json(r#"{"ok": [1, 2]}"#)));
    assert_eq!(
        replay_result(json(r#"{"ok": 1, "err": "e"}"#)),
        Ok(json(r#"{"ok": 1, "err": "e"}"#))
    );
    // Beside a tag they are ignored.
    assert_eq!(replay_result(json(r#"{"Ok": 1, "err": "e"}"#)), Ok(json("1")));
    assert_eq!(replay_result(json(r#"{"Err": "upper", "err": "lower"}"#)), Err("upper".to_string()));
    assert_eq!(replay_result(json(r#"{"Ok": "upper", "ok": "lower"}"#)), Ok(json(r#""upper""#)));
    assert_eq!(replay_result(json(r#"{"ok": 1, "Err": "e"}"#)), Err("e".to_string()));
}

#[test]
fn success_and_failure_round_trip_in_order() {
    let mut recorder = CassetteRecorder::new("c.yaml", "round-trip", "unknown");
    let input = json(r#"{"prompt": "a cat"}"#);
    record_result(
        &mut recorder,
        "image_generator",
        "generate",
        input.clone(),
        Ok(json(r#"{"images": [{"data": "AQID", "mime_type": "image/png"}]}"#)),
    );
    let original = ImageError::Api { status: 429, message: "slow down".into() };
    record_result(&mut recorder, "image_generator", "generate", input.clone(), Err(original.message()));

    let cassette = recorder.finish(stamp()).cassette;
    assert_eq!(cassette.interactions[0].input, input);
    assert_eq!(cassette.interactions[1].seq, 1);

    let mut replayer = CassetteReplayer::new(&cassette);
    let first = replay_result(next_output(&mut replayer, "image_generator", "generate"));
    assert_eq!(first, Ok(json(r#"{"images": [{"data": "AQID", "mime_type": "image/png"}]}"#)));
    let second = replay_result(next_output(&mut replayer, "image_generator", "generate"));
    assert_eq!(second, Err("API error (429): slow down".to_string()));
    assert!(matches!(
        try_next_output(&mut replayer, "image_generator", "generate"),
        Err(ReplayError::Exhausted { count: 2, .. })
    ));
}

#[test]
fn replaying_generator_ignores_the_request() {
    let mut recorder = CassetteRecorder::new("c.yaml", "gen", "unknown");
    record_result(&mut recorder, "image_generator", "generate", json("{}"), Ok(json(r#"{"images": []}"#)));
    record_result(&mut recorder, "image_generator", "generate", json("{}"), Err("boom".into()));
    record_result(&mut recorder, "other", "generate", json("{}"), Ok(json("1")));
    let cassette = recorder.finish(stamp()).cassette;

    let mut generator = ReplayingImageGenerator::new(CassetteReplayer::new(&cassette));
    assert_eq!(generator.generate(&sample_request()).unwrap(), json(r#"{"images": []}"#));
    match generator.generate(&sample_request()) {
        Err(ImageError::Api { status, message }) => {
            assert_eq!(status, 0);
            assert_eq!(message, "boom");
        }
        other => panic!("unexpected: {:?}", other),
    }
    match generator.try_generate(&sample_request()) {
        Err(ReplayError::Exhausted { count, .. }) => assert_eq!(count, 2),
        other => panic!("unexpected: {:?}", other.is_ok()),
    }
}

#[test]
fn recorded_generations_are_served_to_the_replaying_generator() {
    let mut recorder = CassetteRecorder::new("c.yaml", "gen", "unknown");
    record_generation(&mut recorder, json(r#"{"prompt": "a cat"}"#), Ok(json(r#"{"images": []}"#)));
    record_generation(&mut recorder, json(r#"{"prompt": "a dog"}"#), Err("Network error: down".into()));
    let cassette = recorder.finish(stamp()).cassette;
    assert_eq!(cassette.interactions.len(), 2);
    assert_eq!(cassette.interactions[0].port, "image_generator");
    assert_eq!(cassette.interactions[0].method, "generate");
    assert_eq!(cassette.interactions[1].input, json(r#"{"prompt": "a dog"}"#));
    assert_eq!(cassette.interactions[1].output, json(r#"{"Err": "Network error: down"}"#));

    let mut generator = ReplayingImageGenerator::new(CassetteReplayer::new(&cassette));
    assert_eq!(generator.try_generate(&sample_request()).unwrap().unwrap(), json(r#"{"images": []}"#));
    match generator.try_generate(&sample_request()).unwrap() {
        Err(error) => assert_eq!(error.message(), "API error (0): Network error: down"),
        Ok(payload) => panic!("unexpected: {payload}"),
    }
}

#[test]
fn replaying_generator_without_records_reports_the_pair() {
    let cassette = CassetteRecorder::new("c.yaml", "gen", "unknown").finish(stamp()).cassette;
    let mut generator = ReplayingImageGenerator::new(CassetteReplayer::new(&cassette));
    let error = generator.try_generate(&sample_request()).unwrap_err();
    assert_eq!(
        error.message(),
        "Cassette exhausted: no interactions recorded for port=\"image_generator\" \
         method=\"generate\". Available port::method pairs: []"
    );
}

#[test]
fn error_messages_follow_their_kind() {
    assert_eq!(
        ImageError::Api { status: 404, message: "not found".into() }.message(),
        "API error (404): not found"
    );
    assert_eq!(ImageError::Api { status: 0, message: "".into() }.message(), "API error (0): ");
    assert_eq!(
        ImageError::Api { status: u16::MAX, message: "x".into() }.message(),
        "API error (65535): x"
    );
    assert_eq!(ImageError::Network("down".into()).message(), "Network error: down");
    assert_eq!(ImageError::Io("denied".into()).message(), "I/O error: denied");
    assert_eq!(ImageError::Config("bad".into()).message(), "Config error: bad");
    assert_eq!(ImageError::InvalidArgument("arg".into()).message(), "Invalid argument: arg");
    assert_eq!(
        ImageError::ImageConversion("conv".into()).message(),
        "Image conversion error: conv"
    );
    assert_eq!(
        ImageError::MissingApiKey { provider: "Gemini".into(), env_var: "GEMINI_API_KEY".into() }
            .message(),
        "No API key for Gemini. Set GEMINI_API_KEY or add it to config file."
    );
}
