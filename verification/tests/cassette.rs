use imagen::cassette::format::{Cassette, Interaction, Timestamp};
use imagen::cassette::recorder::CassetteRecorder;
use imagen::cassette::replayer::{CassetteReplayer, ReplayError};
use serde_json::Value;

fn value(text: &str) -> Value {
    serde_json::from_str(text).unwrap()
}

fn now() -> Timestamp {
    let now = chrono::Utc::now();
    Timestamp { secs: now.timestamp(), nanos: now.timestamp_subsec_nanos() }
}

fn make_cassette(interactions: Vec<Interaction>) -> Cassette {
    Cassette { name: "test".into(), recorded_at: now(), commit: "abc".into(), interactions }
}

fn entry(seq: u64, port: &str, method: &str, input: &str, output: &str) -> Interaction {
    Interaction {
        seq,
        port: port.into(),
        method: method.into(),
        input: value(input),
        output: value(output),
    }
}

fn next<'a>(replayer: &'a mut CassetteReplayer, port: &str, method: &str) -> &'a Interaction {
    match replayer.try_next_interaction(port, method) {
        Ok(record) => record,
        Err(error) => panic!("{}", error.message()),
    }
}

#[test]
fn record_and_finish() {
    let path = "imagen_cassette_test/test.cassette.yaml";
    let mut recorder = CassetteRecorder::new(path, "test-recording", "deadbeef");
    recorder.record(
        "image_generator",
        "generate",
        value(r#"{"prompt": "a cat"}"#),
        value(r#"{"Ok": {"images": []}}"#),
    );
    recorder.record(
        "image_generator",
        "generate",
        value(r#"{"prompt": "a dog"}"#),
        value(r#"{"Ok": {"images": []}}"#),
    );

    let done = recorder.finish(now());
    assert_eq!(done.path, path);

    let cassette = done.cassette;
    assert_eq!(cassette.name, "test-recording");
    assert_eq!(cassette.commit, "deadbeef");
    assert_eq!(cassette.interactions.len(), 2);
    assert_eq!(cassette.interactions[0].seq, 0);
    assert_eq!(cassette.interactions[1].seq, 1);
    assert_eq!(cassette.interactions[0].port, "image_generator");
    assert_eq!(cassette.interactions[0].method, "generate");
    assert_eq!(cassette.interactions[0].input, value(r#"{"prompt": "a cat"}"#));
    assert_eq!(cassette.interactions[1].input, value(r#"{"prompt": "a dog"}"#));
    assert_eq!(cassette.interactions[1].output, value(r#"{"Ok": {"images": []}}"#));
}

#[test]
fn replay_in_order() {
    let cassette = make_cassette(vec![
        entry(0, "image_generator", "generate", r#"{"prompt": "first"}"#, r#"{"Ok": {"images": []}}"#),
        entry(1, "image_generator", "generate", r#"{"prompt": "second"}"#, r#"{"Ok": {"images": []}}"#),
    ]);

    let mut replayer = CassetteReplayer::new(&cassette);

    let i1 = replayer.next_interaction("image_generator", "generate");
    assert_eq!(i1.seq, 0);

    let i2 = replayer.next_interaction("image_generator", "generate");
    assert_eq!(i2.seq, 1);
}

#[test]
#[should_panic(expected = "Cassette exhausted")]
fn exhausted_replayer_panics() {
    let cassette = make_cassette(vec![entry(0, "image_generator", "generate", "{}", "{}")]);

    let mut replayer = CassetteReplayer::new(&cassette);
    let _ = next(&mut replayer, "image_generator", "generate");
    let _ = next(&mut replayer, "image_generator", "generate"); // panics
}

#[test]
#[should_panic(expected = "no interactions recorded")]
fn unknown_port_panics() {
    let cassette = make_cassette(vec![]);
    let mut replayer = CassetteReplayer::new(&cassette);
    let _ = next(&mut replayer, "unknown", "method");
}

#[test]
fn finish_stamps_the_cassette() {
    let mut recorder = CassetteRecorder::new("out.yaml", "n", "c");
    recorder.record("p", "m", value("1"), value("2"));
    let at = Timestamp { secs: 1769904000, nanos: 5 };
    let done = recorder.finish(at);
    assert_eq!(done.cassette.recorded_at, at);
    assert_eq!(done.cassette.interactions.len(), 1);
}

#[test]
fn seq_counts_all_calls_of_the_recorder() {
    let mut recorder = CassetteRecorder::new("out.yaml", "n", "c");
    recorder.record("a", "x", value("0"), value("0"));
    recorder.record("b", "y", value("1"), value("1"));
    recorder.record("a", "x", value("2"), value("2"));
    let cassette = recorder.finish(now()).cassette;
    let seqs: Vec<u64> = cassette.interactions.iter().map(|i| i.seq).collect();
    assert_eq!(seqs, vec![0, 1, 2]);
}

#[test]
fn empty_recording_gives_empty_cassette() {
    let done = CassetteRecorder::new("p", "n", "c").finish(now());
    assert!(done.cassette.interactions.is_empty());
}

#[test]
fn two_calls_replay_in_order_then_exhaust() {
    let mut recorder = CassetteRecorder::new("c.yaml", "scenario", "unknown");
    recorder.record(
        "image_generator",
        "generate",
        value(r#"{"prompt":"a cat"}"#),
        value(r#"{"Ok":{"images":[]}}"#),
    );
    recorder.record(
        "image_generator",
        "generate",
        value(r#"{"prompt":"a dog"}"#),
        value(r#"{"Ok":{"images":[]}}"#),
    );
    let cassette = recorder.finish(now()).cassette;
    let mut replayer = CassetteReplayer::new(&cassette);

    let first = replayer.try_next_interaction("image_generator", "generate").unwrap();
    assert_eq!(first.seq, 0);
    assert_eq!(first.input, value(r#"{"prompt":"a cat"}"#));
    let second = replayer.try_next_interaction("image_generator", "generate").unwrap();
    assert_eq!(second.seq, 1);
    assert_eq!(second.input, value(r#"{"prompt":"a dog"}"#));

    match replayer.try_next_interaction("image_generator", "generate") {
        Err(error) => {
            assert!(error.message().contains("all 2 interactions"));
            match error {
                ReplayError::Exhausted { port, method, count } => {
                    assert_eq!(port, "image_generator");
                    assert_eq!(method, "generate");
                    assert_eq!(count, 2);
                }
                other => panic!("unexpected: {:?}", other),
            }
        }
        Ok(record) => panic!("unexpected record: {}", record.seq),
    }
}

#[test]
fn order_is_by_content_not_by_seq() {
    let cassette = make_cassette(vec![
        entry(7, "p", "m", r#""first""#, "1"),
        entry(3, "p", "m", r#""second""#, "2"),
        entry(3, "p", "m", r#""third""#, "3"),
    ]);
    let mut replayer = CassetteReplayer::new(&cassette);
    assert_eq!(replayer.next_interaction("p", "m").input, value(r#""first""#));
    assert_eq!(replayer.next_interaction("p", "m").input, value(r#""second""#));
    let third = replayer.next_interaction("p", "m");
    assert_eq!(third.input, value(r#""third""#));
    assert_eq!(third.output, value("3"));
    assert_eq!(third.seq, 3);
}

#[test]
fn interleaved_pairs_replay_independently() {
    let cassette = make_cassette(vec![
        entry(0, "a", "x", r#""a0""#, "0"),
        entry(1, "b", "y", r#""b0""#, "0"),
        entry(2, "a", "x", r#""a1""#, "0"),
        entry(3, "b", "y", r#""b1""#, "0"),
        entry(4, "a", "y", r#""ay""#, "0"),
    ]);
    let mut replayer = CassetteReplayer::new(&cassette);
    // Consume all of (a, x) first: (b, y) still starts at its first record.
    assert_eq!(replayer.next_interaction("a", "x").seq, 0);
    assert_eq!(replayer.next_interaction("a", "x").seq, 2);
    assert!(replayer.try_next_interaction("a", "x").is_err());
    assert_eq!(replayer.next_interaction("b", "y").input, value(r#""b0""#));
    assert_eq!(replayer.next_interaction("a", "y").input, value(r#""ay""#));
    assert_eq!(replayer.next_interaction("b", "y").input, value(r#""b1""#));
    assert!(replayer.try_next_interaction("b", "y").is_err());
}

#[test]
fn pair_is_port_and_method_together() {
    let cassette = make_cassette(vec![entry(0, "a", "x", "0", "0")]);
    let mut replayer = CassetteReplayer::new(&cassette);
    assert!(matches!(
        replayer.try_next_interaction("a", "y"),
        Err(ReplayError::UnknownPair { .. })
    ));
    assert!(matches!(
        replayer.try_next_interaction("x", "a"),
        Err(ReplayError::UnknownPair { .. })
    ));
    assert!(replayer.try_next_interaction("a", "x").is_ok());
}

#[test]
fn exhaustion_message_names_the_count() {
    let cassette = make_cassette(vec![
        entry(0, "image_generator", "generate", "{}", "{}"),
        entry(1, "image_generator", "generate", "{}", "{}"),
    ]);
    let mut replayer = CassetteReplayer::new(&cassette);
    replayer.next_interaction("image_generator", "generate");
    replayer.next_interaction("image_generator", "generate");
    let error = replayer.try_next_interaction("image_generator", "generate").unwrap_err();
    assert_eq!(
        error.message(),
        "Cassette exhausted: all 2 interactions for port=\"image_generator\" \
         method=\"generate\" have been consumed."
    );
    // A failed call changes nothing: the next one fails the same way.
    let again = replayer.try_next_interaction("image_generator", "generate").unwrap_err();
    assert_eq!(again.message(), error.message());
}

#[test]
fn unknown_pair_message_lists_the_pairs() {
    let cassette = make_cassette(vec![
        entry(0, "image_generator", "generate", "{}", "{}"),
        entry(1, "storage", "put", "{}", "{}"),
        entry(2, "image_generator", "generate", "{}", "{}"),
    ]);
    let mut replayer = CassetteReplayer::new(&cassette);
    match replayer.try_next_interaction("unknown", "method") {
        Err(ReplayError::UnknownPair { port, method, available }) => {
            assert_eq!(port, "unknown");
            assert_eq!(method, "method");
            assert_eq!(
                available,
                vec![
                    ("image_generator".to_string(), "generate".to_string()),
                    ("storage".to_string(), "put".to_string())
                ]
            );
        }
        other => panic!("unexpected: {:?}", other.map(|r| r.seq)),
    }
    let error = replayer.try_next_interaction("unknown", "method").unwrap_err();
    assert_eq!(
        error.message(),
        "Cassette exhausted: no interactions recorded for port=\"unknown\" method=\"method\". \
         Available port::method pairs: [image_generator::generate, storage::put]"
    );
    // The failure consumed nothing.
    assert_eq!(replayer.next_interaction("storage", "put").seq, 1);
}

#[test]
fn unknown_pair_on_empty_cassette_lists_nothing() {
    let mut replayer = CassetteReplayer::new(&make_cassette(vec![]));
    let error = replayer.try_next_interaction("unknown", "method").unwrap_err();
    assert_eq!(
        error.message(),
        "Cassette exhausted: no interactions recorded for port=\"unknown\" method=\"method\". \
         Available port::method pairs: []"
    );
}

#[test]
fn messages_escape_the_requested_names() {
    let mut replayer = CassetteReplayer::new(&make_cassette(vec![]));
    let error = replayer.try_next_interaction("a\"b", "c\nd").unwrap_err();
    assert_eq!(
        error.message(),
        "Cassette exhausted: no interactions recorded for port=\"a\\\"b\" method=\"c\\nd\". \
         Available port::method pairs: []"
    );
}

#[test]
fn clones_keep_the_content() {
    let record = entry(4, "p", "m", r#"{"a": [1, 2.5, null]}"#, r#""out""#);
    let copy = record.clone();
    assert_eq!(copy.seq, 4);
    assert_eq!(copy.port, "p");
    assert_eq!(copy.method, "m");
    assert_eq!(copy.input, record.input);
    assert_eq!(copy.output, record.output);
    let cassette = make_cassette(vec![record, copy]);
    let twin = cassette.clone();
    assert_eq!(twin.name, cassette.name);
    assert_eq!(twin.commit, cassette.commit);
    assert_eq!(twin.recorded_at, cassette.recorded_at);
    assert_eq!(twin.interactions.len(), 2);
    assert_eq!(twin.interactions[1].input, cassette.interactions[1].input);
}
