use drive_client::response::{
    classify_status, interpret_json_response, interpret_nocontent_response,
};
use drive_client::stream::StreamRelay;
use drive_client::ApiError;

#[test]
fn success_body_with_single_id_field_decodes() {
    let text = interpret_json_response(200, b"{\"id\":\"abc\"}".to_vec()).unwrap();
    let value: serde_json::Value = serde_json::from_str(&text).unwrap();
    assert_eq!(value.get("id").and_then(|v| v.as_str()), Some("abc"));
}

#[test]
fn status_404_wins_over_any_body() {
    assert_eq!(
        interpret_json_response(404, Vec::new()),
        Err(ApiError::Http(404))
    );
    assert_eq!(
        interpret_json_response(404, b"{\"id\":\"abc\"}".to_vec()),
        Err(ApiError::Http(404))
    );
    assert_eq!(
        interpret_json_response(404, b"{not json at all".to_vec()),
        Err(ApiError::Http(404))
    );
    assert_eq!(
        interpret_nocontent_response(404, b"garbage".to_vec()),
        Err(ApiError::Http(404))
    );
}

#[test]
fn malformed_json_is_a_decode_error() {
    assert_eq!(
        interpret_json_response(200, b"{not json".to_vec()),
        Err(ApiError::Decode)
    );
    assert_eq!(
        interpret_json_response(200, Vec::new()),
        Err(ApiError::Decode)
    );
}

#[test]
fn invalid_utf8_is_a_decode_error() {
    assert_eq!(
        interpret_json_response(200, vec![0xff, 0xfe, 0x22]),
        Err(ApiError::Decode)
    );
}

#[test]
fn no_content_success_ignores_the_body() {
    assert_eq!(interpret_nocontent_response(204, Vec::new()), Ok(()));
    assert_eq!(
        interpret_nocontent_response(200, b"{not json".to_vec()),
        Ok(())
    );
}

#[test]
fn status_classification_bounds() {
    assert_eq!(classify_status(199), Err(ApiError::Http(199)));
    assert_eq!(classify_status(200), Ok(()));
    assert_eq!(classify_status(299), Ok(()));
    assert_eq!(classify_status(300), Err(ApiError::Http(300)));
    assert_eq!(classify_status(500), Err(ApiError::Http(500)));
}

#[test]
fn three_chunks_reach_the_sink_in_order() {
    let mut relay = StreamRelay::start(200);
    let mut sink: Vec<u8> = Vec::new();
    let mut handed: Vec<Vec<u8>> = Vec::new();
    for chunk in [b"ab".to_vec(), b"cd".to_vec(), b"ef".to_vec()] {
        let out = relay.on_chunk(chunk.clone()).expect("healthy transfer hands the chunk on");
        assert_eq!(out, chunk);
        sink.extend_from_slice(&out);
        handed.push(out);
        relay.on_sink_result(true);
    }
    assert_eq!(relay.finish(), Ok(()));
    assert_eq!(sink, b"abcdef".to_vec());
    assert_eq!(handed, vec![b"ab".to_vec(), b"cd".to_vec(), b"ef".to_vec()]);
}

#[test]
fn first_sink_failure_aborts_the_stream() {
    let mut relay = StreamRelay::start(200);
    let out = relay.on_chunk(b"ab".to_vec());
    assert!(out.is_some());
    relay.on_sink_result(false);
    assert_eq!(relay.on_chunk(b"cd".to_vec()), None);
    assert_eq!(relay.finish(), Err(ApiError::Sink));
}

#[test]
fn streamed_error_status_delivers_nothing() {
    let mut relay = StreamRelay::start(404);
    assert_eq!(relay.on_chunk(b"body of the error page".to_vec()), None);
    assert_eq!(relay.finish(), Err(ApiError::Http(404)));
}

#[test]
fn transport_fault_mid_stream_is_reported() {
    let mut relay = StreamRelay::start(200);
    let _ = relay.on_chunk(b"ab".to_vec());
    relay.on_sink_result(true);
    relay.on_transport_failure("connection reset".to_string());
    assert_eq!(
        relay.finish(),
        Err(ApiError::Transport("connection reset".to_string()))
    );
}
