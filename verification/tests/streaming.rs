use limit_body::body::ResponseBody;
use limit_body::memory::MemoryBody;
use limit_body::response::create_error_response;
use limit_body::stream::{DataPoll, SizeHint, StreamingBody, TrailersPoll};

const MESSAGE: &[u8] = b"length limit exceeded";

#[test]
fn error_body_emits_message_once() {
    let mut body: ResponseBody<MemoryBody> = ResponseBody::payload_too_large();
    assert!(!body.is_end_stream());
    match body.poll_data() {
        DataPoll::Chunk(c) => {
            assert_eq!(&c[..], MESSAGE);
            assert_eq!(c.len(), 21);
        }
        _ => panic!("first poll must yield the fixed message"),
    }
    assert!(body.is_end_stream());
    assert!(matches!(body.poll_data(), DataPoll::Finished));
    assert!(matches!(body.poll_data(), DataPoll::Finished));
    assert!(body.is_end_stream());
}

#[test]
fn error_body_size_hint_is_exact() {
    let mut body: ResponseBody<MemoryBody> = ResponseBody::payload_too_large();
    let fresh = body.size_hint();
    assert_eq!(fresh, SizeHint { lower: 21, upper: Some(21) });
    match body.poll_data() {
        DataPoll::Chunk(_) => {}
        _ => panic!("first poll must yield the fixed message"),
    }
    let drained = body.size_hint();
    assert_eq!(drained, SizeHint { lower: 0, upper: Some(0) });
}

#[test]
fn error_body_never_has_trailers() {
    let mut body: ResponseBody<MemoryBody> = ResponseBody::payload_too_large();
    assert!(matches!(body.poll_trailers(), TrailersPoll::NoTrailers));
    match body.poll_data() {
        DataPoll::Chunk(_) => {}
        _ => panic!("first poll must yield the fixed message"),
    }
    assert!(matches!(body.poll_trailers(), TrailersPoll::NoTrailers));
    assert!(matches!(body.poll_trailers(), TrailersPoll::NoTrailers));
}

#[test]
fn queries_do_not_consume() {
    let mut body: ResponseBody<MemoryBody> = ResponseBody::payload_too_large();
    for _ in 0..5 {
        assert!(!body.is_end_stream());
        assert_eq!(body.size_hint(), SizeHint { lower: 21, upper: Some(21) });
    }
    match body.poll_data() {
        DataPoll::Chunk(c) => assert_eq!(&c[..], MESSAGE),
        _ => panic!("queries must not have consumed the payload"),
    }
    for _ in 0..5 {
        assert!(body.is_end_stream());
        assert_eq!(body.size_hint(), SizeHint { lower: 0, upper: Some(0) });
    }
}

#[test]
fn error_response_envelope() {
    let envelope = create_error_response::<MemoryBody>();
    assert_eq!(envelope.status, 413);
    assert_eq!(envelope.headers.len(), 1);
    assert_eq!(envelope.headers[0].0, "content-type");
    assert_eq!(envelope.headers[0].1, "text/plain; charset=utf-8");
    let mut body = envelope.body;
    assert!(!body.is_end_stream());
    match body.poll_data() {
        DataPoll::Chunk(c) => assert_eq!(&c[..], MESSAGE),
        _ => panic!("the envelope body must yield the fixed message"),
    }
    assert!(matches!(body.poll_data(), DataPoll::Finished));
}

#[test]
fn passthrough_forwards_chunk_sequence() {
    let chunks = vec![b"ab".to_vec(), b"cd".to_vec()];
    let mut direct = MemoryBody::new(chunks.clone());
    let mut wrapped = ResponseBody::new(MemoryBody::new(chunks));

    for expected in [&b"ab"[..], &b"cd"[..]] {
        assert_eq!(direct.is_end_stream(), wrapped.is_end_stream());
        assert_eq!(direct.size_hint(), wrapped.size_hint());
        let d = match direct.poll_data() {
            DataPoll::Chunk(c) => c,
            _ => panic!("the scripted body must yield a chunk"),
        };
        let w = match wrapped.poll_data() {
            DataPoll::Chunk(c) => c,
            _ => panic!("the wrapped body must yield a chunk"),
        };
        assert_eq!(&d[..], expected);
        assert_eq!(d, w);
    }
    assert!(matches!(direct.poll_data(), DataPoll::Finished));
    assert!(matches!(wrapped.poll_data(), DataPoll::Finished));
    assert_eq!(direct.is_end_stream(), wrapped.is_end_stream());
    assert!(wrapped.is_end_stream());
}

#[test]
fn passthrough_forwards_trailers() {
    let trailers = vec![("x-checksum".to_string(), "0a".to_string())];
    let mut direct = MemoryBody::with_trailers(vec![], trailers.clone());
    let mut wrapped = ResponseBody::new(MemoryBody::with_trailers(vec![], trailers.clone()));

    let d = match direct.poll_trailers() {
        TrailersPoll::Trailers(t) => t,
        _ => panic!("the scripted body must yield its trailers"),
    };
    let w = match wrapped.poll_trailers() {
        TrailersPoll::Trailers(t) => t,
        _ => panic!("the wrapped body must yield the same trailers"),
    };
    assert_eq!(d, trailers);
    assert_eq!(w, trailers);
    assert!(matches!(direct.poll_trailers(), TrailersPoll::NoTrailers));
    assert!(matches!(wrapped.poll_trailers(), TrailersPoll::NoTrailers));
}

#[test]
fn unpolled_error_body_is_dropped_quietly() {
    let body: ResponseBody<MemoryBody> = ResponseBody::payload_too_large();
    assert!(!body.is_end_stream());
    drop(body);
}

#[test]
fn passthrough_forwards_end_of_empty_body() {
    let mut wrapped = ResponseBody::new(MemoryBody::new(vec![]));
    assert!(wrapped.is_end_stream());
    assert!(matches!(wrapped.poll_data(), DataPoll::Finished));
    assert_eq!(wrapped.size_hint(), SizeHint { lower: 0, upper: None });
}
