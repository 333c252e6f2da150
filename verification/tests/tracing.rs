use posh::gl::tracing::{
    DrawCall, DrawCallInfo, DrawCallTrace, FrameTrace, IndexRange, PrimitiveMode, QueryReading,
    TimerQueryId, Tracing,
};

fn info(name: &str) -> DrawCallInfo {
    DrawCallInfo {
        vertex_shader_name: name.to_string(),
        fragment_shader_name: "frag".to_string(),
        vertex_data_lens: vec![3],
        element_data_len: None,
        mode: PrimitiveMode::Triangles,
        index_range: IndexRange { start: 0, end: 3 },
        num_instances: 1,
    }
}

fn q(id: u64) -> Option<TimerQueryId> {
    Some(TimerQueryId { id })
}

fn ready(duration: u64) -> QueryReading {
    QueryReading { available: true, duration: Some(duration) }
}

fn pending() -> QueryReading {
    QueryReading { available: false, duration: None }
}

#[test]
fn first_frames_are_empty() {
    let mut tracing = Tracing::new();
    assert!(tracing.needs_query());
    assert!(tracing.pending_queries().is_empty());
    assert_eq!(tracing.start_frame(&vec![]), Some(FrameTrace { draw_calls: vec![] }));
    assert_eq!(tracing.start_frame(&vec![]), Some(FrameTrace { draw_calls: vec![] }));
}

#[test]
fn fresh_queries_are_used_while_none_is_free() {
    let mut tracing = Tracing::new();
    assert_eq!(tracing.start_draw_call(info("a"), q(1)), q(1));
    assert_eq!(tracing.start_draw_call(info("b"), None), None);
    assert_eq!(tracing.start_draw_call(info("c"), q(2)), q(2));
    assert!(tracing.needs_query());
    // The frame that ends becomes the last frame.
    assert_eq!(tracing.start_frame(&vec![]), Some(FrameTrace { draw_calls: vec![] }));
    assert_eq!(tracing.pending_queries(), vec![q(1), None, q(2)]);
}

#[test]
fn trace_of_a_frame_comes_when_all_its_queries_are_available() {
    let mut tracing = Tracing::new();
    tracing.start_draw_call(info("a"), q(1));
    tracing.start_draw_call(info("b"), None);
    tracing.start_draw_call(info("c"), q(2));
    tracing.start_frame(&vec![]);
    tracing.start_draw_call(info("d"), q(3));

    // One query of the last frame is not available yet: the frame that ends is dropped.
    assert_eq!(tracing.start_frame(&vec![ready(10), ready(0), pending()]), None);
    assert_eq!(tracing.pending_queries(), vec![q(1), None, q(2)]);
    assert!(tracing.needs_query());
    // A reading that is missing counts as not available.
    assert_eq!(tracing.start_frame(&vec![ready(10)]), None);
    assert_eq!(tracing.start_frame(&vec![]), None);

    tracing.start_draw_call(info("e"), q(4));
    let frame = tracing.start_frame(&vec![ready(10), pending(), ready(30)]).unwrap();
    assert_eq!(
        frame.draw_calls,
        vec![
            DrawCallTrace { info: info("a"), duration: Some(10) },
            DrawCallTrace { info: info("b"), duration: None },
            DrawCallTrace { info: info("c"), duration: Some(30) },
        ]
    );
    assert_eq!(tracing.pending_queries(), vec![q(4)]);
    assert!(!tracing.needs_query());

    // The queries of the traced frame are free again; the one freed last is used first.
    assert_eq!(tracing.start_draw_call(info("f"), q(9)), q(2));
    assert_eq!(tracing.start_draw_call(info("g"), None), q(1));
    assert!(tracing.needs_query());
    assert_eq!(tracing.start_draw_call(info("h"), None), None);
    assert_eq!(tracing.start_draw_call(info("i"), q(5)), q(5));
}

#[test]
fn available_query_without_result_gives_no_duration() {
    let mut tracing = Tracing::new();
    tracing.start_draw_call(info("a"), q(1));
    tracing.start_frame(&vec![]);
    let frame = tracing
        .start_frame(&vec![QueryReading { available: true, duration: None }])
        .unwrap();
    assert_eq!(frame.draw_calls, vec![DrawCallTrace { info: info("a"), duration: None }]);
}

#[test]
fn readings_of_draw_calls_without_query_are_ignored() {
    let mut tracing = Tracing::new();
    tracing.start_draw_call(info("a"), None);
    tracing.start_frame(&vec![]);
    let frame = tracing.start_frame(&vec![ready(5), ready(6)]).unwrap();
    assert_eq!(frame.draw_calls, vec![DrawCallTrace { info: info("a"), duration: None }]);
    assert!(tracing.needs_query());
    let call = DrawCall { info: info("a"), query: None };
    assert_eq!(call.query, None);
}
