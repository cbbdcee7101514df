use novelseek::guard::Coordinator;
use novelseek::relay::{GenError, Relay};

#[test]
fn begin_acquires_and_resets_cancel() {
    let mut c = Coordinator::new();
    assert!(!c.is_busy());
    assert!(!c.is_cancelled());
    assert!(c.try_begin());
    assert!(c.is_busy());
    assert!(!c.is_cancelled());
}

#[test]
fn second_begin_fails_while_busy() {
    let mut c = Coordinator::new();
    assert!(c.try_begin());
    assert!(!c.try_begin());
    assert!(c.is_busy());
    c.finish();
    assert!(c.try_begin());
}

#[test]
fn cancel_marks_intent_without_freeing_slot() {
    let mut c = Coordinator::new();
    assert!(c.try_begin());
    c.request_cancel();
    assert!(c.is_busy());
    assert!(c.is_cancelled());
}

#[test]
fn cancel_when_idle_is_a_no_op_for_next_generation() {
    let mut c = Coordinator::new();
    c.request_cancel();
    assert!(c.is_cancelled());
    assert!(c.try_begin());
    assert!(!c.is_cancelled());
}

#[test]
fn cancellation_mid_stream_stops_emission_and_frees_slot() {
    let mut c = Coordinator::new();
    assert!(c.try_begin());

    let mut relay = Relay::new();
    let mut emitted: Vec<String> = Vec::new();
    for i in 0..10 {
        if i == 3 {
            // The user asks to cancel between delta 3 and delta 4.
            c.request_cancel();
        }
        let chunk = format!(
            "data: {{\"choices\":[{{\"delta\":{{\"content\":\"d{}\"}}}}]}}\n",
            i
        );
        match relay.on_chunk(c.is_cancelled(), chunk.as_bytes()) {
            Ok(deltas) => emitted.extend(deltas),
            Err(e) => {
                assert!(matches!(e, GenError::Cancelled));
                assert_eq!(e.message(), "生成已被用户中断");
                break;
            }
        }
    }
    // Deltas 0..2 were emitted before the cancellation was observed; nothing
    // was rolled back and nothing further was emitted.
    assert_eq!(emitted, vec!["d0", "d1", "d2"]);

    // Every exit path releases the slot: the next begin succeeds at once.
    c.finish();
    assert!(c.try_begin());
    assert!(!c.is_cancelled());
}

#[test]
fn transcript_is_the_deltas_joined_in_order() {
    let mut relay = Relay::new();
    let mut emitted: Vec<String> = Vec::new();
    let lines = [
        "data: {\"choices\":[{\"delta\":{\"content\":\"第1章\"}}]}\n",
        "data: [DONE]\n",
        "data: {\"choices\":[{\"delta\":{\"content\":\"、第2章\"}}]}",
    ];
    for line in lines {
        emitted.extend(relay.on_chunk(false, line.as_bytes()).unwrap());
    }
    let (tail, transcript) = relay.finish();
    if let Some(delta) = tail {
        emitted.push(delta);
    }
    assert_eq!(transcript, emitted.concat());
    assert_eq!(transcript, "第1章、第2章");
}
