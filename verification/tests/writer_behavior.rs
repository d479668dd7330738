//! Behavior of the writer state machine: epoch gating, preemption,
//! completions, and emission order.

use ratatui::layout::Rect;
use termwriter::protocol::{RowEncodings, WriterRequest, WriterResult, WriterResultKind};
use termwriter::writer::{TaskStep, WriterState};

fn erase_rows(area: Rect) -> Vec<Vec<u8>> {
    (0..area.height)
        .map(|i| format!("ERASE({},{},{},{}):{}", area.x, area.y, area.width, area.height, i).into_bytes())
        .collect()
}

fn place_rows(area: Rect, kgp_id: u32) -> Vec<Vec<u8>> {
    (0..area.height)
        .map(|i| {
            format!("PLACE({},{},{},{})#{}:{}", area.x, area.y, area.width, area.height, kgp_id, i)
                .into_bytes()
        })
        .collect()
}

fn delete_all(is_tmux: bool) -> Vec<u8> {
    format!("DELETEALL:{is_tmux}").into_bytes()
}

fn encodings_for(msg: &WriterRequest) -> RowEncodings {
    match msg {
        WriterRequest::ImageTransmit { area, kgp_id, old_area, .. } => RowEncodings {
            erase_old: old_area.map(erase_rows).unwrap_or_default(),
            place: place_rows(*area, *kgp_id),
            delete_all: Vec::new(),
        },
        WriterRequest::ImagePlace { area, kgp_id, old_area, .. } => RowEncodings {
            erase_old: old_area.map(erase_rows).unwrap_or_default(),
            place: place_rows(*area, *kgp_id),
            delete_all: Vec::new(),
        },
        WriterRequest::ClearAll { area, is_tmux } => RowEncodings {
            erase_old: area.map(erase_rows).unwrap_or_default(),
            place: Vec::new(),
            delete_all: delete_all(*is_tmux),
        },
        _ => RowEncodings::empty(),
    }
}

/// Apply a request the way the writer loop would, collecting any bytes the
/// apply itself emits.
fn apply(st: &mut WriterState, msg: WriterRequest, out: &mut Vec<u8>) {
    let enc = encodings_for(&msg);
    let eff = st.apply_msg(msg, enc);
    out.extend_from_slice(&eff.bytes);
}

/// Run task steps until the task is gone, collecting emitted bytes and
/// completions.
fn drain(st: &mut WriterState, out: &mut Vec<u8>, results: &mut Vec<WriterResult>) {
    loop {
        match st.step_task() {
            TaskStep::Idle => break,
            TaskStep::Discarded => {}
            TaskStep::Completed { result, .. } => {
                if let Some(r) = result {
                    results.push(r);
                }
            }
            TaskStep::Wrote { chunk, .. } => out.extend_from_slice(&chunk),
        }
    }
}

fn flat(rows: Vec<Vec<u8>>) -> Vec<u8> {
    rows.into_iter().flatten().collect()
}

#[test]
fn transmit_superseded_by_place() {
    // An in-flight transmission (epoch 1) is replaced by a placement
    // (epoch 2) before any of its chunks go out: the effective output is the
    // old area's erase rows then the new placement's rows, the payload and
    // the transmit completion are discarded, and only PlaceDone remains.
    let a = Rect::new(0, 0, 10, 2);
    let b = Rect::new(5, 1, 8, 3);
    let mut st = WriterState::new(true);
    let mut out = Vec::new();
    let mut results = Vec::new();

    apply(
        &mut st,
        WriterRequest::ImageTransmit {
            encoded_chunks: vec![b"b1".to_vec(), b"b2".to_vec()],
            area: a,
            kgp_id: 7,
            old_area: None,
            epoch: 1,
        },
        &mut out,
    );
    apply(
        &mut st,
        WriterRequest::ImagePlace { area: b, kgp_id: 7, old_area: Some(a), epoch: 2 },
        &mut out,
    );
    drain(&mut st, &mut out, &mut results);

    let mut expected = flat(erase_rows(a));
    expected.extend_from_slice(&flat(place_rows(b, 7)));
    assert_eq!(out, expected);
    assert_eq!(results.len(), 1);
    assert_eq!(results[0].kind, WriterResultKind::PlaceDone { kgp_id: 7 });
    assert_eq!(results[0].epoch, 2);
}

#[test]
fn stale_epoch_is_dropped() {
    // A request below the highest accepted epoch has no observable effect.
    let a = Rect::new(0, 0, 4, 1);
    let mut st = WriterState::new(true);
    let mut out = Vec::new();
    let mut results = Vec::new();

    apply(
        &mut st,
        WriterRequest::ImagePlace { area: a, kgp_id: 1, old_area: None, epoch: 5 },
        &mut out,
    );
    apply(
        &mut st,
        WriterRequest::ImagePlace { area: a, kgp_id: 2, old_area: None, epoch: 4 },
        &mut out,
    );
    drain(&mut st, &mut out, &mut results);

    assert_eq!(out, flat(place_rows(a, 1)));
    assert_eq!(results.len(), 1);
    assert_eq!(results[0].kind, WriterResultKind::PlaceDone { kgp_id: 1 });
}

#[test]
fn only_last_of_increasing_epochs_completes() {
    // Three image requests with strictly increasing epochs: the two earlier
    // ones are superseded before completing and produce nothing.
    let a = Rect::new(0, 0, 3, 1);
    let mut st = WriterState::new(false);
    let mut out = Vec::new();
    let mut results = Vec::new();

    for (id, epoch) in [(1u32, 1u64), (2, 2), (3, 3)] {
        apply(
            &mut st,
            WriterRequest::ImagePlace { area: a, kgp_id: id, old_area: None, epoch },
            &mut out,
        );
    }
    drain(&mut st, &mut out, &mut results);

    assert_eq!(results.len(), 1);
    assert_eq!(results[0].kind, WriterResultKind::PlaceDone { kgp_id: 3 });
    assert_eq!(results[0].epoch, 3);
}

#[test]
fn cancel_at_current_epoch_drops_task() {
    // A cancel carrying the current epoch drops the active task, writes only
    // a formatting reset, and keeps the epoch; the task never completes.
    let a = Rect::new(0, 0, 6, 2);
    let mut st = WriterState::new(true);
    let mut out = Vec::new();
    let mut results = Vec::new();

    apply(
        &mut st,
        WriterRequest::ImagePlace { area: a, kgp_id: 9, old_area: None, epoch: 5 },
        &mut out,
    );
    apply(
        &mut st,
        WriterRequest::CancelImage { kgp_id: Some(9), is_tmux: false, area: Some(a), epoch: 5 },
        &mut out,
    );
    drain(&mut st, &mut out, &mut results);

    assert_eq!(out, b"\x1b[0m".to_vec());
    assert!(results.is_empty());

    // An equal epoch is not below the accepted one, so a follow-up at the
    // same epoch is accepted again, as the transition table prescribes.
    apply(
        &mut st,
        WriterRequest::ImageTransmit {
            encoded_chunks: vec![b"p".to_vec()],
            area: a,
            kgp_id: 9,
            old_area: None,
            epoch: 5,
        },
        &mut out,
    );
    let mut out2 = Vec::new();
    let mut results2 = Vec::new();
    drain(&mut st, &mut out2, &mut results2);
    assert_eq!(results2.len(), 1);
    assert_eq!(results2[0].kind, WriterResultKind::TransmitDone { kgp_id: 9 });
}

#[test]
fn cancel_below_epoch_keeps_task() {
    // A cancel below the accepted epoch neither drops the task nor moves the
    // epoch, though the reset is still written.
    let a = Rect::new(0, 0, 2, 1);
    let mut st = WriterState::new(true);
    let mut out = Vec::new();
    let mut results = Vec::new();

    apply(
        &mut st,
        WriterRequest::ImagePlace { area: a, kgp_id: 3, old_area: None, epoch: 8 },
        &mut out,
    );
    apply(
        &mut st,
        WriterRequest::CancelImage { kgp_id: None, is_tmux: false, area: None, epoch: 7 },
        &mut out,
    );
    drain(&mut st, &mut out, &mut results);

    let mut expected = b"\x1b[0m".to_vec();
    expected.extend_from_slice(&flat(place_rows(a, 3)));
    assert_eq!(out, expected);
    assert_eq!(results.len(), 1);
    assert_eq!(results[0].kind, WriterResultKind::PlaceDone { kgp_id: 3 });
}

#[test]
fn non_interactive_completes_without_bytes() {
    // On a non-interactive stream an accepted transmission writes nothing
    // and still completes at once; clear and cancel write nothing either.
    let a = Rect::new(0, 0, 5, 5);
    let mut st = WriterState::new(false);
    let mut out = Vec::new();
    let mut results = Vec::new();

    apply(
        &mut st,
        WriterRequest::ImageTransmit {
            encoded_chunks: vec![b"payload".to_vec()],
            area: a,
            kgp_id: 4,
            old_area: Some(a),
            epoch: 1,
        },
        &mut out,
    );
    drain(&mut st, &mut out, &mut results);
    apply(
        &mut st,
        WriterRequest::ClearAll { area: Some(a), is_tmux: false },
        &mut out,
    );
    apply(
        &mut st,
        WriterRequest::CancelImage { kgp_id: None, is_tmux: true, area: None, epoch: 2 },
        &mut out,
    );

    assert!(out.is_empty());
    assert_eq!(results.len(), 1);
    assert_eq!(results[0].kind, WriterResultKind::TransmitDone { kgp_id: 4 });
    assert_eq!(results[0].epoch, 1);
}

#[test]
fn erase_precedes_place_even_when_equal() {
    // The old area's erase rows always come first, old == new included.
    let a = Rect::new(2, 2, 4, 3);
    let mut st = WriterState::new(true);
    let mut out = Vec::new();
    let mut results = Vec::new();

    apply(
        &mut st,
        WriterRequest::ImagePlace { area: a, kgp_id: 11, old_area: Some(a), epoch: 1 },
        &mut out,
    );
    drain(&mut st, &mut out, &mut results);

    let mut expected = flat(erase_rows(a));
    expected.extend_from_slice(&flat(place_rows(a, 11)));
    assert_eq!(out, expected);
}

#[test]
fn transmit_emits_erase_payload_place_in_order() {
    let old = Rect::new(0, 0, 3, 2);
    let new = Rect::new(1, 1, 3, 2);
    let mut st = WriterState::new(true);
    let mut out = Vec::new();
    let mut results = Vec::new();

    apply(
        &mut st,
        WriterRequest::ImageTransmit {
            encoded_chunks: vec![b"k1".to_vec(), b"k2".to_vec()],
            area: new,
            kgp_id: 6,
            old_area: Some(old),
            epoch: 3,
        },
        &mut out,
    );
    drain(&mut st, &mut out, &mut results);

    let mut expected = flat(erase_rows(old));
    expected.extend_from_slice(b"k1k2");
    expected.extend_from_slice(&flat(place_rows(new, 6)));
    assert_eq!(out, expected);
    assert_eq!(results.len(), 1);
    assert_eq!(results[0].kind, WriterResultKind::TransmitDone { kgp_id: 6 });
}

#[test]
fn clear_all_emits_erase_delete_reset() {
    let a = Rect::new(0, 0, 2, 2);
    let mut st = WriterState::new(true);
    let mut out = Vec::new();

    apply(
        &mut st,
        WriterRequest::ImagePlace { area: a, kgp_id: 1, old_area: None, epoch: 1 },
        &mut out,
    );
    out.clear();
    apply(&mut st, WriterRequest::ClearAll { area: Some(a), is_tmux: true }, &mut out);

    let mut expected = flat(erase_rows(a));
    expected.extend_from_slice(&delete_all(true));
    expected.extend_from_slice(b"\x1b[0m");
    assert_eq!(out, expected);

    // The preempted task is gone: nothing more to step, no completion.
    let mut results = Vec::new();
    let mut rest = Vec::new();
    drain(&mut st, &mut rest, &mut results);
    assert!(rest.is_empty());
    assert!(results.is_empty());
}

#[test]
fn shutdown_is_terminal() {
    let mut st = WriterState::new(true);
    let mut out = Vec::new();
    apply(&mut st, WriterRequest::Shutdown, &mut out);
    assert!(st.should_quit);
    assert!(out.is_empty());
}

#[test]
fn empty_chunks_write_nothing_and_large_chunks_flush() {
    // An empty payload chunk is consumed without output; a chunk at the
    // flush threshold asks for a flush.
    let a = Rect::new(0, 0, 1, 0);
    let mut st = WriterState::new(true);
    let mut out = Vec::new();

    apply(
        &mut st,
        WriterRequest::ImageTransmit {
            encoded_chunks: vec![Vec::new(), vec![7u8; 65536]],
            area: a,
            kgp_id: 2,
            old_area: None,
            epoch: 1,
        },
        &mut out,
    );

    match st.step_task() {
        TaskStep::Wrote { chunk, flush } => {
            assert!(chunk.is_empty());
            assert!(!flush);
        }
        _ => panic!("expected a chunk step"),
    }
    match st.step_task() {
        TaskStep::Wrote { chunk, flush } => {
            assert_eq!(chunk.len(), 65536);
            assert!(flush);
        }
        _ => panic!("expected a chunk step"),
    }
}
