use rot8::classifier::Orientation;
use rot8::error::Error;
use rot8::orientation::AbsoluteOrientation;
use rot8::transform::Transform;
use rot8::wayland::{AppData, Event, Phase, Request, WaylandBackend};

fn global(interface: &str) -> Event {
    Event::Global { global: 7, interface: interface.to_string(), version: 4 }
}

fn head_name(head: u32, name: &str) -> Event {
    Event::HeadName { head, name: name.to_string() }
}

fn handshake(target: &str, events: Vec<Event>) -> (AppData, Vec<Request>) {
    let mut state = AppData::new(target.to_string());
    let requests = state.drain_events(&events);
    (state, requests)
}

fn backend(target: &str, events: Vec<Event>) -> WaylandBackend {
    let (state, _) = handshake(target, events);
    WaylandBackend::new(state).unwrap()
}

fn normal() -> Orientation {
    Orientation::of(AbsoluteOrientation::Normal)
}

fn right() -> Orientation {
    Orientation::of(AbsoluteOrientation::RightUp)
}

#[test]
fn manager_is_bound_when_advertised() {
    let (state, requests) = handshake(
        "eDP-1",
        vec![global("wl_compositor"), global("zwlr_output_manager_v1"), global("wl_shm")],
    );
    assert_eq!(requests, vec![Request::BindManager { global: 7, version: 4 }]);
    assert_eq!(state.phase(), Phase::Discovering);
    let backend = WaylandBackend::new(state).unwrap();
    assert_eq!(backend.phase(), Phase::Synced);
}

#[test]
fn construction_fails_without_manager() {
    let (state, requests) = handshake(
        "eDP-1",
        vec![global("wl_compositor"), head_name(1, "eDP-1"), Event::Done { serial: 3 }],
    );
    assert!(requests.is_empty());
    assert_eq!(state.phase(), Phase::Connecting);
    assert!(matches!(WaylandBackend::new(state), Err(Error::ProtocolUnsupported)));
}

#[test]
fn update_without_manager_is_unsupported() {
    let mut state = AppData::new("eDP-1".to_string());
    state.handle_event(&head_name(1, "eDP-1"));
    state.handle_event(&Event::Done { serial: 3 });
    assert!(matches!(
        state.update_configuration(Transform::_90),
        Err(Error::ProtocolUnsupported)
    ));
}

#[test]
fn apply_before_settled_state_sends_nothing() {
    let mut b = backend(
        "eDP-1",
        vec![global("zwlr_output_manager_v1"), head_name(1, "eDP-1")],
    );
    let (requests, outcome) = b.apply(&vec![], &right());
    assert!(requests.is_empty());
    assert!(outcome.is_ok());
    // Not even when the head is unknown is this an error.
    let mut b = backend("eDP-9", vec![global("zwlr_output_manager_v1"), head_name(1, "eDP-1")]);
    let (requests, outcome) = b.apply(&vec![], &right());
    assert!(requests.is_empty());
    assert!(outcome.is_ok());
}

#[test]
fn apply_submits_one_transaction() {
    let mut b = backend(
        "eDP-1",
        vec![
            global("zwlr_output_manager_v1"),
            head_name(1, "HDMI-A-1"),
            head_name(2, "eDP-1"),
            Event::Done { serial: 41 },
        ],
    );
    let (requests, outcome) = b.apply(&vec![], &right());
    assert!(outcome.is_ok());
    assert_eq!(
        requests,
        vec![
            Request::CreateConfiguration { serial: 41 },
            Request::EnableHead { transaction: 41, head: 2 },
            Request::SetTransform { transaction: 41, head: 2, transform: Transform::_270 },
            Request::Apply { transaction: 41 },
        ]
    );
}

#[test]
fn serial_is_used_up() {
    let mut b = backend(
        "eDP-1",
        vec![global("zwlr_output_manager_v1"), head_name(2, "eDP-1"), Event::Done { serial: 41 }],
    );
    let (first, _) = b.apply(&vec![], &right());
    assert_eq!(first.len(), 4);
    // Resolved, but no new serial announced: nothing to base a transaction on.
    let (second, outcome) =
        b.apply(&vec![Event::Succeeded { transaction: 41 }], &normal());
    assert_eq!(second, vec![Request::Destroy { transaction: 41 }]);
    assert!(outcome.is_ok());
    // A new serial: the next transaction carries it.
    let (third, _) = b.apply(&vec![Event::Done { serial: 42 }], &normal());
    assert_eq!(third[0], Request::CreateConfiguration { serial: 42 });
    assert_eq!(
        third[2],
        Request::SetTransform { transaction: 42, head: 2, transform: Transform::Normal }
    );
}

#[test]
fn most_recent_serial_is_used() {
    let mut b = backend(
        "eDP-1",
        vec![global("zwlr_output_manager_v1"), head_name(2, "eDP-1"), Event::Done { serial: 5 }],
    );
    let (requests, _) = b.apply(
        &vec![Event::Done { serial: 6 }, Event::Done { serial: 9 }],
        &right(),
    );
    assert_eq!(requests[0], Request::CreateConfiguration { serial: 9 });
}

#[test]
fn no_second_transaction_while_one_is_outstanding() {
    let mut b = backend(
        "eDP-1",
        vec![global("zwlr_output_manager_v1"), head_name(2, "eDP-1"), Event::Done { serial: 5 }],
    );
    let (first, _) = b.apply(&vec![], &right());
    assert_eq!(first.len(), 4);
    let (second, outcome) = b.apply(&vec![Event::Done { serial: 6 }], &normal());
    assert!(second.is_empty());
    assert!(outcome.is_ok());
    let (third, _) =
        b.apply(&vec![Event::Cancelled { transaction: 5 }], &normal());
    assert_eq!(third[0], Request::Destroy { transaction: 5 });
    assert_eq!(third[1], Request::CreateConfiguration { serial: 6 });
    assert_eq!(third.len(), 5);
}

#[test]
fn every_outcome_releases_the_transaction_once() {
    let outcomes = [
        Event::Succeeded { transaction: 5 },
        Event::Failed { transaction: 5 },
        Event::Cancelled { transaction: 5 },
    ];
    for outcome in outcomes {
        let mut b = backend(
            "eDP-1",
            vec![
                global("zwlr_output_manager_v1"),
                head_name(2, "eDP-1"),
                Event::Done { serial: 5 },
            ],
        );
        let (_, submitted) = b.apply(&vec![], &right());
        assert!(submitted.is_ok());
        let released = b.read_socket(&vec![outcome.clone()]);
        assert_eq!(released, vec![Request::Destroy { transaction: 5 }]);
        // The same event again, or one for another transaction, releases nothing.
        assert!(b.read_socket(&vec![outcome.clone()]).is_empty());
        assert!(b.read_socket(&vec![Event::Failed { transaction: 4 }]).is_empty());
        // And none of them is an error for the next apply.
        let (_, next) = b.apply(&vec![], &normal());
        assert!(next.is_ok());
    }
}

#[test]
fn apply_without_head_is_fatal() {
    let mut b = backend(
        "eDP-9",
        vec![global("zwlr_output_manager_v1"), head_name(1, "eDP-1"), Event::Done { serial: 5 }],
    );
    let (requests, outcome) = b.apply(&vec![], &right());
    assert!(requests.is_empty());
    assert!(matches!(outcome, Err(Error::HeadNotFound)));
    // The serial is still at hand once the head shows up.
    let (requests, outcome) = b.apply(&vec![head_name(3, "eDP-9")], &right());
    assert!(outcome.is_ok());
    assert_eq!(requests[0], Request::CreateConfiguration { serial: 5 });
    assert_eq!(requests[1], Request::EnableHead { transaction: 5, head: 3 });
}

#[test]
fn query_for_unknown_head_fails() {
    let mut b = backend(
        "eDP-9",
        vec![
            global("zwlr_output_manager_v1"),
            head_name(1, "eDP-1"),
            Event::HeadTransform { head: 1, transform: Transform::Normal },
            Event::Done { serial: 5 },
        ],
    );
    let (requests, state) = b.query(&vec![]);
    assert!(requests.is_empty());
    assert!(matches!(state, Err(Error::HeadNotFound)));
}

#[test]
fn query_returns_cached_transform_of_target() {
    let mut b = backend(
        "eDP-1",
        vec![
            global("zwlr_output_manager_v1"),
            head_name(1, "eDP-1"),
            head_name(2, "DP-3"),
            Event::HeadTransform { head: 1, transform: Transform::_90 },
            Event::HeadTransform { head: 2, transform: Transform::Flipped },
            Event::Done { serial: 5 },
        ],
    );
    assert!(matches!(b.query(&vec![]).1, Ok(Transform::_90)));
    // Events that are drained refresh the cache.
    let events = vec![
        Event::Other,
        Event::HeadTransform { head: 2, transform: Transform::_270 },
        Event::HeadTransform { head: 1, transform: Transform::_180 },
    ];
    assert!(matches!(b.query(&events).1, Ok(Transform::_180)));
    assert!(matches!(b.query(&vec![]).1, Ok(Transform::_180)));
}

#[test]
fn query_without_transform_event_fails() {
    let mut b = backend(
        "eDP-1",
        vec![global("zwlr_output_manager_v1"), head_name(1, "eDP-1"), Event::Done { serial: 5 }],
    );
    assert!(matches!(b.query(&vec![]).1, Err(Error::HeadNotFound)));
}

#[test]
fn serials_over_a_run_never_repeat() {
    let mut b = backend("eDP-1", vec![global("zwlr_output_manager_v1"), head_name(1, "eDP-1")]);
    let mut created: Vec<u32> = Vec::new();
    let mut destroyed: Vec<u32> = Vec::new();
    let mut serial = 10;
    for round in 0..50u32 {
        let mut events = Vec::new();
        if round % 3 != 1 {
            serial += 1 + round % 2;
            events.push(Event::Done { serial });
        }
        if let Some(last) = created.last() {
            if round % 4 != 2 {
                events.push(Event::Failed { transaction: *last });
            }
        }
        let target = if round % 2 == 0 { right() } else { normal() };
        let (requests, outcome) = b.apply(&events, &target);
        assert!(outcome.is_ok());
        for request in requests {
            match request {
                Request::CreateConfiguration { serial } => created.push(serial),
                Request::Destroy { transaction } => destroyed.push(transaction),
                _ => {}
            }
        }
    }
    assert!(created.len() > 10);
    assert!(created.windows(2).all(|w| w[0] < w[1]));
    assert!(destroyed.len() + 1 >= created.len());
    assert_eq!(destroyed[..], created[..destroyed.len()]);
}

#[test]
fn transform_before_name_is_kept() {
    let mut b = backend(
        "eDP-1",
        vec![
            global("zwlr_output_manager_v1"),
            Event::HeadTransform { head: 7, transform: Transform::_90 },
            head_name(7, "eDP-1"),
            Event::Done { serial: 5 },
        ],
    );
    assert!(matches!(b.query(&vec![]).1, Ok(Transform::_90)));
}

#[test]
fn transforms_of_other_heads_leave_the_answer_alone() {
    let mut b = backend(
        "eDP-1",
        vec![
            global("zwlr_output_manager_v1"),
            Event::HeadTransform { head: 8, transform: Transform::Flipped },
            Event::HeadTransform { head: 7, transform: Transform::_90 },
            Event::HeadTransform { head: 8, transform: Transform::_180 },
            head_name(8, "DP-3"),
            head_name(7, "eDP-1"),
            Event::HeadTransform { head: 9, transform: Transform::_270 },
            Event::Done { serial: 5 },
        ],
    );
    assert!(matches!(b.query(&vec![]).1, Ok(Transform::_90)));
    // The last announcement of the target head counts.
    let events = vec![
        Event::HeadTransform { head: 7, transform: Transform::_180 },
        Event::HeadTransform { head: 7, transform: Transform::Normal },
        Event::HeadTransform { head: 8, transform: Transform::_90 },
    ];
    assert!(matches!(b.query(&events).1, Ok(Transform::Normal)));
}

#[test]
fn only_the_named_head_counts() {
    // Another head announced a transform; the target head did not.
    let mut b = backend(
        "eDP-1",
        vec![
            global("zwlr_output_manager_v1"),
            Event::HeadTransform { head: 8, transform: Transform::_90 },
            head_name(7, "eDP-1"),
            head_name(8, "DP-3"),
            Event::Done { serial: 5 },
        ],
    );
    assert!(matches!(b.query(&vec![]).1, Err(Error::HeadNotFound)));
    // The name moves to the other head: its transform is the answer now.
    assert!(matches!(b.query(&vec![head_name(8, "eDP-1")]).1, Ok(Transform::_90)));
}
