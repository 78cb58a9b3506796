use ya_etcd_rs::error::Error;
use ya_etcd_rs::lease::{check_first_ack, initial_request, KeepAliveAck, KeepAliveRequest, LeaseKeeper};

#[test]
fn initial_request_carries_the_lease_id() {
    assert_eq!(initial_request(77), KeepAliveRequest { id: 77 });
}

#[test]
fn first_ack_for_the_lease_completes_the_handshake() {
    assert!(matches!(check_first_ack(77, Some(KeepAliveAck { id: 77, ttl: 10 })), Ok(77)));
    assert!(matches!(check_first_ack(-3, Some(KeepAliveAck { id: -3, ttl: 0 })), Ok(-3)));
}

#[test]
fn first_ack_for_another_lease_is_refused() {
    assert!(matches!(
        check_first_ack(77, Some(KeepAliveAck { id: 5, ttl: 10 })),
        Err(Error::KeepAliveLease)
    ));
    assert!(matches!(
        LeaseKeeper::establish(77, Some(KeepAliveAck { id: 78, ttl: 10 })),
        Err(Error::KeepAliveLease)
    ));
    assert!(matches!(
        LeaseKeeper::establish(0, Some(KeepAliveAck { id: i64::MAX, ttl: 1 })),
        Err(Error::KeepAliveLease)
    ));
}

#[test]
fn closed_stream_before_first_ack_fails_creation() {
    assert!(matches!(check_first_ack(1, None), Err(Error::CreateWatch)));
    assert!(matches!(LeaseKeeper::establish(1, None), Err(Error::CreateWatch)));
}

#[test]
fn keep_alive_round_trip() {
    let req = initial_request(1234);
    let mut k =
        LeaseKeeper::establish(1234, Some(KeepAliveAck { id: req.id, ttl: 30 })).expect("session");
    assert_eq!(k, LeaseKeeper { lease_id: 1234, alive: true, sent: 1, received: 1 });
    assert!(k.is_matched());
    assert!(k.is_alive());
    assert_eq!(k.pulse(), KeepAliveRequest { id: 1234 });
    assert_eq!(k.sent, 2);
    let ack = KeepAliveAck { id: 1234, ttl: 29 };
    assert_eq!(k.on_ack(Some(ack)), Some(ack));
    assert_eq!(k.received, 2);
    assert!(k.is_matched());
    assert!(!k.is_foreign(&ack));
    assert!(k.is_foreign(&KeepAliveAck { id: 1, ttl: 29 }));
    assert_eq!(k.pulse(), KeepAliveRequest { id: 1234 });
}

#[test]
fn acknowledgements_pass_through_in_order_until_the_stream_ends() {
    let mut k = LeaseKeeper::establish(9, Some(KeepAliveAck { id: 9, ttl: 30 })).expect("session");
    let acks = vec![
        KeepAliveAck { id: 9, ttl: 30 },
        KeepAliveAck { id: 9, ttl: 12 },
        KeepAliveAck { id: 4, ttl: -1 },
        KeepAliveAck { id: 9, ttl: 30 },
    ];
    let mut seen = Vec::new();
    for a in acks.iter() {
        k.pulse();
        if let Some(out) = k.on_ack(Some(*a)) {
            seen.push(out);
        }
    }
    assert_eq!(seen, acks);
    assert_eq!(k.received, 5);
    assert_eq!(k.sent, 5);
    assert_eq!(k.on_ack(None), None);
    assert!(!k.is_alive());
    assert_eq!(k.lease_id, 9);
}

#[test]
fn end_of_stream_is_not_an_error_and_is_final() {
    let mut k = LeaseKeeper::establish(3, Some(KeepAliveAck { id: 3, ttl: 30 })).expect("session");
    assert_eq!(k.on_ack(None), None);
    assert!(!k.alive);
    assert_eq!(k.received, 1);
    assert_eq!(k.lease_id, 3);
    let after = k;
    assert_eq!(k.on_ack(Some(KeepAliveAck { id: 3, ttl: 30 })), None);
    assert_eq!(k, after);
}

#[test]
fn unanswered_ack_is_visible() {
    let mut k = LeaseKeeper::establish(3, Some(KeepAliveAck { id: 3, ttl: 30 })).expect("session");
    k.on_ack(Some(KeepAliveAck { id: 3, ttl: 30 }));
    assert!(!k.is_matched());
}
