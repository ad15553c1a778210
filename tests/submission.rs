use anoma_client_tx::coordinator::{broadcast_reply, Action, Mode, Phase, Reply, SubmitError, Submission};
use anoma_client_tx::encoding::tx_query_for;
use anoma_client_tx::tx::{
    submit_custom, submit_transfer, submit_tx, submit_update_vp, Transaction, Transfer, UpdateVp,
};

const EMPTY_SHA256: &str = "E3B0C44298FC1C149AFBF4C8996FB92427AE41E4649B934CA495991B7852B855";
const ABC_SHA256: &str = "BA7816BF8F01CFEA414140DE5DAE2223B00361A396177A9CB410FF61F20015AD";

/// A connection double: answers each call from a script and records it.
fn drive(s: &mut Submission, answer: &dyn Fn(&Action) -> Reply) -> Vec<Action> {
    let mut log = Vec::new();
    loop {
        let a = s.action();
        if a == Action::Finish {
            return log;
        }
        let reply = answer(&a);
        log.push(a);
        s.step(reply);
    }
}

fn ok(v: &str) -> Reply {
    Reply::Success(v.to_string())
}

fn transfer() -> Transfer {
    Transfer {
        source: "Alice".to_string(),
        target: "Bob".to_string(),
        token: "XAN".to_string(),
        amount: 10,
    }
}

fn fake_signer(b: &Vec<u8>) -> Vec<u8> {
    vec![b.len() as u8, 0xAA]
}

fn happy(a: &Action) -> Reply {
    match a {
        Action::Broadcast(_) => ok("code: 0"),
        Action::Receive => ok("tx event"),
        _ => ok(""),
    }
}

#[test]
fn sha256_query_of_empty_bytes() {
    let q = tx_query_for(&[]);
    assert_eq!(q, format!("tm.event = 'Tx' AND tx.hash = '{}'", EMPTY_SHA256));
}

#[test]
fn sha256_query_of_abc() {
    let q = tx_query_for(b"abc");
    assert_eq!(q, format!("tm.event = 'Tx' AND tx.hash = '{}'", ABC_SHA256));
}

#[test]
fn transfer_encoding_is_exact() {
    let b = transfer().to_bytes().unwrap();
    let mut want = vec![5, 0, 0, 0];
    want.extend_from_slice(b"Alice");
    want.extend_from_slice(&[3, 0, 0, 0]);
    want.extend_from_slice(b"Bob");
    want.extend_from_slice(&[3, 0, 0, 0]);
    want.extend_from_slice(b"XAN");
    want.extend_from_slice(&[10, 0, 0, 0, 0, 0, 0, 0]);
    assert_eq!(b, want);
}

#[test]
fn update_vp_encoding_is_exact() {
    let u = UpdateVp { addr: "acc".to_string(), vp_code: vec![9, 8] };
    assert_eq!(u.to_bytes().unwrap(), vec![3, 0, 0, 0, b'a', b'c', b'c', 2, 0, 0, 0, 9, 8]);
}

#[test]
fn unsigned_transaction_encoding_is_exact() {
    let tx = Transaction::new(vec![1, 2], None);
    assert_eq!(tx.to_bytes().unwrap(), vec![2, 0, 0, 0, 1, 2, 0, 0]);
    let tx = Transaction::new(vec![7], Some(vec![5]));
    assert_eq!(tx.to_bytes().unwrap(), vec![1, 0, 0, 0, 7, 1, 1, 0, 0, 0, 5, 0]);
}

#[test]
fn signing_covers_unsigned_bytes() {
    let tx = Transaction::new(vec![1, 2], None);
    let unsigned = tx.signing_bytes().unwrap();
    assert_eq!(unsigned, vec![2, 0, 0, 0, 1, 2, 0, 0]);
    let signed = tx.sign(fake_signer).unwrap();
    assert_eq!(signed.signature, Some(vec![8, 0xAA]));
    assert_eq!(
        signed.to_bytes().unwrap(),
        vec![2, 0, 0, 0, 1, 2, 0, 1, 2, 0, 0, 0, 8, 0xAA]
    );
}

#[test]
fn serialization_is_deterministic() {
    let a = Transaction::new(vec![3, 4, 5], Some(vec![6])).to_bytes();
    let b = Transaction::new(vec![3, 4, 5], Some(vec![6])).to_bytes();
    assert_eq!(a, b);
}

#[test]
fn subscribe_query_matches_broadcast_bytes() {
    let mut s = submit_custom(vec![1, 2, 3], None, Mode::Broadcast).unwrap();
    let log = drive(&mut s, &happy);
    let Action::Subscribe(q) = &log[1] else { panic!("expected a subscription") };
    let Action::Broadcast(b) = &log[2] else { panic!("expected a broadcast") };
    assert_eq!(*q, tx_query_for(b));
    assert_eq!(*b, s.bytes);
}

#[test]
fn transfer_is_subscribed_then_broadcast_and_confirmed() {
    let t = transfer();
    let mut s = submit_transfer(&t, b"transfer code".to_vec(), fake_signer, Mode::Broadcast).unwrap();
    let payload = t.to_bytes().unwrap();
    let expected = Transaction::new(b"transfer code".to_vec(), Some(payload))
        .sign(fake_signer)
        .unwrap()
        .to_bytes()
        .unwrap();
    assert_eq!(s.bytes, expected);
    let log = drive(&mut s, &happy);
    assert_eq!(
        log,
        vec![
            Action::Open,
            Action::Subscribe(tx_query_for(&expected)),
            Action::Broadcast(expected.clone()),
            Action::Receive,
            Action::Unsubscribe,
            Action::Close,
        ]
    );
    assert_eq!(s.ack, Some("code: 0".to_string()));
    assert_eq!(s.confirmation, Some("tx event".to_string()));
    assert_eq!(s.error, None);
    assert_eq!(s.phase, Phase::Finished);
}

#[test]
fn unreachable_subscription_never_broadcasts() {
    let mut s = submit_transfer(&transfer(), vec![1], fake_signer, Mode::Broadcast).unwrap();
    let log = drive(&mut s, &|a: &Action| match a {
        Action::Subscribe(_) => Reply::Failure("unreachable".to_string()),
        _ => ok(""),
    });
    assert_eq!(s.error, Some(SubmitError::Subscription("unreachable".to_string())));
    assert!(!log.iter().any(|a| matches!(a, Action::Broadcast(_))));
    assert!(!log.contains(&Action::Unsubscribe));
    assert_eq!(log.iter().filter(|a| **a == Action::Close).count(), 1);
    assert_eq!(log.last(), Some(&Action::Close));
}

#[test]
fn dry_run_only_simulates() {
    let mut s = submit_transfer(&transfer(), vec![1], fake_signer, Mode::DryRun).unwrap();
    let bytes = s.bytes.clone();
    let log = drive(&mut s, &|_: &Action| ok("simulated"));
    assert_eq!(log, vec![Action::Simulate(bytes)]);
    assert_eq!(s.simulation, Some("simulated".to_string()));
    assert_eq!(s.ack, None);
}

#[test]
fn rejected_broadcast_still_cleans_up() {
    let mut s = submit_transfer(&transfer(), vec![1], fake_signer, Mode::Broadcast).unwrap();
    let log = drive(&mut s, &|a: &Action| match a {
        Action::Broadcast(_) => broadcast_reply(1, "rejected: insufficient balance".to_string()),
        _ => ok(""),
    });
    assert_eq!(
        s.error,
        Some(SubmitError::Broadcast("rejected: insufficient balance".to_string()))
    );
    assert_eq!(&log[3..], &[Action::Unsubscribe, Action::Close]);
    assert!(!log.contains(&Action::Receive));
}

#[test]
fn failed_open_releases_nothing() {
    let mut s = submit_custom(vec![1], None, Mode::Broadcast).unwrap();
    let log = drive(&mut s, &|_: &Action| Reply::Failure("refused".to_string()));
    assert_eq!(log, vec![Action::Open]);
    assert_eq!(s.error, Some(SubmitError::Connection("refused".to_string())));
}

#[test]
fn failed_receive_still_cleans_up() {
    let mut s = submit_custom(vec![1], Some(vec![2]), Mode::Broadcast).unwrap();
    let log = drive(&mut s, &|a: &Action| match a {
        Action::Receive => Reply::Failure("link dropped".to_string()),
        Action::Unsubscribe => Reply::Failure("gone".to_string()),
        _ => ok(""),
    });
    assert_eq!(&log[3..], &[Action::Receive, Action::Unsubscribe, Action::Close]);
    assert_eq!(s.error, Some(SubmitError::Connection("link dropped".to_string())));
    assert_eq!(s.confirmation, None);
}

#[test]
fn update_vp_is_signed_and_submitted() {
    let u = UpdateVp { addr: "acc".to_string(), vp_code: vec![4] };
    let s = submit_update_vp(&u, vec![6], fake_signer, Mode::Broadcast).unwrap();
    let expected = Transaction::new(vec![6], Some(u.to_bytes().unwrap()))
        .sign(fake_signer)
        .unwrap()
        .to_bytes()
        .unwrap();
    assert_eq!(s.bytes, expected);
    assert_eq!(s.action(), Action::Open);
}

#[test]
fn submit_tx_keeps_the_signed_bytes() {
    let tx = Transaction::new(vec![1], None).sign(fake_signer).unwrap();
    let s = submit_tx(tx, Mode::DryRun).unwrap();
    assert_eq!(s.action(), Action::Simulate(vec![1, 0, 0, 0, 1, 0, 1, 2, 0, 0, 0, 7, 0xAA]));
}

#[test]
fn broadcast_reply_follows_the_code() {
    assert_eq!(broadcast_reply(0, "accepted".to_string()), Reply::Success("accepted".to_string()));
    assert_eq!(broadcast_reply(7, "rejected".to_string()), Reply::Failure("rejected".to_string()));
}

#[test]
fn cleanup_runs_once_whichever_call_fails() {
    let kinds: Vec<fn(&Action) -> bool> = vec![
        |a| *a == Action::Open,
        |a| matches!(a, Action::Subscribe(_)),
        |a| matches!(a, Action::Broadcast(_)),
        |a| *a == Action::Receive,
        |a| *a == Action::Unsubscribe,
        |_| false,
    ];
    for (k, failing) in kinds.iter().enumerate() {
        let mut s = submit_custom(vec![k as u8], None, Mode::Broadcast).unwrap();
        let log = drive(&mut s, &|a: &Action| {
            if failing(a) {
                Reply::Failure("down".to_string())
            } else {
                ok("")
            }
        });
        let unsubscribes = log.iter().filter(|a| **a == Action::Unsubscribe).count();
        let closes = log.iter().filter(|a| **a == Action::Close).count();
        assert_eq!(closes, if k == 0 { 0 } else { 1 }, "failing call {}", k);
        assert_eq!(unsubscribes, if k <= 1 { 0 } else { 1 }, "failing call {}", k);
        let sub = log.iter().position(|a| matches!(a, Action::Subscribe(_)));
        let bc = log.iter().position(|a| matches!(a, Action::Broadcast(_)));
        if let Some(b) = bc {
            assert!(sub.unwrap() < b);
        }
        assert_eq!(s.phase, Phase::Finished);
        assert_eq!(s.error.is_some(), k < 5);
    }
}
