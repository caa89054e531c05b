use zat::{resolve, CongestionControl, QosParameters, Reliability, ResolutionError};

fn s(x: &str) -> Option<String> {
    Some(x.to_string())
}

#[test]
fn defaults_when_nothing_given() {
    let q = resolve(None, None, None, false).unwrap();
    assert_eq!(
        q,
        QosParameters {
            reliability: Reliability::BestEffort,
            congestion_control: CongestionControl::Drop,
            priority: 5,
            express: false,
        }
    );
}

#[test]
fn every_valid_combination_resolves() {
    let rels = [None, s("reliable"), s("besteffort")];
    let ccs = [None, s("drop"), s("block")];
    let prios = [None, s("1"), s("2"), s("3"), s("4"), s("5"), s("6"), s("7")];
    for r in rels.iter() {
        for c in ccs.iter() {
            for p in prios.iter() {
                for e in [false, true] {
                    let a = resolve(r.clone(), c.clone(), p.clone(), e).unwrap();
                    let b = resolve(r.clone(), c.clone(), p.clone(), e).unwrap();
                    assert_eq!(a, b);
                    assert!(a.priority >= 1 && a.priority <= 7);
                    assert_eq!(a.express, e);
                }
            }
        }
    }
}

#[test]
fn tokens_map_to_values() {
    let q = resolve(s("reliable"), s("block"), s("2"), true).unwrap();
    assert_eq!(q.reliability, Reliability::Reliable);
    assert_eq!(q.congestion_control, CongestionControl::Block);
    assert_eq!(q.priority, 2);
    assert!(q.express);
    let q = resolve(s("besteffort"), s("drop"), s("7"), false).unwrap();
    assert_eq!(q.reliability, Reliability::BestEffort);
    assert_eq!(q.congestion_control, CongestionControl::Drop);
    assert_eq!(q.priority, 7);
}

#[test]
fn every_priority_digit_gives_its_level() {
    for level in 1u8..=7 {
        let q = resolve(None, None, s(&level.to_string()), false).unwrap();
        assert_eq!(q.priority, level);
    }
}

#[test]
fn bad_reliability_token_fails() {
    assert_eq!(
        resolve(s("Reliable"), None, None, false),
        Err(ResolutionError::Reliability("Reliable".to_string()))
    );
}

#[test]
fn bad_congestion_token_fails() {
    assert_eq!(
        resolve(None, s("wait"), None, false),
        Err(ResolutionError::CongestionControl("wait".to_string()))
    );
}

#[test]
fn bad_priority_tokens_fail() {
    for t in ["0", "8", "9", "", "12", "a", " 1"] {
        assert_eq!(
            resolve(None, None, s(t), false),
            Err(ResolutionError::Priority(t.to_string()))
        );
    }
}

#[test]
fn first_bad_token_is_reported() {
    assert_eq!(
        resolve(s("x"), s("y"), s("z"), false),
        Err(ResolutionError::Reliability("x".to_string()))
    );
    assert_eq!(
        resolve(None, s("y"), s("z"), false),
        Err(ResolutionError::CongestionControl("y".to_string()))
    );
}
