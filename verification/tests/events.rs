use defake_anchor::event::{emit, Event};

#[test]
fn poke_line() {
    let event = Event::Poke { caller: "dave".to_string(), timestamp: 1_700_000_000_000_000_000 };
    assert_eq!(emit(&event), "POKE:dave:1700000000000000000");
}

#[test]
fn poke_line_at_the_ends_of_time() {
    let first = Event::Poke { caller: "dave".to_string(), timestamp: 0 };
    assert_eq!(emit(&first), "POKE:dave:0");
    let last = Event::Poke { caller: "dave".to_string(), timestamp: u64::MAX };
    assert_eq!(emit(&last), "POKE:dave:18446744073709551615");
}

#[test]
fn attest_line() {
    let event = Event::Attest {
        session_id: "sid1".to_string(),
        hash: "h123".to_string(),
        caller: "dave".to_string(),
    };
    assert_eq!(emit(&event), "ATTEST:sid1:h123:dave");
}

#[test]
fn attest_fields_are_not_escaped() {
    let event = Event::Attest {
        session_id: "a:b".to_string(),
        hash: "c\\:d e\n".to_string(),
        caller: "dave".to_string(),
    };
    assert_eq!(emit(&event), "ATTEST:a:b:c\\:d e\n:dave");
}

#[test]
fn attest_fields_may_be_empty() {
    let event = Event::Attest {
        session_id: String::new(),
        hash: String::new(),
        caller: "dave".to_string(),
    };
    assert_eq!(emit(&event), "ATTEST:::dave");
}

#[test]
fn attest_fields_beyond_ascii() {
    let event = Event::Attest {
        session_id: "séance".to_string(),
        hash: "哈希".to_string(),
        caller: "dave".to_string(),
    };
    assert_eq!(emit(&event), "ATTEST:séance:哈希:dave");
}

#[test]
fn tip_line() {
    let event = Event::Tip { caller: "erin.near".to_string(), amount: 250 };
    assert_eq!(emit(&event), "TIP:erin.near:250");
}

#[test]
fn fund_line() {
    let event = Event::Fund { caller: "erin.near".to_string(), amount: 5_000_000 };
    assert_eq!(emit(&event), "FUND:erin.near:5000000");
}

#[test]
fn amounts_at_both_ends() {
    let nothing = Event::Tip { caller: "erin".to_string(), amount: 0 };
    assert_eq!(emit(&nothing), "TIP:erin:0");
    let all = Event::Fund { caller: "erin".to_string(), amount: u128::MAX };
    assert_eq!(emit(&all), "FUND:erin:340282366920938463463374607431768211455");
}

#[test]
fn same_event_same_line() {
    let event = Event::Tip { caller: "erin".to_string(), amount: 77 };
    let copy = event.clone();
    assert_eq!(copy, event);
    assert_eq!(emit(&event), emit(&copy));
    assert_eq!(emit(&event), emit(&event));
}

#[test]
fn tip_and_fund_differ_by_tag_only() {
    let tip = emit(&Event::Tip { caller: "erin".to_string(), amount: 3 });
    let fund = emit(&Event::Fund { caller: "erin".to_string(), amount: 3 });
    assert_eq!(tip.strip_prefix("TIP"), fund.strip_prefix("FUND"));
}
