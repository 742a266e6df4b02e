use monkeys::{PollSkipper, POLL_SKIP};

#[test]
fn fresh_counter_first_polls_after_the_skip() {
    let mut p = PollSkipper::new();
    for _ in 0..=POLL_SKIP {
        assert!(!p.tick());
    }
    assert!(p.tick());
}

#[test]
fn polls_once_every_period() {
    let mut p = PollSkipper::new();
    let mut polls = Vec::new();
    for turn in 1..=3 * (POLL_SKIP + 1) + 1 {
        if p.tick() {
            polls.push(turn);
        }
    }
    assert_eq!(polls, vec![10002, 20003, 30004]);
}
