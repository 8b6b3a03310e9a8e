use iota_sdk::types::block::BlockId;
use tangle_kit::tangle::{
    Blowball, Sidetangle, TangleAction, BLOWBALL_TAG, ROUNDS, SIDETANGLE_TAG,
};

fn block(n: u32) -> BlockId {
    let mut bytes = [0u8; 32];
    bytes[..4].copy_from_slice(&n.to_le_bytes());
    BlockId::new(bytes)
}

#[test]
fn figures_have_a_thousand_blocks() {
    assert_eq!(ROUNDS, 1000);
    assert_eq!(BLOWBALL_TAG, "blowball");
    assert_eq!(SIDETANGLE_TAG, "sidetangle");
}

#[test]
fn blowball_begins_with_the_tip_twice() {
    let ball = Blowball::begin(block(1));
    assert_eq!(ball, Blowball { tip: block(1), latest: block(1), built: 0 });
    assert_eq!(ball.next(), TangleAction::Build { first: block(1), second: block(1) });
}

#[test]
fn blowball_points_back_at_the_tip() {
    let ball = Blowball::begin(block(1));
    let ball = ball.attached(block(2));
    assert_eq!(ball, Blowball { tip: block(1), latest: block(2), built: 1 });
    assert_eq!(ball.next(), TangleAction::Build { first: block(1), second: block(2) });
    let ball = ball.attached(block(3));
    assert_eq!(ball.next(), TangleAction::Build { first: block(1), second: block(3) });
}

#[test]
fn blowball_is_complete_after_a_thousand_blocks() {
    let mut ball = Blowball::begin(block(0));
    let mut built = 0;
    let mut previous = block(0);
    while let TangleAction::Build { first, second } = ball.next() {
        assert_eq!(first, block(0));
        assert_eq!(second, previous);
        built += 1;
        previous = block(built);
        ball = ball.attached(previous);
    }
    assert_eq!(built, 1000);
    assert_eq!(ball.next(), TangleAction::Stop);
    assert_eq!(ball.attached(block(5000)), ball);
}

#[test]
fn blowball_at_the_edge() {
    let ball = Blowball { tip: block(1), latest: block(2), built: 999 };
    assert_eq!(ball.next(), TangleAction::Build { first: block(1), second: block(2) });
    let ball = ball.attached(block(3));
    assert_eq!(ball, Blowball { tip: block(1), latest: block(3), built: 1000 });
    assert_eq!(ball.next(), TangleAction::Stop);
    let full = Blowball { tip: block(1), latest: block(2), built: u32::MAX };
    assert_eq!(full.next(), TangleAction::Stop);
    assert_eq!(full.attached(block(3)), full);
}

#[test]
fn sidetangle_needs_two_tips() {
    assert!(Sidetangle::begin(Vec::new()).is_none());
    assert!(Sidetangle::begin(vec![block(1)]).is_none());
    assert!(Sidetangle::begin(vec![block(1), block(2)]).is_some());
    assert!(Sidetangle::begin(vec![block(1), block(1)]).is_some());
}

#[test]
fn sidetangle_takes_the_two_oldest() {
    let tangle = Sidetangle::begin(vec![block(1), block(2), block(3)]).unwrap();
    assert_eq!(tangle.next(), TangleAction::Build { first: block(1), second: block(2) });
    let tangle = tangle.attached(block(10));
    assert_eq!(tangle.next(), TangleAction::Build { first: block(2), second: block(3) });
    let tangle = tangle.attached(block(11));
    assert_eq!(tangle.next(), TangleAction::Build { first: block(3), second: block(10) });
    let tangle = tangle.attached(block(12));
    assert_eq!(tangle.next(), TangleAction::Build { first: block(10), second: block(11) });
}

#[test]
fn sidetangle_of_two_tips_is_a_chain() {
    let mut tangle = Sidetangle::begin(vec![block(1), block(2)]).unwrap();
    assert_eq!(tangle.next(), TangleAction::Build { first: block(1), second: block(2) });
    tangle = tangle.attached(block(3));
    let mut previous = (block(2), block(3));
    for n in 4..50 {
        assert_eq!(tangle.next(), TangleAction::Build { first: previous.0, second: previous.1 });
        tangle = tangle.attached(block(n));
        previous = (previous.1, block(n));
    }
}

#[test]
fn sidetangle_agrees_with_a_deque() {
    let tips: Vec<BlockId> = (0..8).map(block).collect();
    let mut deque = std::collections::VecDeque::from(tips.clone());
    let mut tangle = Sidetangle::begin(tips).unwrap();
    let mut built = 0;
    while let TangleAction::Build { first, second } = tangle.next() {
        let expected_first = deque.pop_front().unwrap();
        let expected_second = deque[0];
        assert_eq!((first, second), (expected_first, expected_second));
        built += 1;
        let id = block(1000 + built);
        deque.push_back(id);
        tangle = tangle.attached(id);
    }
    assert_eq!(built, 1000);
    assert_eq!(tangle.next(), TangleAction::Stop);
    let after = tangle.attached(block(9999));
    assert_eq!(after.next(), TangleAction::Stop);
}
