use monero_harness::bootstrap::{Action, Event};
use monero_harness::failure::Failure;
use monero_harness::miner::{Miner, MinerPhase};

#[test]
fn miner_begins_with_a_pause() {
    let miner = Miner::new("4primary".to_string(), 1);
    assert_eq!(miner.phase, MinerPhase::Waiting);
    assert_eq!(miner.reward_address, "4primary");
    assert_eq!(miner.interval_seconds, 1);
    assert_eq!(miner.pending(), Action::WaitSeconds { seconds: 1 });
}

#[test]
fn miner_mines_one_block_after_every_pause() {
    let mut miner = Miner::new("4primary".to_string(), 7);
    let mut height = 70;
    for _ in 0..25 {
        assert_eq!(miner.pending(), Action::WaitSeconds { seconds: 7 });
        miner = miner.advance(Event::Waited);
        assert_eq!(
            miner.pending(),
            Action::GenerateBlocks { count: 1, reward_address: "4primary".to_string() }
        );
        height += 1;
        miner = miner.advance(Event::BlocksGenerated { height });
    }
    assert_eq!(miner.phase, MinerPhase::Waiting);
}

#[test]
fn failed_block_stops_the_miner_for_good() {
    let miner = Miner::new("4primary".to_string(), 1)
        .advance(Event::Waited)
        .advance(Event::Failed(Failure::TransportError));
    assert_eq!(miner.phase, MinerPhase::Stopped(Failure::TransportError));
    assert_eq!(miner.failure(), Some(Failure::TransportError));
    assert_eq!(miner.pending(), Action::Stop);
    let later = miner.clone().advance(Event::Waited).advance(Event::BlocksGenerated { height: 3 });
    assert_eq!(later, miner);
}

#[test]
fn unexpected_report_stops_the_miner() {
    let miner = Miner::new("4primary".to_string(), 1).advance(Event::BlocksGenerated { height: 1 });
    assert_eq!(miner.phase, MinerPhase::Stopped(Failure::MalformedResponse));
    let miner = Miner::new("4primary".to_string(), 1).advance(Event::Waited).advance(Event::Waited);
    assert_eq!(miner.failure(), Some(Failure::MalformedResponse));
    let miner = Miner::new("4primary".to_string(), 1).advance(Event::Failed(Failure::RpcError));
    assert_eq!(miner.phase, MinerPhase::Stopped(Failure::RpcError));
}

#[test]
fn miner_ends_with_the_failure_of_the_block_that_failed() {
    for failure in [Failure::TransportError, Failure::RpcError, Failure::MalformedResponse] {
        for good in 0..4u32 {
            let mut miner = Miner::new("4primary".to_string(), 1);
            let mut pauses = 0;
            let mut calls = 0;
            loop {
                match miner.pending() {
                    Action::WaitSeconds { seconds } => {
                        assert_eq!(seconds, 1);
                        pauses += 1;
                        miner = miner.advance(Event::Waited);
                    }
                    Action::GenerateBlocks { count, reward_address } => {
                        assert_eq!((count, reward_address.as_str()), (1, "4primary"));
                        calls += 1;
                        assert_eq!(pauses, calls);
                        miner = if calls <= good {
                            miner.advance(Event::BlocksGenerated { height: calls })
                        } else {
                            miner.advance(Event::Failed(failure))
                        };
                    }
                    Action::Stop => break,
                    other => panic!("the miner asked for {:?}", other),
                }
            }
            assert_eq!(calls, good + 1);
            assert_eq!(miner.failure(), Some(failure));
        }
    }
    assert_eq!(Miner::new("4primary".to_string(), 1).failure(), None);
}

#[test]
fn five_seconds_at_one_block_a_second_give_at_least_three_blocks() {
    // A clock that the test moves itself: every pause takes the interval.
    let mut miner = Miner::new("4primary".to_string(), 1);
    let mut now = 0u64;
    let mut height = 2u32;
    let first_sample = height;
    loop {
        match miner.pending() {
            Action::WaitSeconds { seconds } => {
                if now + seconds > 5 {
                    break;
                }
                now += seconds;
                miner = miner.advance(Event::Waited);
            }
            Action::GenerateBlocks { count, .. } => {
                height += count;
                miner = miner.advance(Event::BlocksGenerated { height });
            }
            other => panic!("the miner asked for {:?}", other),
        }
    }
    let second_sample = height;
    assert!(second_sample >= first_sample + 3);
    assert_eq!(second_sample, first_sample + 5);
}
