use sdio_sdhc::init::{InitPhase, InitStep, SdInit};
use sdio_sdhc::protocol::{Action, CmdError, CmdReply, CmdRequest, Event, ResponseType};
use sdio_sdhc::sdcard::Card;
use sdio_sdhc::transfer::{RunStep, Runner, Step};

fn ok_reply(word: u32) -> Event {
    Event::Reply(CmdReply { status: 0x40, words: [word, 0, 0, 0] })
}

fn long_reply(r1: u32, r2: u32, r3: u32, r4: u32) -> Event {
    Event::Reply(CmdReply { status: 0x40, words: [r1, r2, r3, r4] })
}

fn running(step: InitStep) -> SdInit {
    match step {
        InitStep::Running(m) => m,
        other => panic!("initialization stopped early: {:?}", other),
    }
}

#[test]
fn init_happy_path_produces_card() {
    let m = Card::init();
    assert_eq!(m.phase, InitPhase::Setup);
    assert_eq!(m.action(), Action::SetupBus);
    let m = running(m.step(Event::Done));
    assert_eq!(
        m.action(),
        Action::Send(CmdRequest { index: 0, argument: 0, response: ResponseType::NoResponse })
    );
    let m = running(m.step(Event::Done));
    assert_eq!(
        m.action(),
        Action::Exchange(CmdRequest {
            index: 8,
            argument: 0x1AA,
            response: ResponseType::ShortResponse
        })
    );
    let m = running(m.step(ok_reply(0x1AA)));
    // one poll round: command 55, then command 41 answered with bit 31 set
    assert_eq!(
        m.action(),
        Action::Exchange(CmdRequest { index: 55, argument: 0, response: ResponseType::ShortResponse })
    );
    let m = running(m.step(ok_reply(0)));
    assert_eq!(
        m.action(),
        Action::Exchange(CmdRequest {
            index: 41,
            argument: 0xC0100000,
            response: ResponseType::ShortResponse
        })
    );
    let m = running(m.step(ok_reply(0x8000_0000)));
    // card identification, read and discarded
    assert_eq!(m.phase, InitPhase::Cid);
    let m = running(m.step(long_reply(1, 2, 3, 4)));
    // relative card address: high half of the response word
    assert_eq!(m.phase, InitPhase::Rca);
    let m = running(m.step(ok_reply(0xABCD1234)));
    assert_eq!(m.rca, 0xABCD);
    // card-specific data, addressed by the new RCA
    assert_eq!(
        m.action(),
        Action::Exchange(CmdRequest {
            index: 9,
            argument: 0xABCD0000,
            response: ResponseType::LongResponse
        })
    );
    // registers are sampled first-register first; the decoder reverses them,
    // so csd[1] comes from the third register and csd[2] from the second
    let m = running(m.step(long_reply(0, 0, 0x00030000, 0)));
    assert_eq!(m.capacity, 4 * 512 * 1024);
    // select, wide bus, full clock
    assert_eq!(
        m.action(),
        Action::Exchange(CmdRequest {
            index: 7,
            argument: 0xABCD0000,
            response: ResponseType::ShortResponse
        })
    );
    let m = running(m.step(ok_reply(0)));
    assert_eq!(m.action(), Action::EnterWideBus);
    let m = running(m.step(Event::Done));
    assert_eq!(
        m.action(),
        Action::Exchange(CmdRequest {
            index: 55,
            argument: 0xABCD0000,
            response: ResponseType::ShortResponse
        })
    );
    let m = running(m.step(ok_reply(0)));
    assert_eq!(
        m.action(),
        Action::Exchange(CmdRequest { index: 6, argument: 2, response: ResponseType::ShortResponse })
    );
    let m = running(m.step(ok_reply(0)));
    assert_eq!(m.action(), Action::SetWorkClock);
    let done = m.step(Event::Done);
    assert_eq!(
        done,
        InitStep::Ready(Card { capacity: 4 * 512 * 1024, block_size: 512, rca: 0xABCD })
    );
}

#[test]
fn poll_succeeds_at_first_set_bit() {
    let m = Card::init();
    let m = running(m.step(Event::Done));
    let m = running(m.step(Event::Done));
    let m = running(m.step(ok_reply(0)));
    // three failed rounds, then the power-up bit
    let mut m = m;
    for round in 0u8..3 {
        assert_eq!(m.phase, InitPhase::PollApp);
        m = running(m.step(ok_reply(0)));
        assert_eq!(m.phase, InitPhase::PollQuery);
        assert_eq!(m.attempt, round);
        m = running(m.step(ok_reply(0x7FFF_FFFF)));
    }
    m = running(m.step(ok_reply(0)));
    m = running(m.step(ok_reply(0x8000_0000)));
    assert_eq!(m.phase, InitPhase::Cid);
}

#[test]
fn poll_exhausts_all_255_iterations() {
    let m = Card::init();
    let m = running(m.step(Event::Done));
    let m = running(m.step(Event::Done));
    let mut m = running(m.step(ok_reply(0)));
    // iterations 0 through 253 retry
    for round in 0u8..254 {
        assert_eq!(m.attempt, round);
        m = running(m.step(ok_reply(0)));
        m = running(m.step(ok_reply(0)));
    }
    // iteration 254, the 255th, is the boundary: still no bit 31
    assert_eq!(m.attempt, 254);
    m = running(m.step(ok_reply(0)));
    let done = m.step(ok_reply(0));
    assert_eq!(done, InitStep::Failed(CmdError::NoFindCard));
}

#[test]
fn poll_boundary_iteration_succeeds() {
    let m = Card::init();
    let m = running(m.step(Event::Done));
    let m = running(m.step(Event::Done));
    let mut m = running(m.step(ok_reply(0)));
    for _ in 0..254 {
        m = running(m.step(ok_reply(0)));
        m = running(m.step(ok_reply(0)));
    }
    assert_eq!(m.attempt, 254);
    m = running(m.step(ok_reply(0)));
    // bit 31 arrives exactly on the last allowed iteration
    let step = m.step(ok_reply(0x8000_0000));
    let m = running(step);
    assert_eq!(m.phase, InitPhase::Cid);
}

#[test]
fn init_aborts_on_interface_check_error() {
    let m = Card::init();
    let m = running(m.step(Event::Done));
    let m = running(m.step(Event::Done));
    let done = m.step(Event::Reply(CmdReply { status: 0x4, words: [0, 0, 0, 0] }));
    assert_eq!(done, InitStep::Failed(CmdError::CTIMEOUT));
}

#[test]
fn runner_walks_read_block_plan() {
    let c = Card { capacity: 0, block_size: 512, rca: 7 };
    let mut r = Runner::new(c.read_block(512));
    // ready poll answered ready at once
    assert_eq!(
        r.action(),
        Action::Exchange(CmdRequest {
            index: 13,
            argument: 7 << 16,
            response: ResponseType::ShortResponse
        })
    );
    let mut fed: u32 = 0;
    loop {
        let e = match r.action() {
            Action::Exchange(_) => ok_reply(0x100),
            _ => Event::Done,
        };
        fed += 1;
        assert!(fed <= 7, "plan should finish within its seven steps");
        match r.advance(e) {
            RunStep::Running(n) => r = n,
            RunStep::Done => break,
            RunStep::Failed(err) => panic!("unexpected failure: {:?}", err),
        }
    }
    assert_eq!(fed, 7);
}

#[test]
fn runner_repeats_ready_poll_until_ready() {
    let c = Card { capacity: 0, block_size: 512, rca: 1 };
    let r = Runner::new(c.read_block(0));
    // card still programming: the same step is asked again
    let r = match r.advance(ok_reply(0)) {
        RunStep::Running(n) => n,
        other => panic!("expected the run to continue: {:?}", other),
    };
    assert_eq!(r.pos, 0);
    // now ready: the runner moves to the set-block-length exchange
    let r = match r.advance(ok_reply(0x100)) {
        RunStep::Running(n) => n,
        other => panic!("expected the run to continue: {:?}", other),
    };
    assert_eq!(r.pos, 1);
    if let Step::Exchange(q) = r.plan[1] {
        assert_eq!(q.index, 16);
    } else {
        panic!("second step must set the block length");
    }
}

#[test]
fn runner_fails_run_on_error_status() {
    let c = Card { capacity: 0, block_size: 512, rca: 1 };
    let r = Runner::new(c.write_block(0));
    let r = match r.advance(ok_reply(0x100)) {
        RunStep::Running(n) => n,
        other => panic!("expected the run to continue: {:?}", other),
    };
    // the set-block-length exchange reports a data CRC failure
    let failed = r.advance(Event::Reply(CmdReply { status: 0x2, words: [0, 0, 0, 0] }));
    match failed {
        RunStep::Failed(e) => assert_eq!(e, CmdError::DCRCFAIL),
        other => panic!("expected the run to fail: {:?}", other),
    }
}
