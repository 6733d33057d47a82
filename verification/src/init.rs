//! Card initialization state machine: the strictly ordered sequence that
//! brings a freshly powered card from electrically idle to a selected,
//! wide-bus, full-speed, ready state, extracting capacity and relative card
//! address along the way.

use vstd::prelude::*;
use crate::protocol::{
    read_response, select_card, spec_status_result, Action, CmdError, CmdReply, CmdRequest, Event,
    ResponseType,
};
use crate::sdcard::{card_capacity, spec_capacity, Card};

verus! {

/// Where the initialization sequence stands.  Each phase performs one
/// action; a reply phase aborts the whole sequence on any decoded error.
#[derive(Clone, Copy, Debug, PartialEq, Eq, Structural)]
pub enum InitPhase {
    /// Enable the peripheral clock, program the slow clock, power on, and
    /// initialize the DMA stream.
    Setup,
    /// GO_IDLE_STATE (0): sent without reading a response.
    Reset,
    /// SEND_IF_COND (8) with the check pattern; the response is discarded.
    IfCond,
    /// APP_CMD (55) opening one power-up poll iteration.
    PollApp,
    /// SD_SEND_OP_COND (41): poll bit 31 of the response for power-up
    /// completion.
    PollQuery,
    /// ALL_SEND_CID (2): the card identification is read and discarded.
    Cid,
    /// SEND_RELATIVE_ADDR (3): the RCA is the high half of the response.
    Rca,
    /// SEND_CSD (9): capacity is decoded from the card-specific data.
    Csd,
    /// SELECT_CARD (7).
    Select,
    /// Re-program the clock register for the 4-bit wide bus.
    WideBusCfg,
    /// APP_CMD (55) opening the bus-width app command.
    WideBusApp,
    /// SET_BUS_WIDTH (6) with argument 2, selecting the 4-bit bus.
    WideBusCmd,
    /// Switch the bus clock to the full working rate.
    SwitchClock,
}

/// The initialization state machine: the current phase, how many power-up
/// poll iterations have completed without success, and the values extracted
/// so far.
#[derive(Clone, Copy, Debug, PartialEq, Eq, Structural)]
pub struct SdInit {
    pub phase: InitPhase,
    pub attempt: u8,
    pub rca: u16,
    pub capacity: u32,
}

/// Outcome of feeding one event to the machine: initialization goes on, has
/// failed with an error, or has produced the card handle.
#[derive(Clone, Copy, Debug, PartialEq, Eq, Structural)]
pub enum InitStep {
    Running(SdInit),
    Failed(CmdError),
    Ready(Card),
}

/// The last power-up poll iteration: 255 iterations are allowed in all, so
/// an unset bit 31 on the iteration of this index exhausts the poll.
pub const LAST_POLL_ATTEMPT: u8 = 254;

/// Whether the phase's action is answered with a sampled reply rather than
/// a plain acknowledgement.
pub open spec fn init_expects_reply(phase: InitPhase) -> bool {
    match phase {
        InitPhase::Setup => false,
        InitPhase::Reset => false,
        InitPhase::WideBusCfg => false,
        InitPhase::SwitchClock => false,
        _ => true,
    }
}

/// The action the hardware loop must perform for a phase.
pub open spec fn spec_init_action(m: SdInit) -> Action {
    match m.phase {
        InitPhase::Setup => Action::SetupBus,
        InitPhase::Reset => Action::Send(
            CmdRequest { index: 0, argument: 0, response: ResponseType::NoResponse },
        ),
        InitPhase::IfCond => Action::Exchange(
            CmdRequest { index: 8, argument: 0x1AA, response: ResponseType::ShortResponse },
        ),
        InitPhase::PollApp => Action::Exchange(
            CmdRequest { index: 55, argument: 0, response: ResponseType::ShortResponse },
        ),
        InitPhase::PollQuery => Action::Exchange(
            CmdRequest { index: 41, argument: 0xC0100000, response: ResponseType::ShortResponse },
        ),
        InitPhase::Cid => Action::Exchange(
            CmdRequest { index: 2, argument: 0, response: ResponseType::LongResponse },
        ),
        InitPhase::Rca => Action::Exchange(
            CmdRequest { index: 3, argument: 0, response: ResponseType::ShortResponse },
        ),
        InitPhase::Csd => Action::Exchange(
            CmdRequest {
                index: 9,
                argument: (m.rca as u32) << 16,
                response: ResponseType::LongResponse,
            },
        ),
        InitPhase::Select => Action::Exchange(
            CmdRequest {
                index: 7,
                argument: (m.rca as u32) << 16,
                response: ResponseType::ShortResponse,
            },
        ),
        InitPhase::WideBusCfg => Action::EnterWideBus,
        InitPhase::WideBusApp => Action::Exchange(
            CmdRequest {
                index: 55,
                argument: (m.rca as u32) << 16,
                response: ResponseType::ShortResponse,
            },
        ),
        InitPhase::WideBusCmd => Action::Exchange(
            CmdRequest { index: 6, argument: 2, response: ResponseType::ShortResponse },
        ),
        InitPhase::SwitchClock => Action::SetWorkClock,
    }
}

/// The transition relation of the initialization sequence.  Reply phases
/// abort with the decoded error when the status register demands one; the
/// power-up poll leaves for the identification phase as soon as bit 31 of
/// the response is set, and exhausting all its iterations synthesizes
/// `NoFindCard`, the one error that maps to no status flag.
pub open spec fn init_next(m: SdInit, e: Event) -> InitStep {
    match (m.phase, e) {
        (InitPhase::Setup, Event::Done) => InitStep::Running(
            SdInit { phase: InitPhase::Reset, ..m },
        ),
        (InitPhase::Reset, Event::Done) => InitStep::Running(
            SdInit { phase: InitPhase::IfCond, ..m },
        ),
        (InitPhase::IfCond, Event::Reply(rep)) => match spec_status_result(rep.status) {
            Result::Err(er) => InitStep::Failed(er),
            Result::Ok(_) => InitStep::Running(
                SdInit { phase: InitPhase::PollApp, attempt: 0, ..m },
            ),
        },
        (InitPhase::PollApp, Event::Reply(rep)) => match spec_status_result(rep.status) {
            Result::Err(er) => InitStep::Failed(er),
            Result::Ok(_) => InitStep::Running(SdInit { phase: InitPhase::PollQuery, ..m }),
        },
        (InitPhase::PollQuery, Event::Reply(rep)) => match spec_status_result(rep.status) {
            Result::Err(er) => InitStep::Failed(er),
            Result::Ok(_) => if rep.words@[0] >> 31 == 1 {
                InitStep::Running(SdInit { phase: InitPhase::Cid, ..m })
            } else if m.attempt >= LAST_POLL_ATTEMPT {
                InitStep::Failed(CmdError::NoFindCard)
            } else {
                InitStep::Running(
                    SdInit { phase: InitPhase::PollApp, attempt: (m.attempt + 1) as u8, ..m },
                )
            },
        },
        (InitPhase::Cid, Event::Reply(rep)) => match spec_status_result(rep.status) {
            Result::Err(er) => InitStep::Failed(er),
            Result::Ok(_) => InitStep::Running(SdInit { phase: InitPhase::Rca, ..m }),
        },
        (InitPhase::Rca, Event::Reply(rep)) => match spec_status_result(rep.status) {
            Result::Err(er) => InitStep::Failed(er),
            Result::Ok(_) => InitStep::Running(
                SdInit { phase: InitPhase::Csd, rca: (rep.words@[0] >> 16) as u16, ..m },
            ),
        },
        (InitPhase::Csd, Event::Reply(rep)) => match spec_status_result(rep.status) {
            Result::Err(er) => InitStep::Failed(er),
            Result::Ok(_) => InitStep::Running(
                SdInit {
                    phase: InitPhase::Select,
                    capacity: spec_capacity(rep.words@[2], rep.words@[1]),
                    ..m
                },
            ),
        },
        (InitPhase::Select, Event::Reply(rep)) => match spec_status_result(rep.status) {
            Result::Err(er) => InitStep::Failed(er),
            Result::Ok(_) => InitStep::Running(SdInit { phase: InitPhase::WideBusCfg, ..m }),
        },
        (InitPhase::WideBusCfg, Event::Done) => InitStep::Running(
            SdInit { phase: InitPhase::WideBusApp, ..m },
        ),
        (InitPhase::WideBusApp, Event::Reply(rep)) => match spec_status_result(rep.status) {
            Result::Err(er) => InitStep::Failed(er),
            Result::Ok(_) => InitStep::Running(SdInit { phase: InitPhase::WideBusCmd, ..m }),
        },
        (InitPhase::WideBusCmd, Event::Reply(rep)) => match spec_status_result(rep.status) {
            Result::Err(er) => InitStep::Failed(er),
            Result::Ok(_) => InitStep::Running(SdInit { phase: InitPhase::SwitchClock, ..m }),
        },
        (InitPhase::SwitchClock, Event::Done) => InitStep::Ready(
            Card { capacity: m.capacity, block_size: 512, rca: m.rca },
        ),
        _ => InitStep::Running(m),
    }
}

impl Card {
    /// Start the initialization sequence at its first phase.
    pub fn init() -> (m: SdInit)
        ensures
            m == (SdInit { phase: InitPhase::Setup, attempt: 0, rca: 0, capacity: 0 }),
    {
        SdInit { phase: InitPhase::Setup, attempt: 0, rca: 0, capacity: 0 }
    }
}

impl SdInit {
    /// The action the hardware loop must perform for the current phase.
    pub fn action(&self) -> (a: Action)
        ensures
            a == spec_init_action(*self),
    {
        match self.phase {
            InitPhase::Setup => Action::SetupBus,
            InitPhase::Reset => Action::Send(
                CmdRequest { index: 0, argument: 0, response: ResponseType::NoResponse },
            ),
            InitPhase::IfCond => Action::Exchange(
                CmdRequest { index: 8, argument: 0x1AA, response: ResponseType::ShortResponse },
            ),
            InitPhase::PollApp => Action::Exchange(
                CmdRequest { index: 55, argument: 0, response: ResponseType::ShortResponse },
            ),
            InitPhase::PollQuery => Action::Exchange(
                CmdRequest {
                    index: 41,
                    argument: 0xC0100000,
                    response: ResponseType::ShortResponse,
                },
            ),
            InitPhase::Cid => Action::Exchange(
                CmdRequest { index: 2, argument: 0, response: ResponseType::LongResponse },
            ),
            InitPhase::Rca => Action::Exchange(
                CmdRequest { index: 3, argument: 0, response: ResponseType::ShortResponse },
            ),
            InitPhase::Csd => Action::Exchange(
                CmdRequest {
                    index: 9,
                    argument: (self.rca as u32) << 16,
                    response: ResponseType::LongResponse,
                },
            ),
            InitPhase::Select => Action::Exchange(select_card((self.rca as u32) << 16)),
            InitPhase::WideBusCfg => Action::EnterWideBus,
            InitPhase::WideBusApp => Action::Exchange(
                CmdRequest {
                    index: 55,
                    argument: (self.rca as u32) << 16,
                    response: ResponseType::ShortResponse,
                },
            ),
            InitPhase::WideBusCmd => Action::Exchange(
                CmdRequest { index: 6, argument: 2, response: ResponseType::ShortResponse },
            ),
            InitPhase::SwitchClock => Action::SetWorkClock,
        }
    }

    /// Consume the event answering the current phase's action.
    pub fn step(self, e: Event) -> (r: InitStep)
        requires
            (e is Reply) == init_expects_reply(self.phase),
        ensures
            r == init_next(self, e),
    {
        match (self.phase, e) {
            (InitPhase::Setup, Event::Done) => InitStep::Running(
                SdInit { phase: InitPhase::Reset, ..self },
            ),
            (InitPhase::Reset, Event::Done) => InitStep::Running(
                SdInit { phase: InitPhase::IfCond, ..self },
            ),
            (InitPhase::IfCond, Event::Reply(rep)) => {
                match read_response(ResponseType::ShortResponse, rep.status, rep.words) {
                    Result::Err(er) => InitStep::Failed(er),
                    Result::Ok(_drop) => InitStep::Running(
                        SdInit { phase: InitPhase::PollApp, attempt: 0, ..self },
                    ),
                }
            },
            (InitPhase::PollApp, Event::Reply(rep)) => {
                match read_response(ResponseType::ShortResponse, rep.status, rep.words) {
                    Result::Err(er) => InitStep::Failed(er),
                    Result::Ok(_drop) => InitStep::Running(
                        SdInit { phase: InitPhase::PollQuery, ..self },
                    ),
                }
            },
            (InitPhase::PollQuery, Event::Reply(rep)) => {
                match read_response(ResponseType::ShortResponse, rep.status, rep.words) {
                    Result::Err(er) => InitStep::Failed(er),
                    Result::Ok(resp) => {
                        if resp.1[0] >> 31 == 1 {
                            InitStep::Running(SdInit { phase: InitPhase::Cid, ..self })
                        } else if self.attempt >= LAST_POLL_ATTEMPT {
                            InitStep::Failed(CmdError::NoFindCard)
                        } else {
                            InitStep::Running(
                                SdInit {
                                    phase: InitPhase::PollApp,
                                    attempt: self.attempt + 1,
                                    ..self
                                },
                            )
                        }
                    },
                }
            },
            (InitPhase::Cid, Event::Reply(rep)) => {
                match read_response(ResponseType::LongResponse, rep.status, rep.words) {
                    Result::Err(er) => InitStep::Failed(er),
                    Result::Ok(_drop) => InitStep::Running(
                        SdInit { phase: InitPhase::Rca, ..self },
                    ),
                }
            },
            (InitPhase::Rca, Event::Reply(rep)) => {
                match read_response(ResponseType::ShortResponse, rep.status, rep.words) {
                    Result::Err(er) => InitStep::Failed(er),
                    Result::Ok(resp) => InitStep::Running(
                        SdInit { phase: InitPhase::Csd, rca: (resp.1[0] >> 16) as u16, ..self },
                    ),
                }
            },
            (InitPhase::Csd, Event::Reply(rep)) => {
                match read_response(ResponseType::LongResponse, rep.status, rep.words) {
                    Result::Err(er) => InitStep::Failed(er),
                    Result::Ok(resp) => {
                        let capacity = card_capacity(resp.1);
                        InitStep::Running(SdInit { phase: InitPhase::Select, capacity, ..self })
                    },
                }
            },
            (InitPhase::Select, Event::Reply(rep)) => {
                match read_response(ResponseType::ShortResponse, rep.status, rep.words) {
                    Result::Err(er) => InitStep::Failed(er),
                    Result::Ok(_drop) => InitStep::Running(
                        SdInit { phase: InitPhase::WideBusCfg, ..self },
                    ),
                }
            },
            (InitPhase::WideBusCfg, Event::Done) => InitStep::Running(
                SdInit { phase: InitPhase::WideBusApp, ..self },
            ),
            (InitPhase::WideBusApp, Event::Reply(rep)) => {
                match read_response(ResponseType::ShortResponse, rep.status, rep.words) {
                    Result::Err(er) => InitStep::Failed(er),
                    Result::Ok(_drop) => InitStep::Running(
                        SdInit { phase: InitPhase::WideBusCmd, ..self },
                    ),
                }
            },
            (InitPhase::WideBusCmd, Event::Reply(rep)) => {
                match read_response(ResponseType::ShortResponse, rep.status, rep.words) {
                    Result::Err(er) => InitStep::Failed(er),
                    Result::Ok(_drop) => InitStep::Running(
                        SdInit { phase: InitPhase::SwitchClock, ..self },
                    ),
                }
            },
            (InitPhase::SwitchClock, Event::Done) => InitStep::Ready(
                Card { capacity: self.capacity, block_size: 512, rca: self.rca },
            ),
            _ => InitStep::Running(self),
        }
    }
}

/// The power-up poll terminates successfully at the first iteration whose
/// response has bit 31 set, whatever the iteration; with the bit unset it
/// retries, and only an unset bit on the last allowed iteration synthesizes
/// `NoFindCard`.
pub proof fn lemma_power_up_poll(m: SdInit, rep: CmdReply)
    requires
        m.phase == InitPhase::PollQuery,
        spec_status_result(rep.status) is Ok,
    ensures
        rep.words@[0] >> 31 == 1 ==> (init_next(m, Event::Reply(rep)) matches InitStep::Running(n)
            && n.phase == InitPhase::Cid && n.attempt == m.attempt),
        rep.words@[0] >> 31 != 1 && m.attempt < LAST_POLL_ATTEMPT ==> (init_next(
            m,
            Event::Reply(rep),
        ) matches InitStep::Running(n) && n.phase == InitPhase::PollApp && n.attempt == m.attempt
            + 1),
        rep.words@[0] >> 31 != 1 && m.attempt >= LAST_POLL_ATTEMPT ==> init_next(
            m,
            Event::Reply(rep),
        ) == InitStep::Failed(CmdError::NoFindCard),
{
}

/// One whole power-up poll iteration: the app-command exchange, then the
/// operating-condition exchange.
pub open spec fn poll_round(m: SdInit, e55: Event, e41: Event) -> InitStep {
    match init_next(m, e55) {
        InitStep::Running(n) => init_next(n, e41),
        other => other,
    }
}

/// Holds of one poll iteration's replies when the card is not ready yet:
/// both exchanges decoded successfully, and the operating-condition
/// response did not carry bit 31.
pub open spec fn round_clear(r: (CmdReply, CmdReply)) -> bool {
    &&& spec_status_result(r.0.status) is Ok
    &&& spec_status_result(r.1.status) is Ok
    &&& r.1.words@[0] >> 31 != 1
}

/// Run the machine forward through whole poll iterations.
pub open spec fn poll_run(m: SdInit, rounds: Seq<(CmdReply, CmdReply)>) -> InitStep
    decreases rounds.len(),
{
    if rounds.len() == 0 {
        InitStep::Running(m)
    } else {
        match poll_round(m, Event::Reply(rounds[0].0), Event::Reply(rounds[0].1)) {
            InitStep::Running(n) => poll_run(n, rounds.drop_first()),
            other => other,
        }
    }
}

/// A poll iteration whose operating-condition reply carries bit 31 ends the
/// poll successfully at that very iteration, whatever the attempt count.
pub proof fn lemma_poll_round_success(m: SdInit, first: CmdReply, second: CmdReply)
    requires
        m.phase == InitPhase::PollApp,
        spec_status_result(first.status) is Ok,
        spec_status_result(second.status) is Ok,
        second.words@[0] >> 31 == 1,
    ensures
        poll_round(m, Event::Reply(first), Event::Reply(second)) matches InitStep::Running(n)
            && n.phase == InitPhase::Cid && n.attempt == m.attempt,
{
}

/// When bit 31 is never set, the poll works through every remaining
/// iteration and then fails with `NoFindCard`: with `attempt` iterations
/// already behind it, exactly `255 - attempt` clear iterations exhaust all
/// 255 of them.
pub proof fn lemma_poll_exhaustion(m: SdInit, rounds: Seq<(CmdReply, CmdReply)>)
    requires
        m.phase == InitPhase::PollApp,
        m.attempt <= LAST_POLL_ATTEMPT,
        m.attempt + rounds.len() == 255,
        forall|i: int| 0 <= i < rounds.len() ==> round_clear(#[trigger] rounds[i]),
    ensures
        poll_run(m, rounds) == InitStep::Failed(CmdError::NoFindCard),
    decreases rounds.len(),
{
    assert(round_clear(rounds[0]));
    if m.attempt < LAST_POLL_ATTEMPT {
        let n = SdInit {
            phase: InitPhase::PollApp,
            attempt: (m.attempt + 1) as u8,
            rca: m.rca,
            capacity: m.capacity,
        };
        assert(poll_round(m, Event::Reply(rounds[0].0), Event::Reply(rounds[0].1))
            == InitStep::Running(n));
        assert forall|i: int| 0 <= i < rounds.drop_first().len() implies round_clear(
            #[trigger] rounds.drop_first()[i],
        ) by {
            assert(rounds.drop_first()[i] == rounds[i + 1]);
        }
        lemma_poll_exhaustion(n, rounds.drop_first());
    }
}

/// Initialization only ever hands out a well-formed card: the block size of
/// every produced handle is 512, and capacity and RCA are the values the
/// machine extracted.
pub proof fn lemma_ready_card_well_formed(m: SdInit, e: Event)
    ensures
        init_next(m, e) matches InitStep::Ready(c) ==> c.wf() && c.block_size == 512 && c.capacity
            == m.capacity && c.rca == m.rca,
{
}

} // verus!
