//! Block transfer engine: the steps a data operation is made of and the
//! runner that walks them against the hardware loop's answers.

use vstd::prelude::*;
use vstd::arithmetic::power2::{lemma2_to64, lemma_pow2_adds, pow2};
use crate::protocol::{
    read_response, spec_status_result, wait_card_programming, Action, CmdError, CmdRequest,
    DataConfig, Event, Operation, ResponseType, READY_FOR_DATA,
};

verus! {

/// One step of a data operation.  Every step maps to one [`Action`], except
/// [`Step::WaitReady`], whose send-status exchange is repeated until the
/// card reports it is ready for data.
#[derive(Clone, Copy, Debug, PartialEq, Eq, Structural)]
pub enum Step {
    /// Poll command 13 until the card leaves the programming state.
    WaitReady { rca: u16 },
    /// One command round trip whose response is checked and discarded.
    Exchange(CmdRequest),
    /// Arm the DMA stream in the given direction.
    ArmDma(Operation),
    /// Program the data timer, length and control registers.
    ConfigureData(DataConfig),
    /// Busy-poll DMA transfer-complete and a zero data count.
    AwaitTransfer,
    /// Clear all status flags.
    ClearStatus,
}

/// The base-2 exponent of a transfer unit: how often the size halves before
/// reaching one.
pub open spec fn spec_block_exponent(b: nat) -> nat
    decreases b,
{
    if b <= 1 {
        0
    } else {
        1 + spec_block_exponent(b / 2)
    }
}

proof fn lemma_block_exponent_below(b: nat, n: nat)
    requires
        b < pow2(n),
        n >= 1,
    ensures
        spec_block_exponent(b) < n,
    decreases n,
{
    if b <= 1 {
    } else {
        lemma_pow2_adds(1, (n - 1) as nat);
        lemma2_to64();
        assert(pow2(n) == 2 * pow2((n - 1) as nat));
        lemma_block_exponent_below(b / 2, (n - 1) as nat);
    }
}

/// The exponent of a 32-bit size fits in five bits.
pub proof fn lemma_block_exponent_u32(b: u32)
    ensures
        spec_block_exponent(b as nat) <= 31,
{
    lemma2_to64();
    lemma_block_exponent_below(b as nat, 32);
}

/// Derive the block-length exponent by repeated halving, as the
/// data-control register expects it (9 for a block size of 512).
pub fn block_exponent(block_size: u32) -> (r: u32)
    requires
        block_size >= 1,
    ensures
        r == spec_block_exponent(block_size as nat),
{
    proof {
        lemma_block_exponent_u32(block_size);
    }
    let mut bs = block_size;
    let mut bits: u32 = 0;
    while bs != 1
        invariant
            1 <= bs,
            bits + spec_block_exponent(bs as nat) == spec_block_exponent(block_size as nat),
            spec_block_exponent(block_size as nat) <= 31,
        decreases bs,
    {
        proof {
            assert(bs >> 1u32 == bs / 2) by (bit_vector);
        }
        bs = bs >> 1;
        bits = bits + 1;
    }
    bits
}

/// The data-control register word: block-length exponent at bits 4..=7, DMA
/// enable (bit 3), direction (bit 1, set for a read), and the start bit.
pub open spec fn spec_data_control_word(block_bits: u32, op: Operation) -> u32 {
    (block_bits << 4) | (1u32 << 3) | (
    if op is Read {
        1u32 << 1
    } else {
        0u32
    }) | 1u32
}

/// Encode the data-control register for one transfer.
pub fn data_control_word(block_bits: u32, op: Operation) -> (w: u32)
    ensures
        w == spec_data_control_word(block_bits, op),
{
    let dir: u32 = match op {
        Operation::Read => 1u32 << 1,
        Operation::Write => 0,
    };
    (block_bits << 4) | (1u32 << 3) | dir | 1u32
}

/// Whether a step's action is answered with a sampled reply rather than a
/// plain acknowledgement.
pub open spec fn step_expects_reply(s: Step) -> bool {
    s is Exchange || s is WaitReady
}

/// The action the hardware loop must perform for a step.
pub open spec fn spec_step_action(s: Step) -> Action {
    match s {
        Step::WaitReady { rca } => Action::Exchange(
            CmdRequest {
                index: 13,
                argument: (rca as u32) << 16,
                response: ResponseType::ShortResponse,
            },
        ),
        Step::Exchange(q) => Action::Exchange(q),
        Step::ArmDma(op) => Action::ArmDma(op),
        Step::ConfigureData(cfg) => Action::ConfigureData(cfg),
        Step::AwaitTransfer => Action::AwaitTransfer,
        Step::ClearStatus => Action::ClearStatus,
    }
}

/// Walks a plan of steps.  `pos` is the next step to perform; the plan is
/// done when `pos` has reached its end.
#[derive(Debug)]
pub struct Runner {
    pub plan: Vec<Step>,
    pub pos: usize,
}

/// Outcome of feeding one event to a runner: the operation goes on, is
/// complete, or failed with the error of the round trip that detected it.
#[derive(Debug)]
pub enum RunStep {
    Running(Runner),
    Done,
    Failed(CmdError),
}

/// The run continues at `pos` of `plan`, or is done when `pos` is the plan's
/// end.
pub open spec fn continues_at(r: RunStep, plan: Seq<Step>, pos: int) -> bool {
    if pos == plan.len() {
        r is Done
    } else {
        r matches RunStep::Running(n) && n.plan@ =~= plan && n.pos == pos
    }
}

fn proceed(plan: Vec<Step>, pos: usize) -> (r: RunStep)
    requires
        pos <= plan@.len(),
    ensures
        continues_at(r, plan@, pos as int),
{
    if pos == plan.len() {
        RunStep::Done
    } else {
        RunStep::Running(Runner { plan, pos })
    }
}

impl Runner {
    /// Start a plan at its first step.
    pub fn new(plan: Vec<Step>) -> (r: Runner)
        ensures
            r.plan@ =~= plan@,
            r.pos == 0,
    {
        Runner { plan, pos: 0 }
    }

    /// Whether every step of the plan has completed.
    pub fn done(&self) -> (b: bool)
        ensures
            b == (self.pos == self.plan@.len()),
    {
        self.pos == self.plan.len()
    }

    /// The action to perform for the current step.
    pub fn action(&self) -> (a: Action)
        requires
            self.pos < self.plan@.len(),
        ensures
            a == spec_step_action(self.plan@[self.pos as int]),
    {
        match self.plan[self.pos] {
            Step::WaitReady { rca } => Action::Exchange(wait_card_programming(rca)),
            Step::Exchange(q) => Action::Exchange(q),
            Step::ArmDma(op) => Action::ArmDma(op),
            Step::ConfigureData(cfg) => Action::ConfigureData(cfg),
            Step::AwaitTransfer => Action::AwaitTransfer,
            Step::ClearStatus => Action::ClearStatus,
        }
    }

    /// Consume the event answering the current step.  An exchange whose
    /// status decodes to an error fails the whole run with that error; a
    /// ready poll repeats its step until the card status has
    /// [`READY_FOR_DATA`] set; every other step simply completes.
    pub fn advance(self, e: Event) -> (r: RunStep)
        requires
            self.pos < self.plan@.len(),
            (e is Reply) == step_expects_reply(self.plan@[self.pos as int]),
        ensures
            ({
                let s = self.plan@[self.pos as int];
                match (s, e) {
                    (Step::Exchange(q), Event::Reply(rep)) => (match spec_status_result(
                        rep.status,
                    ) {
                        Result::Err(er) => r matches RunStep::Failed(e2) && e2 == er,
                        Result::Ok(u) => continues_at(r, self.plan@, self.pos + 1),
                    }),
                    (Step::WaitReady { rca }, Event::Reply(rep)) => (match spec_status_result(
                        rep.status,
                    ) {
                        Result::Err(er) => r matches RunStep::Failed(e2) && e2 == er,
                        Result::Ok(u) => if rep.words@[0] & READY_FOR_DATA != 0 {
                            continues_at(r, self.plan@, self.pos + 1)
                        } else {
                            continues_at(r, self.plan@, self.pos as int)
                        },
                    }),
                    _ => continues_at(r, self.plan@, self.pos + 1),
                }
            }),
    {
        // the plan's length fits in usize, so stepping `pos` past the
        // current position cannot overflow
        let _len = self.plan.len();
        let s = self.plan[self.pos];
        match (s, e) {
            (Step::Exchange(q), Event::Reply(rep)) => {
                match read_response(q.response, rep.status, rep.words) {
                    Result::Err(er) => RunStep::Failed(er),
                    Result::Ok(_resp) => proceed(self.plan, self.pos + 1),
                }
            },
            (Step::WaitReady { rca: _ }, Event::Reply(rep)) => {
                match read_response(ResponseType::ShortResponse, rep.status, rep.words) {
                    Result::Err(er) => RunStep::Failed(er),
                    Result::Ok(resp) => {
                        if resp.1[0] & READY_FOR_DATA != 0 {
                            proceed(self.plan, self.pos + 1)
                        } else {
                            proceed(self.plan, self.pos)
                        }
                    },
                }
            },
            _ => proceed(self.plan, self.pos + 1),
        }
    }
}

} // verus!
