//! The card handle and the block operations: single- and multi-block read
//! and write, sector-range erase, and the capacity decoding of the
//! card-specific data register.

use vstd::prelude::*;
use crate::protocol::{acmd_send, set_block_size, CmdRequest, DataConfig, Operation, ResponseType};
use crate::transfer::{block_exponent, spec_block_exponent, Step};

verus! {

/// One initialized card session: capacity in bytes, the session block size
/// (fixed at 512), and the relative card address assigned during
/// initialization, used in every subsequent addressed command.
#[derive(Clone, Copy, Debug, PartialEq, Eq, Structural)]
pub struct Card {
    pub capacity: u32,
    pub block_size: u32,
    pub rca: u16,
}

/// The C_SIZE field of the card-specific data: the low six bits of the
/// third response word above the high half of the second.
pub open spec fn spec_c_size(w1: u32, w2: u32) -> u32 {
    ((w2 & 0x3F) << 16) | ((w1 & 0xFFFF0000) >> 16)
}

/// The SDHC capacity formula, `(C_SIZE + 1) * 512 * 1024` bytes, reduced to
/// the 32 bits of the capacity field as 32-bit arithmetic would leave it.
pub open spec fn spec_capacity(w1: u32, w2: u32) -> u32 {
    ((((spec_c_size(w1, w2) as int) + 1) * 512 * 1024) % 0x1_0000_0000) as u32
}

/// Decode the capacity from the card-specific data words (assembled
/// most-significant register first).
pub fn card_capacity(csd: [u32; 4]) -> (r: u32)
    ensures
        r == spec_capacity(csd@[1], csd@[2]),
{
    let w1 = csd[1];
    let w2 = csd[2];
    let temp1 = (w1 & 0xFFFF0000) >> 16;
    let temp2 = (w2 & 0x3F) << 16;
    let c_size = temp2 | temp1;
    proof {
        assert((((w2 & 0x3F) << 16) | ((w1 & 0xFFFF0000) >> 16)) <= 0x3FFFFF) by (bit_vector);
    }
    let wide: u64 = ((c_size as u64) + 1) * 512 * 1024;
    let r = wide as u32;
    proof {
        assert(wide as u32 == wide % 0x1_0000_0000) by (bit_vector);
    }
    r
}

impl Card {
    /// The session invariant: the block size is the 512 bytes the
    /// initialization sequence fixed.
    pub open spec fn wf(self) -> bool {
        self.block_size == 512
    }

    /// The steps of a single-block read: wait for the card to leave the
    /// programming state, set the block length, arm DMA towards memory,
    /// configure the data path, issue READ_SINGLE_BLOCK (17) with the block
    /// index, await the transfer, clear the flags.
    pub open spec fn spec_read_block_plan(self, address: u32) -> Seq<Step> {
        let index = address / self.block_size;
        let bits = spec_block_exponent(self.block_size as nat) as u32;
        seq![
            Step::WaitReady { rca: self.rca },
            Step::Exchange(
                CmdRequest {
                    index: 16,
                    argument: self.block_size,
                    response: ResponseType::ShortResponse,
                },
            ),
            Step::ArmDma(Operation::Read),
            Step::ConfigureData(
                DataConfig {
                    length: self.block_size,
                    block_bits: bits,
                    op: Operation::Read,
                },
            ),
            Step::Exchange(
                CmdRequest {
                    index: 17,
                    argument: index,
                    response: ResponseType::ShortResponse,
                },
            ),
            Step::AwaitTransfer,
            Step::ClearStatus,
        ]
    }

    /// Plan a single-block read of the block containing `address`.
    pub fn read_block(&self, address: u32) -> (plan: Vec<Step>)
        requires
            self.wf(),
        ensures
            plan@ =~= self.spec_read_block_plan(address),
    {
        let mut plan: Vec<Step> = Vec::new();
        plan.push(Step::WaitReady { rca: self.rca });
        plan.push(Step::Exchange(set_block_size(self.block_size)));
        plan.push(Step::ArmDma(Operation::Read));
        let bits = block_exponent(self.block_size);
        plan.push(
            Step::ConfigureData(
                DataConfig { length: self.block_size, block_bits: bits, op: Operation::Read },
            ),
        );
        plan.push(
            Step::Exchange(
                CmdRequest {
                    index: 17,
                    argument: address / self.block_size,
                    response: ResponseType::ShortResponse,
                },
            ),
        );
        plan.push(Step::AwaitTransfer);
        plan.push(Step::ClearStatus);
        plan
    }

    /// The steps of a multi-block read: as a single-block read, but with
    /// READ_MULTIPLE_BLOCK (18), the full transfer length, and
    /// STOP_TRANSMISSION (12) once the data count has reached zero.
    pub open spec fn spec_read_multi_plan(self, address: u32, number_of_blocks: u32) -> Seq<Step> {
        let index = address / self.block_size;
        let bits = spec_block_exponent(self.block_size as nat) as u32;
        let length = (self.block_size * number_of_blocks) as u32;
        seq![
            Step::WaitReady { rca: self.rca },
            Step::Exchange(
                CmdRequest {
                    index: 16,
                    argument: self.block_size,
                    response: ResponseType::ShortResponse,
                },
            ),
            Step::ArmDma(Operation::Read),
            Step::ConfigureData(
                DataConfig {
                    length: length,
                    block_bits: bits,
                    op: Operation::Read,
                },
            ),
            Step::Exchange(
                CmdRequest {
                    index: 18,
                    argument: index,
                    response: ResponseType::ShortResponse,
                },
            ),
            Step::AwaitTransfer,
            Step::Exchange(CmdRequest { index: 12, argument: 0, response: ResponseType::ShortResponse }),
            Step::ClearStatus,
        ]
    }

    /// Plan a multi-block read starting at the block containing `address`.
    pub fn read_multi_blocks(&self, address: u32, number_of_blocks: u32) -> (plan: Vec<Step>)
        requires
            self.wf(),
            self.block_size * number_of_blocks <= u32::MAX,
        ensures
            plan@ =~= self.spec_read_multi_plan(address, number_of_blocks),
    {
        let mut plan: Vec<Step> = Vec::new();
        plan.push(Step::WaitReady { rca: self.rca });
        plan.push(Step::Exchange(set_block_size(self.block_size)));
        plan.push(Step::ArmDma(Operation::Read));
        let bits = block_exponent(self.block_size);
        plan.push(
            Step::ConfigureData(
                DataConfig {
                    length: self.block_size * number_of_blocks,
                    block_bits: bits,
                    op: Operation::Read,
                },
            ),
        );
        plan.push(
            Step::Exchange(
                CmdRequest {
                    index: 18,
                    argument: address / self.block_size,
                    response: ResponseType::ShortResponse,
                },
            ),
        );
        plan.push(Step::AwaitTransfer);
        plan.push(
            Step::Exchange(
                CmdRequest { index: 12, argument: 0, response: ResponseType::ShortResponse },
            ),
        );
        plan.push(Step::ClearStatus);
        plan
    }

    /// The steps of a single-block write: the WRITE_BLOCK command (24) is
    /// exchanged before the data path is configured, because the command
    /// confirms write acceptance before the controller streams data out.
    pub open spec fn spec_write_block_plan(self, address: u32) -> Seq<Step> {
        let index = address / self.block_size;
        let bits = spec_block_exponent(self.block_size as nat) as u32;
        seq![
            Step::WaitReady { rca: self.rca },
            Step::Exchange(
                CmdRequest {
                    index: 16,
                    argument: self.block_size,
                    response: ResponseType::ShortResponse,
                },
            ),
            Step::ArmDma(Operation::Write),
            Step::Exchange(
                CmdRequest {
                    index: 24,
                    argument: index,
                    response: ResponseType::ShortResponse,
                },
            ),
            Step::ConfigureData(
                DataConfig {
                    length: self.block_size,
                    block_bits: bits,
                    op: Operation::Write,
                },
            ),
            Step::AwaitTransfer,
            Step::ClearStatus,
        ]
    }

    /// Plan a single-block write of the block containing `address`.
    pub fn write_block(&self, address: u32) -> (plan: Vec<Step>)
        requires
            self.wf(),
        ensures
            plan@ =~= self.spec_write_block_plan(address),
    {
        let mut plan: Vec<Step> = Vec::new();
        plan.push(Step::WaitReady { rca: self.rca });
        plan.push(Step::Exchange(set_block_size(self.block_size)));
        plan.push(Step::ArmDma(Operation::Write));
        plan.push(
            Step::Exchange(
                CmdRequest {
                    index: 24,
                    argument: address / self.block_size,
                    response: ResponseType::ShortResponse,
                },
            ),
        );
        let bits = block_exponent(self.block_size);
        plan.push(
            Step::ConfigureData(
                DataConfig { length: self.block_size, block_bits: bits, op: Operation::Write },
            ),
        );
        plan.push(Step::AwaitTransfer);
        plan.push(Step::ClearStatus);
        plan
    }

    /// The steps of a multi-block write: the pre-erase app command
    /// SET_WR_BLK_ERASE_COUNT (23) with the block count, then
    /// WRITE_MULTIPLE_BLOCK (25), the data path, and STOP_TRANSMISSION (12)
    /// once the data count has reached zero.
    pub open spec fn spec_write_multi_plan(self, address: u32, number_of_blocks: u32) -> Seq<
        Step,
    > {
        let index = address / self.block_size;
        let bits = spec_block_exponent(self.block_size as nat) as u32;
        let length = (self.block_size * number_of_blocks) as u32;
        let acmd_argument = (self.rca as u32) << 16;
        seq![
            Step::WaitReady { rca: self.rca },
            Step::Exchange(
                CmdRequest {
                    index: 16,
                    argument: self.block_size,
                    response: ResponseType::ShortResponse,
                },
            ),
            Step::ArmDma(Operation::Write),
            Step::Exchange(
                CmdRequest {
                    index: 55,
                    argument: acmd_argument,
                    response: ResponseType::ShortResponse,
                },
            ),
            Step::Exchange(
                CmdRequest {
                    index: 23,
                    argument: number_of_blocks,
                    response: ResponseType::ShortResponse,
                },
            ),
            Step::Exchange(
                CmdRequest {
                    index: 25,
                    argument: index,
                    response: ResponseType::ShortResponse,
                },
            ),
            Step::ConfigureData(
                DataConfig {
                    length: length,
                    block_bits: bits,
                    op: Operation::Write,
                },
            ),
            Step::AwaitTransfer,
            Step::Exchange(CmdRequest { index: 12, argument: 0, response: ResponseType::ShortResponse }),
            Step::ClearStatus,
        ]
    }

    /// Plan a multi-block write starting at the block containing `address`.
    pub fn write_multi_blocks(&self, address: u32, number_of_blocks: u32) -> (plan: Vec<Step>)
        requires
            self.wf(),
            self.block_size * number_of_blocks <= u32::MAX,
        ensures
            plan@ =~= self.spec_write_multi_plan(address, number_of_blocks),
    {
        let mut plan: Vec<Step> = Vec::new();
        plan.push(Step::WaitReady { rca: self.rca });
        plan.push(Step::Exchange(set_block_size(self.block_size)));
        plan.push(Step::ArmDma(Operation::Write));
        let pair = acmd_send(
            23,
            (self.rca as u32) << 16,
            number_of_blocks,
            ResponseType::ShortResponse,
        );
        plan.push(Step::Exchange(pair[0]));
        plan.push(Step::Exchange(pair[1]));
        plan.push(
            Step::Exchange(
                CmdRequest {
                    index: 25,
                    argument: address / self.block_size,
                    response: ResponseType::ShortResponse,
                },
            ),
        );
        let bits = block_exponent(self.block_size);
        plan.push(
            Step::ConfigureData(
                DataConfig {
                    length: self.block_size * number_of_blocks,
                    block_bits: bits,
                    op: Operation::Write,
                },
            ),
        );
        plan.push(Step::AwaitTransfer);
        plan.push(
            Step::Exchange(
                CmdRequest { index: 12, argument: 0, response: ResponseType::ShortResponse },
            ),
        );
        plan.push(Step::ClearStatus);
        plan
    }

    /// The steps of a sector-range erase: exactly ERASE_WR_BLK_START (32),
    /// ERASE_WR_BLK_END (33) and ERASE (38), in that order, whatever the
    /// range; a malformed range is rejected only by the card's own
    /// response.
    pub open spec fn spec_erase_plan(self, start_address: u32, end_address: u32) -> Seq<Step> {
        let start_index = start_address / self.block_size;
        let end_index = end_address / self.block_size;
        seq![
            Step::WaitReady { rca: self.rca },
            Step::Exchange(
                CmdRequest {
                    index: 16,
                    argument: self.block_size,
                    response: ResponseType::ShortResponse,
                },
            ),
            Step::Exchange(
                CmdRequest {
                    index: 32,
                    argument: start_index,
                    response: ResponseType::ShortResponse,
                },
            ),
            Step::Exchange(
                CmdRequest {
                    index: 33,
                    argument: end_index,
                    response: ResponseType::ShortResponse,
                },
            ),
            Step::Exchange(CmdRequest { index: 38, argument: 0, response: ResponseType::ShortResponse }),
            Step::WaitReady { rca: self.rca },
            Step::ClearStatus,
        ]
    }

    /// Plan an erase of the blocks from `start_address` to `end_address`,
    /// both resolved to block indices by division by the block size.
    pub fn erase(&self, start_address: u32, end_address: u32) -> (plan: Vec<Step>)
        requires
            self.wf(),
        ensures
            plan@ =~= self.spec_erase_plan(start_address, end_address),
    {
        let mut plan: Vec<Step> = Vec::new();
        plan.push(Step::WaitReady { rca: self.rca });
        plan.push(Step::Exchange(set_block_size(self.block_size)));
        plan.push(
            Step::Exchange(
                CmdRequest {
                    index: 32,
                    argument: start_address / self.block_size,
                    response: ResponseType::ShortResponse,
                },
            ),
        );
        plan.push(
            Step::Exchange(
                CmdRequest {
                    index: 33,
                    argument: end_address / self.block_size,
                    response: ResponseType::ShortResponse,
                },
            ),
        );
        plan.push(
            Step::Exchange(
                CmdRequest { index: 38, argument: 0, response: ResponseType::ShortResponse },
            ),
        );
        plan.push(Step::WaitReady { rca: self.rca });
        plan.push(Step::ClearStatus);
        plan
    }

    /// Dispatch a block-device read: one block goes to the single-block
    /// plan, any other count to the multi-block plan.
    pub fn read(&self, address: u32, number_of_blocks: u32) -> (plan: Vec<Step>)
        requires
            self.wf(),
            self.block_size * number_of_blocks <= u32::MAX,
        ensures
            number_of_blocks == 1 ==> plan@ =~= self.spec_read_block_plan(address),
            number_of_blocks != 1 ==> plan@ =~= self.spec_read_multi_plan(
                address,
                number_of_blocks,
            ),
    {
        if number_of_blocks == 1 {
            self.read_block(address)
        } else {
            self.read_multi_blocks(address, number_of_blocks)
        }
    }

    /// Dispatch a block-device write: one block goes to the single-block
    /// plan, any other count to the multi-block plan.
    pub fn write(&self, address: u32, number_of_blocks: u32) -> (plan: Vec<Step>)
        requires
            self.wf(),
            self.block_size * number_of_blocks <= u32::MAX,
        ensures
            number_of_blocks == 1 ==> plan@ =~= self.spec_write_block_plan(address),
            number_of_blocks != 1 ==> plan@ =~= self.spec_write_multi_plan(
                address,
                number_of_blocks,
            ),
    {
        if number_of_blocks == 1 {
            self.write_block(address)
        } else {
            self.write_multi_blocks(address, number_of_blocks)
        }
    }
}

/// An erase plan issues exactly the three erase commands 32, 33 and 38, in
/// that order, between its two ready polls, regardless of how the start and
/// end addresses relate: range validation is deferred to the card.
pub proof fn lemma_erase_command_order(c: Card, start_address: u32, end_address: u32)
    requires
        c.wf(),
    ensures
        ({
            let p = c.spec_erase_plan(start_address, end_address);
            &&& p.len() == 7
            &&& p[0] == (Step::WaitReady { rca: c.rca })
            &&& p[1] == Step::Exchange(
                CmdRequest {
                    index: 16,
                    argument: c.block_size,
                    response: ResponseType::ShortResponse,
                },
            )
            &&& p[2] == Step::Exchange(
                CmdRequest {
                    index: 32,
                    argument: start_address / c.block_size,
                    response: ResponseType::ShortResponse,
                },
            )
            &&& p[3] == Step::Exchange(
                CmdRequest {
                    index: 33,
                    argument: end_address / c.block_size,
                    response: ResponseType::ShortResponse,
                },
            )
            &&& p[4] == Step::Exchange(
                CmdRequest { index: 38, argument: 0, response: ResponseType::ShortResponse },
            )
            &&& p[5] == (Step::WaitReady { rca: c.rca })
            &&& p[6] == Step::ClearStatus
        }),
{
}

/// Only the multi-block plans end their data phase with STOP_TRANSMISSION
/// (command 12); the single-block plans never issue it.
pub proof fn lemma_multi_block_stop(c: Card, address: u32, number_of_blocks: u32)
    requires
        c.wf(),
    ensures
        c.spec_read_multi_plan(address, number_of_blocks)[6] == Step::Exchange(
            CmdRequest { index: 12, argument: 0, response: ResponseType::ShortResponse },
        ),
        c.spec_write_multi_plan(address, number_of_blocks)[8] == Step::Exchange(
            CmdRequest { index: 12, argument: 0, response: ResponseType::ShortResponse },
        ),
        forall|i: int|
            0 <= i < c.spec_read_block_plan(address).len() ==> !((#[trigger] c.spec_read_block_plan(
                address,
            )[i]) matches Step::Exchange(q) && q.index == 12),
        forall|i: int|
            0 <= i < c.spec_write_block_plan(address).len() ==> !((#[trigger] c.spec_write_block_plan(
                address,
            )[i]) matches Step::Exchange(q) && q.index == 12),
{
    let pr = c.spec_read_block_plan(address);
    assert forall|i: int| 0 <= i < pr.len() implies !((#[trigger] pr[i]) matches Step::Exchange(q)
        && q.index == 12) by {
        assert(pr[0] == (Step::WaitReady { rca: c.rca }));
        assert(pr[1] matches Step::Exchange(q) && q.index == 16);
        assert(pr[2] == Step::ArmDma(Operation::Read));
        assert(pr[4] matches Step::Exchange(q) && q.index == 17);
        assert(pr[5] == Step::AwaitTransfer);
        assert(pr[6] == Step::ClearStatus);
    }
    let pw = c.spec_write_block_plan(address);
    assert forall|i: int| 0 <= i < pw.len() implies !((#[trigger] pw[i]) matches Step::Exchange(q)
        && q.index == 12) by {
        assert(pw[0] == (Step::WaitReady { rca: c.rca }));
        assert(pw[1] matches Step::Exchange(q) && q.index == 16);
        assert(pw[2] == Step::ArmDma(Operation::Write));
        assert(pw[3] matches Step::Exchange(q) && q.index == 24);
        assert(pw[5] == Step::AwaitTransfer);
        assert(pw[6] == Step::ClearStatus);
    }
}

} // verus!

