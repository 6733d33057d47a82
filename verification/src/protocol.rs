//! Command/response vocabulary of the bus: command register encoding, status
//! register decoding, and response assembly.

use vstd::prelude::*;

verus! {

/// Response length tag of a command: no response, one 32-bit word, or four
/// 32-bit words (card identification and card-specific data formats).
#[derive(Clone, Copy, Debug, PartialEq, Eq, Structural)]
pub enum ResponseType {
    NoResponse,
    ShortResponse,
    LongResponse,
}

/// Closed error taxonomy.  All variants but `NoFindCard` stand for one
/// hardware status flag each; `NoFindCard` is synthesized when the power-up
/// poll exhausts its attempts.
#[derive(Clone, Copy, Debug, PartialEq, Eq, Structural)]
pub enum CmdError {
    REXOVERR,
    TXUNDERR,
    DTIMEOUT,
    CTIMEOUT,
    DCRCFAIL,
    CCRCFAIL,
    NoFindCard,
}

/// Direction of a data phase.
#[derive(Clone, Copy, Debug, PartialEq, Eq, Structural)]
pub enum Operation {
    Read,
    Write,
}

/// One command to put on the bus: command index, argument register value and
/// expected response length.
#[derive(Clone, Copy, Debug, PartialEq, Eq, Structural)]
pub struct CmdRequest {
    pub index: u8,
    pub argument: u32,
    pub response: ResponseType,
}

/// Raw registers sampled after a command round trip: the status register and
/// the four response registers in register order (first register first).
#[derive(Clone, Copy, Debug, PartialEq, Eq)]
pub struct CmdReply {
    pub status: u32,
    pub words: [u32; 4],
}

/// Parameters of the data-control phase: transfer length in bytes, block
/// length as a base-2 exponent, and direction.
#[derive(Clone, Copy, Debug, PartialEq, Eq, Structural)]
pub struct DataConfig {
    pub length: u32,
    pub block_bits: u32,
    pub op: Operation,
}

/// What the hardware loop must perform next.
#[derive(Clone, Copy, Debug, PartialEq, Eq)]
pub enum Action {
    /// Write the argument register, then the command register, without
    /// reading a response afterwards.
    Send(CmdRequest),
    /// Send the command, wait until the controller is no longer
    /// command-active, sample the status and response registers, then clear
    /// all status flags.  Answered with [`Event::Reply`].
    Exchange(CmdRequest),
    /// Arm the DMA stream on the caller's buffer in the given direction.
    ArmDma(Operation),
    /// Program the data timer, data length and data-control registers.
    ConfigureData(DataConfig),
    /// Busy-poll until the DMA stream reports transfer-complete and the
    /// data-count register has reached zero.
    AwaitTransfer,
    /// Clear all status flags.
    ClearStatus,
    /// Enable the bus peripheral clock, program the slow initialization
    /// clock, power the bus on and initialize the DMA stream.
    SetupBus,
    /// Re-program the clock register for the 4-bit wide bus.
    EnterWideBus,
    /// Switch the bus clock to the full working rate.
    SetWorkClock,
}

/// The hardware loop's answer to an action: a plain acknowledgement, or the
/// registers sampled after an [`Action::Exchange`].
#[derive(Clone, Copy, Debug, PartialEq, Eq)]
pub enum Event {
    Done,
    Reply(CmdReply),
}

/// Status flag: response received (its CRC, when the response has one,
/// checked successfully).
pub const STATUS_RESPONSE_RECEIVED: u32 = 0x40;

/// Status flag: command response CRC failed.
pub const STATUS_CCRCFAIL: u32 = 0x1;

/// Status flag: data CRC failed.
pub const STATUS_DCRCFAIL: u32 = 0x2;

/// Status flag: command response timed out.
pub const STATUS_CTIMEOUT: u32 = 0x4;

/// Status flag: data timed out.
pub const STATUS_DTIMEOUT: u32 = 0x8;

/// Status flag: transmit FIFO underran.
pub const STATUS_TXUNDERR: u32 = 0x10;

/// Status flag: receive FIFO overran.
pub const STATUS_REXOVERR: u32 = 0x20;

/// Mask clearing every status flag the driver consults.
pub const STATUS_CLEAR_MASK: u32 = 0x00C007FF;

/// Card status flag: ready for data (the card has left the programming
/// state).
pub const READY_FOR_DATA: u32 = 0x100;

/// Outcome of decoding the status register, flags checked in a fixed
/// priority order: the response-received flag first (a response without a
/// CRC never fails on CRC), then command CRC, data CRC, command timeout,
/// data timeout, transmit underrun and receive overrun.  The first matching
/// flag wins; only one error is reported even when several flags are set.
pub open spec fn spec_status_result(status: u32) -> Result<(), CmdError> {
    if status & STATUS_RESPONSE_RECEIVED != 0 {
        Ok(())
    } else if status & STATUS_CCRCFAIL != 0 {
        Err(CmdError::CCRCFAIL)
    } else if status & STATUS_DCRCFAIL != 0 {
        Err(CmdError::DCRCFAIL)
    } else if status & STATUS_CTIMEOUT != 0 {
        Err(CmdError::CTIMEOUT)
    } else if status & STATUS_DTIMEOUT != 0 {
        Err(CmdError::DTIMEOUT)
    } else if status & STATUS_TXUNDERR != 0 {
        Err(CmdError::TXUNDERR)
    } else if status & STATUS_REXOVERR != 0 {
        Err(CmdError::REXOVERR)
    } else {
        Ok(())
    }
}

/// Map a sampled status register to the round trip's outcome.
pub fn check_state(status: u32) -> (r: Result<(), CmdError>)
    ensures
        r == spec_status_result(status),
{
    if status & STATUS_RESPONSE_RECEIVED != 0 {
        Ok(())
    } else if status & STATUS_CCRCFAIL != 0 {
        Err(CmdError::CCRCFAIL)
    } else if status & STATUS_DCRCFAIL != 0 {
        Err(CmdError::DCRCFAIL)
    } else if status & STATUS_CTIMEOUT != 0 {
        Err(CmdError::CTIMEOUT)
    } else if status & STATUS_DTIMEOUT != 0 {
        Err(CmdError::DTIMEOUT)
    } else if status & STATUS_TXUNDERR != 0 {
        Err(CmdError::TXUNDERR)
    } else if status & STATUS_REXOVERR != 0 {
        Err(CmdError::REXOVERR)
    } else {
        Ok(())
    }
}

/// When both a CRC flag and a timeout flag are raised by the same round
/// trip, the reported error is the CRC one, because it stands earlier in the
/// fixed priority order; likewise for the data-path pair.
pub proof fn lemma_status_priority(status: u32)
    requires
        status & STATUS_RESPONSE_RECEIVED == 0,
    ensures
        status & STATUS_CCRCFAIL != 0 && status & STATUS_CTIMEOUT != 0 ==> spec_status_result(
            status,
        ) == Result::<(), CmdError>::Err(CmdError::CCRCFAIL),
        status & STATUS_CCRCFAIL == 0 && status & STATUS_DCRCFAIL != 0 && status & STATUS_DTIMEOUT
            != 0 ==> spec_status_result(status) == Result::<(), CmdError>::Err(CmdError::DCRCFAIL),
{
}

/// The two-bit response-length code of the command register.
pub open spec fn spec_response_code(response_type: ResponseType) -> u32 {
    match response_type {
        ResponseType::NoResponse => 0,
        ResponseType::ShortResponse => 1,
        ResponseType::LongResponse => 3,
    }
}

/// The command register word: command index in the low six bits, the
/// response-length code at bits 6..=7, the command-enable bit (10) and the
/// command-path state machine enable bit (12).
pub fn command_word(index: u8, response_type: ResponseType) -> (w: u32)
    ensures
        w == (index as u32) | (spec_response_code(response_type) << 6) | (1u32 << 10) | (1u32
            << 12),
        index < 64 ==> w & 0x3F == index as u32,
{
    let code: u32 = match response_type {
        ResponseType::NoResponse => 0,
        ResponseType::ShortResponse => 1,
        ResponseType::LongResponse => 3,
    };
    let w = (index as u32) | (code << 6) | (1u32 << 10) | (1u32 << 12);
    proof {
        assert(index < 64 ==> ((index as u32) | (code << 6) | (1u32 << 10) | (1u32 << 12)) & 0x3F
            == index as u32) by (bit_vector)
            requires
                code == 0 || code == 1 || code == 3,
        ;
    }
    w
}

/// The response payload: all zero for no response, exactly the first
/// response register for a short response, and the four registers assembled
/// most-significant register first for a long response.
pub open spec fn spec_response_words(response_type: ResponseType, raw: Seq<u32>) -> Seq<u32> {
    match response_type {
        ResponseType::NoResponse => seq![0u32, 0u32, 0u32, 0u32],
        ResponseType::ShortResponse => seq![raw[0], 0u32, 0u32, 0u32],
        ResponseType::LongResponse => seq![raw[3], raw[2], raw[1], raw[0]],
    }
}

/// Decode one command round trip from the sampled status register and the
/// four response registers: an error when a status flag demands one, else
/// the response payload assembled per [`spec_response_words`].
pub fn read_response(response_type: ResponseType, status: u32, raw: [u32; 4]) -> (r: Result<
    (ResponseType, [u32; 4]),
    CmdError,
>)
    ensures
        spec_status_result(status) matches Err(e) ==> r == Result::<
            (ResponseType, [u32; 4]),
            CmdError,
        >::Err(e),
        spec_status_result(status) is Ok ==> (r matches Ok(p) && p.0 == response_type && p.1@
            =~= spec_response_words(response_type, raw@)),
{
    match check_state(status) {
        Result::Err(e) => Err(e),
        Result::Ok(()) => {
            let words: [u32; 4] = match response_type {
                ResponseType::NoResponse => [0u32, 0u32, 0u32, 0u32],
                ResponseType::ShortResponse => [raw[0], 0u32, 0u32, 0u32],
                ResponseType::LongResponse => [raw[3], raw[2], raw[1], raw[0]],
            };
            Ok((response_type, words))
        },
    }
}

/// The two requests of the app-command path: the mandatory "enter
/// app-command mode" command (55) with its own argument and a short
/// response, then the requested app command with the caller's argument and
/// response type.
pub open spec fn spec_acmd_requests(
    acmd: u8,
    cmd_arg: u32,
    acmd_arg: u32,
    response_type: ResponseType,
) -> Seq<CmdRequest> {
    seq![
        CmdRequest { index: 55, argument: cmd_arg, response: ResponseType::ShortResponse },
        CmdRequest { index: acmd, argument: acmd_arg, response: response_type },
    ]
}

/// Build the app-command pair: command 55 first, the app command second.
pub fn acmd_send(acmd: u8, cmd_arg: u32, acmd_arg: u32, response_type: ResponseType) -> (r: Vec<
    CmdRequest,
>)
    ensures
        r@ =~= spec_acmd_requests(acmd, cmd_arg, acmd_arg, response_type),
{
    let mut r: Vec<CmdRequest> = Vec::new();
    r.push(CmdRequest { index: 55, argument: cmd_arg, response: ResponseType::ShortResponse });
    r.push(CmdRequest { index: acmd, argument: acmd_arg, response: response_type });
    r
}

/// The send-status request (command 13) addressed by the card's RCA; it is
/// repeated until the returned card status has [`READY_FOR_DATA`] set.
pub fn wait_card_programming(rca: u16) -> (r: CmdRequest)
    ensures
        r == (CmdRequest {
            index: 13,
            argument: (rca as u32) << 16,
            response: ResponseType::ShortResponse,
        }),
{
    CmdRequest { index: 13, argument: (rca as u32) << 16, response: ResponseType::ShortResponse }
}

/// The set-block-length request (command 16) with the byte count as
/// argument.
pub fn set_block_size(block_size: u32) -> (r: CmdRequest)
    ensures
        r == (CmdRequest {
            index: 16,
            argument: block_size,
            response: ResponseType::ShortResponse,
        }),
{
    CmdRequest { index: 16, argument: block_size, response: ResponseType::ShortResponse }
}

/// The stop-transmission request (command 12) ending a multi-block
/// transfer.
pub fn stop_read_or_write() -> (r: CmdRequest)
    ensures
        r == (CmdRequest { index: 12, argument: 0, response: ResponseType::ShortResponse }),
{
    CmdRequest { index: 12, argument: 0, response: ResponseType::ShortResponse }
}

/// The select-card request (command 7); the argument is the RCA already
/// shifted into the high half-word.
pub fn select_card(rca: u32) -> (r: CmdRequest)
    ensures
        r == (CmdRequest { index: 7, argument: rca, response: ResponseType::ShortResponse }),
{
    CmdRequest { index: 7, argument: rca, response: ResponseType::ShortResponse }
}

} // verus!
