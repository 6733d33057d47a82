use sdio_sdhc::protocol::{CmdRequest, DataConfig, Operation, ResponseType};
use sdio_sdhc::sdcard::{card_capacity, Card};
use sdio_sdhc::transfer::Step;

fn card() -> Card {
    Card { capacity: 0x2000_0000, block_size: 512, rca: 0xABCD }
}

fn exchange(index: u8, argument: u32) -> Step {
    Step::Exchange(CmdRequest { index, argument, response: ResponseType::ShortResponse })
}

#[test]
fn capacity_csd_decoding() {
    // csd[1] = 0x00120000, csd[2] = 0x0000003B:
    // capacity = ((0x3B << 16 | 0x0012) + 1) * 512 * 1024, in 32-bit arithmetic
    let cap = card_capacity([0, 0x00120000, 0x0000003B, 0]);
    let expected = ((((0x3Bu64 << 16) | 0x0012) + 1) * 512 * 1024) % (1u64 << 32);
    assert_eq!(cap as u64, expected);
    assert_eq!(cap, 19 << 19);
}

#[test]
fn capacity_small_card_exact() {
    // C_SIZE = 3: (3 + 1) * 512 * 1024 bytes, no truncation
    let cap = card_capacity([0, 0x00030000, 0, 0]);
    assert_eq!(cap, 4 * 512 * 1024);
}

#[test]
fn read_block_plan_steps() {
    let c = card();
    let plan = c.read_block(0x1400);
    assert_eq!(
        plan,
        vec![
            Step::WaitReady { rca: 0xABCD },
            exchange(16, 512),
            Step::ArmDma(Operation::Read),
            Step::ConfigureData(DataConfig { length: 512, block_bits: 9, op: Operation::Read }),
            exchange(17, 0x1400 / 512),
            Step::AwaitTransfer,
            Step::ClearStatus,
        ]
    );
}

#[test]
fn write_block_command_precedes_data_config() {
    let c = card();
    let plan = c.write_block(1024);
    assert_eq!(
        plan,
        vec![
            Step::WaitReady { rca: 0xABCD },
            exchange(16, 512),
            Step::ArmDma(Operation::Write),
            exchange(24, 2),
            Step::ConfigureData(DataConfig { length: 512, block_bits: 9, op: Operation::Write }),
            Step::AwaitTransfer,
            Step::ClearStatus,
        ]
    );
}

#[test]
fn read_multi_plan_has_stop_transmission() {
    let c = card();
    let plan = c.read_multi_blocks(0, 4);
    assert_eq!(
        plan,
        vec![
            Step::WaitReady { rca: 0xABCD },
            exchange(16, 512),
            Step::ArmDma(Operation::Read),
            Step::ConfigureData(DataConfig { length: 2048, block_bits: 9, op: Operation::Read }),
            exchange(18, 0),
            Step::AwaitTransfer,
            exchange(12, 0),
            Step::ClearStatus,
        ]
    );
}

#[test]
fn write_multi_plan_steps() {
    let c = card();
    let plan = c.write_multi_blocks(2048, 3);
    assert_eq!(
        plan,
        vec![
            Step::WaitReady { rca: 0xABCD },
            exchange(16, 512),
            Step::ArmDma(Operation::Write),
            exchange(55, 0xABCD0000),
            exchange(23, 3),
            exchange(25, 4),
            Step::ConfigureData(DataConfig { length: 1536, block_bits: 9, op: Operation::Write }),
            Step::AwaitTransfer,
            exchange(12, 0),
            Step::ClearStatus,
        ]
    );
}

#[test]
fn single_block_plans_never_stop_transmission() {
    let c = card();
    for step in c.read_block(0).iter().chain(c.write_block(0).iter()) {
        if let Step::Exchange(q) = step {
            assert_ne!(q.index, 12);
        }
    }
}

#[test]
fn dispatch_single_block() {
    let c = card();
    assert_eq!(c.read(4096, 1), c.read_block(4096));
    assert_eq!(c.write(4096, 1), c.write_block(4096));
}

#[test]
fn dispatch_multi_block() {
    let c = card();
    assert_eq!(c.read(4096, 2), c.read_multi_blocks(4096, 2));
    assert_eq!(c.write(4096, 7), c.write_multi_blocks(4096, 7));
}

#[test]
fn erase_issues_exactly_three_commands_in_order() {
    let c = card();
    let plan = c.erase(1024, 4096);
    assert_eq!(
        plan,
        vec![
            Step::WaitReady { rca: 0xABCD },
            exchange(16, 512),
            exchange(32, 2),
            exchange(33, 8),
            exchange(38, 0),
            Step::WaitReady { rca: 0xABCD },
            Step::ClearStatus,
        ]
    );
}

#[test]
fn erase_malformed_range_same_commands() {
    // start beyond end: the same three commands are still issued in order,
    // validation is the card's business
    let c = card();
    let plan = c.erase(4096, 1024);
    assert_eq!(
        plan,
        vec![
            Step::WaitReady { rca: 0xABCD },
            exchange(16, 512),
            exchange(32, 8),
            exchange(33, 2),
            exchange(38, 0),
            Step::WaitReady { rca: 0xABCD },
            Step::ClearStatus,
        ]
    );
}
