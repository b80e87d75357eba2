//! The setup handshake that moves both controllers to their vectors.

use vstd::prelude::*;
use crate::pic::{create_pic_structs, primary, secondary};
use crate::port::PortWrite;

verus! {

/// Command byte that opens the setup handshake: three more bytes follow on the
/// data port, and the controller is one of a cascade.
pub const CMD_INIT: u8 = 0x11;

/// Mode byte that ends the handshake: 8086 mode.
pub const MODE_8086: u8 = 0x01;

/// Input line of the primary on which the secondary hangs.
pub const CASCADE_LINE: u8 = 2;

/// Cascade byte of the primary: one bit per input line that carries a
/// controller, here the bit of `CASCADE_LINE`.
pub const CASCADE_LINES: u8 = 4;

/// Port that nothing listens on. A write to it takes as long as any port
/// write, which gives a controller time to take in the byte before.
pub const DELAY_PORT: u16 = 0x80;

/// The write that only passes time.
pub open spec fn delay_write() -> PortWrite {
    PortWrite::to(DELAY_PORT, 0)
}

/// The eight bytes of the handshake, four for each controller, step by step
/// and within each step the primary first: the opening command, the vector
/// offset, the cascade byte and the mode.
pub open spec fn handshake_writes() -> Seq<PortWrite> {
    seq![
        PortWrite::to(primary().command, CMD_INIT),
        PortWrite::to(secondary().command, CMD_INIT),
        PortWrite::to(primary().data, primary().offset),
        PortWrite::to(secondary().data, secondary().offset),
        PortWrite::to(primary().data, CASCADE_LINES),
        PortWrite::to(secondary().data, CASCADE_LINE),
        PortWrite::to(primary().data, MODE_8086),
        PortWrite::to(secondary().data, MODE_8086),
    ]
}

/// `writes` with a delay write in front of each of them.
pub open spec fn with_delays(writes: Seq<PortWrite>) -> Seq<PortWrite> {
    Seq::new(
        2 * writes.len(),
        |i: int|
            if i % 2 == 0 {
                delay_write()
            } else {
                writes[i / 2]
            },
    )
}

/// The two writes that put the interrupt masks back, primary first.
pub open spec fn restore_writes(saved_mask_1: u8, saved_mask_2: u8) -> Seq<PortWrite> {
    seq![
        PortWrite::to(primary().data, saved_mask_1),
        PortWrite::to(secondary().data, saved_mask_2),
    ]
}

/// All writes of the initialization: the handshake with its delays, then the
/// masks, with no delay before either of them.
pub open spec fn init_writes(saved_mask_1: u8, saved_mask_2: u8) -> Seq<PortWrite> {
    with_delays(handshake_writes()) + restore_writes(saved_mask_1, saved_mask_2)
}

/// The initialization has eighteen writes. Each of the eight handshake
/// writes, in their order, has a delay write directly in front of it; the two
/// mask writes close the sequence with no delay between the last handshake
/// write and them, or between the two.
pub proof fn lemma_init_writes_shape(saved_mask_1: u8, saved_mask_2: u8)
    ensures
        init_writes(saved_mask_1, saved_mask_2).len() == 18,
        forall|k: int|
            0 <= k < 8 ==> {
                &&& init_writes(saved_mask_1, saved_mask_2)[2 * k] == delay_write()
                &&& #[trigger] init_writes(saved_mask_1, saved_mask_2)[2 * k + 1]
                    == handshake_writes()[k]
            },
        init_writes(saved_mask_1, saved_mask_2)[16] == PortWrite::to(
            primary().data,
            saved_mask_1,
        ),
        init_writes(saved_mask_1, saved_mask_2)[17] == PortWrite::to(
            secondary().data,
            saved_mask_2,
        ),
{
}

/// The initialization, port by port and byte by byte.
pub proof fn lemma_init_writes_listed(saved_mask_1: u8, saved_mask_2: u8)
    ensures
        init_writes(saved_mask_1, saved_mask_2) == seq![
            PortWrite::to(0x80, 0),
            PortWrite::to(0x20, 0x11),
            PortWrite::to(0x80, 0),
            PortWrite::to(0xA0, 0x11),
            PortWrite::to(0x80, 0),
            PortWrite::to(0x21, 0x20),
            PortWrite::to(0x80, 0),
            PortWrite::to(0xA1, 0x28),
            PortWrite::to(0x80, 0),
            PortWrite::to(0x21, 4),
            PortWrite::to(0x80, 0),
            PortWrite::to(0xA1, 2),
            PortWrite::to(0x80, 0),
            PortWrite::to(0x21, 0x01),
            PortWrite::to(0x80, 0),
            PortWrite::to(0xA1, 0x01),
            PortWrite::to(0x21, saved_mask_1),
            PortWrite::to(0xA1, saved_mask_2),
        ],
{
}

/// The cascade byte of the primary has the bit of the cascade line set and no
/// other, and the cascade byte of the secondary is the number of that line.
pub proof fn lemma_cascade_bytes_agree()
    ensures
        CASCADE_LINES == 1u8 << CASCADE_LINE,
{
    assert(4u8 == 1u8 << 2u8) by (bit_vector);
}

/// Gives the ports to read before the initialization, in this order: the data
/// ports of the primary and of the secondary. Outside a handshake a controller
/// answers a read of its data port with its interrupt mask.
pub fn mask_ports() -> (ports: (u16, u16))
    ensures
        ports.0 == primary().data,
        ports.1 == secondary().data,
{
    let (pic_1, pic_2) = create_pic_structs();
    (pic_1.data, pic_2.data)
}

/// Appends a delay write and then `write`.
fn push_delayed(writes: &mut Vec<PortWrite>, write: PortWrite)
    ensures
        final(writes)@ == old(writes)@.push(delay_write()).push(write),
{
    writes.push(PortWrite::new(DELAY_PORT, 0));
    writes.push(write);
}

/// Gives the writes that initialize both controllers, in the order in which
/// they are to be made. `saved_mask_1` and `saved_mask_2` are the bytes read
/// from the two ports of `mask_ports` just before; the last two writes put
/// them back.
pub fn initialize(saved_mask_1: u8, saved_mask_2: u8) -> (writes: Vec<PortWrite>)
    ensures
        writes@ == init_writes(saved_mask_1, saved_mask_2),
{
    let (pic_1, pic_2) = create_pic_structs();
    let mut writes: Vec<PortWrite> = Vec::new();

    // Open the handshake on both controllers.
    push_delayed(&mut writes, PortWrite::new(pic_1.command, CMD_INIT));
    push_delayed(&mut writes, PortWrite::new(pic_2.command, CMD_INIT));

    // Where each controller's vectors start.
    push_delayed(&mut writes, PortWrite::new(pic_1.data, pic_1.offset));
    push_delayed(&mut writes, PortWrite::new(pic_2.data, pic_2.offset));

    // How the two are chained.
    push_delayed(&mut writes, PortWrite::new(pic_1.data, CASCADE_LINES));
    push_delayed(&mut writes, PortWrite::new(pic_2.data, CASCADE_LINE));

    // The mode to run in.
    push_delayed(&mut writes, PortWrite::new(pic_1.data, MODE_8086));
    push_delayed(&mut writes, PortWrite::new(pic_2.data, MODE_8086));

    // The masks that were in force before.
    writes.push(PortWrite::new(pic_1.data, saved_mask_1));
    writes.push(PortWrite::new(pic_2.data, saved_mask_2));
    writes
}

} // verus!
