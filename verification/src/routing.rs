//! Which controller a vector belongs to, and whom to tell when its
//! interrupt has been handled.

use vstd::prelude::*;
use crate::pic::{create_pic_structs, primary, secondary};
use crate::port::PortWrite;

verus! {

/// Whether one of the two controllers raises `vector`.
pub open spec fn handled(vector: u8) -> bool {
    primary().owns(vector) || secondary().owns(vector)
}

/// The writes that acknowledge `vector`. An interrupt of the secondary
/// reaches the processor through the primary, so both are told, the
/// secondary first. A vector of neither controller is acknowledged to nobody.
pub open spec fn end_of_interrupt_writes(vector: u8) -> Seq<PortWrite> {
    if secondary().owns(vector) {
        seq![secondary().acknowledgment(), primary().acknowledgment()]
    } else if primary().owns(vector) {
        seq![primary().acknowledgment()]
    } else {
        Seq::empty()
    }
}

/// Tells whether `interrupt_id` comes from one of the two controllers.
pub fn handles_interrupt(interrupt_id: u8) -> (handled: bool)
    ensures
        handled == self::handled(interrupt_id),
        handled <==> (0x20 <= interrupt_id < 0x28 || 0x28 <= interrupt_id < 0x30),
{
    let (pic_1, pic_2) = create_pic_structs();
    pic_1.handles_interrupt(interrupt_id) || pic_2.handles_interrupt(interrupt_id)
}

/// Gives the writes that acknowledge `interrupt_id`, in the order in which
/// they are to be made.
pub fn notify_end_of_interrupt(interrupt_id: u8) -> (writes: Vec<PortWrite>)
    ensures
        writes@ == end_of_interrupt_writes(interrupt_id),
        0x20 <= interrupt_id < 0x28 ==> writes@ == seq![PortWrite::to(0x20, 0x20)],
        0x28 <= interrupt_id < 0x30 ==> writes@ == seq![
            PortWrite::to(0xA0, 0x20),
            PortWrite::to(0x20, 0x20),
        ],
        !(0x20 <= interrupt_id < 0x30) ==> writes@ == Seq::<PortWrite>::empty(),
{
    let (pic_1, pic_2) = create_pic_structs();
    let mut writes: Vec<PortWrite> = Vec::new();
    if pic_1.handles_interrupt(interrupt_id) || pic_2.handles_interrupt(interrupt_id) {
        if pic_2.handles_interrupt(interrupt_id) {
            writes.push(pic_2.end_of_interrupt());
        }
        writes.push(pic_1.end_of_interrupt());
    }
    writes
}

} // verus!
