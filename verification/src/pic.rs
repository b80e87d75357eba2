//! One 8259 controller, and the pair that a PC carries.

use vstd::prelude::*;
use crate::port::PortWrite;

verus! {

/// First vector of the primary controller.
pub const PIC_1_OFFSET: u8 = 0x20;

/// First vector of the secondary controller.
pub const PIC_2_OFFSET: u8 = 0x28;

/// Vector on which the hardware timer arrives: line 0 of the primary.
pub const TIMER_INTERRUPT: u8 = PIC_1_OFFSET;

/// Command byte that tells a controller that an interrupt has been handled.
pub const CMD_END_OF_INTERRUPT: u8 = 0x20;

/// Number of interrupt lines, and so of vectors, of one controller.
pub const LINES: u8 = 8;

/// One controller chip: where its vectors start and the two ports it listens on.
#[derive(Clone, Copy, Debug, PartialEq, Eq)]
pub struct Pic {
    /// First of the vectors that the controller raises.
    pub offset: u8,
    /// Port that takes command bytes.
    pub command: u16,
    /// Port that takes and gives data bytes.
    pub data: u16,
}

impl Pic {
    /// The offset is a multiple of eight, so that the eight vectors that
    /// start there all lie in the vector space.
    pub open spec fn wf(&self) -> bool {
        self.offset % 8 == 0
    }

    /// Whether `vector` is one of the eight vectors that start at the offset.
    pub open spec fn owns(&self, vector: u8) -> bool {
        self.offset <= vector < self.offset + LINES
    }

    /// The write that acknowledges an interrupt to this controller.
    pub open spec fn acknowledgment(&self) -> PortWrite {
        PortWrite::to(self.command, CMD_END_OF_INTERRUPT)
    }

    /// Tells whether this controller raises `interrupt_id`.
    pub fn handles_interrupt(&self, interrupt_id: u8) -> (handled: bool)
        ensures
            handled == self.owns(interrupt_id),
    {
        self.offset <= interrupt_id && interrupt_id - self.offset < LINES
    }

    /// Gives the write that tells this controller that an interrupt of its own
    /// has been handled.
    pub fn end_of_interrupt(&self) -> (write: PortWrite)
        ensures
            write == self.acknowledgment(),
    {
        PortWrite::new(self.command, CMD_END_OF_INTERRUPT)
    }
}

/// The primary controller: vectors from 0x20, ports 0x20 and 0x21.
pub open spec fn primary() -> Pic {
    Pic { offset: PIC_1_OFFSET, command: 0x20, data: 0x21 }
}

/// The secondary controller: vectors from 0x28, ports 0xA0 and 0xA1.
pub open spec fn secondary() -> Pic {
    Pic { offset: PIC_2_OFFSET, command: 0xA0, data: 0xA1 }
}

/// The vectors of a controller, as a set.
pub open spec fn vectors(pic: Pic) -> Set<u8> {
    Set::new(|vector: u8| pic.owns(vector))
}

/// A well-formed controller owns eight vectors, all of them in the vector
/// space: the offset and the seven that follow it.
pub proof fn lemma_owns_eight_vectors(pic: Pic)
    requires
        pic.wf(),
    ensures
        pic.offset + LINES <= 256,
        vectors(pic).finite(),
        vectors(pic).len() == LINES,
        forall|line: u8|
            line < LINES ==> vectors(pic).contains(#[trigger] ((pic.offset + line) as u8)),
{
    let o = pic.offset;
    let listed: Set<u8> = set![
        o,
        (o + 1) as u8,
        (o + 2) as u8,
        (o + 3) as u8,
        (o + 4) as u8,
        (o + 5) as u8,
        (o + 6) as u8,
        (o + 7) as u8,
    ];
    assert(vectors(pic) =~= listed);
}

/// The two controllers are well formed, and no vector belongs to both.
pub proof fn lemma_controllers_apart(vector: u8)
    ensures
        primary().wf(),
        secondary().wf(),
        !(primary().owns(vector) && secondary().owns(vector)),
{
}

/// Makes the two controllers, primary first.
pub fn create_pic_structs() -> (pics: (Pic, Pic))
    ensures
        pics.0 == primary(),
        pics.1 == secondary(),
        pics.0.wf(),
        pics.1.wf(),
{
    let pic_1 = Pic { offset: PIC_1_OFFSET, command: 0x20, data: 0x21 };
    let pic_2 = Pic { offset: PIC_2_OFFSET, command: 0xA0, data: 0xA1 };
    (pic_1, pic_2)
}

} // verus!
