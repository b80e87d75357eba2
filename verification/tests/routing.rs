use pic8259::pic::{
    create_pic_structs, Pic, CMD_END_OF_INTERRUPT, LINES, PIC_1_OFFSET, PIC_2_OFFSET,
    TIMER_INTERRUPT,
};
use pic8259::port::PortWrite;
use pic8259::routing::{handles_interrupt, notify_end_of_interrupt};

fn write(port: u16, value: u8) -> PortWrite {
    PortWrite { port, value }
}

#[test]
fn the_two_controllers() {
    let (pic_1, pic_2) = create_pic_structs();
    assert_eq!(pic_1, Pic { offset: 0x20, command: 0x20, data: 0x21 });
    assert_eq!(pic_2, Pic { offset: 0x28, command: 0xA0, data: 0xA1 });
}

#[test]
fn constants() {
    assert_eq!(PIC_1_OFFSET, 0x20);
    assert_eq!(PIC_2_OFFSET, 0x28);
    assert_eq!(TIMER_INTERRUPT, 0x20);
    assert_eq!(CMD_END_OF_INTERRUPT, 0x20);
    assert_eq!(LINES, 8);
}

#[test]
fn port_write_new_keeps_port_and_value() {
    assert_eq!(PortWrite::new(0x21, 0x7F), write(0x21, 0x7F));
    assert_ne!(PortWrite::new(0x21, 0x7F), write(0x7F, 0x21));
}

#[test]
fn ownership_is_the_range_from_0x20_to_0x2f() {
    for v in 0..=255u8 {
        let expected = (0x20 <= v && v < 0x28) || (0x28 <= v && v < 0x30);
        assert_eq!(handles_interrupt(v), expected, "vector {}", v);
    }
}

#[test]
fn ownership_at_the_edges() {
    assert!(!handles_interrupt(0x1F));
    assert!(handles_interrupt(0x20));
    assert!(handles_interrupt(0x27));
    assert!(handles_interrupt(0x28));
    assert!(handles_interrupt(0x2F));
    assert!(!handles_interrupt(0x30));
    assert!(!handles_interrupt(0x00));
    assert!(!handles_interrupt(0xFF));
}

#[test]
fn each_controller_owns_eight_vectors_from_its_offset() {
    let (pic_1, pic_2) = create_pic_structs();
    for pic in [pic_1, pic_2] {
        let owned: Vec<u8> = (0..=255u8).filter(|v| pic.handles_interrupt(*v)).collect();
        let expected: Vec<u8> = (pic.offset..pic.offset + 8).collect();
        assert_eq!(owned, expected);
    }
}

#[test]
fn no_vector_belongs_to_both_controllers() {
    let (pic_1, pic_2) = create_pic_structs();
    for v in 0..=255u8 {
        assert!(!(pic_1.handles_interrupt(v) && pic_2.handles_interrupt(v)));
    }
}

#[test]
fn a_controller_at_the_top_of_the_vector_space() {
    let pic = Pic { offset: 0xF8, command: 0x20, data: 0x21 };
    assert!(!pic.handles_interrupt(0xF7));
    assert!(pic.handles_interrupt(0xF8));
    assert!(pic.handles_interrupt(0xFF));
    assert!(!pic.handles_interrupt(0x00));
}

#[test]
fn a_controller_at_the_bottom_of_the_vector_space() {
    let pic = Pic { offset: 0x00, command: 0x20, data: 0x21 };
    assert!(pic.handles_interrupt(0x00));
    assert!(pic.handles_interrupt(0x07));
    assert!(!pic.handles_interrupt(0x08));
    assert!(!pic.handles_interrupt(0xFF));
}

#[test]
fn a_controller_acknowledges_on_its_command_port() {
    let (pic_1, pic_2) = create_pic_structs();
    assert_eq!(pic_1.end_of_interrupt(), write(0x20, 0x20));
    assert_eq!(pic_2.end_of_interrupt(), write(0xA0, 0x20));
    let other = Pic { offset: 0x40, command: 0x1234, data: 0x1235 };
    assert_eq!(other.end_of_interrupt(), write(0x1234, CMD_END_OF_INTERRUPT));
}

#[test]
fn primary_vectors_are_acknowledged_to_the_primary_alone() {
    for v in 0x20..0x28u8 {
        assert_eq!(notify_end_of_interrupt(v), vec![write(0x20, 0x20)]);
    }
}

#[test]
fn secondary_vectors_are_acknowledged_to_the_secondary_then_the_primary() {
    for v in 0x28..0x30u8 {
        assert_eq!(notify_end_of_interrupt(v), vec![write(0xA0, 0x20), write(0x20, 0x20)]);
    }
}

#[test]
fn other_vectors_are_acknowledged_to_nobody() {
    for v in (0x00..0x20u8).chain(0x30..=0xFFu8) {
        assert_eq!(notify_end_of_interrupt(v), Vec::<PortWrite>::new());
    }
}

#[test]
fn timer_vector_is_the_primarys() {
    let (pic_1, pic_2) = create_pic_structs();
    assert!(handles_interrupt(0x20));
    assert!(pic_1.handles_interrupt(0x20));
    assert!(!pic_2.handles_interrupt(0x20));
    assert_eq!(notify_end_of_interrupt(0x20), vec![write(0x20, 0x20)]);
    assert_eq!(notify_end_of_interrupt(TIMER_INTERRUPT), vec![write(0x20, 0x20)]);
}

#[test]
fn vector_0x2c_is_the_secondarys() {
    let (pic_1, pic_2) = create_pic_structs();
    assert!(handles_interrupt(0x2C));
    assert!(pic_2.handles_interrupt(0x2C));
    assert!(!pic_1.handles_interrupt(0x2C));
    assert_eq!(notify_end_of_interrupt(0x2C), vec![write(0xA0, 0x20), write(0x20, 0x20)]);
}

#[test]
fn vectors_0x00_and_0x30_are_nobodys() {
    for v in [0x00u8, 0x30u8] {
        assert!(!handles_interrupt(v));
        assert!(notify_end_of_interrupt(v).is_empty());
    }
}
