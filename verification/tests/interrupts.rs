use kernel::display::vga::{Buffer, Color, ColorCode, ScreenChar, Writer, VGA_HEIGHT, VGA_WIDTH};
use kernel::interrupts::keyboard::Keyboard;
use kernel::interrupts::{
    acknowledge, init_idt, init_pic, irq_input_port, remap, rust_exception_handler,
    rust_irq_handler, EndOfInterrupt, Idt, IdtEntry, IdtPointer, InterruptFrame,
    InterruptHandlers, PortWrite,
};

const MASTER_EOI: PortWrite = PortWrite { port: 0x20, value: 0x20 };
const SLAVE_EOI: PortWrite = PortWrite { port: 0xA0, value: 0x20 };

const ABSENT: IdtEntry = IdtEntry {
    offset_low: 0,
    selector: 0,
    ist: 0,
    flags: 0,
    offset_mid: 0,
    offset_high: 0,
    reserved: 0,
};

fn frame(interrupt_number: u64, error_code: u64) -> InterruptFrame {
    InterruptFrame {
        r15: 15, r14: 14, r13: 13, r12: 12, r11: 11, r10: 10, r9: 9, r8: 8,
        rbp: 0x7000, rdi: 1, rsi: 2, rdx: 3, rcx: 4, rbx: 5, rax: 6,
        interrupt_number,
        error_code,
        rip: 0x10_0000, cs: 0x08, rflags: 0x202, rsp: 0x8000, ss: 0x10,
    }
}

fn marker() -> ScreenChar {
    ScreenChar { ascii_code: b'#', color_code: ColorCode(0x4F) }
}

fn cell(byte: u8) -> ScreenChar {
    ScreenChar { ascii_code: byte, color_code: ColorCode(0x07) }
}

fn console() -> Writer {
    Writer::new(Color::LightGray, Color::Black, Buffer::new(marker()))
}

fn snapshot(writer: &Writer) -> Vec<ScreenChar> {
    let mut cells = Vec::new();
    for row in 0..VGA_HEIGHT {
        for col in 0..VGA_WIDTH {
            cells.push(writer.cell(row, col));
        }
    }
    cells
}

fn text_of(writer: &Writer, row: usize) -> String {
    (0..VGA_WIDTH).map(|col| writer.cell(row, col).ascii_code as char).collect()
}

fn padded(text: &str) -> String {
    format!("{text}{}", " ".repeat(VGA_WIDTH - text.len()))
}

fn writes_of(eoi: &EndOfInterrupt) -> Vec<PortWrite> {
    let mut writes = Vec::new();
    if let Some(slave) = eoi.slave {
        writes.push(slave);
    }
    writes.push(eoi.master);
    writes
}

#[test]
fn new_entry_is_all_zero() {
    assert_eq!(IdtEntry::new(), ABSENT);
    assert_eq!(IdtEntry::new().handler_address(), 0);
}

#[test]
fn set_handler_splits_the_address() {
    let mut entry = IdtEntry::new();
    entry.set_handler(0x1122_3344_5566_7788, 0x08, 0x8E);
    assert_eq!(
        entry,
        IdtEntry {
            offset_low: 0x7788,
            selector: 0x08,
            ist: 0,
            flags: 0x8E,
            offset_mid: 0x5566,
            offset_high: 0x1122_3344,
            reserved: 0,
        }
    );
}

#[test]
fn set_handler_overwrites_every_field() {
    let mut entry = IdtEntry {
        offset_low: 0xFFFF,
        selector: 0xFFFF,
        ist: 7,
        flags: 0xFF,
        offset_mid: 0xFFFF,
        offset_high: 0xFFFF_FFFF,
        reserved: 0xFFFF_FFFF,
    };
    entry.set_handler(0x0000_0000_0010_2000, 0x10, 0x8F);
    assert_eq!(
        entry,
        IdtEntry {
            offset_low: 0x2000,
            selector: 0x10,
            ist: 0,
            flags: 0x8F,
            offset_mid: 0x0010,
            offset_high: 0,
            reserved: 0,
        }
    );
}

#[test]
fn handler_address_reassembles_what_set_handler_split() {
    let addresses = [
        0u64,
        1,
        0xFFFF,
        0x1_0000,
        0xFFFF_FFFF,
        0x1_0000_0000,
        0x1122_3344_5566_7788,
        0xFFFF_8000_0010_0000,
        u64::MAX,
    ];
    for address in addresses {
        let mut entry = IdtEntry::new();
        entry.set_handler(address, 0x08, 0x8E);
        assert_eq!(entry.handler_address(), address);
    }
}

#[test]
fn handler_address_joins_the_three_fragments() {
    let entry = IdtEntry {
        offset_low: 0xBEEF,
        selector: 0,
        ist: 0,
        flags: 0,
        offset_mid: 0xDEAD,
        offset_high: 0x0BAD_F00D,
        reserved: 0,
    };
    assert_eq!(entry.handler_address(), 0x0BAD_F00D_DEAD_BEEF);
}

#[test]
fn new_table_has_no_handlers() {
    let idt = Idt::new();
    for vector in 0..=255u8 {
        assert_eq!(idt.entry(vector), ABSENT);
    }
}

#[test]
fn install_handler_writes_one_descriptor() {
    let mut idt = Idt::new();
    idt.install_handler(255, 0xAAAA_BBBB_CCCC_DDDD, 0x08, 0x8E);
    idt.install_handler(3, 0x1234, 0x18, 0xEE);
    for vector in 0..=255u8 {
        let entry = idt.entry(vector);
        match vector {
            3 => {
                assert_eq!(entry.handler_address(), 0x1234);
                assert_eq!((entry.selector, entry.flags, entry.ist), (0x18, 0xEE, 0));
            }
            255 => {
                assert_eq!(entry.handler_address(), 0xAAAA_BBBB_CCCC_DDDD);
                assert_eq!((entry.selector, entry.flags, entry.ist), (0x08, 0x8E, 0));
            }
            _ => assert_eq!(entry, ABSENT),
        }
    }
}

#[test]
fn init_idt_installs_the_five_kernel_gates() {
    let handlers = InterruptHandlers {
        divide_by_zero: 0x10_1000,
        general_protection_fault: 0x10_2000,
        page_fault: 0x10_3000,
        timer: 0xFFFF_8000_0010_4000,
        keyboard: 0x10_5000,
    };
    let idt = init_idt(&handlers);
    let installed = [
        (0u8, handlers.divide_by_zero),
        (13, handlers.general_protection_fault),
        (14, handlers.page_fault),
        (32, handlers.timer),
        (33, handlers.keyboard),
    ];
    for vector in 0..=255u8 {
        let entry = idt.entry(vector);
        match installed.iter().find(|(installed_vector, _)| *installed_vector == vector) {
            Some((_, address)) => {
                assert_eq!(entry.handler_address(), *address);
                assert_eq!(entry.selector, 0x08);
                assert_eq!(entry.flags, 0x8E);
                assert_eq!(entry.ist, 0);
                assert_eq!(entry.reserved, 0);
            }
            None => assert_eq!(entry, ABSENT),
        }
    }
}

#[test]
fn idt_pointer_covers_the_whole_table() {
    let pointer = IdtPointer::new(0x20_0000);
    assert_eq!(pointer, IdtPointer { limit: 4095, base: 0x20_0000 });
}

#[test]
fn init_pic_remaps_to_vectors_32_and_40() {
    let expected = [
        PortWrite { port: 0x20, value: 0x11 },
        PortWrite { port: 0xA0, value: 0x11 },
        PortWrite { port: 0x21, value: 32 },
        PortWrite { port: 0xA1, value: 40 },
        PortWrite { port: 0x21, value: 0x04 },
        PortWrite { port: 0xA1, value: 0x02 },
        PortWrite { port: 0x21, value: 0x01 },
        PortWrite { port: 0xA1, value: 0x01 },
        PortWrite { port: 0x21, value: 0x00 },
        PortWrite { port: 0xA1, value: 0x00 },
    ];
    assert_eq!(init_pic(), expected);
    assert_eq!(remap(32, 40), expected);
}

#[test]
fn remap_places_the_offsets_in_the_second_command_words() {
    let writes = remap(0x70, 0x78);
    assert_eq!(writes[2], PortWrite { port: 0x21, value: 0x70 });
    assert_eq!(writes[3], PortWrite { port: 0xA1, value: 0x78 });
    let standard = init_pic();
    for index in [0, 1, 4, 5, 6, 7, 8, 9] {
        assert_eq!(writes[index], standard[index]);
    }
}

#[test]
fn acknowledge_signals_the_master_alone_below_eight() {
    for irq in 0..8u64 {
        assert_eq!(acknowledge(irq), EndOfInterrupt { slave: None, master: MASTER_EOI });
    }
}

#[test]
fn acknowledge_signals_the_slave_first_from_eight_on() {
    for irq in [8u64, 9, 15, 16, 100, u64::MAX] {
        let eoi = acknowledge(irq);
        assert_eq!(eoi, EndOfInterrupt { slave: Some(SLAVE_EOI), master: MASTER_EOI });
        assert_eq!(writes_of(&eoi), vec![SLAVE_EOI, MASTER_EOI]);
    }
}

#[test]
fn every_irq_dispatch_is_acknowledged_exactly_once() {
    for vector in 32..=300u64 {
        let mut keyboard = Keyboard::new();
        let mut writer = console();
        let eoi = rust_irq_handler(&frame(vector, 0), 0x1E, &mut keyboard, &mut writer);
        let writes = writes_of(&eoi);
        let to_master = writes.iter().filter(|write| **write == MASTER_EOI).count();
        let to_slave = writes.iter().filter(|write| write.port == 0xA0).count();
        assert_eq!(to_master, 1);
        assert_eq!(to_slave, if vector - 32 >= 8 { 1 } else { 0 });
        assert_eq!(writes.last(), Some(&MASTER_EOI));
        assert_eq!(writes.len(), to_master + to_slave);
    }
}

#[test]
fn only_the_keyboard_irq_asks_for_a_port() {
    for vector in 32..=300u64 {
        let expected = if vector == 33 { Some(0x60) } else { None };
        assert_eq!(irq_input_port(&frame(vector, 0)), expected);
    }
}

#[test]
fn keyboard_irq_echoes_a_pressed_letter() {
    let mut keyboard = Keyboard::new();
    let mut writer = console();
    let eoi = rust_irq_handler(&frame(33, 0), 0x1E, &mut keyboard, &mut writer);
    assert_eq!(eoi, EndOfInterrupt { slave: None, master: MASTER_EOI });
    assert_eq!(writer.column_position(), 1);
    assert_eq!(writer.cell(24, 0), cell(b'a'));
    assert_eq!(writer.cell(24, 1), marker());
}

#[test]
fn keyboard_irq_echoes_a_pressed_digit() {
    let mut keyboard = Keyboard::new();
    let mut writer = console();
    rust_irq_handler(&frame(33, 0), 0x0B, &mut keyboard, &mut writer);
    assert_eq!(writer.column_position(), 1);
    assert_eq!(writer.cell(24, 0), cell(b'0'));
}

#[test]
fn keyboard_irq_ignores_releases() {
    let mut keyboard = Keyboard::new();
    let mut writer = console();
    let before = snapshot(&writer);
    rust_irq_handler(&frame(33, 0), 0x9E, &mut keyboard, &mut writer);
    rust_irq_handler(&frame(33, 0), 0x8E, &mut keyboard, &mut writer);
    assert_eq!(writer.column_position(), 0);
    assert_eq!(snapshot(&writer), before);
}

#[test]
fn keyboard_irq_ignores_unknown_keys_and_shift() {
    let mut keyboard = Keyboard::new();
    let mut writer = console();
    let before = snapshot(&writer);
    rust_irq_handler(&frame(33, 0), 0x39, &mut keyboard, &mut writer);
    rust_irq_handler(&frame(33, 0), 0x1C, &mut keyboard, &mut writer);
    rust_irq_handler(&frame(33, 0), 0x2A, &mut keyboard, &mut writer);
    assert!(keyboard.shift_enabled);
    assert_eq!(writer.column_position(), 0);
    assert_eq!(snapshot(&writer), before);
}

#[test]
fn keyboard_irq_tracks_shift_across_dispatches() {
    let mut keyboard = Keyboard::new();
    let mut writer = console();
    for scancode in [0x23, 0x2A, 0x17, 0xAA, 0x17, 0x36, 0x02, 0x10, 0xB6, 0x10] {
        rust_irq_handler(&frame(33, 0), scancode, &mut keyboard, &mut writer);
    }
    assert!(!keyboard.shift_enabled);
    assert_eq!(&text_of(&writer, 24)[..7], "hIi1Qq#");
}

#[test]
fn keyboard_irq_deletes_the_last_character() {
    let mut keyboard = Keyboard::new();
    let mut writer = console();
    for scancode in [0x1E, 0x30, 0x0E] {
        rust_irq_handler(&frame(33, 0), scancode, &mut keyboard, &mut writer);
    }
    assert_eq!(writer.column_position(), 1);
    assert_eq!(&text_of(&writer, 24)[..3], "a #");
    rust_irq_handler(&frame(33, 0), 0x0E, &mut keyboard, &mut writer);
    rust_irq_handler(&frame(33, 0), 0x0E, &mut keyboard, &mut writer);
    assert_eq!(writer.column_position(), 0);
    assert_eq!(&text_of(&writer, 24)[..3], "  #");
}

#[test]
fn other_irqs_leave_keyboard_and_console_alone() {
    for vector in [32u64, 34, 39, 40, 47, 48, 1000] {
        let mut keyboard = Keyboard { shift_enabled: true };
        let mut writer = console();
        writer.write("abc");
        let before = snapshot(&writer);
        rust_irq_handler(&frame(vector, 0), 0x1E, &mut keyboard, &mut writer);
        assert!(keyboard.shift_enabled);
        assert_eq!(writer.column_position(), 3);
        assert_eq!(snapshot(&writer), before);
        rust_irq_handler(&frame(vector, 0), 0xAA, &mut keyboard, &mut writer);
        assert!(keyboard.shift_enabled);
    }
}

#[test]
fn divide_by_zero_is_reported_with_vector_and_error_code() {
    let mut writer = console();
    writer.write("prompt");
    rust_exception_handler(&frame(0, 0), 0x1234, &mut writer);
    assert_eq!(&text_of(&writer, 22)[..7], "prompt#");
    assert_eq!(
        text_of(&writer, 23),
        padded("DIVIDE BY ZERO vector=0x00 error=0x0000000000000000")
    );
    assert_eq!(text_of(&writer, 24), padded(""));
    assert_eq!(writer.column_position(), 0);
    assert_eq!(writer.cell(23, 0), cell(b'D'));
}

#[test]
fn general_protection_fault_is_reported_with_its_error_code() {
    let mut writer = console();
    rust_exception_handler(&frame(13, 0x18), 0, &mut writer);
    assert_eq!(
        text_of(&writer, 23),
        padded("GENERAL PROTECTION FAULT vector=0x0D error=0x0000000000000018")
    );
    assert_eq!(text_of(&writer, 24), padded(""));
}

#[test]
fn page_fault_is_reported_with_the_faulting_address() {
    let mut writer = console();
    rust_exception_handler(&frame(14, 2), 0xDEAD_BEEF, &mut writer);
    assert_eq!(
        text_of(&writer, 23),
        padded("PAGE FAULT vector=0x0E error=0x0000000000000002 address=0x00000000DEADBEEF")
    );
    assert_eq!(text_of(&writer, 24), padded(""));
    assert_eq!(writer.column_position(), 0);
}

#[test]
fn other_exceptions_are_not_reported() {
    for vector in [1u64, 6, 8, 12, 15, 31, 32, 255, u64::MAX] {
        let mut writer = console();
        writer.write("abc");
        let before = snapshot(&writer);
        rust_exception_handler(&frame(vector, 7), 0xDEAD_BEEF, &mut writer);
        assert_eq!(writer.column_position(), 3);
        assert_eq!(snapshot(&writer), before);
    }
}
