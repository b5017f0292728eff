//! The two routines that hardware events end in: one for processor
//! exceptions, one for interrupt requests.

use super::idt::{DIVIDE_BY_ZERO_VECTOR, GENERAL_PROTECTION_FAULT_VECTOR, PAGE_FAULT_VECTOR};
use super::keyboard::{decode, latch_after, Action, KeyPressed, KeyState, KeyType, Keyboard};
use super::pic::{acknowledge, eoi_sequence, EndOfInterrupt, MASTER_OFFSET};
use crate::display::console::{hex_text, lemma_put_all_concat, Console};
use crate::display::vga::Writer;
use vstd::prelude::*;
use vstd::string::StringSliceAdditionalSpecFns;

verus! {

/// Port the keyboard controller hands a scancode over on.
pub const KEYBOARD_DATA_PORT: u16 = 0x60;

/// Number of the timer's interrupt request.
pub const TIMER_IRQ: u64 = 0;

/// Number of the keyboard's interrupt request.
pub const KEYBOARD_IRQ: u64 = 1;

/// The state of the processor as the entry stub saved it when the interrupt
/// arrived. The dispatch routines only read it.
#[derive(Clone, Copy, Debug, PartialEq, Eq, Structural)]
pub struct InterruptFrame {
    pub r15: u64,
    pub r14: u64,
    pub r13: u64,
    pub r12: u64,
    pub r11: u64,
    pub r10: u64,
    pub r9: u64,
    pub r8: u64,
    pub rbp: u64,
    pub rdi: u64,
    pub rsi: u64,
    pub rdx: u64,
    pub rcx: u64,
    pub rbx: u64,
    pub rax: u64,
    pub interrupt_number: u64,
    pub error_code: u64,
    pub rip: u64,
    pub cs: u64,
    pub rflags: u64,
    pub rsp: u64,
    pub ss: u64,
}

impl InterruptFrame {
    /// The number of the interrupt request behind the frame's vector.
    pub open spec fn irq(self) -> int {
        self.interrupt_number - MASTER_OFFSET
    }
}

/// What the console shows once a key event has been echoed: a pressed letter
/// or digit is written, a pressed delete takes the last character away, and
/// anything else, every release included, leaves the console as it is.
pub open spec fn echo(console: Console, event: KeyPressed) -> Console {
    if event.state == KeyState::Pressed {
        match event.key {
            KeyType::Character(byte) => console.put(byte),
            KeyType::Number(byte) => console.put(byte),
            KeyType::Action(Action::Delete) => console.delete_last(),
            _ => console,
        }
    } else {
        console
    }
}

/// The name an exception is reported under, for the exceptions that are
/// reported: the divide error, the general protection fault and the page
/// fault.
pub open spec fn exception_name(vector: u64) -> Option<Seq<u8>> {
    if vector == DIVIDE_BY_ZERO_VECTOR {
        Some("DIVIDE BY ZERO".spec_bytes())
    } else if vector == GENERAL_PROTECTION_FAULT_VECTOR {
        Some("GENERAL PROTECTION FAULT".spec_bytes())
    } else if vector == PAGE_FAULT_VECTOR {
        Some("PAGE FAULT".spec_bytes())
    } else {
        None
    }
}

/// The address part of a report: the faulting address for a page fault,
/// nothing for any other exception.
pub open spec fn address_text(vector: u64, fault_address: u64) -> Seq<u8> {
    if vector == PAGE_FAULT_VECTOR {
        " address=0x".spec_bytes() + hex_text(fault_address as nat, 16)
    } else {
        Seq::empty()
    }
}

/// The report of an exception, as the bytes written to the console: on a
/// line of its own the name, the vector in two hexadecimal digits, the error
/// code in sixteen and, for a page fault, the faulting address in sixteen.
/// An exception without a name is not reported.
pub open spec fn exception_text(frame: InterruptFrame, fault_address: u64) -> Seq<u8> {
    match exception_name(frame.interrupt_number) {
        Some(name) => "\n".spec_bytes() + name + " vector=0x".spec_bytes() + hex_text(
            frame.interrupt_number as nat,
            2,
        ) + " error=0x".spec_bytes() + hex_text(frame.error_code as nat, 16) + address_text(
            frame.interrupt_number,
            fault_address,
        ) + "\n".spec_bytes(),
        None => Seq::empty(),
    }
}

/// Reports a processor exception on the console. `fault_address` is the
/// content of the fault address register; it is shown for a page fault only.
/// Every exception is fatal: once this returns, the caller halts the
/// processor.
pub fn rust_exception_handler(frame: &InterruptFrame, fault_address: u64, writer: &mut Writer)
    ensures
        final(writer)@ == old(writer)@.put_all(exception_text(*frame, fault_address)),
{
    let vector: u64 = frame.interrupt_number;
    let name = if vector == DIVIDE_BY_ZERO_VECTOR as u64 {
        "DIVIDE BY ZERO"
    } else if vector == GENERAL_PROTECTION_FAULT_VECTOR as u64 {
        "GENERAL PROTECTION FAULT"
    } else if vector == PAGE_FAULT_VECTOR as u64 {
        "PAGE FAULT"
    } else {
        return ;
    };
    let ghost start = writer@;
    let ghost mut text = "\n".spec_bytes();
    writer.write("\n");
    writer.write(name);
    proof {
        lemma_put_all_concat(start, text, name.spec_bytes());
        text = text + name.spec_bytes();
    }
    writer.write(" vector=0x");
    proof {
        lemma_put_all_concat(start, text, " vector=0x".spec_bytes());
        text = text + " vector=0x".spec_bytes();
    }
    writer.write_hex(vector, 2);
    proof {
        lemma_put_all_concat(start, text, hex_text(vector as nat, 2));
        text = text + hex_text(vector as nat, 2);
    }
    writer.write(" error=0x");
    proof {
        lemma_put_all_concat(start, text, " error=0x".spec_bytes());
        text = text + " error=0x".spec_bytes();
    }
    writer.write_hex(frame.error_code, 16);
    proof {
        lemma_put_all_concat(start, text, hex_text(frame.error_code as nat, 16));
        text = text + hex_text(frame.error_code as nat, 16);
    }
    if vector == PAGE_FAULT_VECTOR as u64 {
        let ghost before = text;
        writer.write(" address=0x");
        proof {
            lemma_put_all_concat(start, text, " address=0x".spec_bytes());
            text = text + " address=0x".spec_bytes();
        }
        writer.write_hex(fault_address, 16);
        proof {
            lemma_put_all_concat(start, text, hex_text(fault_address as nat, 16));
            text = text + hex_text(fault_address as nat, 16);
            assert(text =~= before + address_text(vector, fault_address));
        }
    } else {
        proof {
            assert(text =~= text + address_text(vector, fault_address));
        }
    }
    writer.write("\n");
    proof {
        lemma_put_all_concat(start, text, "\n".spec_bytes());
        text = text + "\n".spec_bytes();
        assert(text == exception_text(*frame, fault_address));
    }
}

/// The port that must be read before the request in the frame is handled:
/// the keyboard's data port for the keyboard's request, none for any other.
pub fn irq_input_port(frame: &InterruptFrame) -> (port: Option<u16>)
    requires
        frame.interrupt_number >= MASTER_OFFSET,
    ensures
        port == if frame.irq() == KEYBOARD_IRQ {
            Some(KEYBOARD_DATA_PORT)
        } else {
            None
        },
{
    if frame.interrupt_number - (MASTER_OFFSET as u64) == KEYBOARD_IRQ {
        Some(KEYBOARD_DATA_PORT)
    } else {
        None
    }
}

/// Handles one interrupt request. `scancode` is the byte read from the port
/// that `irq_input_port` names; it is looked at for the keyboard's request
/// only, where it is decoded and the key echoed on the console. The timer's
/// request and every other do nothing. Whatever the request, the result is
/// the acknowledgement the controllers are owed, for the caller to send.
pub fn rust_irq_handler(
    frame: &InterruptFrame,
    scancode: u8,
    keyboard: &mut Keyboard,
    writer: &mut Writer,
) -> (eoi: EndOfInterrupt)
    requires
        frame.interrupt_number >= MASTER_OFFSET,
    ensures
        frame.irq() == KEYBOARD_IRQ ==> final(keyboard).shift_enabled == latch_after(
            scancode,
            old(keyboard).shift_enabled,
        ) && final(writer)@ == echo(old(writer)@, decode(scancode, old(keyboard).shift_enabled)),
        frame.irq() != KEYBOARD_IRQ ==> final(keyboard).shift_enabled == old(
            keyboard,
        ).shift_enabled && final(writer)@ == old(writer)@,
        eoi == EndOfInterrupt::owed(frame.irq()),
        eoi@ == eoi_sequence(frame.irq()),
{
    let irq: u64 = frame.interrupt_number - (MASTER_OFFSET as u64);

    match irq {
        TIMER_IRQ => {},
        KEYBOARD_IRQ => {
            let key_info = keyboard.scan(scancode);

            if key_info.state == KeyState::Pressed {
                if let Some(chr) = key_info.key.print() {
                    writer.write_byte(chr);
                } else if let KeyType::Action(action) = key_info.key {
                    match action {
                        Action::Delete => {
                            writer.delete_last_char();
                        },
                        _ => {},
                    }
                }
            }
        },
        _ => {},
    }

    acknowledge(irq)
}

} // verus!
