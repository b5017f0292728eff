//! The interrupt descriptor table: one gate descriptor for each of the 256
//! vectors of the processor.

use vstd::prelude::*;

verus! {

/// Number of vectors, and so of descriptors in the table.
pub const IDT_ENTRIES: usize = 256;

/// Size in bytes of one descriptor in memory.
pub const IDT_ENTRY_SIZE: usize = 16;

/// Vector of the divide error.
pub const DIVIDE_BY_ZERO_VECTOR: u8 = 0;

/// Vector of the general protection fault.
pub const GENERAL_PROTECTION_FAULT_VECTOR: u8 = 13;

/// Vector of the page fault.
pub const PAGE_FAULT_VECTOR: u8 = 14;

/// Vector the timer tick arrives on.
pub const TIMER_VECTOR: u8 = 32;

/// Vector the keyboard interrupt arrives on.
pub const KEYBOARD_VECTOR: u8 = 33;

/// Selector of the kernel code segment.
pub const KERNEL_CODE_SELECTOR: u16 = 0x08;

/// Flags of a present 64-bit interrupt gate at kernel privilege.
pub const INTERRUPT_GATE: u8 = 0x8E;

/// One descriptor. The address of the handler is held in three fragments,
/// as the processor reads it.
#[derive(Clone, Copy, Debug, PartialEq, Eq, Structural)]
pub struct IdtEntry {
    /// Bits 0 to 15 of the handler's address.
    pub offset_low: u16,
    /// Code segment selector.
    pub selector: u16,
    /// Index into the interrupt stack table.
    pub ist: u8,
    /// Type and attributes.
    pub flags: u8,
    /// Bits 16 to 31 of the handler's address.
    pub offset_mid: u16,
    /// Bits 32 to 63 of the handler's address.
    pub offset_high: u32,
    /// Always zero.
    pub reserved: u32,
}

impl IdtEntry {
    /// The descriptor of a vector without a handler: every field is zero,
    /// which the processor reads as not present.
    pub open spec fn absent() -> IdtEntry {
        IdtEntry {
            offset_low: 0,
            selector: 0,
            ist: 0,
            flags: 0,
            offset_mid: 0,
            offset_high: 0,
            reserved: 0,
        }
    }

    /// The descriptor of a gate to `handler`: the address cut into its three
    /// fragments, the selector and flags as given, no stack switch.
    pub open spec fn gate(handler: u64, selector: u16, flags: u8) -> IdtEntry {
        IdtEntry {
            offset_low: (handler % 0x1_0000) as u16,
            selector,
            ist: 0,
            flags,
            offset_mid: (handler / 0x1_0000 % 0x1_0000) as u16,
            offset_high: (handler / 0x1_0000_0000) as u32,
            reserved: 0,
        }
    }

    /// The address the descriptor points to: its three fragments put
    /// together again.
    pub open spec fn handler(self) -> u64 {
        (self.offset_low + 0x1_0000 * self.offset_mid + 0x1_0000_0000 * self.offset_high) as u64
    }

    /// A descriptor that is not present.
    pub fn new() -> (entry: IdtEntry)
        ensures
            entry == Self::absent(),
    {
        IdtEntry {
            offset_low: 0,
            selector: 0,
            ist: 0,
            flags: 0,
            offset_mid: 0,
            offset_high: 0,
            reserved: 0,
        }
    }

    /// Makes the descriptor a gate to `handler`.
    pub fn set_handler(&mut self, handler: u64, selector: u16, flags: u8)
        ensures
            *final(self) == Self::gate(handler, selector, flags),
            final(self).handler() == handler,
    {
        proof {
            lemma_split_u64(handler);
            Self::lemma_gate_keeps_handler(handler, selector, flags);
        }
        self.offset_low = #[verifier::truncate] (handler as u16);
        self.offset_mid = #[verifier::truncate] ((handler >> 16) as u16);
        self.offset_high = #[verifier::truncate] ((handler >> 32) as u32);
        self.selector = selector;
        self.ist = 0;
        self.flags = flags;
        self.reserved = 0;
    }

    /// The address of the handler the descriptor points to.
    pub fn handler_address(&self) -> (address: u64)
        ensures
            address == self.handler(),
    {
        let low: u16 = self.offset_low;
        let mid: u16 = self.offset_mid;
        let high: u32 = self.offset_high;
        assert(((low as u64) | ((mid as u64) << 16) | ((high as u64) << 32)) == low + 0x1_0000
            * mid + 0x1_0000_0000 * high) by (bit_vector);
        (low as u64) | ((mid as u64) << 16) | ((high as u64) << 32)
    }

    /// Cutting an address into the three fragments of a descriptor loses
    /// nothing: put together again, they are the address.
    pub proof fn lemma_gate_keeps_handler(handler: u64, selector: u16, flags: u8)
        ensures
            Self::gate(handler, selector, flags).handler() == handler,
    {
        let low: u64 = handler % 0x1_0000;
        let mid: u64 = handler / 0x1_0000 % 0x1_0000;
        let high: u64 = handler / 0x1_0000_0000;
        assert(low + 0x1_0000 * mid + 0x1_0000_0000 * high == handler) by (bit_vector)
            requires
                low == handler % 0x1_0000,
                mid == handler / 0x1_0000 % 0x1_0000,
                high == handler / 0x1_0000_0000,
        ;
    }
}

/// Truncating and shifting a 64-bit value give its fragments by position.
proof fn lemma_split_u64(value: u64)
    ensures
        value as u16 == value % 0x1_0000,
        (value >> 16) as u16 == value / 0x1_0000 % 0x1_0000,
        (value >> 32) as u32 == value / 0x1_0000_0000,
{
    assert(value as u16 == value % 0x1_0000) by (bit_vector);
    assert((value >> 16) as u16 == value / 0x1_0000 % 0x1_0000) by (bit_vector);
    assert((value >> 32) as u32 == value / 0x1_0000_0000) by (bit_vector);
}

/// What the processor is given to find the table: the size of the table in
/// bytes less one, and the address of its first descriptor.
#[derive(Clone, Copy, Debug, PartialEq, Eq, Structural)]
pub struct IdtPointer {
    pub limit: u16,
    pub base: u64,
}

impl IdtPointer {
    /// The pointer to a full table that lies at `base`.
    pub fn new(base: u64) -> (pointer: IdtPointer)
        ensures
            pointer.base == base,
            pointer.limit == IDT_ENTRIES * IDT_ENTRY_SIZE - 1,
    {
        IdtPointer { limit: (IDT_ENTRIES * IDT_ENTRY_SIZE - 1) as u16, base }
    }
}

/// The addresses of the entry stubs that the table is built with.
#[derive(Clone, Copy, Debug, PartialEq, Eq, Structural)]
pub struct InterruptHandlers {
    pub divide_by_zero: u64,
    pub general_protection_fault: u64,
    pub page_fault: u64,
    pub timer: u64,
    pub keyboard: u64,
}

impl InterruptHandlers {
    /// The address of the stub for a vector, if the vector has one.
    pub open spec fn stub(self, vector: int) -> Option<u64> {
        if vector == DIVIDE_BY_ZERO_VECTOR {
            Some(self.divide_by_zero)
        } else if vector == GENERAL_PROTECTION_FAULT_VECTOR {
            Some(self.general_protection_fault)
        } else if vector == PAGE_FAULT_VECTOR {
            Some(self.page_fault)
        } else if vector == TIMER_VECTOR {
            Some(self.timer)
        } else if vector == KEYBOARD_VECTOR {
            Some(self.keyboard)
        } else {
            None
        }
    }

    /// The table these stubs call for: a kernel interrupt gate at each vector
    /// that has a stub, and no descriptor anywhere else.
    pub open spec fn table(self) -> Seq<IdtEntry> {
        Seq::new(
            IDT_ENTRIES as nat,
            |vector: int|
                match self.stub(vector) {
                    Some(handler) => IdtEntry::gate(handler, KERNEL_CODE_SELECTOR, INTERRUPT_GATE),
                    None => IdtEntry::absent(),
                },
        )
    }
}

/// The table of descriptors, indexed by vector.
pub struct Idt {
    entries: [IdtEntry; IDT_ENTRIES],
}

impl Idt {
    /// The descriptors in the order of their vectors.
    pub closed spec fn view(&self) -> Seq<IdtEntry> {
        self.entries@
    }

    /// A table in which no vector has a handler.
    pub fn new() -> (idt: Idt)
        ensures
            idt@.len() == IDT_ENTRIES,
            forall|vector: int| 0 <= vector < IDT_ENTRIES ==> idt@[vector] == IdtEntry::absent(),
    {
        Idt { entries: [IdtEntry::new(); IDT_ENTRIES] }
    }

    /// Writes the descriptor of one vector and leaves every other as it is.
    pub fn install_handler(&mut self, vector: u8, handler: u64, selector: u16, flags: u8)
        ensures
            final(self)@ == old(self)@.update(
                vector as int,
                IdtEntry::gate(handler, selector, flags),
            ),
            final(self)@[vector as int].handler() == handler,
    {
        proof {
            IdtEntry::lemma_gate_keeps_handler(handler, selector, flags);
        }
        let mut entry = IdtEntry::new();
        entry.set_handler(handler, selector, flags);
        self.entries[vector as usize] = entry;
    }

    /// The descriptor of a vector.
    pub fn entry(&self, vector: u8) -> (entry: IdtEntry)
        ensures
            entry == self@[vector as int],
    {
        self.entries[vector as usize]
    }
}

/// Builds the table the kernel runs with: gates for the divide error, the
/// general protection fault, the page fault, the timer and the keyboard, and
/// nothing for any other vector. Loading the table into the processor is
/// left to the caller.
pub fn init_idt(handlers: &InterruptHandlers) -> (idt: Idt)
    ensures
        idt@ == handlers.table(),
{
    let mut idt = Idt::new();
    idt.install_handler(
        DIVIDE_BY_ZERO_VECTOR,
        handlers.divide_by_zero,
        KERNEL_CODE_SELECTOR,
        INTERRUPT_GATE,
    );
    idt.install_handler(
        GENERAL_PROTECTION_FAULT_VECTOR,
        handlers.general_protection_fault,
        KERNEL_CODE_SELECTOR,
        INTERRUPT_GATE,
    );
    idt.install_handler(
        PAGE_FAULT_VECTOR,
        handlers.page_fault,
        KERNEL_CODE_SELECTOR,
        INTERRUPT_GATE,
    );
    idt.install_handler(TIMER_VECTOR, handlers.timer, KERNEL_CODE_SELECTOR, INTERRUPT_GATE);
    idt.install_handler(KEYBOARD_VECTOR, handlers.keyboard, KERNEL_CODE_SELECTOR, INTERRUPT_GATE);
    assert(idt@ =~= handlers.table());
    idt
}

} // verus!
