//! The pair of programmable interrupt controllers: the commands that remap
//! them and the signals that acknowledge an interrupt. Nothing here touches a
//! port; each routine returns the writes for the caller to carry out in order.

use vstd::prelude::*;

verus! {

/// Command port of the master controller.
pub const PIC_MASTER_COMMAND: u16 = 0x20;

/// Data port of the master controller.
pub const PIC_MASTER_DATA: u16 = 0x21;

/// Command port of the slave controller.
pub const PIC_SLAVE_COMMAND: u16 = 0xA0;

/// Data port of the slave controller.
pub const PIC_SLAVE_DATA: u16 = 0xA1;

/// First command word: start initialisation, in cascade mode, with a fourth
/// word to follow.
pub const ICW1_INIT: u8 = 0x11;

/// Third command word of the master: a slave hangs on line 2.
pub const ICW3_SLAVE_ON_LINE_2: u8 = 0x04;

/// Third command word of the slave: its cascade identity.
pub const ICW3_CASCADE_IDENTITY: u8 = 0x02;

/// Fourth command word: 8086 mode.
pub const ICW4_8086: u8 = 0x01;

/// Mask that lets every line through.
pub const UNMASK_ALL: u8 = 0x00;

/// The end-of-interrupt command.
pub const PIC_EOI: u8 = 0x20;

/// Vector that line 0 of the master is mapped to.
pub const MASTER_OFFSET: u8 = 32;

/// Vector that line 0 of the slave is mapped to.
pub const SLAVE_OFFSET: u8 = 40;

/// Number of lines of one controller; requests from this number on come
/// through the slave.
pub const LINES_PER_PIC: u64 = 8;

/// Number of writes in the remapping sequence.
pub const REMAP_LENGTH: usize = 10;

/// One byte to send to one port.
#[derive(Clone, Copy, Debug, PartialEq, Eq, Structural)]
pub struct PortWrite {
    pub port: u16,
    pub value: u8,
}

/// The signal that tells the master controller an interrupt is done.
pub open spec fn master_eoi() -> PortWrite {
    PortWrite { port: PIC_MASTER_COMMAND, value: PIC_EOI }
}

/// The signal that tells the slave controller an interrupt is done.
pub open spec fn slave_eoi() -> PortWrite {
    PortWrite { port: PIC_SLAVE_COMMAND, value: PIC_EOI }
}

/// The writes that initialise both controllers: the start command to each,
/// then each one's vector offset, the wiring of the cascade, the operating
/// mode, and last the masks that open every line.
pub open spec fn remap_sequence(master_offset: u8, slave_offset: u8) -> Seq<PortWrite> {
    seq![
        PortWrite { port: PIC_MASTER_COMMAND, value: ICW1_INIT },
        PortWrite { port: PIC_SLAVE_COMMAND, value: ICW1_INIT },
        PortWrite { port: PIC_MASTER_DATA, value: master_offset },
        PortWrite { port: PIC_SLAVE_DATA, value: slave_offset },
        PortWrite { port: PIC_MASTER_DATA, value: ICW3_SLAVE_ON_LINE_2 },
        PortWrite { port: PIC_SLAVE_DATA, value: ICW3_CASCADE_IDENTITY },
        PortWrite { port: PIC_MASTER_DATA, value: ICW4_8086 },
        PortWrite { port: PIC_SLAVE_DATA, value: ICW4_8086 },
        PortWrite { port: PIC_MASTER_DATA, value: UNMASK_ALL },
        PortWrite { port: PIC_SLAVE_DATA, value: UNMASK_ALL },
    ]
}

/// The writes owed at the end of the interrupt request `irq`, in the order
/// they are sent: one to the master, and before it one to the slave if the
/// request came through the slave.
pub open spec fn eoi_sequence(irq: int) -> Seq<PortWrite> {
    if irq >= LINES_PER_PIC {
        seq![slave_eoi(), master_eoi()]
    } else {
        seq![master_eoi()]
    }
}

/// The writes that remap the controllers to the given vector offsets.
pub fn remap(master_offset: u8, slave_offset: u8) -> (writes: [PortWrite; REMAP_LENGTH])
    ensures
        writes@ == remap_sequence(master_offset, slave_offset),
{
    let writes: [PortWrite; REMAP_LENGTH] = [
        PortWrite { port: PIC_MASTER_COMMAND, value: ICW1_INIT },
        PortWrite { port: PIC_SLAVE_COMMAND, value: ICW1_INIT },
        PortWrite { port: PIC_MASTER_DATA, value: master_offset },
        PortWrite { port: PIC_SLAVE_DATA, value: slave_offset },
        PortWrite { port: PIC_MASTER_DATA, value: ICW3_SLAVE_ON_LINE_2 },
        PortWrite { port: PIC_SLAVE_DATA, value: ICW3_CASCADE_IDENTITY },
        PortWrite { port: PIC_MASTER_DATA, value: ICW4_8086 },
        PortWrite { port: PIC_SLAVE_DATA, value: ICW4_8086 },
        PortWrite { port: PIC_MASTER_DATA, value: UNMASK_ALL },
        PortWrite { port: PIC_SLAVE_DATA, value: UNMASK_ALL },
    ];
    assert(writes@ =~= remap_sequence(master_offset, slave_offset));
    writes
}

/// The writes that bring the controllers into the state the kernel runs
/// with: requests 0 to 7 on vectors 32 to 39, requests 8 to 15 on vectors 40
/// to 47.
pub fn init_pic() -> (writes: [PortWrite; REMAP_LENGTH])
    ensures
        writes@ == remap_sequence(MASTER_OFFSET, SLAVE_OFFSET),
{
    remap(MASTER_OFFSET, SLAVE_OFFSET)
}

/// The end-of-interrupt signals for one request.
#[derive(Clone, Copy, Debug, PartialEq, Eq, Structural)]
pub struct EndOfInterrupt {
    /// The signal to the slave, sent first, if the slave is owed one.
    pub slave: Option<PortWrite>,
    /// The signal to the master.
    pub master: PortWrite,
}

impl EndOfInterrupt {
    /// The writes in the order they are sent.
    pub open spec fn view(&self) -> Seq<PortWrite> {
        match self.slave {
            Some(first) => seq![first, self.master],
            None => seq![self.master],
        }
    }

    /// The signals owed at the end of the interrupt request `irq`.
    pub open spec fn owed(irq: int) -> EndOfInterrupt {
        EndOfInterrupt {
            slave: if irq >= LINES_PER_PIC {
                Some(slave_eoi())
            } else {
                None
            },
            master: master_eoi(),
        }
    }
}

/// The signals that acknowledge the interrupt request `irq`.
pub fn acknowledge(irq: u64) -> (eoi: EndOfInterrupt)
    ensures
        eoi == EndOfInterrupt::owed(irq as int),
        eoi@ == eoi_sequence(irq as int),
{
    let slave = if irq >= LINES_PER_PIC {
        Some(PortWrite { port: PIC_SLAVE_COMMAND, value: PIC_EOI })
    } else {
        None
    };
    let master = PortWrite { port: PIC_MASTER_COMMAND, value: PIC_EOI };
    let eoi = EndOfInterrupt { slave, master };
    assert(eoi@ =~= eoi_sequence(irq as int));
    eoi
}

/// Whatever the request, acknowledging it signals the master exactly once,
/// as the last write. A request that came through the slave signals the
/// slave exactly once as well, before the master; any other request sends
/// nothing to the slave.
pub proof fn lemma_acknowledged_once(irq: int)
    ensures
        EndOfInterrupt::owed(irq)@ == eoi_sequence(irq),
        forall|i: int|
            0 <= i < eoi_sequence(irq).len() ==> (#[trigger] eoi_sequence(irq)[i] == master_eoi()
                <==> i == eoi_sequence(irq).len() - 1),
        irq >= LINES_PER_PIC ==> forall|i: int|
            0 <= i < eoi_sequence(irq).len() ==> (#[trigger] eoi_sequence(irq)[i] == slave_eoi()
                <==> i == 0),
        irq < LINES_PER_PIC ==> forall|i: int|
            0 <= i < eoi_sequence(irq).len() ==> (#[trigger] eoi_sequence(irq)[i]).port
                != PIC_SLAVE_COMMAND,
        eoi_sequence(irq).len() == if irq >= LINES_PER_PIC {
            2int
        } else {
            1int
        },
{
}

} // verus!
