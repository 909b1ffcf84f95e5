//! In-memory model of the memory-mapped register files.
//!
//! Every driver operation in this crate acts on one of these structs and
//! states in its contract exactly which bits it changes. The fields are
//! public on purpose: hardware mutates these registers asynchronously, and a
//! harness standing in for the hardware must be able to read any register
//! back and to flip the bits the hardware would flip (completion status,
//! descriptor write-back). A runtime for the real chip keeps each field in
//! correspondence with the memory-mapped register of the same name.

use vstd::prelude::*;

verus! {

/// One DMA channel's register group: separate configuration, linked-list and
/// peripheral-select registers for each direction, plus the shared
/// interrupt-status word.
pub struct ChannelRegs {
    /// Receive-direction configuration (reset bit 0, mem-to-mem bit 4).
    pub in_conf0: u32,
    /// Transmit-direction configuration (reset bit 0).
    pub out_conf0: u32,
    /// Receive-direction linked-list register: chain head address in the low
    /// 20 bits, enable in bit 22.
    pub in_link: u32,
    /// Transmit-direction linked-list register: chain head address in the low
    /// 20 bits, enable in bit 22.
    pub out_link: u32,
    /// Receive-direction peripheral selector.
    pub in_peri_sel: u32,
    /// Transmit-direction peripheral selector.
    pub out_peri_sel: u32,
    /// Interrupt status: receive-done in bit 0, transmit end-of-frame in
    /// bit 4. Written by hardware, only read by the driver.
    pub int_st: u32,
}

impl ChannelRegs {
    /// A channel register group with every register cleared.
    pub fn new() -> (r: ChannelRegs)
        ensures
            r == ChannelRegs::zeroed(),
    {
        ChannelRegs {
            in_conf0: 0,
            out_conf0: 0,
            in_link: 0,
            out_link: 0,
            in_peri_sel: 0,
            out_peri_sel: 0,
            int_st: 0,
        }
    }

    /// The all-zero register group.
    pub open spec fn zeroed() -> ChannelRegs {
        ChannelRegs {
            in_conf0: 0,
            out_conf0: 0,
            in_link: 0,
            out_link: 0,
            in_peri_sel: 0,
            out_peri_sel: 0,
            int_st: 0,
        }
    }
}

/// The DMA engine's register block: one register group per hardware channel.
pub struct DmaRegisters {
    /// Channel 0's register group.
    pub ch0: ChannelRegs,
    /// Channel 1's register group.
    pub ch1: ChannelRegs,
    /// Channel 2's register group.
    pub ch2: ChannelRegs,
}

impl DmaRegisters {
    /// A DMA register block with every register cleared.
    pub fn new() -> (r: DmaRegisters)
        ensures
            r.ch0 == ChannelRegs::zeroed(),
            r.ch1 == ChannelRegs::zeroed(),
            r.ch2 == ChannelRegs::zeroed(),
    {
        DmaRegisters { ch0: ChannelRegs::new(), ch1: ChannelRegs::new(), ch2: ChannelRegs::new() }
    }
}

/// Number of package pins the GPIO matrix serves.
pub const PIN_COUNT: usize = 22;

/// The GPIO and IO-MUX register file.
///
/// The shared registers (`out`, `out_en`, `input`) hold one bit per pin; the
/// per-pin registers (`io_mux`, `out_cfg`) hold one 32-bit word per pin,
/// indexed by pin number.
pub struct GpioRegisters {
    /// Output level, one bit per pin. The hardware exposes set/clear
    /// companion registers; the model records their net effect here.
    pub out: u32,
    /// Output driver enable, one bit per pin, with set/clear companions
    /// likewise folded in.
    pub out_en: u32,
    /// Input level, one bit per pin. Written by hardware, only read by the
    /// driver.
    pub input: u32,
    /// Per-pin IO-MUX word: pull-down bit 7, pull-up bit 8, input enable
    /// bit 9, drive strength bits 10..12, function select bits 12..14.
    pub io_mux: Vec<u32>,
    /// Per-pin output configuration word: output-signal selector in the low
    /// 8 bits.
    pub out_cfg: Vec<u32>,
}

impl GpioRegisters {
    /// The register file is complete: one IO-MUX word and one output
    /// configuration word for each pin.
    pub open spec fn wf(self) -> bool {
        &&& self.io_mux.len() == PIN_COUNT
        &&& self.out_cfg.len() == PIN_COUNT
    }

    /// A GPIO register file with every register cleared.
    pub fn new() -> (r: GpioRegisters)
        ensures
            r.wf(),
            r.out == 0u32,
            r.out_en == 0u32,
            r.input == 0u32,
            forall|i: int| 0 <= i < PIN_COUNT ==> r.io_mux[i] == 0u32,
            forall|i: int| 0 <= i < PIN_COUNT ==> r.out_cfg[i] == 0u32,
    {
        let mut io_mux: Vec<u32> = Vec::new();
        let mut out_cfg: Vec<u32> = Vec::new();
        let mut i: usize = 0;
        while i < PIN_COUNT
            invariant
                i <= PIN_COUNT,
                io_mux.len() == i,
                out_cfg.len() == i,
                forall|j: int| 0 <= j < i ==> io_mux[j] == 0u32,
                forall|j: int| 0 <= j < i ==> out_cfg[j] == 0u32,
            decreases PIN_COUNT - i,
        {
            io_mux.push(0);
            out_cfg.push(0);
            i = i + 1;
        }
        GpioRegisters { out: 0, out_en: 0, input: 0, io_mux, out_cfg }
    }
}

} // verus!
