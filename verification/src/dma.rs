//! Driver for the scatter-gather DMA engine.
//!
//! A transfer is described to the hardware as a linked list of [`ListItem`]
//! nodes, each covering one contiguous buffer segment. A [`Channel`] names
//! one of the engine's hardware channels and carries the register-level
//! operations for its two directions; a [`DMAPipe`] composes a transmit and
//! a receive channel (or one channel looped back on itself) to run a
//! transfer end to end. Exclusive use of a physical channel is enforced by
//! [`ChannelToken`] values that a [`ChannelRegistry`] hands out at most once
//! per channel.
//!
//! Every register access goes through [`crate::regs::DmaRegisters`], the
//! explicit model of the engine's register block, and each operation's
//! contract pins down the exact bits written.

use vstd::prelude::*;

use crate::regs::{ChannelRegs, DmaRegisters};

verus! {

/// Errors the driver detects before touching any register.
#[derive(Clone, Copy, PartialEq, Eq, Structural, Debug)]
pub enum DmaError {
    /// A buffer longer than a descriptor's 12-bit capacity field can record.
    BufferTooLarge,
    /// The transmit and receive roles of a peripheral pipe name the same
    /// physical channel.
    ChannelConflict,
    /// The pipe was armed and neither direction has been observed complete.
    PipeActive,
}

/// Owner/continuation flag (top bit of the control word): set by software at
/// creation, meaning the node has not completed and may be followed.
pub open spec fn owner_flag(state: u32) -> bool {
    state & 0x8000_0000u32 != 0
}

/// End-of-list flag (second-highest bit): set by default, cleared the moment
/// a successor is linked.
pub open spec fn eol_flag(state: u32) -> bool {
    state & 0x4000_0000u32 != 0
}

/// The node's 12-bit capacity field: the most bytes its buffer may hold.
pub open spec fn capacity_field(state: u32) -> u32 {
    (state >> 12) & 0xFFFu32
}

/// The node's 12-bit transferred-length field.
pub open spec fn length_field(state: u32) -> u32 {
    state & 0xFFFu32
}

/// The top 4 bits of the control word, re-interpreted by the hardware as an
/// error code once the node's transfer has completed.
pub open spec fn error_code(state: u32) -> u32 {
    state >> 28
}

/// One node of a hardware-walked DMA transfer list: a packed control word,
/// the address of the buffer segment it covers, and the address of its
/// successor.
///
/// The fields are public because this memory is shared with the hardware:
/// the engine overwrites the control word as it walks the chain, and a
/// harness standing in for the engine must be able to do the same. The
/// methods keep all bit packing in one place; [`ListItem::hw_complete`]
/// models the hardware's own write-back.
///
/// A node must not move in memory, and must outlive the transfer, while the
/// hardware may still read it; and a chain must be acyclic, or the engine
/// walks it forever. Neither obligation is checked here.
pub struct ListItem {
    /// Packed control word: owner flag, end-of-list flag, capacity,
    /// transferred length; error code in the top 4 bits after completion.
    pub state: u32,
    /// Address of the buffer segment this node describes. The node borrows
    /// the buffer; it does not own or copy it.
    pub buffer_ptr: u32,
    /// Address of the successor node; ignored while the end-of-list flag is
    /// set.
    pub next_item_ptr: u32,
}

impl ListItem {
    /// Create a terminal, empty node: owner and end-of-list flags set,
    /// capacity and length zero, no buffer, no successor.
    pub fn new() -> (r: ListItem)
        ensures
            r.state == 0xC000_0000u32,
            r.buffer_ptr == 0u32,
            r.next_item_ptr == 0u32,
            owner_flag(r.state),
            eol_flag(r.state),
            capacity_field(r.state) == 0u32,
            length_field(r.state) == 0u32,
    {
        proof {
            assert(0b11u32 << 30 == 0xC000_0000u32 && owner_flag(0xC000_0000u32) && eol_flag(
                0xC000_0000u32,
            ) && capacity_field(0xC000_0000u32) == 0u32 && length_field(0xC000_0000u32)
                == 0u32) by (bit_vector);
        }
        ListItem { state: 0b11u32 << 30, buffer_ptr: 0, next_item_ptr: 0 }
    }

    /// Bind a buffer segment to this node: record its address and set both
    /// the capacity and the transferred-length field to `len`, so a
    /// hardware traversal moves exactly `len` bytes through this node.
    ///
    /// A length that does not fit the 12-bit capacity field is rejected
    /// before anything is written. Calling this again overwrites the prior
    /// binding; the flags, the error bits and the successor are untouched
    /// either way.
    pub fn set_buffer(&mut self, buffer_addr: u32, len: u32) -> (r: Result<(), DmaError>)
        ensures
            len < 4096 ==> {
                &&& r == Ok::<(), DmaError>(())
                &&& final(self).state == ((old(self).state & 0xFF00_0000u32) | (len << 12) | len)
                &&& capacity_field(final(self).state) == len
                &&& length_field(final(self).state) == len
                &&& owner_flag(final(self).state) == owner_flag(old(self).state)
                &&& eol_flag(final(self).state) == eol_flag(old(self).state)
                &&& error_code(final(self).state) == error_code(old(self).state)
                &&& final(self).buffer_ptr == buffer_addr
                &&& final(self).next_item_ptr == old(self).next_item_ptr
            },
            len >= 4096 ==> {
                &&& r == Err::<(), DmaError>(DmaError::BufferTooLarge)
                &&& *final(self) == *old(self)
            },
    {
        if len >= 4096 {
            return Err(DmaError::BufferTooLarge);
        }
        let ghost s: u32 = self.state;
        let new_state: u32 = (self.state & 0xFF00_0000u32) | (len << 12) | len;
        proof {
            assert(capacity_field(new_state) == len && length_field(new_state) == len
                && owner_flag(new_state) == owner_flag(s) && eol_flag(new_state) == eol_flag(s)
                && error_code(new_state) == error_code(s)) by (bit_vector)
                requires
                    len < 4096,
                    new_state == ((s & 0xFF00_0000u32) | (len << 12) | len),
            ;
        }
        self.state = new_state;
        self.buffer_ptr = buffer_addr;
        Ok(())
    }

    /// Link a successor: clear the end-of-list flag and record the
    /// successor's address. The node is no longer terminal; once its own
    /// transfer completes, the hardware continues to the successor. Any
    /// address value is accepted, zero included.
    pub fn set_next(&mut self, next_addr: u32)
        ensures
            final(self).state == (old(self).state & !(1u32 << 30)),
            !eol_flag(final(self).state),
            owner_flag(final(self).state) == owner_flag(old(self).state),
            capacity_field(final(self).state) == capacity_field(old(self).state),
            length_field(final(self).state) == length_field(old(self).state),
            final(self).next_item_ptr == next_addr,
            final(self).buffer_ptr == old(self).buffer_ptr,
    {
        let ghost s: u32 = self.state;
        let new_state: u32 = self.state & !(1u32 << 30);
        proof {
            assert(!eol_flag(new_state) && owner_flag(new_state) == owner_flag(s)
                && capacity_field(new_state) == capacity_field(s) && length_field(new_state)
                == length_field(s)) by (bit_vector)
                requires
                    new_state == (s & !(1u32 << 30)),
            ;
        }
        self.state = new_state;
        self.next_item_ptr = next_addr;
    }

    /// Whether the top 4 bits of the control word hold a nonzero code.
    ///
    /// Only meaningful after the owning transfer direction reports
    /// completion: until then these bits still hold the software-set owner
    /// and end-of-list flags, so a node the hardware has not written back —
    /// a freshly created one included — reads as nonzero here.
    pub fn has_error(&self) -> (r: bool)
        ensures
            r == (error_code(self.state) != 0),
    {
        (self.state >> 28) != 0
    }

    /// The capacity recorded in the control word.
    pub fn capacity(&self) -> (r: u32)
        ensures
            r == capacity_field(self.state),
    {
        (self.state >> 12) & 0xFFF
    }

    /// The transferred length recorded in the control word.
    pub fn length(&self) -> (r: u32)
        ensures
            r == length_field(self.state),
    {
        self.state & 0xFFF
    }

    /// Whether the end-of-list flag is still set, i.e. no successor has
    /// been linked.
    pub fn is_terminal(&self) -> (r: bool)
        ensures
            r == eol_flag(self.state),
    {
        (self.state & 0x4000_0000) != 0
    }

    /// The successor address recorded in the node.
    pub fn next_address(&self) -> (r: u32)
        ensures
            r == self.next_item_ptr,
    {
        self.next_item_ptr
    }

    /// The buffer address recorded in the node.
    pub fn buffer_address(&self) -> (r: u32)
        ensures
            r == self.buffer_ptr,
    {
        self.buffer_ptr
    }

    /// Models the hardware's write-back at the end of this node's transfer:
    /// the engine replaces the control word, recording the transferred
    /// length in the low 12 bits, the capacity unchanged, and its error
    /// code — zero on success — in the top 4 bits, which also clears the
    /// software owner and end-of-list marks. A harness standing in for the
    /// hardware calls this; the driver itself never does.
    pub fn hw_complete(&mut self, transferred: u32, error: u32)
        requires
            transferred < 4096,
            error < 16,
        ensures
            final(self).state == ((error << 28) | (capacity_field(old(self).state) << 12)
                | transferred),
            error_code(final(self).state) == error,
            capacity_field(final(self).state) == capacity_field(old(self).state),
            length_field(final(self).state) == transferred,
            final(self).buffer_ptr == old(self).buffer_ptr,
            final(self).next_item_ptr == old(self).next_item_ptr,
    {
        let ghost s: u32 = self.state;
        let cap: u32 = (self.state >> 12) & 0xFFF;
        let new_state: u32 = (error << 28) | (cap << 12) | transferred;
        proof {
            assert(error_code(new_state) == error && capacity_field(new_state) == capacity_field(s)
                && length_field(new_state) == transferred) by (bit_vector)
                requires
                    transferred < 4096,
                    error < 16,
                    cap == ((s >> 12) & 0xFFFu32),
                    new_state == ((error << 28) | (cap << 12) | transferred),
            ;
        }
        self.state = new_state;
    }
}

/// Peripheral a channel direction can be routed to.
#[derive(Clone, Copy, PartialEq, Eq, Structural, Debug)]
pub enum Peripheral {
    /// SPI peripheral.
    SPI2,
    /// UART0 / UART1 peripheral.
    UHCI0,
    /// I2S peripheral.
    I2S,
    /// AES accelerator.
    AES,
    /// SHA accelerator.
    SHA,
    /// ADC peripheral.
    ADC,
}

/// The numeric selector the hardware's peripheral mux uses for each
/// peripheral.
pub open spec fn peripheral_code(p: Peripheral) -> u32 {
    match p {
        Peripheral::SPI2 => 0,
        Peripheral::UHCI0 => 2,
        Peripheral::I2S => 3,
        Peripheral::AES => 6,
        Peripheral::SHA => 7,
        Peripheral::ADC => 8,
    }
}

impl Peripheral {
    /// The selector value written into a peripheral mux register.
    pub fn code(&self) -> (r: u32)
        ensures
            r == peripheral_code(*self),
    {
        match self {
            Peripheral::SPI2 => 0,
            Peripheral::UHCI0 => 2,
            Peripheral::I2S => 3,
            Peripheral::AES => 6,
            Peripheral::SHA => 7,
            Peripheral::ADC => 8,
        }
    }
}

/// One of the engine's hardware DMA channels. A `Channel` value only names
/// which register group to touch; it holds no state of its own, and
/// exclusive use of the underlying hardware is the [`ChannelToken`]'s job.
#[derive(Clone, Copy, PartialEq, Eq, Structural, Debug)]
pub enum Channel {
    /// Channel 0.
    Channel0,
    /// Channel 1.
    Channel1,
    /// Channel 2.
    Channel2,
}

/// The register group of channel `c` within the register block.
pub open spec fn ch_regs(dma: DmaRegisters, c: Channel) -> ChannelRegs {
    match c {
        Channel::Channel0 => dma.ch0,
        Channel::Channel1 => dma.ch1,
        Channel::Channel2 => dma.ch2,
    }
}

/// Net effect on a configuration register of pulsing its self-clearing
/// reset bit: the bit is written set, then written clear.
pub open spec fn reset_pulse(conf0: u32) -> u32 {
    (conf0 | 1u32) & !1u32
}

/// Net effect of programming a chain head: the address's low 20 bits
/// replace the link register's low 20 bits; every other bit — the enable
/// bit among them — keeps its value.
pub open spec fn link_with_head(link: u32, addr: u32) -> u32 {
    (link & !0xFFFFFu32) | (addr & 0xFFFFFu32)
}

/// Pulsing a reset bit is idempotent: a second pulse leaves the
/// configuration register exactly as the first left it.
pub proof fn lemma_reset_idempotent(conf0: u32)
    ensures
        reset_pulse(reset_pulse(conf0)) == reset_pulse(conf0),
{
    assert(reset_pulse(reset_pulse(conf0)) == reset_pulse(conf0)) by (bit_vector);
}

/// Reading a link register back after programming a chain head recovers the
/// low 20 bits of the programmed address unchanged, while the bits above
/// them — the enable bit among them — are whatever they were before.
pub proof fn lemma_set_start_readback(link: u32, addr: u32)
    ensures
        link_with_head(link, addr) & 0xFFFFFu32 == addr & 0xFFFFFu32,
        link_with_head(link, addr) >> 20 == link >> 20,
{
    assert(((link & !0xFFFFFu32) | (addr & 0xFFFFFu32)) & 0xFFFFFu32 == addr & 0xFFFFFu32 && ((link
        & !0xFFFFFu32) | (addr & 0xFFFFFu32)) >> 20 == link >> 20) by (bit_vector);
}

/// The value a configuration register holds while its reset bit is
/// asserted: the first write of a reset pulse.
pub fn reset_set_value(conf0: u32) -> (r: u32)
    ensures
        r == (conf0 | 1u32),
{
    conf0 | 0b1
}

/// The value that deasserts a configuration register's reset bit: the
/// second write of a reset pulse.
pub fn reset_clear_value(conf0: u32) -> (r: u32)
    ensures
        r == (conf0 & !1u32),
{
    conf0 & !0b1u32
}

/// The link-register value with a chain head programmed into the low 20
/// bits and every other bit kept.
pub fn link_head_value(link: u32, addr: u32) -> (r: u32)
    ensures
        r == link_with_head(link, addr),
{
    (link & !0xFFFFFu32) | (addr & 0xFFFFF)
}

/// The link-register value with the enable bit (bit 22) set and every
/// other bit kept.
pub fn link_enable_value(link: u32) -> (r: u32)
    ensures
        r == (link | (1u32 << 22)),
{
    link | (1u32 << 22)
}

/// The receive-configuration value with the loopback bit (bit 4) set and
/// every other bit kept.
pub fn loopback_conf_value(in_conf0: u32) -> (r: u32)
    ensures
        r == (in_conf0 | (1u32 << 4)),
{
    in_conf0 | (0b1u32 << 4)
}

/// Pulse a configuration register's reset bit: write it set, then write it
/// clear, with no access to the register in between.
fn pulse_reset_bit(conf0: &mut u32)
    ensures
        *final(conf0) == reset_pulse(*old(conf0)),
{
    let set: u32 = reset_set_value(*conf0);
    *conf0 = set;
    let cleared: u32 = reset_clear_value(*conf0);
    *conf0 = cleared;
}

/// Replace a link register's low 20 bits with the chain head's address,
/// read-modify-write, leaving the other bits as they were.
fn program_head(link: &mut u32, addr: u32)
    ensures
        *final(link) == link_with_head(*old(link), addr),
{
    let v: u32 = link_head_value(*link, addr);
    *link = v;
}

/// Set a link register's enable bit (bit 22), read-modify-write.
fn set_enable_bit(link: &mut u32)
    ensures
        *final(link) == (*old(link) | (1u32 << 22)),
{
    let v: u32 = link_enable_value(*link);
    *link = v;
}

impl Channel {
    /// Reset the transmit side of the channel: pulse its configuration
    /// register's self-clearing reset bit, set then clear, in that order.
    pub fn tx_reset(&self, dma: &mut DmaRegisters)
        ensures
            (ch_regs(*final(dma), *self) == ChannelRegs {
                out_conf0: reset_pulse(ch_regs(*old(dma), *self).out_conf0),
                ..ch_regs(*old(dma), *self)
            }),
            forall|c: Channel|
                c != *self ==> #[trigger] ch_regs(*final(dma), c) == ch_regs(*old(dma), c),
    {
        match self {
            Channel::Channel0 => pulse_reset_bit(&mut dma.ch0.out_conf0),
            Channel::Channel1 => pulse_reset_bit(&mut dma.ch1.out_conf0),
            Channel::Channel2 => pulse_reset_bit(&mut dma.ch2.out_conf0),
        }
    }

    /// Reset the receive side of the channel, as [`Channel::tx_reset`] does
    /// for the transmit side.
    pub fn rx_reset(&self, dma: &mut DmaRegisters)
        ensures
            (ch_regs(*final(dma), *self) == ChannelRegs {
                in_conf0: reset_pulse(ch_regs(*old(dma), *self).in_conf0),
                ..ch_regs(*old(dma), *self)
            }),
            forall|c: Channel|
                c != *self ==> #[trigger] ch_regs(*final(dma), c) == ch_regs(*old(dma), c),
    {
        match self {
            Channel::Channel0 => pulse_reset_bit(&mut dma.ch0.in_conf0),
            Channel::Channel1 => pulse_reset_bit(&mut dma.ch1.in_conf0),
            Channel::Channel2 => pulse_reset_bit(&mut dma.ch2.in_conf0),
        }
    }

    /// Program the transmit chain head: write the low 20 bits of the head
    /// node's address into the transmit link register, preserving the other
    /// bits.
    pub fn set_tx_start(&self, dma: &mut DmaRegisters, list_addr: u32)
        ensures
            (ch_regs(*final(dma), *self) == ChannelRegs {
                out_link: link_with_head(ch_regs(*old(dma), *self).out_link, list_addr),
                ..ch_regs(*old(dma), *self)
            }),
            forall|c: Channel|
                c != *self ==> #[trigger] ch_regs(*final(dma), c) == ch_regs(*old(dma), c),
    {
        match self {
            Channel::Channel0 => program_head(&mut dma.ch0.out_link, list_addr),
            Channel::Channel1 => program_head(&mut dma.ch1.out_link, list_addr),
            Channel::Channel2 => program_head(&mut dma.ch2.out_link, list_addr),
        }
    }

    /// Program the receive chain head, as [`Channel::set_tx_start`] does
    /// for the transmit side.
    pub fn set_rx_start(&self, dma: &mut DmaRegisters, list_addr: u32)
        ensures
            (ch_regs(*final(dma), *self) == ChannelRegs {
                in_link: link_with_head(ch_regs(*old(dma), *self).in_link, list_addr),
                ..ch_regs(*old(dma), *self)
            }),
            forall|c: Channel|
                c != *self ==> #[trigger] ch_regs(*final(dma), c) == ch_regs(*old(dma), c),
    {
        match self {
            Channel::Channel0 => program_head(&mut dma.ch0.in_link, list_addr),
            Channel::Channel1 => program_head(&mut dma.ch1.in_link, list_addr),
            Channel::Channel2 => program_head(&mut dma.ch2.in_link, list_addr),
        }
    }

    /// Select the peripheral the transmit side feeds.
    pub fn set_tx_peripheral(&self, dma: &mut DmaRegisters, peripheral: Peripheral)
        ensures
            (ch_regs(*final(dma), *self) == ChannelRegs {
                out_peri_sel: peripheral_code(peripheral),
                ..ch_regs(*old(dma), *self)
            }),
            forall|c: Channel|
                c != *self ==> #[trigger] ch_regs(*final(dma), c) == ch_regs(*old(dma), c),
    {
        let code = peripheral.code();
        match self {
            Channel::Channel0 => dma.ch0.out_peri_sel = code,
            Channel::Channel1 => dma.ch1.out_peri_sel = code,
            Channel::Channel2 => dma.ch2.out_peri_sel = code,
        }
    }

    /// Select the peripheral the receive side drains.
    pub fn set_rx_peripheral(&self, dma: &mut DmaRegisters, peripheral: Peripheral)
        ensures
            (ch_regs(*final(dma), *self) == ChannelRegs {
                in_peri_sel: peripheral_code(peripheral),
                ..ch_regs(*old(dma), *self)
            }),
            forall|c: Channel|
                c != *self ==> #[trigger] ch_regs(*final(dma), c) == ch_regs(*old(dma), c),
    {
        let code = peripheral.code();
        match self {
            Channel::Channel0 => dma.ch0.in_peri_sel = code,
            Channel::Channel1 => dma.ch1.in_peri_sel = code,
            Channel::Channel2 => dma.ch2.in_peri_sel = code,
        }
    }

    /// Enable the receive side: set bit 22 of its link register,
    /// read-modify-write. Must come after the chain head is programmed, or
    /// the channel is armed against a stale or zero address.
    pub fn rx_enable(&self, dma: &mut DmaRegisters)
        ensures
            (ch_regs(*final(dma), *self) == ChannelRegs {
                in_link: ch_regs(*old(dma), *self).in_link | (1u32 << 22),
                ..ch_regs(*old(dma), *self)
            }),
            forall|c: Channel|
                c != *self ==> #[trigger] ch_regs(*final(dma), c) == ch_regs(*old(dma), c),
    {
        match self {
            Channel::Channel0 => set_enable_bit(&mut dma.ch0.in_link),
            Channel::Channel1 => set_enable_bit(&mut dma.ch1.in_link),
            Channel::Channel2 => set_enable_bit(&mut dma.ch2.in_link),
        }
    }

    /// Enable the transmit side, as [`Channel::rx_enable`] does for the
    /// receive side.
    pub fn tx_enable(&self, dma: &mut DmaRegisters)
        ensures
            (ch_regs(*final(dma), *self) == ChannelRegs {
                out_link: ch_regs(*old(dma), *self).out_link | (1u32 << 22),
                ..ch_regs(*old(dma), *self)
            }),
            forall|c: Channel|
                c != *self ==> #[trigger] ch_regs(*final(dma), c) == ch_regs(*old(dma), c),
    {
        match self {
            Channel::Channel0 => set_enable_bit(&mut dma.ch0.out_link),
            Channel::Channel1 => set_enable_bit(&mut dma.ch1.out_link),
            Channel::Channel2 => set_enable_bit(&mut dma.ch2.out_link),
        }
    }

    /// Route the channel's own transmit output back into its receive input
    /// (bit 4 of the receive configuration register), for memory-to-memory
    /// copies. The peripheral mux is not touched.
    pub fn mem_to_mem(&self, dma: &mut DmaRegisters)
        ensures
            (ch_regs(*final(dma), *self) == ChannelRegs {
                in_conf0: ch_regs(*old(dma), *self).in_conf0 | (1u32 << 4),
                ..ch_regs(*old(dma), *self)
            }),
            forall|c: Channel|
                c != *self ==> #[trigger] ch_regs(*final(dma), c) == ch_regs(*old(dma), c),
    {
        match self {
            Channel::Channel0 => dma.ch0.in_conf0 = loopback_conf_value(dma.ch0.in_conf0),
            Channel::Channel1 => dma.ch1.in_conf0 = loopback_conf_value(dma.ch1.in_conf0),
            Channel::Channel2 => dma.ch2.in_conf0 = loopback_conf_value(dma.ch2.in_conf0),
        }
    }
}

/// Interrupt-status bit: the receive direction finished its descriptor
/// chain (bit 0 of the channel's status word).
pub const IN_DONE_BIT: u32 = 0x1;

/// Interrupt-status bit: the transmit direction reached end-of-frame (bit 4
/// of the channel's status word).
pub const OUT_EOF_BIT: u32 = 0x10;

/// Exclusive right to drive one physical DMA channel.
///
/// Tokens come only from a [`ChannelRegistry`], which hands out the token
/// for each channel at most once; a token cannot be copied. A pipe consumes
/// its tokens by value, so at most one live pipe can exist per channel of a
/// register block — provided a single registry guards that block.
pub struct ChannelToken {
    ch: Channel,
}

impl ChannelToken {
    /// The channel this token is the right to.
    pub closed spec fn spec_channel(self) -> Channel {
        self.ch
    }

    /// The channel this token is the right to.
    pub fn channel(&self) -> (r: Channel)
        ensures
            r == self.spec_channel(),
    {
        self.ch
    }
}

/// Hands out the [`ChannelToken`] for each physical channel at most once.
///
/// Create exactly one registry per DMA register block — on real hardware,
/// one per machine — and route every channel acquisition through it.
pub struct ChannelRegistry {
    taken0: bool,
    taken1: bool,
    taken2: bool,
}

impl ChannelRegistry {
    /// Whether the token for channel `c` has already been handed out.
    pub closed spec fn spec_taken(self, c: Channel) -> bool {
        match c {
            Channel::Channel0 => self.taken0,
            Channel::Channel1 => self.taken1,
            Channel::Channel2 => self.taken2,
        }
    }

    /// A registry with every channel still available.
    pub fn new() -> (r: ChannelRegistry)
        ensures
            forall|c: Channel| !r.spec_taken(c),
    {
        ChannelRegistry { taken0: false, taken1: false, taken2: false }
    }

    /// Acquire the token for channel `c`: `Some` exactly on the first
    /// request for each channel, `None` ever after.
    pub fn take(&mut self, c: Channel) -> (r: Option<ChannelToken>)
        ensures
            old(self).spec_taken(c) ==> {
                &&& r is None
                &&& *final(self) == *old(self)
            },
            !old(self).spec_taken(c) ==> {
                &&& (r matches Some(t) && t.spec_channel() == c)
                &&& final(self).spec_taken(c)
                &&& forall|c2: Channel|
                    c2 != c ==> #[trigger] final(self).spec_taken(c2) == old(self).spec_taken(c2)
            },
    {
        let already = match c {
            Channel::Channel0 => self.taken0,
            Channel::Channel1 => self.taken1,
            Channel::Channel2 => self.taken2,
        };
        if already {
            None
        } else {
            match c {
                Channel::Channel0 => self.taken0 = true,
                Channel::Channel1 => self.taken1 = true,
                Channel::Channel2 => self.taken2 = true,
            }
            Some(ChannelToken { ch: c })
        }
    }
}

/// Read a channel's interrupt-status word.
fn read_int_st(dma: &DmaRegisters, c: Channel) -> (r: u32)
    ensures
        r == ch_regs(*dma, c).int_st,
{
    match c {
        Channel::Channel0 => dma.ch0.int_st,
        Channel::Channel1 => dma.ch1.int_st,
        Channel::Channel2 => dma.ch2.int_st,
    }
}

/// A pipe for DMA transfers: a transmit channel and a receive channel —
/// distinct ones for traffic to and from a peripheral, the same one looped
/// back on itself for memory-to-memory copies — driven through one
/// register block.
///
/// A pipe moves from idle to armed when [`DMAPipe::start_transfer`]
/// programs the chain heads and enables both directions; it may be re-armed
/// only once both directions have been observed complete through the two
/// polling methods. The pipe holds its channels' tokens for as long as it
/// lives, so no second pipe can drive the same channel.
pub struct DMAPipe {
    tx_token: ChannelToken,
    rx_token: Option<ChannelToken>,
    armed: bool,
    tx_seen: bool,
    rx_seen: bool,
}

impl DMAPipe {
    /// The channel driving the transmit direction.
    pub closed spec fn spec_tx_channel(self) -> Channel {
        self.tx_token.spec_channel()
    }

    /// The channel driving the receive direction.
    pub closed spec fn spec_rx_channel(self) -> Channel {
        match self.rx_token {
            Some(t) => t.spec_channel(),
            None => self.tx_token.spec_channel(),
        }
    }

    /// Whether a transfer has been started and not yet seen out.
    pub closed spec fn spec_armed(self) -> bool {
        self.armed
    }

    /// Whether transmit completion has been observed since the last arm.
    pub closed spec fn spec_tx_seen(self) -> bool {
        self.tx_seen
    }

    /// Whether receive completion has been observed since the last arm.
    pub closed spec fn spec_rx_seen(self) -> bool {
        self.rx_seen
    }

    /// Both directions' completion has been observed, so the pipe may be
    /// re-armed.
    pub open spec fn spec_idle(self) -> bool {
        !self.spec_armed() || (self.spec_tx_seen() && self.spec_rx_seen())
    }

    /// The channel driving the transmit direction.
    pub fn tx_channel(&self) -> (r: Channel)
        ensures
            r == self.spec_tx_channel(),
    {
        self.tx_token.channel()
    }

    /// The channel driving the receive direction.
    pub fn rx_channel(&self) -> (r: Channel)
        ensures
            r == self.spec_rx_channel(),
    {
        match &self.rx_token {
            Some(t) => t.channel(),
            None => self.tx_token.channel(),
        }
    }

    /// Create a pipe between memory and a peripheral: reset the transmit
    /// side of the transmit channel and the receive side of the receive
    /// channel, then bind the peripheral selector to both.
    ///
    /// The two tokens must name distinct channels; a pair naming the same
    /// channel — which one registry never hands out — is rejected before
    /// any register is touched.
    pub fn memory_n_peripheral(
        tx_token: ChannelToken,
        rx_token: ChannelToken,
        peripheral: Peripheral,
        dma: &mut DmaRegisters,
    ) -> (r: Result<DMAPipe, DmaError>)
        ensures
            tx_token.spec_channel() == rx_token.spec_channel() ==> {
                &&& r == Err::<DMAPipe, DmaError>(DmaError::ChannelConflict)
                &&& *final(dma) == *old(dma)
            },
            tx_token.spec_channel() != rx_token.spec_channel() ==> {
                &&& (r matches Ok(p) && {
                    &&& p.spec_tx_channel() == tx_token.spec_channel()
                    &&& p.spec_rx_channel() == rx_token.spec_channel()
                    &&& !p.spec_armed()
                })
                &&& (ch_regs(*final(dma), tx_token.spec_channel()) == ChannelRegs {
                    out_conf0: reset_pulse(ch_regs(*old(dma), tx_token.spec_channel()).out_conf0),
                    out_peri_sel: peripheral_code(peripheral),
                    ..ch_regs(*old(dma), tx_token.spec_channel())
                })
                &&& (ch_regs(*final(dma), rx_token.spec_channel()) == ChannelRegs {
                    in_conf0: reset_pulse(ch_regs(*old(dma), rx_token.spec_channel()).in_conf0),
                    in_peri_sel: peripheral_code(peripheral),
                    ..ch_regs(*old(dma), rx_token.spec_channel())
                })
                &&& forall|c: Channel|
                    c != tx_token.spec_channel() && c != rx_token.spec_channel()
                        ==> #[trigger] ch_regs(*final(dma), c) == ch_regs(*old(dma), c)
            },
    {
        let txc = tx_token.channel();
        let rxc = rx_token.channel();
        if txc == rxc {
            return Err(DmaError::ChannelConflict);
        }
        txc.tx_reset(dma);
        rxc.rx_reset(dma);
        txc.set_tx_peripheral(dma, peripheral);
        rxc.set_rx_peripheral(dma, peripheral);
        Ok(
            DMAPipe {
                tx_token,
                rx_token: Some(rx_token),
                armed: false,
                tx_seen: false,
                rx_seen: false,
            },
        )
    }

    /// Create a pipe between two memory locations: reset both directions of
    /// the one channel and route its transmit output back into its receive
    /// input. The peripheral mux is not touched.
    pub fn memory_n_memory(token: ChannelToken, dma: &mut DmaRegisters) -> (r: DMAPipe)
        ensures
            r.spec_tx_channel() == token.spec_channel(),
            r.spec_rx_channel() == token.spec_channel(),
            !r.spec_armed(),
            (ch_regs(*final(dma), token.spec_channel()) == ChannelRegs {
                out_conf0: reset_pulse(ch_regs(*old(dma), token.spec_channel()).out_conf0),
                in_conf0: reset_pulse(ch_regs(*old(dma), token.spec_channel()).in_conf0) | (1u32
                    << 4),
                ..ch_regs(*old(dma), token.spec_channel())
            }),
            forall|c: Channel|
                c != token.spec_channel() ==> #[trigger] ch_regs(*final(dma), c) == ch_regs(
                    *old(dma),
                    c,
                ),
    {
        let c = token.channel();
        c.tx_reset(dma);
        c.rx_reset(dma);
        c.mem_to_mem(dma);
        DMAPipe { tx_token: token, rx_token: None, armed: false, tx_seen: false, rx_seen: false }
    }

    /// Arm the pipe: program the transmit and receive chain head addresses,
    /// then — and only then — enable both directions. The pipe must be
    /// idle; arming a pipe whose previous transfer has not been observed
    /// complete in both directions is rejected before any register is
    /// touched.
    pub fn start_transfer(&mut self, tx_list: u32, rx_list: u32, dma: &mut DmaRegisters) -> (r:
        Result<(), DmaError>)
        ensures
            final(self).spec_tx_channel() == old(self).spec_tx_channel(),
            final(self).spec_rx_channel() == old(self).spec_rx_channel(),
            !old(self).spec_idle() ==> {
                &&& r == Err::<(), DmaError>(DmaError::PipeActive)
                &&& *final(self) == *old(self)
                &&& *final(dma) == *old(dma)
            },
            old(self).spec_idle() ==> {
                &&& r == Ok::<(), DmaError>(())
                &&& final(self).spec_armed()
                &&& !final(self).spec_tx_seen()
                &&& !final(self).spec_rx_seen()
                &&& old(self).spec_tx_channel() == old(self).spec_rx_channel() ==> (ch_regs(
                    *final(dma),
                    old(self).spec_tx_channel(),
                ) == ChannelRegs {
                    out_link: link_with_head(
                        ch_regs(*old(dma), old(self).spec_tx_channel()).out_link,
                        tx_list,
                    ) | (1u32 << 22),
                    in_link: link_with_head(
                        ch_regs(*old(dma), old(self).spec_rx_channel()).in_link,
                        rx_list,
                    ) | (1u32 << 22),
                    ..ch_regs(*old(dma), old(self).spec_tx_channel())
                })
                &&& old(self).spec_tx_channel() != old(self).spec_rx_channel() ==> {
                    &&& (ch_regs(*final(dma), old(self).spec_tx_channel()) == ChannelRegs {
                        out_link: link_with_head(
                            ch_regs(*old(dma), old(self).spec_tx_channel()).out_link,
                            tx_list,
                        ) | (1u32 << 22),
                        ..ch_regs(*old(dma), old(self).spec_tx_channel())
                    })
                    &&& (ch_regs(*final(dma), old(self).spec_rx_channel()) == ChannelRegs {
                        in_link: link_with_head(
                            ch_regs(*old(dma), old(self).spec_rx_channel()).in_link,
                            rx_list,
                        ) | (1u32 << 22),
                        ..ch_regs(*old(dma), old(self).spec_rx_channel())
                    })
                }
                &&& forall|c: Channel|
                    c != old(self).spec_tx_channel() && c != old(self).spec_rx_channel()
                        ==> #[trigger] ch_regs(*final(dma), c) == ch_regs(*old(dma), c)
            },
    {
        if self.armed && !(self.tx_seen && self.rx_seen) {
            return Err(DmaError::PipeActive);
        }
        let txc = self.tx_token.channel();
        let rxc = match &self.rx_token {
            Some(t) => t.channel(),
            None => self.tx_token.channel(),
        };
        txc.set_tx_start(dma, tx_list);
        rxc.set_rx_start(dma, rx_list);
        txc.tx_enable(dma);
        rxc.rx_enable(dma);
        self.armed = true;
        self.tx_seen = false;
        self.rx_seen = false;
        Ok(())
    }

    /// Poll the transmit direction: read the transmit channel's
    /// end-of-frame status bit. No register is written; repeated calls are
    /// safe. An observed completion is remembered, so that the pipe knows
    /// when it may be re-armed.
    pub fn get_tx_completion(&mut self, dma: &DmaRegisters) -> (r: bool)
        ensures
            r == ((ch_regs(*dma, old(self).spec_tx_channel()).int_st & OUT_EOF_BIT) != 0),
            final(self).spec_tx_channel() == old(self).spec_tx_channel(),
            final(self).spec_rx_channel() == old(self).spec_rx_channel(),
            final(self).spec_armed() == old(self).spec_armed(),
            final(self).spec_tx_seen() == (old(self).spec_tx_seen() || r),
            final(self).spec_rx_seen() == old(self).spec_rx_seen(),
    {
        let c = self.tx_token.channel();
        let st = read_int_st(dma, c);
        let done = (st & OUT_EOF_BIT) != 0;
        if done {
            self.tx_seen = true;
        }
        done
    }

    /// Poll the receive direction: read the receive channel's
    /// transfer-done status bit, as [`DMAPipe::get_tx_completion`] does for
    /// the transmit direction.
    pub fn get_rx_completion(&mut self, dma: &DmaRegisters) -> (r: bool)
        ensures
            r == ((ch_regs(*dma, old(self).spec_rx_channel()).int_st & IN_DONE_BIT) != 0),
            final(self).spec_tx_channel() == old(self).spec_tx_channel(),
            final(self).spec_rx_channel() == old(self).spec_rx_channel(),
            final(self).spec_armed() == old(self).spec_armed(),
            final(self).spec_rx_seen() == (old(self).spec_rx_seen() || r),
            final(self).spec_tx_seen() == old(self).spec_tx_seen(),
    {
        let c = match &self.rx_token {
            Some(t) => t.channel(),
            None => self.tx_token.channel(),
        };
        let st = read_int_st(dma, c);
        let done = (st & IN_DONE_BIT) != 0;
        if done {
            self.rx_seen = true;
        }
        done
    }
}

} // verus!
