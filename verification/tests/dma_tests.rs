use c3hal::dma::{Channel, ChannelRegistry, DMAPipe, DmaError, ListItem, Peripheral};
use c3hal::regs::DmaRegisters;

const OUT_EOF_BIT: u32 = 0x10;
const IN_DONE_BIT: u32 = 0x1;

#[test]
fn fresh_descriptor_is_terminal_and_empty() {
    let d = ListItem::new();
    assert!(d.is_terminal());
    assert_eq!(d.next_address(), 0);
    assert_eq!(d.buffer_address(), 0);
    assert_eq!(d.capacity(), 0);
    assert_eq!(d.length(), 0);
}

#[test]
fn attach_buffer_reads_back_exactly() {
    for len in [0u32, 1, 10, 100, 2048, 4095] {
        let mut d = ListItem::new();
        assert_eq!(d.set_buffer(0x3FC8_0000, len), Ok(()));
        assert_eq!(d.capacity(), len);
        assert_eq!(d.length(), len);
        assert_eq!(d.buffer_address(), 0x3FC8_0000);
    }
}

#[test]
fn attach_buffer_rejects_oversize() {
    for len in [4096u32, 4097, 100_000, u32::MAX] {
        let mut d = ListItem::new();
        assert_eq!(d.set_buffer(0x3FC8_0000, 10), Ok(()));
        assert_eq!(d.set_buffer(0x3FC9_0000, len), Err(DmaError::BufferTooLarge));
        // the rejected call must leave the node untouched
        assert_eq!(d.capacity(), 10);
        assert_eq!(d.length(), 10);
        assert_eq!(d.buffer_address(), 0x3FC8_0000);
    }
}

#[test]
fn attach_buffer_overwrites_previous_binding() {
    let mut d = ListItem::new();
    assert_eq!(d.set_buffer(0x3FC8_0000, 4095), Ok(()));
    assert_eq!(d.set_buffer(0x3FC9_0000, 7), Ok(()));
    assert_eq!(d.capacity(), 7);
    assert_eq!(d.length(), 7);
    assert_eq!(d.buffer_address(), 0x3FC9_0000);
    assert!(d.is_terminal());
}

#[test]
fn link_next_clears_terminal_and_records_address() {
    let mut d = ListItem::new();
    d.set_next(0x3FC8_0120);
    assert!(!d.is_terminal());
    assert_eq!(d.next_address(), 0x3FC8_0120);

    // zero is a legitimate successor address value
    let mut d2 = ListItem::new();
    d2.set_next(0);
    assert!(!d2.is_terminal());
    assert_eq!(d2.next_address(), 0);
}

#[test]
fn link_next_preserves_capacity_and_length() {
    let mut d = ListItem::new();
    assert_eq!(d.set_buffer(0x3FC8_0000, 33), Ok(()));
    d.set_next(0x3FC8_0200);
    assert_eq!(d.capacity(), 33);
    assert_eq!(d.length(), 33);
    assert_eq!(d.buffer_address(), 0x3FC8_0000);
}

#[test]
fn hardware_write_back_and_error_flag() {
    let mut d = ListItem::new();
    assert_eq!(d.set_buffer(0x3FC8_0000, 20), Ok(()));
    d.hw_complete(20, 0);
    assert!(!d.has_error());
    assert_eq!(d.length(), 20);
    assert_eq!(d.capacity(), 20);

    let mut e = ListItem::new();
    assert_eq!(e.set_buffer(0x3FC8_0000, 20), Ok(()));
    e.hw_complete(5, 3);
    assert!(e.has_error());
    assert_eq!(e.length(), 5);
    assert_eq!(e.capacity(), 20);
}

#[test]
fn reset_is_idempotent() {
    let mut dma = DmaRegisters::new();
    dma.ch1.out_conf0 = 0xDEAD_BEEF;
    dma.ch1.in_conf0 = 0x1234_5677;

    Channel::Channel1.tx_reset(&mut dma);
    let once_out = dma.ch1.out_conf0;
    Channel::Channel1.tx_reset(&mut dma);
    assert_eq!(dma.ch1.out_conf0, once_out);
    assert_eq!(once_out, 0xDEAD_BEEF & !1);

    Channel::Channel1.rx_reset(&mut dma);
    let once_in = dma.ch1.in_conf0;
    Channel::Channel1.rx_reset(&mut dma);
    assert_eq!(dma.ch1.in_conf0, once_in);
    assert_eq!(once_in, 0x1234_5676);
}

#[test]
fn reset_touches_only_its_channel_and_direction() {
    let mut dma = DmaRegisters::new();
    dma.ch0.out_conf0 = 0xFF;
    dma.ch0.in_conf0 = 0xAB;
    dma.ch2.out_conf0 = 0xCD;
    Channel::Channel0.tx_reset(&mut dma);
    assert_eq!(dma.ch0.out_conf0, 0xFE);
    assert_eq!(dma.ch0.in_conf0, 0xAB);
    assert_eq!(dma.ch2.out_conf0, 0xCD);
}

#[test]
fn set_start_read_back_recovers_low_20_bits() {
    let mut dma = DmaRegisters::new();
    // high bits, the enable bit (22) among them, hold a prior value
    dma.ch0.out_link = 0xFFF0_0000 | (1 << 22) | 0x54321;
    Channel::Channel0.set_tx_start(&mut dma, 0x3FC8_9ABC);
    // low 20 bits replaced, everything above bit 19 untouched
    assert_eq!(dma.ch0.out_link & 0xFFFFF, 0x3FC8_9ABC & 0xFFFFF);
    assert_eq!(dma.ch0.out_link >> 20, (0xFFF0_0000u32 | (1 << 22)) >> 20);

    dma.ch0.in_link = 0x0030_0000 | 0x11111;
    Channel::Channel0.set_rx_start(&mut dma, 0x3FC8_0040);
    assert_eq!(dma.ch0.in_link & 0xFFFFF, 0x3FC8_0040 & 0xFFFFF);
    assert_eq!(dma.ch0.in_link >> 20, 0x0030_0000u32 >> 20);
}

#[test]
fn enable_sets_only_bit_22() {
    let mut dma = DmaRegisters::new();
    dma.ch2.out_link = 0x12345;
    dma.ch2.in_link = 0x54321;
    Channel::Channel2.tx_enable(&mut dma);
    Channel::Channel2.rx_enable(&mut dma);
    assert_eq!(dma.ch2.out_link, 0x12345 | (1 << 22));
    assert_eq!(dma.ch2.in_link, 0x54321 | (1 << 22));
}

#[test]
fn peripheral_selector_codes() {
    assert_eq!(Peripheral::SPI2.code(), 0);
    assert_eq!(Peripheral::UHCI0.code(), 2);
    assert_eq!(Peripheral::I2S.code(), 3);
    assert_eq!(Peripheral::AES.code(), 6);
    assert_eq!(Peripheral::SHA.code(), 7);
    assert_eq!(Peripheral::ADC.code(), 8);

    let mut dma = DmaRegisters::new();
    Channel::Channel1.set_tx_peripheral(&mut dma, Peripheral::SHA);
    Channel::Channel1.set_rx_peripheral(&mut dma, Peripheral::ADC);
    assert_eq!(dma.ch1.out_peri_sel, 7);
    assert_eq!(dma.ch1.in_peri_sel, 8);
}

#[test]
fn mem_to_mem_sets_loopback_bit() {
    let mut dma = DmaRegisters::new();
    dma.ch0.in_conf0 = 0x2;
    Channel::Channel0.mem_to_mem(&mut dma);
    assert_eq!(dma.ch0.in_conf0, 0x2 | (1 << 4));
}

#[test]
fn registry_hands_each_channel_out_once() {
    let mut registry = ChannelRegistry::new();
    assert!(registry.take(Channel::Channel0).is_some());
    assert!(registry.take(Channel::Channel0).is_none());
    assert!(registry.take(Channel::Channel1).is_some());
    assert!(registry.take(Channel::Channel2).is_some());
    assert!(registry.take(Channel::Channel1).is_none());
    assert!(registry.take(Channel::Channel2).is_none());
}

#[test]
fn token_names_its_channel() {
    let mut registry = ChannelRegistry::new();
    let t = registry.take(Channel::Channel2).unwrap();
    assert_eq!(t.channel(), Channel::Channel2);
}

#[test]
fn loopback_pipe_configures_one_channel() {
    let mut registry = ChannelRegistry::new();
    let mut dma = DmaRegisters::new();
    dma.ch1.out_conf0 = 0xF1;
    dma.ch1.in_conf0 = 0xF3;
    dma.ch0.in_conf0 = 0x77;

    let token = registry.take(Channel::Channel1).unwrap();
    let _pipe = DMAPipe::memory_n_memory(token, &mut dma);

    // both directions reset (bit 0 cleared), loopback bit set on receive
    assert_eq!(dma.ch1.out_conf0, 0xF0);
    assert_eq!(dma.ch1.in_conf0, 0xF2 | (1 << 4));
    // other channels untouched
    assert_eq!(dma.ch0.in_conf0, 0x77);
}

#[test]
fn peripheral_pipe_configures_both_channels() {
    let mut registry = ChannelRegistry::new();
    let mut dma = DmaRegisters::new();
    dma.ch0.out_conf0 = 0x9;
    dma.ch1.in_conf0 = 0xB;

    let tx = registry.take(Channel::Channel0).unwrap();
    let rx = registry.take(Channel::Channel1).unwrap();
    let pipe = DMAPipe::memory_n_peripheral(tx, rx, Peripheral::AES, &mut dma);
    assert!(pipe.is_ok());

    assert_eq!(dma.ch0.out_conf0, 0x8);
    assert_eq!(dma.ch0.out_peri_sel, 6);
    assert_eq!(dma.ch1.in_conf0, 0xA);
    assert_eq!(dma.ch1.in_peri_sel, 6);
    // the unused direction of each channel is untouched
    assert_eq!(dma.ch0.in_conf0, 0);
    assert_eq!(dma.ch1.out_conf0, 0);
}

#[test]
fn start_transfer_programs_heads_then_enables() {
    let mut registry = ChannelRegistry::new();
    let mut dma = DmaRegisters::new();
    let token = registry.take(Channel::Channel0).unwrap();
    let mut pipe = DMAPipe::memory_n_memory(token, &mut dma);

    assert_eq!(pipe.start_transfer(0x3FC8_0100, 0x3FC8_0200, &mut dma), Ok(()));
    assert_eq!(dma.ch0.out_link, (0x3FC8_0100 & 0xFFFFF) | (1 << 22));
    assert_eq!(dma.ch0.in_link, (0x3FC8_0200 & 0xFFFFF) | (1 << 22));
}

#[test]
fn rearming_an_active_pipe_is_rejected() {
    let mut registry = ChannelRegistry::new();
    let mut dma = DmaRegisters::new();
    let token = registry.take(Channel::Channel0).unwrap();
    let mut pipe = DMAPipe::memory_n_memory(token, &mut dma);

    assert_eq!(pipe.start_transfer(0x100, 0x200, &mut dma), Ok(()));
    let before = (dma.ch0.out_link, dma.ch0.in_link);
    assert_eq!(pipe.start_transfer(0x300, 0x400, &mut dma), Err(DmaError::PipeActive));
    // the rejected call must not have touched the registers
    assert_eq!((dma.ch0.out_link, dma.ch0.in_link), before);

    // hardware signals completion of both directions; the pipe observes it
    dma.ch0.int_st = OUT_EOF_BIT | IN_DONE_BIT;
    assert!(pipe.get_tx_completion(&dma));
    assert!(pipe.get_rx_completion(&dma));
    assert_eq!(pipe.start_transfer(0x300, 0x400, &mut dma), Ok(()));
}

#[test]
fn polling_reads_the_right_status_bits() {
    let mut registry = ChannelRegistry::new();
    let mut dma = DmaRegisters::new();
    let tx = registry.take(Channel::Channel0).unwrap();
    let rx = registry.take(Channel::Channel1).unwrap();
    let mut pipe = DMAPipe::memory_n_peripheral(tx, rx, Peripheral::SPI2, &mut dma).unwrap();

    assert!(!pipe.get_tx_completion(&dma));
    assert!(!pipe.get_rx_completion(&dma));

    // transmit end-of-frame lives on the transmit channel's status word
    dma.ch0.int_st = OUT_EOF_BIT;
    assert!(pipe.get_tx_completion(&dma));
    assert!(!pipe.get_rx_completion(&dma));

    // receive done lives on the receive channel's status word
    dma.ch1.int_st = IN_DONE_BIT;
    assert!(pipe.get_rx_completion(&dma));
}

#[test]
fn loopback_two_node_chain_completes_without_error() {
    // a 2-node chain over buffers of 10 and 20 bytes
    let mut first = ListItem::new();
    let mut second = ListItem::new();
    assert_eq!(first.set_buffer(0x3FC8_1000, 10), Ok(()));
    assert_eq!(second.set_buffer(0x3FC8_2000, 20), Ok(()));
    let second_addr = 0x3FC8_0040u32;
    first.set_next(second_addr);
    assert!(!first.is_terminal());
    assert!(second.is_terminal());

    // arm a loopback pipe over channel 0
    let mut registry = ChannelRegistry::new();
    let mut dma = DmaRegisters::new();
    let token = registry.take(Channel::Channel0).unwrap();
    let mut pipe = DMAPipe::memory_n_memory(token, &mut dma);
    let head_addr = 0x3FC8_0020u32;
    assert_eq!(pipe.start_transfer(head_addr, head_addr, &mut dma), Ok(()));

    // poll with a bounded loop while the harness plays the hardware:
    // after a few polls it walks the chain, writes both nodes back with a
    // clean error code, and raises both completion bits
    let mut tx_done = false;
    let mut rx_done = false;
    for round in 0..16 {
        if round == 3 {
            first.hw_complete(10, 0);
            second.hw_complete(20, 0);
            dma.ch0.int_st |= OUT_EOF_BIT | IN_DONE_BIT;
        }
        tx_done = pipe.get_tx_completion(&dma);
        rx_done = pipe.get_rx_completion(&dma);
        if tx_done && rx_done {
            break;
        }
    }
    assert!(tx_done && rx_done);
    assert!(!first.has_error());
    assert!(!second.has_error());
    assert_eq!(first.length(), 10);
    assert_eq!(second.length(), 20);
}

#[test]
fn aliased_channel_cannot_become_a_second_pipe() {
    // one registry guards one register block: a second request for the
    // same channel yields nothing, so no aliased pipe can be built
    let mut registry = ChannelRegistry::new();
    let mut dma = DmaRegisters::new();
    let first = registry.take(Channel::Channel0).unwrap();
    let _pipe = DMAPipe::memory_n_memory(first, &mut dma);
    assert!(registry.take(Channel::Channel0).is_none());

    // tokens forged from a second registry simulate the aliasing; the
    // pipe detects the conflict and leaves every register untouched
    let mut rogue = ChannelRegistry::new();
    let a = rogue.take(Channel::Channel1).unwrap();
    let mut rogue2 = ChannelRegistry::new();
    let b = rogue2.take(Channel::Channel1).unwrap();
    let snapshot = (dma.ch1.out_conf0, dma.ch1.in_conf0, dma.ch1.out_peri_sel, dma.ch1.in_peri_sel);
    match DMAPipe::memory_n_peripheral(a, b, Peripheral::SHA, &mut dma) {
        Err(e) => assert_eq!(e, DmaError::ChannelConflict),
        Ok(_) => panic!("aliased channels must be rejected"),
    }
    assert_eq!(
        (dma.ch1.out_conf0, dma.ch1.in_conf0, dma.ch1.out_peri_sel, dma.ch1.in_peri_sel),
        snapshot
    );
}
