use nes_core::ppu::Ricoh2c02;

const AFTER_WARMUP: u64 = 30000;

/// Advance until the given scanline/cycle position has been reached or
/// passed, three dots per call, and count the NMI edges reported on the way.
fn run_to(ppu: &mut Ricoh2c02, scanline: u16, cycle: u16, limit: u32) -> u32 {
    let mut edges = 0u32;
    for _ in 0..limit {
        if ppu.scanline() == scanline && ppu.cycle() >= cycle {
            break;
        }
        if ppu.generate_signal(1) {
            edges += 1;
        }
    }
    edges
}

#[test]
fn vblank_sets_flag_and_fires_nmi_exactly_once() {
    let mut ppu = Ricoh2c02::new();
    assert_eq!(ppu.scanline(), 261);
    assert_eq!(ppu.cycle(), 0);
    // Clear the stale power-on vblank bit, then enable NMI output.
    ppu.register_read(2);
    ppu.register_write(0, 0x80, AFTER_WARMUP);
    // Walk through the pre-render and visible scanlines into vertical blank.
    let edges = run_to(&mut ppu, 241, 1, 30000);
    assert_eq!(ppu.scanline(), 241);
    assert!(ppu.status_bits() & 0x80 != 0, "vblank flag raised at (241,1)");
    assert_eq!(edges, 1, "exactly one NMI edge on entering vblank");
    // Further ticks inside the same vertical blank fire no second edge.
    let mut more = 0u32;
    for _ in 0..2000 {
        if ppu.generate_signal(1) {
            more += 1;
        }
    }
    assert!(ppu.scanline() >= 241 && ppu.scanline() <= 260);
    assert_eq!(more, 0);
    assert!(ppu.status_bits() & 0x80 != 0);
}

#[test]
fn vblank_flag_stays_down_without_the_race_and_clears_at_pre_render() {
    let mut ppu = Ricoh2c02::new();
    ppu.register_read(2);
    // NMI output disabled: the flag still rises, but no edge fires.
    let edges = run_to(&mut ppu, 241, 1, 30000);
    assert_eq!(edges, 0);
    assert!(ppu.status_bits() & 0x80 != 0);
    // Run on to the pre-render scanline: dot 1 clears the flag.
    let edges2 = run_to(&mut ppu, 261, 1, 10000);
    assert_eq!(edges2, 0);
    assert!(ppu.status_bits() & 0x80 == 0);
}

#[test]
fn enabling_nmi_during_vblank_raises_the_edge() {
    let mut ppu = Ricoh2c02::new();
    ppu.register_read(2);
    run_to(&mut ppu, 241, 1, 30000);
    assert!(ppu.status_bits() & 0x80 != 0);
    // The enable bit turned on while the flag is up: the next advance
    // reports the edge, once.
    ppu.register_write(0, 0x80, AFTER_WARMUP);
    assert!(ppu.generate_signal(1));
    assert!(!ppu.generate_signal(1));
}

#[test]
fn status_read_clears_vblank_flag_and_write_toggle() {
    let mut ppu = Ricoh2c02::new();
    ppu.register_read(2);
    run_to(&mut ppu, 241, 1, 30000);
    assert!(ppu.status_bits() & 0x80 != 0);
    // Move past the two-dot race window around the flag being raised, so
    // this is an ordinary mid-vblank read.
    ppu.generate_signal(2);
    let v = ppu.register_read(2);
    assert!(v & 0x80 != 0, "the read reports the flag");
    assert!(ppu.status_bits() & 0x80 == 0, "and clears it");
    assert_eq!(ppu.register_read(2) & 0x80, 0);
}

#[test]
fn status_read_within_the_raise_window_suppresses_the_report() {
    let mut ppu = Ricoh2c02::new();
    ppu.register_read(2);
    run_to(&mut ppu, 241, 1, 30000);
    // Three dots per CPU cycle from power-on land this walk on dot 2 of
    // scanline 241: inside the two-dot window around the flag being raised.
    assert_eq!(ppu.cycle(), 2);
    let v = ppu.register_read(2);
    assert_eq!(v & 0x80, 0, "the racing read does not see the flag");
    assert_eq!(ppu.status_bits() & 0x80, 0);
}

#[test]
fn status_read_aborts_address_write_pair() {
    let mut ppu = Ricoh2c02::new();
    let v0 = ppu.current_vram_addr();
    // First address write: toggle goes up.
    ppu.register_write(6, 0x21, AFTER_WARMUP);
    assert!(ppu.toggle());
    // A status read resets the toggle mid-sequence.
    ppu.register_read(2);
    assert!(!ppu.toggle());
    // The next address write is a first write again: nothing committed.
    ppu.register_write(6, 0x21, AFTER_WARMUP);
    assert!(ppu.toggle());
    assert_eq!(ppu.current_vram_addr(), v0);
    // Completing the pair commits the assembled address.
    ppu.register_write(6, 0x08, AFTER_WARMUP);
    assert!(!ppu.toggle());
    assert_eq!(ppu.temp_addr(), 0x2108);
    assert_eq!(ppu.current_vram_addr(), 0x2108);
}

#[test]
fn data_reads_are_buffered_one_behind() {
    let mut ppu = Ricoh2c02::new();
    // Point the address at $0010 and write two bytes.
    ppu.register_write(6, 0x00, AFTER_WARMUP);
    ppu.register_write(6, 0x10, AFTER_WARMUP);
    ppu.register_write(7, 0xaa, AFTER_WARMUP);
    ppu.register_write(7, 0xbb, AFTER_WARMUP);
    // Read back from $0010: the first read returns the stale buffer.
    ppu.register_write(6, 0x00, AFTER_WARMUP);
    ppu.register_write(6, 0x10, AFTER_WARMUP);
    let stale = ppu.register_read(7);
    assert_eq!(stale, 0x00);
    assert_eq!(ppu.register_read(7), 0xaa);
    assert_eq!(ppu.register_read(7), 0xbb);
}

#[test]
fn ctrl_bit_two_selects_the_address_step() {
    let mut ppu = Ricoh2c02::new();
    ppu.register_write(6, 0x00, AFTER_WARMUP);
    ppu.register_write(6, 0x00, AFTER_WARMUP);
    ppu.register_write(7, 0x01, AFTER_WARMUP);
    assert_eq!(ppu.current_vram_addr(), 1);
    ppu.register_write(0, 0x04, AFTER_WARMUP);
    ppu.register_write(7, 0x02, AFTER_WARMUP);
    assert_eq!(ppu.current_vram_addr(), 33);
}

#[test]
fn warm_up_lockout_discards_early_control_writes() {
    let mut ppu = Ricoh2c02::new();
    ppu.register_write(0, 0xff, 29658);
    ppu.register_write(1, 0xff, 100);
    ppu.register_write(6, 0x21, 5);
    assert!(!ppu.toggle());
    // Object-attribute address writes are never locked out.
    ppu.register_write(3, 0x40, 5);
    ppu.register_write(4, 0x99, 5);
    ppu.register_write(3, 0x40, 5);
    assert_eq!(ppu.register_read(4), 0x99);
}

#[test]
fn oam_writes_are_refused_during_visible_scanlines() {
    let mut ppu = Ricoh2c02::new();
    // At power-on the position is the pre-render scanline: writes land.
    ppu.register_write(3, 0x00, AFTER_WARMUP);
    ppu.register_write(4, 0x11, AFTER_WARMUP);
    // Step into the visible frame (scanline 0).
    let mut guard = 0;
    while ppu.scanline() == 261 && guard < 200 {
        ppu.generate_signal(1);
        guard += 1;
    }
    assert!(ppu.scanline() < 240);
    ppu.register_write(3, 0x01, AFTER_WARMUP);
    ppu.register_write(4, 0x22, AFTER_WARMUP);
    ppu.register_write(3, 0x01, AFTER_WARMUP);
    assert_eq!(ppu.register_read(4), 0x00, "the visible-scanline write was dropped");
    ppu.register_write(3, 0x00, AFTER_WARMUP);
    assert_eq!(ppu.register_read(4), 0x11);
}

#[test]
fn reset_clears_latches_but_not_memories() {
    let mut ppu = Ricoh2c02::new();
    ppu.register_write(3, 0x05, AFTER_WARMUP);
    ppu.register_write(4, 0x42, AFTER_WARMUP);
    ppu.register_write(6, 0x00, AFTER_WARMUP);
    ppu.register_write(6, 0x20, AFTER_WARMUP);
    ppu.register_write(7, 0x77, AFTER_WARMUP);
    ppu.register_write(6, 0x3f, AFTER_WARMUP);
    ppu.reset();
    assert!(!ppu.toggle());
    // Object-attribute memory survives the reset.
    ppu.register_write(3, 0x05, AFTER_WARMUP);
    assert_eq!(ppu.register_read(4), 0x42);
    // Video memory survives too: read it back through the data port.
    ppu.register_write(6, 0x00, AFTER_WARMUP);
    ppu.register_write(6, 0x20, AFTER_WARMUP);
    ppu.register_read(7);
    assert_eq!(ppu.register_read(7), 0x77);
}
