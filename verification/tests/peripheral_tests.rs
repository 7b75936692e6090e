use pet4032::bus::Bus;
use pet4032::crtc6845::Crtc6845;
use pet4032::petbus::PetBus;
use pet4032::pia6821::Pia6821;
use pet4032::rom::{parse_prg, RomData};
use pet4032::screen::render_screen;
use pet4032::via6522::Via6522;

fn test_roms() -> RomData {
    RomData {
        basic_b000: vec![0xBB; 0x1000],
        basic_c000: vec![0xCC; 0x1000],
        basic_d000: vec![0xDD; 0x1000],
        kernal_f000: vec![0xEE; 0x1000],
        editor_e000: vec![0xED; 0x800],
        char_rom: vec![0xFF; 0x400],
    }
}

#[test]
fn test_via_timer1_one_shot() {
    let mut via = Via6522::new();
    via.write_register(0x0E, 0xC0); // enable timer 1 interrupt
    via.write_register(0x04, 10); // latch low
    via.write_register(0x05, 0); // latch high: loads counter, starts
    for _ in 0..9 {
        via.tick(1);
        assert!(!via.irq_out);
    }
    via.tick(1);
    assert!(via.irq_out);
    assert_eq!(via.read_register(0x0D) & 0xC0, 0xC0); // IFR bit 7 and 6
    // Reading the counter low byte acknowledges the flag.
    via.read_register(0x04);
    assert!(!via.irq_out);
}

#[test]
fn test_via_timer1_continuous_reload() {
    let mut via = Via6522::new();
    via.write_register(0x0B, 0x40); // ACR bit 6: continuous mode
    via.write_register(0x04, 5);
    via.write_register(0x05, 0);
    for _ in 0..5 {
        via.tick(1);
    }
    // The counter reloaded from the latch and keeps running.
    assert_eq!(via.read_register(0x05), 0);
    assert_eq!(via.t1_counter, 5);
    assert!(via.t1_running);
}

#[test]
fn test_via_ifr_write_clears_flags() {
    let mut via = Via6522::new();
    via.write_register(0x0E, 0xC0);
    via.write_register(0x04, 1);
    via.write_register(0x05, 0);
    via.tick(1);
    assert!(via.irq_out);
    via.write_register(0x0D, 0x40); // writing a 1 bit clears that flag
    assert!(!via.irq_out);
}

#[test]
fn test_via_ier_set_and_clear() {
    let mut via = Via6522::new();
    via.write_register(0x0E, 0x83); // set bits 0 and 1
    assert_eq!(via.read_register(0x0E), 0x83); // reads as ier | $80
    via.write_register(0x0E, 0x01); // clear bit 0
    assert_eq!(via.read_register(0x0E), 0x82);
}

#[test]
fn test_pia_keyboard_scan() {
    let mut pia = Pia6821::new();
    pia.set_key(2, 3, true);
    pia.write_register(1, 0x04); // CRA bit 2: select ORA
    pia.write_register(0, 0x02); // strobe row 2
    pia.write_register(3, 0x04); // CRB bit 2: select ORB
    assert_eq!(pia.read_register(2), 0xF7); // column 3 pulled low
    pia.set_key(2, 3, false);
    assert_eq!(pia.read_register(2), 0xFF);
    // Another row reads idle.
    pia.set_key(2, 3, true);
    pia.write_register(0, 0x03);
    assert_eq!(pia.read_register(2), 0xFF);
}

#[test]
fn test_pia_set_key_out_of_range_ignored() {
    let mut pia = Pia6821::new();
    pia.set_key(10, 0, true);
    pia.set_key(0, 8, true);
    pia.write_register(1, 0x04);
    pia.write_register(0, 0x00);
    pia.write_register(3, 0x04);
    assert_eq!(pia.read_register(2), 0xFF);
}

#[test]
fn test_pia_frame_interrupt() {
    let mut pia = Pia6821::new();
    pia.write_register(3, 0x01); // CRB bit 0: enable the line-1 interrupt
    for _ in 0..16665 {
        pia.tick(1);
    }
    assert!(!pia.irq_out());
    pia.tick(1);
    assert!(pia.irq_out());
    // Reading CRB shows the latch in bit 7 without clearing it.
    assert_eq!(pia.read_register(3) & 0x80, 0x80);
    assert!(pia.irq_out());
}

#[test]
fn test_pia_auto_type_presses_and_releases() {
    let mut pia = Pia6821::new();
    pia.write_register(1, 0x04);
    pia.write_register(3, 0x04);
    pia.auto_type(&[(7, 2), (6, 5)]);
    // The queue is worked from its end: (6,5) goes down first.
    pia.write_register(0, 0x06);
    assert_eq!(pia.read_register(2), 0xDF); // column 5 low in row 6
    for _ in 0..50000 {
        pia.tick(1);
    }
    assert_eq!(pia.read_register(2), 0xFF); // released again
    for _ in 0..50000 {
        pia.tick(1);
    }
    pia.write_register(0, 0x07);
    assert_eq!(pia.read_register(2), 0xFB); // column 2 low in row 7
}

#[test]
fn test_crtc_screen_start() {
    let mut crtc = Crtc6845::new();
    crtc.write_register(0, 12);
    crtc.write_register(1, 0x01);
    crtc.write_register(0, 13);
    crtc.write_register(1, 0x23);
    assert_eq!(crtc.screen_start_address(), 0x8123);
    assert_eq!(crtc.read_register(1), 0x23); // register 13 still latched
    assert_eq!(crtc.read_register(0), 0x00);
}

#[test]
fn test_crtc_out_of_range_register_ignored() {
    let mut crtc = Crtc6845::new();
    crtc.write_register(0, 0x1F); // latch register 31: nonexistent
    crtc.write_register(1, 0x55); // dropped
    assert_eq!(crtc.read_register(1), 0x00);
    crtc.write_register(0, 5);
    crtc.write_register(1, 0x66);
    assert_eq!(crtc.read_register(1), 0x66);
}

#[test]
fn test_pet_bus_ram_round_trip() {
    // Writing any RAM address reads the byte back, in main and video RAM.
    let mut bus = PetBus::new(test_roms());
    bus.write(0x1234, 0x56);
    assert_eq!(bus.read(0x1234), 0x56);
    bus.write(0x8001, 0x99);
    assert_eq!(bus.read(0x8001), 0x99);
    bus.write(0x87FF, 0x42);
    assert_eq!(bus.read(0x87FF), 0x42);
}

#[test]
fn test_pet_bus_rom_reads_leave_ram_alone() {
    let mut bus = PetBus::new(test_roms());
    bus.write(0x0010, 0x77);
    assert_eq!(bus.read(0xB123), 0xBB);
    assert_eq!(bus.read(0xC456), 0xCC);
    assert_eq!(bus.read(0xD789), 0xDD);
    assert_eq!(bus.read(0xE123), 0xED);
    assert_eq!(bus.read(0xF000), 0xEE);
    assert_eq!(bus.read(0xFFFF), 0xEE);
    assert_eq!(bus.read(0x0010), 0x77); // RAM untouched by the ROM reads
    // Writes into ROM are dropped.
    bus.write(0xB123, 0x00);
    assert_eq!(bus.read(0xB123), 0xBB);
    // Undecoded addresses read $FF.
    assert_eq!(bus.read(0xA000), 0xFF);
}

#[test]
fn test_pet_bus_frame_irq() {
    // With CRB bits 0 and 2 set, 16666 ticks raise the aggregate line;
    // reading the PIA data register drops it again.
    let mut bus = PetBus::new(test_roms());
    bus.write(0xE813, 0x05); // CRB: enable line-1 interrupt, select ORB
    for _ in 0..16665 {
        bus.tick();
        assert!(!bus.irq_asserted);
    }
    bus.tick();
    assert!(bus.irq_asserted);
    bus.read(0xE812); // reading port B clears the latch
    assert!(!bus.pia.irq_out());
    bus.tick();
    assert!(!bus.irq_asserted);
}

#[test]
fn test_pet_bus_via_window() {
    let mut bus = PetBus::new(test_roms());
    bus.write(0xE84B, 0x40); // ACR via its bus window
    assert_eq!(bus.read(0xE84B), 0x40);
    assert_eq!(bus.via.acr, 0x40);
}

#[test]
fn test_parse_prg() {
    let data = vec![0x00u8, 0x04, 0xAA, 0xBB];
    let (addr, payload) = parse_prg(&data).unwrap();
    assert_eq!(addr, 0x0400);
    assert_eq!(payload, vec![0xAA, 0xBB]);

    assert!(parse_prg(&[0x12]).is_none());
    assert!(parse_prg(&[]).is_none());

    let (addr, payload) = parse_prg(&[0x34, 0x12]).unwrap();
    assert_eq!(addr, 0x1234);
    assert!(payload.is_empty());
}

#[test]
fn test_render_screen_plain_and_inverted() {
    let mut ram = vec![0u8; 0x8800];
    // Glyph 0 is solid; glyph 1 is blank.
    let mut char_rom = vec![0u8; 16];
    for i in 0..8 {
        char_rom[i] = 0xFF;
    }
    // Cell (0,0) shows glyph 0 inverted: dark. Cell (0,1) shows glyph 0:
    // lit. Cell (0,2) shows glyph 1: dark.
    ram[0x8000] = 0x80;
    ram[0x8001] = 0x00;
    ram[0x8002] = 0x01;
    let frame = render_screen(&ram, &char_rom, 0);
    assert_eq!(frame.len(), 64000);
    assert!(!frame[0]); // inverted solid glyph: dark
    assert!(frame[8]); // first pixel of cell (0,1)
    assert!(!frame[16]); // blank glyph
}

#[test]
fn test_render_screen_wraps_in_video_window() {
    let mut ram = vec![0u8; 0x8800];
    let mut char_rom = vec![0u8; 8];
    for i in 0..8 {
        char_rom[i] = 0xFF;
    }
    // With the screen start at $7FF, the second cell wraps to offset 0.
    ram[0x87FF] = 0x01; // blank glyph index past the 1-glyph ROM: dark
    ram[0x8000] = 0x00; // solid
    let frame = render_screen(&ram, &char_rom, 0x07FF);
    assert!(!frame[0]);
    assert!(frame[8]);
}
