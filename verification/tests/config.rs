use radio_sniffer::config::{
    apply_writes, clock_is_running, config_writes, configure, sniffer_config, Reg, RegisterBlock,
};

#[test]
fn configure_reaches_the_planned_state() {
    let c = sniffer_config(255);
    let mut via_plan = RegisterBlock::at_reset();
    apply_writes(&mut via_plan, &config_writes(&c));
    let mut direct = RegisterBlock::at_reset();
    configure(&mut direct, &c);
    assert_eq!(direct, via_plan);
}

#[test]
fn framing_and_crc_register_values() {
    // Channel 0, low band, address base 0xADBEEF00, prefix 0xDE, max length
    // 255: the plan must encode a 6-bit length field and a 2-bit auxiliary
    // field, and the CRC seed and polynomial registers exactly.
    let c = sniffer_config(255);
    let plan = config_writes(&c);
    let value_of = |reg: Reg| -> u32 {
        plan.iter()
            .find(|w| w.reg == reg)
            .expect("register missing from plan")
            .value
    };
    // 6-bit length field in bits 0..3, S0 flagged in bit 8, 2-bit auxiliary
    // field in bits 16..19.
    assert_eq!(value_of(Reg::Pcnf0), 0x0002_0106);
    assert_eq!(value_of(Reg::CrcInit), 0x555555);
    assert_eq!(value_of(Reg::CrcPoly), 0x65B);
}

#[test]
fn full_plan_values_and_order() {
    let c = sniffer_config(255);
    let plan = config_writes(&c);
    let regs: Vec<Reg> = plan.iter().map(|w| w.reg).collect();
    assert_eq!(
        regs,
        vec![
            Reg::Power,
            Reg::Frequency,
            Reg::DataWhiteIv,
            Reg::Base0,
            Reg::Prefix0,
            Reg::RxAddresses,
            Reg::Pcnf0,
            Reg::Pcnf1,
            Reg::CrcCnf,
            Reg::CrcInit,
            Reg::CrcPoly,
            Reg::Shorts,
        ]
    );
    let values: Vec<u32> = plan.iter().map(|w| w.value).collect();
    assert_eq!(
        values,
        vec![
            1,           // power on
            0x100,       // channel 0, low band selector in bit 8
            37,          // whitening initialization value
            0xADBEEF00,  // address base
            0xDE,        // address prefix, slot 0
            1,           // match on address slot 0 only
            0x0002_0106, // 6-bit length field, S0 bit, 2-bit auxiliary field
            0x0203_00FF, // max length 255, 3-byte base address, whitening on
            0x103,       // 3-byte CRC, skipping the address
            0x555555,    // CRC seed
            0x65B,       // CRC polynomial from taps {10, 9, 6, 4, 3, 1, 0}
            1,           // ready-to-start shortcut armed
        ]
    );
}

#[test]
fn reduced_test_payload_bound() {
    let c = sniffer_config(8);
    let plan = config_writes(&c);
    let pcnf1 = plan.iter().find(|w| w.reg == Reg::Pcnf1).unwrap().value;
    assert_eq!(pcnf1, 0x0203_0008);
}

#[test]
fn replaying_the_plan_configures_the_block() {
    let c = sniffer_config(255);
    let plan = config_writes(&c);
    let mut rb = RegisterBlock::at_reset();
    apply_writes(&mut rb, &plan);
    assert_eq!(rb.power, 1);
    assert_eq!(rb.frequency, 0x100);
    assert_eq!(rb.datawhiteiv, 37);
    assert_eq!(rb.base0, 0xADBEEF00);
    assert_eq!(rb.prefix0, 0xDE);
    assert_eq!(rb.rxaddresses, 1);
    assert_eq!(rb.pcnf0, 0x0002_0106);
    assert_eq!(rb.pcnf1, 0x0203_00FF);
    assert_eq!(rb.crccnf, 0x103);
    assert_eq!(rb.crcinit, 0x555555);
    assert_eq!(rb.crcpoly, 0x65B);
    assert_eq!(rb.shorts, 1);
    // The configurator leaves the event and task registers alone.
    assert_eq!(rb.events_end, 0);
    assert_eq!(rb.tasks_start, 0);
}

#[test]
fn clock_status_bit() {
    assert!(!clock_is_running(0));
    assert!(clock_is_running(0x10000));
    assert!(clock_is_running(0x10001));
    assert!(!clock_is_running(0xFFFF));
}
