//! The Radio Configurator: the register values and the ordered write plan
//! that set the transceiver up for continuous promiscuous reception.
//!
//! The hardware register block is modeled as a struct of plain register
//! values; the configurator is expressed both as an ordered plan of writes
//! (which a caller replays onto the memory-mapped registers, in order) and
//! as the configured state those writes produce on the model.

use vstd::prelude::*;

use crate::crc::crc_mask_of;
use crate::crc::crc_poly_mask;
use crate::crc::taps_valid;

verus! {

/// Number of bits of the on-air length field.
pub const LENGTH_FIELD_BITS: u32 = 6;

/// Number of bits of the auxiliary (S1) field.
pub const AUX_FIELD_BITS: u32 = 2;

/// Length in bytes of the base part of the on-air address.
pub const BASE_ADDRESS_LENGTH: u32 = 3;

/// Width in bytes of the CRC checksum.
pub const CRC_LENGTH_BYTES: u32 = 3;

/// The compile-time inputs of the configurator. One structure covers the
/// full-size capture buffer as well as reduced test payload bounds.
pub struct RadioConfig {
    /// Channel index combined with the band selector to fix the carrier.
    pub channel: u8,
    /// Whether the low frequency band is selected.
    pub low_band: bool,
    /// The 4-byte base of the network (access) address.
    pub base_address: u32,
    /// The 1-byte prefix of the network (access) address.
    pub address_prefix: u8,
    /// Initialization value of the on-air bit-whitening scheme.
    pub whitening_iv: u8,
    /// Largest payload the packet buffer accepts.
    pub max_payload_length: u8,
    /// Seed of the CRC engine.
    pub crc_seed: u32,
    /// Tap positions of the CRC generator polynomial.
    pub crc_taps: Vec<u8>,
}

impl RadioConfig {
    /// The fields fit their hardware register fields: a 7-bit channel index,
    /// a 7-bit whitening value, a 24-bit CRC seed, and taps that are bit
    /// indices of a 32-bit polynomial register.
    pub open spec fn wf(self) -> bool {
        &&& self.channel < 128
        &&& self.whitening_iv < 128
        &&& self.crc_seed < 0x1000000
        &&& taps_valid(self.crc_taps@)
    }
}

/// The fixed configuration of the sniffer: channel 0 on the low band,
/// network address `0xADBEEF00` with prefix `0xDE`, whitening value 37,
/// CRC seed `0x555555` and taps `{10, 9, 6, 4, 3, 1, 0}`.
pub fn sniffer_config(max_payload_length: u8) -> (c: RadioConfig)
    ensures
        c.wf(),
        c.channel == 0,
        c.low_band,
        c.base_address == 0xADBEEF00u32,
        c.address_prefix == 0xDEu8,
        c.whitening_iv == 37,
        c.max_payload_length == max_payload_length,
        c.crc_seed == 0x555555u32,
        c.crc_taps@ == seq![10u8, 9u8, 6u8, 4u8, 3u8, 1u8, 0u8],
{
    let crc_taps: Vec<u8> = vec![10, 9, 6, 4, 3, 1, 0];
    proof {
        assert(crc_taps@ =~= seq![10u8, 9u8, 6u8, 4u8, 3u8, 1u8, 0u8]);
    }
    RadioConfig {
        channel: 0,
        low_band: true,
        base_address: 0xADBEEF00,
        address_prefix: 0xDE,
        whitening_iv: 37,
        max_payload_length,
        crc_seed: 0x555555,
        crc_taps,
    }
}

/// The control and status registers of the transceiver that the sniffer
/// touches, as plain values. A caller keeps the memory-mapped block in step
/// with this model by replaying every write.
#[derive(Clone, Copy, Debug, PartialEq, Eq, Structural)]
pub struct RegisterBlock {
    pub power: u32,
    pub frequency: u32,
    pub datawhiteiv: u32,
    pub base0: u32,
    pub prefix0: u32,
    pub rxaddresses: u32,
    pub pcnf0: u32,
    pub pcnf1: u32,
    pub crccnf: u32,
    pub crcinit: u32,
    pub crcpoly: u32,
    pub shorts: u32,
    pub events_end: u32,
    pub tasks_start: u32,
}

impl RegisterBlock {
    /// A block whose registers all read zero, the reset state the
    /// configurator starts from.
    pub fn at_reset() -> (rb: RegisterBlock)
        ensures
            rb == (RegisterBlock {
                power: 0u32,
                frequency: 0u32,
                datawhiteiv: 0u32,
                base0: 0u32,
                prefix0: 0u32,
                rxaddresses: 0u32,
                pcnf0: 0u32,
                pcnf1: 0u32,
                crccnf: 0u32,
                crcinit: 0u32,
                crcpoly: 0u32,
                shorts: 0u32,
                events_end: 0u32,
                tasks_start: 0u32,
            }),
    {
        RegisterBlock {
            power: 0,
            frequency: 0,
            datawhiteiv: 0,
            base0: 0,
            prefix0: 0,
            rxaddresses: 0,
            pcnf0: 0,
            pcnf1: 0,
            crccnf: 0,
            crcinit: 0,
            crcpoly: 0,
            shorts: 0,
            events_end: 0,
            tasks_start: 0,
        }
    }
}

/// The registers the configurator writes, in the model block.
#[derive(Clone, Copy, Debug, PartialEq, Eq, Structural)]
pub enum Reg {
    Power,
    Frequency,
    DataWhiteIv,
    Base0,
    Prefix0,
    RxAddresses,
    Pcnf0,
    Pcnf1,
    CrcCnf,
    CrcInit,
    CrcPoly,
    Shorts,
}

/// One register write of the configuration plan.
#[derive(Clone, Copy, Debug, PartialEq, Eq, Structural)]
pub struct RegWrite {
    pub reg: Reg,
    pub value: u32,
}

/// FREQUENCY register value: the channel index in bits 0..6 and the band
/// selector in bit 8 (set selects the low band).
pub open spec fn frequency_value(c: RadioConfig) -> u32 {
    (c.channel + if c.low_band {
        0x100int
    } else {
        0int
    }) as u32
}

/// PREFIX0 register value: the address prefix in bits 0..7 (address slot 0).
pub open spec fn prefix0_value(c: RadioConfig) -> u32 {
    c.address_prefix as u32
}

/// RXADDRESSES register value: matching enabled on address slot 0 only.
pub open spec fn rxaddresses_value() -> u32 {
    1u32
}

/// PCNF0 register value: a 6-bit length field in bits 0..3, a one-bit S0
/// field flagged in bit 8, and a 2-bit auxiliary (S1) field in bits 16..19.
pub open spec fn pcnf0_value() -> u32 {
    (LENGTH_FIELD_BITS + 0x100 + AUX_FIELD_BITS * 0x10000) as u32
}

/// PCNF1 register value: the maximum payload length in bits 0..7, no static
/// length, a 3-byte base address length in bits 16..18, little-endian bit
/// ordering (bit 24 clear) and whitening enabled (bit 25 set).
pub open spec fn pcnf1_value(c: RadioConfig) -> u32 {
    (c.max_payload_length + BASE_ADDRESS_LENGTH * 0x10000 + 0x2000000) as u32
}

/// CRCCNF register value: a 3-byte checksum in bits 0..1, skipping the
/// address when computing it (bit 8 set).
pub open spec fn crccnf_value() -> u32 {
    (CRC_LENGTH_BYTES + 0x100) as u32
}

/// SHORTS register value: the ready-to-start shortcut armed in bit 0, so
/// reaching the ready state begins listening without software intervention.
pub open spec fn shorts_value() -> u32 {
    1u32
}

/// The ordered write plan of the configurator. Power comes first, the
/// shortcut last; each write lands in its own register, so only writes to
/// the same register depend on their order.
pub open spec fn config_writes_spec(c: RadioConfig) -> Seq<RegWrite> {
    seq![
        RegWrite { reg: Reg::Power, value: 1u32 },
        RegWrite { reg: Reg::Frequency, value: frequency_value(c) },
        RegWrite { reg: Reg::DataWhiteIv, value: c.whitening_iv as u32 },
        RegWrite { reg: Reg::Base0, value: c.base_address },
        RegWrite { reg: Reg::Prefix0, value: prefix0_value(c) },
        RegWrite { reg: Reg::RxAddresses, value: rxaddresses_value() },
        RegWrite { reg: Reg::Pcnf0, value: pcnf0_value() },
        RegWrite { reg: Reg::Pcnf1, value: pcnf1_value(c) },
        RegWrite { reg: Reg::CrcCnf, value: crccnf_value() },
        RegWrite { reg: Reg::CrcInit, value: c.crc_seed },
        RegWrite { reg: Reg::CrcPoly, value: crc_mask_of(c.crc_taps@) },
        RegWrite { reg: Reg::Shorts, value: shorts_value() },
    ]
}

/// Computes the ordered write plan for a configuration.
pub fn config_writes(c: &RadioConfig) -> (plan: Vec<RegWrite>)
    requires
        c.wf(),
    ensures
        plan@ == config_writes_spec(*c),
{
    let mut plan: Vec<RegWrite> = Vec::new();
    plan.push(RegWrite { reg: Reg::Power, value: 1 });
    plan.push(RegWrite { reg: Reg::Frequency, value: c.channel as u32 + if c.low_band { 0x100 } else { 0 } });
    plan.push(RegWrite { reg: Reg::DataWhiteIv, value: c.whitening_iv as u32 });
    plan.push(RegWrite { reg: Reg::Base0, value: c.base_address });
    plan.push(RegWrite { reg: Reg::Prefix0, value: c.address_prefix as u32 });
    plan.push(RegWrite { reg: Reg::RxAddresses, value: 1 });
    plan.push(RegWrite { reg: Reg::Pcnf0, value: LENGTH_FIELD_BITS + 0x100 + AUX_FIELD_BITS * 0x10000 });
    plan.push(RegWrite { reg: Reg::Pcnf1, value: c.max_payload_length as u32 + BASE_ADDRESS_LENGTH * 0x10000 + 0x2000000 });
    plan.push(RegWrite { reg: Reg::CrcCnf, value: CRC_LENGTH_BYTES + 0x100 });
    plan.push(RegWrite { reg: Reg::CrcInit, value: c.crc_seed });
    plan.push(RegWrite { reg: Reg::CrcPoly, value: crc_poly_mask(&c.crc_taps) });
    plan.push(RegWrite { reg: Reg::Shorts, value: 1 });
    proof {
        assert(plan@ =~= config_writes_spec(*c));
    }
    plan
}

/// The effect of one write of the plan on the model block.
pub open spec fn apply_write_spec(rb: RegisterBlock, w: RegWrite) -> RegisterBlock {
    match w.reg {
        Reg::Power => RegisterBlock { power: w.value, ..rb },
        Reg::Frequency => RegisterBlock { frequency: w.value, ..rb },
        Reg::DataWhiteIv => RegisterBlock { datawhiteiv: w.value, ..rb },
        Reg::Base0 => RegisterBlock { base0: w.value, ..rb },
        Reg::Prefix0 => RegisterBlock { prefix0: w.value, ..rb },
        Reg::RxAddresses => RegisterBlock { rxaddresses: w.value, ..rb },
        Reg::Pcnf0 => RegisterBlock { pcnf0: w.value, ..rb },
        Reg::Pcnf1 => RegisterBlock { pcnf1: w.value, ..rb },
        Reg::CrcCnf => RegisterBlock { crccnf: w.value, ..rb },
        Reg::CrcInit => RegisterBlock { crcinit: w.value, ..rb },
        Reg::CrcPoly => RegisterBlock { crcpoly: w.value, ..rb },
        Reg::Shorts => RegisterBlock { shorts: w.value, ..rb },
    }
}

/// Performs one write of the plan on the model block.
pub fn apply_write(rb: &mut RegisterBlock, w: &RegWrite)
    ensures
        *final(rb) == apply_write_spec(*old(rb), *w),
{
    match w.reg {
        Reg::Power => rb.power = w.value,
        Reg::Frequency => rb.frequency = w.value,
        Reg::DataWhiteIv => rb.datawhiteiv = w.value,
        Reg::Base0 => rb.base0 = w.value,
        Reg::Prefix0 => rb.prefix0 = w.value,
        Reg::RxAddresses => rb.rxaddresses = w.value,
        Reg::Pcnf0 => rb.pcnf0 = w.value,
        Reg::Pcnf1 => rb.pcnf1 = w.value,
        Reg::CrcCnf => rb.crccnf = w.value,
        Reg::CrcInit => rb.crcinit = w.value,
        Reg::CrcPoly => rb.crcpoly = w.value,
        Reg::Shorts => rb.shorts = w.value,
    }
}

/// The effect of a sequence of writes, applied first to last.
pub open spec fn apply_writes_spec(rb: RegisterBlock, ws: Seq<RegWrite>) -> RegisterBlock
    decreases ws.len(),
{
    if ws.len() == 0 {
        rb
    } else {
        apply_write_spec(apply_writes_spec(rb, ws.drop_last()), ws.last())
    }
}

/// The state of a block configured for continuous promiscuous reception:
/// every configuration register holds its planned value, and the event and
/// task registers are as the configurator found them.
pub open spec fn configured_spec(rb: RegisterBlock, c: RadioConfig) -> RegisterBlock {
    RegisterBlock {
        power: 1u32,
        frequency: frequency_value(c),
        datawhiteiv: c.whitening_iv as u32,
        base0: c.base_address,
        prefix0: prefix0_value(c),
        rxaddresses: rxaddresses_value(),
        pcnf0: pcnf0_value(),
        pcnf1: pcnf1_value(c),
        crccnf: crccnf_value(),
        crcinit: c.crc_seed,
        crcpoly: crc_mask_of(c.crc_taps@),
        shorts: shorts_value(),
        events_end: rb.events_end,
        tasks_start: rb.tasks_start,
    }
}

/// Replays the whole write plan onto the model block.
pub fn apply_writes(rb: &mut RegisterBlock, plan: &Vec<RegWrite>)
    ensures
        *final(rb) == apply_writes_spec(*old(rb), plan@),
{
    let mut i: usize = 0;
    while i < plan.len()
        invariant
            i <= plan.len(),
            *rb == apply_writes_spec(*old(rb), plan@.take(i as int)),
        decreases plan.len() - i,
    {
        proof {
            assert(plan@.take(i + 1).drop_last() =~= plan@.take(i as int));
            assert(plan@.take(i + 1).last() == plan@[i as int]);
        }
        apply_write(rb, &plan[i]);
        i = i + 1;
    }
    proof {
        assert(plan@.take(plan@.len() as int) =~= plan@);
    }
}

/// Replaying the configurator's plan on any block leaves it configured:
/// the plan and the configured state agree, write order included.
pub proof fn lemma_plan_configures(rb: RegisterBlock, c: RadioConfig)
    ensures
        apply_writes_spec(rb, config_writes_spec(c)) == configured_spec(rb, c),
{
    let ws = config_writes_spec(c);
    assert(apply_writes_spec(rb, ws) == configured_spec(rb, c)) by {
        reveal_with_fuel(apply_writes_spec, 13);
        assert(ws.drop_last() =~= ws.take(11));
        assert(ws.take(11).drop_last() =~= ws.take(10));
        assert(ws.take(10).drop_last() =~= ws.take(9));
        assert(ws.take(9).drop_last() =~= ws.take(8));
        assert(ws.take(8).drop_last() =~= ws.take(7));
        assert(ws.take(7).drop_last() =~= ws.take(6));
        assert(ws.take(6).drop_last() =~= ws.take(5));
        assert(ws.take(5).drop_last() =~= ws.take(4));
        assert(ws.take(4).drop_last() =~= ws.take(3));
        assert(ws.take(3).drop_last() =~= ws.take(2));
        assert(ws.take(2).drop_last() =~= ws.take(1));
        assert(ws.take(1).drop_last() =~= ws.take(0));
    }
}

/// Configures the model block: computes the plan and replays it, leaving the
/// block in the configured state.
pub fn configure(rb: &mut RegisterBlock, c: &RadioConfig)
    requires
        c.wf(),
    ensures
        *final(rb) == configured_spec(*old(rb), *c),
{
    let plan = config_writes(c);
    apply_writes(rb, &plan);
    proof {
        lemma_plan_configures(*old(rb), *c);
    }
}

/// Whether the high-frequency clock status register reports the clock as
/// running: its state bit (bit 16). Starting the clock and polling this
/// status until it is set is the hardware precondition of radio operation.
pub fn clock_is_running(hfclkstat: u32) -> (running: bool)
    ensures
        running == (hfclkstat & 0x10000u32 != 0),
{
    hfclkstat & 0x10000 != 0
}

} // verus!
