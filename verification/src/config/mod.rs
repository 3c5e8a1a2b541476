//! Platform configuration of the MCU: the memory map, from which the memory
//! region access control (MRAC) register value is computed, and the straps.
pub mod boot;
pub mod capabilities;

use vstd::prelude::*;

verus! {

/// The properties of a memory region for the MRAC computation.
#[derive(Debug, Clone, Copy, PartialEq, Eq, Structural)]
pub struct MemoryRegionType {
    /// The region has side effects (MMIO).
    pub side_effect: bool,
    /// The region may be cached (memory).
    pub cacheable: bool,
}

/// Memory: cacheable, no side effects.
pub open spec fn memory_type() -> MemoryRegionType {
    MemoryRegionType { side_effect: false, cacheable: true }
}

/// MMIO: side effects, not cacheable.
pub open spec fn mmio_type() -> MemoryRegionType {
    MemoryRegionType { side_effect: true, cacheable: false }
}

impl MemoryRegionType {
    /// Memory: cacheable, no side effects.
    #[allow(non_snake_case)]
    pub fn MEMORY() -> (r: MemoryRegionType)
        ensures
            r == memory_type(),
    {
        MemoryRegionType { side_effect: false, cacheable: true }
    }

    /// MMIO: side effects, not cacheable.
    #[allow(non_snake_case)]
    pub fn MMIO() -> (r: MemoryRegionType)
        ensures
            r == mmio_type(),
    {
        MemoryRegionType { side_effect: true, cacheable: false }
    }

    /// An unmapped region: side effects, not cacheable (as MMIO).
    #[allow(non_snake_case)]
    pub fn UNMAPPED() -> (r: MemoryRegionType)
        ensures
            r == mmio_type(),
    {
        MemoryRegionType { side_effect: true, cacheable: false }
    }
}

/// The memory map of the MCU: offset, size and properties of each region.
#[derive(Debug, Clone, Copy)]
pub struct McuMemoryMap {
    pub rom_offset: u32,
    pub rom_size: u32,
    pub rom_stack_size: u32,
    pub rom_properties: MemoryRegionType,
    pub sram_offset: u32,
    pub sram_size: u32,
    pub sram_properties: MemoryRegionType,
    pub pic_offset: u32,
    pub pic_properties: MemoryRegionType,
    pub dccm_offset: u32,
    pub dccm_size: u32,
    pub dccm_properties: MemoryRegionType,
    pub i3c_offset: u32,
    pub i3c_size: u32,
    pub i3c_properties: MemoryRegionType,
    pub mci_offset: u32,
    pub mci_size: u32,
    pub mci_properties: MemoryRegionType,
    pub mbox_offset: u32,
    pub mbox_size: u32,
    pub mbox_properties: MemoryRegionType,
    pub soc_offset: u32,
    pub soc_size: u32,
    pub soc_properties: MemoryRegionType,
    pub otp_offset: u32,
    pub otp_size: u32,
    pub otp_properties: MemoryRegionType,
    pub lc_offset: u32,
    pub lc_size: u32,
    pub lc_properties: MemoryRegionType,
}

/// The default memory map.
pub open spec fn default_memory_map() -> McuMemoryMap {
    McuMemoryMap {
        rom_offset: 0x8000_0000,
        rom_size: 0x8000,
        rom_stack_size: 0x3000,
        rom_properties: memory_type(),
        dccm_offset: 0x5000_0000,
        dccm_size: 0x4_0000,
        dccm_properties: memory_type(),
        sram_offset: 0x4000_0000,
        sram_size: 0x8_0000,
        sram_properties: memory_type(),
        pic_offset: 0x6000_0000,
        pic_properties: mmio_type(),
        i3c_offset: 0x2000_4000,
        i3c_size: 0x1000,
        i3c_properties: mmio_type(),
        mci_offset: 0x2100_0000,
        mci_size: 0xe0_0000,
        mci_properties: mmio_type(),
        mbox_offset: 0x3002_0000,
        mbox_size: 0x28,
        mbox_properties: mmio_type(),
        soc_offset: 0x3003_0000,
        soc_size: 0x5e0,
        soc_properties: mmio_type(),
        otp_offset: 0x7000_0000,
        otp_size: 0x140,
        otp_properties: mmio_type(),
        lc_offset: 0x7000_0400,
        lc_size: 0x8c,
        lc_properties: mmio_type(),
    }
}

impl Default for McuMemoryMap {
    fn default() -> (r: Self)
        ensures
            r == default_memory_map(),
    {
        McuMemoryMap {
            rom_offset: 0x8000_0000,
            rom_size: 32 * 1024,
            rom_stack_size: 0x3000,
            rom_properties: MemoryRegionType::MEMORY(),
            dccm_offset: 0x5000_0000,
            dccm_size: 256 * 1024,
            dccm_properties: MemoryRegionType::MEMORY(),
            sram_offset: 0x4000_0000,
            sram_size: 512 * 1024,
            sram_properties: MemoryRegionType::MEMORY(),
            pic_offset: 0x6000_0000,
            pic_properties: MemoryRegionType::MMIO(),
            i3c_offset: 0x2000_4000,
            i3c_size: 0x1000,
            i3c_properties: MemoryRegionType::MMIO(),
            mci_offset: 0x2100_0000,
            mci_size: 0xe0_0000,
            mci_properties: MemoryRegionType::MMIO(),
            mbox_offset: 0x3002_0000,
            mbox_size: 0x28,
            mbox_properties: MemoryRegionType::MMIO(),
            soc_offset: 0x3003_0000,
            soc_size: 0x5e0,
            soc_properties: MemoryRegionType::MMIO(),
            otp_offset: 0x7000_0000,
            otp_size: 0x140,
            otp_properties: MemoryRegionType::MMIO(),
            lc_offset: 0x7000_0400,
            lc_size: 0x8c,
            lc_properties: MemoryRegionType::MMIO(),
        }
    }
}

/// Values that are strapped or fixed for a platform.
#[derive(Debug, Clone, Copy, PartialEq, Eq, Structural)]
pub struct McuStraps {
    pub i3c_static_addr: u8,
    pub axi_user0: u32,
    pub axi_user1: u32,
    pub cptra_wdt_cfg0: u32,
    pub cptra_wdt_cfg1: u32,
    pub mcu_wdt_cfg0: u32,
    pub mcu_wdt_cfg1: u32,
}

impl McuStraps {
    /// The default straps.
    pub fn default() -> (r: Self)
        ensures
            r == (McuStraps {
                i3c_static_addr: 0x3a,
                axi_user0: 0xcccc_cccc,
                axi_user1: 0xdddd_dddd,
                cptra_wdt_cfg0: 100_000_000,
                cptra_wdt_cfg1: 100_000_000,
                mcu_wdt_cfg0: 20_000_000,
                mcu_wdt_cfg1: 1,
            }),
    {
        McuStraps {
            i3c_static_addr: 0x3a,
            axi_user0: 0xcccc_cccc,
            axi_user1: 0xdddd_dddd,
            cptra_wdt_cfg0: 100_000_000,
            cptra_wdt_cfg1: 100_000_000,
            mcu_wdt_cfg0: 20_000_000,
            mcu_wdt_cfg1: 1,
        }
    }
}

/// The size of each MRAC region (256 MB).
pub const MRAC_REGION_SIZE: u32 = 0x1000_0000;

/// The number of MRAC regions.
pub const MRAC_REGION_COUNT: usize = 16;

/// A region of the memory map as the MRAC computation sees it: offset, size
/// and properties.
pub type MapRegion = (u32, u32, MemoryRegionType);

/// The last address of a region of nonzero size (the end saturates at the top
/// of the address space).
pub open spec fn region_last_address(offset: u32, size: u32) -> u32 {
    offset.saturating_add(size).saturating_sub(1)
}

/// The region covers MRAC region `r`.
pub open spec fn covers(region: MapRegion, r: int) -> bool {
    let (offset, size, _) = region;
    &&& size != 0
    &&& offset / MRAC_REGION_SIZE <= r
    &&& r <= region_last_address(offset, size) / MRAC_REGION_SIZE
}

/// The state of an MRAC region when one more memory region covers it: an
/// unassigned region takes the properties of the memory region; memory that
/// meets MMIO becomes MMIO; otherwise the region keeps its properties.
pub open spec fn merge(cur: (bool, MemoryRegionType), new: MemoryRegionType) -> (bool, MemoryRegionType) {
    if !cur.0 {
        (true, new)
    } else if cur.1 == memory_type() && new == mmio_type() {
        (true, mmio_type())
    } else {
        cur
    }
}

/// Whether MRAC region `r` is assigned, and its properties, after the given
/// memory regions are processed in order.
pub open spec fn region_state(regions: Seq<MapRegion>, r: int) -> (bool, MemoryRegionType)
    decreases regions.len(),
{
    if regions.len() == 0 {
        (false, mmio_type())
    } else {
        let prev = region_state(regions.drop_last(), r);
        if covers(regions.last(), r) {
            merge(prev, regions.last().2)
        } else {
            prev
        }
    }
}

/// Some memory region covers MRAC region `r`.
pub open spec fn covered(regions: Seq<MapRegion>, r: int) -> bool {
    exists|k: int| 0 <= k < regions.len() && #[trigger] covers(regions[k], r)
}

/// Some MMIO region covers MRAC region `r`.
pub open spec fn covered_by_mmio(regions: Seq<MapRegion>, r: int) -> bool {
    exists|k: int| 0 <= k < regions.len() && #[trigger] covers(regions[k], r) && regions[k].2 == mmio_type()
}

/// MMIO wins: when every memory region is either memory or MMIO, an MRAC
/// region is treated as memory exactly when some memory region covers it and
/// no MMIO region does, whatever the order of the regions; otherwise it is
/// treated as MMIO (an uncovered region has the same properties).
pub proof fn lemma_mrac_mmio_wins(regions: Seq<MapRegion>, r: int)
    requires
        forall|k: int|
            0 <= k < regions.len() ==> #[trigger] regions[k].2 == memory_type() || regions[k].2
                == mmio_type(),
    ensures
        region_state(regions, r).0 == covered(regions, r),
        region_state(regions, r).1 == (if covered(regions, r) && !covered_by_mmio(regions, r) {
            memory_type()
        } else {
            mmio_type()
        }),
    decreases regions.len(),
{
    if regions.len() > 0 {
        let prev = regions.drop_last();
        let n = regions.len() - 1;
        assert forall|k: int| 0 <= k < prev.len() implies #[trigger] prev[k].2 == memory_type()
            || prev[k].2 == mmio_type() by {
            assert(prev[k] == regions[k]);
        }
        lemma_mrac_mmio_wins(prev, r);
        assert(regions.last() == regions[n]);
        if covered(prev, r) {
            let k = choose|k: int| 0 <= k < prev.len() && #[trigger] covers(prev[k], r);
            assert(prev[k] == regions[k]);
            assert(covers(regions[k], r));
        }
        if covered_by_mmio(prev, r) {
            let k = choose|k: int| 0 <= k < prev.len() && #[trigger] covers(prev[k], r) && prev[k].2 == mmio_type();
            assert(prev[k] == regions[k]);
            assert(covers(regions[k], r));
        }
        if covered(regions, r) {
            let k = choose|k: int| 0 <= k < regions.len() && #[trigger] covers(regions[k], r);
            if k < n {
                assert(prev[k] == regions[k]);
                assert(covers(prev[k], r));
            }
        }
        if covered_by_mmio(regions, r) {
            let k = choose|k: int| 0 <= k < regions.len() && #[trigger] covers(regions[k], r) && regions[k].2 == mmio_type();
            if k < n {
                assert(prev[k] == regions[k]);
                assert(covers(prev[k], r));
            }
        }
    }
}

/// The two MRAC bits of region properties: side effect (bit 1) and
/// cacheable (bit 0).
pub open spec fn type_bits(t: MemoryRegionType) -> u32 {
    (if t.side_effect { 2u32 } else { 0u32 }) | (if t.cacheable { 1u32 } else { 0u32 })
}

/// The two bits of MRAC region `i` in a register value.
pub open spec fn mrac_field(mrac: u32, i: int) -> u32 {
    (mrac >> ((2 * i) as u32)) & 3u32
}

/// The register value built from the first `n` MRAC regions: the two bits
/// of region `i` at bits `2 i` and `2 i + 1`.
pub open spec fn mrac_bits_upto(regions: Seq<MapRegion>, n: nat) -> u32
    decreases n,
{
    if n == 0 {
        0u32
    } else {
        mrac_bits_upto(regions, (n - 1) as nat) | (type_bits(region_state(regions, n - 1).1) << ((2 * (n - 1)) as u32))
    }
}

/// Applies one memory region to the state of the MRAC regions.
fn process_region(
    types: &mut [MemoryRegionType; MRAC_REGION_COUNT],
    assigned: &mut [bool; MRAC_REGION_COUNT],
    region: MapRegion,
)
    ensures
        forall|r: int|
            0 <= r < MRAC_REGION_COUNT ==> (#[trigger] final(assigned)@[r], final(types)@[r]) == (if covers(region, r) {
                merge((old(assigned)@[r], old(types)@[r]), region.2)
            } else {
                (old(assigned)@[r], old(types)@[r])
            }),
{
    let (offset, size, region_type) = region;
    if size == 0 {
        return;
    }
    let start_region = McuMemoryMap::get_mrac_region(offset);
    let end_address = offset.saturating_add(size).saturating_sub(1);
    let end_region = McuMemoryMap::get_mrac_region(end_address);
    let last = if end_region < 15 {
        end_region
    } else {
        15
    };
    let ghost t0 = types@;
    let ghost a0 = assigned@;
    let mut idx = start_region;
    while idx <= last
        invariant
            start_region <= idx <= last + 1,
            last < MRAC_REGION_COUNT,
            start_region == offset / MRAC_REGION_SIZE,
            last == region_last_address(offset, size) / MRAC_REGION_SIZE,
            size != 0,
            region == (offset, size, region_type),
            t0.len() == MRAC_REGION_COUNT,
            a0.len() == MRAC_REGION_COUNT,
            forall|r: int|
                0 <= r < MRAC_REGION_COUNT ==> (#[trigger] assigned@[r], types@[r]) == (if start_region <= r < idx {
                    merge((a0[r], t0[r]), region_type)
                } else {
                    (a0[r], t0[r])
                }),
        decreases last + 1 - idx,
    {
        let cur_assigned = assigned[idx];
        let cur_type = types[idx];
        if !cur_assigned {
            types[idx] = region_type;
            assigned[idx] = true;
        } else if cur_type == MemoryRegionType::MEMORY() && region_type == MemoryRegionType::MMIO() {
            types[idx] = MemoryRegionType::MMIO();
        }
        idx = idx + 1;
    }
}

/// Setting the bits of region `i` above the regions set so far.
proof fn lemma_or_field(m: u32, b: u32, i: u32, j: u32)
    requires
        i < 16,
        b <= 3,
        m >> (2 * i) == 0,
    ensures
        j < i ==> ((m | (b << (2 * i))) >> (2 * j)) & 3 == (m >> (2 * j)) & 3,
        ((m | (b << (2 * i))) >> (2 * i)) & 3 == b,
        i < 15 ==> (m | (b << (2 * i))) >> (2 * (i + 1)) == 0,
{
    assert(j < i ==> ((m | (b << (2 * i))) >> (2 * j)) & 3 == (m >> (2 * j)) & 3) by (bit_vector)
        requires
            i < 16,
            b <= 3,
            m >> (2 * i) == 0,
    ;
    assert(((m | (b << (2 * i))) >> (2 * i)) & 3 == b) by (bit_vector)
        requires
            i < 16,
            b <= 3,
            m >> (2 * i) == 0,
    ;
    assert(i < 15 ==> (m | (b << (2 * i))) >> (2 * (i + 1)) == 0) by (bit_vector)
        requires
            i < 16,
            b <= 3,
            m >> (2 * i) == 0,
    ;
}

impl McuMemoryMap {
    /// The MRAC region of an address: its 256 MB block.
    pub fn get_mrac_region(address: u32) -> (r: usize)
        ensures
            r == address / MRAC_REGION_SIZE,
            r < MRAC_REGION_COUNT,
    {
        (address / MRAC_REGION_SIZE) as usize
    }

    /// The memory regions in the order the MRAC computation takes them; the
    /// PIC has no size in the map and counts as 4 KB.
    pub open spec fn mrac_regions(&self) -> Seq<MapRegion> {
        seq![
            (self.rom_offset, self.rom_size, self.rom_properties),
            (self.sram_offset, self.sram_size, self.sram_properties),
            (self.dccm_offset, self.dccm_size, self.dccm_properties),
            (self.pic_offset, 0x1000u32, self.pic_properties),
            (self.i3c_offset, self.i3c_size, self.i3c_properties),
            (self.mci_offset, self.mci_size, self.mci_properties),
            (self.mbox_offset, self.mbox_size, self.mbox_properties),
            (self.soc_offset, self.soc_size, self.soc_properties),
            (self.otp_offset, self.otp_size, self.otp_properties),
            (self.lc_offset, self.lc_size, self.lc_properties),
        ]
    }

    /// The MRAC register value of the map: for each of the 16 regions of
    /// 256 MB, the side-effect and cacheable bits of the properties the
    /// memory regions give it.
    pub fn compute_mrac(&self) -> (r: u32)
        ensures
            forall|i: int|
                0 <= i < MRAC_REGION_COUNT ==> #[trigger] mrac_field(r, i) == type_bits(
                    region_state(self.mrac_regions(), i).1,
                ),
            r == mrac_bits_upto(self.mrac_regions(), MRAC_REGION_COUNT as nat),
    {
        let regions: [MapRegion; 10] = [
            (self.rom_offset, self.rom_size, self.rom_properties),
            (self.sram_offset, self.sram_size, self.sram_properties),
            (self.dccm_offset, self.dccm_size, self.dccm_properties),
            (self.pic_offset, 0x1000, self.pic_properties),
            (self.i3c_offset, self.i3c_size, self.i3c_properties),
            (self.mci_offset, self.mci_size, self.mci_properties),
            (self.mbox_offset, self.mbox_size, self.mbox_properties),
            (self.soc_offset, self.soc_size, self.soc_properties),
            (self.otp_offset, self.otp_size, self.otp_properties),
            (self.lc_offset, self.lc_size, self.lc_properties),
        ];
        assert(regions@ =~= self.mrac_regions());
        let u = MemoryRegionType::UNMAPPED();
        let mut types = [u, u, u, u, u, u, u, u, u, u, u, u, u, u, u, u];
        let mut assigned = [false, false, false, false, false, false, false, false, false, false, false, false, false, false, false, false];
        let mut k: usize = 0;
        assert(regions@.take(0) =~= Seq::<MapRegion>::empty());
        while k < 10
            invariant
                k <= 10,
                regions@ == self.mrac_regions(),
                forall|r: int|
                    0 <= r < MRAC_REGION_COUNT ==> (#[trigger] assigned@[r], types@[r]) == region_state(
                        regions@.take(k as int),
                        r,
                    ),
            decreases 10 - k,
        {
            process_region(&mut types, &mut assigned, regions[k]);
            assert(regions@.take(k + 1).drop_last() =~= regions@.take(k as int));
            k = k + 1;
        }
        assert(regions@.take(10) =~= regions@);
        assert forall|r: int| 0 <= r < MRAC_REGION_COUNT implies #[trigger] types@[r] == region_state(self.mrac_regions(), r).1 by {
            assert((assigned@[r], types@[r]) == region_state(regions@.take(10), r));
        }
        let mut mrac_value: u32 = 0;
        assert(0u32 >> 0u32 == 0u32) by (bit_vector);
        let mut i: usize = 0;
        while i < MRAC_REGION_COUNT
            invariant
                i <= MRAC_REGION_COUNT,
                forall|r: int| 0 <= r < MRAC_REGION_COUNT ==> #[trigger] types@[r] == region_state(self.mrac_regions(), r).1,
                forall|j: int| 0 <= j < i ==> #[trigger] mrac_field(mrac_value, j) == type_bits(types@[j]),
                i < MRAC_REGION_COUNT ==> mrac_value >> (2 * i as u32) == 0,
                mrac_value == mrac_bits_upto(self.mrac_regions(), i as nat),
            decreases MRAC_REGION_COUNT - i,
        {
            let t = types[i];
            let se = t.side_effect;
            let ca = t.cacheable;
            let bits: u32 = (if se {
                2u32
            } else {
                0u32
            }) | (if ca {
                1u32
            } else {
                0u32
            });
            assert(bits <= 3) by (bit_vector)
                requires
                    bits == (if se { 2u32 } else { 0u32 }) | (if ca { 1u32 } else { 0u32 }),
            ;
            let ghost old_value = mrac_value;
            mrac_value = mrac_value | (bits << (2 * i as u32));
            proof {
                assert forall|j: int| 0 <= j < i + 1 implies #[trigger] mrac_field(mrac_value, j) == type_bits(types@[j]) by {
                    lemma_or_field(old_value, bits, i as u32, j as u32);
                    if j < i {
                        assert(mrac_field(old_value, j) == type_bits(types@[j]));
                    }
                }
                lemma_or_field(old_value, bits, i as u32, 0);
            }
            i = i + 1;
        }
        mrac_value
    }

    /// The variables of the linker script templates, each with its value
    /// written as `0x` and lowercase hexadecimal digits: the ROM offset, size
    /// and stack size, the DCCM offset and size, and the MRAC value.
    pub fn linker_variables(&self) -> (r: Vec<(String, String)>)
        ensures
            r@.len() == 6,
            r@[0].0@ == "ROM_OFFSET"@ && r@[0].1@ == hex_text(self.rom_offset as nat),
            r@[1].0@ == "ROM_SIZE"@ && r@[1].1@ == hex_text(self.rom_size as nat),
            r@[2].0@ == "ROM_STACK_SIZE"@ && r@[2].1@ == hex_text(self.rom_stack_size as nat),
            r@[3].0@ == "DCCM_OFFSET"@ && r@[3].1@ == hex_text(self.dccm_offset as nat),
            r@[4].0@ == "DCCM_SIZE"@ && r@[4].1@ == hex_text(self.dccm_size as nat),
            r@[5].0@ == "MRAC_VALUE"@,
            r@[5].1@ == hex_text(mrac_bits_upto(self.mrac_regions(), MRAC_REGION_COUNT as nat) as nat),
    {
        let mut v: Vec<(String, String)> = Vec::new();
        v.push(("ROM_OFFSET".to_owned(), format_hex(self.rom_offset)));
        v.push(("ROM_SIZE".to_owned(), format_hex(self.rom_size)));
        v.push(("ROM_STACK_SIZE".to_owned(), format_hex(self.rom_stack_size)));
        v.push(("DCCM_OFFSET".to_owned(), format_hex(self.dccm_offset)));
        v.push(("DCCM_SIZE".to_owned(), format_hex(self.dccm_size)));
        let mrac = self.compute_mrac();
        let text = format_hex(mrac);
        v.push(("MRAC_VALUE".to_owned(), text));
        v
    }
}

/// The lowercase hexadecimal digit of a value below 16.
pub open spec fn hex_digit(d: nat) -> char {
    if d == 0 {
        '0'
    } else if d == 1 {
        '1'
    } else if d == 2 {
        '2'
    } else if d == 3 {
        '3'
    } else if d == 4 {
        '4'
    } else if d == 5 {
        '5'
    } else if d == 6 {
        '6'
    } else if d == 7 {
        '7'
    } else if d == 8 {
        '8'
    } else if d == 9 {
        '9'
    } else if d == 10 {
        'a'
    } else if d == 11 {
        'b'
    } else if d == 12 {
        'c'
    } else if d == 13 {
        'd'
    } else if d == 14 {
        'e'
    } else {
        'f'
    }
}

/// The lowercase hexadecimal digits of a value, with no leading zero (one
/// `0` for zero).
pub open spec fn hex_digits(v: nat) -> Seq<char>
    decreases v,
{
    if v < 16 {
        seq![hex_digit(v)]
    } else {
        hex_digits(v / 16).push(hex_digit(v % 16))
    }
}

/// A value written as `0x` and its lowercase hexadecimal digits.
pub open spec fn hex_text(v: nat) -> Seq<char> {
    seq!['0', 'x'] + hex_digits(v)
}

/// `format!("0x{:x}", v)`: `0x`, then the lowercase hexadecimal digits of
/// `v` without leading zeros, as the `LowerHex` formatting of integers is
/// documented to write them.
#[verifier::external_body]
fn format_hex(v: u32) -> (r: String)
    ensures
        r@ == hex_text(v as nat),
{
    format!("0x{:x}", v)
}

} // verus!
