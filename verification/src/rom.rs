use crate::bits::{lemma_pair_exec, pair};
use vstd::prelude::*;

verus! {

/// The size of a ROM bank.
pub const BANK_SIZE: usize = 0x4000;

/// The size of a cartridge RAM bank.
pub const SRAM_SIZE: usize = 0x4000;

/// The number of cartridge RAM banks.
pub const SRAM_BANKS: usize = 4;

/// The cartridge header, which lies in bank 0 from 0x0100 on, and the vectors below it.
pub struct GBHeader {
    pub vectors: Vec<u8>,
    pub start: Vec<u8>,
    pub logo: Vec<u8>,
    pub game_title: Vec<u8>,
    pub mfg_code: Vec<u8>,
    pub gbc_flag: u8,
    pub new_licensee_code: Vec<u8>,
    pub sgb_flag: u8,
    pub cart_type: u8,
    pub rom_size: u8,
    pub ram_size: u8,
    pub dest_code: u8,
    pub old_licensee_code: u8,
    pub rom_version: u8,
    pub header_checksum: u8,
    pub global_checksum: u16,
}

impl GBHeader {
    /// Each field holds the bytes of bank 0 at its fixed place. The global checksum has its
    /// low byte at 0x014E and its high byte at 0x014F.
    pub open spec fn read_from(self, bank0: Seq<u8>) -> bool {
        &&& self.vectors@ == bank0.subrange(0, 0x100)
        &&& self.start@ == bank0.subrange(0x100, 0x104)
        &&& self.logo@ == bank0.subrange(0x104, 0x134)
        &&& self.game_title@ == bank0.subrange(0x134, 0x13F)
        &&& self.mfg_code@ == bank0.subrange(0x13F, 0x143)
        &&& self.gbc_flag == bank0[0x143]
        &&& self.new_licensee_code@ == bank0.subrange(0x144, 0x146)
        &&& self.sgb_flag == bank0[0x146]
        &&& self.cart_type == bank0[0x147]
        &&& self.rom_size == bank0[0x148]
        &&& self.ram_size == bank0[0x149]
        &&& self.dest_code == bank0[0x14A]
        &&& self.old_licensee_code == bank0[0x14B]
        &&& self.rom_version == bank0[0x14C]
        &&& self.header_checksum == bank0[0x14D]
        &&& self.global_checksum == pair(bank0[0x14F], bank0[0x14E])
    }
}

/// The kind of cartridge, as the header byte at 0x0147 names it.
#[derive(Debug, PartialEq, Eq, Structural, Copy, Clone)]
pub enum CartType {
    RomOnly,
    MBC1,
    MBC1Ram,
    MBC1RamBatt,
    MBC2,
    MBC2RamBatt,
    RomRam,
    RomRamBatt,
    MMM01,
    MMM01Ram,
    MMM01RamBatt,
    MBC3TimerBatt,
    MBC3RamTimerBatt,
    MBC3,
    MBC3Ram,
    MBC3RamBattery,
    MBC5,
    MBC5Ram,
    MBC5RamBattery,
    MBC5Rumble,
    MBC5RamRumble,
    MBC5RamBatteryRumble,
    MBC6RamBat,
    MBC7RamBatAccel,
    PocketCam,
    BandaiTama5,
    HuC3,
    HuC1RamBat,
}

/// The bank controller that decodes writes to the ROM region.
#[derive(Debug, PartialEq, Eq, Structural, Copy, Clone)]
pub enum Mapper {
    /// No controller, or one that is not supported: writes are ignored.
    Fixed,
    MBC1,
    MBC2,
    MBC3,
    MBC5,
}

impl CartType {
    /// The header byte that names this kind of cartridge.
    pub open spec fn spec_code(self) -> u8 {
        match self {
            CartType::RomOnly => 0x00,
            CartType::MBC1 => 0x01,
            CartType::MBC1Ram => 0x02,
            CartType::MBC1RamBatt => 0x03,
            CartType::MBC2 => 0x05,
            CartType::MBC2RamBatt => 0x06,
            CartType::RomRam => 0x08,
            CartType::RomRamBatt => 0x09,
            CartType::MMM01 => 0x0B,
            CartType::MMM01Ram => 0x0C,
            CartType::MMM01RamBatt => 0x0D,
            CartType::MBC3TimerBatt => 0x0F,
            CartType::MBC3RamTimerBatt => 0x10,
            CartType::MBC3 => 0x11,
            CartType::MBC3Ram => 0x12,
            CartType::MBC3RamBattery => 0x13,
            CartType::MBC5 => 0x19,
            CartType::MBC5Ram => 0x1A,
            CartType::MBC5RamBattery => 0x1B,
            CartType::MBC5Rumble => 0x1C,
            CartType::MBC5RamRumble => 0x1D,
            CartType::MBC5RamBatteryRumble => 0x1E,
            CartType::MBC6RamBat => 0x20,
            CartType::MBC7RamBatAccel => 0x22,
            CartType::PocketCam => 0xFC,
            CartType::BandaiTama5 => 0xFD,
            CartType::HuC3 => 0xFE,
            CartType::HuC1RamBat => 0xFF,
        }
    }

    /// The kind of cartridge that a header byte names, if it names one.
    pub open spec fn spec_from_code(value: u8) -> Option<CartType> {
        if exists|t: CartType| t.spec_code() == value {
            Some(choose|t: CartType| t.spec_code() == value)
        } else {
            None
        }
    }

    pub open spec fn spec_mapper(self) -> Mapper {
        match self {
            CartType::MBC1 | CartType::MBC1Ram | CartType::MBC1RamBatt => Mapper::MBC1,
            CartType::MBC2 | CartType::MBC2RamBatt => Mapper::MBC2,
            CartType::MBC3
            | CartType::MBC3Ram
            | CartType::MBC3RamBattery
            | CartType::MBC3TimerBatt
            | CartType::MBC3RamTimerBatt => Mapper::MBC3,
            CartType::MBC5
            | CartType::MBC5Ram
            | CartType::MBC5RamBattery
            | CartType::MBC5Rumble
            | CartType::MBC5RamRumble
            | CartType::MBC5RamBatteryRumble => Mapper::MBC5,
            _ => Mapper::Fixed,
        }
    }

    pub fn code(self) -> (r: u8)
        ensures
            r == self.spec_code(),
    {
        match self {
            CartType::RomOnly => 0x00,
            CartType::MBC1 => 0x01,
            CartType::MBC1Ram => 0x02,
            CartType::MBC1RamBatt => 0x03,
            CartType::MBC2 => 0x05,
            CartType::MBC2RamBatt => 0x06,
            CartType::RomRam => 0x08,
            CartType::RomRamBatt => 0x09,
            CartType::MMM01 => 0x0B,
            CartType::MMM01Ram => 0x0C,
            CartType::MMM01RamBatt => 0x0D,
            CartType::MBC3TimerBatt => 0x0F,
            CartType::MBC3RamTimerBatt => 0x10,
            CartType::MBC3 => 0x11,
            CartType::MBC3Ram => 0x12,
            CartType::MBC3RamBattery => 0x13,
            CartType::MBC5 => 0x19,
            CartType::MBC5Ram => 0x1A,
            CartType::MBC5RamBattery => 0x1B,
            CartType::MBC5Rumble => 0x1C,
            CartType::MBC5RamRumble => 0x1D,
            CartType::MBC5RamBatteryRumble => 0x1E,
            CartType::MBC6RamBat => 0x20,
            CartType::MBC7RamBatAccel => 0x22,
            CartType::PocketCam => 0xFC,
            CartType::BandaiTama5 => 0xFD,
            CartType::HuC3 => 0xFE,
            CartType::HuC1RamBat => 0xFF,
        }
    }

    pub fn mapper(self) -> (r: Mapper)
        ensures
            r == self.spec_mapper(),
    {
        match self {
            CartType::MBC1 | CartType::MBC1Ram | CartType::MBC1RamBatt => Mapper::MBC1,
            CartType::MBC2 | CartType::MBC2RamBatt => Mapper::MBC2,
            CartType::MBC3
            | CartType::MBC3Ram
            | CartType::MBC3RamBattery
            | CartType::MBC3TimerBatt
            | CartType::MBC3RamTimerBatt => Mapper::MBC3,
            CartType::MBC5
            | CartType::MBC5Ram
            | CartType::MBC5RamBattery
            | CartType::MBC5Rumble
            | CartType::MBC5RamRumble
            | CartType::MBC5RamBatteryRumble => Mapper::MBC5,
            _ => Mapper::Fixed,
        }
    }
}

/// No two kinds of cartridge share a header byte.
pub proof fn lemma_code_is_injective(s: CartType, t: CartType)
    requires
        s.spec_code() == t.spec_code(),
    ensures
        s == t,
{
}

/// A kind of cartridge is read back from its own header byte.
pub proof fn lemma_from_code_of_code(t: CartType)
    ensures
        CartType::spec_from_code(t.spec_code()) == Some(t),
{
    let u = choose|u: CartType| u.spec_code() == t.spec_code();
    lemma_code_is_injective(u, t);
}

impl TryFrom<u8> for CartType {
    type Error = ();

    fn try_from(value: u8) -> (r: Result<Self, Self::Error>) {
        let r = match value {
            0x00 => Ok(CartType::RomOnly),
            0x01 => Ok(CartType::MBC1),
            0x02 => Ok(CartType::MBC1Ram),
            0x03 => Ok(CartType::MBC1RamBatt),
            0x05 => Ok(CartType::MBC2),
            0x06 => Ok(CartType::MBC2RamBatt),
            0x08 => Ok(CartType::RomRam),
            0x09 => Ok(CartType::RomRamBatt),
            0x0B => Ok(CartType::MMM01),
            0x0C => Ok(CartType::MMM01Ram),
            0x0D => Ok(CartType::MMM01RamBatt),
            0x0F => Ok(CartType::MBC3TimerBatt),
            0x10 => Ok(CartType::MBC3RamTimerBatt),
            0x11 => Ok(CartType::MBC3),
            0x12 => Ok(CartType::MBC3Ram),
            0x13 => Ok(CartType::MBC3RamBattery),
            0x19 => Ok(CartType::MBC5),
            0x1A => Ok(CartType::MBC5Ram),
            0x1B => Ok(CartType::MBC5RamBattery),
            0x1C => Ok(CartType::MBC5Rumble),
            0x1D => Ok(CartType::MBC5RamRumble),
            0x1E => Ok(CartType::MBC5RamBatteryRumble),
            0x20 => Ok(CartType::MBC6RamBat),
            0x22 => Ok(CartType::MBC7RamBatAccel),
            0xFC => Ok(CartType::PocketCam),
            0xFD => Ok(CartType::BandaiTama5),
            0xFE => Ok(CartType::HuC3),
            0xFF => Ok(CartType::HuC1RamBat),
            _ => Err(()),
        };
        proof {
            match r {
                Ok(t) => {
                    lemma_from_code_of_code(t);
                },
                Err(_) => {
                    assert forall|t: CartType| t.spec_code() != value by {}
                },
            }
        }
        r
    }
}

impl vstd::std_specs::convert::TryFromSpecImpl<u8> for CartType {
    open spec fn obeys_try_from_spec() -> bool {
        true
    }

    open spec fn try_from_spec(value: u8) -> Result<Self, Self::Error> {
        match CartType::spec_from_code(value) {
            Some(t) => Ok(t),
            None => Err(()),
        }
    }
}


/// The number of banks that an image of `len` bytes fills; an empty image still has bank 0.
pub open spec fn bank_count(len: nat) -> nat {
    if len == 0 {
        1
    } else {
        ((len + BANK_SIZE - 1) / (BANK_SIZE as int)) as nat
    }
}

/// An image cut into banks, the last one filled up with zeros.
pub open spec fn rom_image(bytes: Seq<u8>) -> Seq<Seq<u8>> {
    Seq::new(
        bank_count(bytes.len()),
        |b: int|
            Seq::new(
                BANK_SIZE as nat,
                |j: int|
                    if b * BANK_SIZE + j < bytes.len() {
                        bytes[b * BANK_SIZE + j]
                    } else {
                        0u8
                    },
            ),
    )
}

/// A cartridge: its ROM banks, its RAM banks and the registers of its bank controller.
pub struct RomView {
    pub banks: Seq<Seq<u8>>,
    pub sram: Seq<Seq<u8>>,
    pub rom_bank: u16,
    pub sram_bank: u8,
    pub sram_enabled: bool,
    pub sram_mode: bool,
    pub cart_type: CartType,
}

impl RomView {
    pub open spec fn wf(self) -> bool {
        &&& self.banks.len() >= 1
        &&& forall|b: int| 0 <= b < self.banks.len() ==> (#[trigger] self.banks[b]).len() == BANK_SIZE
        &&& self.sram.len() == SRAM_BANKS
        &&& forall|b: int| 0 <= b < self.sram.len() ==> (#[trigger] self.sram[b]).len() == SRAM_SIZE
    }

    /// A cartridge as it is plugged in: bank 1 selected, its RAM disabled and zeroed. A header
    /// byte that names no kind of cartridge gives a cartridge without bank controller.
    pub open spec fn power_on(bytes: Seq<u8>) -> RomView {
        RomView {
            banks: rom_image(bytes),
            sram: Seq::new(SRAM_BANKS as nat, |b: int| Seq::new(SRAM_SIZE as nat, |j: int| 0u8)),
            rom_bank: 1,
            sram_bank: 0,
            sram_enabled: false,
            sram_mode: false,
            cart_type: match CartType::spec_from_code(rom_image(bytes)[0][0x147]) {
                Some(t) => t,
                None => CartType::RomOnly,
            },
        }
    }

    /// The bank that shows in the switchable half of the ROM region.
    pub open spec fn selected_bank(self) -> int {
        self.rom_bank as int % self.banks.len() as int
    }

    /// The byte at `offset` of the ROM region: bank 0 below 0x4000, the selected bank above.
    pub open spec fn read(self, offset: u16) -> u8 {
        if offset < 0x4000 {
            self.banks[0][offset as int]
        } else {
            self.banks[self.selected_bank()][offset - 0x4000]
        }
    }

    /// The RAM bank that shows in the cartridge RAM window.
    pub open spec fn selected_sram_bank(self) -> int {
        if self.sram_mode {
            0
        } else {
            self.sram_bank as int % SRAM_BANKS as int
        }
    }

    pub open spec fn read_sram(self, offset: u16) -> u8 {
        if self.sram_enabled {
            self.sram[self.selected_sram_bank()][offset as int % SRAM_SIZE as int]
        } else {
            0xFF
        }
    }

    pub open spec fn write_sram(self, offset: u16, value: u8) -> RomView {
        if self.sram_enabled {
            RomView {
                sram: self.sram.update(
                    self.selected_sram_bank(),
                    self.sram[self.selected_sram_bank()].update(offset as int % SRAM_SIZE as int, value),
                ),
                ..self
            }
        } else {
            self
        }
    }

    /// A bank number of which 0 selects bank 1.
    pub open spec fn promote(bank: u16) -> u16 {
        if bank == 0 {
            1
        } else {
            bank
        }
    }

    pub open spec fn write_mbc1(self, offset: u16, value: u8) -> RomView {
        if offset < 0x2000 {
            RomView { sram_enabled: value & 0x0F == 0x0A, ..self }
        } else if offset < 0x4000 {
            RomView { rom_bank: (self.rom_bank & 0xE0) | Self::promote((value & 0x1F) as u16), ..self }
        } else if offset < 0x6000 {
            if self.sram_mode {
                RomView { sram_bank: value & 0x03, ..self }
            } else {
                RomView { rom_bank: (self.rom_bank & 0x1F) | (((value & 0x03) as u16) << 5), ..self }
            }
        } else {
            if value & 0x01 != 0 {
                RomView { sram_mode: true, rom_bank: self.rom_bank & 0x1F, ..self }
            } else {
                RomView { sram_mode: false, ..self }
            }
        }
    }

    pub open spec fn write_mbc2(self, offset: u16, value: u8) -> RomView {
        if offset < 0x2000 {
            if offset & 0x0100 == 0 {
                RomView { sram_enabled: value & 0x0F == 0x0A, ..self }
            } else {
                self
            }
        } else if offset < 0x4000 {
            if offset & 0x0100 != 0 {
                RomView { rom_bank: Self::promote((value & 0x0F) as u16), ..self }
            } else {
                self
            }
        } else {
            self
        }
    }

    pub open spec fn write_mbc3(self, offset: u16, value: u8) -> RomView {
        if offset < 0x2000 {
            RomView { sram_enabled: value & 0x0F == 0x0A, ..self }
        } else if offset < 0x4000 {
            RomView { rom_bank: Self::promote((value & 0x7F) as u16), ..self }
        } else if offset < 0x6000 {
            if value <= 0x03 {
                RomView { sram_bank: value, ..self }
            } else {
                self
            }
        } else {
            self
        }
    }

    pub open spec fn write_mbc5(self, offset: u16, value: u8) -> RomView {
        if offset < 0x2000 {
            RomView { sram_enabled: value & 0x0F == 0x0A, ..self }
        } else if offset < 0x3000 {
            let low = if self.banks.len() < 256 {
                Self::promote(value as u16)
            } else {
                value as u16
            };
            RomView { rom_bank: (self.rom_bank & 0xFF00) | low, ..self }
        } else if offset < 0x4000 {
            RomView { rom_bank: (self.rom_bank & 0x00FF) | (((value & 0x01) as u16) << 8), ..self }
        } else {
            RomView { sram_bank: value & 0x03, ..self }
        }
    }

    /// A write to the ROM region is a command to the bank controller. Without a supported
    /// controller, and outside the region, it changes nothing.
    pub open spec fn write(self, offset: u16, value: u8) -> RomView {
        if offset >= 0x8000 {
            self
        } else {
            match self.cart_type.spec_mapper() {
                Mapper::MBC1 => self.write_mbc1(offset, value),
                Mapper::MBC2 => self.write_mbc2(offset, value),
                Mapper::MBC3 => self.write_mbc3(offset, value),
                Mapper::MBC5 => self.write_mbc5(offset, value),
                Mapper::Fixed => self,
            }
        }
    }

    /// On an MBC1 in RAM banking mode, the two high bits of the ROM bank number are zero.
    pub open spec fn mbc1_mode_respected(self) -> bool {
        self.cart_type.spec_mapper() == Mapper::MBC1 && self.sram_mode ==> self.rom_bank & 0x60 == 0
    }
}

pub struct ROM {
    sram_enabled: bool,
    sram_mode: bool,
    rom_bank: u16,
    sram_bank: u8,
    banks: Vec<[u8; BANK_SIZE]>,
    sram: [[u8; SRAM_SIZE]; SRAM_BANKS],
    cart_type: CartType,
}

impl View for ROM {
    type V = RomView;

    closed spec fn view(&self) -> RomView {
        RomView {
            banks: Seq::new(self.banks@.len(), |b: int| self.banks@[b]@),
            sram: Seq::new(SRAM_BANKS as nat, |b: int| self.sram@[b]@),
            rom_bank: self.rom_bank,
            sram_bank: self.sram_bank,
            sram_enabled: self.sram_enabled,
            sram_mode: self.sram_mode,
            cart_type: self.cart_type,
        }
    }
}

/// The bytes of `bank` from `start` on, `len` of them.
fn copy_range(bank: &[u8; BANK_SIZE], start: usize, len: usize) -> (r: Vec<u8>)
    requires
        start + len <= BANK_SIZE,
    ensures
        r@ == bank@.subrange(start as int, start + len),
{
    let mut r: Vec<u8> = Vec::new();
    let mut i: usize = 0;
    while i < len
        invariant
            i <= len,
            start + len <= BANK_SIZE,
            r@ == bank@.subrange(start as int, start + i),
        decreases len - i,
    {
        r.push(bank[start + i]);
        i += 1;
    }
    r
}

impl ROM {
    #[verifier::type_invariant]
    spec fn has_bank_zero(self) -> bool {
        self.banks@.len() >= 1
    }

    /// Cuts the image into banks of 16 KiB and reads the kind of cartridge from its header.
    pub fn new(bytes: Vec<u8>) -> (r: Self)
        ensures
            r@ == RomView::power_on(bytes@),
            r@.wf(),
    {
        let n: usize = bytes.len();
        let count: usize = if n == 0 {
            1
        } else {
            (n - 1) / BANK_SIZE + 1
        };
        let mut banks: Vec<[u8; BANK_SIZE]> = Vec::new();
        let mut b: usize = 0;
        while b < count
            invariant
                b <= count,
                n == bytes@.len(),
                count == bank_count(n as nat),
                banks@.len() == b,
                forall|k: int| 0 <= k < b ==> (#[trigger] banks@[k])@ == rom_image(bytes@)[k],
            decreases count - b,
        {
            let mut bank: [u8; BANK_SIZE] = [0u8; BANK_SIZE];
            let base: usize = b * BANK_SIZE;
            let mut j: usize = 0;
            while j < BANK_SIZE && j < n - base
                invariant
                    j <= BANK_SIZE,
                    j <= n - base,
                    base == b * BANK_SIZE,
                    base <= n,
                    n == bytes@.len(),
                    forall|k: int| 0 <= k < j ==> bank@[k] == bytes@[base + k],
                    forall|k: int| j <= k < BANK_SIZE ==> bank@[k] == 0u8,
                decreases BANK_SIZE - j,
            {
                bank[j] = bytes[base + j];
                j += 1;
            }
            assert(bank@ =~= rom_image(bytes@)[b as int]);
            banks.push(bank);
            b += 1;
        }
        let kind = match CartType::try_from(banks[0][0x147]) {
            Ok(t) => t,
            Err(_) => CartType::RomOnly,
        };
        let r = ROM {
            sram_enabled: false,
            sram_mode: false,
            rom_bank: 1,
            sram_bank: 0,
            banks,
            sram: [[0u8; SRAM_SIZE]; SRAM_BANKS],
            cart_type: kind,
        };
        assert(r@.banks =~= rom_image(bytes@));
        assert(r@.sram =~~= RomView::power_on(bytes@).sram);
        r
    }

    pub fn header(&self) -> (h: GBHeader)
        ensures
            h.read_from(self@.banks[0]),
    {
        proof {
            use_type_invariant(self);
        }
        let bank0 = &self.banks[0];
        proof {
            lemma_pair_exec(0, bank0[0x14F], bank0[0x14E]);
        }
        GBHeader {
            vectors: copy_range(bank0, 0, 0x100),
            start: copy_range(bank0, 0x100, 4),
            logo: copy_range(bank0, 0x104, 48),
            game_title: copy_range(bank0, 0x134, 11),
            mfg_code: copy_range(bank0, 0x13F, 4),
            gbc_flag: bank0[0x143],
            new_licensee_code: copy_range(bank0, 0x144, 2),
            sgb_flag: bank0[0x146],
            cart_type: bank0[0x147],
            rom_size: bank0[0x148],
            ram_size: bank0[0x149],
            dest_code: bank0[0x14A],
            old_licensee_code: bank0[0x14B],
            rom_version: bank0[0x14C],
            header_checksum: bank0[0x14D],
            global_checksum: ((bank0[0x14F] as u16) << 8) | (bank0[0x14E] as u16),
        }
    }

    pub fn rom_bank(&self) -> (r: u16)
        ensures
            r == self@.rom_bank,
    {
        self.rom_bank
    }

    pub fn sram_bank(&self) -> (r: u8)
        ensures
            r == self@.sram_bank,
    {
        self.sram_bank
    }

    pub fn sram_enabled(&self) -> (r: bool)
        ensures
            r == self@.sram_enabled,
    {
        self.sram_enabled
    }

    pub fn sram_mode(&self) -> (r: bool)
        ensures
            r == self@.sram_mode,
    {
        self.sram_mode
    }

    pub fn cart_type(&self) -> (r: CartType)
        ensures
            r == self@.cart_type,
    {
        self.cart_type
    }

    /// The number of ROM banks, which is never 0.
    pub fn bank_count(&self) -> (r: usize)
        ensures
            r == self@.banks.len(),
            r >= 1,
            self@.wf(),
    {
        proof {
            use_type_invariant(self);
        }
        self.banks.len()
    }

    /// Reads the ROM region. The switchable half shows the bank `rom_bank` modulo the number
    /// of banks.
    pub fn read(&self, offset: u16) -> (r: u8)
        requires
            offset < 0x8000,
        ensures
            r == self@.read(offset),
            offset >= 0x4000 ==> r == self@.banks[self@.rom_bank as int % self@.banks.len() as int][offset - 0x4000],
    {
        proof {
            use_type_invariant(self);
        }
        if offset < BANK_SIZE as u16 {
            self.banks[0][offset as usize]
        } else {
            self.banks[self.rom_bank as usize % self.banks.len()][offset as usize - BANK_SIZE]
        }
    }

    pub fn write(&mut self, offset: u16, value: u8)
        ensures
            final(self)@ == old(self)@.write(offset, value),
    {
        proof {
            use_type_invariant(&*self);
        }
        if offset >= 0x8000 {
            return ;
        }
        match self.cart_type.mapper() {
            Mapper::MBC1 => {
                if offset < 0x2000 {
                    self.sram_enabled = (value & 0x0F) == 0x0A;
                } else if offset < 0x4000 {
                    let mut new_bank: u16 = (value & 0x1F) as u16;
                    if new_bank == 0 {
                        new_bank = 1;
                    }
                    self.rom_bank = (self.rom_bank & 0xE0) | new_bank;
                } else if offset < 0x6000 {
                    let bank: u8 = value & 0x03;
                    if self.sram_mode {
                        self.sram_bank = bank;
                    } else {
                        self.rom_bank = (self.rom_bank & 0x1F) | ((bank as u16) << 5);
                    }
                } else {
                    if (value & 0x01) != 0 {
                        self.sram_mode = true;
                        self.rom_bank = self.rom_bank & 0x1F;
                    } else {
                        self.sram_mode = false;
                    }
                }
            },
            Mapper::MBC2 => {
                if offset < 0x2000 {
                    if (offset & 0x0100) == 0 {
                        self.sram_enabled = (value & 0x0F) == 0x0A;
                    }
                } else if offset < 0x4000 {
                    if (offset & 0x0100) != 0 {
                        let mut new_bank: u16 = (value & 0x0F) as u16;
                        if new_bank == 0 {
                            new_bank = 1;
                        }
                        self.rom_bank = new_bank;
                    }
                }
            },
            Mapper::MBC3 => {
                if offset < 0x2000 {
                    self.sram_enabled = (value & 0x0F) == 0x0A;
                } else if offset < 0x4000 {
                    let mut new_bank: u16 = (value & 0x7F) as u16;
                    if new_bank == 0 {
                        new_bank = 1;
                    }
                    self.rom_bank = new_bank;
                } else if offset < 0x6000 {
                    if value <= 0x03 {
                        self.sram_bank = value;
                    }
                }
            },
            Mapper::MBC5 => {
                if offset < 0x2000 {
                    self.sram_enabled = (value & 0x0F) == 0x0A;
                } else if offset < 0x3000 {
                    let mut new_bank: u16 = value as u16;
                    if new_bank == 0 && self.banks.len() < 256 {
                        new_bank = 1;
                    }
                    self.rom_bank = (self.rom_bank & 0xFF00) | new_bank;
                } else if offset < 0x4000 {
                    self.rom_bank = (self.rom_bank & 0x00FF) | (((value & 0x01) as u16) << 8);
                } else {
                    self.sram_bank = value & 0x03;
                }
            },
            Mapper::Fixed => {},
        }
    }

    pub fn read_sram(&self, offset: u16) -> (r: u8)
        ensures
            r == self@.read_sram(offset),
    {
        if self.sram_enabled {
            let bank: usize = if self.sram_mode {
                0
            } else {
                self.sram_bank as usize % SRAM_BANKS
            };
            self.sram[bank][offset as usize % SRAM_SIZE]
        } else {
            0xFF
        }
    }

    pub fn write_sram(&mut self, offset: u16, value: u8)
        ensures
            final(self)@ == old(self)@.write_sram(offset, value),
    {
        proof {
            use_type_invariant(&*self);
        }
        if self.sram_enabled {
            let bank: usize = if self.sram_mode {
                0
            } else {
                self.sram_bank as usize % SRAM_BANKS
            };
            self.sram[bank][offset as usize % SRAM_SIZE] = value;
            assert(self@.sram =~~= old(self)@.write_sram(offset, value).sram);
            assert(self@.banks =~~= old(self)@.banks);
        }
    }
}

/// A command to the bank controller leaves the memory of the cartridge as it is.
pub proof fn lemma_write_keeps_memory(rom: RomView, offset: u16, value: u8)
    ensures
        rom.write(offset, value).banks == rom.banks,
        rom.write(offset, value).sram == rom.sram,
        rom.write(offset, value).cart_type == rom.cart_type,
        rom.wf() ==> rom.write(offset, value).wf(),
{
}

/// A write to cartridge RAM changes one byte of the selected RAM bank at most, and no register.
pub proof fn lemma_write_sram_keeps_shape(rom: RomView, offset: u16, value: u8)
    requires
        rom.wf(),
    ensures
        rom.write_sram(offset, value).wf(),
        rom.write_sram(offset, value).banks == rom.banks,
        rom.write_sram(offset, value).read_sram(offset) == (if rom.sram_enabled {
            value
        } else {
            0xFFu8
        }),
{
}

/// A cartridge as it is plugged in is not in RAM banking mode, and has bank 0 in place.
pub proof fn lemma_power_on_is_well_formed(bytes: Seq<u8>)
    ensures
        RomView::power_on(bytes).wf(),
        RomView::power_on(bytes).mbc1_mode_respected(),
        RomView::power_on(bytes).banks.len() == bank_count(bytes.len()),
{
}

/// A write to an MBC1 keeps the two high bits of the ROM bank number zero while the
/// controller is in RAM banking mode.
pub proof fn lemma_write_respects_mbc1_mode(rom: RomView, offset: u16, value: u8)
    requires
        rom.mbc1_mode_respected(),
    ensures
        rom.write(offset, value).mbc1_mode_respected(),
{
    lemma_mbc1_bits(rom.rom_bank, value);
}

proof fn lemma_mbc1_bits(bank: u16, value: u8)
    by (bit_vector)
    ensures
        (bank & 0x1F) & 0x60 == 0,
        bank & 0x60 == 0 ==> ((bank & 0xE0) | ((value & 0x1F) as u16)) & 0x60 == 0,
        bank & 0x60 == 0 ==> ((bank & 0xE0) | 1) & 0x60 == 0,
{
}

/// A bank selection never leaves the low bits of the ROM bank number zero where the
/// controller promotes bank 0 to bank 1.
pub proof fn lemma_selection_is_promoted(rom: RomView, offset: u16, value: u8)
    requires
        0x2000 <= offset < 0x4000,
    ensures
        rom.cart_type.spec_mapper() == Mapper::MBC1 ==> rom.write(offset, value).rom_bank & 0x1F != 0,
        rom.cart_type.spec_mapper() == Mapper::MBC2 && offset & 0x0100 != 0 ==> rom.write(offset, value).rom_bank != 0,
        rom.cart_type.spec_mapper() == Mapper::MBC3 ==> rom.write(offset, value).rom_bank != 0,
        rom.cart_type.spec_mapper() == Mapper::MBC5 && offset < 0x3000 && rom.banks.len() < 256 ==> rom.write(
            offset,
            value,
        ).rom_bank & 0xFF != 0,
{
    lemma_promoted_bits(rom.rom_bank, value);
}

proof fn lemma_promoted_bits(bank: u16, value: u8)
    by (bit_vector)
    ensures
        (value & 0x1F) as u16 != 0 ==> ((bank & 0xE0) | ((value & 0x1F) as u16)) & 0x1F != 0,
        ((bank & 0xE0) | 1) & 0x1F != 0,
        value != 0 ==> ((bank & 0xFF00) | (value as u16)) & 0xFF != 0,
        ((bank & 0xFF00) | 1) & 0xFF != 0,
{
}

} // verus!
