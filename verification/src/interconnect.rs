//! The memory-mapped bus: two byte arrays behind a 16-bit address space.

use crate::error::{AccessKind, EmulationError};
use crate::word::{lemma_word_is_shift_or, word, wrap16};
use vstd::prelude::*;

verus! {

/// Number of bytes of general RAM.
pub const RAM_SIZE: usize = 8192;

/// Number of bytes of video RAM.
pub const VIDEO_RAM_SIZE: usize = 8192;

/// The named ranges of the address space.
#[derive(Debug, Clone, Copy, PartialEq, Eq)]
pub enum Region {
    RestartAndInterruptVectors,
    CartridgeHeader,
    CartridgeRomBank0,
    CartridgeRomSwitchableBank,
    VideoRam,
    CartridgeRam,
    InternalRamBank0,
    InternalRamSwitchableBank,
    EchoRam,
    ObjectAttributeMemory,
    Unusable,
    HardwareIoRegisters,
    ZeroPage,
    InterruptEnableRegister,
}

impl Region {
    /// The first address of the region.
    pub open spec fn first(self) -> u16 {
        match self {
            Region::RestartAndInterruptVectors => 0x0000,
            Region::CartridgeHeader => 0x0100,
            Region::CartridgeRomBank0 => 0x0150,
            Region::CartridgeRomSwitchableBank => 0x4000,
            Region::VideoRam => 0x8000,
            Region::CartridgeRam => 0xA000,
            Region::InternalRamBank0 => 0xC000,
            Region::InternalRamSwitchableBank => 0xD000,
            Region::EchoRam => 0xE000,
            Region::ObjectAttributeMemory => 0xFE00,
            Region::Unusable => 0xFEA0,
            Region::HardwareIoRegisters => 0xFF00,
            Region::ZeroPage => 0xFF80,
            Region::InterruptEnableRegister => 0xFFFF,
        }
    }

    /// The last address of the region.
    pub open spec fn last(self) -> u16 {
        match self {
            Region::RestartAndInterruptVectors => 0x00FF,
            Region::CartridgeHeader => 0x014F,
            Region::CartridgeRomBank0 => 0x3FFF,
            Region::CartridgeRomSwitchableBank => 0x7FFF,
            Region::VideoRam => 0x9FFF,
            Region::CartridgeRam => 0xBFFF,
            Region::InternalRamBank0 => 0xCFFF,
            Region::InternalRamSwitchableBank => 0xDFFF,
            Region::EchoRam => 0xFDFF,
            Region::ObjectAttributeMemory => 0xFE9F,
            Region::Unusable => 0xFEFF,
            Region::HardwareIoRegisters => 0xFF7F,
            Region::ZeroPage => 0xFFFE,
            Region::InterruptEnableRegister => 0xFFFF,
        }
    }

    /// Whether `address` lies in the region.
    pub open spec fn contains(self, address: u16) -> bool {
        self.first() <= address <= self.last()
    }

    /// The region that `address` lies in.
    pub fn of(address: u16) -> (region: Region)
        ensures
            region.contains(address),
    {
        if address <= 0x00FF {
            Region::RestartAndInterruptVectors
        } else if address <= 0x014F {
            Region::CartridgeHeader
        } else if address <= 0x3FFF {
            Region::CartridgeRomBank0
        } else if address <= 0x7FFF {
            Region::CartridgeRomSwitchableBank
        } else if address <= 0x9FFF {
            Region::VideoRam
        } else if address <= 0xBFFF {
            Region::CartridgeRam
        } else if address <= 0xCFFF {
            Region::InternalRamBank0
        } else if address <= 0xDFFF {
            Region::InternalRamSwitchableBank
        } else if address <= 0xFDFF {
            Region::EchoRam
        } else if address <= 0xFE9F {
            Region::ObjectAttributeMemory
        } else if address <= 0xFEFF {
            Region::Unusable
        } else if address <= 0xFF7F {
            Region::HardwareIoRegisters
        } else if address <= 0xFFFE {
            Region::ZeroPage
        } else {
            Region::InterruptEnableRegister
        }
    }
}

/// No address lies in two regions: a region that contains `address` is the
/// only one that does.
pub proof fn lemma_regions_are_disjoint(a: Region, b: Region, address: u16)
    requires
        a.contains(address),
        b.contains(address),
    ensures
        a == b,
{
}

/// Every address lies in some region.
pub proof fn lemma_regions_cover_the_address_space(address: u16)
    ensures
        exists|region: Region| region.contains(address),
{
    if address <= 0x00FF {
        assert(Region::RestartAndInterruptVectors.contains(address));
    } else if address <= 0x014F {
        assert(Region::CartridgeHeader.contains(address));
    } else if address <= 0x3FFF {
        assert(Region::CartridgeRomBank0.contains(address));
    } else if address <= 0x7FFF {
        assert(Region::CartridgeRomSwitchableBank.contains(address));
    } else if address <= 0x9FFF {
        assert(Region::VideoRam.contains(address));
    } else if address <= 0xBFFF {
        assert(Region::CartridgeRam.contains(address));
    } else if address <= 0xCFFF {
        assert(Region::InternalRamBank0.contains(address));
    } else if address <= 0xDFFF {
        assert(Region::InternalRamSwitchableBank.contains(address));
    } else if address <= 0xFDFF {
        assert(Region::EchoRam.contains(address));
    } else if address <= 0xFE9F {
        assert(Region::ObjectAttributeMemory.contains(address));
    } else if address <= 0xFEFF {
        assert(Region::Unusable.contains(address));
    } else if address <= 0xFF7F {
        assert(Region::HardwareIoRegisters.contains(address));
    } else if address <= 0xFFFE {
        assert(Region::ZeroPage.contains(address));
    } else {
        assert(Region::InterruptEnableRegister.contains(address));
    }
}

/// The parts of video RAM, by offset from its first byte.
#[derive(Debug, Clone, Copy, PartialEq, Eq)]
pub enum VideoRamArea {
    /// Tile patterns.
    CharacterRam,
    /// The first background map.
    BgMapData1,
    /// The second background map.
    BgMapData2,
}

impl VideoRamArea {
    /// The offset of the first byte of the area.
    pub open spec fn first(self) -> u16 {
        match self {
            VideoRamArea::CharacterRam => 0x0000,
            VideoRamArea::BgMapData1 => 0x1800,
            VideoRamArea::BgMapData2 => 0x1C00,
        }
    }

    /// The offset of the last byte of the area.
    pub open spec fn last(self) -> u16 {
        match self {
            VideoRamArea::CharacterRam => 0x17FF,
            VideoRamArea::BgMapData1 => 0x1BFF,
            VideoRamArea::BgMapData2 => 0x1FFF,
        }
    }

    /// Whether the byte at `offset` belongs to the area.
    pub open spec fn contains(self, offset: u16) -> bool {
        self.first() <= offset <= self.last()
    }
}

/// The areas of video RAM do not overlap.
pub proof fn lemma_video_ram_areas_are_disjoint(a: VideoRamArea, b: VideoRamArea, offset: u16)
    requires
        a.contains(offset),
        b.contains(offset),
    ensures
        a == b,
{
}

/// What a write that the bus accepted did.
#[derive(Debug, Clone, Copy, PartialEq, Eq)]
pub enum BusWrite {
    /// The value was stored in video RAM, in the given area.
    VideoRam(VideoRamArea),
    /// The value went to a hardware I/O register, which keeps nothing.
    HardwareIoRegister,
}

/// The contents of the bus: the bytes of general RAM and of video RAM.
pub struct BusState {
    pub ram: Seq<u8>,
    pub vram: Seq<u8>,
}

/// The area of video RAM that holds the byte at `offset`.
pub open spec fn area_of(offset: u16) -> VideoRamArea {
    if VideoRamArea::CharacterRam.contains(offset) {
        VideoRamArea::CharacterRam
    } else if VideoRamArea::BgMapData1.contains(offset) {
        VideoRamArea::BgMapData1
    } else {
        VideoRamArea::BgMapData2
    }
}

/// General RAM after construction: the boot image from address 0 on, as far
/// as it fits, and zero after it.
pub open spec fn ram_with_boot_image(image: Seq<u8>) -> Seq<u8> {
    Seq::new(
        RAM_SIZE as nat,
        |i: int|
            if i < image.len() {
                image[i]
            } else {
                0u8
            },
    )
}

impl BusState {
    /// Both arrays have their fixed length.
    pub open spec fn wf(self) -> bool {
        &&& self.ram.len() == RAM_SIZE
        &&& self.vram.len() == VIDEO_RAM_SIZE
    }

    /// The bus as constructed from a boot image.
    pub open spec fn initial(image: Seq<u8>) -> BusState {
        BusState {
            ram: ram_with_boot_image(image),
            vram: Seq::new(VIDEO_RAM_SIZE as nat, |i: int| 0u8),
        }
    }

    /// Whether a read at `address` reaches one of the two arrays.
    ///
    /// General RAM answers for the addresses below its size, where the boot
    /// image lies; video RAM answers for its own region.
    pub open spec fn readable(address: u16) -> bool {
        address < RAM_SIZE || Region::VideoRam.contains(address)
    }

    /// Whether the bus accepts a write at `address`.
    pub open spec fn writable(address: u16) -> bool {
        Region::VideoRam.contains(address) || Region::HardwareIoRegisters.contains(address)
    }

    /// The byte that a read at `address` returns.
    pub open spec fn read_u8(self, address: u16) -> Result<u8, EmulationError> {
        if address < RAM_SIZE {
            Ok(self.ram[address as int])
        } else if Region::VideoRam.contains(address) {
            Ok(self.vram[address - Region::VideoRam.first()])
        } else {
            Err(EmulationError::UnimplementedMemoryRegion { address, access_kind: AccessKind::Read })
        }
    }

    /// The word that a 16-bit read at `address` returns: the byte at
    /// `address` is its lower half, the byte at the next address its upper
    /// half. The address after 0xFFFF is 0. The upper half is read first, so
    /// where neither byte can be read the error names the second address.
    pub open spec fn read_u16(self, address: u16) -> Result<u16, EmulationError> {
        match self.read_u8(wrap16(address, 1)) {
            Err(error) => Err(error),
            Ok(high) => match self.read_u8(address) {
                Err(error) => Err(error),
                Ok(low) => Ok(word(high, low)),
            },
        }
    }

    /// The bus after a write of `value` at `address`, and what the write did.
    pub open spec fn write_u8(self, address: u16, value: u8) -> Result<
        (BusState, BusWrite),
        EmulationError,
    > {
        if Region::VideoRam.contains(address) {
            let offset = (address - Region::VideoRam.first()) as u16;
            Ok(
                (
                    BusState { ram: self.ram, vram: self.vram.update(offset as int, value) },
                    BusWrite::VideoRam(area_of(offset)),
                ),
            )
        } else if Region::HardwareIoRegisters.contains(address) {
            Ok((self, BusWrite::HardwareIoRegister))
        } else {
            Err(
                EmulationError::UnimplementedMemoryRegion { address, access_kind: AccessKind::Write },
            )
        }
    }
}

/// The bus: general RAM, video RAM, and the dispatch of every access to one
/// of them by address.
#[derive(Debug)]
pub struct Interconnect {
    ram: [u8; 8192],
    vram: [u8; 8192],
}

impl View for Interconnect {
    type V = BusState;

    closed spec fn view(&self) -> BusState {
        BusState { ram: self.ram@, vram: self.vram@ }
    }
}

impl Interconnect {
    /// The arrays of a bus always have their fixed length.
    pub proof fn lemma_view_wf(&self)
        ensures
            self@.wf(),
    {
    }

    /// A bus whose general RAM starts with `bootrom` and is zero after it,
    /// and whose video RAM is zero. Of an image longer than general RAM only
    /// the part that fits is taken.
    pub fn new(bootrom: &mut [u8]) -> (bus: Interconnect)
        ensures
            bus@ == BusState::initial(old(bootrom)@),
            final(bootrom)@ == old(bootrom)@,
    {
        let mut ram = [0u8; 8192];
        let count = if bootrom.len() < RAM_SIZE {
            bootrom.len()
        } else {
            RAM_SIZE
        };
        let mut i: usize = 0;
        while i < count
            invariant
                i <= count <= RAM_SIZE,
                count <= bootrom@.len(),
                bootrom@ == old(bootrom)@,
                forall|j: int| 0 <= j < i ==> ram@[j] == bootrom@[j],
                forall|j: int| i <= j < RAM_SIZE ==> ram@[j] == 0u8,
            decreases count - i,
        {
            ram[i] = bootrom[i];
            i += 1;
        }
        let bus = Interconnect { ram, vram: [0u8; 8192] };
        assert(bus@.ram =~= ram_with_boot_image(bootrom@));
        assert(bus@.vram =~= Seq::new(VIDEO_RAM_SIZE as nat, |i: int| 0u8));
        bus
    }

    /// Reads the byte at `address` from the array that answers for it.
    pub fn read_u8(&self, address: u16) -> (result: Result<u8, EmulationError>)
        ensures
            result == self@.read_u8(address),
    {
        if (address as usize) < RAM_SIZE {
            Ok(self.ram[address as usize])
        } else if 0x8000 <= address && address <= 0x9FFF {
            Ok(self.vram[(address - 0x8000) as usize])
        } else {
            Err(EmulationError::UnimplementedMemoryRegion { address, access_kind: AccessKind::Read })
        }
    }

    /// Reads the little-endian word whose low byte is at `address`.
    pub fn read_u16(&self, address: u16) -> (result: Result<u16, EmulationError>)
        ensures
            result == self@.read_u16(address),
    {
        let high = self.read_u8(address.wrapping_add(1))?;
        let low = self.read_u8(address)?;
        proof {
            lemma_word_is_shift_or(high, low);
        }
        Ok(((high as u16) << 8) | (low as u16))
    }

    /// Writes `value` at `address`: into video RAM, or to a hardware I/O
    /// register, which drops it. Every other region refuses the write, and
    /// the bus is then as it was.
    pub fn write_u8(&mut self, address: u16, value: u8) -> (result: Result<
        BusWrite,
        EmulationError,
    >)
        ensures
            match result {
                Ok(done) => {
                    &&& old(self)@.write_u8(address, value) matches Ok(written)
                    &&& written == (final(self)@, done)
                },
                Err(error) => {
                    &&& old(self)@.write_u8(address, value) matches Err(refusal)
                    &&& refusal == error
                    &&& final(self)@ == old(self)@
                },
            },
    {
        match Region::of(address) {
            Region::VideoRam => Ok(BusWrite::VideoRam(self.write_video_ram_u8(address - 0x8000, value))),
            Region::HardwareIoRegisters => Ok(self.write_hardware_io_reg(value)),
            _ => Err(
                EmulationError::UnimplementedMemoryRegion { address, access_kind: AccessKind::Write },
            ),
        }
    }

    /// A write to a hardware I/O register: nothing is stored.
    fn write_hardware_io_reg(&mut self, value: u8) -> (done: BusWrite)
        ensures
            done == BusWrite::HardwareIoRegister,
            final(self)@ == old(self)@,
    {
        BusWrite::HardwareIoRegister
    }

    /// Stores `value` in video RAM at `offset` and tells which area took it.
    fn write_video_ram_u8(&mut self, offset: u16, value: u8) -> (area: VideoRamArea)
        requires
            offset < VIDEO_RAM_SIZE,
        ensures
            area == area_of(offset),
            final(self)@ == (BusState {
                ram: old(self)@.ram,
                vram: old(self)@.vram.update(offset as int, value),
            }),
    {
        let area = if offset >= 0x1C00 {
            VideoRamArea::BgMapData2
        } else if offset >= 0x1800 {
            VideoRamArea::BgMapData1
        } else {
            VideoRamArea::CharacterRam
        };
        self.vram[offset as usize] = value;
        area
    }
}

} // verus!
