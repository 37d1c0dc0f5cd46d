//! The cartridge: an iNES image taken apart into its header, its program
//! memory and its character memory, read through mapper 0.

use crate::cartridge::mapper::prg_offset;
use crate::cartridge::mapper::Mapper;
use crate::errors::AppError;
use crate::errors::AppResult;
use crate::memory::Memory;
use vstd::prelude::*;

pub mod mapper;

verus! {

/// Length of the iNES header.
pub const HEADER_SIZE: usize = 16;

/// Length of the trainer block that may stand between header and program.
pub const TRAINER_SIZE: usize = 512;

/// Size of one program bank.
pub const PRG_BANK_SIZE: usize = 16384;

/// Size of one character bank.
pub const CHR_BANK_SIZE: usize = 8192;

/// Bit of header byte 6: vertical mirroring.
pub const MIRRORING_VERTICAL: u8 = 0b0000_0001;

/// Bit of header byte 6: battery-backed RAM on the cartridge.
pub const BATTERY_BACKED_RAM: u8 = 0b0000_0010;

/// Bit of header byte 6: a 512-byte trainer precedes the program.
pub const TRAINER_PRESENT: u8 = 0b0000_0100;

/// Bit of header byte 6: four-screen video RAM.
pub const FOUR_SCREEN_VRAM: u8 = 0b0000_1000;

/// Bits of header byte 6 that hold the low nibble of the mapper number.
pub const LOWER_MAPPER_BITS_MASK: u8 = 0b1111_0000;

/// Bits of header byte 7 that hold the high nibble of the mapper number.
pub const UPPER_MAPPER_BITS_MASK: u8 = 0b1111_0000;

/// Bit of header byte 7: VS Unisystem.
pub const VS_UNISYSTEM: u8 = 0b0000_0001;

/// Bit of header byte 7: PlayChoice-10.
pub const PLAYCHOICE_10: u8 = 0b0000_0010;

/// Bits of header byte 7 that mark the NES 2.0 format.
pub const NES2_0_INDICATOR: u8 = 0b0000_1100;

/// The fields of an iNES header that the cartridge keeps.
#[derive(Clone, Copy, Debug, PartialEq, Eq, Structural)]
pub struct Header {
    /// Number of 16 KiB program banks.
    pub prg_banks: u8,
    /// Number of 8 KiB character banks.
    pub chr_banks: u8,
    /// Header byte 6: feature bits and the low nibble of the mapper number.
    pub first_mapper_flags: u8,
    /// Header byte 7: system bits and the high nibble of the mapper number.
    pub second_mapper_flags: u8,
}

/// Whether `bytes` starts with the four magic bytes `N E S 0x1A`.
pub open spec fn has_magic(bytes: Seq<u8>) -> bool {
    &&& bytes.len() >= 4
    &&& bytes[0] == 0x4E
    &&& bytes[1] == 0x45
    &&& bytes[2] == 0x53
    &&& bytes[3] == 0x1A
}

/// What reading a header from `bytes` gives: an error for an image shorter
/// than a header or without the magic bytes, else the four header fields.
pub open spec fn parsed_header(bytes: Seq<u8>) -> Result<Header, AppError> {
    if bytes.len() < 16 {
        Err(AppError::InvalidCartridgeHeaderSize)
    } else if !has_magic(bytes) {
        Err(AppError::InvalidNesFile)
    } else {
        Ok(
            Header {
                prg_banks: bytes[4],
                chr_banks: bytes[5],
                first_mapper_flags: bytes[6],
                second_mapper_flags: bytes[7],
            },
        )
    }
}

impl Header {
    /// The mapper number: its high nibble is the high nibble of byte 7, its
    /// low nibble the high nibble of byte 6.
    pub open spec fn mapper_id(self) -> u8 {
        ((self.second_mapper_flags / 16) * 16 + self.first_mapper_flags / 16) as u8
    }

    /// Whether the header announces a trainer block.
    pub open spec fn has_trainer(self) -> bool {
        self.first_mapper_flags & TRAINER_PRESENT != 0
    }

    /// Where in the image the program memory starts: right behind the header,
    /// or behind the trainer where there is one.
    pub open spec fn prg_start(self) -> int {
        if self.has_trainer() {
            HEADER_SIZE + TRAINER_SIZE
        } else {
            HEADER_SIZE as int
        }
    }

    /// Number of bytes of program memory.
    pub open spec fn prg_size(self) -> int {
        self.prg_banks * PRG_BANK_SIZE
    }

    /// Number of bytes of character memory.
    pub open spec fn chr_size(self) -> int {
        self.chr_banks * CHR_BANK_SIZE
    }

    /// Where in the image the character memory starts: right behind the
    /// program memory.
    pub open spec fn chr_start(self) -> int {
        self.prg_start() + self.prg_size()
    }

    /// Length of an image that holds everything this header announces.
    pub open spec fn image_size(self) -> int {
        self.chr_start() + self.chr_size()
    }

    /// Reads the header at the start of an iNES image.
    pub fn new(bytes: &[u8]) -> (result: AppResult<Self>)
        ensures
            result == parsed_header(bytes@),
    {
        if bytes.len() < 16 {
            return Err(AppError::InvalidCartridgeHeaderSize);
        }
        if bytes[0] != 0x4E || bytes[1] != 0x45 || bytes[2] != 0x53 || bytes[3] != 0x1A {
            return Err(AppError::InvalidNesFile);
        }
        Ok(
            Self {
                prg_banks: bytes[4],
                chr_banks: bytes[5],
                first_mapper_flags: bytes[6],
                second_mapper_flags: bytes[7],
            },
        )
    }

    /// The mapper number that the header asks for.
    pub fn get_mapper_id(&self) -> (id: u8)
        ensures
            id == self.mapper_id(),
    {
        let first = self.first_mapper_flags;
        let second = self.second_mapper_flags;
        let lower = (first & LOWER_MAPPER_BITS_MASK) >> 4;
        let upper = second & UPPER_MAPPER_BITS_MASK;
        assert(((second & 0xF0) | ((first & 0xF0) >> 4)) == (second / 16) * 16 + first / 16)
            by (bit_vector);
        upper | lower
    }

    /// Whether the header announces a trainer block.
    pub fn trainer_present(&self) -> (present: bool)
        ensures
            present == self.has_trainer(),
    {
        self.first_mapper_flags & TRAINER_PRESENT != 0
    }
}

/// What a cartridge holds.
pub struct CartridgeView {
    /// The header that the image came with.
    pub header: Header,
    /// The address translator.
    pub mapper: Mapper,
    /// Program memory, byte by byte.
    pub prg: Seq<u8>,
    /// Character memory, byte by byte.
    pub chr: Seq<u8>,
}

impl CartridgeView {
    /// A cartridge as loading makes it: mapper 0, a translator that knows the
    /// header's bank counts, and memories of the sizes that the header
    /// announces.
    pub open spec fn wf(self) -> bool {
        &&& self.header.mapper_id() == 0
        &&& self.mapper == (Mapper {
            prg_banks: self.header.prg_banks,
            chr_banks: self.header.chr_banks,
        })
        &&& self.prg.len() == self.header.prg_size()
        &&& self.chr.len() == self.header.chr_size()
    }

    /// The byte that the CPU reads at `address`.
    pub open spec fn prg_at(self, address: u16) -> u8 {
        self.prg[prg_offset(self.mapper.prg_banks, address) as int]
    }

    /// The cartridge after the CPU has written `value` at `address`.
    pub open spec fn prg_put(self, address: u16, value: u8) -> CartridgeView {
        CartridgeView {
            prg: self.prg.update(prg_offset(self.mapper.prg_banks, address) as int, value),
            ..self
        }
    }

    /// Whether program memory has a cell for the CPU address `address`.
    pub open spec fn has_prg(self, address: u16) -> bool {
        prg_offset(self.mapper.prg_banks, address) < self.prg.len()
    }
}

/// Whether `bytes` is long enough for the memories that its header announces;
/// an image that loading turns away has nothing to be long enough for.
pub open spec fn whole_image(bytes: Seq<u8>) -> bool {
    match parsed_header(bytes) {
        Ok(header) => header.mapper_id() == 0 ==> bytes.len() >= header.image_size(),
        Err(_) => true,
    }
}

/// What loading `bytes` gives: the header's error, or the error for a mapper
/// other than 0, or the cartridge whose memories are the two runs of bytes
/// that the header announces.
pub open spec fn loaded(bytes: Seq<u8>) -> Result<CartridgeView, AppError> {
    match parsed_header(bytes) {
        Err(error) => Err(error),
        Ok(header) => if header.mapper_id() != 0 {
            Err(AppError::InvalidCartridgeMapper)
        } else {
            Ok(
                CartridgeView {
                    header,
                    mapper: Mapper { prg_banks: header.prg_banks, chr_banks: header.chr_banks },
                    prg: bytes.subrange(header.prg_start(), header.chr_start()),
                    chr: bytes.subrange(header.chr_start(), header.image_size()),
                },
            )
        },
    }
}

/// Which error loading gives, on any bytes at all: too few bytes for a
/// header, then wrong magic bytes, then a mapper other than 0, in this
/// order. An image that is turned away is whole, so `Cartridge::new` can
/// be called on it: only an image that loads can be too short.
pub proof fn lemma_rejected_images(bytes: Seq<u8>)
    ensures
        bytes.len() < 16 <==> loaded(bytes) == Err::<CartridgeView, AppError>(
            AppError::InvalidCartridgeHeaderSize,
        ),
        bytes.len() >= 16 && !has_magic(bytes) <==> loaded(bytes) == Err::<
            CartridgeView,
            AppError,
        >(AppError::InvalidNesFile),
        bytes.len() >= 16 && has_magic(bytes) && parsed_header(bytes).unwrap().mapper_id() != 0
            <==> loaded(bytes) == Err::<CartridgeView, AppError>(
            AppError::InvalidCartridgeMapper,
        ),
        loaded(bytes) is Err ==> whole_image(bytes),
        loaded(bytes) != Err::<CartridgeView, AppError>(AppError::InvalidOpcode),
{
}

/// A loaded cartridge.
#[derive(Debug)]
pub struct Cartridge {
    header: Header,
    prg_ram: Memory,
    chr_rom: Memory,
    mapper: Mapper,
}

impl View for Cartridge {
    type V = CartridgeView;

    closed spec fn view(&self) -> CartridgeView {
        CartridgeView {
            header: self.header,
            mapper: self.mapper,
            prg: self.prg_ram@,
            chr: self.chr_rom@,
        }
    }
}

impl Clone for Cartridge {
    /// A second cartridge with the same header and the same memories.
    fn clone(&self) -> (copy: Self)
        ensures
            copy@ == self@,
    {
        Cartridge {
            header: self.header,
            prg_ram: self.prg_ram.clone(),
            chr_rom: self.chr_rom.clone(),
            mapper: self.mapper,
        }
    }
}

impl Cartridge {
    /// Whether `bytes` is long enough for the memories that its header
    /// announces, so that it can be handed to `new`.
    pub fn holds_whole_image(bytes: &[u8]) -> (whole: bool)
        ensures
            whole == whole_image(bytes@),
    {
        match Header::new(bytes) {
            Ok(header) => {
                if header.get_mapper_id() != 0 {
                    true
                } else {
                    let start: usize = if header.trainer_present() {
                        HEADER_SIZE + TRAINER_SIZE
                    } else {
                        HEADER_SIZE
                    };
                    let size: usize = start + header.prg_banks as usize * PRG_BANK_SIZE
                        + header.chr_banks as usize * CHR_BANK_SIZE;
                    bytes.len() >= size
                }
            },
            Err(_) => true,
        }
    }

    /// Loads an iNES image.
    pub fn new(bytes: &[u8]) -> (result: AppResult<Self>)
        requires
            whole_image(bytes@),
        ensures
            match result {
                Ok(cartridge) => loaded(bytes@) == Ok::<CartridgeView, AppError>(cartridge@)
                    && cartridge@.wf(),
                Err(error) => loaded(bytes@) == Err::<CartridgeView, AppError>(error),
            },
    {
        let header = match Header::new(bytes) {
            Ok(header) => header,
            Err(error) => {
                return Err(error);
            },
        };
        if header.get_mapper_id() != 0 {
            return Err(AppError::InvalidCartridgeMapper);
        }
        let prg_start: usize = if header.trainer_present() {
            HEADER_SIZE + TRAINER_SIZE
        } else {
            HEADER_SIZE
        };
        let prg_memory_size: usize = header.prg_banks as usize * PRG_BANK_SIZE;
        let chr_memory_size: usize = header.chr_banks as usize * CHR_BANK_SIZE;
        let chr_start: usize = prg_start + prg_memory_size;

        let mut prg_ram = Memory::new(prg_memory_size);
        let mut chr_rom = Memory::new(chr_memory_size);

        prg_ram.write_chunk(0, vstd::slice::slice_subrange(bytes, prg_start, chr_start));
        chr_rom.write_chunk(
            0,
            vstd::slice::slice_subrange(bytes, chr_start, chr_start + chr_memory_size),
        );
        assert(prg_ram@ =~= bytes@.subrange(header.prg_start(), header.chr_start()));
        assert(chr_rom@ =~= bytes@.subrange(header.chr_start(), header.image_size()));

        let mapper = Mapper::new(header.prg_banks, header.chr_banks);
        Ok(Self { header, prg_ram, chr_rom, mapper })
    }

    /// Number of bytes of program memory.
    pub fn prg_capacity(&self) -> (capacity: usize)
        ensures
            capacity == self@.prg.len(),
    {
        self.prg_ram.capacity()
    }

    /// Number of bytes of program memory that the mapper shows to the CPU.
    pub fn prg_window(&self) -> (window: usize)
        ensures
            window == if self@.mapper.prg_banks > 1 {
                0x8000int
            } else {
                0x4000int
            },
    {
        if self.mapper.prg_banks > 1 {
            0x8000
        } else {
            0x4000
        }
    }

    /// The byte of program memory that the CPU sees at `address`.
    pub fn prg_read(&self, address: u16) -> (value: u8)
        requires
            self@.has_prg(address),
        ensures
            value == self@.prg_at(address),
    {
        let mapped_address = self.mapper.get_prg_address(address);
        self.prg_ram.read(mapped_address)
    }

    /// Puts `value` into the cell of program memory that the CPU sees at
    /// `address`.
    pub fn prg_write(&mut self, address: u16, value: u8)
        requires
            old(self)@.has_prg(address),
        ensures
            final(self)@ == old(self)@.prg_put(address, value),
    {
        let mapped_address = self.mapper.get_prg_address(address);
        self.prg_ram.write(mapped_address, value);
    }

    /// The byte of character memory that the PPU sees at `address`.
    pub fn chr_read(&self, address: u16) -> (value: u8)
        requires
            address < self@.chr.len(),
        ensures
            value == self@.chr[address as int],
    {
        let mapped_address = self.mapper.get_chr_address(address);
        self.chr_rom.read(mapped_address)
    }
}

} // verus!
