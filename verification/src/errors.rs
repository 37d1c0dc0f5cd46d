use vstd::prelude::*;

verus! {

/// Everything that can go wrong while loading a cartridge or running the CPU.
#[derive(Debug, Clone, Copy, PartialEq, Eq, Structural)]
pub enum AppError {
    /// The fetched byte is not a documented opcode.
    InvalidOpcode,
    /// The cartridge image is shorter than its 16-byte header.
    InvalidCartridgeHeaderSize,
    /// The cartridge image does not start with the iNES magic bytes.
    InvalidNesFile,
    /// The cartridge asks for a mapper other than mapper 0.
    InvalidCartridgeMapper,
}

pub type AppResult<T> = Result<T, AppError>;

impl AppError {
    /// The message text of this error, as a spec-level string.
    pub open spec fn message_spec(self) -> Seq<char> {
        match self {
            AppError::InvalidOpcode => "invalid opcode"@,
            AppError::InvalidCartridgeHeaderSize => "invalid cartridge header size"@,
            AppError::InvalidNesFile => "invalid NES file"@,
            AppError::InvalidCartridgeMapper => "invalid cartridge mapper id, only 0 is supported"@,
        }
    }

    /// The human-readable message for this error.
    pub fn message(&self) -> (text: &'static str)
        ensures
            text@ == self.message_spec(),
    {
        match self {
            AppError::InvalidOpcode => "invalid opcode",
            AppError::InvalidCartridgeHeaderSize => "invalid cartridge header size",
            AppError::InvalidNesFile => "invalid NES file",
            AppError::InvalidCartridgeMapper => "invalid cartridge mapper id, only 0 is supported",
        }
    }
}

} // verus!
