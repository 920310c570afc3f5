use vstd::prelude::*;

verus! {

/// Why a Roblox model file could not be inspected.
#[derive(Debug, Clone, Copy, PartialEq, Eq, Structural)]
pub enum ModelError {
    /// The data ended before a field that had to be read.
    UnexpectedEof,
    /// The file does not start with `<roblox!`.
    InvalidHeader,
    /// The binary signature after the magic header is wrong.
    InvalidSignature,
    /// The file format version is not the one this reader knows.
    UnknownVersion(u16),
    /// The reserved bytes at the end of the file header are not zero.
    InvalidReservedHeader,
    /// The reserved field of a chunk header is not zero.
    InvalidChunkReserved,
    /// A zstd-compressed chunk could not be decompressed.
    ZstdDecompression,
    /// An LZ4-compressed chunk could not be decompressed.
    Lz4Decompression,
    /// A chunk's payload does not have the length its header announces.
    InvalidChunkLength,
    /// A class name is not valid UTF-8.
    InvalidUtf8,
    /// A `PRNT` chunk has a version other than 0.
    UnknownParentVersion(u8),
    /// A root instance refers to an instance that no `INST` chunk declared.
    UndeclaredRoot(i32),
    /// A referent array's byte length does not fit in `usize`.
    ReferentArrayTooLarge,
    /// The model has no root instance.
    NoChildren,
    /// The XML model could not be decoded, or no reflection database could
    /// be loaded to decode it with.
    XmlDecode,
    /// The first root child of an XML model could not be found.
    MissingFirstChild,
}

/// Why a file could not be turned into an asset.
#[derive(Debug, Clone, Copy, PartialEq, Eq, Structural)]
pub enum AssetError {
    /// The path has no extension.
    NoExtension,
    /// The extension is not one of the supported ones.
    UnknownFileType,
    /// The file is a Roblox model that could not be inspected.
    Model(ModelError),
}

} // verus!
