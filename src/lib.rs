//! Reading and writing the 32-byte Finder information record that HFS+ and
//! APFS keep for files and folders (`com.apple.FinderInfo`).
//!
//! Every multi-byte field of the record is big-endian. Decoding walks a
//! [`ByteCursor`]; encoding appends to a `Vec<u8>`. Each record type states its
//! wire form as spec functions over bytes (`decoded_from`, `encoding`), and
//! the round trip between values and bytes is proved in [`records`].

#![allow(non_snake_case, non_upper_case_globals)]

pub mod bytes;
pub mod constants;
pub mod flags;
pub mod geometry;
pub mod label;
pub mod records;

pub use bytes::{ByteCursor, DecodeError};
pub use flags::{ExtendedFinderFlags, FinderFlags};
pub use geometry::{OSType, Point, Rect};
pub use label::LabelColor;
pub use records::{
    ExtendedFileInfo, ExtendedFolderInfo, FileInfo, FinderInfoFile, FinderInfoFolder, FolderInfo,
};
