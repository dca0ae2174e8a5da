//! The 16-byte info structures and the two 32-byte Finder information records.

use vstd::prelude::*;

use crate::bytes::{
    i16_at, i16_bytes, i32_at, i32_bytes, lemma_i16_bytes_at, lemma_i16_round_trip,
    lemma_i32_bytes_at, lemma_i32_round_trip, lemma_u16_bytes_at, lemma_u16_round_trip, put_i16,
    put_i32, put_tag, put_u16, u16_at, u16_bytes, zeros, ByteCursor, DecodeError,
};
use crate::flags::{ExtendedFinderFlags, FinderFlags};
use crate::geometry::{lemma_point_round_trip, lemma_rect_round_trip, OSType, Point, Rect};

verus! {

/// Information about a file: its type and creator codes, flags and icon position.
#[derive(Clone, Copy, Debug)]
pub struct FileInfo {
    /// File type.
    pub fileType: OSType,
    /// The signature of the application that created the file.
    pub fileCreator: OSType,
    /// Finder flags.
    pub finderFlags: FinderFlags,
    /// Where the file's icon sits in its window, in the window's coordinates.
    pub location: Point,
    /// Meaningful only to the Finder; kept as it is.
    pub reservedField: u16,
}

/// Extended information about a file.
#[derive(Clone, Copy, Debug)]
pub struct ExtendedFileInfo {
    /// Reserved; kept as it is.
    pub reserved1: [i16; 4],
    /// Extended Finder flags.
    pub extendedFinderFlags: ExtendedFinderFlags,
    /// Reserved; kept as it is.
    pub reserved2: i16,
    /// If the file was moved to the desktop, the directory ID of the folder it came from.
    pub putAwayFolderID: i32,
}

/// The Finder information record of a file.
#[derive(Clone, Copy, Debug)]
pub struct FinderInfoFile {
    pub file_info: FileInfo,
    pub extended_file_info: ExtendedFileInfo,
}

/// Information about a folder: its window, flags and icon position.
#[derive(Clone, Copy, Debug)]
pub struct FolderInfo {
    /// The rectangle of the window that the Finder opens for the folder.
    pub windowBounds: Rect,
    /// Finder flags.
    pub finderFlags: FinderFlags,
    /// Where the folder sits in its parent window.
    pub location: Point,
    /// Reserved; kept as it is.
    pub reservedField: u16,
}

/// Extended information about a folder.
#[derive(Clone, Copy, Debug)]
pub struct ExtendedFolderInfo {
    /// Scroll position within the folder's window.
    pub scrollPosition: Point,
    /// Reserved; kept as it is.
    pub reserved1: i32,
    /// Extended Finder flags.
    pub extendedFinderFlags: ExtendedFinderFlags,
    /// Reserved; kept as it is.
    pub reserved2: i16,
    /// If the folder was moved to the desktop, the directory ID of the folder it came from.
    pub putAwayFolderID: i32,
}

/// The Finder information record of a folder.
#[derive(Clone, Copy, Debug)]
pub struct FinderInfoFolder {
    pub folder_info: FolderInfo,
    pub extended_folder_info: ExtendedFolderInfo,
}

impl FileInfo {
    /// Each field is read from `s` at its offset: type 0, creator 4, flags 8,
    /// location 10, reserved 14.
    pub open spec fn decoded_from(self, s: Seq<u8>) -> bool {
        &&& self.fileType.decoded_from(s)
        &&& self.fileCreator.decoded_from(s.skip(4))
        &&& self.finderFlags.0 == u16_at(s, 8)
        &&& self.location.decoded_from(s.skip(10))
        &&& self.reservedField == u16_at(s, 14)
    }

    /// The sixteen bytes of the structure, fields in declaration order.
    pub open spec fn encoding(self) -> Seq<u8> {
        self.fileType.encoding() + self.fileCreator.encoding() + u16_bytes(self.finderFlags.0)
            + self.location.encoding() + u16_bytes(self.reservedField)
    }

    /// Decodes the structure from the next sixteen bytes; fails, reading
    /// nothing, when fewer are left.
    pub fn read(r: &mut ByteCursor) -> (res: Result<FileInfo, DecodeError>)
        ensures
            match res {
                Ok(x) => old(r).spec_remaining() >= 16 && x.decoded_from(old(r).rest())
                    && old(r).advanced(*final(r), 16),
                Err(e) => old(r).spec_remaining() < 16 && e == DecodeError::TruncatedInput
                    && *final(r) == *old(r),
            },
    {
        if r.remaining() < 16 {
            return Err(DecodeError::TruncatedInput);
        }
        let ghost s = r.rest();
        let fileType = OSType(r.take_tag());
        assert(r.rest() =~= s.skip(4));
        let fileCreator = OSType(r.take_tag());
        assert(r.rest() =~= s.skip(8));
        let finderFlags = FinderFlags::from(r.take_u16());
        assert(r.rest() =~= s.skip(10));
        let location = match Point::read(r) {
            Ok(p) => p,
            Err(e) => return Err(e),
        };
        assert(r.rest() =~= s.skip(14));
        let reservedField = r.take_u16();
        let x = FileInfo { fileType, fileCreator, finderFlags, location, reservedField };
        Ok(x)
    }

    /// Appends the sixteen bytes of the structure.
    pub fn write(&self, out: &mut Vec<u8>)
        ensures
            final(out)@ == old(out)@ + self.encoding(),
    {
        put_tag(out, self.fileType.0);
        put_tag(out, self.fileCreator.0);
        put_u16(out, u16::from(self.finderFlags));
        self.location.write(out);
        put_u16(out, self.reservedField);
        assert(final(out)@ =~= old(out)@ + self.encoding());
    }
}


impl ExtendedFileInfo {
    /// Each field is read from `s` at its offset: reserved words 0 to 6,
    /// extended flags 8, reserved 10, put-away folder 12.
    pub open spec fn decoded_from(self, s: Seq<u8>) -> bool {
        &&& self.reserved1@[0] == i16_at(s, 0)
        &&& self.reserved1@[1] == i16_at(s, 2)
        &&& self.reserved1@[2] == i16_at(s, 4)
        &&& self.reserved1@[3] == i16_at(s, 6)
        &&& self.extendedFinderFlags.0 == u16_at(s, 8)
        &&& self.reserved2 == i16_at(s, 10)
        &&& self.putAwayFolderID == i32_at(s, 12)
    }

    /// The sixteen bytes of the structure, fields in declaration order.
    pub open spec fn encoding(self) -> Seq<u8> {
        i16_bytes(self.reserved1@[0]) + i16_bytes(self.reserved1@[1]) + i16_bytes(
            self.reserved1@[2],
        ) + i16_bytes(self.reserved1@[3]) + u16_bytes(self.extendedFinderFlags.0) + i16_bytes(
            self.reserved2,
        ) + i32_bytes(self.putAwayFolderID)
    }

    /// Whether both reserved fields hold zero, so that a diagnostic rendering
    /// may leave them out.
    pub fn reserved_is_default(&self) -> (r: bool)
        ensures
            r == (self.reserved1@ == seq![0i16, 0, 0, 0] && self.reserved2 == 0),
    {
        let r = self.reserved1[0] == 0 && self.reserved1[1] == 0 && self.reserved1[2] == 0
            && self.reserved1[3] == 0 && self.reserved2 == 0;
        assert(r ==> self.reserved1@ =~= seq![0i16, 0, 0, 0]);
        r
    }

    /// Decodes the structure from the next sixteen bytes; fails, reading
    /// nothing, when fewer are left.
    pub fn read(r: &mut ByteCursor) -> (res: Result<ExtendedFileInfo, DecodeError>)
        ensures
            match res {
                Ok(x) => old(r).spec_remaining() >= 16 && x.decoded_from(old(r).rest())
                    && old(r).advanced(*final(r), 16),
                Err(e) => old(r).spec_remaining() < 16 && e == DecodeError::TruncatedInput
                    && *final(r) == *old(r),
            },
    {
        if r.remaining() < 16 {
            return Err(DecodeError::TruncatedInput);
        }
        let ghost s = r.rest();
        let r0 = r.take_i16();
        assert(r.rest() =~= s.skip(2));
        let r1 = r.take_i16();
        assert(r.rest() =~= s.skip(4));
        let r2 = r.take_i16();
        assert(r.rest() =~= s.skip(6));
        let r3 = r.take_i16();
        assert(r.rest() =~= s.skip(8));
        let extendedFinderFlags = ExtendedFinderFlags::from(r.take_u16());
        assert(r.rest() =~= s.skip(10));
        let reserved2 = r.take_i16();
        assert(r.rest() =~= s.skip(12));
        let putAwayFolderID = r.take_i32();
        Ok(
            ExtendedFileInfo {
                reserved1: [r0, r1, r2, r3],
                extendedFinderFlags,
                reserved2,
                putAwayFolderID,
            },
        )
    }

    /// Appends the sixteen bytes of the structure.
    pub fn write(&self, out: &mut Vec<u8>)
        ensures
            final(out)@ == old(out)@ + self.encoding(),
    {
        put_i16(out, self.reserved1[0]);
        put_i16(out, self.reserved1[1]);
        put_i16(out, self.reserved1[2]);
        put_i16(out, self.reserved1[3]);
        put_u16(out, u16::from(self.extendedFinderFlags));
        put_i16(out, self.reserved2);
        put_i32(out, self.putAwayFolderID);
        assert(final(out)@ =~= old(out)@ + self.encoding());
    }
}

impl FinderInfoFile {
    /// The file info comes from the first sixteen bytes of `s`, the extended
    /// info from the next sixteen.
    pub open spec fn decoded_from(self, s: Seq<u8>) -> bool {
        self.file_info.decoded_from(s) && self.extended_file_info.decoded_from(s.skip(16))
    }

    /// The thirty-two bytes of the record.
    pub open spec fn encoding(self) -> Seq<u8> {
        self.file_info.encoding() + self.extended_file_info.encoding()
    }

    /// Decodes a file record from the next thirty-two bytes; fails, reading
    /// nothing, when fewer are left.
    pub fn read(r: &mut ByteCursor) -> (res: Result<FinderInfoFile, DecodeError>)
        ensures
            match res {
                Ok(x) => old(r).spec_remaining() >= 32 && x.decoded_from(old(r).rest())
                    && old(r).advanced(*final(r), 32),
                Err(e) => old(r).spec_remaining() < 32 && e == DecodeError::TruncatedInput
                    && *final(r) == *old(r),
            },
    {
        if r.remaining() < 32 {
            return Err(DecodeError::TruncatedInput);
        }
        let ghost s = r.rest();
        let file_info = match FileInfo::read(r) {
            Ok(x) => x,
            Err(e) => return Err(e),
        };
        assert(r.rest() =~= s.skip(16));
        let extended_file_info = match ExtendedFileInfo::read(r) {
            Ok(x) => x,
            Err(e) => return Err(e),
        };
        Ok(FinderInfoFile { file_info, extended_file_info })
    }

    /// Appends the thirty-two bytes of the record.
    pub fn write(&self, out: &mut Vec<u8>)
        ensures
            final(out)@ == old(out)@ + self.encoding(),
    {
        self.file_info.write(out);
        self.extended_file_info.write(out);
        assert(final(out)@ =~= old(out)@ + self.encoding());
    }
}


impl FolderInfo {
    /// Each field is read from `s` at its offset: window bounds 0, flags 8,
    /// location 10, reserved 14.
    pub open spec fn decoded_from(self, s: Seq<u8>) -> bool {
        &&& self.windowBounds.decoded_from(s)
        &&& self.finderFlags.0 == u16_at(s, 8)
        &&& self.location.decoded_from(s.skip(10))
        &&& self.reservedField == u16_at(s, 14)
    }

    /// The sixteen bytes of the structure, fields in declaration order.
    pub open spec fn encoding(self) -> Seq<u8> {
        self.windowBounds.encoding() + u16_bytes(self.finderFlags.0) + self.location.encoding()
            + u16_bytes(self.reservedField)
    }

    /// Whether the reserved field holds zero, so that a diagnostic rendering
    /// may leave it out.
    pub fn reserved_is_default(&self) -> (r: bool)
        ensures
            r == (self.reservedField == 0),
    {
        self.reservedField == 0
    }

    /// Decodes the structure from the next sixteen bytes; fails, reading
    /// nothing, when fewer are left.
    pub fn read(r: &mut ByteCursor) -> (res: Result<FolderInfo, DecodeError>)
        ensures
            match res {
                Ok(x) => old(r).spec_remaining() >= 16 && x.decoded_from(old(r).rest())
                    && old(r).advanced(*final(r), 16),
                Err(e) => old(r).spec_remaining() < 16 && e == DecodeError::TruncatedInput
                    && *final(r) == *old(r),
            },
    {
        if r.remaining() < 16 {
            return Err(DecodeError::TruncatedInput);
        }
        let ghost s = r.rest();
        let windowBounds = match Rect::read(r) {
            Ok(x) => x,
            Err(e) => return Err(e),
        };
        assert(r.rest() =~= s.skip(8));
        let finderFlags = FinderFlags::from(r.take_u16());
        assert(r.rest() =~= s.skip(10));
        let location = match Point::read(r) {
            Ok(p) => p,
            Err(e) => return Err(e),
        };
        assert(r.rest() =~= s.skip(14));
        let reservedField = r.take_u16();
        Ok(FolderInfo { windowBounds, finderFlags, location, reservedField })
    }

    /// Appends the sixteen bytes of the structure.
    pub fn write(&self, out: &mut Vec<u8>)
        ensures
            final(out)@ == old(out)@ + self.encoding(),
    {
        self.windowBounds.write(out);
        put_u16(out, u16::from(self.finderFlags));
        self.location.write(out);
        put_u16(out, self.reservedField);
        assert(final(out)@ =~= old(out)@ + self.encoding());
    }
}

impl ExtendedFolderInfo {
    /// Each field is read from `s` at its offset: scroll position 0,
    /// reserved 4, extended flags 8, reserved 10, put-away folder 12.
    pub open spec fn decoded_from(self, s: Seq<u8>) -> bool {
        &&& self.scrollPosition.decoded_from(s)
        &&& self.reserved1 == i32_at(s, 4)
        &&& self.extendedFinderFlags.0 == u16_at(s, 8)
        &&& self.reserved2 == i16_at(s, 10)
        &&& self.putAwayFolderID == i32_at(s, 12)
    }

    /// The sixteen bytes of the structure, fields in declaration order.
    pub open spec fn encoding(self) -> Seq<u8> {
        self.scrollPosition.encoding() + i32_bytes(self.reserved1) + u16_bytes(
            self.extendedFinderFlags.0,
        ) + i16_bytes(self.reserved2) + i32_bytes(self.putAwayFolderID)
    }

    /// Whether both reserved fields hold zero, so that a diagnostic rendering
    /// may leave them out.
    pub fn reserved_is_default(&self) -> (r: bool)
        ensures
            r == (self.reserved1 == 0 && self.reserved2 == 0),
    {
        self.reserved1 == 0 && self.reserved2 == 0
    }

    /// Decodes the structure from the next sixteen bytes; fails, reading
    /// nothing, when fewer are left.
    pub fn read(r: &mut ByteCursor) -> (res: Result<ExtendedFolderInfo, DecodeError>)
        ensures
            match res {
                Ok(x) => old(r).spec_remaining() >= 16 && x.decoded_from(old(r).rest())
                    && old(r).advanced(*final(r), 16),
                Err(e) => old(r).spec_remaining() < 16 && e == DecodeError::TruncatedInput
                    && *final(r) == *old(r),
            },
    {
        if r.remaining() < 16 {
            return Err(DecodeError::TruncatedInput);
        }
        let ghost s = r.rest();
        let scrollPosition = match Point::read(r) {
            Ok(p) => p,
            Err(e) => return Err(e),
        };
        assert(r.rest() =~= s.skip(4));
        let reserved1 = r.take_i32();
        assert(r.rest() =~= s.skip(8));
        let extendedFinderFlags = ExtendedFinderFlags::from(r.take_u16());
        assert(r.rest() =~= s.skip(10));
        let reserved2 = r.take_i16();
        assert(r.rest() =~= s.skip(12));
        let putAwayFolderID = r.take_i32();
        Ok(
            ExtendedFolderInfo {
                scrollPosition,
                reserved1,
                extendedFinderFlags,
                reserved2,
                putAwayFolderID,
            },
        )
    }

    /// Appends the sixteen bytes of the structure.
    pub fn write(&self, out: &mut Vec<u8>)
        ensures
            final(out)@ == old(out)@ + self.encoding(),
    {
        self.scrollPosition.write(out);
        put_i32(out, self.reserved1);
        put_u16(out, u16::from(self.extendedFinderFlags));
        put_i16(out, self.reserved2);
        put_i32(out, self.putAwayFolderID);
        assert(final(out)@ =~= old(out)@ + self.encoding());
    }
}

impl FinderInfoFolder {
    /// The folder info comes from the first sixteen bytes of `s`, the
    /// extended info from the next sixteen.
    pub open spec fn decoded_from(self, s: Seq<u8>) -> bool {
        self.folder_info.decoded_from(s) && self.extended_folder_info.decoded_from(s.skip(16))
    }

    /// The thirty-two bytes of the record.
    pub open spec fn encoding(self) -> Seq<u8> {
        self.folder_info.encoding() + self.extended_folder_info.encoding()
    }

    /// Decodes a folder record from the next thirty-two bytes; fails, reading
    /// nothing, when fewer are left.
    pub fn read(r: &mut ByteCursor) -> (res: Result<FinderInfoFolder, DecodeError>)
        ensures
            match res {
                Ok(x) => old(r).spec_remaining() >= 32 && x.decoded_from(old(r).rest())
                    && old(r).advanced(*final(r), 32),
                Err(e) => old(r).spec_remaining() < 32 && e == DecodeError::TruncatedInput
                    && *final(r) == *old(r),
            },
    {
        if r.remaining() < 32 {
            return Err(DecodeError::TruncatedInput);
        }
        let ghost s = r.rest();
        let folder_info = match FolderInfo::read(r) {
            Ok(x) => x,
            Err(e) => return Err(e),
        };
        assert(r.rest() =~= s.skip(16));
        let extended_folder_info = match ExtendedFolderInfo::read(r) {
            Ok(x) => x,
            Err(e) => return Err(e),
        };
        Ok(FinderInfoFolder { folder_info, extended_folder_info })
    }

    /// Appends the thirty-two bytes of the record.
    pub fn write(&self, out: &mut Vec<u8>)
        ensures
            final(out)@ == old(out)@ + self.encoding(),
    {
        self.folder_info.write(out);
        self.extended_folder_info.write(out);
        assert(final(out)@ =~= old(out)@ + self.encoding());
    }
}


/// A file info structure is sixteen bytes long and decodes from its own
/// bytes; one decoded from sixteen bytes encodes to exactly those bytes.
pub proof fn lemma_file_info_round_trip(x: FileInfo, s: Seq<u8>)
    ensures
        x.encoding().len() == 16,
        x.decoded_from(x.encoding()),
        s.len() == 16 && x.decoded_from(s) ==> x.encoding() == s,
{
    let e = x.encoding();
    lemma_u16_round_trip(x.finderFlags.0);
    lemma_u16_round_trip(x.reservedField);
    lemma_point_round_trip(x.location, s.subrange(10, 14));
    let f = u16_bytes(x.finderFlags.0);
    let l = x.location.encoding();
    let z = u16_bytes(x.reservedField);
    assert(e.subrange(0, 4) =~= x.fileType.0@);
    assert(e.skip(4).subrange(0, 4) =~= x.fileCreator.0@);
    assert(u16_at(e, 8) == u16_at(f, 0));
    assert(e.skip(10).subrange(0, 4) =~= l);
    assert(i16_at(e.skip(10), 0) == i16_at(l, 0));
    assert(i16_at(e.skip(10), 2) == i16_at(l, 2));
    assert(u16_at(e, 14) == u16_at(z, 0));
    if s.len() == 16 && x.decoded_from(s) {
        lemma_u16_bytes_at(s, 8);
        lemma_u16_bytes_at(s, 14);
        assert(i16_at(s.skip(10), 0) == i16_at(s.subrange(10, 14), 0));
        assert(i16_at(s.skip(10), 2) == i16_at(s.subrange(10, 14), 2));
        assert(s.skip(4).subrange(0, 4) =~= s.subrange(4, 8));
        assert(s =~= s.subrange(0, 4) + s.subrange(4, 8) + s.subrange(8, 10) + s.subrange(10, 14)
            + s.subrange(14, 16));
    }
}


/// An extended file info structure is sixteen bytes long and decodes from its
/// own bytes; one decoded from sixteen bytes encodes to exactly those bytes.
pub proof fn lemma_extended_file_info_round_trip(x: ExtendedFileInfo, s: Seq<u8>)
    ensures
        x.encoding().len() == 16,
        x.decoded_from(x.encoding()),
        s.len() == 16 && x.decoded_from(s) ==> x.encoding() == s,
{
    let e = x.encoding();
    lemma_i16_round_trip(x.reserved1@[0]);
    lemma_i16_round_trip(x.reserved1@[1]);
    lemma_i16_round_trip(x.reserved1@[2]);
    lemma_i16_round_trip(x.reserved1@[3]);
    lemma_u16_round_trip(x.extendedFinderFlags.0);
    lemma_i16_round_trip(x.reserved2);
    lemma_i32_round_trip(x.putAwayFolderID);
    assert(i16_at(e, 0) == i16_at(i16_bytes(x.reserved1@[0]), 0));
    assert(i16_at(e, 2) == i16_at(i16_bytes(x.reserved1@[1]), 0));
    assert(i16_at(e, 4) == i16_at(i16_bytes(x.reserved1@[2]), 0));
    assert(i16_at(e, 6) == i16_at(i16_bytes(x.reserved1@[3]), 0));
    assert(u16_at(e, 8) == u16_at(u16_bytes(x.extendedFinderFlags.0), 0));
    assert(i16_at(e, 10) == i16_at(i16_bytes(x.reserved2), 0));
    assert(i32_at(e, 12) == i32_at(i32_bytes(x.putAwayFolderID), 0));
    if s.len() == 16 && x.decoded_from(s) {
        lemma_i16_bytes_at(s, 0);
        lemma_i16_bytes_at(s, 2);
        lemma_i16_bytes_at(s, 4);
        lemma_i16_bytes_at(s, 6);
        lemma_u16_bytes_at(s, 8);
        lemma_i16_bytes_at(s, 10);
        lemma_i32_bytes_at(s, 12);
        assert(s =~= s.subrange(0, 2) + s.subrange(2, 4) + s.subrange(4, 6) + s.subrange(6, 8)
            + s.subrange(8, 10) + s.subrange(10, 12) + s.subrange(12, 16));
    }
}

/// A file record is thirty-two bytes long and decodes from its own bytes; one
/// decoded from thirty-two bytes encodes to exactly those bytes.
pub proof fn lemma_file_record_round_trip(x: FinderInfoFile, s: Seq<u8>)
    ensures
        x.encoding().len() == 32,
        x.decoded_from(x.encoding()),
        s.len() == 32 && x.decoded_from(s) ==> x.encoding() == s,
{
    let e = x.encoding();
    let a = x.file_info.encoding();
    let b = x.extended_file_info.encoding();
    lemma_file_info_round_trip(x.file_info, a);
    lemma_extended_file_info_round_trip(x.extended_file_info, b);
    assert(a.subrange(0, 16) =~= e.subrange(0, 16));
    lemma_file_info_prefix(x.file_info, a, e);
    assert(e.skip(16) =~= b);
    if s.len() == 32 && x.decoded_from(s) {
        let s0 = s.subrange(0, 16);
        assert(s0.subrange(0, 16) =~= s.subrange(0, 16));
        lemma_file_info_prefix(x.file_info, s, s0);
        lemma_file_info_round_trip(x.file_info, s0);
        lemma_extended_file_info_round_trip(x.extended_file_info, s.skip(16));
        assert(s =~= s0 + s.skip(16));
    }
}

/// Whether a file info structure decodes from `s` depends on the first
/// sixteen bytes of `s` alone.
proof fn lemma_file_info_prefix(x: FileInfo, s: Seq<u8>, t: Seq<u8>)
    requires
        s.len() >= 16,
        t.len() >= 16,
        s.subrange(0, 16) == t.subrange(0, 16),
    ensures
        x.decoded_from(s) == x.decoded_from(t),
{
    assert(forall|i: int| 0 <= i < 16 ==> s[i] == s.subrange(0, 16)[i]);
    assert(forall|i: int| 0 <= i < 16 ==> t[i] == t.subrange(0, 16)[i]);
    assert(s.subrange(0, 4) =~= t.subrange(0, 4));
    assert(s.skip(4).subrange(0, 4) =~= t.skip(4).subrange(0, 4));
}


/// A folder info structure is sixteen bytes long and decodes from its own
/// bytes; one decoded from sixteen bytes encodes to exactly those bytes.
pub proof fn lemma_folder_info_round_trip(x: FolderInfo, s: Seq<u8>)
    ensures
        x.encoding().len() == 16,
        x.decoded_from(x.encoding()),
        s.len() == 16 && x.decoded_from(s) ==> x.encoding() == s,
{
    let e = x.encoding();
    let w = x.windowBounds.encoding();
    let l = x.location.encoding();
    lemma_rect_round_trip(x.windowBounds, s.subrange(0, 8));
    lemma_u16_round_trip(x.finderFlags.0);
    lemma_point_round_trip(x.location, s.subrange(10, 14));
    lemma_u16_round_trip(x.reservedField);
    assert(i16_at(e, 0) == i16_at(w, 0));
    assert(i16_at(e, 2) == i16_at(w, 2));
    assert(i16_at(e, 4) == i16_at(w, 4));
    assert(i16_at(e, 6) == i16_at(w, 6));
    assert(u16_at(e, 8) == u16_at(u16_bytes(x.finderFlags.0), 0));
    assert(i16_at(e.skip(10), 0) == i16_at(l, 0));
    assert(i16_at(e.skip(10), 2) == i16_at(l, 2));
    assert(u16_at(e, 14) == u16_at(u16_bytes(x.reservedField), 0));
    if s.len() == 16 && x.decoded_from(s) {
        let s0 = s.subrange(0, 8);
        assert(i16_at(s, 0) == i16_at(s0, 0));
        assert(i16_at(s, 2) == i16_at(s0, 2));
        assert(i16_at(s, 4) == i16_at(s0, 4));
        assert(i16_at(s, 6) == i16_at(s0, 6));
        lemma_u16_bytes_at(s, 8);
        assert(i16_at(s.skip(10), 0) == i16_at(s.subrange(10, 14), 0));
        assert(i16_at(s.skip(10), 2) == i16_at(s.subrange(10, 14), 2));
        lemma_u16_bytes_at(s, 14);
        assert(s =~= s0 + s.subrange(8, 10) + s.subrange(10, 14) + s.subrange(14, 16));
    }
}

/// An extended folder info structure is sixteen bytes long and decodes from
/// its own bytes; one decoded from sixteen bytes encodes to exactly those bytes.
pub proof fn lemma_extended_folder_info_round_trip(x: ExtendedFolderInfo, s: Seq<u8>)
    ensures
        x.encoding().len() == 16,
        x.decoded_from(x.encoding()),
        s.len() == 16 && x.decoded_from(s) ==> x.encoding() == s,
{
    let e = x.encoding();
    let p = x.scrollPosition.encoding();
    lemma_point_round_trip(x.scrollPosition, s.subrange(0, 4));
    lemma_i32_round_trip(x.reserved1);
    lemma_u16_round_trip(x.extendedFinderFlags.0);
    lemma_i16_round_trip(x.reserved2);
    lemma_i32_round_trip(x.putAwayFolderID);
    assert(i16_at(e, 0) == i16_at(p, 0));
    assert(i16_at(e, 2) == i16_at(p, 2));
    assert(i32_at(e, 4) == i32_at(i32_bytes(x.reserved1), 0));
    assert(u16_at(e, 8) == u16_at(u16_bytes(x.extendedFinderFlags.0), 0));
    assert(i16_at(e, 10) == i16_at(i16_bytes(x.reserved2), 0));
    assert(i32_at(e, 12) == i32_at(i32_bytes(x.putAwayFolderID), 0));
    if s.len() == 16 && x.decoded_from(s) {
        let s0 = s.subrange(0, 4);
        assert(i16_at(s, 0) == i16_at(s0, 0));
        assert(i16_at(s, 2) == i16_at(s0, 2));
        lemma_i32_bytes_at(s, 4);
        lemma_u16_bytes_at(s, 8);
        lemma_i16_bytes_at(s, 10);
        lemma_i32_bytes_at(s, 12);
        assert(s =~= s0 + s.subrange(4, 8) + s.subrange(8, 10) + s.subrange(10, 12) + s.subrange(
            12,
            16,
        ));
    }
}

/// Whether a folder info structure decodes from `s` depends on the first
/// sixteen bytes of `s` alone.
proof fn lemma_folder_info_prefix(x: FolderInfo, s: Seq<u8>, t: Seq<u8>)
    requires
        s.len() >= 16,
        t.len() >= 16,
        s.subrange(0, 16) == t.subrange(0, 16),
    ensures
        x.decoded_from(s) == x.decoded_from(t),
{
    assert(forall|i: int| 0 <= i < 16 ==> s[i] == s.subrange(0, 16)[i]);
    assert(forall|i: int| 0 <= i < 16 ==> t[i] == t.subrange(0, 16)[i]);
    assert(s.skip(10)[0] == t.skip(10)[0] && s.skip(10)[1] == t.skip(10)[1]);
    assert(s.skip(10)[2] == t.skip(10)[2] && s.skip(10)[3] == t.skip(10)[3]);
}

/// A folder record is thirty-two bytes long and decodes from its own bytes;
/// one decoded from thirty-two bytes encodes to exactly those bytes.
pub proof fn lemma_folder_record_round_trip(x: FinderInfoFolder, s: Seq<u8>)
    ensures
        x.encoding().len() == 32,
        x.decoded_from(x.encoding()),
        s.len() == 32 && x.decoded_from(s) ==> x.encoding() == s,
{
    let e = x.encoding();
    let a = x.folder_info.encoding();
    let b = x.extended_folder_info.encoding();
    lemma_folder_info_round_trip(x.folder_info, a);
    lemma_extended_folder_info_round_trip(x.extended_folder_info, b);
    assert(a.subrange(0, 16) =~= e.subrange(0, 16));
    lemma_folder_info_prefix(x.folder_info, a, e);
    assert(e.skip(16) =~= b);
    if s.len() == 32 && x.decoded_from(s) {
        let s0 = s.subrange(0, 16);
        assert(s0.subrange(0, 16) =~= s.subrange(0, 16));
        lemma_folder_info_prefix(x.folder_info, s, s0);
        lemma_folder_info_round_trip(x.folder_info, s0);
        lemma_extended_folder_info_round_trip(x.extended_folder_info, s.skip(16));
        assert(s =~= s0 + s.skip(16));
    }
}


impl Default for FileInfo {
    /// Every field zero: sixteen zero bytes.
    fn default() -> (r: FileInfo)
        ensures
            r.decoded_from(zeros(16)),
            r.encoding() == zeros(16),
    {
        let r = FileInfo {
            fileType: OSType([0u8; 4]),
            fileCreator: OSType([0u8; 4]),
            finderFlags: FinderFlags(0),
            location: Point { v: 0, h: 0 },
            reservedField: 0,
        };
        assert(r.decoded_from(zeros(16))) by {
            assert(r.fileType.0@ =~= zeros(16).subrange(0, 4));
            assert(r.fileCreator.0@ =~= zeros(16).skip(4).subrange(0, 4));
        }
        proof {
            lemma_file_info_round_trip(r, zeros(16));
        }
        r
    }
}

impl Default for ExtendedFileInfo {
    /// Every field zero: sixteen zero bytes.
    fn default() -> (r: ExtendedFileInfo)
        ensures
            r.decoded_from(zeros(16)),
            r.encoding() == zeros(16),
    {
        let r = ExtendedFileInfo {
            reserved1: [0i16; 4],
            extendedFinderFlags: ExtendedFinderFlags(0),
            reserved2: 0,
            putAwayFolderID: 0,
        };
        assert(r.decoded_from(zeros(16)));
        proof {
            lemma_extended_file_info_round_trip(r, zeros(16));
        }
        r
    }
}

impl Default for FinderInfoFile {
    /// Every field zero: thirty-two zero bytes.
    fn default() -> (r: FinderInfoFile)
        ensures
            r.decoded_from(zeros(32)),
            r.encoding() == zeros(32),
    {
        let r = FinderInfoFile {
            file_info: FileInfo::default(),
            extended_file_info: ExtendedFileInfo::default(),
        };
        assert(r.encoding() =~= zeros(32));
        proof {
            lemma_file_record_round_trip(r, zeros(32));
        }
        r
    }
}

impl Default for FolderInfo {
    /// Every field zero: sixteen zero bytes.
    fn default() -> (r: FolderInfo)
        ensures
            r.decoded_from(zeros(16)),
            r.encoding() == zeros(16),
    {
        let r = FolderInfo {
            windowBounds: Rect { top: 0, left: 0, bottom: 0, right: 0 },
            finderFlags: FinderFlags(0),
            location: Point { v: 0, h: 0 },
            reservedField: 0,
        };
        assert(r.decoded_from(zeros(16)));
        proof {
            lemma_folder_info_round_trip(r, zeros(16));
        }
        r
    }
}

impl Default for ExtendedFolderInfo {
    /// Every field zero: sixteen zero bytes.
    fn default() -> (r: ExtendedFolderInfo)
        ensures
            r.decoded_from(zeros(16)),
            r.encoding() == zeros(16),
    {
        let r = ExtendedFolderInfo {
            scrollPosition: Point { v: 0, h: 0 },
            reserved1: 0,
            extendedFinderFlags: ExtendedFinderFlags(0),
            reserved2: 0,
            putAwayFolderID: 0,
        };
        assert(r.decoded_from(zeros(16)));
        proof {
            lemma_extended_folder_info_round_trip(r, zeros(16));
        }
        r
    }
}

impl Default for FinderInfoFolder {
    /// Every field zero: thirty-two zero bytes.
    fn default() -> (r: FinderInfoFolder)
        ensures
            r.decoded_from(zeros(32)),
            r.encoding() == zeros(32),
    {
        let r = FinderInfoFolder {
            folder_info: FolderInfo::default(),
            extended_folder_info: ExtendedFolderInfo::default(),
        };
        assert(r.encoding() =~= zeros(32));
        proof {
            lemma_folder_record_round_trip(r, zeros(32));
        }
        r
    }
}

} // verus!
