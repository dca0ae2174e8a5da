//! Bit masks of the Finder flag words.

use vstd::prelude::*;

verus! {

/// Unused and reserved in System 7; set to 0.
pub const kIsOnDesk: u16 = 0x0001;

/// Three bits of color coding.
pub const kColor: u16 = 0x000e;

/// The file is an application that several users can run at once.
pub const kIsShared: u16 = 0x0040;

/// The file contains no 'INIT' resources.
pub const kHasNoINITs: u16 = 0x0080;

/// The Finder has recorded the bundle information and given the item a position.
pub const kHasBeenInited: u16 = 0x0100;

/// The file or directory has a custom icon.
pub const kHasCustomIcon: u16 = 0x0400;

/// For a file, the file is a stationery pad.
pub const kIsStationery: u16 = 0x0800;

/// The item can't be renamed from the Finder, and its icon can't be changed.
pub const kNameLocked: u16 = 0x1000;

/// A file with a bundle resource, or a directory that is a package.
pub const kHasBundle: u16 = 0x2000;

/// The item is hidden from the Finder and the Navigation Services dialogs.
pub const kIsInvisible: u16 = 0x4000;

/// For a file, the file is an alias.
pub const kIsAlias: u16 = 0x8000;

/// If set, the other extended flags are to be ignored.
pub const kExtendedFlagsAreInvalid: u16 = 0x8000;

/// The item has a badge resource.
pub const kExtendedFlagHasCustomBadge: u16 = 0x0100;

/// The file contains a routing info resource.
pub const kExtendedFlagHasRoutingInfo: u16 = 0x0004;

} // verus!
