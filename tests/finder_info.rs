use finder_info::{
    ByteCursor, DecodeError, ExtendedFileInfo, ExtendedFinderFlags, ExtendedFolderInfo, FileInfo,
    FinderFlags, FinderInfoFile, FinderInfoFolder, FolderInfo, LabelColor, OSType, Point, Rect,
};

// FinderInfo xattr with custom icon bit off.
const DEFAULT_FINDERINFO_XATTR_VALUE: [u8; 32] = [0u8; 32];

// FinderInfo xattr with the custom icon bit on.
const FINDERINFO_XATTR_VALUE_ON: [u8; 32] = [
    0x00, 0x00, 0x00, 0x00, 0x00, 0x00, 0x00, 0x00, 0x04, 0x00, 0x00, 0x00, 0x00, 0x00, 0x00,
    0x00, 0x00, 0x00, 0x00, 0x00, 0x00, 0x00, 0x00, 0x00, 0x00, 0x00, 0x00, 0x00, 0x00, 0x00,
    0x00, 0x00,
];

// FinderInfo xattr with label = Blue and custom icon bit set.
const FINDERINFO_XATTR_RED_BLUE_FOO_ICON: [u8; 32] = [
    0x00, 0x00, 0x00, 0x00, 0x00, 0x00, 0x00, 0x00, 0x04, 0x08, 0x00, 0x00, 0x00, 0x00, 0x00,
    0x00, 0x00, 0x00, 0x00, 0x00, 0x00, 0x00, 0x00, 0x00, 0x00, 0x00, 0x00, 0x00, 0x00, 0x00,
    0x00, 0x00,
];

// FinderInfo xattr with label = Red
const FINDERINFO_XATTR_FOO_BLUE_RED: [u8; 32] = [
    0x00, 0x00, 0x00, 0x00, 0x00, 0x00, 0x00, 0x00, 0x00, 0x0C, 0x00, 0x00, 0x00, 0x00, 0x00,
    0x00, 0x00, 0x00, 0x00, 0x00, 0x00, 0x00, 0x00, 0x00, 0x00, 0x00, 0x00, 0x00, 0x00, 0x00,
    0x00, 0x00,
];

// FinderInfo xattr with label = Red with the the custom icon bit set.
const FINDERINFO_XATTR_FOO_BLUE_RED_ICON: [u8; 32] = [
    0x00, 0x00, 0x00, 0x00, 0x00, 0x00, 0x00, 0x00, 0x04, 0x0C, 0x00, 0x00, 0x00, 0x00, 0x00,
    0x00, 0x00, 0x00, 0x00, 0x00, 0x00, 0x00, 0x00, 0x00, 0x00, 0x00, 0x00, 0x00, 0x00, 0x00,
    0x00, 0x00,
];

// A record whose every field is nonzero, several of them negative.
const MIXED: [u8; 32] = [
    0x73, 0x6c, 0x6e, 0x6b, 0x72, 0x68, 0x61, 0x70, 0xC4, 0x4A, 0xFF, 0xFE, 0x01, 0x02, 0x12,
    0x34, 0x80, 0x00, 0x7F, 0xFF, 0xFF, 0xFF, 0x00, 0x01, 0x81, 0x04, 0xAB, 0xCD, 0xFF, 0xFF,
    0xFF, 0x85,
];

fn cursor(bytes: &[u8]) -> ByteCursor {
    ByteCursor::new(bytes.to_vec())
}

#[test]
fn test_finderinfo_sizes() {
    assert_eq!(::std::mem::size_of::<FileInfo>(), 16);
    assert_eq!(::std::mem::size_of::<ExtendedFileInfo>(), 16);
    assert_eq!(::std::mem::size_of::<FinderInfoFile>(), 32);
    assert_eq!(::std::mem::size_of::<FolderInfo>(), 16);
    assert_eq!(::std::mem::size_of::<ExtendedFolderInfo>(), 16);
    assert_eq!(::std::mem::size_of::<FinderInfoFolder>(), 32);
}

#[test]
fn test_set_get_finderinfo_file() {
    let mut finfo = FinderInfoFile::read(&mut cursor(&DEFAULT_FINDERINFO_XATTR_VALUE)).unwrap();
    assert!(!finfo.file_info.finderFlags.has_custom_icon());
    assert_eq!(finfo.file_info.finderFlags.color(), None);

    let mut serialized = vec![];
    finfo.write(&mut serialized);
    assert_eq!(DEFAULT_FINDERINFO_XATTR_VALUE.to_vec(), serialized);

    finfo
        .file_info
        .finderFlags
        .set_color(Some(LabelColor::Blue));
    finfo.file_info.finderFlags.set_has_custom_icon(true);

    let mut serialized = vec![];
    finfo.write(&mut serialized);
    assert_eq!(serialized.len(), 32);
    assert_eq!(serialized, FINDERINFO_XATTR_RED_BLUE_FOO_ICON);

    let finfo = FinderInfoFile::read(&mut cursor(&FINDERINFO_XATTR_FOO_BLUE_RED_ICON)).unwrap();
    assert!(finfo.file_info.finderFlags.has_custom_icon());
    assert_eq!(finfo.file_info.finderFlags.color(), Some(LabelColor::Red));
}

#[test]
fn test_set_get_finderinfo_folder() {
    let mut finfo = FinderInfoFolder::read(&mut cursor(&DEFAULT_FINDERINFO_XATTR_VALUE)).unwrap();
    assert!(!finfo.folder_info.finderFlags.has_custom_icon());
    assert_eq!(finfo.folder_info.finderFlags.color(), None);

    let mut serialized = vec![];
    finfo.write(&mut serialized);
    assert_eq!(DEFAULT_FINDERINFO_XATTR_VALUE.to_vec(), serialized);

    finfo.folder_info.finderFlags.set_has_custom_icon(true);

    let mut serialized = vec![];
    finfo.write(&mut serialized);
    assert_eq!(serialized.len(), 32);
    assert_eq!(serialized, FINDERINFO_XATTR_VALUE_ON);

    finfo
        .folder_info
        .finderFlags
        .set_color(Some(LabelColor::Blue));

    let mut serialized = vec![];
    finfo.write(&mut serialized);
    assert_eq!(serialized.len(), 32);
    assert_eq!(serialized, FINDERINFO_XATTR_RED_BLUE_FOO_ICON);

    let finfo = FinderInfoFolder::read(&mut cursor(&FINDERINFO_XATTR_FOO_BLUE_RED)).unwrap();
    assert!(!finfo.folder_info.finderFlags.has_custom_icon());
    assert_eq!(finfo.folder_info.finderFlags.color(), Some(LabelColor::Red));
}

#[test]
fn zero_record_as_file() {
    let finfo = FinderInfoFile::read(&mut cursor(&[0u8; 32])).unwrap();
    assert!(!finfo.file_info.finderFlags.has_custom_icon());
    assert_eq!(finfo.file_info.finderFlags.color(), None);
    let mut out = vec![];
    finfo.write(&mut out);
    assert_eq!(out, vec![0u8; 32]);
}

#[test]
fn red_with_icon_as_file() {
    let mut bytes = [0u8; 32];
    bytes[8] = 0x04;
    bytes[9] = 0x0C;
    let finfo = FinderInfoFile::read(&mut cursor(&bytes)).unwrap();
    assert!(finfo.file_info.finderFlags.has_custom_icon());
    assert_eq!(finfo.file_info.finderFlags.color(), Some(LabelColor::Red));
}

#[test]
fn red_as_folder() {
    let mut bytes = [0u8; 32];
    bytes[9] = 0x0C;
    let finfo = FinderInfoFolder::read(&mut cursor(&bytes)).unwrap();
    assert_eq!(finfo.folder_info.finderFlags.color(), Some(LabelColor::Red));
    assert!(!finfo.folder_info.finderFlags.has_custom_icon());
}

#[test]
fn blue_and_icon_set_on_zero_file() {
    let mut finfo = FinderInfoFile::read(&mut cursor(&[0u8; 32])).unwrap();
    finfo.file_info.finderFlags.set_color(Some(LabelColor::Blue));
    finfo.file_info.finderFlags.set_has_custom_icon(true);
    let mut out = vec![];
    finfo.write(&mut out);
    let mut expected = vec![0u8; 32];
    expected[8] = 0x04;
    expected[9] = 0x08;
    assert_eq!(out, expected);
}

#[test]
fn truncated_input_is_rejected() {
    for n in 0..32usize {
        let bytes = vec![0xAAu8; n];
        let mut c = ByteCursor::new(bytes.clone());
        assert_eq!(FinderInfoFile::read(&mut c).unwrap_err(), DecodeError::TruncatedInput);
        assert_eq!(c.position(), 0);
        let mut c = ByteCursor::new(bytes);
        assert_eq!(FinderInfoFolder::read(&mut c).unwrap_err(), DecodeError::TruncatedInput);
        assert_eq!(c.position(), 0);
    }
    let mut c = cursor(&[1, 2, 3]);
    assert_eq!(Point::read(&mut c).unwrap_err(), DecodeError::TruncatedInput);
    assert_eq!(Rect::read(&mut cursor(&[0; 7])).unwrap_err(), DecodeError::TruncatedInput);
    assert_eq!(FileInfo::read(&mut cursor(&[0; 15])).unwrap_err(), DecodeError::TruncatedInput);
}

#[test]
fn reads_advance_the_cursor() {
    let mut bytes = MIXED.to_vec();
    bytes.extend_from_slice(&MIXED);
    let mut c = ByteCursor::new(bytes);
    FinderInfoFile::read(&mut c).unwrap();
    assert_eq!(c.position(), 32);
    assert_eq!(c.remaining(), 32);
    FinderInfoFolder::read(&mut c).unwrap();
    assert_eq!(c.remaining(), 0);
    assert_eq!(FinderInfoFile::read(&mut c).unwrap_err(), DecodeError::TruncatedInput);
    assert_eq!(c.into_inner().len(), 64);
}

#[test]
fn mixed_record_decodes_as_file() {
    let finfo = FinderInfoFile::read(&mut cursor(&MIXED)).unwrap();
    let fi = &finfo.file_info;
    assert!(fi.fileType == OSType(*b"slnk"));
    assert!(fi.fileCreator == OSType(*b"rhap"));
    assert_eq!(u16::from(fi.finderFlags), 0xC44A);
    assert_eq!(fi.location, Point { v: -2, h: 0x0102 });
    assert_eq!(fi.reservedField, 0x1234);
    let xi = &finfo.extended_file_info;
    assert_eq!(xi.reserved1, [-32768, 32767, -1, 1]);
    assert_eq!(u16::from(xi.extendedFinderFlags), 0x8104);
    assert_eq!(xi.reserved2, -21555);
    assert_eq!(xi.putAwayFolderID, -123);
    let mut out = vec![];
    finfo.write(&mut out);
    assert_eq!(out, MIXED.to_vec());
}

#[test]
fn mixed_record_decodes_as_folder() {
    let finfo = FinderInfoFolder::read(&mut cursor(&MIXED)).unwrap();
    let fi = &finfo.folder_info;
    assert_eq!(
        fi.windowBounds,
        Rect { top: 0x736c, left: 0x6e6b, bottom: 0x7268, right: 0x6170 }
    );
    assert_eq!(u16::from(fi.finderFlags), 0xC44A);
    assert_eq!(fi.location, Point { v: -2, h: 0x0102 });
    assert_eq!(fi.reservedField, 0x1234);
    let xi = &finfo.extended_folder_info;
    assert_eq!(xi.scrollPosition, Point { v: -32768, h: 32767 });
    assert_eq!(xi.reserved1, 0xFFFF0001u32 as i32);
    assert_eq!(u16::from(xi.extendedFinderFlags), 0x8104);
    assert_eq!(xi.reserved2, -21555);
    assert_eq!(xi.putAwayFolderID, -123);
    let mut out = vec![];
    finfo.write(&mut out);
    assert_eq!(out, MIXED.to_vec());
}

#[test]
fn point_and_rect_bytes() {
    let mut out = vec![9u8];
    Point { v: -2, h: 258 }.write(&mut out);
    assert_eq!(out, vec![9, 0xFF, 0xFE, 0x01, 0x02]);
    let mut out = vec![];
    Rect { top: 1, left: -1, bottom: 256, right: -256 }.write(&mut out);
    assert_eq!(out, vec![0x00, 0x01, 0xFF, 0xFF, 0x01, 0x00, 0xFF, 0x00]);
    let r = Rect::read(&mut cursor(&out)).unwrap();
    assert_eq!(r, Rect { top: 1, left: -1, bottom: 256, right: -256 });
}

#[test]
fn defaults_encode_to_zero_bytes() {
    let mut out = vec![];
    FinderInfoFile::default().write(&mut out);
    assert_eq!(out, vec![0u8; 32]);
    let mut out = vec![];
    FinderInfoFolder::default().write(&mut out);
    assert_eq!(out, vec![0u8; 32]);
    assert_eq!(Point::default(), Point { v: 0, h: 0 });
    assert!(OSType::default() == OSType([0; 4]));
    assert_eq!(u16::from(FinderFlags::default()), 0);
    assert_eq!(u16::from(ExtendedFinderFlags::default()), 0);
}

#[test]
fn color_codes_round_trip() {
    let all = [
        LabelColor::Gray,
        LabelColor::Green,
        LabelColor::Purple,
        LabelColor::Blue,
        LabelColor::Yellow,
        LabelColor::Red,
        LabelColor::Orange,
    ];
    let codes = [2u8, 4, 6, 8, 10, 12, 14];
    for (c, code) in all.iter().zip(codes.iter()) {
        assert_eq!(LabelColor::to_u8(Some(*c)), *code);
        assert_eq!(LabelColor::from_u8(LabelColor::to_u8(Some(*c))), Some(*c));
    }
    assert_eq!(LabelColor::to_u8(None), 0);
    assert_eq!(LabelColor::from_u8(0), None);
    for b in 0..=255u8 {
        if !codes.contains(&b) {
            assert_eq!(LabelColor::from_u8(b), None);
        }
    }
}

#[test]
fn color_names() {
    assert_eq!(LabelColor::to_str(LabelColor::Purple), "Purple");
    assert_eq!(LabelColor::to_str(LabelColor::Orange), "Orange");
    assert_eq!(LabelColor::from_str("Yellow"), Some(LabelColor::Yellow));
    assert_eq!(LabelColor::from_str("Gray"), Some(LabelColor::Gray));
    assert_eq!(LabelColor::from_str("gray"), None);
    assert_eq!(LabelColor::from_str("Grey"), None);
    assert_eq!(LabelColor::from_str(""), None);
    assert_eq!(LabelColor::from_str("Redd"), None);
}

#[test]
fn icon_and_color_are_independent() {
    for start in [0u16, 0xFFFF, 0x0400, 0x000E, 0xC44A] {
        let mut f = FinderFlags::from(start);
        let color = f.color();
        f.set_has_custom_icon(true);
        assert_eq!(f.color(), color);
        assert_eq!(u16::from(f), start | 0x0400);
        f.set_has_custom_icon(false);
        assert_eq!(f.color(), color);
        assert_eq!(u16::from(f), start & !0x0400);

        let mut g = FinderFlags::from(start);
        let icon = g.has_custom_icon();
        g.set_color(Some(LabelColor::Green));
        assert_eq!(g.has_custom_icon(), icon);
        assert_eq!(g.color(), Some(LabelColor::Green));
        assert_eq!(u16::from(g), (start & !0x000E) | 0x0004);
        g.set_color(None);
        assert_eq!(g.has_custom_icon(), icon);
        assert_eq!(g.color(), None);
        assert_eq!(u16::from(g), start & !0x000E);
    }
}

#[test]
fn flag_accessors() {
    let f = FinderFlags::from(0xFFFF);
    assert!(f.is_shared() && f.has_no_inits() && f.has_been_inited() && f.has_custom_icon());
    assert!(f.is_stationery() && f.name_locked() && f.has_bundle() && f.is_invisible());
    assert!(f.is_alias());
    let f = FinderFlags::from(0x0001 | 0x0200);
    assert!(!f.is_shared() && !f.has_no_inits() && !f.has_been_inited());
    assert!(!f.has_custom_icon() && !f.is_stationery() && !f.name_locked());
    assert!(!f.has_bundle() && !f.is_invisible() && !f.is_alias());
    assert_eq!(f.color(), None);
    let x = ExtendedFinderFlags::from(0x8104);
    assert!(x.are_invalid() && x.has_custom_badge() && x.has_routing_info());
    let x = ExtendedFinderFlags::from(0x7EFB);
    assert!(!x.are_invalid() && !x.has_custom_badge() && !x.has_routing_info());
}

#[test]
fn flag_names_in_order() {
    assert!(FinderFlags::from(0).flag_names().is_empty());
    assert_eq!(
        FinderFlags::from(0x4408 | 0x0040).flag_names(),
        vec!["Blue", "kIsShared", "kHasCustomIcon", "kIsInvisible"]
    );
    assert_eq!(
        FinderFlags::from(0xFFFE).flag_names(),
        vec![
            "Orange",
            "kIsShared",
            "kHasNoINITs",
            "kHasBeenInited",
            "kHasCustomIcon",
            "kIsStationery",
            "kNameLocked",
            "kHasBundle",
            "kIsInvisible",
            "kIsAlias"
        ]
    );
    assert_eq!(
        ExtendedFinderFlags::from(0x8104).flag_names(),
        vec![
            "kExtendedFlagsAreInvalid",
            "kExtendedFlagHasCustomBadge",
            "kExtendedFlagHasRoutingInfo"
        ]
    );
    assert_eq!(ExtendedFinderFlags::from(0x0004).flag_names(), vec!["kExtendedFlagHasRoutingInfo"]);
}

#[test]
fn reserved_fields_default() {
    let finfo = FinderInfoFile::read(&mut cursor(&MIXED)).unwrap();
    assert!(!finfo.extended_file_info.reserved_is_default());
    let folder = FinderInfoFolder::read(&mut cursor(&MIXED)).unwrap();
    assert!(!folder.folder_info.reserved_is_default());
    assert!(!folder.extended_folder_info.reserved_is_default());
    let zero = FinderInfoFolder::default();
    assert!(zero.folder_info.reserved_is_default());
    assert!(zero.extended_folder_info.reserved_is_default());
    assert!(FinderInfoFile::default().extended_file_info.reserved_is_default());
    let mut x = ExtendedFileInfo::default();
    x.reserved1[3] = 1;
    assert!(!x.reserved_is_default());
}
