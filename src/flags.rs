//! The two 16-bit Finder flag words.

use vstd::prelude::*;

use crate::constants::{
    kColor, kExtendedFlagHasCustomBadge, kExtendedFlagHasRoutingInfo, kExtendedFlagsAreInvalid,
    kHasBeenInited, kHasBundle, kHasCustomIcon, kHasNoINITs, kIsAlias, kIsInvisible, kIsShared,
    kIsStationery, kNameLocked,
};
use crate::label::LabelColor;

verus! {

/// Whether any bit of `mask` is set in `bits`.
pub open spec fn flag_set(bits: u16, mask: u16) -> bool {
    bits & mask != 0
}

/// `bits` with the bits of `mask` all set (`on`) or all cleared.
pub open spec fn with_flag(bits: u16, mask: u16, on: bool) -> u16 {
    if on {
        bits | mask
    } else {
        bits & !mask
    }
}

/// The label color held in the color bits of `bits`.
pub open spec fn color_of(bits: u16) -> Option<LabelColor> {
    LabelColor::spec_from_u8((bits & kColor) as u8)
}

/// `bits` with the color bits cleared and then set to the code of `c`.
pub open spec fn with_color(bits: u16, c: Option<LabelColor>) -> u16 {
    (bits & !kColor) | (LabelColor::spec_to_u8(c) as u16)
}

/// `name` if `on`, else nothing.
pub open spec fn name_if(on: bool, name: Seq<char>) -> Seq<Seq<char>> {
    if on {
        seq![name]
    } else {
        Seq::empty()
    }
}

/// The names of the Finder flags set in `bits`: the color first, then each
/// set flag in the order of its mask constant.
pub open spec fn finder_flag_names(bits: u16) -> Seq<Seq<char>> {
    (match color_of(bits) {
        Some(c) => seq![LabelColor::spec_name(c)],
        None => Seq::empty(),
    }) + name_if(flag_set(bits, kIsShared), "kIsShared"@) + name_if(
        flag_set(bits, kHasNoINITs),
        "kHasNoINITs"@,
    ) + name_if(flag_set(bits, kHasBeenInited), "kHasBeenInited"@) + name_if(
        flag_set(bits, kHasCustomIcon),
        "kHasCustomIcon"@,
    ) + name_if(flag_set(bits, kIsStationery), "kIsStationery"@) + name_if(
        flag_set(bits, kNameLocked),
        "kNameLocked"@,
    ) + name_if(flag_set(bits, kHasBundle), "kHasBundle"@) + name_if(
        flag_set(bits, kIsInvisible),
        "kIsInvisible"@,
    ) + name_if(flag_set(bits, kIsAlias), "kIsAlias"@)
}

/// The names of the extended Finder flags set in `bits`, in the order of
/// their mask constants from the highest.
pub open spec fn extended_flag_names(bits: u16) -> Seq<Seq<char>> {
    name_if(flag_set(bits, kExtendedFlagsAreInvalid), "kExtendedFlagsAreInvalid"@) + name_if(
        flag_set(bits, kExtendedFlagHasCustomBadge),
        "kExtendedFlagHasCustomBadge"@,
    ) + name_if(flag_set(bits, kExtendedFlagHasRoutingInfo), "kExtendedFlagHasRoutingInfo"@)
}

/// The views of a list of names.
pub open spec fn names_view(v: Seq<&str>) -> Seq<Seq<char>> {
    v.map_values(|s: &str| s@)
}

/// Appends `name` to `v` when `on`.
fn push_name_if(v: &mut Vec<&'static str>, on: bool, name: &'static str)
    ensures
        names_view(final(v)@) == names_view(old(v)@) + name_if(on, name@),
{
    if on {
        v.push(name);
    }
    assert(names_view(final(v)@) =~= names_view(old(v)@) + name_if(on, name@));
}

/// The Finder flags word of a file or folder.
#[derive(Clone, Copy, Debug, PartialEq, Eq, Structural)]
pub struct FinderFlags(pub u16);

impl FinderFlags {
    /// The label color, if the color bits hold one.
    pub fn color(&self) -> (r: Option<LabelColor>)
        ensures
            r == color_of(self.0),
    {
        LabelColor::from_u8((self.0 & kColor) as u8)
    }

    /// Replaces the color bits by the code of `color` and keeps every other bit.
    pub fn set_color(&mut self, color: Option<LabelColor>)
        ensures
            final(self).0 == with_color(old(self).0, color),
            color_of(final(self).0) == color,
            final(self).0 & !kColor == old(self).0 & !kColor,
    {
        self.0 = self.0 & !kColor;
        self.0 = self.0 | (LabelColor::to_u8(color) as u16);
        proof {
            lemma_with_color(old(self).0, color);
        }
    }

    pub fn is_shared(&self) -> (r: bool)
        ensures
            r == flag_set(self.0, kIsShared),
    {
        self.0 & kIsShared != 0
    }

    pub fn has_no_inits(&self) -> (r: bool)
        ensures
            r == flag_set(self.0, kHasNoINITs),
    {
        self.0 & kHasNoINITs != 0
    }

    pub fn has_been_inited(&self) -> (r: bool)
        ensures
            r == flag_set(self.0, kHasBeenInited),
    {
        self.0 & kHasBeenInited != 0
    }

    pub fn has_custom_icon(&self) -> (r: bool)
        ensures
            r == flag_set(self.0, kHasCustomIcon),
    {
        self.0 & kHasCustomIcon != 0
    }

    /// Sets or clears the custom icon bit and keeps every other bit.
    pub fn set_has_custom_icon(&mut self, value: bool)
        ensures
            final(self).0 == with_flag(old(self).0, kHasCustomIcon, value),
            flag_set(final(self).0, kHasCustomIcon) == value,
            final(self).0 & !kHasCustomIcon == old(self).0 & !kHasCustomIcon,
    {
        if value {
            self.0 = self.0 | kHasCustomIcon;
        } else {
            self.0 = self.0 & !kHasCustomIcon;
        }
        proof {
            lemma_with_custom_icon(old(self).0, value);
        }
    }

    pub fn is_stationery(&self) -> (r: bool)
        ensures
            r == flag_set(self.0, kIsStationery),
    {
        self.0 & kIsStationery != 0
    }

    pub fn name_locked(&self) -> (r: bool)
        ensures
            r == flag_set(self.0, kNameLocked),
    {
        self.0 & kNameLocked != 0
    }

    pub fn has_bundle(&self) -> (r: bool)
        ensures
            r == flag_set(self.0, kHasBundle),
    {
        self.0 & kHasBundle != 0
    }

    pub fn is_invisible(&self) -> (r: bool)
        ensures
            r == flag_set(self.0, kIsInvisible),
    {
        self.0 & kIsInvisible != 0
    }

    pub fn is_alias(&self) -> (r: bool)
        ensures
            r == flag_set(self.0, kIsAlias),
    {
        self.0 & kIsAlias != 0
    }

    /// The names of the flags that are set, for diagnostics: the color name
    /// first, if any, then each set flag in the order of its mask.
    pub fn flag_names(&self) -> (r: Vec<&'static str>)
        ensures
            names_view(r@) == finder_flag_names(self.0),
    {
        let mut v: Vec<&'static str> = Vec::new();
        match self.color() {
            Some(c) => v.push(LabelColor::to_str(c)),
            None => {},
        }
        assert(names_view(v@) =~= match color_of(self.0) {
            Some(c) => seq![LabelColor::spec_name(c)],
            None => Seq::empty(),
        });
        push_name_if(&mut v, self.is_shared(), "kIsShared");
        push_name_if(&mut v, self.has_no_inits(), "kHasNoINITs");
        push_name_if(&mut v, self.has_been_inited(), "kHasBeenInited");
        push_name_if(&mut v, self.has_custom_icon(), "kHasCustomIcon");
        push_name_if(&mut v, self.is_stationery(), "kIsStationery");
        push_name_if(&mut v, self.name_locked(), "kNameLocked");
        push_name_if(&mut v, self.has_bundle(), "kHasBundle");
        push_name_if(&mut v, self.is_invisible(), "kIsInvisible");
        push_name_if(&mut v, self.is_alias(), "kIsAlias");
        v
    }
}

impl Default for FinderFlags {
    /// No flag set.
    fn default() -> (r: FinderFlags)
        ensures
            r.0 == 0,
    {
        FinderFlags(0)
    }
}

impl From<u16> for FinderFlags {
    fn from(s: u16) -> (r: FinderFlags)
        ensures
            r.0 == s,
    {
        FinderFlags(s)
    }
}

impl vstd::std_specs::convert::FromSpecImpl<u16> for FinderFlags {
    open spec fn obeys_from_spec() -> bool {
        true
    }

    open spec fn from_spec(v: u16) -> FinderFlags {
        FinderFlags(v)
    }
}

impl From<FinderFlags> for u16 {
    fn from(f: FinderFlags) -> (r: u16)
        ensures
            r == f.0,
    {
        f.0
    }
}

impl vstd::std_specs::convert::FromSpecImpl<FinderFlags> for u16 {
    open spec fn obeys_from_spec() -> bool {
        true
    }

    open spec fn from_spec(v: FinderFlags) -> u16 {
        v.0
    }
}

/// The extended Finder flags word, read only here.
#[derive(Clone, Copy, Debug, PartialEq, Eq, Structural)]
pub struct ExtendedFinderFlags(pub u16);

impl ExtendedFinderFlags {
    /// Whether the other extended flags are to be ignored.
    pub fn are_invalid(&self) -> (r: bool)
        ensures
            r == flag_set(self.0, kExtendedFlagsAreInvalid),
    {
        self.0 & kExtendedFlagsAreInvalid != 0
    }

    pub fn has_custom_badge(&self) -> (r: bool)
        ensures
            r == flag_set(self.0, kExtendedFlagHasCustomBadge),
    {
        self.0 & kExtendedFlagHasCustomBadge != 0
    }

    pub fn has_routing_info(&self) -> (r: bool)
        ensures
            r == flag_set(self.0, kExtendedFlagHasRoutingInfo),
    {
        self.0 & kExtendedFlagHasRoutingInfo != 0
    }

    /// The names of the extended flags that are set, for diagnostics.
    pub fn flag_names(&self) -> (r: Vec<&'static str>)
        ensures
            names_view(r@) == extended_flag_names(self.0),
    {
        let mut v: Vec<&'static str> = Vec::new();
        assert(names_view(v@) =~= Seq::empty());
        push_name_if(&mut v, self.are_invalid(), "kExtendedFlagsAreInvalid");
        push_name_if(&mut v, self.has_custom_badge(), "kExtendedFlagHasCustomBadge");
        push_name_if(&mut v, self.has_routing_info(), "kExtendedFlagHasRoutingInfo");
        v
    }
}

impl Default for ExtendedFinderFlags {
    /// No flag set.
    fn default() -> (r: ExtendedFinderFlags)
        ensures
            r.0 == 0,
    {
        ExtendedFinderFlags(0)
    }
}

impl From<u16> for ExtendedFinderFlags {
    fn from(s: u16) -> (r: ExtendedFinderFlags)
        ensures
            r.0 == s,
    {
        ExtendedFinderFlags(s)
    }
}

impl vstd::std_specs::convert::FromSpecImpl<u16> for ExtendedFinderFlags {
    open spec fn obeys_from_spec() -> bool {
        true
    }

    open spec fn from_spec(v: u16) -> ExtendedFinderFlags {
        ExtendedFinderFlags(v)
    }
}

impl From<ExtendedFinderFlags> for u16 {
    fn from(f: ExtendedFinderFlags) -> (r: u16)
        ensures
            r == f.0,
    {
        f.0
    }
}

impl vstd::std_specs::convert::FromSpecImpl<ExtendedFinderFlags> for u16 {
    open spec fn obeys_from_spec() -> bool {
        true
    }

    open spec fn from_spec(v: ExtendedFinderFlags) -> u16 {
        v.0
    }
}

/// The code of a color only occupies the color bits.
proof fn lemma_color_code_in_mask(c: Option<LabelColor>)
    ensures
        (LabelColor::spec_to_u8(c) as u16) & kColor == LabelColor::spec_to_u8(c) as u16,
        (LabelColor::spec_to_u8(c) as u16) & !kColor == 0,
{
    let x = LabelColor::spec_to_u8(c) as u16;
    assert(x & 0x000e == x && x & !0x000eu16 == 0) by (bit_vector)
        requires
            x == 0 || x == 2 || x == 4 || x == 6 || x == 8 || x == 10 || x == 12 || x == 14,
    ;
}

/// What setting the color does to the word.
proof fn lemma_with_color(bits: u16, c: Option<LabelColor>)
    ensures
        color_of(with_color(bits, c)) == c,
        with_color(bits, c) & !kColor == bits & !kColor,
        flag_set(with_color(bits, c), kHasCustomIcon) == flag_set(bits, kHasCustomIcon),
{
    lemma_color_code_in_mask(c);
    let x = LabelColor::spec_to_u8(c) as u16;
    let w = with_color(bits, c);
    assert(((bits & !0x000eu16) | x) & 0x000e == x & 0x000e) by (bit_vector);
    assert(((bits & !0x000eu16) | x) & !0x000eu16 == (bits & !0x000eu16) | (x & !0x000eu16))
        by (bit_vector);
    assert(((bits & !0x000eu16) | x) & 0x0400 == (bits & 0x0400) | (x & 0x0400)) by (bit_vector);
    assert(x & 0x000e == x ==> x & 0x0400 == 0) by (bit_vector);
    assert(((bits & 0x000e) as u8) as u16 == bits & 0x000e) by (bit_vector);
    assert((bits & !0x000eu16) | 0 == bits & !0x000eu16) by (bit_vector);
    assert((bits & 0x0400) | 0 == bits & 0x0400) by (bit_vector);
    assert(((w & 0x000e) as u8) as u16 == w & 0x000e) by (bit_vector);
    lemma_color_round_trip_code(c);
}

/// Decoding the code of a color gives the color back.
proof fn lemma_color_round_trip_code(c: Option<LabelColor>)
    ensures
        LabelColor::spec_from_u8(LabelColor::spec_to_u8(c)) == c,
{
}

/// What setting or clearing the custom icon bit does to the word.
proof fn lemma_with_custom_icon(bits: u16, on: bool)
    ensures
        flag_set(with_flag(bits, kHasCustomIcon, on), kHasCustomIcon) == on,
        with_flag(bits, kHasCustomIcon, on) & !kHasCustomIcon == bits & !kHasCustomIcon,
        color_of(with_flag(bits, kHasCustomIcon, on)) == color_of(bits),
{
    assert((bits | 0x0400) & 0x0400 != 0) by (bit_vector);
    assert((bits & !0x0400u16) & 0x0400 == 0) by (bit_vector);
    assert((bits | 0x0400) & !0x0400u16 == bits & !0x0400u16) by (bit_vector);
    assert((bits & !0x0400u16) & !0x0400u16 == bits & !0x0400u16) by (bit_vector);
    assert((bits | 0x0400) & 0x000e == bits & 0x000e) by (bit_vector);
    assert((bits & !0x0400u16) & 0x000e == bits & 0x000e) by (bit_vector);
}

/// Setting the custom icon bit leaves the color alone, and setting the color
/// leaves the custom icon bit alone, whatever the word held before.
pub proof fn lemma_flag_independence(bits: u16, c: Option<LabelColor>, on: bool)
    ensures
        color_of(with_flag(bits, kHasCustomIcon, on)) == color_of(bits),
        flag_set(with_color(bits, c), kHasCustomIcon) == flag_set(bits, kHasCustomIcon),
{
    lemma_with_custom_icon(bits, on);
    lemma_with_color(bits, c);
}

} // verus!
