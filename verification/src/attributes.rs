//! How a cell is drawn.
use vstd::prelude::*;

verus! {

#[derive(Debug, Clone, Copy, PartialEq, Eq, Structural)]
pub enum Intensity {
    Normal,
    Bold,
    Half,
}

#[derive(Debug, Clone, Copy, PartialEq, Eq, Structural)]
pub enum Underline {
    Off,
    Single,
    Double,
}

#[derive(Debug, Clone, Copy, PartialEq, Eq, Structural)]
pub enum Blink {
    Off,
    Slow,
    Rapid,
}

#[derive(Debug, Clone, Copy, PartialEq, Eq, Structural)]
pub enum ColorAttribute {
    Default,
    PaletteIndex(u8),
    TrueColor { red: u8, green: u8, blue: u8 },
}

/// The graphic rendition of a cell: everything but its hyperlink.
#[derive(Debug, Clone, Copy, PartialEq, Eq, Structural)]
pub struct Rendition {
    pub intensity: Intensity,
    pub underline: Underline,
    pub blink: Blink,
    pub italic: bool,
    pub reverse: bool,
    pub strikethrough: bool,
    pub invisible: bool,
    pub foreground: ColorAttribute,
    pub background: ColorAttribute,
}

impl Rendition {
    pub open spec fn plain() -> Rendition {
        Rendition {
            intensity: Intensity::Normal,
            underline: Underline::Off,
            blink: Blink::Off,
            italic: false,
            reverse: false,
            strikethrough: false,
            invisible: false,
            foreground: ColorAttribute::Default,
            background: ColorAttribute::Default,
        }
    }
}

/// The target of a link. A link is implicit where it was found in the text of
/// the line rather than set by the program that wrote the text.
#[derive(Debug, PartialEq, Eq)]
pub struct Hyperlink {
    pub uri: String,
    pub implicit: bool,
}

#[verifier::ext_equal]
pub struct LinkModel {
    pub uri: Seq<char>,
    pub implicit: bool,
}

impl View for Hyperlink {
    type V = LinkModel;

    open spec fn view(&self) -> LinkModel {
        LinkModel { uri: self.uri@, implicit: self.implicit }
    }
}

impl Hyperlink {
    pub fn duplicate(&self) -> (copy: Hyperlink)
        ensures
            copy == *self,
    {
        Hyperlink { uri: self.uri.clone(), implicit: self.implicit }
    }
}

/// The view of a link that may be absent.
pub open spec fn link_view(link: Option<Hyperlink>) -> Option<LinkModel> {
    match link {
        Some(l) => Some(l@),
        None => None,
    }
}

pub fn duplicate_link(link: &Option<Hyperlink>) -> (copy: Option<Hyperlink>)
    ensures
        copy == *link,
{
    match link {
        Some(l) => Some(l.duplicate()),
        None => None,
    }
}

/// The attributes of a cell.
#[derive(Debug, PartialEq, Eq)]
pub struct CellAttributes {
    pub rendition: Rendition,
    pub hyperlink: Option<Hyperlink>,
}

#[verifier::ext_equal]
pub struct AttrModel {
    pub rendition: Rendition,
    pub link: Option<LinkModel>,
}

impl AttrModel {
    /// The attributes that a blank cell has.
    pub open spec fn plain() -> AttrModel {
        AttrModel { rendition: Rendition::plain(), link: None }
    }

    /// The attributes without the link.
    pub open spec fn sgr_only(self) -> AttrModel {
        AttrModel { link: None, ..self }
    }
}

impl View for CellAttributes {
    type V = AttrModel;

    open spec fn view(&self) -> AttrModel {
        AttrModel { rendition: self.rendition, link: link_view(self.hyperlink) }
    }
}

impl Default for CellAttributes {
    fn default() -> (attrs: CellAttributes)
        ensures
            attrs@ == AttrModel::plain(),
    {
        CellAttributes {
            rendition: Rendition {
                intensity: Intensity::Normal,
                underline: Underline::Off,
                blink: Blink::Off,
                italic: false,
                reverse: false,
                strikethrough: false,
                invisible: false,
                foreground: ColorAttribute::Default,
                background: ColorAttribute::Default,
            },
            hyperlink: None,
        }
    }
}

impl CellAttributes {
    pub fn duplicate(&self) -> (copy: CellAttributes)
        ensures
            copy == *self,
    {
        CellAttributes { rendition: self.rendition, hyperlink: duplicate_link(&self.hyperlink) }
    }

    /// The attributes without extras such as the hyperlink.
    pub fn clone_sgr_only(&self) -> (copy: CellAttributes)
        ensures
            copy@ == self@.sgr_only(),
    {
        CellAttributes { rendition: self.rendition, hyperlink: None }
    }
}

} // verus!
