//! One cell of the screen.
use crate::attributes::{AttrModel, CellAttributes};
use crate::outside::char_width;
use vstd::prelude::*;

verus! {

/// A character and the attributes that it is drawn with.
#[derive(Debug, PartialEq, Eq)]
pub struct Cell {
    pub text: char,
    pub attrs: CellAttributes,
}

#[verifier::ext_equal]
pub struct CellModel {
    pub text: char,
    pub attrs: AttrModel,
}

impl CellModel {
    pub open spec fn with(text: char, attrs: AttrModel) -> CellModel {
        CellModel { text, attrs }
    }

    /// A space with the given attributes.
    pub open spec fn space(attrs: AttrModel) -> CellModel {
        CellModel { text: ' ', attrs }
    }

    /// A space without attributes.
    pub open spec fn blank() -> CellModel {
        CellModel::space(AttrModel::plain())
    }
}

impl View for Cell {
    type V = CellModel;

    open spec fn view(&self) -> CellModel {
        CellModel { text: self.text, attrs: self.attrs@ }
    }
}

/// The number of columns that a character moves the cursor by.
pub open spec fn columns(c: char) -> nat {
    match crate::outside::char_columns(c) {
        Some(w) => w as nat,
        None => 0,
    }
}

impl Cell {
    pub fn new(text: char, attrs: CellAttributes) -> (cell: Cell)
        ensures
            cell@ == (CellModel { text, attrs: attrs@ }),
    {
        Cell { text, attrs }
    }

    pub fn blank() -> (cell: Cell)
        ensures
            cell@ == CellModel::blank(),
    {
        Cell { text: ' ', attrs: CellAttributes::default() }
    }

    pub fn duplicate(&self) -> (copy: Cell)
        ensures
            copy == *self,
    {
        Cell { text: self.text, attrs: self.attrs.duplicate() }
    }

    pub fn attrs(&self) -> (attrs: &CellAttributes)
        ensures
            attrs@ == self@.attrs,
    {
        &self.attrs
    }

    /// The number of columns that the cell takes.
    pub fn width(&self) -> (width: usize)
        ensures
            width == columns(self@.text),
            width <= 3,
            ' ' <= self@.text <= '~' ==> width == 1,
    {
        match char_width(self.text) {
            Some(w) => w,
            None => 0,
        }
    }
}

} // verus!
