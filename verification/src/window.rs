//! Windows, and what is painted in them.
use crate::input::{KeyEvent, MouseEvent};
use vstd::prelude::*;

verus! {

/// A color with an alpha channel.
#[derive(Debug, Clone, Copy, PartialEq, Eq, Structural)]
pub struct Color {
    pub red: u8,
    pub green: u8,
    pub blue: u8,
    pub alpha: u8,
}

impl Color {
    pub open spec fn opaque(red: u8, green: u8, blue: u8) -> Color {
        Color { red, green, blue, alpha: 0xff }
    }

    /// An opaque color.
    pub fn rgb(red: u8, green: u8, blue: u8) -> (color: Color)
        ensures
            color == Color::opaque(red, green, blue),
    {
        Color { red, green, blue, alpha: 0xff }
    }
}

/// Compositing operator.
/// We implement a small subset of possible compositing operators.
/// More information on these and their terminology can be found
/// in the Cairo documentation here:
/// https://www.cairographics.org/operators/
#[derive(Debug, Clone, Copy, PartialEq, Eq, Structural)]
pub enum Operator {
    /// Apply the alpha channel of src and combine src with dest,
    /// according to the classic OVER composite operator
    Over,
    /// Ignore dest; take src as the result of the operation
    Source,
    /// Multiply src x dest.  The result is at least as dark as
    /// the darker of the two input colors.  This is used to
    /// apply a color tint.
    Multiply,
    /// Multiply src with the provided color, then apply the
    /// Over operator on the result with the dest as the dest.
    /// This is used to colorize the src and then blend the
    /// result into the destination.
    MultiplyThenOver(Color),
}

#[derive(Debug, Clone, Copy, PartialEq, Eq, Structural)]
pub struct Dimensions {
    pub pixel_width: usize,
    pub pixel_height: usize,
    pub dpi: usize,
}

/// An image in memory.
pub trait BitmapImage {
    /// The width and the height of the image.
    open spec fn size(&self) -> (usize, usize) {
        (0, 0)
    }

    /// The bytes of what the image shows.
    open spec fn pixels(&self) -> Seq<u8> {
        Seq::empty()
    }

    /// Return the pair (width, height) of the image, measured in pixels
    fn image_dimensions(&self) -> (size: (usize, usize))
        ensures
            size == self.size(),
    ;
}

/// Something that a paint context was asked to paint.
#[verifier::ext_equal]
pub enum PaintOp {
    ClearRect { x: int, y: int, width: int, height: int, color: Color },
    /// A part of an image.
    DrawImage {
        x: int,
        y: int,
        src_x: int,
        src_y: int,
        width: int,
        height: int,
        image: Seq<u8>,
        operator: Operator,
    },
    DrawLine {
        start_x: int,
        start_y: int,
        dest_x: int,
        dest_y: int,
        color: Color,
        operator: Operator,
    },
}

impl PaintOp {
    /// All of a context of these dimensions in one color.
    pub open spec fn clear_all(dims: Dimensions, color: Color) -> PaintOp {
        PaintOp::ClearRect {
            x: 0,
            y: 0,
            width: dims.pixel_width as int,
            height: dims.pixel_height as int,
            color,
        }
    }
}

/// Whether a pixel lies in what is cleared.
pub open spec fn clears(op: PaintOp, px: int, py: int) -> bool {
    match op {
        PaintOp::ClearRect { x, y, width, height, .. } => x <= px < x + width && y <= py < y
            + height,
        _ => false,
    }
}

/// Clearing all of a context clears every pixel of it to the color, and no other.
pub proof fn law_clear_all(dims: Dimensions, color: Color, px: int, py: int)
    ensures
        clears(PaintOp::clear_all(dims, color), px, py) <==> 0 <= px < dims.pixel_width && 0 <= py
            < dims.pixel_height,
        PaintOp::clear_all(dims, color) matches PaintOp::ClearRect { color: used, .. } && used
            == color,
{
}

/// An opaque color has the given channels and lets nothing through.
pub proof fn law_opaque(red: u8, green: u8, blue: u8)
    ensures
        Color::opaque(red, green, blue).red == red,
        Color::opaque(red, green, blue).green == green,
        Color::opaque(red, green, blue).blue == blue,
        Color::opaque(red, green, blue).alpha == u8::MAX,
{
}

pub trait PaintContext {
    /// The size of the context.
    open spec fn dimensions(&self) -> Dimensions {
        Dimensions { pixel_width: 0, pixel_height: 0, dpi: 0 }
    }

    /// What the context was asked to paint, from the first on.
    open spec fn painted(&self) -> Seq<PaintOp> {
        Seq::empty()
    }

    fn get_dimensions(&self) -> (dims: Dimensions)
        ensures
            dims == self.dimensions(),
    ;

    /// Clear the entire context to the specified color
    fn clear(&mut self, color: Color)
        ensures
            final(self).painted() == old(self).painted().push(
                PaintOp::clear_all(old(self).dimensions(), color),
            ),
    {
        let dims = self.get_dimensions();
        self.clear_rect(0, 0, dims.pixel_width, dims.pixel_height, color);
    }

    /// Clear a rectangle to the specified color
    fn clear_rect(
        &mut self,
        dest_x: isize,
        dest_y: isize,
        width: usize,
        height: usize,
        color: Color,
    )
        ensures
            final(self).painted() == old(self).painted().push(
                (PaintOp::ClearRect {
                    x: dest_x as int,
                    y: dest_y as int,
                    width: width as int,
                    height: height as int,
                    color,
                }),
            ),
    ;

    fn draw_image(
        &mut self,
        dest_x: isize,
        dest_y: isize,
        im: &dyn BitmapImage,
        operator: Operator,
    )
        ensures
            final(self).painted() == old(self).painted().push(
                (PaintOp::DrawImage {
                    x: dest_x as int,
                    y: dest_y as int,
                    src_x: 0,
                    src_y: 0,
                    width: im.size().0 as int,
                    height: im.size().1 as int,
                    image: im.pixels(),
                    operator,
                }),
            ),
    {
        let (dest_width, dest_height) = im.image_dimensions();
        self.draw_image_subset(dest_x, dest_y, 0, 0, dest_width, dest_height, &im, operator)
    }

    fn draw_image_subset(
        &mut self,
        dest_x: isize,
        dest_y: isize,
        src_x: usize,
        src_y: usize,
        width: usize,
        height: usize,
        im: &&dyn BitmapImage,
        operator: Operator,
    )
        ensures
            final(self).painted() == old(self).painted().push(
                (PaintOp::DrawImage {
                    x: dest_x as int,
                    y: dest_y as int,
                    src_x: src_x as int,
                    src_y: src_y as int,
                    width: width as int,
                    height: height as int,
                    image: im.pixels(),
                    operator,
                }),
            ),
    ;

    fn draw_line(
        &mut self,
        start_x: isize,
        start_y: isize,
        dest_x: isize,
        dest_y: isize,
        color: Color,
        operator: Operator,
    )
        ensures
            final(self).painted() == old(self).painted().push(
                (PaintOp::DrawLine {
                    start_x: start_x as int,
                    start_y: start_y as int,
                    dest_x: dest_x as int,
                    dest_y: dest_y as int,
                    color,
                    operator,
                }),
            ),
    ;
}

#[derive(Debug, Clone, Copy, PartialEq, Eq, Structural)]
pub enum MouseCursor {
    Arrow,
    Hand,
    Text,
}

pub trait WindowCallbacks: 'static {
    /// Called when the window close button is clicked.
    /// Return true to allow the close to continue, false to
    /// prevent it from closing.
    fn can_close(&mut self) -> (close: bool)
        default_ensures
            close,
            &*final(self) == &*old(self),
    {
        true
    }

    /// Called when the window is being destroyed by the gui system
    fn destroy(&mut self)
        default_ensures
            &*final(self) == &*old(self),
    {
    }

    /// Called when the window is resized, or when the dpi has changed
    fn resize(&mut self, dimensions: Dimensions)
        default_ensures
            &*final(self) == &*old(self),
    {
    }

    /// Called when the window contents need painting
    fn paint(&mut self, context: &mut dyn PaintContext)
        default_ensures
            &*final(self) == &*old(self),
            final(context).painted() == old(context).painted().push(
                PaintOp::clear_all(
                    old(context).dimensions(),
                    Color::opaque(0x20, 0x40, 0x60),
                ),
            ),
    {
        context.clear(Color::rgb(0x20, 0x40, 0x60));
    }

    /// Called to handle a key event.
    /// If your window didn't handle the event, you must return false.
    /// This is particularly important for eg: ALT keys on windows,
    /// otherwise standard key assignments may not function in your window.
    fn key_event(&mut self, key: &KeyEvent, context: &dyn WindowOps) -> (handled: bool)
        default_ensures
            !handled,
            &*final(self) == &*old(self),
    {
        false
    }

    /// Called to handle a mouse event. Asks the window to show the arrow.
    fn mouse_event(&mut self, event: &MouseEvent, context: &dyn WindowOps)
        default_ensures
            &*final(self) == &*old(self),
            context.asked_for_cursor(Some(MouseCursor::Arrow)),
    {
        context.set_cursor(Some(MouseCursor::Arrow));
    }

    /// Called when the window is created and allows the embedding
    /// app to reference the window and operate upon it.
    fn created(&mut self, window: &dyn WindowOps)
        default_ensures
            &*final(self) == &*old(self),
    {
    }
}

pub trait WindowOps {
    /// Whether the window is asked to show a cursor while it exists. A window that is
    /// shared is one value for all that time, so this does not say when, nor what
    /// else it is asked for.
    open spec fn asked_for_cursor(&self, cursor: Option<MouseCursor>) -> bool {
        true
    }

    /// Show a hidden window
    fn show(&self);

    /// Hide a visible window
    fn hide_window(&self);

    /// Change the cursor
    fn set_cursor(&self, cursor: Option<MouseCursor>)
        ensures
            self.asked_for_cursor(cursor),
    ;

    /// Invalidate the window so that the entire client area will
    /// be repainted shortly
    fn invalidate(&self);

    /// Change the titlebar text for the window
    fn set_title(&self, title: &str);
}

/// How a window looks.
#[verifier::ext_equal]
pub struct WindowModel {
    pub visible: bool,
    pub cursor: Option<MouseCursor>,
    /// Whether the window will be repainted.
    pub invalid: bool,
    pub title: Seq<char>,
}

pub trait WindowOpsMut {
    /// How the window looks.
    open spec fn window(&self) -> WindowModel {
        WindowModel { visible: false, cursor: None, invalid: false, title: Seq::empty() }
    }

    /// Show a hidden window
    fn show(&mut self)
        ensures
            final(self).window() == (WindowModel { visible: true, ..old(self).window() }),
    ;

    /// Hide a visible window
    fn hide_window(&mut self)
        ensures
            final(self).window() == (WindowModel { visible: false, ..old(self).window() }),
    ;

    /// Change the cursor
    fn set_cursor(&mut self, cursor: Option<MouseCursor>)
        ensures
            final(self).window() == (WindowModel { cursor, ..old(self).window() }),
    ;

    /// Invalidate the window so that the entire client area will
    /// be repainted shortly
    fn invalidate(&mut self)
        ensures
            final(self).window() == (WindowModel { invalid: true, ..old(self).window() }),
    ;

    /// Change the titlebar text for the window
    fn set_title(&mut self, title: &str)
        ensures
            final(self).window() == (WindowModel { title: title@, ..old(self).window() }),
    ;
}

} // verus!
