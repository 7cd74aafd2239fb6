use wezterm::input::{
    KeyCode, KeyEvent, KeyModifiers, MouseButton, MouseEvent, MouseEventKind,
};
use wezterm::window::{
    BitmapImage, Color, Dimensions, MouseCursor, Operator, PaintContext, WindowCallbacks,
    WindowOps, WindowOpsMut,
};

#[derive(Debug, PartialEq)]
enum Painted {
    Rect(isize, isize, usize, usize, Color),
    Image(isize, isize, usize, usize, usize, usize, Operator),
    Line(isize, isize, isize, isize, Color, Operator),
}

struct Canvas {
    painted: Vec<Painted>,
}

impl PaintContext for Canvas {
    fn get_dimensions(&self) -> Dimensions {
        Dimensions {
            pixel_width: 640,
            pixel_height: 480,
            dpi: 96,
        }
    }

    fn clear_rect(&mut self, x: isize, y: isize, width: usize, height: usize, color: Color) {
        self.painted.push(Painted::Rect(x, y, width, height, color));
    }

    fn draw_image_subset(
        &mut self,
        x: isize,
        y: isize,
        src_x: usize,
        src_y: usize,
        width: usize,
        height: usize,
        im: &&dyn BitmapImage,
        operator: Operator,
    ) {
        im.image_dimensions();
        self.painted
            .push(Painted::Image(x, y, src_x, src_y, width, height, operator));
    }

    fn draw_line(
        &mut self,
        start_x: isize,
        start_y: isize,
        dest_x: isize,
        dest_y: isize,
        color: Color,
        operator: Operator,
    ) {
        self.painted
            .push(Painted::Line(start_x, start_y, dest_x, dest_y, color, operator));
    }
}

/// An image that counts how often it is looked at.
struct Icon {
    looks: std::cell::Cell<usize>,
}

impl BitmapImage for Icon {
    fn image_dimensions(&self) -> (usize, usize) {
        self.looks.set(self.looks.get() + 1);
        (16, 24)
    }
}

struct Plain;

impl WindowCallbacks for Plain {}

struct Silent {
    cursors: std::cell::RefCell<Vec<Option<MouseCursor>>>,
}

impl WindowOps for Silent {
    fn show(&self) {}
    fn hide_window(&self) {}
    fn set_cursor(&self, cursor: Option<MouseCursor>) {
        self.cursors.borrow_mut().push(cursor);
    }
    fn invalidate(&self) {}
    fn set_title(&self, _title: &str) {}
}

struct Frame {
    visible: bool,
    title: String,
}

impl WindowOpsMut for Frame {
    fn show(&mut self) {
        self.visible = true;
    }
    fn hide_window(&mut self) {
        self.visible = false;
    }
    fn set_cursor(&mut self, _cursor: Option<MouseCursor>) {}
    fn invalidate(&mut self) {}
    fn set_title(&mut self, title: &str) {
        self.title = title.to_string();
    }
}

#[test]
fn clearing_paints_all_of_the_context() {
    let mut canvas = Canvas { painted: vec![] };
    let color = Color::rgb(1, 2, 3);
    canvas.clear(color);
    assert_eq!(canvas.painted, vec![Painted::Rect(0, 0, 640, 480, color)]);
    assert_eq!(color.alpha, 0xff);
}

#[test]
fn an_image_is_drawn_whole() {
    let mut canvas = Canvas { painted: vec![] };
    let icon = Icon {
        looks: std::cell::Cell::new(0),
    };
    canvas.draw_image(-3, 7, &icon, Operator::Over);
    assert_eq!(
        canvas.painted,
        vec![Painted::Image(-3, 7, 0, 0, 16, 24, Operator::Over)]
    );
    // Once for its size, and once by the canvas that it was handed to.
    assert_eq!(icon.looks.get(), 2);
}

#[test]
fn a_window_paints_a_plain_color_unless_told_otherwise() {
    let mut canvas = Canvas { painted: vec![] };
    Plain.paint(&mut canvas);
    assert_eq!(
        canvas.painted,
        vec![Painted::Rect(0, 0, 640, 480, Color::rgb(0x20, 0x40, 0x60))]
    );
}

#[test]
fn a_window_handles_nothing_unless_told_otherwise() {
    let ops = Silent {
        cursors: std::cell::RefCell::new(vec![]),
    };
    assert!(Plain.can_close());
    Plain.created(&ops);
    Plain.destroy();
    Plain.resize(Dimensions {
        pixel_width: 1,
        pixel_height: 1,
        dpi: 96,
    });
    let key = KeyEvent {
        key: KeyCode::Char('a'),
        modifiers: KeyModifiers::default(),
        key_is_down: true,
    };
    assert!(!Plain.key_event(&key, &ops));
    assert!(ops.cursors.borrow().is_empty());
    let mouse = MouseEvent {
        kind: MouseEventKind::Move,
        x: 0,
        y: 0,
        button: MouseButton::NoButton,
        modifiers: KeyModifiers::default(),
    };
    Plain.mouse_event(&mouse, &ops);
    assert_eq!(*ops.cursors.borrow(), vec![Some(MouseCursor::Arrow)]);
}

#[test]
fn a_window_that_is_owned_changes() {
    let mut frame = Frame {
        visible: false,
        title: String::new(),
    };
    frame.show();
    frame.set_title("shell");
    assert!(frame.visible);
    assert_eq!(frame.title, "shell");
    frame.hide_window();
    assert!(!frame.visible);
}
