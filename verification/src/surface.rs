//! Model of the presentation surface the scenes draw to: a recorded
//! sequence of drawing commands. The embedding application replays the
//! commands onto its real render target and presents the frame; the core
//! only decides what is drawn, and in which order.

use vstd::prelude::*;

verus! {

/// An RGBA color, eight bits per channel.
#[derive(Clone, Copy, PartialEq, Eq, Structural, Debug)]
pub struct Color {
    pub r: u8,
    pub g: u8,
    pub b: u8,
    pub a: u8,
}

impl Color {
    pub fn black() -> (c: Color)
        ensures
            c == (Color { r: 0, g: 0, b: 0, a: 255 }),
    {
        Color { r: 0, g: 0, b: 0, a: 255 }
    }
}

/// Identifies one loaded font in the shared asset bundle.
#[derive(Clone, Copy, PartialEq, Eq, Structural)]
pub struct FontHandle {
    pub id: u32,
}

/// The shared font bundle handed to scene realization. The core never
/// loads fonts; it only passes handles through to the drawing commands.
#[derive(Clone, Copy, PartialEq, Eq, Structural)]
pub struct Fonts {
    pub main_font: FontHandle,
}

/// Mathematical model of one text object.
#[verifier::ext_equal]
pub struct TextGraphicView {
    pub content: Seq<char>,
    pub x: int,
    pub y: int,
    pub size: int,
    pub font: FontHandle,
}

/// A text object a scene owns and draws: a string laid out at a position
/// in a given font and character size.
pub struct TextGraphic {
    pub content: String,
    pub x: i32,
    pub y: i32,
    pub size: u32,
    pub font: FontHandle,
}

impl View for TextGraphic {
    type V = TextGraphicView;

    open spec fn view(&self) -> TextGraphicView {
        TextGraphicView {
            content: self.content@,
            x: self.x as int,
            y: self.y as int,
            size: self.size as int,
            font: self.font,
        }
    }
}

/// Mathematical model of one drawing command.
#[verifier::ext_equal]
pub enum DrawCommandView {
    Clear(Color),
    Text(TextGraphicView),
}

/// One recorded drawing command.
pub enum DrawCommand {
    Clear(Color),
    Text(TextGraphic),
}

impl View for DrawCommand {
    type V = DrawCommandView;

    open spec fn view(&self) -> DrawCommandView {
        match self {
            DrawCommand::Clear(c) => DrawCommandView::Clear(*c),
            DrawCommand::Text(t) => DrawCommandView::Text(t@),
        }
    }
}

/// The recorded surface: commands accumulate in draw order, back to front.
pub struct Surface {
    pub commands: Vec<DrawCommand>,
}

impl View for Surface {
    type V = Seq<DrawCommandView>;

    open spec fn view(&self) -> Seq<DrawCommandView> {
        Seq::new(self.commands@.len(), |i: int| self.commands@[i]@)
    }
}

impl Surface {
    pub fn new() -> (s: Surface)
        ensures
            s@ == Seq::<DrawCommandView>::empty(),
    {
        let s = Surface { commands: Vec::new() };
        proof {
            assert(s@ =~= Seq::<DrawCommandView>::empty());
        }
        s
    }

    /// Wipes the whole surface to one color.
    pub fn clear(&mut self, color: Color)
        ensures
            final(self)@ == old(self)@.push(DrawCommandView::Clear(color)),
    {
        self.commands.push(DrawCommand::Clear(color));
        proof {
            assert(final(self)@ =~= old(self)@.push(DrawCommandView::Clear(color)));
        }
    }

    /// Draws one text object on top of everything recorded so far.
    pub fn draw_text(&mut self, text: &TextGraphic)
        ensures
            final(self)@ == old(self)@.push(DrawCommandView::Text(text@)),
    {
        let copy = TextGraphic {
            content: text.content.clone(),
            x: text.x,
            y: text.y,
            size: text.size,
            font: text.font,
        };
        self.commands.push(DrawCommand::Text(copy));
        proof {
            assert(final(self)@ =~= old(self)@.push(DrawCommandView::Text(text@)));
        }
    }
}

} // verus!
