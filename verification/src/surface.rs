//! A drawing surface that records what is drawn on it.
//!
//! The render stage draws onto a [`Canvas`]; whoever owns the real display
//! replays the recorded commands on it, in order.

use vstd::prelude::*;

verus! {

/// An 8-bit colour: three bits of red, three of green, two of blue.
#[derive(Clone, Copy, Debug, PartialEq, Eq, Structural)]
pub struct ColorRgb332 {
    pub raw: u8,
}

/// A colour that can be widened to 24 bits: red in bits 16 to 23, green in
/// bits 8 to 15, blue in bits 0 to 7.
pub trait Color: Clone {
    fn as_u32(&self) -> u32;
}

/// A colour channel whose significant bits stand at the top of a byte,
/// widened to eight bits: where its lowest significant bit `lowest` is set,
/// the bits `fill` below it are set too.
pub open spec fn widen_channel(top: u8, lowest: u8, fill: u8) -> u8 {
    if top & lowest != 0 {
        top | fill
    } else {
        top
    }
}

/// The 24-bit colour that an 8-bit colour stands for.
pub open spec fn spec_rgb332_as_u32(raw: u8) -> u32 {
    let r = widen_channel(raw & 0xe0, 0x20, 0x1f);
    let g = widen_channel((raw & 0x1c) << 3, 0x20, 0x1f);
    let b = widen_channel((raw & 0x03) << 6, 0x40, 0x3f);
    ((r as u32) << 16) | ((g as u32) << 8) | (b as u32)
}

impl ColorRgb332 {
    pub fn new(raw: u8) -> (r: Self)
        ensures
            r.raw == raw,
    {
        ColorRgb332 { raw }
    }
}

impl Color for ColorRgb332 {
    fn as_u32(&self) -> (c: u32)
        ensures
            c == spec_rgb332_as_u32(self.raw),
    {
        let r: u8 = self.raw & 0xe0;
        let g: u8 = (self.raw & 0x1c) << 3;
        let b: u8 = (self.raw & 0x03) << 6;
        let r_fill: u8 = if r & 0x20 != 0 {
            0x1f
        } else {
            0
        };
        let g_fill: u8 = if g & 0x20 != 0 {
            0x1f
        } else {
            0
        };
        let b_fill: u8 = if b & 0x40 != 0 {
            0x3f
        } else {
            0
        };
        assert(r | 0u8 == r && g | 0u8 == g && b | 0u8 == b) by (bit_vector);
        (((r | r_fill) as u32) << 16) | (((g | g_fill) as u32) << 8) | ((b | b_fill) as u32)
    }
}

/// A 24-bit colour.
#[derive(Clone, Copy, Debug, PartialEq, Eq, Structural)]
pub struct ColorRgb888 {
    pub raw: u32,
}

impl ColorRgb888 {
    pub fn new(raw: u32) -> (r: Self)
        ensures
            r.raw == raw,
    {
        ColorRgb888 { raw }
    }
}

impl Color for ColorRgb888 {
    fn as_u32(&self) -> (c: u32)
        ensures
            c == self.raw & 0xffffff,
    {
        self.raw & 0xffffff
    }
}

/// The point of a text's bounding box that its coordinates name.
#[derive(Clone, Copy, Debug, PartialEq, Eq, Structural)]
pub enum TextDatum {
    TopLeft,
    TopCenter,
    TopRight,
}

/// One recorded drawing operation. Text is ASCII; scales are in hundredths.
#[derive(Debug, PartialEq, Eq)]
pub enum DrawCommand {
    Clear { color: ColorRgb332 },
    FillRect { x: i32, y: i32, w: i32, h: i32, color: ColorRgb332 },
    DrawLine { x0: i32, y0: i32, x1: i32, y1: i32, color: ColorRgb332 },
    DrawString {
        text: Vec<u8>,
        x: i32,
        y: i32,
        fg: ColorRgb332,
        bg: ColorRgb332,
        scale_x: u32,
        scale_y: u32,
        datum: TextDatum,
    },
}

/// What a drawing operation is, with its text as a sequence of bytes.
pub enum DrawOp {
    Clear { color: ColorRgb332 },
    FillRect { x: int, y: int, w: int, h: int, color: ColorRgb332 },
    DrawLine { x0: int, y0: int, x1: int, y1: int, color: ColorRgb332 },
    DrawString {
        text: Seq<u8>,
        x: int,
        y: int,
        fg: ColorRgb332,
        bg: ColorRgb332,
        scale_x: nat,
        scale_y: nat,
        datum: TextDatum,
    },
}

impl View for DrawCommand {
    type V = DrawOp;

    open spec fn view(&self) -> DrawOp {
        match *self {
            DrawCommand::Clear { color } => DrawOp::Clear { color },
            DrawCommand::FillRect { x, y, w, h, color } => DrawOp::FillRect {
                x: x as int,
                y: y as int,
                w: w as int,
                h: h as int,
                color,
            },
            DrawCommand::DrawLine { x0, y0, x1, y1, color } => DrawOp::DrawLine {
                x0: x0 as int,
                y0: y0 as int,
                x1: x1 as int,
                y1: y1 as int,
                color,
            },
            DrawCommand::DrawString { text, x, y, fg, bg, scale_x, scale_y, datum } => DrawOp::DrawString {
                text: text@,
                x: x as int,
                y: y as int,
                fg,
                bg,
                scale_x: scale_x as nat,
                scale_y: scale_y as nat,
                datum,
            },
        }
    }
}

/// A surface that keeps, in order, every operation drawn on it.
pub struct Canvas {
    commands: Vec<DrawCommand>,
}

impl View for Canvas {
    type V = Seq<DrawOp>;

    closed spec fn view(&self) -> Seq<DrawOp> {
        self.commands@.map_values(|c: DrawCommand| c@)
    }
}

impl Canvas {
    /// A surface on which nothing has been drawn.
    pub fn new() -> (r: Self)
        ensures
            r@ == Seq::<DrawOp>::empty(),
    {
        let r = Canvas { commands: Vec::new() };
        assert(r@ =~= Seq::<DrawOp>::empty());
        r
    }

    /// The recorded operations, oldest first.
    pub fn commands(&self) -> (r: &[DrawCommand])
        ensures
            r@.map_values(|c: DrawCommand| c@) == self@,
    {
        self.commands.as_slice()
    }

    fn record(&mut self, command: DrawCommand)
        ensures
            final(self)@ == old(self)@.push(command@),
    {
        self.commands.push(command);
        assert(self@ =~= old(self)@.push(command@));
    }

    /// Fills the whole surface with `color`.
    pub fn clear(&mut self, color: ColorRgb332)
        ensures
            final(self)@ == old(self)@.push(DrawOp::Clear { color }),
    {
        self.record(DrawCommand::Clear { color });
    }

    /// Fills the rectangle of size `w` by `h` whose top-left corner is `(x, y)`.
    pub fn fill_rect(&mut self, x: i32, y: i32, w: i32, h: i32, color: ColorRgb332)
        ensures
            final(self)@ == old(self)@.push(
                DrawOp::FillRect { x: x as int, y: y as int, w: w as int, h: h as int, color },
            ),
    {
        self.record(DrawCommand::FillRect { x, y, w, h, color });
    }

    /// Draws the straight line from `(x0, y0)` to `(x1, y1)`.
    pub fn draw_line(&mut self, x0: i32, y0: i32, x1: i32, y1: i32, color: ColorRgb332)
        ensures
            final(self)@ == old(self)@.push(
                DrawOp::DrawLine { x0: x0 as int, y0: y0 as int, x1: x1 as int, y1: y1 as int, color },
            ),
    {
        self.record(DrawCommand::DrawLine { x0, y0, x1, y1, color });
    }

    /// Draws `text` anchored at `(x, y)`, scaled by hundredths.
    pub fn draw_string(
        &mut self,
        text: Vec<u8>,
        x: i32,
        y: i32,
        fg: ColorRgb332,
        bg: ColorRgb332,
        scale_x: u32,
        scale_y: u32,
        datum: TextDatum,
    )
        ensures
            final(self)@ == old(self)@.push(
                DrawOp::DrawString {
                    text: text@,
                    x: x as int,
                    y: y as int,
                    fg,
                    bg,
                    scale_x: scale_x as nat,
                    scale_y: scale_y as nat,
                    datum,
                },
            ),
    {
        self.record(DrawCommand::DrawString { text, x, y, fg, bg, scale_x, scale_y, datum });
    }
}

} // verus!
