use vstd::prelude::*;

verus! {

/// Glyph choices for the filled portion of the track.
#[derive(Copy, Clone, PartialEq, Eq, Structural)]
pub enum FillStyle {
    Solid,
    Hash,
    Equal,
    Thin,
}

/// Glyph choices for the unfilled portion of the track.
#[derive(Copy, Clone, PartialEq, Eq, Structural)]
pub enum EmptyStyle {
    Solid,
    Space,
    Dash,
    Thin,
}

/// Flat colors available for the track, each with a terminal escape code
/// and an RGB triple used as a gradient endpoint.
#[derive(Copy, Clone, PartialEq, Eq, Structural)]
pub enum Color {
    Red,
    Green,
    Yellow,
    Blue,
    Pink,
    Gray,
    Cyan,
    Reset,
}

pub open spec fn fill_glyph_spec(s: FillStyle) -> char {
    match s {
        FillStyle::Solid => '\u{2588}',
        FillStyle::Hash => '#',
        FillStyle::Equal => '=',
        FillStyle::Thin => '\u{2501}',
    }
}

pub open spec fn empty_glyph_spec(s: EmptyStyle) -> char {
    match s {
        EmptyStyle::Solid => '\u{2588}',
        EmptyStyle::Space => ' ',
        EmptyStyle::Dash => '-',
        EmptyStyle::Thin => '\u{2501}',
    }
}

pub open spec fn fill_glyph_str_spec(s: FillStyle) -> Seq<char> {
    match s {
        FillStyle::Solid => "\u{2588}"@,
        FillStyle::Hash => "#"@,
        FillStyle::Equal => "="@,
        FillStyle::Thin => "\u{2501}"@,
    }
}

pub open spec fn empty_glyph_str_spec(s: EmptyStyle) -> Seq<char> {
    match s {
        EmptyStyle::Solid => "\u{2588}"@,
        EmptyStyle::Space => " "@,
        EmptyStyle::Dash => "-"@,
        EmptyStyle::Thin => "\u{2501}"@,
    }
}

/// Escape code that switches the terminal's foreground to the color.
pub open spec fn color_code_spec(c: Color) -> Seq<char> {
    match c {
        Color::Red => "\x1b[31m"@,
        Color::Green => "\x1b[32m"@,
        Color::Yellow => "\x1b[33m"@,
        Color::Blue => "\x1b[34m"@,
        Color::Pink => "\x1b[35m"@,
        Color::Gray => "\x1b[90m"@,
        Color::Cyan => "\x1b[36m"@,
        Color::Reset => "\x1b[0m"@,
    }
}

/// RGB triple used when the color is a gradient endpoint.
pub open spec fn color_rgb_spec(c: Color) -> (int, int, int) {
    match c {
        Color::Red => (255int, 0int, 0int),
        Color::Green => (0int, 255int, 0int),
        Color::Yellow => (255int, 255int, 0int),
        Color::Blue => (0int, 0int, 255int),
        Color::Pink => (255int, 105int, 180int),
        Color::Gray => (128int, 128int, 128int),
        Color::Cyan => (0int, 255int, 255int),
        Color::Reset => (255int, 255int, 255int),
    }
}

impl FillStyle {
    /// The single character drawn in each filled cell.
    pub fn ch(self) -> (c: char)
        ensures
            c == fill_glyph_spec(self),
    {
        match self {
            FillStyle::Solid => '\u{2588}',
            FillStyle::Hash => '#',
            FillStyle::Equal => '=',
            FillStyle::Thin => '\u{2501}',
        }
    }

    /// The filled-cell glyph as a one-character string slice.
    pub fn glyph(self) -> (s: &'static str)
        ensures
            s@ == fill_glyph_str_spec(self),
    {
        match self {
            FillStyle::Solid => "\u{2588}",
            FillStyle::Hash => "#",
            FillStyle::Equal => "=",
            FillStyle::Thin => "\u{2501}",
        }
    }
}

impl EmptyStyle {
    /// The single character drawn in each unfilled cell.
    pub fn ch(self) -> (c: char)
        ensures
            c == empty_glyph_spec(self),
    {
        match self {
            EmptyStyle::Solid => '\u{2588}',
            EmptyStyle::Space => ' ',
            EmptyStyle::Dash => '-',
            EmptyStyle::Thin => '\u{2501}',
        }
    }

    /// The unfilled-cell glyph as a one-character string slice.
    pub fn glyph(self) -> (s: &'static str)
        ensures
            s@ == empty_glyph_str_spec(self),
    {
        match self {
            EmptyStyle::Solid => "\u{2588}",
            EmptyStyle::Space => " ",
            EmptyStyle::Dash => "-",
            EmptyStyle::Thin => "\u{2501}",
        }
    }
}

impl Color {
    /// Escape code selecting this color as the foreground.
    pub fn ch(self) -> (s: &'static str)
        ensures
            s@ == color_code_spec(self),
    {
        match self {
            Color::Red => "\x1b[31m",
            Color::Green => "\x1b[32m",
            Color::Yellow => "\x1b[33m",
            Color::Blue => "\x1b[34m",
            Color::Pink => "\x1b[35m",
            Color::Gray => "\x1b[90m",
            Color::Cyan => "\x1b[36m",
            Color::Reset => "\x1b[0m",
        }
    }

    /// RGB triple of this color, for gradient interpolation.
    pub fn rgb(self) -> (t: (u8, u8, u8))
        ensures
            (t.0 as int, t.1 as int, t.2 as int) == color_rgb_spec(self),
    {
        match self {
            Color::Red => (255u8, 0u8, 0u8),
            Color::Green => (0u8, 255u8, 0u8),
            Color::Yellow => (255u8, 255u8, 0u8),
            Color::Blue => (0u8, 0u8, 255u8),
            Color::Pink => (255u8, 105u8, 180u8),
            Color::Gray => (128u8, 128u8, 128u8),
            Color::Cyan => (0u8, 255u8, 255u8),
            Color::Reset => (255u8, 255u8, 255u8),
        }
    }
}

} // verus!
