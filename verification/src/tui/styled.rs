use vstd::prelude::*;

verus! {

/// A colour given by its red, green and blue components.
#[derive(Debug, Clone, Copy, PartialEq, Eq)]
pub struct Rgb {
    pub r: u8,
    pub g: u8,
    pub b: u8,
}

/// A run of text in one style.
#[derive(Debug, Clone)]
pub struct StyledSpan {
    pub text: String,
    /// Foreground colour; `None` is the terminal's default.
    pub fg: Option<Rgb>,
    pub bold: bool,
    pub underlined: bool,
    /// Background colour; `None` leaves the background as it is.
    pub bg: Option<Rgb>,
    pub crossed_out: bool,
}

/// One line of styled text.
#[derive(Debug, Clone)]
pub struct StyledLine {
    pub spans: Vec<StyledSpan>,
}

impl View for StyledSpan {
    type V = (Seq<char>, Option<Rgb>, bool, bool, Option<Rgb>, bool);

    open spec fn view(&self) -> (Seq<char>, Option<Rgb>, bool, bool, Option<Rgb>, bool) {
        (self.text@, self.fg, self.bold, self.underlined, self.bg, self.crossed_out)
    }
}

impl View for StyledLine {
    type V = Seq<(Seq<char>, Option<Rgb>, bool, bool, Option<Rgb>, bool)>;

    open spec fn view(&self) -> Seq<(Seq<char>, Option<Rgb>, bool, bool, Option<Rgb>, bool)> {
        spans_view(self.spans@)
    }
}

/// The views of a sequence of spans.
pub open spec fn spans_view(v: Seq<StyledSpan>) -> Seq<(Seq<char>, Option<Rgb>, bool, bool, Option<Rgb>, bool)> {
    v.map_values(|s: StyledSpan| s@)
}

/// The views of a sequence of lines.
pub open spec fn lines_view(v: Seq<StyledLine>) -> Seq<Seq<(Seq<char>, Option<Rgb>, bool, bool, Option<Rgb>, bool)>> {
    v.map_values(|l: StyledLine| l@)
}

} // verus!
