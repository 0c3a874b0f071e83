//! The colours that mark results on a terminal.

use vstd::prelude::*;

verus! {

/// The colour of a result.
#[derive(Copy, Clone, Debug, PartialEq, Eq, Structural)]
pub enum Paint {
    /// A failure: red.
    Failed,
    /// A success: green.
    Passed,
    /// An ignored case: yellow.
    Ignored,
}

/// The escape sequence that switches the foreground to a colour.
pub open spec fn paint_code(paint: Paint) -> Seq<char> {
    match paint {
        Paint::Failed => seq!['\x1b', '[', '3', '1', 'm'],
        Paint::Passed => seq!['\x1b', '[', '3', '2', 'm'],
        Paint::Ignored => seq!['\x1b', '[', '3', '3', 'm'],
    }
}

/// The escape sequence that ends all styling.
pub open spec fn reset_code() -> Seq<char> {
    seq!['\x1b', '[', '0', 'm']
}

/// What `anstyle::Style::render` writes for a style that sets nothing but
/// the foreground colour, one of the basic red, green and yellow: the
/// escape sequence of that colour.
#[verifier::external_body]
pub(crate) fn render(paint: Paint) -> (r: String)
    ensures
        r@ == paint_code(paint),
{
    let color = match paint {
        Paint::Failed => anstyle::AnsiColor::Red,
        Paint::Passed => anstyle::AnsiColor::Green,
        Paint::Ignored => anstyle::AnsiColor::Yellow,
    };
    let style = anstyle::Style::new().fg_color(Some(anstyle::Color::Ansi(color)));
    format!("{}", style.render())
}

/// What `anstyle::Style::render_reset` writes for a style that sets a
/// foreground colour: the escape sequence that ends all styling.
#[verifier::external_body]
pub(crate) fn render_reset(paint: Paint) -> (r: String)
    ensures
        r@ == reset_code(),
{
    let color = match paint {
        Paint::Failed => anstyle::AnsiColor::Red,
        Paint::Passed => anstyle::AnsiColor::Green,
        Paint::Ignored => anstyle::AnsiColor::Yellow,
    };
    let style = anstyle::Style::new().fg_color(Some(anstyle::Color::Ansi(color)));
    format!("{}", style.render_reset())
}

/// `word` in the colour `paint`.
pub open spec fn styled(paint: Paint, word: Seq<char>) -> Seq<char> {
    paint_code(paint) + word + reset_code()
}

/// Appends `word` in the colour `paint`.
pub fn push_styled(out: &mut String, paint: Paint, word: &str)
    ensures
        final(out)@ == old(out)@ + styled(paint, word@),
{
    let on = render(paint);
    let off = render_reset(paint);
    crate::text::push_text(out, on.as_str());
    crate::text::push_text(out, word);
    crate::text::push_text(out, off.as_str());
    assert(out@ =~= old(out)@ + styled(paint, word@));
}

} // verus!
