//! Utility for console printing.

use crate::path::PathValue;
use vstd::prelude::*;

verus! {

/// The ANSI marker that opens cyan styling.
pub open spec fn style_prefix() -> Seq<char> {
    "\u{001b}[36m"@
}

/// The ANSI marker that closes styling.
pub open spec fn style_suffix() -> Seq<char> {
    "\u{001b}[0m"@
}

/// What wrapping produces: the text between the two markers when the process
/// writes to a terminal, the bare text otherwise.
pub open spec fn wrap_spec(
    left: Seq<char>,
    text: Seq<char>,
    right: Seq<char>,
    terminal: bool,
) -> Seq<char> {
    if terminal {
        left + text + right
    } else {
        text
    }
}

/// Wrap `text` between `left` and `right` when `terminal` holds.
fn wrap(left: &str, text: &str, right: &str, terminal: bool) -> (r: String)
    ensures
        r@ == wrap_spec(left@, text@, right@, terminal),
{
    if terminal {
        let mut out = left.to_owned();
        out.append(text);
        out.append(right);
        out
    } else {
        text.to_owned()
    }
}

/// What emphasis produces for a given rendering: the cyan-styled rendering on
/// a terminal, the bare rendering otherwise.
pub open spec fn emphed_spec(text: Seq<char>, terminal: bool) -> Seq<char> {
    wrap_spec(style_prefix(), text, style_suffix(), terminal)
}

/// Something that is emphasizable via [`emph`].
pub trait Emphasizable {
    /// The characters of the value's textual rendering.
    spec fn rendering(&self) -> Seq<char>;

    /// Emphasize the value when `terminal` holds; render it plainly otherwise.
    fn emphed(&self, terminal: bool) -> (r: String)
        ensures
            r@ == emphed_spec(self.rendering(), terminal),
    ;
}

impl Emphasizable for &str {
    open spec fn rendering(&self) -> Seq<char> {
        self@
    }

    /// Emphasize a string by wrapping it in the cyan style marker.
    fn emphed(&self, terminal: bool) -> (r: String) {
        wrap("\u{001b}[36m", self, "\u{001b}[0m", terminal)
    }
}

impl Emphasizable for &PathValue {
    open spec fn rendering(&self) -> Seq<char> {
        self@
    }

    /// Emphasize a path by wrapping its display form in the cyan style marker.
    fn emphed(&self, terminal: bool) -> (r: String) {
        wrap("\u{001b}[36m", self.display(), "\u{001b}[0m", terminal)
    }
}

/// Emphasize `obj` according to its type, styling it when `terminal` says the
/// process writes to a terminal.
pub fn emph<T: Emphasizable>(obj: T, terminal: bool) -> (r: String)
    ensures
        r@ == emphed_spec(obj.rendering(), terminal),
{
    obj.emphed(terminal)
}

/// Law: the emphasis of a rendering contains that rendering as a contiguous
/// run of its output, whether or not styling is applied.
pub proof fn lemma_emphed_contains(text: Seq<char>, terminal: bool)
    ensures
        exists|i: int|
            0 <= i && i + text.len() <= emphed_spec(text, terminal).len() && #[trigger] emphed_spec(
                text,
                terminal,
            ).subrange(i, i + text.len()) == text,
{
    let out = emphed_spec(text, terminal);
    if terminal {
        let i = style_prefix().len() as int;
        assert(out.subrange(i, i + text.len()) =~= text);
        assert(0 <= i && i + text.len() <= out.len() && out.subrange(i, i + text.len()) == text);
    } else {
        let i: int = 0;
        assert(out.subrange(i, i + text.len()) =~= text);
        assert(0 <= i && i + text.len() <= out.len() && out.subrange(i, i + text.len()) == text);
    }
}

} // verus!
