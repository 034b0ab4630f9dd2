//! Style attribute bags and their merge operation.

use vstd::prelude::*;

verus! {

/// Mathematical view of a style: which attribute is set, and to what.
#[verifier::ext_equal]
pub ghost struct StyleView {
    pub color: Option<Seq<char>>,
    pub size: Option<usize>,
    pub bold: bool,
    pub italic: bool,
}

/// The style with every attribute absent or off.
pub open spec fn default_style() -> StyleView {
    StyleView { color: None, size: None, bold: false, italic: false }
}

/// Per-attribute override: for `color` and `size` the right operand wins when
/// it is present, else the left is kept; `bold` and `italic` are or-ed.
pub open spec fn spec_merge(base: StyleView, over: StyleView) -> StyleView {
    StyleView {
        color: if over.color is Some { over.color } else { base.color },
        size: if over.size is Some { over.size } else { base.size },
        bold: base.bold || over.bold,
        italic: base.italic || over.italic,
    }
}

/// Law: the default style is a left identity of merge.
pub proof fn lemma_merge_default_left(s: StyleView)
    ensures
        spec_merge(default_style(), s) == s,
{
    assert(spec_merge(default_style(), s) =~= s);
}

/// Law: the default style is a right identity of merge.
pub proof fn lemma_merge_default_right(s: StyleView)
    ensures
        spec_merge(s, default_style()) == s,
{
    assert(spec_merge(s, default_style()) =~= s);
}

/// Law: merge is associative, so a chain of merges means the same however it
/// is grouped; only the left-to-right order of the operands matters.
pub proof fn lemma_merge_assoc(a: StyleView, b: StyleView, c: StyleView)
    ensures
        spec_merge(a, spec_merge(b, c)) == spec_merge(spec_merge(a, b), c),
{
    assert(spec_merge(a, spec_merge(b, c)) =~= spec_merge(spec_merge(a, b), c));
}

/// An attribute bag controlling how a text node is presented.
pub struct TextStyle {
    pub color: Option<String>,
    pub size: Option<usize>,
    pub bold: bool,
    pub italic: bool,
}

impl View for TextStyle {
    type V = StyleView;

    open spec fn view(&self) -> StyleView {
        StyleView {
            color: self.color.deep_view(),
            size: self.size,
            bold: self.bold,
            italic: self.italic,
        }
    }
}

impl Default for TextStyle {
    /// The style with every attribute absent or off.
    fn default() -> (r: Self)
        ensures
            r@ == default_style(),
    {
        let r = TextStyle { color: None, size: None, bold: false, italic: false };
        proof {
            assert(r@ =~= default_style());
        }
        r
    }
}

impl TextStyle {
    /// A style that sets only the color.
    pub fn color(color: String) -> (r: Self)
        ensures
            r@ == (StyleView { color: Some(color@), ..default_style() }),
    {
        TextStyle { color: Some(color), size: None, bold: false, italic: false }
    }

    /// A style that sets only the font size.
    pub fn size(size: usize) -> (r: Self)
        ensures
            r@ == (StyleView { size: Some(size), ..default_style() }),
    {
        TextStyle { color: None, size: Some(size), bold: false, italic: false }
    }

    /// A style that sets only boldface.
    pub fn bold() -> (r: Self)
        ensures
            r@ == (StyleView { bold: true, ..default_style() }),
    {
        TextStyle { color: None, size: None, bold: true, italic: false }
    }

    /// A style that sets only italics.
    pub fn italic() -> (r: Self)
        ensures
            r@ == (StyleView { italic: true, ..default_style() }),
    {
        TextStyle { color: None, size: None, bold: false, italic: true }
    }

    /// Combine two styles; `over` wins wherever both set the same attribute.
    /// Apply the base style first and the most specific override last.
    pub fn merge(self, over: Self) -> (r: Self)
        ensures
            r@ == spec_merge(self@, over@),
    {
        let r = TextStyle {
            color: match over.color {
                Some(c) => Some(c),
                None => self.color,
            },
            size: match over.size {
                Some(n) => Some(n),
                None => self.size,
            },
            bold: self.bold || over.bold,
            italic: self.italic || over.italic,
        };
        proof {
            assert(r@ =~= spec_merge(self@, over@));
        }
        r
    }
}

} // verus!
