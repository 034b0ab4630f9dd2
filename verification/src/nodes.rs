//! The document node kinds and their markup.

use vstd::prelude::*;
use vstd::string::StringExecFns;
use crate::style::{StyleView, TextStyle, default_style};
use crate::numeral::{dec_str, usize_to_string};
use crate::render::{ToBBCode, spec_join, lemma_join_push, lemma_join_two, lemma_join_three};

verus! {

/// `inner` wrapped in a color tag when a color is set.
pub open spec fn wrap_color(color: Option<Seq<char>>, inner: Seq<char>) -> Seq<char> {
    match color {
        Some(c) => "[color="@ + c + "]"@ + inner + "[/color]"@,
        None => inner,
    }
}

/// `inner` wrapped in a size tag when a size is set.
pub open spec fn wrap_size(size: Option<usize>, inner: Seq<char>) -> Seq<char> {
    match size {
        Some(n) => "[size="@ + dec_str(n as nat) + "]"@ + inner + "[/size]"@,
        None => inner,
    }
}

/// `inner` wrapped in a bold tag when bold is on.
pub open spec fn wrap_bold(bold: bool, inner: Seq<char>) -> Seq<char> {
    if bold {
        "[b]"@ + inner + "[/b]"@
    } else {
        inner
    }
}

/// `inner` wrapped in an italic tag when italic is on.
pub open spec fn wrap_italic(italic: bool, inner: Seq<char>) -> Seq<char> {
    if italic {
        "[i]"@ + inner + "[/i]"@
    } else {
        inner
    }
}

/// Styled content: each active attribute wraps the content once, in the fixed
/// nesting order color innermost, then size, then bold, then italic outermost.
pub open spec fn spec_styled(content: Seq<char>, style: StyleView) -> Seq<char> {
    wrap_italic(style.italic, wrap_bold(style.bold, wrap_size(style.size, wrap_color(style.color, content))))
}

/// Law: the default style adds no tags; unstyled content renders as itself.
pub proof fn lemma_unstyled(content: Seq<char>)
    ensures
        spec_styled(content, default_style()) == content,
{
}

/// Law: the tag nesting order is fixed. With bold and italic both on and
/// nothing else set, the bold tag is the inner one and the italic tag the
/// outer one, never the other way round.
pub proof fn lemma_bold_italic_nesting(content: Seq<char>)
    ensures
        spec_styled(content, StyleView { color: None, size: None, bold: true, italic: true })
            == "[i]"@ + ("[b]"@ + content + "[/b]"@) + "[/i]"@,
{
}

/// Law: the tag nesting order is fixed. With a color and a size both set and
/// nothing else on, the color tag is the inner one and the size tag the
/// outer one.
pub proof fn lemma_color_size_nesting(content: Seq<char>, color: Seq<char>, size: usize)
    ensures
        spec_styled(
            content,
            StyleView { color: Some(color), size: Some(size), bold: false, italic: false },
        ) == "[size="@ + dec_str(size as nat) + "]"@ + ("[color="@ + color + "]"@ + content
            + "[/color]"@) + "[/size]"@,
{
}

/// A string plus the style it is presented in. The content is never itself
/// markup: the tags are added only when the node is rendered, exactly once.
pub struct Text {
    pub content: String,
    pub style: TextStyle,
}

impl Text {
    /// An unstyled text node.
    pub fn new(text: &str) -> (r: Self)
        ensures
            r.content@ == text@,
            r.style@ == default_style(),
    {
        Text { content: String::from_str(text), style: TextStyle::default() }
    }

    /// The same content under the given style.
    pub fn style(self, style: TextStyle) -> (r: Self)
        ensures
            r.content == self.content,
            r.style == style,
    {
        Text { content: self.content, style }
    }
}

impl ToBBCode for Text {
    open spec fn renderable(&self) -> bool {
        true
    }

    open spec fn spec_render(&self) -> Seq<char> {
        spec_styled(self.content@, self.style@)
    }

    fn to_bbcode(self) -> (r: String) {
        let ghost c0 = self.content@;
        let ghost sv = self.style@;
        let Text { content, style } = self;
        let TextStyle { color, size, bold, italic } = style;
        let mut text = content;
        match color {
            Some(c) => {
                let mut t = String::from_str("[color=");
                t.append(c.as_str());
                t.append("]");
                t.append(text.as_str());
                t.append("[/color]");
                text = t;
            },
            None => {},
        }
        assert(text@ == wrap_color(sv.color, c0));
        match size {
            Some(n) => {
                let mut t = String::from_str("[size=");
                t.append(usize_to_string(n).as_str());
                t.append("]");
                t.append(text.as_str());
                t.append("[/size]");
                text = t;
            },
            None => {},
        }
        assert(text@ == wrap_size(sv.size, wrap_color(sv.color, c0)));
        if bold {
            let mut t = String::from_str("[b]");
            t.append(text.as_str());
            t.append("[/b]");
            text = t;
        }
        assert(text@ == wrap_bold(sv.bold, wrap_size(sv.size, wrap_color(sv.color, c0))));
        if italic {
            let mut t = String::from_str("[i]");
            t.append(text.as_str());
            t.append("[/i]");
            text = t;
        }
        assert(text@ == spec_styled(c0, sv));
        text
    }
}

/// A key half and a value half, each independently styled. The fixed
/// separator (`":"` after the key, one space before the value) is baked into
/// the two contents at construction, before any styling.
pub struct KeyValue {
    pub key: Text,
    pub value: Text,
}

impl KeyValue {
    /// A key-value pair with the separator baked in and no styling.
    pub fn new(key: &str, value: &str) -> (r: Self)
        ensures
            r.key.content@ == key@ + ":"@,
            r.key.style@ == default_style(),
            r.value.content@ == " "@ + value@,
            r.value.style@ == default_style(),
    {
        let mut k = String::from_str(key);
        k.append(":");
        let mut v = String::from_str(" ");
        v.append(value);
        KeyValue {
            key: Text { content: k, style: TextStyle::default() },
            value: Text { content: v, style: TextStyle::default() },
        }
    }

    /// The same pair with the key half restyled.
    pub fn style_key(self, key: TextStyle) -> (r: Self)
        ensures
            r.key.content == self.key.content,
            r.key.style == key,
            r.value == self.value,
    {
        KeyValue { key: Text { content: self.key.content, style: key }, value: self.value }
    }

    /// The same pair with the value half restyled.
    pub fn style_value(self, value: TextStyle) -> (r: Self)
        ensures
            r.key == self.key,
            r.value.content == self.value.content,
            r.value.style == value,
    {
        KeyValue { key: self.key, value: Text { content: self.value.content, style: value } }
    }

    /// The same pair with both halves restyled.
    pub fn style(self, key: TextStyle, value: TextStyle) -> (r: Self)
        ensures
            r.key.content == self.key.content,
            r.key.style == key,
            r.value.content == self.value.content,
            r.value.style == value,
    {
        self.style_key(key).style_value(value)
    }
}

impl ToBBCode for KeyValue {
    open spec fn renderable(&self) -> bool {
        true
    }

    /// The two halves back to back: no separator is added at render time.
    open spec fn spec_render(&self) -> Seq<char> {
        self.key.spec_render() + self.value.spec_render()
    }

    fn to_bbcode(self) -> (r: String) {
        let KeyValue { key, value } = self;
        let mut out = key.to_bbcode();
        out.append(value.to_bbcode().as_str());
        out
    }
}

/// Law: an unstyled pair renders as the key, the baked-in `":"` and space,
/// and the value, with no tags anywhere.
pub proof fn lemma_key_value_unstyled(kv: KeyValue, k: Seq<char>, v: Seq<char>)
    requires
        kv.key.content@ == k + ":"@,
        kv.key.style@ == default_style(),
        kv.value.content@ == " "@ + v,
        kv.value.style@ == default_style(),
    ensures
        kv.spec_render() == (k + ":"@) + (" "@ + v),
{
}

/// An ordered, non-empty sequence of nodes, joined by single line breaks.
pub struct List<T>(pub Vec<T>);

impl<T> List<T> {
    /// A list node over the given items.
    pub fn new(items: Vec<T>) -> (r: Self)
        ensures
            r.0 == items,
    {
        List(items)
    }
}

impl<T: ToBBCode> ToBBCode for List<T> {
    /// A list renders only when it has at least one renderable item.
    open spec fn renderable(&self) -> bool {
        &&& self.0@.len() > 0
        &&& forall|i: int| 0 <= i < self.0@.len() ==> #[trigger] self.0@[i].renderable()
    }

    open spec fn spec_render(&self) -> Seq<char> {
        spec_join(self.0@, "\n"@)
    }

    fn to_bbcode(self) -> (r: String) {
        join_items(self.0, "\n")
    }
}

/// An ordered, non-empty sequence of nodes, joined by blank lines.
pub struct DoubleList<T>(pub Vec<T>);

impl<T> DoubleList<T> {
    /// A spaced list node over the given items.
    pub fn new(items: Vec<T>) -> (r: Self)
        ensures
            r.0 == items,
    {
        DoubleList(items)
    }
}

impl<T: ToBBCode> ToBBCode for DoubleList<T> {
    /// A list renders only when it has at least one renderable item.
    open spec fn renderable(&self) -> bool {
        &&& self.0@.len() > 0
        &&& forall|i: int| 0 <= i < self.0@.len() ==> #[trigger] self.0@[i].renderable()
    }

    open spec fn spec_render(&self) -> Seq<char> {
        spec_join(self.0@, "\n\n"@)
    }

    fn to_bbcode(self) -> (r: String) {
        join_items(self.0, "\n\n")
    }
}

/// Render every item of `items` and join the renderings with `sep`, with no
/// trailing separator.
fn join_items<T: ToBBCode>(items: Vec<T>, sep: &str) -> (r: String)
    requires
        items@.len() > 0,
        forall|i: int| 0 <= i < items@.len() ==> #[trigger] items@[i].renderable(),
    ensures
        r@ == spec_join(items@, sep@),
{
    let ghost all = items@;
    let mut v = items;
    let total: usize = v.len();
    let first = v.remove(0);
    let mut out = first.to_bbcode();
    let mut i: usize = 1;
    while v.len() > 0
        invariant
            all.len() == total,
            1 <= i <= total,
            v@ == all.skip(i as int),
            out@ == spec_join(all.take(i as int), sep@),
            forall|j: int| 0 <= j < all.len() ==> #[trigger] all[j].renderable(),
        decreases all.len() - i,
    {
        assert(all.skip(i as int)[0] == all[i as int]);
        let x = v.remove(0);
        out.append(sep);
        out.append(x.to_bbcode().as_str());
        proof {
            lemma_join_push(all.take(i as int), all[i as int], sep@);
            assert(all.take(i as int).push(all[i as int]) =~= all.take(i as int + 1));
            assert(all.skip(i as int).remove(0) =~= all.skip(i as int + 1));
        }
        i = i + 1;
    }
    proof {
        assert(all.take(i as int) =~= all);
    }
    out
}

/// Law: a three-item list renders as the three items' markup with one line
/// break between each neighbouring pair and none at either end.
pub proof fn lemma_list_three<T: ToBBCode>(l: List<T>, a: T, b: T, c: T)
    requires
        l.0@ == seq![a, b, c],
    ensures
        l.spec_render() == a.spec_render() + "\n"@ + (b.spec_render() + "\n"@ + c.spec_render()),
{
    lemma_join_three(a, b, c, "\n"@);
}

/// Law: a two-item spaced list renders as the two items' markup around one
/// blank line.
pub proof fn lemma_double_list_two<T: ToBBCode>(l: DoubleList<T>, a: T, b: T)
    requires
        l.0@ == seq![a, b],
    ensures
        l.spec_render() == a.spec_render() + "\n\n"@ + b.spec_render(),
{
    lemma_join_two(a, b, "\n\n"@);
}

/// A single URL leaf, rendered inside an image tag.
pub struct Image(pub String);

impl Image {
    /// An image node for the given URL.
    pub fn new(url: &str) -> (r: Self)
        ensures
            r.0@ == url@,
    {
        Image(String::from_str(url))
    }
}

impl ToBBCode for Image {
    open spec fn renderable(&self) -> bool {
        true
    }

    open spec fn spec_render(&self) -> Seq<char> {
        "[img]"@ + self.0@ + "[/img]"@
    }

    fn to_bbcode(self) -> (r: String) {
        let Image(url) = self;
        let mut out = String::from_str("[img]");
        out.append(url.as_str());
        out.append("[/img]");
        out
    }
}

/// A wrapper that hides any one node inside a spoiler tag.
pub struct Spoiler<T>(pub T);

impl<T: ToBBCode> ToBBCode for Spoiler<T> {
    open spec fn renderable(&self) -> bool {
        self.0.renderable()
    }

    open spec fn spec_render(&self) -> Seq<char> {
        "[spoiler]"@ + self.0.spec_render() + "[/spoiler]"@
    }

    fn to_bbcode(self) -> (r: String) {
        let Spoiler(inner) = self;
        let mut out = String::from_str("[spoiler]");
        out.append(inner.to_bbcode().as_str());
        out.append("[/spoiler]");
        out
    }
}

} // verus!
