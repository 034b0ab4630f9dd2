//! The rendering capability shared by every node kind, and the separator-join
//! that the list nodes build on.

use vstd::prelude::*;

verus! {

/// A node of the document tree: a value that renders to markup.
///
/// Rendering consumes the node; a node is built, handed to `to_bbcode` once,
/// and not reused. `renderable` is the node's well-formedness condition
/// (a list node must be non-empty, recursively); `spec_render` is the markup
/// the node stands for, and `to_bbcode` is proved to produce exactly it.
pub trait ToBBCode: Sized {
    /// Whether the node may be rendered at all.
    spec fn renderable(&self) -> bool;

    /// The markup this node renders to.
    spec fn spec_render(&self) -> Seq<char>;

    /// Produce the node's markup.
    fn to_bbcode(self) -> (r: String)
        requires
            self.renderable(),
        ensures
            r@ == self.spec_render(),
    ;
}

/// A plain string renders as itself: style tags are added only by the nodes
/// that wrap it, never by the content.
impl ToBBCode for String {
    open spec fn renderable(&self) -> bool {
        true
    }

    open spec fn spec_render(&self) -> Seq<char> {
        self@
    }

    fn to_bbcode(self) -> (r: String) {
        self
    }
}

/// The renderings of `items` joined by `sep`, with no trailing separator.
pub open spec fn spec_join<T: ToBBCode>(items: Seq<T>, sep: Seq<char>) -> Seq<char>
    decreases items.len(),
{
    if items.len() == 0 {
        Seq::empty()
    } else if items.len() == 1 {
        items[0].spec_render()
    } else {
        items[0].spec_render() + sep + spec_join(items.drop_first(), sep)
    }
}

/// Joining one more item appends one separator and that item's rendering.
pub proof fn lemma_join_push<T: ToBBCode>(items: Seq<T>, x: T, sep: Seq<char>)
    requires
        items.len() > 0,
    ensures
        spec_join(items.push(x), sep) == spec_join(items, sep) + sep + x.spec_render(),
    decreases items.len(),
{
    let l = items.push(x);
    assert(l.len() == items.len() + 1);
    assert(l[0] == items[0]);
    if items.len() == 1 {
        assert(l.drop_first() =~= seq![x]);
        assert(spec_join(seq![x], sep) == x.spec_render());
        assert(spec_join(l, sep) == items[0].spec_render() + sep + x.spec_render());
        assert(spec_join(items, sep) == items[0].spec_render());
    } else {
        lemma_join_push(items.drop_first(), x, sep);
        assert(l.drop_first() =~= items.drop_first().push(x));
        assert(spec_join(l, sep) == items[0].spec_render() + sep + spec_join(l.drop_first(), sep));
        assert(spec_join(l.drop_first(), sep) == spec_join(items.drop_first(), sep) + sep
            + x.spec_render());
        assert(spec_join(items, sep) == items[0].spec_render() + sep + spec_join(
            items.drop_first(),
            sep,
        ));
        assert(spec_join(l, sep) =~= spec_join(items, sep) + sep + x.spec_render());
    }
}

/// Law: a three-item join is the three renderings with a separator between
/// each neighbouring pair and nothing at either end.
pub proof fn lemma_join_three<T: ToBBCode>(a: T, b: T, c: T, sep: Seq<char>)
    ensures
        spec_join(seq![a, b, c], sep) == a.spec_render() + sep + (b.spec_render() + sep
            + c.spec_render()),
{
    let s = seq![a, b, c];
    assert(s.len() == 3);
    assert(s[0] == a);
    assert(s.drop_first() =~= seq![b, c]);
    lemma_join_two(b, c, sep);
    assert(spec_join(s, sep) == a.spec_render() + sep + spec_join(s.drop_first(), sep));
}

/// Law: a two-item join is the two renderings around one separator.
pub proof fn lemma_join_two<T: ToBBCode>(a: T, b: T, sep: Seq<char>)
    ensures
        spec_join(seq![a, b], sep) == a.spec_render() + sep + b.spec_render(),
{
    let s = seq![a, b];
    assert(s.len() == 2);
    assert(s[0] == a);
    assert(s.drop_first() =~= seq![b]);
    assert(spec_join(s.drop_first(), sep) == b.spec_render());
    assert(spec_join(s, sep) == a.spec_render() + sep + spec_join(s.drop_first(), sep));
}

/// Law: rendering is pure. The markup is fully determined by the node's
/// value, so two renders of equal trees yield byte-identical output.
pub proof fn lemma_render_pure<T: ToBBCode>(a: T, b: T)
    requires
        a == b,
    ensures
        a.spec_render() == b.spec_render(),
        a.renderable() == b.renderable(),
{
}

} // verus!
