//! A sample document schema: an enemy roster built from the node kinds.
//!
//! The deferred parts of a roster (the entry list, each entry's free-text
//! description) are decoded outside the library; the types here hold them
//! already resolved, and their rendering is exactly the markup of the
//! resolved tree.

use vstd::prelude::*;
use vstd::string::StringExecFns;
use crate::style::{StyleView, TextStyle, default_style};
use crate::numeral::{dec_str, usize_to_string};
use crate::render::{ToBBCode, spec_join, lemma_join_two};
use crate::nodes::{Text, KeyValue, Image, List, DoubleList, spec_styled};

verus! {

/// The style of a roster entry's title: large, bold and italic.
pub open spec fn title_style() -> StyleView {
    StyleView { color: None, size: Some(120), bold: true, italic: true }
}

/// The style of a stat line's key: bold only.
pub open spec fn key_style() -> StyleView {
    StyleView { color: None, size: None, bold: true, italic: false }
}

/// One stat line: the bold key with its baked-in `":"`, then the unstyled
/// value with its baked-in leading space.
pub open spec fn spec_stat(key: Seq<char>, value: usize) -> Seq<char> {
    spec_styled(key + ":"@, key_style()) + (" "@ + dec_str(value as nat))
}

/// One roster entry: a title, a picture, a two-line stat block, and a
/// free-text description that stood behind a deferred reference and has
/// been resolved before the entry is built.
pub struct Enemy {
    pub name: String,
    pub image: String,
    pub health: usize,
    pub points: usize,
    pub description: String,
}

impl ToBBCode for Enemy {
    open spec fn renderable(&self) -> bool {
        true
    }

    /// Title, image, stat block and description, joined by blank lines; the
    /// two stat lines are joined by a single line break.
    open spec fn spec_render(&self) -> Seq<char> {
        spec_styled(self.name@, title_style()) + "\n\n"@ + ("[img]"@ + self.image@ + "[/img]"@)
            + "\n\n"@ + (spec_stat("Health"@, self.health) + "\n"@ + spec_stat(
            "Points"@,
            self.points,
        )) + "\n\n"@ + self.description@
    }

    fn to_bbcode(self) -> (r: String) {
        let ghost me = self;
        let Enemy { name, image, health, points, description } = self;
        let title = Text::new(name.as_str()).style(
            TextStyle::size(120).merge(TextStyle::bold()).merge(TextStyle::italic()),
        );
        proof {
            assert(title.style@ =~= title_style());
        }
        let mut out = title.to_bbcode();
        out.append("\n\n");
        out.append(Image::new(image.as_str()).to_bbcode().as_str());
        out.append("\n\n");
        let kv_health = KeyValue::new("Health", usize_to_string(health).as_str()).style_key(
            TextStyle::bold(),
        );
        let kv_points = KeyValue::new("Points", usize_to_string(points).as_str()).style_key(
            TextStyle::bold(),
        );
        proof {
            assert(kv_health.key.style@ =~= key_style());
            assert(kv_points.key.style@ =~= key_style());
            assert(kv_health.spec_render() =~= spec_stat("Health"@, health));
            assert(kv_points.spec_render() =~= spec_stat("Points"@, points));
        }
        let ghost g_health = kv_health;
        let ghost g_points = kv_points;
        let mut stats_vec: Vec<KeyValue> = Vec::new();
        stats_vec.push(kv_health);
        stats_vec.push(kv_points);
        let stats = List(stats_vec);
        proof {
            assert(stats.0@ =~= seq![g_health, g_points]);
            lemma_join_two(g_health, g_points, "\n"@);
        }
        out.append(stats.to_bbcode().as_str());
        out.append("\n\n");
        out.append(description.as_str());
        proof {
            assert(out@ =~= me.spec_render());
        }
        out
    }
}

/// The roster body: groups of entries, blank lines between groups. Each
/// group stood behind a deferred reference and holds its entries resolved.
pub struct Enemies(pub DoubleList<List<Enemy>>);

impl ToBBCode for Enemies {
    open spec fn renderable(&self) -> bool {
        self.0.renderable()
    }

    open spec fn spec_render(&self) -> Seq<char> {
        self.0.spec_render()
    }

    fn to_bbcode(self) -> (r: String) {
        let Enemies(inner) = self;
        inner.to_bbcode()
    }
}

/// The root document: nothing but the roster, which stood behind the one
/// top-level deferred reference.
pub struct TaromaruST {
    pub enemies: Enemies,
}

impl ToBBCode for TaromaruST {
    open spec fn renderable(&self) -> bool {
        self.enemies.renderable()
    }

    open spec fn spec_render(&self) -> Seq<char> {
        self.enemies.spec_render()
    }

    fn to_bbcode(self) -> (r: String) {
        let TaromaruST { enemies } = self;
        enemies.to_bbcode()
    }
}

} // verus!
