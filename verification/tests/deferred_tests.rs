use bbcode_tree::deferred::{Include, RenderError};
use bbcode_tree::nodes::{DoubleList, List};
use bbcode_tree::render::ToBBCode;
use bbcode_tree::schema::{Enemies, Enemy, TaromaruST};

#[test]
fn missing_resource_fails_whole_render() {
    let inc = Include::<String>::new("no/such/resource.ron");
    let r = inc.resolve(None);
    match r {
        Err(RenderError::ResourceUnavailable(name)) => {
            assert_eq!(name, "no/such/resource.ron");
        }
        _ => panic!("expected ResourceUnavailable"),
    }
}

#[test]
fn check_loaded_reports_the_resource() {
    let inc = Include::<Vec<String>>::new("roster.ron");
    let r = inc.check_loaded(None);
    match r {
        Err(e) => {
            assert!(matches!(e, RenderError::ResourceUnavailable(_)));
            assert_eq!(e.resource(), "roster.ron");
        }
        Ok(_) => panic!("expected an error"),
    }
    let r = inc.check_loaded(Some(String::from("(text)")));
    assert_eq!(r.unwrap(), "(text)");
}

#[test]
fn undecodable_resource_fails_whole_render() {
    let inc = Include::<String>::new("broken.ron");
    let r = inc.resolve(Some(String::from("((( not a string")));
    match r {
        Err(RenderError::DecodeError(name)) => assert_eq!(name, "broken.ron"),
        _ => panic!("expected DecodeError"),
    }
}

#[test]
fn resolve_decodes_the_text() {
    let inc = Include::<String>::new("desc.ron");
    let r = inc.resolve(Some(String::from("\"hello [b]world[/b]\"")));
    assert_eq!(r.unwrap(), "hello [b]world[/b]");
}

#[test]
fn nested_references_expand_fully() {
    // A reference decodes into text that itself holds another reference's
    // resource name; both levels resolve and no marker is left behind.
    let outer = Include::<String>::new("outer.ron");
    let inner_name = outer.resolve(Some(String::from("\"inner.ron\""))).unwrap();
    assert_eq!(inner_name, "inner.ron");
    let inner = Include::<String>::new(&inner_name);
    let markup = inner.resolve(Some(String::from("\"A wobbly blob.\""))).unwrap();
    assert_eq!(markup, "A wobbly blob.");
    assert!(!markup.contains("inner.ron"));
}

#[test]
fn render_decoded_adds_no_markup() {
    let inc = Include::<String>::new("desc.ron");
    let s = inc.render_decoded(String::from("plain words"));
    assert_eq!(s, "plain words");
}

fn sample_enemy(description: String) -> Enemy {
    Enemy {
        name: String::from("Slime"),
        image: String::from("http://e/slime.png"),
        health: 50,
        points: 10,
        description,
    }
}

#[test]
fn enemy_entry_renders_fully() {
    // The description stood behind a deferred reference; resolve it first,
    // then render the entry around the resolved text.
    let desc = Include::<String>::new("slime.ron")
        .resolve(Some(String::from("\"A wobbly blob.\"")))
        .unwrap();
    let e = sample_enemy(desc);
    let expected = "[i][b][size=120]Slime[/size][/b][/i]\n\n\
                    [img]http://e/slime.png[/img]\n\n\
                    [b]Health:[/b] 50\n[b]Points:[/b] 10\n\n\
                    A wobbly blob.";
    assert_eq!(e.to_bbcode(), expected);
}

#[test]
fn roster_renders_groups_with_blank_lines() {
    let a = sample_enemy(String::from("First."));
    let b = Enemy {
        name: String::from("Bat"),
        image: String::from("http://e/bat.png"),
        health: 20,
        points: 5,
        description: String::from("Second."),
    };
    let roster = TaromaruST {
        enemies: Enemies(DoubleList::new(vec![List::new(vec![a]), List::new(vec![b])])),
    };
    let out = roster.to_bbcode();
    let parts: Vec<&str> = out.split("\n\n").collect();
    // two entries of four blocks each, the groups joined by one more blank line
    assert_eq!(parts.len(), 8);
    assert_eq!(parts[0], "[i][b][size=120]Slime[/size][/b][/i]");
    assert_eq!(parts[3], "First.");
    assert_eq!(parts[4], "[i][b][size=120]Bat[/size][/b][/i]");
    assert_eq!(parts[7], "Second.");
}
