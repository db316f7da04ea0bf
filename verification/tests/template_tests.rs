use bluemap_render::map::Dimension;
use bluemap_render::template::materialize_template;
use bluemap_render::template::replace_first;

#[test]
fn replace_first_occurrence_only() {
    let out = replace_first("world=%world% backup=%world%", "%world%", "/srv/w");
    assert_eq!(out, "world=/srv/w backup=%world%");
}

#[test]
fn replace_without_occurrence_is_identity() {
    let out = replace_first("nothing to see", "%world%", "/srv/w");
    assert_eq!(out, "nothing to see");
}

#[test]
fn replace_at_start_and_end() {
    assert_eq!(replace_first("%name% tail", "%name%", "n"), "n tail");
    assert_eq!(replace_first("head %name%", "%name%", "n"), "head n");
}

#[test]
fn replace_with_empty_replacement() {
    assert_eq!(replace_first("a%x%b", "%x%", ""), "ab");
}

#[test]
fn materialize_replaces_all_three_tokens() {
    let template = "world: %world%\ndimension: %dimension%\nname: %name%\n";
    let out = materialize_template(template, "maps/42", Dimension::Nether, "myworld");
    assert_eq!(out, "world: maps/42\ndimension: nether\nname: myworld\n");
}

#[test]
fn materialize_keeps_second_token_instance() {
    let template = "%world% and again %world%";
    let out = materialize_template(template, "w", Dimension::Overworld, "n");
    assert_eq!(out, "w and again %world%");
}

#[test]
fn materialize_empty_template() {
    let out = materialize_template("", "w", Dimension::End, "n");
    assert_eq!(out, "");
}

#[test]
fn dimension_names_are_lowercase() {
    assert_eq!(Dimension::Overworld.name(), "overworld");
    assert_eq!(Dimension::Nether.name(), "nether");
    assert_eq!(Dimension::End.name(), "end");
}
