use bluemap_render::locks::Locks;
use bluemap_render::locks::RenderKey;
use bluemap_render::map::Dimension;

fn key(source: &str, dest: &str, template: &str, dimension: Dimension) -> RenderKey {
    RenderKey {
        source: source.to_string(),
        dest: dest.to_string(),
        template: template.to_string(),
        dimension,
    }
}

#[test]
fn first_request_owns_second_joins() {
    let mut locks = Locks::new();
    let (owner, idx) = locks.acquire_or_join(key("s", "d", "t", Dimension::Overworld));
    assert!(owner);
    assert_eq!(idx, 0);
    let (owner2, idx2) = locks.acquire_or_join(key("s", "d", "t", Dimension::Overworld));
    assert!(!owner2);
    assert_eq!(idx2, 0);
    assert_eq!(locks.len(), 1);
}

#[test]
fn any_differing_field_is_a_distinct_render() {
    let mut locks = Locks::new();
    let (owner, _) = locks.acquire_or_join(key("s", "d", "t", Dimension::Overworld));
    assert!(owner);
    for other in [
        key("s2", "d", "t", Dimension::Overworld),
        key("s", "d2", "t", Dimension::Overworld),
        key("s", "d", "t2", Dimension::Overworld),
        key("s", "d", "t", Dimension::Nether),
    ] {
        let (owner, _) = locks.acquire_or_join(other);
        assert!(owner, "a differing field must start its own render");
    }
    assert_eq!(locks.len(), 5);
}

#[test]
fn release_frees_the_key_for_the_next_owner() {
    let mut locks = Locks::new();
    let (owner, _) = locks.acquire_or_join(key("s", "d", "t", Dimension::End));
    assert!(owner);
    let released = locks.release(&key("s", "d", "t", Dimension::End));
    assert_eq!(released, Some(0));
    assert_eq!(locks.len(), 0);
    let (owner, _) = locks.acquire_or_join(key("s", "d", "t", Dimension::End));
    assert!(owner, "after release the key must be acquirable again");
}

#[test]
fn release_of_absent_key_changes_nothing() {
    let mut locks = Locks::new();
    let (_, _) = locks.acquire_or_join(key("s", "d", "t", Dimension::Overworld));
    assert_eq!(locks.release(&key("x", "d", "t", Dimension::Overworld)), None);
    assert_eq!(locks.len(), 1);
}

#[test]
fn key_equality_is_structural() {
    let a = key("s", "d", "t", Dimension::Nether);
    let b = key("s", "d", "t", Dimension::Nether);
    let c = key("s", "d", "t", Dimension::End);
    assert!(a.key_eq(&b));
    assert!(!a.key_eq(&c));
}
