use stack_ratio::data::fetch_item_stack_size;

#[test]
fn known_items_have_their_stack_sizes() {
    assert_eq!(fetch_item_stack_size("iron plate"), Some(100));
    assert_eq!(fetch_item_stack_size("copper cable"), Some(200));
    assert_eq!(fetch_item_stack_size("satellite"), Some(1));
    assert_eq!(fetch_item_stack_size("crude oil barrel"), Some(10));
    assert_eq!(fetch_item_stack_size("space science pack"), Some(2000));
    assert_eq!(fetch_item_stack_size("uranium-235"), Some(100));
    assert_eq!(fetch_item_stack_size("used-up uranium fuel cell"), Some(50));
    assert_eq!(fetch_item_stack_size("uranium rounds"), Some(200));
}

#[test]
fn aliases_resolve_like_their_items() {
    let pairs = [
        ("gear", "iron gear wheel"),
        ("gear wheel", "iron gear wheel"),
        ("green circuit", "electronic circuit"),
        ("red circuit", "advanced circuit"),
        ("blue circuit", "processing unit"),
        ("frf", "flying robot frame"),
        ("rcu", "rocket control unit"),
        ("lds", "low density structure"),
        ("white science", "space science pack"),
        ("fish", "raw fish"),
        ("speed module 1", "speed module"),
    ];
    for (alias, name) in pairs {
        let a = fetch_item_stack_size(alias);
        assert!(a.is_some());
        assert_eq!(a, fetch_item_stack_size(name));
    }
}

#[test]
fn unknown_names_give_none() {
    assert_eq!(fetch_item_stack_size("totally-not-an-item"), None);
    assert_eq!(fetch_item_stack_size(""), None);
    assert_eq!(fetch_item_stack_size("iron plates"), None);
    assert_eq!(fetch_item_stack_size("iron plat"), None);
    assert_eq!(fetch_item_stack_size(" iron plate"), None);
}

#[test]
fn lookup_expects_lowercase_names() {
    assert_eq!(fetch_item_stack_size("Iron Plate"), None);
}
