use layer_browser::component::{InputArena, InputField, InputId};

#[test]
fn new_arena_has_three_empty_inactive_fields() {
    let arena = InputArena::new().unwrap();
    for id in [InputId::Filter, InputId::Key, InputId::Value] {
        let field = arena.get(&id).unwrap();
        assert_eq!(field.content, "");
        assert!(!field.is_active);
    }
}

#[test]
fn new_field_is_empty_and_inactive() {
    let field = InputField::new().unwrap();
    assert_eq!(field.content, "");
    assert!(!field.is_active);
}

#[test]
fn push_appends_to_the_named_field_only() {
    let mut arena = InputArena::new().unwrap();
    arena.value_push(&InputId::Key, 'a').unwrap();
    arena.value_push(&InputId::Key, 'b').unwrap();
    assert_eq!(arena.get_content(&InputId::Key).unwrap(), "ab");
    assert_eq!(arena.get_content(&InputId::Filter).unwrap(), "");
    assert_eq!(arena.get_content(&InputId::Value).unwrap(), "");
}

#[test]
fn pop_removes_last_and_is_noop_when_empty() {
    let mut arena = InputArena::new().unwrap();
    arena.value_push(&InputId::Value, 'x').unwrap();
    arena.value_push(&InputId::Value, 'y').unwrap();
    arena.value_pop(&InputId::Value).unwrap();
    assert_eq!(arena.get_content(&InputId::Value).unwrap(), "x");
    arena.value_pop(&InputId::Value).unwrap();
    arena.value_pop(&InputId::Value).unwrap();
    assert_eq!(arena.get_content(&InputId::Value).unwrap(), "");
}

#[test]
fn get_mut_gives_write_access_to_the_named_field() {
    let mut arena = InputArena::new().unwrap();
    let field = arena.get_mut(&InputId::Filter);
    field.is_active = true;
    field.content.push('z');
    assert!(arena.get(&InputId::Filter).unwrap().is_active);
    assert_eq!(arena.get_content(&InputId::Filter).unwrap(), "z");
    assert!(!arena.get(&InputId::Key).unwrap().is_active);
}
