use stack_interpreter::stack::Stack;

#[test]
fn new_stack_is_empty() {
    let s = Stack::new();
    assert!(s.is_empty());
    assert_eq!(s.len(), 0);
}

#[test]
fn pops_come_in_reverse_order_of_pushes() {
    let mut s = Stack::new();
    for item in ["p1", "p2", "p3", "p4"] {
        s.push(item.to_string());
    }
    assert_eq!(s.len(), 4);
    assert_eq!(s.pop(), Some("p4".to_string()));
    assert_eq!(s.pop(), Some("p3".to_string()));
    assert_eq!(s.pop(), Some("p2".to_string()));
    assert_eq!(s.pop(), Some("p1".to_string()));
    assert_eq!(s.pop(), None);
}

#[test]
fn pop_on_empty_changes_nothing() {
    let mut s = Stack::new();
    assert_eq!(s.pop(), None);
    assert_eq!(s.pop(), None);
    assert!(s.is_empty());
    assert_eq!(s.to_display_string(), "+--+\n");
}

#[test]
fn push_then_pop_round_trip() {
    for item in ["", "two words", "  inner  spaces ", "ünïcödé"] {
        let mut s = Stack::new();
        s.push("below".to_string());
        s.push(item.to_string());
        assert_eq!(s.pop(), Some(item.to_string()));
        assert_eq!(s.len(), 1);
    }
}

#[test]
fn duplicates_are_kept() {
    let mut s = Stack::new();
    s.push("x".to_string());
    s.push("x".to_string());
    assert_eq!(s.len(), 2);
    assert_eq!(s.pop(), Some("x".to_string()));
    assert_eq!(s.pop(), Some("x".to_string()));
}

#[test]
fn render_two_items_top_first() {
    let mut s = Stack::new();
    s.push("a".to_string());
    s.push("bb".to_string());
    assert_eq!(
        s.to_display_string(),
        "+----+\n| bb |\n+----+\n| a  |\n+----+\n"
    );
}

#[test]
fn render_odd_padding_puts_extra_space_after() {
    let mut s = Stack::new();
    s.push("abcd".to_string());
    s.push("x".to_string());
    s.push("ab".to_string());
    assert_eq!(
        s.to_display_string(),
        "+------+\n|  ab  |\n+------+\n|  x   |\n+------+\n| abcd |\n+------+\n"
    );
}

#[test]
fn render_centres_with_even_padding() {
    let mut s = Stack::new();
    s.push("abcde".to_string());
    s.push("c".to_string());
    assert_eq!(
        s.to_display_string(),
        "+-------+\n|   c   |\n+-------+\n| abcde |\n+-------+\n"
    );
}

#[test]
fn render_counts_characters_not_bytes() {
    let mut s = Stack::new();
    s.push("é".to_string());
    s.push("ab".to_string());
    assert_eq!(
        s.to_display_string(),
        "+----+\n| ab |\n+----+\n| é  |\n+----+\n"
    );
}

#[test]
fn render_empty_item() {
    let mut s = Stack::new();
    s.push(String::new());
    assert_eq!(s.to_display_string(), "+--+\n|  |\n+--+\n");
}

#[test]
fn render_is_deterministic() {
    let mut a = Stack::new();
    let mut b = Stack::new();
    for item in ["one", "three", "x y"] {
        a.push(item.to_string());
        b.push(item.to_string());
    }
    assert_eq!(a.to_display_string(), a.to_display_string());
    assert_eq!(a.to_display_string(), b.to_display_string());
}
