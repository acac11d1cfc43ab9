use stack_interpreter::command::Command;

#[test]
fn parses_push_with_inner_spaces() {
    assert_eq!(
        Command::from_input("  push   hello  world \n"),
        Command::Push("hello  world".to_string())
    );
}

#[test]
fn bare_push_is_invalid() {
    assert_eq!(Command::from_input("push "), Command::Invalid);
    assert_eq!(Command::from_input("push"), Command::Invalid);
    assert_eq!(Command::from_input("push  \t"), Command::Invalid);
    assert_eq!(Command::from_input("push \tx"), Command::Push("x".to_string()));
}

#[test]
fn parses_keywords() {
    assert_eq!(Command::from_input("pop"), Command::Pop);
    assert_eq!(Command::from_input("\tprint\r\n"), Command::Print);
    assert_eq!(Command::from_input("exit"), Command::Exit);
    assert_eq!(Command::from_input("q"), Command::Exit);
    assert_eq!(Command::from_input("copy"), Command::Copy);
    assert_eq!(Command::from_input(" clip "), Command::Copy);
}

#[test]
fn rejects_other_lines() {
    assert_eq!(Command::from_input("foobar"), Command::Invalid);
    assert_eq!(Command::from_input("POP"), Command::Invalid);
    assert_eq!(Command::from_input("pop now"), Command::Invalid);
    assert_eq!(Command::from_input("pushx"), Command::Invalid);
    assert_eq!(Command::from_input(""), Command::Invalid);
    assert_eq!(Command::from_input("   "), Command::Invalid);
}

#[test]
fn trims_unicode_white_space() {
    assert_eq!(Command::from_input("\u{3000}pop\u{a0}"), Command::Pop);
    assert_eq!(
        Command::from_input("push \u{2003}item\u{2028}"),
        Command::Push("item".to_string())
    );
}
