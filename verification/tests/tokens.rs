use noble::token::{find_slot, join, mark, token_is, Token};

fn word(text: &str) -> Token {
    Token { text: text.to_string(), glued: false }
}

fn glued(text: &str) -> Token {
    Token { text: text.to_string(), glued: true }
}

fn texts(tokens: &[Token]) -> Vec<String> {
    tokens.iter().map(|token| token.text.clone()).collect()
}

#[test]
fn join_of_nothing_is_empty() {
    assert_eq!(join(&vec![]), "");
}

#[test]
fn join_of_one_token_is_its_text() {
    assert_eq!(join(&vec![word("fn")]), "fn");
    assert_eq!(join(&vec![glued("-")]), "-");
}

#[test]
fn join_separates_by_one_space() {
    assert_eq!(join(&vec![word("pub"), word("fn"), word("f"), word("()")]), "pub fn f ()");
}

#[test]
fn join_keeps_glued_tokens_together() {
    let tokens = vec![word("fn"), word("f"), word("()"), glued("-"), word(">"), word("u8")];
    assert_eq!(join(&tokens), "fn f () -> u8");
    let lifetime = vec![word("&"), glued("'"), word("a"), word("T")];
    assert_eq!(join(&lifetime), "& 'a T");
}

#[test]
fn token_is_compares_the_whole_text() {
    assert!(token_is(&word("fn"), "fn"));
    assert!(!token_is(&word("fn"), "f"));
    assert!(!token_is(&word("r#fn"), "fn"));
    assert!(!token_is(&word(""), "fn"));
}

#[test]
fn find_slot_is_the_first_anchor() {
    let tokens = vec![word("pub"), word("extern"), word("\"C\""), word("fn"), word("f")];
    assert_eq!(find_slot(&tokens, "extern", "fn"), 1);
    assert_eq!(find_slot(&tokens, "fn", "fn"), 3);
    assert_eq!(find_slot(&tokens, "pub", "fn"), 0);
}

#[test]
fn find_slot_without_an_anchor_is_the_end() {
    let tokens = vec![word("pub"), word("struct"), word("S")];
    assert_eq!(find_slot(&tokens, "extern", "fn"), 3);
    assert_eq!(find_slot(&vec![], "extern", "fn"), 0);
}

#[test]
fn mark_inserts_before_the_anchor() {
    let marked = mark(vec![word("pub"), word("fn"), word("f")], "extern", "fn");
    assert_eq!(texts(&marked), ["pub", "unsafe", "fn", "f"]);
    assert!(!marked[1].glued);
}

#[test]
fn mark_at_the_front() {
    let marked = mark(vec![word("trait"), word("T")], "auto", "trait");
    assert_eq!(texts(&marked), ["unsafe", "trait", "T"]);
}

#[test]
fn mark_leaves_a_marked_run() {
    let marked = mark(vec![word("pub"), word("unsafe"), word("impl"), word("S")], "impl", "impl");
    assert_eq!(texts(&marked), ["pub", "unsafe", "impl", "S"]);
}

#[test]
fn mark_twice_is_mark_once() {
    let once = mark(vec![word("async"), word("fn"), word("f")], "extern", "fn");
    let twice = mark(once.clone(), "extern", "fn");
    assert_eq!(texts(&once), texts(&twice));
}

#[test]
fn mark_without_an_anchor_appends() {
    let marked = mark(vec![word("pub")], "extern", "fn");
    assert_eq!(texts(&marked), ["pub", "unsafe"]);
    let alone = mark(vec![], "extern", "fn");
    assert_eq!(texts(&alone), ["unsafe"]);
}

#[test]
fn mark_ignores_a_marker_that_is_not_in_the_slot() {
    let marked = mark(vec![word("unsafe"), word("extern"), word("fn")], "fn", "fn");
    assert_eq!(texts(&marked), ["unsafe", "extern", "unsafe", "fn"]);
}
