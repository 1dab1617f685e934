use tracker_lib::query::{escape_query, parse_query, search_conditions};

fn v(items: &[&str]) -> Vec<String> {
    items.iter().map(|s| s.to_string()).collect()
}

#[test]
fn plain_terms() {
    let q = parse_query("a b");
    assert_eq!(q.simples, v(&["a", "b"]));
    assert!(q.negated_simples.is_empty());
    assert!(q.quotes.is_empty());
}

#[test]
fn negated_term() {
    let q = parse_query("-a b");
    assert_eq!(q.negated_simples, v(&["a"]));
    assert_eq!(q.simples, v(&["b"]));
}

#[test]
fn quoted_phrase() {
    let q = parse_query("\"x y\"");
    assert_eq!(q.quotes, v(&["x y"]));
    let q = parse_query("-\"x\"");
    assert_eq!(q.negated_quotes, v(&["x"]));
}

#[test]
fn alternatives() {
    let q = parse_query("a|b");
    assert_eq!(q.simples_or, vec![v(&["a", "b"])]);
    let q = parse_query("-a|b");
    assert_eq!(q.negated_simples_or, vec![v(&["a", "b"])]);
    let q = parse_query("\"a b\"|\"c\"");
    assert_eq!(q.quotes_or, vec![v(&["a b", "c"])]);
}

#[test]
fn trailing_pipe_is_a_plain_term() {
    let q = parse_query("a|");
    assert_eq!(q.simples, v(&["a"]));
    assert!(q.simples_or.is_empty());
}

#[test]
fn empty_query() {
    let q = parse_query("");
    assert!(q.simples.is_empty() && q.quotes.is_empty() && q.simples_or.is_empty());
}

#[test]
fn groups_have_two_terms_and_terms_no_quotes() {
    for s in ["a|b c", "-x|\"y z\" w", "a||b", "\"a\"|b|c", "| a -", "\"\"", "-\"a|b\"|c d"] {
        let q = parse_query(s);
        for g in q.simples_or.iter().chain(&q.negated_simples_or).chain(&q.quotes_or).chain(&q.negated_quotes_or) {
            assert!(g.len() >= 2, "{s:?}");
        }
        for t in q.simples.iter().chain(&q.negated_simples) {
            assert!(!t.is_empty() && !t.contains(' ') && !t.contains('|') && !t.contains('"') && !t.contains('-'));
        }
    }
}

#[test]
fn escaping() {
    assert_eq!(escape_query("50%_off"), "50\\%\\_off");
    assert_eq!(escape_query("a\\b"), "a\\\\b");
    assert_eq!(escape_query("[x]-^"), "\\[x\\]\\-\\^");
    assert_eq!(escape_query("plain"), "plain");
}

#[test]
fn escaping_matches_sequential_replace() {
    for s in ["50%_off", "a\\b", "[x]-^", "\\%", "", "ü-ß"] {
        let mut e = s.replace('\\', "\\\\");
        for c in ['%', '_', '^', '[', ']', '-'] {
            e = e.replace(c, &format!("\\{c}"));
        }
        assert_eq!(escape_query(s), e);
    }
}

#[test]
fn conditions_in_order() {
    let cs = search_conditions("a -b \"c d\" e|f");
    let got: Vec<(Vec<String>, bool)> = cs.into_iter().map(|c| (c.patterns, c.negated)).collect();
    assert_eq!(
        got,
        vec![
            (v(&["%c d%"]), false),
            (v(&["%a%"]), false),
            (v(&["%b%"]), true),
            (v(&["%e%", "%f%"]), false),
        ]
    );
}

#[test]
fn conditions_escape_terms() {
    let cs = search_conditions("100%");
    assert_eq!(cs.len(), 1);
    assert_eq!(cs[0].patterns, v(&["%100\\%%"]));
}
