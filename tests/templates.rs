use mcman::template::dollar_repl;

fn vars(v: &[(&str, &str)]) -> Vec<(String, String)> {
    v.iter().map(|(a, b)| (a.to_string(), b.to_string())).collect()
}

#[test]
fn known_placeholders_are_replaced() {
    let v = vars(&[("mcver", "1.20.4"), ("name", "srv")]);
    assert_eq!(dollar_repl("${name}-${mcver}.jar", &v), "srv-1.20.4.jar");
}

#[test]
fn unknown_and_malformed_placeholders_stay() {
    let v = vars(&[("a", "1")]);
    assert_eq!(dollar_repl("${b} ${a", &v), "${b} ${a");
    assert_eq!(dollar_repl("${} $ {a} ${a-b}", &v), "${} $ {a} ${a-b}");
    assert_eq!(dollar_repl("", &v), "");
    assert_eq!(dollar_repl("$${a}}", &v), "$1}");
}

#[test]
fn first_binding_wins() {
    let v = vars(&[("x", "first"), ("x", "second")]);
    assert_eq!(dollar_repl("${x}", &v), "first");
}
