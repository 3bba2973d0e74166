//! End-to-end scenarios through the three pipeline stages.

use vea::span::Diag;

fn pipeline(src: &str) -> (Vec<u8>, Option<Diag>) {
    let (l, ldiags) = vea::lex(src.as_bytes());
    assert!(ldiags.is_empty(), "unexpected lex diagnostics");
    let l = l.unwrap();
    let (ast, pdiags) = vea::parse(&l);
    assert!(pdiags.is_empty(), "unexpected parse diagnostics");
    let out = vea::interp(&ast.unwrap(), 1_000_000);
    (out.output, out.error)
}

fn run_ok(src: &str) -> String {
    let (out, err) = pipeline(src);
    assert!(err.is_none(), "unexpected runtime error");
    String::from_utf8(out).unwrap()
}

fn run_err(src: &str) -> Diag {
    let (_, err) = pipeline(src);
    err.expect("expected a runtime error")
}

#[test]
fn print_bound_variable() {
    assert_eq!(run_ok("let x = 5; print(x);"), "5");
}

#[test]
fn redefinition_fails_at_second_binding() {
    let d = run_err("let x = 1; let x = 2;");
    assert_eq!(d.msg, b"variable `x` already exists".to_vec());
    assert_eq!(d.span.start, 15);
    assert_eq!(d.span.end, 16);
}

#[test]
fn duplicate_set_element_fails_at_second_element() {
    let d = run_err("set { 1, 1 };");
    assert_eq!(d.msg, b"value 1 is already in this set".to_vec());
    assert_eq!(d.span.start, 9);
    assert_eq!(d.span.end, 10);
}

#[test]
fn division_by_zero_fails() {
    let d = run_err("print(1 / 0);");
    assert_eq!(d.msg, b"cannot divide by zero".to_vec());
}

#[test]
fn arity_mismatch_fails() {
    let d = run_err("fn sum(a, b) { return a + b; } sum(1);");
    assert_eq!(d.msg, b"fn `sum` expected 2 arguments but got 1".to_vec());
}

#[test]
fn matching_arity_yields_value() {
    assert_eq!(run_ok("fn sum(a, b) { return a + b; } print(sum(1, 2));"), "3");
}

#[test]
fn while_condition_must_be_bool() {
    let (out, err) = pipeline("while (1) {}");
    let d = err.expect("expected a runtime error");
    assert_eq!(d.msg, b"condition of an `while` statement must be of type `bool`".to_vec());
    assert!(out.is_empty());
}

#[test]
fn parser_reports_both_malformed_statements() {
    let (l, ldiags) = vea::lex("let 1 = 2; let 3 = 4;".as_bytes());
    assert!(ldiags.is_empty());
    let (ast, pdiags) = vea::parse(&l.unwrap());
    assert!(ast.is_none());
    assert_eq!(pdiags.len(), 2);
}

#[test]
fn literal_only_program_runs_identically_twice() {
    let src = "print(1); print('a'); print(true);";
    assert_eq!(run_ok(src), run_ok(src));
    assert_eq!(run_ok(src), "1atrue");
}

#[test]
fn recursion_returns_per_call() {
    let src = "fn fact(n) { if (n <= 1) { return 1; } return n * fact(n - 1); } print(fact(5));";
    assert_eq!(run_ok(src), "120");
}

#[test]
fn nested_block_return_reaches_the_caller() {
    assert_eq!(run_ok("fn f() { { return 7; } } print(f());"), "7");
}

#[test]
fn statement_after_return_is_an_error() {
    let d = run_err("fn f() { return 1; print(2); } f();");
    assert_eq!(d.msg, b"statement after `return` is never reached".to_vec());
}

#[test]
fn return_outside_a_function_is_an_error() {
    let d = run_err("return 1;");
    assert_eq!(d.msg, b"used `return` statement outside of a `fn` block".to_vec());
}

#[test]
fn function_must_return() {
    let d = run_err("fn f() { let a = 1; } f();");
    assert_eq!(d.msg, b"fn `f` doesn't return anything".to_vec());
}

#[test]
fn calling_a_non_function_fails() {
    let d = run_err("let x = 3; x();");
    assert_eq!(d.msg, b"value is not a function".to_vec());
}

#[test]
fn undefined_variable_fails() {
    let d = run_err("print(y);");
    assert_eq!(d.msg, b"variable `y` does not exist".to_vec());
}

#[test]
fn assignment_shadows_in_nested_block() {
    assert_eq!(run_ok("let x = 1; { x = 2; } print(x);"), "1");
}

#[test]
fn assignment_in_same_frame_overwrites() {
    assert_eq!(run_ok("let x = 5; x *= 3; print(x);"), "15");
}

#[test]
fn compound_assignments_apply_their_operator() {
    assert_eq!(run_ok("let x = 10; x -= 4; print(x);"), "6");
    assert_eq!(run_ok("let x = 12; x /= 4; print(x);"), "3");
    assert_eq!(run_ok("let x = 13; x %= 5; print(x);"), "3");
    assert_eq!(run_ok("let x = 1; x <<= 4; print(x);"), "16");
    assert_eq!(run_ok("let x = 16; x >>= 2; print(x);"), "4");
    assert_eq!(run_ok("let x = 6; x &= 3; print(x);"), "2");
    assert_eq!(run_ok("let x = 4; x |= 3; print(x);"), "7");
    assert_eq!(run_ok("let x = 6; x ^= 3; print(x);"), "5");
}

#[test]
fn string_concatenation() {
    assert_eq!(run_ok("print('ab' + 'cd');"), "abcd");
}

#[test]
fn typed_operator_error_names_both_types() {
    let d = run_err("print(true - false);");
    assert_eq!(d.msg, b"cannot subtract `bool - bool`".to_vec());
}

#[test]
fn unary_operators() {
    assert_eq!(run_ok("print(-5);"), "-5");
    assert_eq!(run_ok("print(!true);"), "false");
}

#[test]
fn comparisons_yield_booleans() {
    assert_eq!(run_ok("print(1 < 2);"), "true");
    assert_eq!(run_ok("print(2 <= 1);"), "false");
    assert_eq!(run_ok("print(3 == 3);"), "true");
    assert_eq!(run_ok("print(3 != 3);"), "false");
    assert_eq!(run_ok("print('a' == 'a');"), "true");
}

#[test]
fn if_else_branches() {
    assert_eq!(run_ok("if (true) { print(1); } else { print(2); }"), "1");
    assert_eq!(run_ok("if (false) { print(1); } else { print(2); }"), "2");
}

#[test]
fn if_condition_must_be_bool() {
    let d = run_err("if (7) {}");
    assert_eq!(d.msg, b"condition of an `if` statement must be of type `bool`".to_vec());
}

#[test]
fn object_field_access() {
    assert_eq!(run_ok("let o = struct { let a = 5; }; print(o['a']);"), "5");
}

#[test]
fn missing_object_field_fails() {
    let d = run_err("let o = struct { let a = 5; }; print(o['b']);");
    assert_eq!(d.msg, b"value does not have an index `b`".to_vec());
}

#[test]
fn indexing_a_non_object_fails() {
    let d = run_err("let x = 3; print(x['a']);");
    assert_eq!(d.msg, b"cannot index into a value with type `int`".to_vec());
}

#[test]
fn indexing_with_a_non_string_fails() {
    let d = run_err("let o = struct { let a = 5; }; print(o[1]);");
    assert_eq!(d.msg, b"cannot index with a value of type `int`".to_vec());
}

#[test]
fn set_and_object_render_canonically() {
    assert_eq!(run_ok("print(set { 1, 2 });"), "set { 1, 2 }");
    assert_eq!(run_ok("print(struct { let a = 1; });"), "object { a }");
    assert_eq!(run_ok("print(_);"), "_");
}

#[test]
fn runaway_loop_stops_on_budget() {
    let (l, _) = vea::lex("while (true) {}".as_bytes());
    let (ast, _) = vea::parse(&l.unwrap());
    let out = vea::interp(&ast.unwrap(), 100);
    let d = out.error.expect("expected the budget error");
    assert_eq!(d.msg, b"evaluation budget exhausted".to_vec());
}

#[test]
fn lexer_reports_unrecognized_character() {
    let (l, diags) = vea::lex("let @ = 1;".as_bytes());
    assert!(l.is_some());
    assert_eq!(diags.len(), 1);
    assert_eq!(diags[0].msg, b"unrecognized character".to_vec());
    assert_eq!(diags[0].span.start, 4);
}

#[test]
fn lexer_reports_unterminated_string() {
    let (_, diags) = vea::lex("let s = 'abc".as_bytes());
    assert_eq!(diags.len(), 1);
    assert_eq!(diags[0].msg, b"unterminated string".to_vec());
}

#[test]
fn lexer_reports_integer_overflow() {
    let (_, diags) = vea::lex("print(99999999999999999999);".as_bytes());
    assert_eq!(diags.len(), 1);
    assert_eq!(diags[0].msg, b"integer overflow".to_vec());
}

#[test]
fn lexer_recovers_after_an_error() {
    let (l, diags) = vea::lex("@ let".as_bytes());
    assert_eq!(diags.len(), 1);
    let toks = l.unwrap().toks;
    assert_eq!(toks.len(), 2);
    assert_eq!(toks[1].0, vea::token::Token::Let);
}

#[test]
fn keywords_win_only_on_exact_matches() {
    let (l, diags) = vea::lex("lettuce let".as_bytes());
    assert!(diags.is_empty());
    let toks = l.unwrap().toks;
    assert_eq!(toks.len(), 2);
    assert!(matches!(toks[0].0, vea::token::Token::Ident(_)));
    assert_eq!(toks[1].0, vea::token::Token::Let);
}

#[test]
fn comments_and_whitespace_are_discarded() {
    assert_eq!(run_ok("// nothing here\nlet x = 1; // tail\nprint(x);"), "1");
}

#[test]
fn chained_sums_need_parentheses() {
    let (l, _) = vea::lex("let x = 1 + 2 + 3;".as_bytes());
    let (ast, pdiags) = vea::parse(&l.unwrap());
    assert!(ast.is_none());
    assert_eq!(pdiags.len(), 1);
    assert_eq!(run_ok("let x = (1 + 2) + 3; print(x);"), "6");
}

#[test]
fn token_text_renders_tokens() {
    let (l, _) = vea::lex("let x 'ab' 42".as_bytes());
    let l = l.unwrap();
    let texts: Vec<Vec<u8>> = l.toks.iter().map(|t| vea::token::token_text(&t.0, &l.syms)).collect();
    assert_eq!(texts[0], b"let".to_vec());
    assert_eq!(texts[1], b"x".to_vec());
    assert_eq!(texts[2], b"'ab'".to_vec());
    assert_eq!(texts[3], b"42".to_vec());
}

#[test]
fn disp_reconstructs_statements() {
    let (l, _) = vea::lex("let x = (1 + 2) + 3;".as_bytes());
    let (ast, _) = vea::parse(&l.unwrap());
    let ast = ast.unwrap();
    let stmt = ast.stmts[0];
    assert_eq!(vea::display::disp(&ast, stmt), b"let x = (1 + 2) + 3;".to_vec());

    let (l2, _) = vea::lex("if (true) { print(1); }".as_bytes());
    let (ast2, _) = vea::parse(&l2.unwrap());
    let ast2 = ast2.unwrap();
    let stmt2 = ast2.stmts[0];
    assert_eq!(
        vea::display::disp(&ast2, stmt2),
        b"if (true) {\n\tprint(1);\n}".to_vec()
    );
}

#[test]
fn later_object_entry_overwrites_equal_key() {
    assert_eq!(run_ok("let o = struct { let a = 1; let a = 2; }; print(o['a']);"), "2");
}

#[test]
fn largest_integer_literal_round_trips() {
    assert_eq!(run_ok("print(9223372036854775807);"), "9223372036854775807");
}

#[test]
fn too_many_arguments_fail() {
    let d = run_err("fn sum(a, b) { return a + b; } sum(1, 2, 3);");
    assert_eq!(d.msg, b"fn `sum` expected 2 arguments but got 3".to_vec());
}

#[test]
fn else_if_chains() {
    assert_eq!(
        run_ok("if (false) { print(1); } else if (true) { print(2); } else { print(3); }"),
        "2"
    );
}

#[test]
fn empty_set_literal_prints_empty_braces() {
    assert_eq!(run_ok("print(set {  });"), "set {  }");
}

#[test]
fn function_redeclaration_fails() {
    let d = run_err("fn f() { return 1; } fn f() { return 2; }");
    assert_eq!(d.msg, b"variable `f` already exists".to_vec());
}

#[test]
fn closures_see_the_callers_scope() {
    assert_eq!(run_ok("fn f() { return x; } let x = 5; print(f());"), "5");
}

#[test]
fn function_values_render_with_their_arity() {
    assert_eq!(run_ok("fn g(a, b) { return a; } print(g);"), "fn g(2)");
}
