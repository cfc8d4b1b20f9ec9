use sava_chain::ast::{Program, SyntaxError};
use sava_chain::parser::parse;

fn parse_ok(source: &str) -> Program {
    match parse(source) {
        Ok(p) => p,
        Err(e) => panic!("expected a program, got error at {} expecting {}", e.position, e.expected),
    }
}

fn parse_err(source: &str) -> SyntaxError {
    match parse(source) {
        Ok(_) => panic!("expected a syntax error"),
        Err(e) => e,
    }
}

#[test]
fn empty_text_is_an_empty_program() {
    let p = parse_ok("");
    assert_eq!(p.chains.len(), 0);
}

#[test]
fn chain_fields_are_recorded() {
    let source = "(User, ValidationError) => ValidateUser: [(extract_name, write_name, NameNotEmpty), (extract_age, write_age, AgeInRange)]";
    let p = parse_ok(source);
    assert_eq!(p.chains.len(), 1);
    let c = &p.chains[0];
    assert_eq!(c.subject_type, "User");
    assert_eq!(c.error_type, "ValidationError");
    assert_eq!(c.error_pos, source.find("ValidationError").unwrap());
    assert_eq!(c.name, "ValidateUser");
    assert_eq!(c.steps.len(), 2);
    assert_eq!(c.steps[0].extractor, "extract_name");
    assert_eq!(c.steps[0].combinator, "write_name");
    assert_eq!(c.steps[0].validator, "NameNotEmpty");
    assert_eq!(c.steps[1].extractor, "extract_age");
    assert_eq!(c.steps[1].combinator, "write_age");
    assert_eq!(c.steps[1].validator, "AgeInRange");
}

#[test]
fn whitespace_between_tokens_is_ignored() {
    let source = "(\tUser ,\n  ValidationError )\r\n=>  ValidateUser\n:\t[ ]";
    let p = parse_ok(source);
    assert_eq!(p.chains.len(), 1);
    assert_eq!(p.chains[0].name, "ValidateUser");
    assert_eq!(p.chains[0].steps.len(), 0);
}

#[test]
fn identifiers_may_hold_underscores_and_digits() {
    let source = "(_User2, Error_3) => V_4: [(get_1, put_2, Check_3)]";
    let p = parse_ok(source);
    assert_eq!(p.chains[0].subject_type, "_User2");
    assert_eq!(p.chains[0].error_type, "Error_3");
    assert_eq!(p.chains[0].steps[0].validator, "Check_3");
}

#[test]
fn input_not_starting_a_chain_is_rejected() {
    let e = parse_err(":[]");
    assert_eq!(e.expected, "(");
    assert_eq!(e.position, 0);
}

#[test]
fn truncated_header_fails_at_end_of_input() {
    let source = "(User";
    let e = parse_err(source);
    assert_eq!(e.expected, ",");
    assert_eq!(e.position, source.len());
}

#[test]
fn missing_arrow_is_reported() {
    let source = "(User, ValidationError) ValidateUser: []";
    let e = parse_err(source);
    assert_eq!(e.expected, "=>");
    assert_eq!(e.position, source.find("ValidateUser").unwrap());
}

#[test]
fn missing_colon_is_reported_at_end_of_input() {
    let source = "(User, ValidationError) => ValidateUser";
    let e = parse_err(source);
    assert_eq!(e.expected, ":");
    assert_eq!(e.position, source.len());
}

#[test]
fn missing_bracket_is_reported() {
    let source = "(User, ValidationError) => ValidateUser: (e,c,V)";
    let e = parse_err(source);
    assert_eq!(e.expected, "[");
    assert_eq!(e.position, source.find("(e,c,V").unwrap());
}

#[test]
fn unclosed_bracket_fails_at_end_of_input() {
    let source = "(User, ValidationError) => ValidateUser: [";
    let e = parse_err(source);
    assert_eq!(e.expected, "( or ]");
    assert_eq!(e.position, source.len());
}

#[test]
fn step_with_two_components_is_rejected() {
    let source = "(User, ValidationError) => ValidateUser: [(e,c)]";
    let e = parse_err(source);
    assert_eq!(e.expected, ",");
    assert_eq!(e.position, source.rfind(")]").unwrap());
}

#[test]
fn step_component_must_be_an_identifier() {
    let source = "(User, ValidationError) => ValidateUser: [(e,,V)]";
    let e = parse_err(source);
    assert_eq!(e.expected, "identifier");
    assert_eq!(e.position, source.find(",,").unwrap() + 1);
}

#[test]
fn trailing_comma_after_chain_parses() {
    let p = parse_ok("(A, E) => First: [],");
    assert_eq!(p.chains.len(), 1);
}

#[test]
fn two_chains_parse_in_order() {
    let p = parse_ok("(A, E) => First: [], (B, F) => Second: [(e, c, V)]");
    assert_eq!(p.chains.len(), 2);
    assert_eq!(p.chains[0].name, "First");
    assert_eq!(p.chains[1].name, "Second");
    assert_eq!(p.chains[1].steps.len(), 1);
}

#[test]
fn parsing_is_all_or_nothing() {
    let source = "(A, E) => First: [], (B, F) => Second: [(e, c]";
    assert!(parse(source).is_err());
}

#[test]
fn step_must_start_with_a_parenthesis() {
    let source = "(User, ValidationError) => ValidateUser: [x]";
    let e = parse_err(source);
    assert_eq!(e.expected, "(");
    assert_eq!(e.position, source.find('x').unwrap());
}

#[test]
fn chain_header_must_close_with_a_parenthesis() {
    let source = "(User, ValidationError, Extra) => V: []";
    let e = parse_err(source);
    assert_eq!(e.expected, ")");
    assert_eq!(e.position, source.find(", Extra").unwrap());
}

#[test]
fn equals_alone_is_no_token() {
    let source = "(User, ValidationError) = ValidateUser: []";
    let e = parse_err(source);
    assert_eq!(e.expected, "a token");
    assert_eq!(e.position, source.find('=').unwrap());
}
