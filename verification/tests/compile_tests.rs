use sava_chain::gen::compile;

fn expect_ok(source: &str) -> String {
    match compile(source) {
        Ok(t) => t,
        Err(e) => panic!("expected success, got error at {} expecting {}", e.position, e.expected),
    }
}

fn expect_err(source: &str) -> sava_chain::ast::SyntaxError {
    match compile(source) {
        Ok(t) => panic!("expected a syntax error, got output: {}", t),
        Err(e) => e,
    }
}

#[test]
fn empty_input_gives_empty_output() {
    assert_eq!(expect_ok(""), "");
    assert_eq!(expect_ok("  \n\t\r\n "), "");
}

#[test]
fn empty_steps_chain_is_identity_pipeline() {
    let out = expect_ok("(User, ValidationError) => ValidateUser: []");
    let expected = "pub struct ValidateUser;\n\
        impl ::sava_chain::ChainExec for ValidateUser {\n    \
        type Type = User;\n    \
        type Error = ValidationError;\n    \
        fn execute(input: Self::Type) -> Result<Self::Type, Self::Error> {\n\
        struct _AssertError where ValidationError: std::error::Error;\n\
        struct _AssertErrorFrom where ValidationError:;\n        \
        let mut data = input;\n        \
        Ok(data)\n    }\n}\n";
    assert_eq!(out, expected);
}

#[test]
fn missing_separator_between_steps_is_an_error() {
    let source = "(User, ValidationError) => ValidateUser: [(e,c,V1)(e,c,V2)]";
    let e = expect_err(source);
    assert_eq!(e.expected, ",");
    assert_eq!(e.position, source.find("(e,c,V2").unwrap());
}

#[test]
fn separator_comma_between_steps_parses() {
    let source = "(User, ValidationError) => ValidateUser: [(e,c,V1),(e,c,V2)]";
    let out = expect_ok(source);
    assert!(out.contains("V1::execute(extracted_field)?;"));
    assert!(out.contains("V2::execute(extracted_field)?;"));
}

#[test]
fn trailing_comma_after_last_step_parses() {
    let out = expect_ok("(User, ValidationError) => ValidateUser: [(e,c,V1),]");
    assert!(out.contains("V1::execute(extracted_field)?;"));
}

#[test]
fn compiling_twice_gives_byte_identical_output() {
    let source = "(User, ValidationError) => ValidateUser: [(extract_name, write_name, NameNotEmpty), (extract_age, write_age, AgeInRange)]";
    let a = expect_ok(source);
    let b = expect_ok(source);
    assert_eq!(a, b);
}

fn step_part(subject: &str, extractor: &str, combinator: &str, validator: &str) -> String {
    let mut out = String::new();
    out += &format!(
        "        let extractor_fn: fn(&{subject}) -> <{validator} as ::sava_chain::ChainExec>::Type = {extractor};\n"
    );
    out += &format!(
        "        let combinator_fn: fn(&mut {subject}, <{validator} as ::sava_chain::ChainExec>::Type) = {combinator};\n"
    );
    out += "        let extracted_field = extractor_fn(&data);\n";
    out += &format!("        let chain_result = {validator}::execute(extracted_field)?;\n");
    out += "        combinator_fn(&mut data, chain_result);\n";
    out
}

#[test]
fn end_to_end_two_step_chain() {
    let source = "(User, ValidationError) => ValidateUser: [(extract_name, write_name, NameNotEmpty), (extract_age, write_age, AgeInRange)]";
    let out = expect_ok(source);
    let mut expected = String::new();
    expected += "pub struct ValidateUser;\n";
    expected += "impl ::sava_chain::ChainExec for ValidateUser {\n";
    expected += "    type Type = User;\n";
    expected += "    type Error = ValidationError;\n";
    expected += "    fn execute(input: Self::Type) -> Result<Self::Type, Self::Error> {\n";
    expected += "struct _AssertError where ValidationError: std::error::Error;\n";
    expected += "struct _AssertErrorFrom where ValidationError: \
        std::convert::From<<NameNotEmpty as ::sava_chain::ChainExec>::Error> + \
        std::convert::From<<AgeInRange as ::sava_chain::ChainExec>::Error>;\n";
    expected += "        let mut data = input;\n";
    expected += &step_part("User", "extract_name", "write_name", "NameNotEmpty");
    expected += &step_part("User", "extract_age", "write_age", "AgeInRange");
    expected += "        Ok(data)\n    }\n}\n";
    assert_eq!(out, expected);
}

#[test]
fn first_failing_step_short_circuits_in_generated_order() {
    let source = "(User, ValidationError) => ValidateUser: [(extract_name, write_name, NameNotEmpty), (extract_age, write_age, AgeInRange)]";
    let out = expect_ok(source);
    let first = out.find("NameNotEmpty::execute(extracted_field)?;").unwrap();
    let second = out.find("AgeInRange::execute(extracted_field)?;").unwrap();
    assert!(first < second);
    let second_extract = out.find("= extract_age;").unwrap();
    assert!(first < second_extract);
}

#[test]
fn constraint_obligations_are_emitted() {
    let source = "(User, ValidationError) => ValidateUser: [(e, c, NameNotEmpty)]";
    let out = expect_ok(source);
    assert!(out.contains("struct _AssertError where ValidationError: std::error::Error;\n"));
    assert!(out.contains(
        "struct _AssertErrorFrom where ValidationError: \
         std::convert::From<<NameNotEmpty as ::sava_chain::ChainExec>::Error>;\n"
    ));
}

#[test]
fn no_partial_output_when_a_later_chain_is_malformed() {
    let source = "(User, ValidationError) => ValidateUser: [], (User, ValidationError) => Broken: [(e,c]";
    let e = expect_err(source);
    assert_eq!(e.expected, ",");
    assert_eq!(e.position, source.rfind(']').unwrap());
}

#[test]
fn missing_separator_between_chains_is_an_error() {
    let source = "(A, E) => First: [](A, E) => Second: []";
    let e = expect_err(source);
    assert_eq!(e.expected, ",");
    assert_eq!(e.position, source.find("(A, E) => Second").unwrap());
}

#[test]
fn comma_separated_chains_parse_and_concatenate_in_order() {
    let source = "(A, E) => First: [], (B, F) => Second: []";
    let out = expect_ok(source);
    let first = out.find("pub struct First;").unwrap();
    let second = out.find("pub struct Second;").unwrap();
    assert!(first < second);
}

#[test]
fn duplicate_chain_names_are_accepted() {
    let source = "(A, E) => Twice: [], (A, E) => Twice: []";
    let out = expect_ok(source);
    assert_eq!(out.matches("pub struct Twice;").count(), 2);
}

#[test]
fn character_that_starts_no_token_is_an_error() {
    let source = "(User, ValidationError) -> ValidateUser: []";
    let e = expect_err(source);
    assert_eq!(e.expected, "a token");
    assert_eq!(e.position, source.find('-').unwrap());
}

#[test]
fn digit_cannot_start_an_identifier() {
    let source = "(User, 9Err) => V: []";
    let e = expect_err(source);
    assert_eq!(e.expected, "a token");
    assert_eq!(e.position, source.find('9').unwrap());
}
