use pathfinder_gl::device::{GLDevice, GLVersion};
use pathfinder_gl::template::{check_template, TemplateError};

fn expand(source: &[u8], version: &str) -> Vec<u8> {
    let device = GLDevice::new(GLVersion::GL3, 0);
    assert_eq!(check_template(source), Ok(()));
    let mut output = Vec::new();
    device.preprocess(&mut output, source, version);
    output
}

#[test]
fn version_variable_is_replaced() {
    assert_eq!(expand(b"#version {{version}}\nvoid main() {}\n", "330"), b"#version 330\nvoid main() {}\n".to_vec());
}

#[test]
fn every_version_variable_is_replaced() {
    assert_eq!(expand(b"{{version}}-{{version}}", "300 es"), b"300 es-300 es".to_vec());
}

#[test]
fn text_without_variables_is_copied() {
    let source = b"void main() { if (a) { b(); } }";
    assert_eq!(expand(source, "330"), source.to_vec());
}

#[test]
fn single_braces_are_copied() {
    assert_eq!(expand(b"{ }}{", "330"), b"{ }}{".to_vec());
}

#[test]
fn empty_template_expands_to_nothing() {
    assert_eq!(expand(b"", "330"), Vec::<u8>::new());
}

#[test]
fn output_is_appended() {
    let device = GLDevice::new(GLVersion::GL3, 0);
    let mut output = b"// header\n".to_vec();
    device.preprocess(&mut output, b"{{version}}", "330");
    assert_eq!(output, b"// header\n330".to_vec());
}

#[test]
fn missing_closing_brace_is_reported() {
    assert_eq!(check_template(b"abc {{version"), Err(TemplateError::MissingClosingBrace));
}

#[test]
fn single_closing_brace_is_reported() {
    assert_eq!(check_template(b"{{version}"), Err(TemplateError::UnterminatedVariable { close: 9 }));
    assert_eq!(check_template(b"{{version} x"), Err(TemplateError::UnterminatedVariable { close: 9 }));
}

#[test]
fn unknown_variable_is_reported() {
    assert_eq!(check_template(b"{{versions}}"), Err(TemplateError::UnknownVariable { start: 2, end: 10 }));
    assert_eq!(check_template(b"{{}}"), Err(TemplateError::UnknownVariable { start: 2, end: 2 }));
}

#[test]
fn first_error_is_reported() {
    assert_eq!(check_template(b"{{foo}} {{version"), Err(TemplateError::UnknownVariable { start: 2, end: 5 }));
    assert_eq!(check_template(b"ab {{x}}"), Err(TemplateError::UnknownVariable { start: 5, end: 6 }));
}

#[test]
fn expanding_parts_one_after_another() {
    let a: &[u8] = b"#version {{version}}\n";
    let b: &[u8] = b"void main() {}";
    let mut whole = a.to_vec();
    whole.extend_from_slice(b);
    let mut parts = expand(a, "330");
    parts.extend(expand(b, "330"));
    assert_eq!(expand(&whole, "330"), parts);
}

#[test]
fn error_in_second_part_is_reported_at_its_place() {
    assert_eq!(check_template(b"{{x}}"), Err(TemplateError::UnknownVariable { start: 2, end: 3 }));
    assert_eq!(check_template(b"abc{{x}}"), Err(TemplateError::UnknownVariable { start: 5, end: 6 }));
}
