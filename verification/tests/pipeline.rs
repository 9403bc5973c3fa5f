use easy_error::attach::attach_context;
use easy_error::EasyError;
use easy_error::ErrorValue;

fn parse_number(content: &str) -> Result<i32, EasyError> {
    let parsed = content
        .trim()
        .parse::<i32>()
        .map_err(|e| ErrorValue::new(e.to_string()));
    attach_context(parsed, "Failed to parse a number from the file's content")
}

fn compute_square(number: i32) -> Result<i32, EasyError> {
    number.checked_mul(number).ok_or_else(|| {
        EasyError::with_context(
            ErrorValue::new(String::from("ComputationError")),
            "Failed to compute the square of the number",
        )
    })
}

#[test]
fn numeric_line_parses_and_squares() {
    // the file's single line, already read by the surrounding program
    let content = "7";
    let n = parse_number(content).unwrap();
    assert_eq!(n, 7);
    let sq = compute_square(n).unwrap();
    assert_eq!(sq, 49);
}

#[test]
fn non_numeric_line_fails_with_context() {
    let content = "abc";
    let err = parse_number(content).err().unwrap();
    assert_eq!(
        err.render(),
        "Failed to parse a number from the file's content: invalid digit found in string"
    );
}
