use esb_fireplace::AoCPart;
use esb_fireplace::Either;
use esb_fireplace::FireplaceArgs;
use esb_fireplace::FireplaceError;
use esb_fireplace::FireplaceResult;
use esb_fireplace::FixedInput;
use esb_fireplace::Render;

fn solve_pt1(input_data: &str, args: Vec<String>) -> FireplaceResult<String> {
    Ok(match args.len() {
        0 => input_data.trim().into(),
        _ => args.join(" "),
    })
}

const PT2_RETURN: &str = "2";

fn solve_pt2(_input_data: &str, _args: Vec<String>) -> FireplaceResult<String> {
    Ok(PT2_RETURN.into())
}

fn test_input_reader() -> FixedInput {
    FixedInput { data: "sample input".into() }
}

fn test_runner(fp_args: FireplaceArgs) -> FireplaceResult<Either<String, String>> {
    esb_fireplace::run(solve_pt1, solve_pt2, test_input_reader(), fp_args)
}

// Fails with an error type unrelated to the other solver's error type.
fn failing_aoc_function(_input: &str, _args: Vec<String>) -> Result<String, &'static str> {
    Err("unrelated failure")
}

#[test]
fn test_calls_solve_pt1() {
    let fp_args = FireplaceArgs { part: AoCPart::Pt1, args: vec![] };
    let answer = test_runner(fp_args).unwrap();
    let expected = "sample input";
    assert_eq!(answer.render(), expected);
}

#[test]
fn test_calls_solve_pt1_with_args() {
    let fp_args = FireplaceArgs { part: AoCPart::Pt1, args: vec!["a".into(), "b".into(), "c".into()] };
    let answer = test_runner(fp_args).unwrap();
    let expected = "a b c";
    assert_eq!(answer.render(), expected);
}

#[test]
fn test_calls_solve_pt2() {
    let fp_args = FireplaceArgs { part: AoCPart::Pt2, args: vec![] };
    let answer = test_runner(fp_args).unwrap();
    assert_eq!(answer.render(), PT2_RETURN);
}

// Check if the error is converted to a FireplaceError::FromUser
#[test]
fn test_error_conversion() {
    let fp_args = FireplaceArgs { part: AoCPart::Pt1, args: vec![] };
    let result = esb_fireplace::run(failing_aoc_function, solve_pt2, test_input_reader(), fp_args);
    let Err(e) = result else {
        panic!("Expected an error");
    };
    assert!(matches!(e, FireplaceError::FromUser(_)));
}
