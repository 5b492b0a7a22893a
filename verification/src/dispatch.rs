//! The dispatcher: exclusive selection and invocation of one solver.

use vstd::prelude::*;

use crate::args::FireplaceArgs;
use crate::error::FireplaceError;
use crate::error::FireplaceResult;
use crate::input::InputReader;
use crate::part::AoCPart;
use crate::render::Render;

verus! {

/// Contains the solution for pt1 or for pt2.
///
/// The two solvers keep their own, independent answer types; this tagged
/// union lets a caller still discriminate which part ran.
pub enum Either<T, U> {
    Part1(T),
    Part2(U),
}

impl<T: Render, U: Render> Render for Either<T, U> {
    open spec fn render_spec(&self) -> Seq<char> {
        match self {
            Either::Part1(t) => t.render_spec(),
            Either::Part2(u) => u.render_spec(),
        }
    }

    fn render(&self) -> (s: String)
        ensures
            s@ == self.render_spec(),
    {
        match self {
            Either::Part1(t) => t.render(),
            Either::Part2(u) => u.render(),
        }
    }
}

/// Invokes exactly one of the two solvers on input text that has already
/// been loaded, selected by the request's part, forwarding the request's
/// argument bundle verbatim.
///
/// A successful answer is tagged with the part that produced it, and only
/// the selected part's tag can appear. A failure of the invoked solver is
/// unified, whatever the solver's own error type: the result is then
/// `FromUser` carrying exactly that error's textual form. No other error
/// kind can come out of a dispatch.
pub fn dispatch<T, U, E1, E2, F1, F2>(
    solve_pt1: F1,
    solve_pt2: F2,
    input_data: &str,
    fp_args: FireplaceArgs,
) -> (r: FireplaceResult<Either<T, U>>) where
    E1: Render,
    E2: Render,
    F1: Fn(&str, Vec<String>) -> Result<T, E1>,
    F2: Fn(&str, Vec<String>) -> Result<U, E2>,

    requires
        fp_args.part == AoCPart::Pt1 ==> call_requires(solve_pt1, (input_data, fp_args.args)),
        fp_args.part == AoCPart::Pt2 ==> call_requires(solve_pt2, (input_data, fp_args.args)),
    ensures
        (match r {
            Ok(outcome) => match outcome {
                Either::Part1(t) => fp_args.part == AoCPart::Pt1 && call_ensures(
                    solve_pt1,
                    (input_data, fp_args.args),
                    Ok::<T, E1>(t),
                ),
                Either::Part2(u) => fp_args.part == AoCPart::Pt2 && call_ensures(
                    solve_pt2,
                    (input_data, fp_args.args),
                    Ok::<U, E2>(u),
                ),
            },
            Err(e) => match e {
                FireplaceError::FromUser(d) => {
                    ||| (fp_args.part == AoCPart::Pt1 && exists|err: E1|
                        #[trigger] call_ensures(solve_pt1, (input_data, fp_args.args), Err::<T, E1>(err))
                        && d@ == err.render_spec())
                    ||| (fp_args.part == AoCPart::Pt2 && exists|err: E2|
                        #[trigger] call_ensures(solve_pt2, (input_data, fp_args.args), Err::<U, E2>(err))
                        && d@ == err.render_spec())
                },
                _ => false,
            },
        }),
{
    let FireplaceArgs { part, args } = fp_args;
    match part {
        AoCPart::Pt1 => match solve_pt1(input_data, args) {
            Ok(t) => Ok(Either::Part1(t)),
            Err(e) => Err(FireplaceError::FromUser(e.render())),
        },
        AoCPart::Pt2 => match solve_pt2(input_data, args) {
            Ok(u) => Ok(Either::Part2(u)),
            Err(e) => Err(FireplaceError::FromUser(e.render())),
        },
    }
}

/// Runs the solution functions: loads the input from the given source,
/// then dispatches to exactly one of the two solvers.
///
/// On a load failure the source's I/O error is propagated unchanged and no
/// solver's result can appear; that is the only way an I/O error comes out.
/// Otherwise the outcome is a dispatch on some text the source could load:
/// an answer tagged with the selected part, or the invoked solver's own
/// failure unified into `FromUser` with its textual form. The selector
/// validation errors never come out of a run.
pub fn run<T, U, E1, E2, F1, F2, R>(
    solve_pt1: F1,
    solve_pt2: F2,
    mut input_reader: R,
    fp_args: FireplaceArgs,
) -> (r: FireplaceResult<Either<T, U>>) where
    E1: Render,
    E2: Render,
    F1: Fn(&str, Vec<String>) -> Result<T, E1>,
    F2: Fn(&str, Vec<String>) -> Result<U, E2>,
    R: InputReader,

    requires
        fp_args.part == AoCPart::Pt1 ==> forall|input: &str|
            input_reader.loads(Ok(input@)) ==> call_requires(solve_pt1, (input, fp_args.args)),
        fp_args.part == AoCPart::Pt2 ==> forall|input: &str|
            input_reader.loads(Ok(input@)) ==> call_requires(solve_pt2, (input, fp_args.args)),
    ensures
        (match r {
            Ok(outcome) => match outcome {
                Either::Part1(t) => fp_args.part == AoCPart::Pt1 && exists|input: &str|
                    #[trigger] call_ensures(solve_pt1, (input, fp_args.args), Ok::<T, E1>(t))
                    && input_reader.loads(Ok(input@)),
                Either::Part2(u) => fp_args.part == AoCPart::Pt2 && exists|input: &str|
                    #[trigger] call_ensures(solve_pt2, (input, fp_args.args), Ok::<U, E2>(u))
                    && input_reader.loads(Ok(input@)),
            },
            Err(e) => match e {
                FireplaceError::IO(m) => input_reader.loads(Err(FireplaceError::IO(m))),
                FireplaceError::FromUser(d) => {
                    ||| (fp_args.part == AoCPart::Pt1 && exists|input: &str, err: E1|
                        #[trigger] call_ensures(solve_pt1, (input, fp_args.args), Err::<T, E1>(err))
                        && input_reader.loads(Ok(input@))
                        && d@ == err.render_spec())
                    ||| (fp_args.part == AoCPart::Pt2 && exists|input: &str, err: E2|
                        #[trigger] call_ensures(solve_pt2, (input, fp_args.args), Err::<U, E2>(err))
                        && input_reader.loads(Ok(input@))
                        && d@ == err.render_spec())
                },
                _ => false,
            },
        }),
{
    let input_data = match input_reader.load_fireplace_input() {
        Ok(s) => s,
        Err(e) => {
            return Err(e);
        },
    };
    dispatch(solve_pt1, solve_pt2, input_data.as_str(), fp_args)
}

} // verus!
