//! From a request to the steps of its conversion.

use crate::args::Args;
use crate::dimension::display::{failure_text, units_text};
use crate::dimension::simplify::simplified;
use crate::dimension::space_powers::space_powers;
use crate::dimension::{conversion_steps, parsed, Dimensions, Failure, ParseError, Step, Unit};
use crate::input::{request, white_flags, Input, InputError};
use crate::units::{TableView, UnitTable};
use vstd::prelude::*;

verus! {

/// Why a request is not converted.
#[derive(Debug)]
pub enum ConversionError {
    /// The text is no request.
    Input(InputError),
    /// One of the two units is refused.
    Parse(ParseError),
    /// The dimensions of the two units do not agree.
    Mismatch(Dimensions, Dimensions),
}

/// The mathematical value of a [`ConversionError`].
pub enum Refusal {
    Input(InputError),
    Parse(Failure),
    Mismatch(Seq<Unit>, Seq<Unit>),
}

/// A conversion that is ready to run.
#[derive(Debug)]
pub struct Plan {
    /// The value to convert, as it was written.
    pub value: String,
    /// The unit of the value, as it was written.
    pub from_unit: String,
    /// The unit of the result, as it was written.
    pub to_unit: String,
    /// What to do to the value, step by step.
    pub steps: Vec<Step>,
    /// How many of the steps, from the first on, lead out of the unit of
    /// the value; the others lead into the unit of the result.
    pub leaving: usize,
    /// The simplified dimensions by space, where they were asked for.
    pub dimensions: Option<String>,
    /// Whether each step is to be shown.
    pub debug: bool,
}

/// The mathematical value of a [`Plan`].
pub struct PlanView {
    pub value: Seq<char>,
    pub from_unit: Seq<char>,
    pub to_unit: Seq<char>,
    pub steps: Seq<Step>,
    pub leaving: nat,
    pub dimensions: Option<Seq<char>>,
    pub debug: bool,
}

impl View for ConversionError {
    type V = Refusal;

    open spec fn view(&self) -> Refusal {
        match self {
            ConversionError::Input(e) => Refusal::Input(*e),
            ConversionError::Parse(e) => Refusal::Parse(e@),
            ConversionError::Mismatch(from, to) => Refusal::Mismatch(from@, to@),
        }
    }
}

impl View for Plan {
    type V = PlanView;

    open spec fn view(&self) -> PlanView {
        PlanView {
            value: self.value@,
            from_unit: self.from_unit@,
            to_unit: self.to_unit@,
            steps: self.steps@,
            leaving: self.leaving as nat,
            dimensions: match self.dimensions {
                Some(text) => Some(text@),
                None => None,
            },
            debug: self.debug,
        }
    }
}

/// What becomes of a request: the first of its parts that is refused
/// decides, the unit to convert from before the unit to convert to; two
/// units whose dimensions do not agree are refused together; else the plan
/// holds the steps from the one to the other.
pub open spec fn planned(table: TableView, input: Seq<char>, debug: bool, dimensions: bool) -> Result<
    PlanView,
    Refusal,
> {
    match request(input, white_flags(input)) {
        Err(e) => Err(Refusal::Input(e)),
        Ok(parts) => match parsed(table, parts.from_unit) {
            Err(e) => Err(Refusal::Parse(e)),
            Ok(from) => match parsed(table, parts.to_unit) {
                Err(e) => Err(Refusal::Parse(e)),
                Ok(to) => if space_powers(from) == space_powers(to) {
                    Ok(
                        PlanView {
                            value: parts.value,
                            from_unit: parts.from_unit,
                            to_unit: parts.to_unit,
                            steps: conversion_steps(from, to),
                            leaving: from.len(),
                            dimensions: if dimensions {
                                Some(units_text(simplified(from), true))
                            } else {
                                None
                            },
                            debug,
                        },
                    )
                } else {
                    Err(Refusal::Mismatch(from, to))
                },
            },
        },
    }
}

/// Plans the conversion that `args` asks for.
pub fn plan(args: &Args, table: &UnitTable) -> (r: Result<Plan, ConversionError>)
    ensures
        match planned(table@, args.input@, args.debug, args.dimensions) {
            Ok(plan) => r is Ok && r->Ok_0@ == plan,
            Err(e) => r is Err && r->Err_0@ == e,
        },
{
    let inp = match Input::parse(args.input.as_str()) {
        Ok(inp) => inp,
        Err(e) => {
            return Err(ConversionError::Input(e));
        },
    };
    let from_dim = match Dimensions::parse(inp.from_unit.as_str(), table) {
        Ok(dim) => dim,
        Err(e) => {
            return Err(ConversionError::Parse(e));
        },
    };
    let to_dim = match Dimensions::parse(inp.to_unit.as_str(), table) {
        Ok(dim) => dim,
        Err(e) => {
            return Err(ConversionError::Parse(e));
        },
    };
    if !from_dim.equals(&to_dim) {
        return Err(ConversionError::Mismatch(from_dim, to_dim));
    }
    let dimensions = if args.dimensions {
        Some(from_dim.simplify().to_space_string())
    } else {
        None
    };
    let steps = from_dim.convert(&to_dim);
    let leaving = from_dim.units().len();
    Ok(
        Plan {
            value: inp.value,
            from_unit: inp.from_unit,
            to_unit: inp.to_unit,
            steps,
            leaving,
            dimensions,
            debug: args.debug,
        },
    )
}

/// Plans the conversion that the text of a request asks for, with the
/// names of the standard table, without dimensions and without showing
/// the steps.
pub fn convert(input: &str) -> (r: Result<Plan, ConversionError>)
    ensures
        match planned(UnitTable::standard_spec(), input@, false, false) {
            Ok(plan) => r is Ok && r->Ok_0@ == plan,
            Err(e) => r is Err && r->Err_0@ == e,
        },
{
    let table = UnitTable::standard();
    let args = Args { input: input.to_owned(), debug: false, dimensions: false };
    plan(&args, &table)
}

/// What a refusal says.
pub open spec fn refusal_text(refusal: Refusal) -> Seq<char> {
    match refusal {
        Refusal::Input(e) => e.message_spec(),
        Refusal::Parse(e) => failure_text(e),
        Refusal::Mismatch(from, to) => "Unit dimensions do not match. ("@ + units_text(
            simplified(from),
            true,
        ) + " vs "@ + units_text(simplified(to), true) + ")"@,
    }
}

impl ConversionError {
    /// What the refusal says. For a mismatch it names the simplified
    /// dimensions of both sides by space.
    pub fn message(&self) -> (text: String)
        ensures
            text@ == refusal_text(self@),
    {
        match self {
            ConversionError::Input(e) => e.message(),
            ConversionError::Parse(e) => e.message(),
            ConversionError::Mismatch(from, to) => {
                let mut out = "Unit dimensions do not match. (".to_owned();
                out.append(from.simplify().to_space_string().as_str());
                out.append(" vs ");
                out.append(to.simplify().to_space_string().as_str());
                out.append(")");
                out
            },
        }
    }
}

} // verus!
