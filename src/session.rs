//! The decisions of one run after the query is issued: where its results go.
use vstd::prelude::*;

verus! {

/// Where the results of the query are written.
#[derive(Debug, Clone, PartialEq, Eq)]
pub enum ExportTarget {
    /// A new delimited file at this path.
    File(String),
    /// The console.
    Console,
}

/// Why the results cannot be exported as asked.
#[derive(Debug, Clone, PartialEq, Eq)]
pub enum TargetError {
    /// The output file already exists; it is left untouched.
    DestinationExists,
    /// The operator's choice is neither `csv` nor `show`.
    InvalidOption(String),
}

/// The output file of a dataset: its path with `.data-sifter-output.csv` added.
pub open spec fn output_path_of(input: Seq<char>) -> Seq<char> {
    input + ".data-sifter-output.csv"@
}

/// The path of the output file for the dataset at `input`.
pub fn output_path(input: &str) -> (r: String)
    ensures
        r@ == output_path_of(input@),
{
    let mut r = String::from_str(input);
    r.append(".data-sifter-output.csv");
    r
}

/// Decides where the results go: `csv` to a new file beside the dataset,
/// refused where that file already exists; `show` to the console; any other
/// choice is an error.
pub fn choose_target(choice: &str, input_path: &str, output_exists: bool) -> (r: Result<ExportTarget, TargetError>)
    ensures
        choice@ == "csv"@ && output_exists ==> r == Err::<ExportTarget, TargetError>(
            TargetError::DestinationExists,
        ),
        choice@ == "csv"@ && !output_exists ==> (r matches Ok(ExportTarget::File(p)) && p@
            == output_path_of(input_path@)),
        choice@ == "show"@ ==> (r matches Ok(ExportTarget::Console)),
        output_exists ==> !(r matches Ok(ExportTarget::File(_))),
        choice@ != "csv"@ && choice@ != "show"@ ==> (r matches Err(TargetError::InvalidOption(c))
            && c@ == choice@),
{
    proof {
        reveal_strlit("csv");
        reveal_strlit("show");
        assert("show"@.len() != "csv"@.len());
    }
    let given = String::from_str(choice);
    if given == String::from_str("csv") {
        if output_exists {
            Err(TargetError::DestinationExists)
        } else {
            Ok(ExportTarget::File(output_path(input_path)))
        }
    } else if given == String::from_str("show") {
        Ok(ExportTarget::Console)
    } else {
        Err(TargetError::InvalidOption(given))
    }
}

} // verus!
