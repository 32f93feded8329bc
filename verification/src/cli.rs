//! Command-line argument handling: the two positional block numbers.

use vstd::prelude::*;
use vstd::string::StringExecFns;
use crate::digits::spec_parse_dec_text;
use crate::digits::parse_dec_u64;
use crate::range::BlockRange;

verus! {

/// Why the two positional arguments do not form a range.
#[derive(Clone, Copy, Debug, PartialEq, Eq, Structural)]
pub enum ArgError {
    /// The start argument is not a decimal 64-bit number.
    BadStart,
    /// The end argument is not a decimal 64-bit number.
    BadEnd,
    /// Both parse, but the start exceeds the end.
    ReversedRange,
}

/// Parses the two positional arguments into the block range, rejecting a
/// non-numeric argument and a reversed pair.
pub fn parse_range_args(start_arg: &str, end_arg: &str) -> (r: Result<BlockRange, ArgError>)
    ensures
        spec_parse_dec_text(start_arg@) is None ==> r == Err::<BlockRange, ArgError>(
            ArgError::BadStart,
        ),
        spec_parse_dec_text(start_arg@) is Some && spec_parse_dec_text(end_arg@) is None ==> r
            == Err::<BlockRange, ArgError>(ArgError::BadEnd),
        ({
            let ps = spec_parse_dec_text(start_arg@);
            let pe = spec_parse_dec_text(end_arg@);
            ps is Some && pe is Some ==> if ps->Some_0 <= pe->Some_0 {
                r == Ok::<BlockRange, ArgError>(
                    BlockRange { start: ps->Some_0, end: pe->Some_0 },
                ) && r->Ok_0.wf()
            } else {
                r == Err::<BlockRange, ArgError>(ArgError::ReversedRange)
            }
        }),
{
    let start = match parse_dec_u64(start_arg) {
        Some(v) => v,
        None => {
            return Err(ArgError::BadStart);
        },
    };
    let end = match parse_dec_u64(end_arg) {
        Some(v) => v,
        None => {
            return Err(ArgError::BadEnd);
        },
    };
    match BlockRange::new(start, end) {
        Some(range) => Ok(range),
        None => Err(ArgError::ReversedRange),
    }
}

/// The usage line printed when the two arguments are missing.
pub fn usage_line(program: &str) -> (s: String)
    ensures
        s@ == ("Usage: ")@ + program@ + (" <start_block> <end_block>")@,
{
    let mut s = String::from_str("Usage: ");
    s.append(program);
    s.append(" <start_block> <end_block>");
    proof {
        assert(s@ =~= ("Usage: ")@ + program@ + (" <start_block> <end_block>")@);
    }
    s
}

} // verus!
