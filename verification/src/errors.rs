use vstd::prelude::*;

use crate::args::Arg;

verus! {

/// A typed argument error produced by a capability function when guest code
/// hands it malformed arguments. It names the callable and the shapes it
/// accepts, so the guest gets an actionable error rather than a host panic.
#[derive(Clone, Debug, PartialEq, Eq)]
pub enum ArgumentError {
    /// The arguments matched none of the accepted shapes. `found` holds the
    /// guest type label of each argument, in order.
    UnexpectedArgs { function: String, expected: String, found: Vec<String> },
    /// A string option that is not in the function's fixed allow-list.
    /// `allowed` holds the rendered allow-list.
    InvalidOption { allowed: String },
}

/// The comma-separated rendering of the found argument type labels.
pub open spec fn spec_label_list(found: Seq<Seq<char>>) -> Seq<char>
    decreases found.len(),
{
    if found.len() == 0 {
        Seq::<char>::empty()
    } else if found.len() == 1 {
        found.last()
    } else {
        spec_label_list(found.drop_last()) + ", "@ + found.last()
    }
}

/// The "found" part of an argument error message: `no args` when the call had
/// none, else the quoted list of argument type labels.
pub open spec fn spec_found_text(found: Seq<Seq<char>>) -> Seq<char> {
    if found.len() == 0 {
        "no args"@
    } else {
        "'"@ + spec_label_list(found) + "'"@
    }
}

impl ArgumentError {
    /// The full error text handed back to the guest runtime.
    pub open spec fn spec_message(self) -> Seq<char> {
        match self {
            ArgumentError::UnexpectedArgs { function, expected, found } => function@
                + " - expected "@ + expected@ + ", but found "@
                + spec_found_text(found.deep_view()) + "."@,
            ArgumentError::InvalidOption { allowed } => "The provided value must be one of the following: "@
                + allowed@,
        }
    }

    pub fn message(&self) -> (r: String)
        ensures
            r@ == self.spec_message(),
    {
        match self {
            ArgumentError::UnexpectedArgs { function, expected, found } => {
                let mut r = function.clone();
                r.append(" - expected ");
                r.append(expected.as_str());
                r.append(", but found ");
                if found.len() == 0 {
                    r.append("no args");
                } else {
                    r.append("'");
                    let mut i: usize = 0;
                    while i < found.len()
                        invariant
                            i <= found.len(),
                            r@ == function@ + " - expected "@ + expected@ + ", but found "@
                                + "'"@ + spec_label_list(found.deep_view().take(i as int)),
                        decreases found.len() - i,
                    {
                        if i > 0 {
                            r.append(", ");
                        }
                        r.append(found[i].as_str());
                        proof {
                            let labels = found.deep_view();
                            assert(labels.take(i + 1 as int).drop_last() =~= labels.take(
                                i as int,
                            ));
                            assert(labels.take(i + 1 as int).last() == labels[i as int]);
                        }
                        i = i + 1;
                    }
                    proof {
                        assert(found.deep_view().take(found.len() as int) =~= found.deep_view());
                    }
                    r.append("'");
                }
                r.append(".");
                r
            },
            ArgumentError::InvalidOption { allowed } => {
                let mut r = String::from_str("The provided value must be one of the following: ");
                r.append(allowed.as_str());
                r
            },
        }
    }
}

/// Whether `e` is the unexpected-arguments error that a capability function
/// named `function` reports for `args` when it expects `expected`.
pub open spec fn spec_is_unexpected(
    e: ArgumentError,
    function: Seq<char>,
    expected: Seq<char>,
    args: Seq<Arg>,
) -> bool {
    &&& e matches ArgumentError::UnexpectedArgs { function: f, expected: x, found }
    &&& f@ == function
    &&& x@ == expected
    &&& found.deep_view() == args.map_values(|a: Arg| a.spec_type_label())
}

/// Builds the unexpected-arguments error for a call of `function` with
/// `args`, recording each argument's guest type label.
pub fn unexpected_args(function: &str, expected: &str, args: &Vec<Arg>) -> (e: ArgumentError)
    ensures
        spec_is_unexpected(e, function@, expected@, args@),
{
    let mut found: Vec<String> = Vec::new();
    let mut i: usize = 0;
    while i < args.len()
        invariant
            i <= args.len(),
            found.len() == i,
            forall|k: int| 0 <= k < i as int ==> #[trigger] found@[k]@ == args@[k].spec_type_label(),
        decreases args.len() - i,
    {
        found.push(args[i].type_label());
        i = i + 1;
    }
    proof {
        let fdv = found.deep_view();
        let mapped = args@.map_values(|a: Arg| a.spec_type_label());
        assert forall|k: int| 0 <= k < fdv.len() implies fdv[k] == mapped[k] by {
            assert(fdv[k] == found@[k]@);
        }
        assert(fdv =~= mapped);
    }
    ArgumentError::UnexpectedArgs {
        function: String::from_str(function),
        expected: String::from_str(expected),
        found,
    }
}

} // verus!
