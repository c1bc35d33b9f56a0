//! Validation of the command line: a bind address followed by a command.
use vstd::prelude::*;

verus! {

/// Why an invocation was refused.
#[derive(Debug, Clone, Copy, PartialEq, Eq, Structural)]
pub enum ArgError {
    /// Fewer than two arguments: an address and at least one command token.
    Usage,
    /// A command token holds a NUL byte and cannot be handed to exec.
    NulByte,
}

/// A validated invocation: the address text and the command tokens, verbatim.
#[derive(Debug, Clone)]
pub struct Invocation {
    pub address: Vec<u8>,
    pub command: Vec<Vec<u8>>,
}

pub open spec fn has_nul(t: Seq<u8>) -> bool {
    exists|i: int| 0 <= i < t.len() && t[i] == 0u8
}

/// Some command token (every argument after the first) holds a NUL byte.
pub open spec fn command_has_nul(args: Seq<Vec<u8>>) -> bool {
    exists|k: int| 1 <= k < args.len() && has_nul(#[trigger] args[k]@)
}

/// Whether the token holds a NUL byte.
pub fn contains_nul(t: &Vec<u8>) -> (r: bool)
    ensures
        r == has_nul(t@),
{
    let mut i: usize = 0;
    while i < t.len()
        invariant
            i <= t.len(),
            forall|j: int| 0 <= j < i ==> t@[j] != 0u8,
        decreases t.len() - i,
    {
        if t[i] == 0u8 {
            return true;
        }
        i = i + 1;
    }
    false
}

/// Splits the arguments (program name excluded) into the address and the
/// command. Fails with `Usage` when fewer than two are given, and otherwise
/// with `NulByte` when a command token holds a NUL byte.
pub fn parse_invocation(args: &Vec<Vec<u8>>) -> (r: Result<Invocation, ArgError>)
    ensures
        args@.len() < 2 <==> r == Err::<Invocation, ArgError>(ArgError::Usage),
        (args@.len() >= 2 && command_has_nul(args@)) <==> r == Err::<Invocation, ArgError>(
            ArgError::NulByte,
        ),
        r is Ok ==> {
            &&& r->Ok_0.address@ == args@[0]@
            &&& r->Ok_0.command@.len() == args@.len() - 1
            &&& forall|k: int|
                0 <= k < r->Ok_0.command@.len() ==> #[trigger] r->Ok_0.command@[k]@ == args@[k
                    + 1]@
        },
{
    if args.len() < 2 {
        return Err(ArgError::Usage);
    }
    let mut command: Vec<Vec<u8>> = Vec::new();
    let mut k: usize = 1;
    while k < args.len()
        invariant
            1 <= k <= args.len(),
            command@.len() == k - 1,
            forall|j: int| 1 <= j < k ==> !has_nul(#[trigger] args@[j]@),
            forall|j: int| 0 <= j < command@.len() ==> #[trigger] command@[j]@ == args@[j + 1]@,
        decreases args.len() - k,
    {
        if contains_nul(&args[k]) {
            return Err(ArgError::NulByte);
        }
        command.push(args[k].clone());
        k = k + 1;
    }
    Ok(Invocation { address: args[0].clone(), command })
}

} // verus!
