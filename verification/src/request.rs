//! The invocation request: an ordered, fixed-arity list of string parameters,
//! and the fixed configuration of the external command (interpreter and
//! script path).

use vstd::prelude::*;
use vstd::string::StringExecFns;

verus! {

/// One invocation request: exactly eight string parameters, interpreted by
/// the external script by position. Order is significant; no parameter is
/// validated, renamed or reordered here.
pub struct ScriptParams {
    pub param1: String,
    pub param2: String,
    pub param3: String,
    pub param4: String,
    pub param5: String,
    pub param6: String,
    pub param7: String,
    pub param8: String,
}

impl View for ScriptParams {
    type V = Seq<Seq<char>>;

    /// The parameters as a sequence of character strings, in positional order.
    open spec fn view(&self) -> Seq<Seq<char>> {
        seq![
            self.param1@,
            self.param2@,
            self.param3@,
            self.param4@,
            self.param5@,
            self.param6@,
            self.param7@,
            self.param8@,
        ]
    }
}

/// The number of parameters the external script expects.
pub const ARITY: usize = 8;

impl ScriptParams {
    /// The parameters as separate argument tokens, in exactly the order they
    /// were received: no concatenation, no reordering.
    pub fn to_args(&self) -> (args: Vec<String>)
        ensures
            args@.len() == ARITY,
            forall|i: int| 0 <= i < ARITY ==> (#[trigger] args@[i])@ == self@[i],
    {
        let mut args: Vec<String> = Vec::new();
        args.push(self.param1.clone());
        args.push(self.param2.clone());
        args.push(self.param3.clone());
        args.push(self.param4.clone());
        args.push(self.param5.clone());
        args.push(self.param6.clone());
        args.push(self.param7.clone());
        args.push(self.param8.clone());
        args
    }

    /// The full argument list for the interpreter: the script path as the
    /// first token, followed by each parameter, in order, as its own token.
    pub fn script_argv(&self) -> (argv: Vec<String>)
        ensures
            argv@.len() == ARITY + 1,
            argv@[0]@ == "python/geopy.py"@,
            forall|i: int| 1 <= i <= ARITY ==> (#[trigger] argv@[i])@ == self@[i - 1],
    {
        let mut argv: Vec<String> = Vec::new();
        argv.push(script_path());
        argv.push(self.param1.clone());
        argv.push(self.param2.clone());
        argv.push(self.param3.clone());
        argv.push(self.param4.clone());
        argv.push(self.param5.clone());
        argv.push(self.param6.clone());
        argv.push(self.param7.clone());
        argv.push(self.param8.clone());
        argv
    }
}

/// The interpreter that runs the external script: a fixed, process-wide
/// constant, read-only after deployment.
pub fn interpreter() -> (name: String)
    ensures
        name@ == "python3"@,
{
    String::from_str("python3")
}

/// The path of the external script, handed to the interpreter as its first
/// argument: a fixed, process-wide constant.
pub fn script_path() -> (path: String)
    ensures
        path@ == "python/geopy.py"@,
{
    String::from_str("python/geopy.py")
}

} // verus!
