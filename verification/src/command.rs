//! Invocations of the external tools, and how their exit is judged.

use crate::error::ExternalToolError;
use crate::text::optional_text;
use crate::text::texts;
use vstd::prelude::*;

verus! {

/// One run of an external tool: the program, its arguments in order, and the
/// directory to run it in, if it is not the current one.
#[derive(Clone, Debug, PartialEq, Eq)]
pub struct Invocation {
    pub program: String,
    pub args: Vec<String>,
    pub current_dir: Option<String>,
}

/// What an `Invocation` says, as text.
pub struct InvocationView {
    pub program: Seq<char>,
    pub args: Seq<Seq<char>>,
    pub current_dir: Option<Seq<char>>,
}

impl View for Invocation {
    type V = InvocationView;

    open spec fn view(&self) -> InvocationView {
        InvocationView {
            program: self.program@,
            args: texts(self.args@),
            current_dir: optional_text(self.current_dir),
        }
    }
}

/// The verdict on an exit code; `None` stands for a tool that a signal ended.
pub open spec fn exit_verdict(code: Option<i32>) -> Result<(), ExternalToolError> {
    match code {
        Some(c) => if c == 0 {
            Ok(())
        } else {
            Err(ExternalToolError::NonZeroExit(c))
        },
        None => Err(ExternalToolError::Signaled),
    }
}

/// Judges how an external tool ended: only the exit code zero is a success.
pub fn check_exit(code: Option<i32>) -> (r: Result<(), ExternalToolError>)
    ensures
        r == exit_verdict(code),
{
    match code {
        Some(c) => if c == 0 {
            Ok(())
        } else {
            Err(ExternalToolError::NonZeroExit(c))
        },
        None => Err(ExternalToolError::Signaled),
    }
}

} // verus!
