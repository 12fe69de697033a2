//! Command vectors and the `HOST` / `PORT` token substitution performed
//! before a reverse-mode child is spawned.

use vstd::prelude::*;
use vstd::string::StringExecFns;
use crate::numeral::{decimal, lemma_decimal_digits, u16_decimal};

verus! {

/// What one argument becomes under token substitution: the literal token
/// `HOST` turns into `localhost`, the literal token `PORT` turns into the
/// decimal numeral of the callback port, and every other argument passes
/// through unchanged.
pub open spec fn subst_token(arg: Seq<char>, port: int) -> Seq<char> {
    if arg == "HOST"@ {
        "localhost"@
    } else if arg == "PORT"@ {
        decimal(port)
    } else {
        arg
    }
}

/// Substitutes the addressing tokens in an argument list, element by element.
pub fn substitute_args(args: &Vec<String>, port: u16) -> (r: Vec<String>)
    ensures
        r@.len() == args@.len(),
        forall|i: int| 0 <= i < args@.len() ==> #[trigger] r@[i]@ == subst_token(args@[i]@, port as int),
{
    let host_tok = String::from_str("HOST");
    let port_tok = String::from_str("PORT");
    let localhost = String::from_str("localhost");
    let port_str = u16_decimal(port);
    let mut out: Vec<String> = Vec::new();
    let mut i: usize = 0;
    while i < args.len()
        invariant
            i <= args@.len(),
            out@.len() == i,
            host_tok@ == "HOST"@,
            port_tok@ == "PORT"@,
            localhost@ == "localhost"@,
            port_str@ == decimal(port as int),
            forall|j: int| 0 <= j < i ==> #[trigger] out@[j]@ == subst_token(args@[j]@, port as int),
        decreases args@.len() - i,
    {
        let a = &args[i];
        if *a == host_tok {
            out.push(localhost.clone());
        } else if *a == port_tok {
            out.push(port_str.clone());
        } else {
            out.push(a.clone());
        }
        i += 1;
    }
    out
}

/// No residual token survives substitution: whatever the argument was, the
/// substituted form is neither the literal `HOST` nor the literal `PORT`.
pub proof fn lemma_substitution_complete(arg: Seq<char>, port: int)
    requires
        0 < port <= 65535,
    ensures
        subst_token(arg, port) != "HOST"@,
        subst_token(arg, port) != "PORT"@,
{
    reveal_strlit("HOST");
    reveal_strlit("PORT");
    reveal_strlit("localhost");
    lemma_decimal_digits(port);
    assert("HOST"@.len() == 4 && "HOST"@[0] == 'H');
    assert("PORT"@.len() == 4 && "PORT"@[0] == 'P');
    assert("localhost"@.len() == 9);
    assert("HOST"@ != "PORT"@);
    if arg == "HOST"@ {
        assert(subst_token(arg, port) == "localhost"@);
    } else if arg == "PORT"@ {
        assert(subst_token(arg, port) == decimal(port));
        assert('0' <= decimal(port)[0] && decimal(port)[0] <= '9');
        assert(decimal(port) != "HOST"@);
        assert(decimal(port) != "PORT"@);
    }
}

/// No argument of a substituted argument list is a residual `HOST` or `PORT`
/// token, for every occurrence of the tokens in the original list.
pub proof fn lemma_no_residual_tokens(args: Seq<Seq<char>>, port: int, out: Seq<Seq<char>>)
    requires
        0 < port <= 65535,
        out.len() == args.len(),
        forall|i: int| 0 <= i < args.len() ==> #[trigger] out[i] == subst_token(args[i], port),
    ensures
        forall|i: int| 0 <= i < out.len() ==> #[trigger] out[i] != "HOST"@ && out[i] != "PORT"@,
{
    assert forall|i: int| 0 <= i < out.len() implies #[trigger] out[i] != "HOST"@ && out[i]
        != "PORT"@ by {
        lemma_substitution_complete(args[i], port);
    }
}

/// A parsed command template: the program to run and its literal arguments.
/// A command vector is non-empty by construction; its first word is the
/// program.
#[derive(Clone)]
pub struct CommandLine {
    pub program: String,
    pub args: Vec<String>,
}

impl CommandLine {
    /// Builds a command template from a vector of words. Returns `None`
    /// exactly when the vector is empty; otherwise the first word is the
    /// program and the rest are its arguments.
    pub fn from_words(words: &Vec<String>) -> (r: Option<CommandLine>)
        ensures
            r is None <==> words@.len() == 0,
            r is Some ==> {
                &&& r->Some_0.program@ == words@[0]@
                &&& r->Some_0.args@.len() == words@.len() - 1
                &&& forall|i: int|
                    0 <= i < words@.len() - 1 ==> #[trigger] r->Some_0.args@[i]@ == words@[
                        i + 1
                    ]@
            },
    {
        if words.len() == 0 {
            return None;
        }
        let program = words[0].clone();
        let mut args: Vec<String> = Vec::new();
        let mut i: usize = 1;
        while i < words.len()
            invariant
                1 <= i <= words@.len(),
                args@.len() == i - 1,
                forall|j: int| 0 <= j < i - 1 ==> #[trigger] args@[j]@ == words@[j + 1]@,
            decreases words@.len() - i,
        {
            args.push(words[i].clone());
            i += 1;
        }
        Some(CommandLine { program, args })
    }

    /// The argument list a reverse-mode child is spawned with: the template's
    /// arguments with every `HOST` / `PORT` token substituted for the chosen
    /// callback port. The port must already be resolved (an OS-assigned
    /// ephemeral port is never 0).
    pub fn callback_args(&self, port: u16) -> (r: Vec<String>)
        requires
            port >= 1,
        ensures
            r@.len() == self.args@.len(),
            forall|i: int|
                0 <= i < self.args@.len() ==> #[trigger] r@[i]@ == subst_token(
                    self.args@[i]@,
                    port as int,
                ),
            forall|i: int| 0 <= i < r@.len() ==> #[trigger] r@[i]@ != "HOST"@ && r@[i]@ != "PORT"@,
    {
        let r = substitute_args(&self.args, port);
        proof {
            assert forall|i: int| 0 <= i < r@.len() implies #[trigger] r@[i]@ != "HOST"@ && r@[i]@
                != "PORT"@ by {
                lemma_substitution_complete(self.args@[i]@, port as int);
            }
        }
        r
    }
}

} // verus!
