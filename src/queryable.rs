//! Query answering: each inbound query is answered with the reply
//! template as it stands, or, where an evaluator is configured, with what
//! the evaluator makes of the query's key and payload. An evaluator
//! failure ends the serving loop; nothing is sent for that query.

use vstd::prelude::*;
use vstd::string::*;

verus! {

/// The program handed to the evaluator: the reply body, preceded, where a
/// package directory is given, by the lines that put it on the
/// evaluator's search path.
pub open spec fn evaluator_program(packages: Option<Seq<char>>, body: Seq<char>) -> Seq<char> {
    match packages {
        Some(p) => "import sys\nsys.path.append('"@ + p + "')\n"@ + body,
        None => body,
    }
}

/// Builds the program handed to the evaluator.
pub fn evaluator_script(packages: Option<&str>, body: &str) -> (r: String)
    ensures
        r@ == evaluator_program(
            match packages {
                Some(p) => Some(p@),
                None => None,
            },
            body@,
        ),
{
    match packages {
        Some(p) => {
            let mut s = String::from_str("import sys\nsys.path.append('");
            s.append(p);
            s.append("')\n");
            s.append(body);
            s
        },
        None => String::from_str(body),
    }
}

/// How a responder answers: with the template itself, or with what the
/// evaluator makes of the program built from it.
#[derive(Debug)]
pub struct Responder {
    pub template: String,
    pub program: Option<String>,
    pub complete: bool,
}

/// What the serving loop does next.
#[derive(Debug)]
pub enum ResponderAction {
    /// Send `body` as the one reply to the query on `key`.
    Reply { key: String, body: String },
    /// Run `program` with the query's `key` and `payload`, then hand the
    /// outcome to `on_evaluated`.
    Evaluate { key: String, payload: Vec<u8>, program: String },
    /// Stop serving: the evaluator failed with `error`.
    Abort { error: String },
}

impl Responder {
    /// A responder with the given reply template; with `evaluate` set the
    /// template is the body of the evaluator's program.
    pub fn new(template: String, complete: bool, evaluate: bool, packages: Option<&str>) -> (r:
        Responder)
        ensures
            r.template@ == template@,
            r.complete == complete,
            evaluate ==> (r.program matches Some(p) && p@ == evaluator_program(
                match packages {
                    Some(q) => Some(q@),
                    None => None,
                },
                template@,
            )),
            !evaluate ==> r.program is None,
    {
        let program = if evaluate {
            Some(evaluator_script(packages, template.as_str()))
        } else {
            None
        };
        Responder { template, program, complete }
    }

    /// The action for an inbound query on `key` with an optional payload:
    /// without an evaluator, one reply carrying the template verbatim;
    /// with one, its evaluation on the key and the payload's bytes (none
    /// where the query has no payload).
    pub fn on_query(&self, key: String, payload: Option<Vec<u8>>) -> (r: ResponderAction)
        ensures
            self.program is None ==> (r matches ResponderAction::Reply { key: k, body } && k@
                == key@ && body@ == self.template@),
            self.program matches Some(p) ==> (r matches ResponderAction::Evaluate {
                key: k,
                payload: bytes,
                program,
            } && k@ == key@ && program@ == p@ && bytes@ == match payload {
                Some(v) => v@,
                None => Seq::<u8>::empty(),
            }),
    {
        match &self.program {
            None => ResponderAction::Reply { key, body: self.template.clone() },
            Some(p) => ResponderAction::Evaluate {
                key,
                payload: match payload {
                    Some(v) => v,
                    None => Vec::new(),
                },
                program: p.clone(),
            },
        }
    }

    /// The action once the evaluator has run for the query on `key`: its
    /// result is the reply; its failure ends the loop.
    pub fn on_evaluated(&self, key: String, outcome: Result<String, String>) -> (r:
        ResponderAction)
        ensures
            outcome matches Ok(s) ==> (r matches ResponderAction::Reply { key: k, body } && k@
                == key@ && body@ == s@),
            outcome matches Err(e) ==> (r matches ResponderAction::Abort { error } && error@
                == e@),
    {
        match outcome {
            Ok(s) => ResponderAction::Reply { key, body: s },
            Err(e) => ResponderAction::Abort { error: e },
        }
    }
}

} // verus!
