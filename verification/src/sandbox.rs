//! The sandbox protocol: how the context of an allocation goes into a
//! strategy's script, and how what the script wrote is taken back.

use vstd::prelude::*;
use crate::document::{array_json, documents_text, Document};
use crate::error::ErrorKind;
use crate::json::{json_canonical, json_items, parse_value, value_items, value_text, value_texts};

verus! {

/// What stands before the context in every script: diagnostic output goes to
/// the error stream, so that the output stream carries the result alone.
pub const PREAMBLE: &'static str =
    "\n        console.error = function(...args) {\n            std.err.puts(args.join(' '));\n            std.err.puts('\\n');\n        }\n        const log = console.error;\n        ";

/// What stands behind the entry expression in every script: a result that is
/// not null is written to the output stream, an object as its JSON text.
pub const EPILOGUE: &'static str =
    "\n        if (result != null) {\n            if (typeof result === 'object') {\n                result = JSON.stringify(result);\n            }\n            std.out.puts(result);\n        }\n        ";

/// The statement that binds one context value to a read-only name.
pub open spec fn binding(name: Seq<char>, value: Seq<char>) -> Seq<char> {
    "const "@ + name + " = "@ + value + ";\n"@
}

/// The statement that evaluates the entry expression.
pub open spec fn entry_statement(function_call: Seq<char>) -> Seq<char> {
    "\nlet result = "@ + function_call + ";\n"@
}

/// What a strategy is told: the four values that the script finds bound.
#[derive(Debug, PartialEq, Eq)]
pub struct SandboxContext {
    /// What the caller supplied; the strategy defines its shape.
    pub user_input: Document,
    /// The pool's configuration.
    pub resource_pool_properties: Document,
    /// The pool's metadata.
    pub resource_pool: Document,
    /// The pool's existing resources, in the store's order.
    pub current_resources: Vec<Document>,
}

/// What a context is to a contract.
pub struct ContextView {
    pub user_input: Seq<char>,
    pub resource_pool_properties: Seq<char>,
    pub resource_pool: Seq<char>,
    pub current_resources: Seq<Seq<char>>,
}

impl View for SandboxContext {
    type V = ContextView;

    open spec fn view(&self) -> ContextView {
        ContextView {
            user_input: self.user_input@,
            resource_pool_properties: self.resource_pool_properties@,
            resource_pool: self.resource_pool@,
            current_resources: documents_text(self.current_resources@),
        }
    }
}

/// The statements that bind the context, in their fixed order.
pub open spec fn context_bindings(context: ContextView) -> Seq<char> {
    binding("userInput"@, context.user_input) + binding(
        "resourcePoolProperties"@,
        context.resource_pool_properties,
    ) + binding("resourcePool"@, context.resource_pool) + binding(
        "currentResources"@,
        array_json(context.current_resources),
    )
}

/// The whole text that the sandbox runs: the preamble, the context, the
/// strategy's script, the entry statement and the epilogue.
pub open spec fn script_text(
    script: Seq<char>,
    context: ContextView,
    function_call: Seq<char>,
) -> Seq<char> {
    PREAMBLE@ + context_bindings(context) + script + entry_statement(function_call) + EPILOGUE@
}

/// How a run of the sandbox process ended.
#[derive(Debug, PartialEq, Eq)]
pub enum SandboxOutcome {
    /// The process could not be started.
    SpawnFailed,
    /// The process ran into the time limit and was terminated.
    TimedOut,
    /// The process ended: with this exit code, or without one where a signal
    /// ended it, and having written this to its output stream.
    Exited { code: Option<i32>, stdout: Vec<u8> },
}

/// What an outcome yields: the candidate values as compact JSON texts, or
/// the error. Only an exit with code 0 yields candidates, and only if the
/// output is one JSON array.
pub open spec fn outcome_candidates(outcome: SandboxOutcome) -> Result<Seq<Seq<char>>, ErrorKind> {
    match outcome {
        SandboxOutcome::Exited { code: Some(0), stdout } => output_candidates(
            output_elements(stdout@),
        ),
        _ => Err(ErrorKind::SandboxExecutionFailed),
    }
}

/// The elements of the array that the output holds, each as its compact
/// text; `None` where the output is no JSON text, or no array.
pub open spec fn output_elements(stdout: Seq<u8>) -> Option<Seq<Seq<char>>> {
    match json_canonical(stdout) {
        Some(text) => json_items(text),
        None => None,
    }
}

/// The character sequences of a run of strings.
pub open spec fn texts(items: Seq<String>) -> Seq<Seq<char>> {
    items.map_values(|s: String| s@)
}

/// What the parsed output yields: the elements of the array, or a protocol
/// violation where the output was no array.
pub open spec fn output_candidates(elements: Option<Seq<Seq<char>>>) -> Result<
    Seq<Seq<char>>,
    ErrorKind,
> {
    match elements {
        Some(items) => Ok(items),
        None => Err(ErrorKind::SandboxProtocolViolation),
    }
}

/// The parser's elements as character sequences.
pub open spec fn element_texts(elements: Option<Vec<String>>) -> Option<Seq<Seq<char>>> {
    match elements {
        Some(items) => Some(texts(items@)),
        None => None,
    }
}

/// The sandbox runtime: the binary and the interpreter that it is given.
#[derive(Debug, PartialEq, Eq)]
pub struct WasmerEnv {
    pub wasmer_bin: String,
    pub wasmer_js: String,
}

impl WasmerEnv {
    /// A runtime of the given binary and interpreter.
    pub fn new(wasmer_bin: String, wasmer_js: String) -> (r: WasmerEnv)
        ensures
            r.wasmer_bin == wasmer_bin,
            r.wasmer_js == wasmer_js,
    {
        WasmerEnv { wasmer_bin, wasmer_js }
    }

    /// The arguments that the binary is started with to run a script.
    pub fn arguments(&self, script: &str) -> (r: Vec<String>)
        ensures
            texts(r@) == seq![self.wasmer_js@, "--"@, "--std"@, "-e"@, script@],
    {
        let mut arguments: Vec<String> = Vec::new();
        arguments.push(self.wasmer_js.clone());
        arguments.push("--".to_owned());
        arguments.push("--std".to_owned());
        arguments.push("-e".to_owned());
        arguments.push(script.to_owned());
        arguments
    }

    /// The statement that binds a context value to a name.
    pub fn add_js_var(name: &str, val: &Document) -> (r: String)
        ensures
            r@ == binding(name@, val@),
    {
        let mut statement = "const ".to_owned();
        statement.append(name);
        statement.append(" = ");
        statement.append(val.as_str());
        statement.append(";\n");
        statement
    }

    /// The text that the sandbox runs for a strategy's script, a context and
    /// an entry expression.
    pub fn compose_script(script: &str, context: &SandboxContext, function_call: &str) -> (r:
        String)
        ensures
            r@ == script_text(script@, context@, function_call@),
    {
        let current = Document::array(&context.current_resources);
        let mut text = PREAMBLE.to_owned();
        text.append(Self::add_js_var("userInput", &context.user_input).as_str());
        text.append(
            Self::add_js_var("resourcePoolProperties", &context.resource_pool_properties).as_str(),
        );
        text.append(Self::add_js_var("resourcePool", &context.resource_pool).as_str());
        text.append(Self::add_js_var("currentResources", &current).as_str());
        text.append(script);
        text.append("\nlet result = ");
        text.append(function_call);
        text.append(";\n");
        text.append(EPILOGUE);
        text
    }

    /// The candidate values in what the parser made of the output: each
    /// element of the array is one candidate, passed on as it is.
    pub fn candidates(elements: Option<Vec<String>>) -> (r: Result<Vec<Document>, ErrorKind>)
        ensures
            match output_candidates(element_texts(elements)) {
                Ok(items) => r is Ok && documents_text(r->Ok_0@) == items,
                Err(e) => r is Err && r->Err_0 == e,
            },
    {
        match elements {
            None => Err(ErrorKind::SandboxProtocolViolation),
            Some(items) => {
                let mut found: Vec<Document> = Vec::new();
                let mut i: usize = 0;
                while i < items.len()
                    invariant
                        i <= items.len(),
                        documents_text(found@) == texts(items@).take(i as int),
                    decreases items.len() - i,
                {
                    let ghost earlier = documents_text(found@);
                    found.push(Document::from_text(items[i].clone()));
                    assert(documents_text(found@) =~= earlier.push(texts(items@)[i as int]));
                    i += 1;
                }
                Ok(found)
            },
        }
    }

    /// The elements of the array that the output holds.
    fn elements(stdout: &[u8]) -> (r: Option<Vec<String>>)
        ensures
            element_texts(r) == output_elements(stdout@),
    {
        match parse_value(stdout) {
            Ok(value) => match value_items(&value) {
                Some(items) => {
                    let mut found: Vec<String> = Vec::new();
                    let mut i: usize = 0;
                    while i < items.len()
                        invariant
                            i <= items.len(),
                            texts(found@) == value_texts(items@).take(i as int),
                        decreases items.len() - i,
                    {
                        let ghost earlier = texts(found@);
                        found.push(value_text(&items[i]));
                        assert(texts(found@) =~= earlier.push(value_texts(items@)[i as int]));
                        i += 1;
                    }
                    Some(found)
                },
                None => None,
            },
            Err(_) => None,
        }
    }

    /// The candidate values that a script wrote to its output stream.
    pub fn parse_output(stdout: &[u8]) -> (r: Result<Vec<Document>, ErrorKind>)
        ensures
            match output_candidates(output_elements(stdout@)) {
                Ok(items) => r is Ok && documents_text(r->Ok_0@) == items,
                Err(e) => r is Err && r->Err_0 == e,
            },
    {
        Self::candidates(Self::elements(stdout))
    }

    /// The candidate values that a run of the sandbox yields.
    pub fn interpret(outcome: &SandboxOutcome) -> (r: Result<Vec<Document>, ErrorKind>)
        ensures
            match outcome_candidates(*outcome) {
                Ok(items) => r is Ok && documents_text(r->Ok_0@) == items,
                Err(e) => r is Err && r->Err_0 == e,
            },
    {
        match outcome {
            SandboxOutcome::Exited { code: Some(code), stdout } => {
                if *code == 0 {
                    Self::parse_output(stdout.as_slice())
                } else {
                    Err(ErrorKind::SandboxExecutionFailed)
                }
            },
            _ => Err(ErrorKind::SandboxExecutionFailed),
        }
    }
}

} // verus!
