//! Script sources: which request paths name one, and the transform that
//! turns TypeScript and JSX into JavaScript.
//!
//! The transform itself is the work of the `oxc` crates. This module decides
//! when a source counts as parsed and what is handed out when it does not.

use vstd::prelude::*;
use std::path::Path;
use oxc_allocator::Allocator;
use oxc_codegen::CodeGenerator;
use oxc_parser::{ParseOptions, Parser};
use oxc_semantic::SemanticBuilder;
use oxc_span::SourceType;
use oxc_transformer::{JsxOptions, JsxRuntime, TransformOptions, Transformer};
use crate::text::{ends_with, push_char, str_ends_with};

verus! {

/// `path` names a JavaScript or TypeScript source.
pub open spec fn is_script_path(path: Seq<char>) -> bool {
    ends_with(path, ".js"@) || ends_with(path, ".jsx"@) || ends_with(path, ".ts"@) || ends_with(
        path,
        ".tsx"@,
    )
}

/// `path` names a TypeScript source.
pub open spec fn is_typescript_path(path: Seq<char>) -> bool {
    ends_with(path, ".ts"@) || ends_with(path, ".tsx"@)
}

/// Whether `path` names a JavaScript or TypeScript source, whose imports
/// are rewritten before it is served.
pub fn is_js_or_ts_file(path: &str) -> (b: bool)
    ensures
        b == is_script_path(path@),
{
    str_ends_with(path, ".js") || str_ends_with(path, ".jsx") || str_ends_with(path, ".ts")
        || str_ends_with(path, ".tsx")
}

/// What the parser reported of a source.
#[derive(Clone, Debug, PartialEq, Eq)]
pub struct ParseReport {
    /// The parser gave up before the end of the source.
    pub panicked: bool,
    /// The syntax errors, each as the text of its diagnostic.
    pub errors: Vec<String>,
}

/// A source that did not parse.
#[derive(Clone, Debug, PartialEq, Eq)]
pub struct ParseError {
    /// The syntax errors, each as the text of its diagnostic.
    pub messages: Vec<String>,
}

/// What the parser reports of `source`, read as TSX where `is_tsx` holds and
/// as TypeScript otherwise: whether it gave up, and the syntax errors.
pub uninterp spec fn parse_report(source: Seq<char>, is_tsx: bool) -> (bool, Seq<Seq<char>>);

/// The JavaScript that the transform makes of `source`.
pub uninterp spec fn generated_script(source: Seq<char>, is_tsx: bool) -> Seq<char>;

/// A report of a source that parsed: the parser went to the end and found no
/// syntax error.
pub open spec fn parse_passes(report: (bool, Seq<Seq<char>>)) -> bool {
    !report.0 && report.1.len() == 0
}

/// What the transform makes of a source, given the parser's report and the
/// script that is generated where the source parsed.
pub open spec fn transform_outcome(report: (bool, Seq<Seq<char>>), script: Seq<char>) -> Result<
    Seq<char>,
    Seq<Seq<char>>,
> {
    if parse_passes(report) {
        Ok(script)
    } else {
        Err(report.1)
    }
}

/// The mathematical value of a transform's result.
pub open spec fn transform_view(result: Result<String, ParseError>) -> Result<
    Seq<char>,
    Seq<Seq<char>>,
> {
    match result {
        Ok(script) => Ok(script@),
        Err(e) => Err(e.messages.deep_view()),
    }
}

/// The texts `items[i..]`, with `, ` between them.
pub open spec fn listed_from(items: Seq<Seq<char>>, i: int) -> Seq<char>
    decreases items.len() - i,
{
    if i < 0 || i >= items.len() {
        Seq::empty()
    } else if i + 1 == items.len() {
        items[i]
    } else {
        items[i] + ", "@ + listed_from(items, i + 1)
    }
}

/// The text that stands for a source that did not parse: the syntax errors
/// in square brackets behind `Parse Error: `.
pub open spec fn parse_error_text(messages: Seq<Seq<char>>) -> Seq<char> {
    "Parse Error: ["@ + listed_from(messages, 0) + "]"@
}

/// Parses a source.
///
/// Calls `oxc_parser::Parser::parse` on a fresh allocator, with regular
/// expressions parsed too, and hands out the `panicked` flag and the
/// diagnostics of `errors` in their debug form. `parse_report` names what the
/// parser reports of a source.
#[verifier::external_body]
fn parse_source(source: &str, is_tsx: bool) -> (report: ParseReport)
    ensures
        (report.panicked, report.errors.deep_view()) == parse_report(source@, is_tsx),
{
    let allocator = Allocator::default();
    let kind = if is_tsx { SourceType::tsx() } else { SourceType::ts() };
    let options = ParseOptions { parse_regular_expression: true, ..ParseOptions::default() };
    let parsed = Parser::new(&allocator, source, kind).with_options(options).parse();
    ParseReport {
        panicked: parsed.panicked,
        errors: parsed.errors.iter().map(|e| format!("{e:?}")).collect(),
    }
}

/// Generates JavaScript from a source that parses.
///
/// Runs the `oxc` pipeline: `Parser::parse`, `SemanticBuilder::build`,
/// `Transformer::build_with_symbols_and_scopes` with every transform enabled
/// and JSX in the classic runtime, and `CodeGenerator::build`.
/// `generated_script` names the code that comes out.
#[verifier::external_body]
fn generate_script(source: &str, is_tsx: bool) -> (script: String)
    requires
        parse_passes(parse_report(source@, is_tsx)),
    ensures
        script@ == generated_script(source@, is_tsx),
{
    let allocator = Allocator::default();
    let kind = if is_tsx { SourceType::tsx() } else { SourceType::ts() };
    let options = ParseOptions { parse_regular_expression: true, ..ParseOptions::default() };
    let mut program = Parser::new(&allocator, source, kind).with_options(options).parse().program;
    let semantic = SemanticBuilder::new().build(&program).semantic;
    let (symbols, scopes) = semantic.into_symbol_table_and_scope_tree();
    let jsx = JsxOptions { development: false, runtime: JsxRuntime::Classic, ..JsxOptions::default() };
    let options = TransformOptions { jsx, ..TransformOptions::enable_all() };
    Transformer::new(&allocator, Path::new("virtual.tsx"), &options)
        .build_with_symbols_and_scopes(symbols, scopes, &mut program);
    CodeGenerator::new().build(&program).code
}

/// Decides from the parser's report whether a source parsed: it did where
/// the parser went to the end and reported no syntax error.
pub fn judge_parse(report: ParseReport) -> (verdict: Result<(), ParseError>)
    ensures
        verdict is Ok == parse_passes((report.panicked, report.errors.deep_view())),
        verdict matches Err(e) ==> e.messages == report.errors,
{
    if report.panicked || report.errors.len() > 0 {
        Err(ParseError { messages: report.errors })
    } else {
        Ok(())
    }
}

/// Turns a TypeScript source, or a TSX source where `is_tsx` holds, into
/// JavaScript. A source with syntax errors is not transformed.
///
/// The parser descends into nested expressions without a bound on their
/// depth, so a source that nests deeply enough exhausts the stack. That is a
/// limit of the machine and no part of this contract.
pub fn transform_typescript(source: &str, is_tsx: bool) -> (result: Result<String, ParseError>)
    ensures
        transform_view(result) == transform_outcome(
            parse_report(source@, is_tsx),
            generated_script(source@, is_tsx),
        ),
{
    let report = parse_source(source, is_tsx);
    match judge_parse(report) {
        Ok(()) => Ok(generate_script(source, is_tsx)),
        Err(e) => Err(e),
    }
}

impl ParseError {
    /// The text that is handed out in place of the script.
    pub fn text(&self) -> (text: String)
        ensures
            text@ == parse_error_text(self.messages.deep_view()),
    {
        let mut listed = String::new();
        let mut i: usize = self.messages.len();
        let ghost items = self.messages.deep_view();
        while i > 0
            invariant
                i <= self.messages.len(),
                items == self.messages.deep_view(),
                listed@ == listed_from(items, i as int),
            decreases i,
        {
            i -= 1;
            let mut item = self.messages[i].clone();
            assert(item@ == items[i as int]);
            if i + 1 < self.messages.len() {
                item.append(", ");
                item.append(listed.as_str());
            }
            listed = item;
        }
        let mut text = "Parse Error: [".to_owned();
        text.append(listed.as_str());
        push_char(&mut text, ']');
        proof {
            reveal_strlit("]");
            assert("]"@ =~= seq![']']);
        }
        text
    }
}

} // verus!
