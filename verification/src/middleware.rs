//! The request pipeline: four interceptors, each of which either answers a
//! request or leaves it to the next, in this order: dependency routing,
//! TypeScript, style sheets, static files. Script bodies pass the import
//! rewriter on their way out.
//!
//! An interceptor here decides and builds responses; reading files, running
//! the transform and talking HTTP is left to the host.

use vstd::prelude::*;
use vstd::utf8::{decode_utf8, valid_utf8};
use crate::content_type::{content_type_of, guessed_types, preferred_type};
use crate::error::{
    build_message, build_status, resolution_message, resolution_status, BuildError, ResolutionError,
};
use crate::paths::{join, join_path};
use crate::rewrite::{lemma_rewrite_idempotent, process_imports, rewrite, MODULE_PREFIX};
use crate::text::{
    chars_of, ends_with, followed_by, index_of, lemma_index_of_is, matches_at, run_end, skip_run,
    starts_with, str_ends_with, str_eq, substring, CharClass,
};
use crate::transform::{
    generated_script, is_js_or_ts_file, is_script_path, is_typescript_path, parse_error_text,
    parse_report, transform_outcome, transform_typescript, transform_view, ParseError,
};

verus! {

/// The media type of every script that the server hands out.
pub const JAVASCRIPT: &'static str = "application/javascript";

/// The media type of a failure's message.
pub const PLAIN_TEXT: &'static str = "text/plain";

/// The directory that is searched for a static file after the project root.
pub const PUBLIC_DIR: &'static str = "public";

/// What a response carries.
#[derive(Debug, Clone, PartialEq, Eq)]
pub enum Body {
    /// Nothing.
    Empty,
    /// A text.
    Text(String),
    /// Bytes that were not read as text.
    Bytes(Vec<u8>),
}

/// A `Body` as a mathematical value.
pub enum BodyView {
    Empty,
    Text(Seq<char>),
    Bytes(Seq<u8>),
}

impl View for Body {
    type V = BodyView;

    open spec fn view(&self) -> BodyView {
        match self {
            Body::Empty => BodyView::Empty,
            Body::Text(text) => BodyView::Text(text@),
            Body::Bytes(bytes) => BodyView::Bytes(bytes@),
        }
    }
}

/// An HTTP response, as far as the interceptors shape it.
#[derive(Debug, Clone, PartialEq, Eq)]
pub struct Response {
    /// The status code.
    pub status: u16,
    /// The `Content-Type` header, if one is sent.
    pub content_type: Option<String>,
    /// The body.
    pub body: Body,
}

/// A `Response` as a mathematical value.
pub struct ResponseView {
    pub status: u16,
    pub content_type: Option<Seq<char>>,
    pub body: BodyView,
}

impl View for Response {
    type V = ResponseView;

    open spec fn view(&self) -> ResponseView {
        ResponseView {
            status: self.status,
            content_type: self.content_type.deep_view(),
            body: self.body@,
        }
    }
}

/// The response that hands out a script.
pub open spec fn script_response(text: Seq<char>) -> ResponseView {
    ResponseView { status: 200, content_type: Some(JAVASCRIPT@), body: BodyView::Text(text) }
}

/// The response for a file that does not exist.
pub open spec fn not_found_response() -> ResponseView {
    ResponseView { status: 404, content_type: None, body: BodyView::Empty }
}

/// The response that reports a failure by its status and a message.
pub open spec fn failure_response(status: u16, message: Seq<char>) -> ResponseView {
    ResponseView { status, content_type: Some(PLAIN_TEXT@), body: BodyView::Text(message) }
}

/// `s` without the slashes it begins with.
pub open spec fn trim_slashes(s: Seq<char>) -> Seq<char> {
    s.subrange(run_end(s, 0, CharClass::Slash), s.len() as int)
}

/// The file below `root_dir` that the request path `path` names.
pub open spec fn source_file(root_dir: Seq<char>, path: Seq<char>) -> Seq<char> {
    join(root_dir, trim_slashes(path))
}

fn script(text: String) -> (response: Response)
    ensures
        response@ == script_response(text@),
{
    Response { status: 200, content_type: Some(JAVASCRIPT.to_owned()), body: Body::Text(text) }
}

fn not_found() -> (response: Response)
    ensures
        response@ == not_found_response(),
{
    Response { status: 404, content_type: None, body: Body::Empty }
}

fn failure(status: u16, message: &str) -> (response: Response)
    ensures
        response@ == failure_response(status, message@),
{
    Response {
        status,
        content_type: Some(PLAIN_TEXT.to_owned()),
        body: Body::Text(message.to_owned()),
    }
}

/// The text that a byte sequence spells in UTF-8.
///
/// Calls `std::str::from_utf8`, which vstd leaves unspecified. As its
/// documentation says, it succeeds exactly on valid UTF-8 and then gives the
/// text that the bytes encode.
#[verifier::external_body]
fn text_of_bytes(bytes: &[u8]) -> (text: Option<&str>)
    ensures
        match text {
            Some(t) => valid_utf8(bytes@) && t@ == decode_utf8(bytes@),
            None => !valid_utf8(bytes@),
        },
{
    std::str::from_utf8(bytes).ok()
}

/// Removes the slashes that `path` begins with.
pub fn trim_leading_slashes(path: &str) -> (trimmed: String)
    ensures
        trimmed@ == trim_slashes(path@),
{
    let v = chars_of(path);
    let start = skip_run(&v, 0, CharClass::Slash);
    substring(&v, start, v.len())
}

/// How the dependency interceptor takes a request.
#[derive(Debug, Clone, PartialEq, Eq)]
pub enum Route {
    /// The path asks for an installed package by this specifier.
    Module(String),
    /// The path is left to the interceptors that follow; `rewrite` says
    /// whether the body that comes back passes the import rewriter.
    Next { rewrite: bool },
}

/// A `Route` as a mathematical value.
pub enum RouteView {
    Module(Seq<char>),
    Next { rewrite: bool },
}

impl View for Route {
    type V = RouteView;

    open spec fn view(&self) -> RouteView {
        match self {
            Route::Module(specifier) => RouteView::Module(specifier@),
            Route::Next { rewrite } => RouteView::Next { rewrite: *rewrite },
        }
    }
}

/// How the dependency interceptor takes the request path `path`: a path
/// under `/@modules/` asks for the package named behind the prefix.
pub open spec fn route_of(path: Seq<char>) -> RouteView {
    if starts_with(path, MODULE_PREFIX@) {
        RouteView::Module(path.subrange(MODULE_PREFIX@.len() as int, path.len() as int))
    } else {
        RouteView::Next { rewrite: is_script_path(path) }
    }
}

/// What the import rewriter makes of a response to the request path `path`:
/// the body of a script, where it is a text, is rewritten and served as
/// JavaScript; any other response passes as it is.
pub open spec fn rewritten_response(path: Seq<char>, response: ResponseView) -> ResponseView {
    if !is_script_path(path) {
        response
    } else {
        match response.body {
            BodyView::Text(text) => ResponseView {
                status: response.status,
                content_type: Some(JAVASCRIPT@),
                body: BodyView::Text(rewrite(text)),
            },
            BodyView::Bytes(bytes) => if valid_utf8(bytes) {
                ResponseView {
                    status: response.status,
                    content_type: Some(JAVASCRIPT@),
                    body: BodyView::Text(rewrite(decode_utf8(bytes))),
                }
            } else {
                response
            },
            BodyView::Empty => response,
        }
    }
}

/// The response that serves a built artifact, given what reading it gave.
pub open spec fn artifact_response(artifact: Option<Seq<char>>) -> ResponseView {
    match artifact {
        Some(text) => script_response(text),
        None => failure_response(
            build_status(BuildError::BuildProcessFailure),
            build_message(BuildError::BuildProcessFailure),
        ),
    }
}

/// A response that has passed the import rewriter passes it a second time
/// unchanged.
pub proof fn lemma_rewritten_response_is_settled(path: Seq<char>, response: ResponseView)
    ensures
        rewritten_response(path, rewritten_response(path, response)) == rewritten_response(
            path,
            response,
        ),
{
    if is_script_path(path) {
        match response.body {
            BodyView::Text(text) => lemma_rewrite_idempotent(text),
            BodyView::Bytes(bytes) => {
                if valid_utf8(bytes) {
                    lemma_rewrite_idempotent(decode_utf8(bytes));
                }
            },
            BodyView::Empty => {},
        }
    }
}

/// The interceptor that serves installed packages and rewrites imports.
#[derive(Debug, Clone, PartialEq, Eq)]
pub struct DependencyAnalysis {
    /// The project root.
    pub root_dir: String,
}

impl DependencyAnalysis {
    /// The interceptor for the project in `root_dir`.
    pub fn new(root_dir: String) -> (interceptor: Self)
        ensures
            interceptor.root_dir == root_dir,
    {
        DependencyAnalysis { root_dir }
    }

    /// Decides whether the request for `path` asks for an installed package.
    pub fn handle(&self, path: &str) -> (route: Route)
        ensures
            route@ == route_of(path@),
    {
        let v = chars_of(path);
        let prefix = chars_of(MODULE_PREFIX);
        if matches_at(&v, 0, &prefix) {
            Route::Module(substring(&v, prefix.len(), v.len()))
        } else {
            Route::Next { rewrite: is_js_or_ts_file(path) }
        }
    }

    /// The response that serves a built artifact, given what reading it
    /// gave: its text is served as a script; `None` stands for an artifact
    /// that could not be read, which is reported as a failed build.
    pub fn serve_artifact(&self, artifact: Option<String>) -> (response: Response)
        ensures
            response@ == artifact_response(artifact.deep_view()),
    {
        match artifact {
            Some(text) => script(text),
            None => self.report_unbuilt(BuildError::BuildProcessFailure),
        }
    }

    /// The response that reports a failed resolution: 404 for a package or
    /// an entry that is missing, 500 for a broken configuration.
    pub fn report_unresolved(&self, error: ResolutionError) -> (response: Response)
        ensures
            response@ == failure_response(resolution_status(error), resolution_message(error)),
    {
        failure(error.status(), error.message())
    }

    /// The response that reports a failed build: 500 for a build that
    /// failed, 504 for a wait that ran out.
    pub fn report_unbuilt(&self, error: BuildError) -> (response: Response)
        ensures
            response@ == failure_response(build_status(error), build_message(error)),
    {
        failure(error.status(), error.message())
    }

    /// Passes a response of the following interceptors through the import
    /// rewriter.
    pub fn rewrite_imports(&self, path: &str, response: Response) -> (rewritten: Response)
        ensures
            rewritten@ == rewritten_response(path@, response@),
    {
        if !is_js_or_ts_file(path) {
            return response;
        }
        let Response { status, content_type, body } = response;
        match body {
            Body::Text(text) => Response {
                status,
                content_type: Some(JAVASCRIPT.to_owned()),
                body: Body::Text(process_imports(text)),
            },
            Body::Bytes(bytes) => {
                let decoded = match text_of_bytes(bytes.as_slice()) {
                    Some(text) => Some(text.to_owned()),
                    None => None,
                };
                match decoded {
                    Some(text) => Response {
                        status,
                        content_type: Some(JAVASCRIPT.to_owned()),
                        body: Body::Text(process_imports(text)),
                    },
                    None => Response { status, content_type, body: Body::Bytes(bytes) },
                }
            },
            Body::Empty => Response { status, content_type, body: Body::Empty },
        }
    }
}

/// The response for a TypeScript source, given what the transform made of
/// it: the script, or the text of the syntax errors, served as JavaScript;
/// `None` stands for a file that could not be read.
pub open spec fn transformed_response(
    transformed: Option<Result<Seq<char>, Seq<Seq<char>>>>,
) -> ResponseView {
    match transformed {
        Some(Ok(script)) => script_response(script),
        Some(Err(messages)) => script_response(parse_error_text(messages)),
        None => not_found_response(),
    }
}

/// A TypeScript source to transform.
#[derive(Debug, Clone, PartialEq, Eq)]
pub struct TransformJob {
    /// The file to read.
    pub file: String,
    /// Whether the source may hold JSX.
    pub is_tsx: bool,
}

/// The interceptor that serves TypeScript sources as JavaScript.
#[derive(Debug, Clone, PartialEq, Eq)]
pub struct TypescriptTransform {
    /// The project root.
    pub root_dir: String,
}

impl TypescriptTransform {
    /// The interceptor for the project in `root_dir`.
    pub fn new(root_dir: String) -> (interceptor: Self)
        ensures
            interceptor.root_dir == root_dir,
    {
        TypescriptTransform { root_dir }
    }

    /// Whether `path` names a TypeScript source.
    pub fn is_typescript_file(&self, path: &str) -> (b: bool)
        ensures
            b == is_typescript_path(path@),
    {
        str_ends_with(path, ".ts") || str_ends_with(path, ".tsx")
    }

    /// Decides whether the request for `path` is for a TypeScript source, and
    /// if so which file is to be read and transformed.
    pub fn handle(&self, path: &str) -> (job: Option<TransformJob>)
        ensures
            job is Some == is_typescript_path(path@),
            job matches Some(j) ==> j.file@ == source_file(self.root_dir@, path@) && j.is_tsx
                == ends_with(path@, ".tsx"@),
    {
        if self.is_typescript_file(path) {
            let trimmed = trim_leading_slashes(path);
            Some(
                TransformJob {
                    file: join_path(self.root_dir.as_str(), trimmed.as_str()),
                    is_tsx: str_ends_with(path, ".tsx"),
                },
            )
        } else {
            None
        }
    }

    /// The response for a source, given what the transform made of it; `None`
    /// stands for a file that could not be read. A source that did not parse
    /// is answered with the text of its syntax errors in place of the script.
    pub fn serve(&self, transformed: Option<Result<String, ParseError>>) -> (response: Response)
        ensures
            response@ == transformed_response(
                match transformed {
                    Some(result) => Some(transform_view(result)),
                    None => None,
                },
            ),
    {
        match transformed {
            Some(Ok(script_text)) => script(script_text),
            Some(Err(e)) => script(e.text()),
            None => not_found(),
        }
    }

    /// The response for the source text of a TypeScript file, which is
    /// transformed here; `None` stands for a file that could not be read.
    pub fn respond(&self, source: Option<String>, is_tsx: bool) -> (response: Response)
        ensures
            response@ == transformed_response(
                match source {
                    Some(text) => Some(
                        transform_outcome(
                            parse_report(text@, is_tsx),
                            generated_script(text@, is_tsx),
                        ),
                    ),
                    None => None,
                },
            ),
    {
        match source {
            Some(text) => self.serve(Some(transform_typescript(text.as_str(), is_tsx))),
            None => self.serve(None),
        }
    }
}

/// The script that installs the style sheet `css` in the page and exports
/// its text.
pub open spec fn style_module(css: Seq<char>) -> Seq<char> {
    "const css = `"@ + css
        + "`;\nconst style = document.createElement('style');\nstyle.textContent = css;\ndocument.head.appendChild(style);\nexport default css;\n"@
}

/// The interceptor that serves style sheets as scripts.
#[derive(Debug, Clone, PartialEq, Eq)]
pub struct CssTransform {
    /// The project root.
    pub root_dir: String,
}

impl CssTransform {
    /// The interceptor for the project in `root_dir`.
    pub fn new(root_dir: String) -> (interceptor: Self)
        ensures
            interceptor.root_dir == root_dir,
    {
        CssTransform { root_dir }
    }

    /// Decides whether the request for `path` is for a style sheet, and if so
    /// which file is to be read.
    pub fn handle(&self, path: &str) -> (file: Option<String>)
        ensures
            file is Some == ends_with(path@, ".css"@),
            file matches Some(f) ==> f@ == source_file(self.root_dir@, path@),
    {
        if str_ends_with(path, ".css") {
            let trimmed = trim_leading_slashes(path);
            Some(join_path(self.root_dir.as_str(), trimmed.as_str()))
        } else {
            None
        }
    }

    /// Wraps a style sheet in the script that installs it.
    pub fn wrap(css: &str) -> (module: String)
        ensures
            module@ == style_module(css@),
    {
        let mut module = followed_by("const css = `", css);
        module.append(
            "`;\nconst style = document.createElement('style');\nstyle.textContent = css;\ndocument.head.appendChild(style);\nexport default css;\n",
        );
        module
    }

    /// The response for a style sheet, given its text; `None` stands for a
    /// file that could not be read.
    pub fn respond(&self, css: Option<String>) -> (response: Response)
        ensures
            response@ == match css {
                Some(text) => script_response(style_module(text@)),
                None => not_found_response(),
            },
    {
        match css {
            Some(text) => script(Self::wrap(text.as_str())),
            None => not_found(),
        }
    }
}

/// The path below a static root that the request path `path` names: the
/// root path stands for `index.html`.
pub open spec fn static_path(path: Seq<char>) -> Seq<char> {
    if path == "/"@ {
        "index.html"@
    } else {
        trim_slashes(path)
    }
}

/// The position of the first file that exists, given for each file in order
/// whether it does.
pub open spec fn first_existing(exists: Seq<bool>) -> Option<usize> {
    if index_of(exists, true) < exists.len() {
        Some(index_of(exists, true) as usize)
    } else {
        None
    }
}

/// The response that serves the file found at `file`.
pub open spec fn file_response(file: Seq<char>, bytes: Seq<u8>) -> ResponseView {
    ResponseView {
        status: 200,
        content_type: Some(preferred_type(guessed_types(file))),
        body: BodyView::Bytes(bytes),
    }
}

/// The interceptor that serves files as they are.
#[derive(Debug, Clone, PartialEq, Eq)]
pub struct StaticFiles {
    /// The project root.
    pub root_dir: String,
}

impl StaticFiles {
    /// The interceptor for the project in `root_dir`.
    pub fn new(root_dir: String) -> (interceptor: Self)
        ensures
            interceptor.root_dir == root_dir,
    {
        StaticFiles { root_dir }
    }

    /// The files that may answer the request for `path`, in the order in
    /// which they are tried: below the project root, then below `public`.
    pub fn handle(&self, path: &str) -> (files: Vec<String>)
        ensures
            files.deep_view() == seq![
                join(self.root_dir@, static_path(path@)),
                join(PUBLIC_DIR@, static_path(path@)),
            ],
    {
        let relative = if str_eq(path, "/") {
            "index.html".to_owned()
        } else {
            trim_leading_slashes(path)
        };
        let mut files: Vec<String> = Vec::new();
        files.push(join_path(self.root_dir.as_str(), relative.as_str()));
        files.push(join_path(PUBLIC_DIR, relative.as_str()));
        assert(files.deep_view() =~= seq![
            join(self.root_dir@, static_path(path@)),
            join(PUBLIC_DIR@, static_path(path@)),
        ]);
        files
    }

    /// Chooses among the files that may answer a request, given for each in
    /// order whether it exists: the first that does.
    pub fn select(&self, exists: &Vec<bool>) -> (chosen: Option<usize>)
        ensures
            chosen == first_existing(exists@),
    {
        let mut i: usize = 0;
        while i < exists.len() && !exists[i]
            invariant
                i <= exists.len(),
                forall|j: int| 0 <= j < i ==> exists@[j] != true,
            decreases exists.len() - i,
        {
            i += 1;
        }
        proof {
            lemma_index_of_is(exists@, true, i as int);
        }
        if i < exists.len() {
            Some(i)
        } else {
            None
        }
    }

    /// The response for a request, given the file that was chosen to answer
    /// it and what it holds; `None` stands for a request that no file answers.
    pub fn respond(&self, found: Option<(String, Vec<u8>)>) -> (response: Response)
        ensures
            response@ == match found {
                Some(file) => file_response(file.0@, file.1@),
                None => not_found_response(),
            },
    {
        match found {
            Some((file, bytes)) => Response {
                status: 200,
                content_type: Some(content_type_of(file.as_str())),
                body: Body::Bytes(bytes),
            },
            None => not_found(),
        }
    }
}

/// The interceptor that notes each request and answers none.
#[derive(Debug, Clone, PartialEq, Eq)]
pub struct Logger {}

/// The interceptor that answers a request.
#[derive(Clone, Debug, PartialEq, Eq)]
pub enum Handler {
    /// Dependency routing: the installed package named by this specifier.
    Dependency(String),
    /// The TypeScript transform of this source.
    Typescript(TransformJob),
    /// The style sheet in this file, served as a script.
    Css(String),
    /// The first of these files that exists.
    Static(Vec<String>),
}

/// A `Handler` as a mathematical value.
pub enum HandlerView {
    Dependency(Seq<char>),
    Typescript { file: Seq<char>, is_tsx: bool },
    Css(Seq<char>),
    Static(Seq<Seq<char>>),
}

impl View for Handler {
    type V = HandlerView;

    open spec fn view(&self) -> HandlerView {
        match self {
            Handler::Dependency(specifier) => HandlerView::Dependency(specifier@),
            Handler::Typescript(job) => HandlerView::Typescript {
                file: job.file@,
                is_tsx: job.is_tsx,
            },
            Handler::Css(file) => HandlerView::Css(file@),
            Handler::Static(files) => HandlerView::Static(files.deep_view()),
        }
    }
}

/// How the pipeline takes a request: who answers it, and whether the answer
/// passes the import rewriter on its way out.
#[derive(Clone, Debug, PartialEq, Eq)]
pub struct Plan {
    /// The interceptor that answers.
    pub handler: Handler,
    /// Whether the body of the answer is rewritten.
    pub rewrite: bool,
}

/// The interceptor that answers the request path `path` in the project in
/// `root`: the first in the pipeline's order that takes it.
pub open spec fn handler_of(root: Seq<char>, path: Seq<char>) -> HandlerView {
    match route_of(path) {
        RouteView::Module(specifier) => HandlerView::Dependency(specifier),
        RouteView::Next { rewrite } => if is_typescript_path(path) {
            HandlerView::Typescript {
                file: source_file(root, path),
                is_tsx: ends_with(path, ".tsx"@),
            }
        } else if ends_with(path, ".css"@) {
            HandlerView::Css(source_file(root, path))
        } else {
            HandlerView::Static(
                seq![join(root, static_path(path)), join(PUBLIC_DIR@, static_path(path))],
            )
        },
    }
}

/// Whether the answer to the request path `path` passes the import rewriter:
/// it does for a script that is not an installed package's artifact.
pub open spec fn rewrites(path: Seq<char>) -> bool {
    !starts_with(path, MODULE_PREFIX@) && is_script_path(path)
}

/// The response to the request path `path` as it leaves the server, given
/// the response of the interceptor that answered: a script that is not an
/// installed package's artifact passes the import rewriter.
pub open spec fn outgoing_response(path: Seq<char>, response: ResponseView) -> ResponseView {
    if rewrites(path) {
        rewritten_response(path, response)
    } else {
        response
    }
}

/// The four interceptors of one project, in their order: dependency routing
/// with the import rewriter, the TypeScript transform, style sheets, static
/// files.
#[derive(Debug)]
pub struct Pipeline {
    dependencies: DependencyAnalysis,
    typescript: TypescriptTransform,
    css: CssTransform,
    files: StaticFiles,
}

impl Pipeline {
    /// All interceptors serve the same project.
    #[verifier::type_invariant]
    spec fn same_root(self) -> bool {
        &&& self.typescript.root_dir@ == self.dependencies.root_dir@
        &&& self.css.root_dir@ == self.dependencies.root_dir@
        &&& self.files.root_dir@ == self.dependencies.root_dir@
    }

    /// The project root.
    pub closed spec fn root(&self) -> Seq<char> {
        self.dependencies.root_dir@
    }

    /// The pipeline of the project in `root_dir`.
    pub fn new(root_dir: &str) -> (pipeline: Pipeline)
        ensures
            pipeline.root() == root_dir@,
    {
        Pipeline {
            dependencies: DependencyAnalysis::new(root_dir.to_owned()),
            typescript: TypescriptTransform::new(root_dir.to_owned()),
            css: CssTransform::new(root_dir.to_owned()),
            files: StaticFiles::new(root_dir.to_owned()),
        }
    }

    /// The first interceptor.
    pub fn dependencies(&self) -> (interceptor: &DependencyAnalysis)
        ensures
            interceptor.root_dir@ == self.root(),
    {
        &self.dependencies
    }

    /// The second interceptor.
    pub fn typescript(&self) -> (interceptor: &TypescriptTransform)
        ensures
            interceptor.root_dir@ == self.root(),
    {
        proof {
            use_type_invariant(self);
        }
        &self.typescript
    }

    /// The third interceptor.
    pub fn css(&self) -> (interceptor: &CssTransform)
        ensures
            interceptor.root_dir@ == self.root(),
    {
        proof {
            use_type_invariant(self);
        }
        &self.css
    }

    /// The last interceptor.
    pub fn files(&self) -> (interceptor: &StaticFiles)
        ensures
            interceptor.root_dir@ == self.root(),
    {
        proof {
            use_type_invariant(self);
        }
        &self.files
    }

    /// Hands a request down the pipeline: each interceptor in turn takes it
    /// or leaves it to the next, and the static files take what is left.
    pub fn plan(&self, path: &str) -> (plan: Plan)
        ensures
            plan.handler@ == handler_of(self.root(), path@),
            plan.rewrite == rewrites(path@),
    {
        proof {
            use_type_invariant(self);
        }
        match self.dependencies.handle(path) {
            Route::Module(specifier) => Plan {
                handler: Handler::Dependency(specifier),
                rewrite: false,
            },
            Route::Next { rewrite } => {
                let handler = match self.typescript.handle(path) {
                    Some(job) => Handler::Typescript(job),
                    None => match self.css.handle(path) {
                        Some(file) => Handler::Css(file),
                        None => Handler::Static(self.files.handle(path)),
                    },
                };
                Plan { handler, rewrite }
            },
        }
    }

    /// Sends a response on its way out: the answer to a request that `plan`
    /// marks for rewriting passes the import rewriter, any other leaves as
    /// it is.
    pub fn finish(&self, path: &str, response: Response) -> (outgoing: Response)
        ensures
            outgoing@ == outgoing_response(path@, response@),
    {
        let v = chars_of(path);
        let prefix = chars_of(MODULE_PREFIX);
        if matches_at(&v, 0, &prefix) {
            response
        } else {
            self.dependencies.rewrite_imports(path, response)
        }
    }
}

} // verus!

