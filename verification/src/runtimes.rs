//! Language runtimes the sandbox can execute.
//!
//! Each runtime names its container base image, how its sources are run,
//! and, for compiled languages, how they are built first. The init script
//! is generated from these answers.
use vstd::prelude::*;

verus! {

/// What a language runtime tells the init-script generator.
///
/// Every answer is fixed text; the spec functions give the exec methods
/// their exact values.
pub trait LanguageRuntime {
    /// The container image whose root filesystem seeds the initramfs.
    spec fn spec_base_image(&self) -> Seq<char>;

    /// The interpreter or binary that runs the payload.
    spec fn spec_run_command(&self) -> Seq<char>;

    /// The source file extension the runtime claims.
    spec fn spec_source_extension(&self) -> Seq<char>;

    /// The build command, for compiled languages.
    spec fn spec_compile_command(&self) -> Option<Seq<char>>;

    /// A fixed path to execute instead of `run_command <code>`, if any.
    spec fn spec_execute_path(&self) -> Option<Seq<char>>;

    fn base_image(&self) -> (r: &'static str)
        ensures
            r@ == self.spec_base_image(),
    ;

    fn run_command(&self) -> (r: &'static str)
        ensures
            r@ == self.spec_run_command(),
    ;

    fn source_extension(&self) -> (r: &'static str)
        ensures
            r@ == self.spec_source_extension(),
    ;

    fn compile_command(&self) -> (r: Option<&'static str>)
        ensures
            match r {
                Some(s) => self.spec_compile_command() matches Some(v) && s@ == v,
                None => self.spec_compile_command() is None,
            },
    ;

    fn execute_path(&self) -> (r: Option<&'static str>)
        ensures
            match r {
                Some(s) => self.spec_execute_path() matches Some(v) && s@ == v,
                None => self.spec_execute_path() is None,
            },
    ;
}

pub struct PythonRuntime;

impl LanguageRuntime for PythonRuntime {
    open spec fn spec_base_image(&self) -> Seq<char> {
        "python:3.12-alpine"@
    }

    open spec fn spec_run_command(&self) -> Seq<char> {
        "python3"@
    }

    open spec fn spec_source_extension(&self) -> Seq<char> {
        "py"@
    }

    open spec fn spec_compile_command(&self) -> Option<Seq<char>> {
        Option::None
    }

    open spec fn spec_execute_path(&self) -> Option<Seq<char>> {
        Option::None
    }

    fn base_image(&self) -> (r: &'static str) {
        "python:3.12-alpine"
    }

    fn run_command(&self) -> (r: &'static str) {
        "python3"
    }

    fn source_extension(&self) -> (r: &'static str) {
        "py"
    }

    fn compile_command(&self) -> (r: Option<&'static str>) {
        None
    }

    fn execute_path(&self) -> (r: Option<&'static str>) {
        None
    }
}

pub struct NodeRuntime;

impl LanguageRuntime for NodeRuntime {
    open spec fn spec_base_image(&self) -> Seq<char> {
        "node:20-alpine"@
    }

    open spec fn spec_run_command(&self) -> Seq<char> {
        "node"@
    }

    open spec fn spec_source_extension(&self) -> Seq<char> {
        "js"@
    }

    open spec fn spec_compile_command(&self) -> Option<Seq<char>> {
        Option::None
    }

    open spec fn spec_execute_path(&self) -> Option<Seq<char>> {
        Option::None
    }

    fn base_image(&self) -> (r: &'static str) {
        "node:20-alpine"
    }

    fn run_command(&self) -> (r: &'static str) {
        "node"
    }

    fn source_extension(&self) -> (r: &'static str) {
        "js"
    }

    fn compile_command(&self) -> (r: Option<&'static str>) {
        None
    }

    fn execute_path(&self) -> (r: Option<&'static str>) {
        None
    }
}

pub struct RustRuntime;

impl LanguageRuntime for RustRuntime {
    open spec fn spec_base_image(&self) -> Seq<char> {
        "rust:alpine"@
    }

    open spec fn spec_run_command(&self) -> Seq<char> {
        "/lambda/bin"@
    }

    open spec fn spec_source_extension(&self) -> Seq<char> {
        "rs"@
    }

    open spec fn spec_compile_command(&self) -> Option<Seq<char>> {
        Option::Some("rustc -o /lambda/bin /lambda/code.rs"@)
    }

    open spec fn spec_execute_path(&self) -> Option<Seq<char>> {
        Option::Some("/lambda/bin"@)
    }

    fn base_image(&self) -> (r: &'static str) {
        "rust:alpine"
    }

    fn run_command(&self) -> (r: &'static str) {
        "/lambda/bin"
    }

    fn source_extension(&self) -> (r: &'static str) {
        "rs"
    }

    fn compile_command(&self) -> (r: Option<&'static str>) {
        Some("rustc -o /lambda/bin /lambda/code.rs")
    }

    fn execute_path(&self) -> (r: Option<&'static str>) {
        Some("/lambda/bin")
    }
}

/// The runtime a source file belongs to, decided by its extension.
#[derive(Clone, Copy, Debug, PartialEq, Eq, Structural)]
pub enum RuntimeKind {
    Python,
    Node,
    Rust,
}

impl LanguageRuntime for RuntimeKind {
    open spec fn spec_base_image(&self) -> Seq<char> {
        match self {
            RuntimeKind::Python => PythonRuntime.spec_base_image(),
            RuntimeKind::Node => NodeRuntime.spec_base_image(),
            RuntimeKind::Rust => RustRuntime.spec_base_image(),
        }
    }

    open spec fn spec_run_command(&self) -> Seq<char> {
        match self {
            RuntimeKind::Python => PythonRuntime.spec_run_command(),
            RuntimeKind::Node => NodeRuntime.spec_run_command(),
            RuntimeKind::Rust => RustRuntime.spec_run_command(),
        }
    }

    open spec fn spec_source_extension(&self) -> Seq<char> {
        match self {
            RuntimeKind::Python => PythonRuntime.spec_source_extension(),
            RuntimeKind::Node => NodeRuntime.spec_source_extension(),
            RuntimeKind::Rust => RustRuntime.spec_source_extension(),
        }
    }

    open spec fn spec_compile_command(&self) -> Option<Seq<char>> {
        match self {
            RuntimeKind::Python => PythonRuntime.spec_compile_command(),
            RuntimeKind::Node => NodeRuntime.spec_compile_command(),
            RuntimeKind::Rust => RustRuntime.spec_compile_command(),
        }
    }

    open spec fn spec_execute_path(&self) -> Option<Seq<char>> {
        match self {
            RuntimeKind::Python => PythonRuntime.spec_execute_path(),
            RuntimeKind::Node => NodeRuntime.spec_execute_path(),
            RuntimeKind::Rust => RustRuntime.spec_execute_path(),
        }
    }

    fn base_image(&self) -> (r: &'static str) {
        match self {
            RuntimeKind::Python => PythonRuntime.base_image(),
            RuntimeKind::Node => NodeRuntime.base_image(),
            RuntimeKind::Rust => RustRuntime.base_image(),
        }
    }

    fn run_command(&self) -> (r: &'static str) {
        match self {
            RuntimeKind::Python => PythonRuntime.run_command(),
            RuntimeKind::Node => NodeRuntime.run_command(),
            RuntimeKind::Rust => RustRuntime.run_command(),
        }
    }

    fn source_extension(&self) -> (r: &'static str) {
        match self {
            RuntimeKind::Python => PythonRuntime.source_extension(),
            RuntimeKind::Node => NodeRuntime.source_extension(),
            RuntimeKind::Rust => RustRuntime.source_extension(),
        }
    }

    fn compile_command(&self) -> (r: Option<&'static str>) {
        match self {
            RuntimeKind::Python => PythonRuntime.compile_command(),
            RuntimeKind::Node => NodeRuntime.compile_command(),
            RuntimeKind::Rust => RustRuntime.compile_command(),
        }
    }

    fn execute_path(&self) -> (r: Option<&'static str>) {
        match self {
            RuntimeKind::Python => PythonRuntime.execute_path(),
            RuntimeKind::Node => NodeRuntime.execute_path(),
            RuntimeKind::Rust => RustRuntime.execute_path(),
        }
    }
}

/// Picks the runtime for a source file from its extension: `py`, `js` or
/// `rs`; any other extension is not supported.
pub fn detect_runtime(extension: &str) -> (r: Option<RuntimeKind>)
    ensures
        extension@ == "py"@ ==> r == Some(RuntimeKind::Python),
        extension@ == "js"@ ==> r == Some(RuntimeKind::Node),
        extension@ == "rs"@ ==> r == Some(RuntimeKind::Rust),
        (extension@ != "py"@ && extension@ != "js"@ && extension@ != "rs"@) ==> r is None,
{
    proof {
        reveal_strlit("py");
        reveal_strlit("js");
        reveal_strlit("rs");
        assert("py"@[0] == 'p' && "js"@[0] == 'j' && "rs"@[0] == 'r');
        assert("py"@ != "js"@ && "py"@ != "rs"@ && "js"@ != "rs"@);
    }
    let owned = extension.to_owned();
    if owned == String::from_str("py") {
        Some(RuntimeKind::Python)
    } else if owned == String::from_str("js") {
        Some(RuntimeKind::Node)
    } else if owned == String::from_str("rs") {
        Some(RuntimeKind::Rust)
    } else {
        None
    }
}

} // verus!
