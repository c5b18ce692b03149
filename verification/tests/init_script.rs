use cloude_vmm::init_script::InitScriptGenerator;
use cloude_vmm::runtimes::{
    detect_runtime, LanguageRuntime, NodeRuntime, PythonRuntime, RuntimeKind, RustRuntime,
};

#[test]
fn test_python_script_generation() {
    let runtime = PythonRuntime;
    let script = InitScriptGenerator::generate_script(&runtime, "/lambda/code.py");
    assert!(script.contains("python3 /lambda/code.py"));
    assert!(!script.contains("Compiling..."));
}

#[test]
fn test_node_script_generation() {
    let runtime = NodeRuntime;
    let script = InitScriptGenerator::generate_script(&runtime, "/lambda/code.js");
    assert!(script.contains("node /lambda/code.js"));
    assert!(!script.contains("Compiling..."));
}

#[test]
fn test_rust_script_generation() {
    let runtime = RustRuntime;
    let script = InitScriptGenerator::generate_script(&runtime, "/lambda/code.rs");
    assert!(script.contains("rustc -o /lambda/bin /lambda/code.rs"));
    assert!(script.contains("Compiling..."));
    assert!(script.contains("/lambda/bin")); // Execution path
}

#[test]
fn script_carries_sentinels_and_shutdown() {
    let script = InitScriptGenerator::generate_script(&PythonRuntime, "/lambda/code.py");
    assert!(script.starts_with("#!/bin/sh\n"));
    assert!(script.contains("echo '--- PROGRAM OUTPUT ---'\n"));
    assert!(script.contains("echo '--- END OUTPUT ---'\n"));
    assert!(script.contains("echo \"Exit code: $EXIT_CODE\"\n"));
    assert!(script.contains("poweroff -f"));
}

#[test]
fn compile_failure_path_reports_and_exits() {
    let script = InitScriptGenerator::generate_script(&RustRuntime, "/lambda/code.rs");
    assert!(script.contains("echo 'Compilation failed'; sync; exit 1;"));
}

#[test]
fn detect_runtime_matches_extensions() {
    assert_eq!(detect_runtime("py"), Some(RuntimeKind::Python));
    assert_eq!(detect_runtime("js"), Some(RuntimeKind::Node));
    assert_eq!(detect_runtime("rs"), Some(RuntimeKind::Rust));
    assert_eq!(detect_runtime("txt"), None);
    assert_eq!(detect_runtime(""), None);
}

#[test]
fn runtime_kind_answers_like_its_runtime() {
    let kind = detect_runtime("py").unwrap();
    assert_eq!(kind.base_image(), "python:3.12-alpine");
    assert_eq!(kind.run_command(), "python3");
    assert_eq!(kind.source_extension(), "py");
    assert!(kind.compile_command().is_none());
    let rust_kind = detect_runtime("rs").unwrap();
    assert_eq!(rust_kind.compile_command(), Some("rustc -o /lambda/bin /lambda/code.rs"));
    assert_eq!(rust_kind.execute_path(), Some("/lambda/bin"));
}
