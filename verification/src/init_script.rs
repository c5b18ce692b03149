//! Init-script generation.
//!
//! Builds the `/init` shell script that runs as PID 1 inside the guest:
//! mount the pseudo-filesystems, compile the payload when the runtime asks
//! for it, run it between the output sentinels, report its exit code and
//! power off. The supervising side parses the serial output against these
//! exact sentinels.
use vstd::prelude::*;

use crate::runtimes::LanguageRuntime;

verus! {

/// The script text for a runtime's answers and the guest path of the
/// payload, line by line the shape the generator emits.
pub open spec fn spec_script(
    compile: Option<Seq<char>>,
    run_cmd: Seq<char>,
    exec_path: Option<Seq<char>>,
    code_path: Seq<char>,
) -> Seq<char> {
    "#!/bin/sh\n\n"@ + "mount -t proc proc /proc\n"@ + "mount -t sysfs sysfs /sys\n"@
        + "mount -t devtmpfs dev /dev\n\n"@
        + "export PATH=/usr/local/sbin:/usr/local/bin:/usr/sbin:/usr/bin:/sbin:/bin\n\n"@
        + "echo '=== Cloude Agent Init ==='\n\n"@ + (match compile {
        Option::Some(c) => "echo 'Compiling...'\n"@ + c
            + " || { echo 'Compilation failed'; sync; exit 1; }\n"@
            + "echo 'Compilation successful'\n\n"@,
        Option::None => Seq::empty(),
    }) + "echo '--- PROGRAM OUTPUT ---'\n"@ + (match exec_path {
        Option::Some(p) => p,
        Option::None => run_cmd + " "@ + code_path,
    }) + "\n"@ + "EXIT_CODE=$?\n"@ + "echo '--- END OUTPUT ---'\n"@
        + "echo \"Exit code: $EXIT_CODE\"\n\n"@ + "sync\n"@
        + "poweroff -f 2>/dev/null || exit $EXIT_CODE\n"@
}

pub struct InitScriptGenerator;

impl InitScriptGenerator {
    /// Generates the init script for `runtime`, whose payload sits at
    /// `code_path` in the guest, exactly as `spec_script` lays it out.
    pub fn generate_script<R: LanguageRuntime>(runtime: &R, code_path: &str) -> (r: String)
        ensures
            r@ == spec_script(
                runtime.spec_compile_command(),
                runtime.spec_run_command(),
                runtime.spec_execute_path(),
                code_path@,
            ),
    {
        let mut script = String::new();
        script.append("#!/bin/sh\n\n");
        script.append("mount -t proc proc /proc\n");
        script.append("mount -t sysfs sysfs /sys\n");
        script.append("mount -t devtmpfs dev /dev\n\n");
        script.append("export PATH=/usr/local/sbin:/usr/local/bin:/usr/sbin:/usr/bin:/sbin:/bin\n\n");
        script.append("echo '=== Cloude Agent Init ==='\n\n");
        match runtime.compile_command() {
            Some(compile_cmd) => {
                script.append("echo 'Compiling...'\n");
                script.append(compile_cmd);
                script.append(" || { echo 'Compilation failed'; sync; exit 1; }\n");
                script.append("echo 'Compilation successful'\n\n");
            },
            None => {},
        }
        script.append("echo '--- PROGRAM OUTPUT ---'\n");
        match runtime.execute_path() {
            Some(exec_path) => {
                script.append(exec_path);
            },
            None => {
                script.append(runtime.run_command());
                script.append(" ");
                script.append(code_path);
            },
        }
        script.append("\n");
        script.append("EXIT_CODE=$?\n");
        script.append("echo '--- END OUTPUT ---'\n");
        script.append("echo \"Exit code: $EXIT_CODE\"\n\n");
        script.append("sync\n");
        script.append("poweroff -f 2>/dev/null || exit $EXIT_CODE\n");
        proof {
            assert(script@ =~= spec_script(
                runtime.spec_compile_command(),
                runtime.spec_run_command(),
                runtime.spec_execute_path(),
                code_path@,
            ));
        }
        script
    }
}

} // verus!
