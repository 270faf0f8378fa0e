//! Choosing how the worker engine is launched.
//!
//! Resolution is platform-conditional: a compiled engine binary where one
//! is bundled, a bundled interpreter where one is present, a system-wide
//! interpreter as the fall-back.  The decisions are pure; the surrounding
//! program supplies what only it can know — the platform, and whether the
//! candidate files exist — and performs the spawns.

use vstd::prelude::*;
use vstd::string::StringExecFns;

verus! {

/// The platform the application runs on.
#[derive(PartialEq, Eq, Structural, Clone, Copy, Debug)]
pub enum Platform {
    /// Windows, where a compiled engine binary may be bundled.
    Windows,
    /// Linux, where a bundled interpreter may be present.
    Linux,
    /// macOS, where a bundled interpreter may be present.
    MacOs,
    /// Anything else; the worker engine is not supported there.
    Other,
}

/// The resolver's decision: which launch candidate serves.
#[derive(PartialEq, Eq, Structural, Clone, Copy, Debug)]
pub enum EnginePick {
    /// The bundled compiled engine binary.
    CompiledEngine,
    /// The interpreter bundled with the application's resources.
    BundledInterpreter,
    /// A system-wide interpreter, found through the search path.
    SystemInterpreter,
    /// No candidate can serve on this platform.
    Unsupported,
}

/// Decides which launch candidate serves: on Windows the compiled engine
/// when it is bundled, elsewhere the bundled interpreter when it is
/// present, in either case a system-wide interpreter as the fall-back, and
/// nothing on an unsupported platform.
pub fn pick_engine(platform: Platform, compiled_present: bool, bundled_present: bool) -> (r:
    EnginePick)
    ensures
        platform is Windows ==> r == (if compiled_present {
            EnginePick::CompiledEngine
        } else {
            EnginePick::SystemInterpreter
        }),
        platform is Linux || platform is MacOs ==> r == (if bundled_present {
            EnginePick::BundledInterpreter
        } else {
            EnginePick::SystemInterpreter
        }),
        platform is Other ==> r == EnginePick::Unsupported,
{
    match platform {
        Platform::Windows => {
            if compiled_present {
                EnginePick::CompiledEngine
            } else {
                EnginePick::SystemInterpreter
            }
        },
        Platform::Linux | Platform::MacOs => {
            if bundled_present {
                EnginePick::BundledInterpreter
            } else {
                EnginePick::SystemInterpreter
            }
        },
        Platform::Other => EnginePick::Unsupported,
    }
}

/// The system-wide interpreter's program name for a platform.
pub fn system_interpreter(platform: Platform) -> (s: String)
    ensures
        platform is Windows ==> s@ == "python"@,
        !(platform is Windows) ==> s@ == "python3"@,
{
    match platform {
        Platform::Windows => String::from_str("python"),
        _ => String::from_str("python3"),
    }
}

/// How the worker engine is started.
#[derive(PartialEq, Eq, Debug)]
pub enum Launcher {
    /// A compiled engine binary, run directly.
    Compiled {
        /// Path of the binary.
        program: String,
    },
    /// An interpreter running the engine's entry script, unbuffered.
    Script {
        /// Path or name of the interpreter.
        interpreter: String,
        /// Path of the entry script.
        script: String,
    },
}

/// A fully assembled command: the program to spawn and its arguments in
/// order.
#[derive(PartialEq, Eq, Debug)]
pub struct CommandLine {
    /// The program to spawn.
    pub program: String,
    /// Its arguments, in order.
    pub args: Vec<String>,
}

/// The command that starts the worker in its persistent line-protocol
/// mode: the interactive flag is what tells it apart from a one-shot run.
pub fn interactive_command(launcher: &Launcher) -> (c: CommandLine)
    ensures
        launcher matches Launcher::Compiled { program } ==> c.program == program
            && c.args.deep_view() =~= seq!["--interactive"@],
        launcher matches Launcher::Script { interpreter, script } ==> c.program == interpreter
            && c.args.deep_view() =~= seq!["-u"@, script@, "--interactive"@],
{
    match launcher {
        Launcher::Compiled { program } => {
            let mut args: Vec<String> = Vec::new();
            args.push(String::from_str("--interactive"));
            CommandLine { program: program.clone(), args }
        },
        Launcher::Script { interpreter, script } => {
            let mut args: Vec<String> = Vec::new();
            args.push(String::from_str("-u"));
            args.push(script.clone());
            args.push(String::from_str("--interactive"));
            CommandLine { program: interpreter.clone(), args }
        },
    }
}

/// The command for one non-persistent invocation with the given request
/// arguments: the compiled engine takes them as they are, an interpreter
/// takes the unbuffered flag and the script first.
pub fn oneshot_command(launcher: &Launcher, args: Vec<String>) -> (c: CommandLine)
    ensures
        launcher matches Launcher::Compiled { program } ==> c.program == program
            && c.args.deep_view() =~= args.deep_view(),
        launcher matches Launcher::Script { interpreter, script } ==> c.program == interpreter
            && c.args.deep_view() =~= seq!["-u"@, script@] + args.deep_view(),
{
    match launcher {
        Launcher::Compiled { program } => CommandLine { program: program.clone(), args },
        Launcher::Script { interpreter, script } => {
            let ghost tail = args.deep_view();
            let ghost argsv = args@;
            let mut full: Vec<String> = Vec::new();
            full.push(String::from_str("-u"));
            full.push(script.clone());
            let mut args = args;
            full.append(&mut args);
            proof {
                let target = seq!["-u"@, script@] + tail;
                assert forall|i: int| 0 <= i < full.deep_view().len() implies full.deep_view()[i]
                    == target[i] by {
                    if i >= 2 {
                        assert(full@[i] == argsv[i - 2]);
                    }
                }
                assert(full.deep_view() =~= target);
            }
            CommandLine { program: interpreter.clone(), args: full }
        },
    }
}

} // verus!
