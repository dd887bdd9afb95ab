//! From a program's path to the way it is started.

use vstd::prelude::*;
use vstd::string::{StringExecFns, StringSliceAdditionalSpecFns};
use vstd::utf8::encode_utf8_decode_utf8;

verus! {

#[verifier::external_type_specification]
#[verifier::external_body]
pub struct ExPathBuf(std::path::PathBuf);

/// How a program is brought to run, as its file extension tells.
#[derive(Clone, Copy, PartialEq, Eq, Structural, Debug)]
pub enum ProgramKind {
    /// The file is started itself.
    NativeExecutable,
    /// The file is handed to an interpreter.
    InterpretedScript,
}

/// The directory in which a program is started.
#[derive(Clone, Copy, PartialEq, Eq, Structural, Debug)]
pub enum WorkingDir {
    /// Whatever directory the process would be started in anyway.
    Inherited,
    /// The current directory of the harness, looked up when the program is
    /// started.
    Current,
}

/// The file that is started.
#[derive(Debug, PartialEq, Eq)]
pub enum Executable<'a> {
    /// The program itself, by the path it was given under.
    Program(&'a str),
    /// An interpreter, by the path it was found under.
    Interpreter(std::path::PathBuf),
}

/// A program ready to be started: the file to start, the arguments to pass
/// and the directory to start it in.
#[derive(Debug, PartialEq, Eq)]
pub struct Invocation<'a> {
    pub executable: Executable<'a>,
    pub arguments: Vec<&'a str>,
    pub working_dir: WorkingDir,
}

impl<'a> Invocation<'a> {
    /// The program at `path` is started itself, without arguments.
    pub open spec fn runs_natively(&self, path: &str) -> bool {
        &&& self.executable == Executable::Program(path)
        &&& self.arguments@.len() == 0
        &&& self.working_dir == WorkingDir::Inherited
    }

    /// An interpreter is started in the current directory, with `path` as
    /// its only argument.
    pub open spec fn interprets(&self, path: &str) -> bool {
        &&& self.executable is Interpreter
        &&& self.arguments@ == seq![path]
        &&& self.working_dir == WorkingDir::Current
    }
}

/// Why a path could not be resolved.
#[derive(Debug, PartialEq, Eq)]
pub enum ResolveError {
    /// The extension names no kind of program that can be run.
    UnsupportedProgramType(String),
    /// No interpreter for the script was found on the search path.
    InterpreterNotFound,
}

impl ResolveError {
    /// The error in words.
    pub open spec fn spec_message(&self) -> Seq<char> {
        match *self {
            ResolveError::UnsupportedProgramType(ext) => "unsupported file type "@ + ext@,
            ResolveError::InterpreterNotFound => "cannot find a python intepreter!"@,
        }
    }

    /// The error in words, for a reader.
    pub fn message(&self) -> (message: String)
        ensures
            message@ == self.spec_message(),
    {
        match self {
            ResolveError::UnsupportedProgramType(ext) => "unsupported file type ".to_owned().concat(
                ext.as_str(),
            ),
            ResolveError::InterpreterNotFound => "cannot find a python intepreter!".to_owned(),
        }
    }
}

/// The kind of program that an extension stands for: `py` is a script, no
/// extension or `exe` a native executable, and nothing else is supported.
pub open spec fn kind_of_extension(ext: Option<Seq<char>>) -> Option<ProgramKind> {
    match ext {
        None => Some(ProgramKind::NativeExecutable),
        Some(e) => if e == "py"@ {
            Some(ProgramKind::InterpretedScript)
        } else if e == "exe"@ {
            Some(ProgramKind::NativeExecutable)
        } else {
            None
        },
    }
}

/// The text of an extension, if there is one.
pub open spec fn extension_text(ext: Option<&str>) -> Option<Seq<char>> {
    match ext {
        None => None,
        Some(e) => Some(e@),
    }
}

/// Whether two texts hold the same characters.
fn same_text(a: &str, b: &str) -> (same: bool)
    ensures
        same == (a@ == b@),
{
    let x = a.as_bytes();
    let y = b.as_bytes();
    proof {
        encode_utf8_decode_utf8(a@);
        encode_utf8_decode_utf8(b@);
    }
    if x.len() != y.len() {
        return false;
    }
    let mut i: usize = 0;
    while i < x.len()
        invariant
            i <= x.len(),
            x.len() == y.len(),
            x@ == a.spec_bytes(),
            y@ == b.spec_bytes(),
            forall|k: int| 0 <= k < i ==> x[k] == y[k],
        decreases x.len() - i,
    {
        if x[i] != y[i] {
            return false;
        }
        i += 1;
    }
    assert(x@ =~= y@);
    true
}

/// Infers the kind of a program from its file extension. An extension that
/// is not supported comes back in the error.
pub fn program_kind(ext: Option<&str>) -> (kind: Result<ProgramKind, ResolveError>)
    ensures
        match kind {
            Ok(k) => kind_of_extension(extension_text(ext)) == Some(k),
            Err(ResolveError::UnsupportedProgramType(e)) => kind_of_extension(extension_text(ext))
                is None && extension_text(ext) == Some(e@),
            Err(ResolveError::InterpreterNotFound) => false,
        },
{
    match ext {
        None => Ok(ProgramKind::NativeExecutable),
        Some(e) => {
            if same_text(e, "py") {
                Ok(ProgramKind::InterpretedScript)
            } else if same_text(e, "exe") {
                Ok(ProgramKind::NativeExecutable)
            } else {
                Err(ResolveError::UnsupportedProgramType(e.to_owned()))
            }
        },
    }
}

/// The extension of a path, as the platform's path syntax defines it: the
/// part of the final component after its last dot, if that component has one
/// that is not its first character.
pub uninterp spec fn path_extension(path: Seq<char>) -> Option<Seq<char>>;

/// Asks `Path::extension` for the extension of `path`. The result is the
/// extension named by [`path_extension`]; being cut out of a text, it is
/// text itself.
#[verifier::external_body]
fn extension<'a>(path: &'a str) -> (ext: Option<&'a str>)
    ensures
        extension_text(ext) == path_extension(path@),
{
    std::path::Path::new(path).extension().and_then(|e| e.to_str())
}

/// Searches for an executable of the given name with `which::which`. What is
/// found depends on the search path and on the files of the machine, so
/// nothing is said of the result; a failed search is `None`.
#[verifier::external_body]
fn search_path(name: &str) -> (found: Option<std::path::PathBuf>) {
    which::which(name).ok()
}

/// The names under which a Python interpreter is looked for, in the order in
/// which they are tried.
pub fn interpreter_names() -> (names: Vec<&'static str>)
    ensures
        names@ == seq!["python", "python3", "python"],
{
    let mut names: Vec<&'static str> = Vec::new();
    names.push("python");
    names.push("python3");
    names.push("python");
    assert(names@ =~= seq!["python", "python3", "python"]);
    names
}

/// Whether `found` is the first hit among the outcomes of lookups made in
/// order: the outcome of a lookup before which every lookup failed, or
/// nothing where all of them failed.
pub open spec fn is_first_found(
    lookups: Seq<Option<std::path::PathBuf>>,
    found: Option<std::path::PathBuf>,
) -> bool {
    match found {
        Some(path) => exists|i: int|
            0 <= i < lookups.len() && #[trigger] lookups[i] == Some(path) && forall|j: int|
                0 <= j < i ==> (#[trigger] lookups[j]) is None,
        None => forall|i: int| 0 <= i < lookups.len() ==> (#[trigger] lookups[i]) is None,
    }
}

/// Picks the interpreter from the outcomes of the lookups, which stand in
/// the order of the names looked up: the first one found.
pub fn first_found(lookups: Vec<Option<std::path::PathBuf>>) -> (found: Option<
    std::path::PathBuf,
>)
    ensures
        is_first_found(lookups@, found),
{
    for lookup in it: lookups.into_iter()
        invariant
            it.seq() == lookups@,
            forall|j: int| 0 <= j < it.index() ==> (#[trigger] lookups@[j]) is None,
    {
        if let Some(path) = lookup {
            assert(lookups@[it.index() as int] == Some(path));
            return Some(path);
        }
    }
    None
}

/// Looks up every name of [`interpreter_names`], in order, and keeps the
/// first interpreter found.
///
/// Whether anything is found, and what, lies with the search path and the
/// files of the machine, and may differ from one call to the next: nothing
/// is promised of the result. How the outcomes of the lookups are chosen
/// from is said by [`first_found`], and what becomes of the choice by
/// [`python_command`].
fn find_interpreter() -> (found: Option<std::path::PathBuf>) {
    let names = interpreter_names();
    let mut lookups: Vec<Option<std::path::PathBuf>> = Vec::new();
    let mut i: usize = 0;
    while i < names.len()
        invariant
            i <= names.len(),
        decreases names.len() - i,
    {
        lookups.push(search_path(names[i]));
        i += 1;
    }
    first_found(lookups)
}

/// The invocation of a native executable: the file itself, no arguments.
pub fn get_exe_command<'a>(path: &'a str) -> (command: Invocation<'a>)
    ensures
        command.runs_natively(path),
{
    Invocation {
        executable: Executable::Program(path),
        arguments: Vec::new(),
        working_dir: WorkingDir::Inherited,
    }
}

/// The invocation of a script, given the outcome of the search for an
/// interpreter: the interpreter found, started in the current directory with
/// the script as its argument, or `InterpreterNotFound`.
pub fn python_command<'a>(path: &'a str, interpreter: Option<std::path::PathBuf>) -> (command:
    Result<Invocation<'a>, ResolveError>)
    ensures
        match interpreter {
            Some(found) => command is Ok && command.unwrap().interprets(path)
                && command.unwrap().executable == Executable::Interpreter(found),
            None => command is Err && command.unwrap_err() is InterpreterNotFound,
        },
{
    match interpreter {
        Some(found) => {
            let mut arguments: Vec<&'a str> = Vec::new();
            arguments.push(path);
            assert(arguments@ =~= seq![path]);
            Ok(
                Invocation {
                    executable: Executable::Interpreter(found),
                    arguments,
                    working_dir: WorkingDir::Current,
                },
            )
        },
        None => Err(ResolveError::InterpreterNotFound),
    }
}

/// The invocation of a Python script: an interpreter is searched for, and
/// the script becomes its argument. Fails only where no interpreter is
/// found.
pub fn get_python_command<'a>(path: &'a str) -> (command: Result<Invocation<'a>, ResolveError>)
    ensures
        match command {
            Ok(invocation) => invocation.interprets(path),
            Err(error) => error is InterpreterNotFound,
        },
{
    python_command(path, find_interpreter())
}

/// What resolving `path` may come to, given the extension of the path.
///
/// An unsupported extension is refused and named in the error; a native
/// executable is always resolved, to itself; a script is resolved to an
/// interpreter with the script as argument, unless none is found.
pub open spec fn resolves_to(
    command: Result<Invocation, ResolveError>,
    path: &str,
    ext: Option<Seq<char>>,
) -> bool {
    match kind_of_extension(ext) {
        None => command is Err && command.unwrap_err() is UnsupportedProgramType && ext == Some(
            command.unwrap_err()->UnsupportedProgramType_0@,
        ),
        Some(ProgramKind::NativeExecutable) => command is Ok && command.unwrap().runs_natively(
            path,
        ),
        Some(ProgramKind::InterpretedScript) => match command {
            Ok(invocation) => invocation.interprets(path),
            Err(error) => error is InterpreterNotFound,
        },
    }
}

/// Resolves the path of a program to the way it is started. Only the search
/// for an interpreter looks at the machine, and nothing is started.
pub fn get_command<'a>(path: &'a str) -> (command: Result<Invocation<'a>, ResolveError>)
    ensures
        resolves_to(command, path, path_extension(path@)),
{
    match program_kind(extension(path)) {
        Ok(ProgramKind::InterpretedScript) => get_python_command(path),
        Ok(ProgramKind::NativeExecutable) => Ok(get_exe_command(path)),
        Err(error) => Err(error),
    }
}

} // verus!
