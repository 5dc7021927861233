//! From a configuration to a launch plan.

use crate::error::{Failure, LaunchError};
use crate::grammar::Parsed;
use crate::path::{join, join_path};
use crate::resolve::{Filesystem, Snapshot};
use crate::rpy::Rpy;
use crate::text::{contains_char, same_text};
use vstd::prelude::*;

verus! {

/// The variable that names the interpreter in place of the configuration.
pub const INTERPRETER_VARIABLE: &'static str = "RPY_INTERPRETER";

/// The variable that turns on the launcher's own messages.
pub const VERBOSE_VARIABLE: &'static str = "RPY_VERBOSE";

/// The variable that holds the search path for programs.
pub const SEARCH_PATH_VARIABLE: &'static str = "PATH";

/// The variable that tells the interpreter where the project's modules are.
pub const MODULE_PATH_VARIABLE: &'static str = "PYTHONPATH";

/// The variable that keeps the user's own packages out.
pub const NO_USER_SITE_VARIABLE: &'static str = "PYTHONNOUSERSITE";

/// The variable that keeps the script's directory off the module path.
pub const SAFE_PATH_VARIABLE: &'static str = "PYTHONSAFEPATH";

/// The launcher's section of a project's configuration file. Every path in
/// it is read from the project root.
#[derive(Debug, PartialEq, Eq)]
pub struct PyConfig {
    /// The interpreter: a bare command name, or a path.
    pub interpreter: String,
    /// A directory to put in front of the search path for programs.
    pub bin_path: Option<String>,
    /// The directory of the project's modules: the project root if absent.
    pub source_root: Option<String>,
    /// A shell line to run in the project root before the launch.
    pub pre_run: Option<String>,
}

/// The mathematical value of a [`PyConfig`].
pub struct Settings {
    pub interpreter: Seq<char>,
    pub bin_path: Option<Seq<char>>,
    pub source_root: Option<Seq<char>>,
    pub pre_run: Option<Seq<char>>,
}

impl View for PyConfig {
    type V = Settings;

    open spec fn view(&self) -> Settings {
        Settings {
            interpreter: self.interpreter@,
            bin_path: self.bin_path.deep_view(),
            source_root: self.source_root.deep_view(),
            pre_run: self.pre_run.deep_view(),
        }
    }
}

/// The variables of the launcher's own environment that it reads, each with
/// its value if it is set.
#[derive(Debug, PartialEq, Eq)]
pub struct Environment {
    /// The variable that names the interpreter.
    pub interpreter: Option<String>,
    /// The variable that turns on the launcher's own messages.
    pub verbose: Option<String>,
    /// The search path for programs.
    pub search_path: Option<String>,
}

/// The mathematical value of an [`Environment`].
pub struct Variables {
    pub interpreter: Option<Seq<char>>,
    pub verbose: Option<Seq<char>>,
    pub search_path: Option<Seq<char>>,
}

impl View for Environment {
    type V = Variables;

    open spec fn view(&self) -> Variables {
        Variables {
            interpreter: self.interpreter.deep_view(),
            verbose: self.verbose.deep_view(),
            search_path: self.search_path.deep_view(),
        }
    }
}

/// All that the launch needs: what to start, with which arguments, in which
/// environment, and what to run before.
#[derive(Debug, PartialEq, Eq)]
pub struct LaunchPlan {
    /// The interpreter: a resolved path, or a bare name for the system to
    /// look up in the search path.
    pub interpreter: String,
    /// The arguments of the interpreter.
    pub args: Vec<String>,
    /// The variables to set for the interpreter, in this order.
    pub env_set: Vec<(String, String)>,
    /// The variables to take out of the interpreter's environment.
    pub env_remove: Vec<String>,
    /// The shell line to run before the launch, if there is one.
    pub pre_run: Option<String>,
    /// The project root, in which the pre-run line runs.
    pub project_root: String,
}

/// The mathematical value of a [`LaunchPlan`].
pub struct Plan {
    pub interpreter: Seq<char>,
    pub args: Seq<Seq<char>>,
    pub env_set: Seq<(Seq<char>, Seq<char>)>,
    pub env_remove: Seq<Seq<char>>,
    pub pre_run: Option<Seq<char>>,
    pub project_root: Seq<char>,
}

impl View for LaunchPlan {
    type V = Plan;

    open spec fn view(&self) -> Plan {
        Plan {
            interpreter: self.interpreter@,
            args: self.args.deep_view(),
            env_set: self.env_set.deep_view(),
            env_remove: self.env_remove.deep_view(),
            pre_run: self.pre_run.deep_view(),
            project_root: self.project_root@,
        }
    }
}

/// The launcher speaks of what it does unless the variable is unset or "0".
pub open spec fn verbose(env: Variables) -> bool {
    env.verbose matches Some(value) && value != "0"@
}

/// The interpreter as it is named: by the variable if that is set and not
/// empty, else by the configuration.
pub open spec fn named_interpreter(config: Settings, env: Variables) -> Seq<char> {
    match env.interpreter {
        Some(name) => if name.len() > 0 {
            name
        } else {
            config.interpreter
        },
        None => config.interpreter,
    }
}

/// What the interpreter name `name` stands for: a name with a separator in
/// it is a path from the project root and must resolve; any other is a bare
/// command name and stands for itself.
pub open spec fn resolve_interpreter(name: Seq<char>, root: Seq<char>, fs: Snapshot) -> Result<
    Seq<char>,
    Failure,
> {
    if name.contains('/') {
        if fs.canonical.contains_key(join(root, name)) {
            Ok(fs.canonical[join(root, name)])
        } else {
            Err(Failure::InterpreterResolutionError)
        }
    } else {
        Ok(name)
    }
}

/// The directory of the project's modules.
pub open spec fn source_root(config: Settings, root: Seq<char>) -> Seq<char> {
    join(
        root,
        match config.source_root {
            Some(fragment) => fragment,
            None => Seq::empty(),
        },
    )
}

/// The additional binary path, resolved; `Ok(None)` where none is
/// configured.
pub open spec fn resolve_bin_path(config: Settings, root: Seq<char>, fs: Snapshot) -> Result<
    Option<Seq<char>>,
    Failure,
> {
    match config.bin_path {
        Some(fragment) => if fs.canonical.contains_key(join(root, fragment)) {
            Ok(Some(fs.canonical[join(root, fragment)]))
        } else {
            Err(Failure::BinPathResolutionError)
        },
        None => Ok(None),
    }
}

/// The search path with `bin` put in front: `bin`, one separator, and the
/// search path as it was, which is empty where the variable is unset.
pub open spec fn search_path_with(bin: Seq<char>, ambient: Option<Seq<char>>) -> Seq<char> {
    bin + seq![':'] + match ambient {
        Some(path) => path,
        None => Seq::empty(),
    }
}

/// The variables to set for the interpreter.
pub open spec fn variables_to_set(
    config: Settings,
    root: Seq<char>,
    env: Variables,
    bin: Option<Seq<char>>,
) -> Seq<(Seq<char>, Seq<char>)> {
    let fixed = seq![
        (MODULE_PATH_VARIABLE@, source_root(config, root)),
        (NO_USER_SITE_VARIABLE@, "1"@),
        (SAFE_PATH_VARIABLE@, "1"@),
    ];
    match bin {
        Some(dir) => fixed.push((SEARCH_PATH_VARIABLE@, search_path_with(dir, env.search_path))),
        None => fixed,
    }
}

/// The launch plan. The interpreter is resolved first and the additional
/// binary path second, so that of two failures that of the interpreter is
/// reported.
pub open spec fn plan_of(
    config: Settings,
    root: Seq<char>,
    parsed: Parsed,
    env: Variables,
    fs: Snapshot,
) -> Result<Plan, Failure> {
    match resolve_interpreter(named_interpreter(config, env), root, fs) {
        Err(failure) => Err(failure),
        Ok(interpreter) => match resolve_bin_path(config, root, fs) {
            Err(failure) => Err(failure),
            Ok(bin) => Ok(
                Plan {
                    interpreter,
                    args: parsed.python_args + parsed.command_args,
                    env_set: variables_to_set(config, root, env, bin),
                    env_remove: seq![INTERPRETER_VARIABLE@],
                    pre_run: config.pre_run,
                    project_root: root,
                },
            ),
        },
    }
}

/// The paths that a plan needs resolved: that of the interpreter, where it
/// is named by a path, and the additional binary path, where one is
/// configured.
pub open spec fn paths_needed(config: Settings, root: Seq<char>, env: Variables) -> Seq<
    Seq<char>,
> {
    let name = named_interpreter(config, env);
    let first = if name.contains('/') {
        seq![join(root, name)]
    } else {
        Seq::empty()
    };
    match config.bin_path {
        Some(fragment) => first.push(join(root, fragment)),
        None => first,
    }
}

/// With the variable set and not empty, the interpreter is what the
/// variable's value stands for, whatever the configuration names: the plan
/// holds the resolution of that value, and there is no plan where that value
/// does not resolve.
pub proof fn lemma_variable_overrides_configuration(
    config: Settings,
    root: Seq<char>,
    parsed: Parsed,
    env: Variables,
    fs: Snapshot,
    name: Seq<char>,
)
    requires
        env.interpreter == Some(name),
        name.len() > 0,
    ensures
        named_interpreter(config, env) == name,
        plan_of(config, root, parsed, env, fs) matches Ok(plan) ==> resolve_interpreter(
            name,
            root,
            fs,
        ) == Ok::<Seq<char>, Failure>(plan.interpreter),
        resolve_interpreter(name, root, fs) is Err ==> plan_of(config, root, parsed, env, fs)
            == Err::<Plan, Failure>(Failure::InterpreterResolutionError),
{
}

/// With an additional binary path configured, the interpreter's search path
/// is the resolved directory, one separator, and the search path as it was,
/// unchanged. Where the directory resolves to itself and the project root
/// does not end in a separator, that directory is the root, a separator and
/// the configured fragment.
pub proof fn lemma_bin_path_leads_search_path(
    config: Settings,
    root: Seq<char>,
    parsed: Parsed,
    env: Variables,
    fs: Snapshot,
    fragment: Seq<char>,
    plan: Plan,
)
    requires
        config.bin_path == Some(fragment),
        plan_of(config, root, parsed, env, fs) == Ok::<Plan, Failure>(plan),
    ensures
        ({
            let dir = fs.canonical[join(root, fragment)];
            let ambient = match env.search_path {
                Some(path) => path,
                None => Seq::empty(),
            };
            let entry = plan.env_set.last();
            &&& fs.canonical.contains_key(join(root, fragment))
            &&& plan.env_set.len() == 4
            &&& entry.0 == SEARCH_PATH_VARIABLE@
            &&& entry.1 == dir + seq![':'] + ambient
            &&& entry.1.take(dir.len() as int) == dir
            &&& entry.1[dir.len() as int] == ':'
            &&& entry.1.skip(dir.len() as int + 1) == ambient
            &&& (dir == join(root, fragment) && root.len() > 0 && root.last() != '/' && !(
            fragment.len() > 0 && fragment[0] == '/')) ==> entry.1 == root + seq!['/'] + fragment
                + seq![':'] + ambient
        }),
{
    let dir = fs.canonical[join(root, fragment)];
    let ambient = match env.search_path {
        Some(path) => path,
        None => Seq::empty(),
    };
    let value = dir + seq![':'] + ambient;
    assert(value.take(dir.len() as int) =~= dir);
    assert(value.skip(dir.len() as int + 1) =~= ambient);
}

impl Environment {
    /// Whether the launcher speaks of what it does.
    pub fn is_verbose(&self) -> (on: bool)
        ensures
            on == verbose(self@),
    {
        match &self.verbose {
            Some(value) => !same_text(value.as_str(), "0"),
            None => false,
        }
    }
}

/// A copy of an optional string.
fn copy_of(value: &Option<String>) -> (copy: Option<String>)
    ensures
        copy.deep_view() == value.deep_view(),
{
    match value {
        Some(text) => Some(text.clone()),
        None => None,
    }
}

/// Appends copies of the tokens of `from` to `out`, in order.
fn append_copies(out: &mut Vec<String>, from: &Vec<String>)
    ensures
        final(out).deep_view() == old(out).deep_view() + from.deep_view(),
{
    let ghost before = out.deep_view();
    let mut i: usize = 0;
    while i < from.len()
        invariant
            i <= from.len(),
            out.deep_view() == before + from.deep_view().take(i as int),
        decreases from.len() - i,
    {
        let ghost so_far = out.deep_view();
        out.push(from[i].clone());
        proof {
            assert(out.deep_view() =~= so_far.push(from[i as int]@));
            assert(before + from.deep_view().take(i + 1) =~= so_far.push(from[i as int]@));
        }
        i = i + 1;
    }
    assert(from.deep_view().take(from.len() as int) =~= from.deep_view());
}

/// The interpreter as it is named.
pub fn interpreter_name<'a>(config: &'a PyConfig, env: &'a Environment) -> (name: &'a String)
    ensures
        name@ == named_interpreter(config@, env@),
{
    match &env.interpreter {
        Some(name) => {
            if name.as_str().unicode_len() > 0 {
                name
            } else {
                &config.interpreter
            }
        },
        None => &config.interpreter,
    }
}

/// The paths that [`plan`] looks up in its snapshot of the filesystem.
pub fn paths_to_resolve(config: &PyConfig, project_root: &str, env: &Environment) -> (paths: Vec<
    String,
>)
    ensures
        paths.deep_view() == paths_needed(config@, project_root@, env@),
{
    let mut paths: Vec<String> = Vec::new();
    assert(paths.deep_view() =~= Seq::empty());
    let name = interpreter_name(config, env);
    if contains_char(name.as_str(), '/') {
        paths.push(join_path(project_root, name.as_str()));
        assert(paths.deep_view() =~= seq![join(project_root@, name@)]);
    }
    match &config.bin_path {
        Some(fragment) => {
            let ghost first = paths.deep_view();
            paths.push(join_path(project_root, fragment.as_str()));
            assert(paths.deep_view() =~= first.push(join(project_root@, fragment@)));
        },
        None => {},
    }
    paths
}

/// Derives the launch plan from the configuration found at `project_root`,
/// the classified command line, the launcher's environment, and what is
/// known of the filesystem.
pub fn plan(
    config: &PyConfig,
    project_root: &str,
    parsed: &Rpy,
    env: &Environment,
    fs: &Filesystem,
) -> (planned: Result<LaunchPlan, LaunchError>)
    ensures
        match planned {
            Ok(plan) => plan_of(config@, project_root@, parsed@, env@, fs@) == Ok::<Plan, Failure>(
                plan@,
            ),
            Err(failure) => plan_of(config@, project_root@, parsed@, env@, fs@) == Err::<
                Plan,
                Failure,
            >(failure@),
        },
{
    let name = interpreter_name(config, env);
    let interpreter = if contains_char(name.as_str(), '/') {
        let path = join_path(project_root, name.as_str());
        match fs.canonicalize(path.as_str()) {
            Some(resolved) => resolved,
            None => {
                return Err(LaunchError::InterpreterResolutionError);
            },
        }
    } else {
        name.clone()
    };
    let bin = match &config.bin_path {
        Some(fragment) => {
            let path = join_path(project_root, fragment.as_str());
            match fs.canonicalize(path.as_str()) {
                Some(resolved) => Some(resolved),
                None => {
                    return Err(LaunchError::BinPathResolutionError);
                },
            }
        },
        None => None,
    };
    let modules = match &config.source_root {
        Some(fragment) => join_path(project_root, fragment.as_str()),
        None => join_path(project_root, ""),
    };
    proof {
        reveal_strlit("");
        assert(""@ =~= Seq::<char>::empty());
    }
    let mut env_set: Vec<(String, String)> = Vec::new();
    env_set.push((MODULE_PATH_VARIABLE.to_owned(), modules));
    env_set.push((NO_USER_SITE_VARIABLE.to_owned(), "1".to_owned()));
    env_set.push((SAFE_PATH_VARIABLE.to_owned(), "1".to_owned()));
    let ghost fixed = env_set.deep_view();
    match bin {
        Some(dir) => {
            let mut value = dir;
            proof {
                reveal_strlit(":");
                assert(":"@ =~= seq![':']);
            }
            value.append(":");
            match &env.search_path {
                Some(ambient) => {
                    value.append(ambient.as_str());
                },
                None => {
                    assert(value@ + Seq::<char>::empty() =~= value@);
                },
            }
            env_set.push((SEARCH_PATH_VARIABLE.to_owned(), value));
            assert(env_set.deep_view() =~= fixed.push((SEARCH_PATH_VARIABLE@, value@)));
        },
        None => {},
    }
    assert(fixed =~= seq![
        (MODULE_PATH_VARIABLE@, source_root(config@, project_root@)),
        (NO_USER_SITE_VARIABLE@, "1"@),
        (SAFE_PATH_VARIABLE@, "1"@),
    ]);
    let mut env_remove: Vec<String> = Vec::new();
    env_remove.push(INTERPRETER_VARIABLE.to_owned());
    assert(env_remove.deep_view() =~= seq![INTERPRETER_VARIABLE@]);
    let mut args: Vec<String> = Vec::new();
    assert(args.deep_view() =~= Seq::empty());
    append_copies(&mut args, &parsed.python_args);
    append_copies(&mut args, &parsed.command_args);
    assert(Seq::<Seq<char>>::empty() + parsed.python_args.deep_view()
        =~= parsed.python_args.deep_view());
    Ok(
        LaunchPlan {
            interpreter,
            args,
            env_set,
            env_remove,
            pre_run: copy_of(&config.pre_run),
            project_root: project_root.to_owned(),
        },
    )
}

} // verus!
