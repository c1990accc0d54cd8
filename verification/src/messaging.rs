use vstd::prelude::*;

verus! {

/// The kind of tool that manages a discovered interpreter.
#[derive(Clone, Copy, Debug, PartialEq, Eq, Structural)]
pub enum EnvManagerType {
    Pyenv,
}

/// The manager descriptor reported at most once per discovery run.
#[verifier::ext_equal]
pub struct EnvManager {
    pub executable_path: String,
    pub version: Option<String>,
    pub tool: EnvManagerType,
}

/// The mathematical value of an `EnvManager`.
#[verifier::ext_equal]
pub ghost struct EnvManagerV {
    pub executable_path: Seq<char>,
    pub version: Option<Seq<char>>,
    pub tool: EnvManagerType,
}

impl View for EnvManager {
    type V = EnvManagerV;

    open spec fn view(&self) -> EnvManagerV {
        EnvManagerV {
            executable_path: self.executable_path@,
            version: self.version.deep_view(),
            tool: self.tool,
        }
    }
}

impl DeepView for EnvManager {
    type V = EnvManagerV;

    open spec fn deep_view(&self) -> EnvManagerV {
        self.view()
    }
}

impl EnvManager {
    pub fn new(executable_path: String, version: Option<String>, tool: EnvManagerType) -> (r:
        EnvManager)
        ensures
            r == (EnvManager { executable_path, version, tool }),
    {
        EnvManager { executable_path, version, tool }
    }
}

/// A duplicate of an `Option<String>` holding the same characters.
pub fn clone_option_string(s: &Option<String>) -> (r: Option<String>)
    ensures
        r == *s,
{
    match s {
        Some(v) => Some(v.clone()),
        None => None,
    }
}

/// A duplicate of a manager descriptor; every record of one run carries
/// the same manager value.
pub fn clone_option_manager(m: &Option<EnvManager>) -> (r: Option<EnvManager>)
    ensures
        r == *m,
{
    match m {
        Some(em) => Some(
            EnvManager {
                executable_path: em.executable_path.clone(),
                version: clone_option_string(&em.version),
                tool: em.tool,
            },
        ),
        None => None,
    }
}

/// The category tag of a discovered environment: a bare interpreter
/// install, or a pyenv-managed virtual environment.
#[derive(Clone, Copy, Debug, PartialEq, Eq, Structural)]
pub enum PythonEnvironmentCategory {
    Pyenv,
    PyenvVirtualEnv,
}

/// One discovered interpreter, as handed to the reporter.
#[verifier::ext_equal]
pub struct PythonEnvironment {
    pub display_name: Option<String>,
    pub python_executable_path: Option<String>,
    pub category: PythonEnvironmentCategory,
    pub version: Option<String>,
    pub env_path: Option<String>,
    pub sys_prefix_path: Option<String>,
    pub env_manager: Option<EnvManager>,
    pub python_run_command: Option<Vec<String>>,
}

/// The mathematical value of a `PythonEnvironment`.
#[verifier::ext_equal]
pub ghost struct PythonEnvironmentV {
    pub display_name: Option<Seq<char>>,
    pub python_executable_path: Option<Seq<char>>,
    pub category: PythonEnvironmentCategory,
    pub version: Option<Seq<char>>,
    pub env_path: Option<Seq<char>>,
    pub sys_prefix_path: Option<Seq<char>>,
    pub env_manager: Option<EnvManagerV>,
    pub python_run_command: Option<Seq<Seq<char>>>,
}

impl View for PythonEnvironment {
    type V = PythonEnvironmentV;

    open spec fn view(&self) -> PythonEnvironmentV {
        PythonEnvironmentV {
            display_name: self.display_name.deep_view(),
            python_executable_path: self.python_executable_path.deep_view(),
            category: self.category,
            version: self.version.deep_view(),
            env_path: self.env_path.deep_view(),
            sys_prefix_path: self.sys_prefix_path.deep_view(),
            env_manager: self.env_manager.deep_view(),
            python_run_command: self.python_run_command.deep_view(),
        }
    }
}

impl DeepView for PythonEnvironment {
    type V = PythonEnvironmentV;

    open spec fn deep_view(&self) -> PythonEnvironmentV {
        self.view()
    }
}

impl PythonEnvironment {
    pub fn new(
        display_name: Option<String>,
        python_executable_path: Option<String>,
        category: PythonEnvironmentCategory,
        version: Option<String>,
        env_path: Option<String>,
        sys_prefix_path: Option<String>,
        env_manager: Option<EnvManager>,
        python_run_command: Option<Vec<String>>,
    ) -> (r: PythonEnvironment)
        ensures
            r == (PythonEnvironment {
                display_name,
                python_executable_path,
                category,
                version,
                env_path,
                sys_prefix_path,
                env_manager,
                python_run_command,
            }),
    {
        PythonEnvironment {
            display_name,
            python_executable_path,
            category,
            version,
            env_path,
            sys_prefix_path,
            env_manager,
            python_run_command,
        }
    }
}

} // verus!
