use vstd::prelude::*;

verus! {

/// Snapshot of the host probe's answers: the two pyenv environment
/// variables, the user's home directory, the ordered known global search
/// directories, and whether the host follows the Windows directory layout.
///
/// The host gathers these values once and hands them to the locator, so
/// the discovery logic itself never touches the process environment.
pub struct Environment {
    pub pyenv_root_var: Option<String>,
    pub pyenv_var: Option<String>,
    pub user_home: Option<String>,
    pub known_global_search_locations: Vec<String>,
    pub windows: bool,
}

/// The mathematical value of an `Environment` snapshot.
pub ghost struct EnvironmentV {
    pub pyenv_root_var: Option<Seq<char>>,
    pub pyenv_var: Option<Seq<char>>,
    pub user_home: Option<Seq<char>>,
    pub known_global_search_locations: Seq<Seq<char>>,
    pub windows: bool,
}

impl View for Environment {
    type V = EnvironmentV;

    open spec fn view(&self) -> EnvironmentV {
        EnvironmentV {
            pyenv_root_var: self.pyenv_root_var.deep_view(),
            pyenv_var: self.pyenv_var.deep_view(),
            user_home: self.user_home.deep_view(),
            known_global_search_locations: self.known_global_search_locations.deep_view(),
            windows: self.windows,
        }
    }
}

} // verus!
