use pyenv_locator::known::Environment;
use pyenv_locator::messaging::EnvManagerType;
use pyenv_locator::messaging::PythonEnvironmentCategory;
use pyenv_locator::pyenv::get_binary_from_known_paths;
use pyenv_locator::pyenv::get_home_pyenv_dir;
use pyenv_locator::pyenv::get_pure_python_environment;
use pyenv_locator::pyenv::get_pyenv_binary_candidates;
use pyenv_locator::pyenv::get_pyenv_dir;
use pyenv_locator::pyenv::get_virtual_env_environment;
use pyenv_locator::pyenv::list_pyenv_environments;
use pyenv_locator::pyenv::PyEnv;
use pyenv_locator::pyenv::PythonEnv;
use pyenv_locator::pyenv::VersionDirEntry;
use pyenv_locator::strutil::file_name;

fn probe(
    pyenv_root_var: Option<&str>,
    pyenv_var: Option<&str>,
    user_home: Option<&str>,
    known: &[&str],
    windows: bool,
) -> Environment {
    Environment {
        pyenv_root_var: pyenv_root_var.map(|s| s.to_string()),
        pyenv_var: pyenv_var.map(|s| s.to_string()),
        user_home: user_home.map(|s| s.to_string()),
        known_global_search_locations: known.iter().map(|s| s.to_string()).collect(),
        windows,
    }
}

#[test]
fn pyenv_root_takes_precedence() {
    let env = probe(
        Some("/opt/pyenv"),
        Some("/elsewhere"),
        Some("/home/u"),
        &[],
        false,
    );
    assert_eq!(get_pyenv_dir(&env), Some("/opt/pyenv".to_string()));
}

#[test]
fn pyenv_var_is_used_when_pyenv_root_is_absent() {
    let env = probe(None, Some("/elsewhere"), Some("/home/u"), &[], false);
    assert_eq!(get_pyenv_dir(&env), Some("/elsewhere".to_string()));
}

#[test]
fn home_default_without_environment_variables() {
    let env = probe(None, None, Some("/home/u"), &[], false);
    assert_eq!(get_pyenv_dir(&env), Some("/home/u/.pyenv".to_string()));
    let win = probe(None, None, Some("/home/u"), &[], true);
    assert_eq!(
        get_pyenv_dir(&win),
        Some("/home/u/.pyenv/pyenv-win".to_string())
    );
}

#[test]
fn no_home_and_no_variables_means_no_root() {
    let env = probe(None, None, None, &[], false);
    assert_eq!(get_pyenv_dir(&env), None);
    assert_eq!(get_home_pyenv_dir(&env), None);
    assert_eq!(get_pyenv_binary_candidates(&env), None);
}

#[test]
fn manager_binary_candidates_in_lookup_order() {
    let env = probe(
        Some("/opt/pyenv"),
        None,
        None,
        &["/usr/local/bin", "/usr/bin"],
        false,
    );
    assert_eq!(
        get_binary_from_known_paths(&env),
        vec![
            "/usr/local/bin/pyenv".to_string(),
            "/usr/bin/pyenv".to_string()
        ]
    );
    assert_eq!(
        get_pyenv_binary_candidates(&env),
        Some(vec![
            "/opt/pyenv/bin/pyenv".to_string(),
            "/usr/local/bin/pyenv".to_string(),
            "/usr/bin/pyenv".to_string()
        ])
    );
}

#[test]
fn file_name_is_the_final_path_segment() {
    assert_eq!(file_name(&"/opt/pyenv/versions/3.10.0".to_string()), "3.10.0");
    assert_eq!(file_name(&"plain".to_string()), "plain");
}

#[test]
fn pure_environment_is_built_from_a_version_directory() {
    let exe = "/opt/pyenv/versions/3.11.4/bin/python".to_string();
    let dir = "/opt/pyenv/versions/3.11.4".to_string();
    let rec = get_pure_python_environment(&exe, &dir, &None).unwrap();
    assert_eq!(rec.display_name, None);
    assert_eq!(rec.python_executable_path, Some(exe.clone()));
    assert_eq!(rec.category, PythonEnvironmentCategory::Pyenv);
    assert_eq!(rec.version, Some("3.11.4".to_string()));
    assert_eq!(rec.env_path, Some(dir.clone()));
    assert_eq!(rec.sys_prefix_path, Some(dir));
    assert!(rec.env_manager.is_none());
    assert_eq!(rec.python_run_command, Some(vec![exe]));
}

#[test]
fn pure_environment_is_not_built_from_an_unclassifiable_name() {
    let exe = "/opt/pyenv/versions/myenv/bin/python".to_string();
    let dir = "/opt/pyenv/versions/myenv".to_string();
    assert!(get_pure_python_environment(&exe, &dir, &None).is_none());
}

#[test]
fn virtual_environment_needs_a_parsed_configuration() {
    let exe = "/opt/pyenv/versions/myenv/bin/python".to_string();
    let dir = "/opt/pyenv/versions/myenv".to_string();
    let rec =
        get_virtual_env_environment(&exe, &dir, &Some("3.11.4".to_string()), &None).unwrap();
    assert_eq!(rec.display_name, Some("myenv".to_string()));
    assert_eq!(rec.category, PythonEnvironmentCategory::PyenvVirtualEnv);
    assert_eq!(rec.version, Some("3.11.4".to_string()));
    assert_eq!(rec.python_run_command, Some(vec![exe]));
    let exe2 = "/opt/pyenv/versions/other/bin/python".to_string();
    let dir2 = "/opt/pyenv/versions/other".to_string();
    assert!(get_virtual_env_environment(&exe2, &dir2, &None, &None).is_none());
}

fn sample_entries() -> Vec<VersionDirEntry> {
    vec![
        VersionDirEntry {
            path: "/opt/pyenv/versions/3.11.4".to_string(),
            executable: Some("/opt/pyenv/versions/3.11.4/bin/python".to_string()),
            cfg_version: None,
        },
        VersionDirEntry {
            path: "/opt/pyenv/versions/myenv".to_string(),
            executable: Some("/opt/pyenv/versions/myenv/bin/python".to_string()),
            cfg_version: Some("3.11.4".to_string()),
        },
    ]
}

#[test]
fn listing_builds_one_record_per_classifiable_directory() {
    let envs = list_pyenv_environments(&None, &Some(sample_entries())).unwrap();
    assert_eq!(envs.len(), 2);
    assert_eq!(envs[0].category, PythonEnvironmentCategory::Pyenv);
    assert_eq!(envs[0].display_name, None);
    assert_eq!(envs[0].version, Some("3.11.4".to_string()));
    assert_eq!(envs[1].category, PythonEnvironmentCategory::PyenvVirtualEnv);
    assert_eq!(envs[1].display_name, Some("myenv".to_string()));
    assert_eq!(envs[1].version, Some("3.11.4".to_string()));
    assert!(list_pyenv_environments(&None, &None).is_none());
}

#[test]
fn listing_skips_entries_without_an_executable_or_classification() {
    let entries = vec![
        VersionDirEntry {
            path: "/opt/pyenv/versions/3.12.1".to_string(),
            executable: None,
            cfg_version: None,
        },
        VersionDirEntry {
            path: "/opt/pyenv/versions/stray".to_string(),
            executable: Some("/opt/pyenv/versions/stray/bin/python".to_string()),
            cfg_version: None,
        },
    ];
    let envs = list_pyenv_environments(&None, &Some(entries)).unwrap();
    assert!(envs.is_empty());
}

#[test]
fn gather_populates_the_registry_with_deduplicated_records() {
    let env = probe(Some("/opt/pyenv"), None, None, &[], false);
    let mut locator = PyEnv::with(env);
    assert!(locator
        .gather(None, Some(sample_entries()))
        .is_some());
    assert_eq!(locator.environments.len(), 2);
    assert!(locator.manager.is_none());
    assert!(locator.is_known(&"/opt/pyenv/versions/3.11.4/bin/python".to_string()));
    assert!(locator.is_known(&"/opt/pyenv/versions/myenv/bin/python".to_string()));
    assert!(!locator.is_known(&"/somewhere/else/python".to_string()));
}

#[test]
fn duplicate_executable_paths_keep_one_record_and_the_last_write_wins() {
    let shared = "/opt/pyenv/versions/3.10.0/bin/python".to_string();
    let entries = vec![
        VersionDirEntry {
            path: "/opt/pyenv/versions/3.10.0".to_string(),
            executable: Some(shared.clone()),
            cfg_version: None,
        },
        VersionDirEntry {
            path: "/opt/pyenv/versions/alias".to_string(),
            executable: Some(shared.clone()),
            cfg_version: Some("3.10.0".to_string()),
        },
    ];
    let env = probe(Some("/opt/pyenv"), None, None, &[], false);
    let mut locator = PyEnv::with(env);
    assert!(locator.gather(None, Some(entries)).is_some());
    assert_eq!(locator.environments.len(), 1);
    let rec = &locator.environments[0];
    assert_eq!(rec.python_executable_path, Some(shared));
    assert_eq!(rec.category, PythonEnvironmentCategory::PyenvVirtualEnv);
    assert_eq!(rec.display_name, Some("alias".to_string()));
}

#[test]
fn nothing_is_known_before_gather() {
    let env = probe(Some("/opt/pyenv"), None, None, &[], false);
    let locator = PyEnv::with(env);
    assert!(!locator.is_known(&"/opt/pyenv/versions/3.11.4/bin/python".to_string()));
    assert!(locator.environments.is_empty());
    assert!(locator.manager.is_none());
}

#[test]
fn track_if_compatible_always_declines() {
    let env = probe(Some("/opt/pyenv"), None, None, &[], false);
    let mut locator = PyEnv::with(env);
    let candidate = PythonEnv {
        executable: "/usr/bin/python3".to_string(),
        path: None,
        version: None,
    };
    assert!(!locator.track_if_compatible(&candidate));
    let candidate2 = PythonEnv {
        executable: "/opt/pyenv/versions/3.11.4/bin/python".to_string(),
        path: Some("/opt/pyenv/versions/3.11.4".to_string()),
        version: Some("3.11.4".to_string()),
    };
    assert!(!locator.track_if_compatible(&candidate2));
}

#[test]
fn gather_fails_without_a_versions_listing_and_reports_nothing() {
    let env = probe(None, None, None, &[], false);
    let mut locator = PyEnv::with(env);
    assert!(locator.gather(None, None).is_none());
    assert!(locator.environments.is_empty());
    assert!(locator.manager.is_none());
}

#[test]
fn gather_records_the_resolved_manager() {
    let env = probe(Some("/opt/pyenv"), None, None, &[], false);
    let mut locator = PyEnv::with(env);
    assert!(locator
        .gather(
            Some("/opt/pyenv/bin/pyenv".to_string()),
            Some(sample_entries())
        )
        .is_some());
    let manager = locator.manager.as_ref().unwrap();
    assert_eq!(manager.executable_path, "/opt/pyenv/bin/pyenv");
    assert_eq!(manager.version, None);
    assert!(matches!(manager.tool, EnvManagerType::Pyenv));
    for rec in &locator.environments {
        let attached = rec.env_manager.as_ref().unwrap();
        assert_eq!(attached.executable_path, "/opt/pyenv/bin/pyenv");
    }
}

#[test]
fn failed_gather_keeps_earlier_records_but_stores_the_manager_outcome() {
    let env = probe(Some("/opt/pyenv"), None, None, &[], false);
    let mut locator = PyEnv::with(env);
    assert!(locator
        .gather(
            Some("/opt/pyenv/bin/pyenv".to_string()),
            Some(sample_entries())
        )
        .is_some());
    assert_eq!(locator.environments.len(), 2);
    // A later pass over an unreadable versions directory fails and
    // leaves the record collection as it was, while the manager
    // resolution outcome of that pass is stored.
    assert!(locator.gather(None, None).is_none());
    assert_eq!(locator.environments.len(), 2);
    assert!(locator.manager.is_none());
}
