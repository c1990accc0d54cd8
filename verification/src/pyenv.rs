use vstd::prelude::*;
use vstd::assert_seqs_equal;
use vstd::string::StringExecFns;

use crate::known::Environment;
use crate::known::EnvironmentV;
use crate::messaging::EnvManager;
use crate::messaging::EnvManagerType;
use crate::messaging::EnvManagerV;
use crate::messaging::PythonEnvironment;
use crate::messaging::PythonEnvironmentCategory;
use crate::messaging::PythonEnvironmentV;
use crate::messaging::clone_option_manager;
use crate::strutil::file_name;
use crate::strutil::final_segment;
use crate::version::classified_version;
use crate::version::get_pyenv_version;

verus! {

/// The platform-default pyenv directory under the user's home:
/// `<home>/.pyenv/pyenv-win` on the Windows layout, `<home>/.pyenv`
/// elsewhere; nothing when the home directory is unavailable.
pub open spec fn home_pyenv_dir_of(e: EnvironmentV) -> Option<Seq<char>> {
    match e.user_home {
        Some(h) => Some(
            h + if e.windows {
                "/.pyenv/pyenv-win"@
            } else {
                "/.pyenv"@
            },
        ),
        None => None,
    }
}

/// The candidate pyenv root: `PYENV_ROOT` first, then `PYENV`, then the
/// home default; a candidate only, no existence check is made here.
pub open spec fn pyenv_dir_of(e: EnvironmentV) -> Option<Seq<char>> {
    if e.pyenv_root_var is Some {
        e.pyenv_root_var
    } else if e.pyenv_var is Some {
        e.pyenv_var
    } else {
        home_pyenv_dir_of(e)
    }
}

/// The platform-default pyenv directory under the user's home.
pub fn get_home_pyenv_dir(environment: &Environment) -> (r: Option<String>)
    ensures
        r.deep_view() == home_pyenv_dir_of(environment@),
{
    match &environment.user_home {
        Some(home) => {
            let mut dir: String = home.clone();
            if environment.windows {
                dir.append("/.pyenv/pyenv-win");
            } else {
                dir.append("/.pyenv");
            }
            Some(dir)
        },
        None => None,
    }
}

/// Resolve the candidate pyenv installation root, first match winning:
/// the `PYENV_ROOT` variable, the `PYENV` variable, the home default.
pub fn get_pyenv_dir(environment: &Environment) -> (r: Option<String>)
    ensures
        r.deep_view() == pyenv_dir_of(environment@),
{
    match &environment.pyenv_root_var {
        Some(dir) => Some(dir.clone()),
        None => match &environment.pyenv_var {
            Some(dir) => Some(dir.clone()),
            None => get_home_pyenv_dir(environment),
        },
    }
}

/// Candidate locations of the pyenv executable among the known global
/// search directories, in the order the host supplies them.
pub open spec fn known_path_candidates_of(e: EnvironmentV) -> Seq<Seq<char>> {
    e.known_global_search_locations.map(|i: int, k: Seq<char>| k + "/pyenv"@)
}

/// The `pyenv` file name under each known global search directory, in
/// order; the host checks which of them exists on disk.
#[verifier::loop_isolation(false)]
pub fn get_binary_from_known_paths(environment: &Environment) -> (r: Vec<String>)
    ensures
        r.deep_view() == known_path_candidates_of(environment@),
{
    let locs: &Vec<String> = &environment.known_global_search_locations;
    let n: usize = locs.len();
    let mut out: Vec<String> = Vec::new();
    let mut i: usize = 0;
    while i < n
        invariant
            i <= n,
            n == locs@.len(),
            out.deep_view() =~= known_path_candidates_of(environment@).take(i as int),
        decreases n - i,
    {
        let mut candidate: String = locs[i].clone();
        candidate.append("/pyenv");
        out.push(candidate);
        proof {
            assert(out.deep_view() =~= known_path_candidates_of(environment@).take(i + 1));
        }
        i = i + 1;
    }
    proof {
        assert(known_path_candidates_of(environment@).take(n as int) =~= known_path_candidates_of(
            environment@,
        ));
    }
    out
}

/// Every candidate location of the pyenv executable, in lookup order:
/// `<root>/bin/pyenv` under the resolved root first, then the known
/// global search directories; nothing when no root can be resolved, in
/// which case the manager lookup fails outright.
pub open spec fn pyenv_binary_candidates_of(e: EnvironmentV) -> Option<Seq<Seq<char>>> {
    match pyenv_dir_of(e) {
        Some(root) => Some(seq![root + "/bin/pyenv"@] + known_path_candidates_of(e)),
        None => None,
    }
}

/// The ordered candidate locations of the pyenv executable itself; the
/// host takes the first that exists on disk, and none existing only
/// means no manager metadata will be attached to results.
#[verifier::loop_isolation(false)]
pub fn get_pyenv_binary_candidates(environment: &Environment) -> (r: Option<Vec<String>>)
    ensures
        r.deep_view() == pyenv_binary_candidates_of(environment@),
{
    match get_pyenv_dir(environment) {
        Some(root) => {
            let mut bin: String = root;
            bin.append("/bin/pyenv");
            let mut out: Vec<String> = get_binary_from_known_paths(environment);
            let ghost pre: Seq<String> = out@;
            out.insert(0, bin);
            proof {
                let cands = known_path_candidates_of(environment@);
                let full = pyenv_binary_candidates_of(environment@)->Some_0;
                pre.insert_ensures(0, bin);
                assert_seqs_equal!(out.deep_view() == full, k => {
                    if k == 0 {
                        assert(out@[0] == bin);
                    } else {
                        assert(out@[k] == pre[k - 1]);
                        assert(full[k] == cands[k - 1]);
                    }
                });
            }
            Some(out)
        },
        None => None,
    }
}

/// The record built for a bare interpreter install: no display name,
/// category `Pyenv`, the classified version, the version directory as
/// both environment path and prefix, the shared manager, and a run
/// command of exactly the executable path.
pub open spec fn pure_record_of(
    executable: Seq<char>,
    path: Seq<char>,
    version: Seq<char>,
    manager: Option<EnvManagerV>,
) -> PythonEnvironmentV {
    PythonEnvironmentV {
        display_name: None,
        python_executable_path: Some(executable),
        category: PythonEnvironmentCategory::Pyenv,
        version: Some(version),
        env_path: Some(path),
        sys_prefix_path: Some(path),
        env_manager: manager,
        python_run_command: Some(seq![executable]),
    }
}

/// The record built for a pyenv-managed virtual environment: the
/// directory's final segment as display name, category
/// `PyenvVirtualEnv`, the version its configuration file declares, the
/// version directory as both environment path and prefix, the shared
/// manager, and a run command of exactly the executable path.
pub open spec fn virtual_record_of(
    executable: Seq<char>,
    path: Seq<char>,
    version: Seq<char>,
    manager: Option<EnvManagerV>,
) -> PythonEnvironmentV {
    PythonEnvironmentV {
        display_name: Some(final_segment(path)),
        python_executable_path: Some(executable),
        category: PythonEnvironmentCategory::PyenvVirtualEnv,
        version: Some(version),
        env_path: Some(path),
        sys_prefix_path: Some(path),
        env_manager: manager,
        python_run_command: Some(seq![executable]),
    }
}

/// Build the record for a bare interpreter install: succeeds exactly
/// when the version directory's final segment classifies as a version.
pub fn get_pure_python_environment(
    executable: &String,
    path: &String,
    manager: &Option<EnvManager>,
) -> (r: Option<PythonEnvironment>)
    ensures
        (match classified_version(final_segment(path@)) {
            Some(v) => r matches Some(env) && env@ == pure_record_of(
                executable@,
                path@,
                v,
                manager.deep_view(),
            ),
            None => r is None,
        }),
{
    let name: String = file_name(path);
    match get_pyenv_version(&name) {
        Some(version) => {
            let run_command: Vec<String> = vec![executable.clone()];
            proof {
                assert(run_command.deep_view() =~= seq![executable@]);
            }
            let rec = PythonEnvironment::new(
                None,
                Some(executable.clone()),
                PythonEnvironmentCategory::Pyenv,
                Some(version),
                Some(path.clone()),
                Some(path.clone()),
                clone_option_manager(manager),
                Some(run_command),
            );
            proof {
                assert(rec@ =~= pure_record_of(
                    executable@,
                    path@,
                    classified_version(final_segment(path@))->Some_0,
                    manager.deep_view(),
                ));
            }
            Some(rec)
        },
        None => None,
    }
}

/// Build the record for a pyenv-managed virtual environment: succeeds
/// exactly when the host's parse of the directory's configuration file
/// yielded a declared version.
pub fn get_virtual_env_environment(
    executable: &String,
    path: &String,
    cfg_version: &Option<String>,
    manager: &Option<EnvManager>,
) -> (r: Option<PythonEnvironment>)
    ensures
        (match cfg_version.deep_view() {
            Some(v) => r matches Some(env) && env@ == virtual_record_of(
                executable@,
                path@,
                v,
                manager.deep_view(),
            ),
            None => r is None,
        }),
{
    match cfg_version {
        Some(version) => {
            let folder_name: String = file_name(path);
            let run_command: Vec<String> = vec![executable.clone()];
            proof {
                assert(run_command.deep_view() =~= seq![executable@]);
            }
            let rec = PythonEnvironment::new(
                Some(folder_name),
                Some(executable.clone()),
                PythonEnvironmentCategory::PyenvVirtualEnv,
                Some(version.clone()),
                Some(path.clone()),
                Some(path.clone()),
                clone_option_manager(manager),
                Some(run_command),
            );
            proof {
                assert(rec@ =~= virtual_record_of(
                    executable@,
                    path@,
                    cfg_version.deep_view()->Some_0,
                    manager.deep_view(),
                ));
            }
            Some(rec)
        },
        None => None,
    }
}

/// One immediate subdirectory of `<root>/versions`, as the host
/// observed it: its path, the interpreter executable the generic binary
/// finder located inside it (if any), and the version its
/// virtual-environment configuration file declares (if such a file
/// exists and parses).
pub struct VersionDirEntry {
    pub path: String,
    pub executable: Option<String>,
    pub cfg_version: Option<String>,
}

/// The mathematical value of a `VersionDirEntry`.
pub ghost struct VersionDirEntryV {
    pub path: Seq<char>,
    pub executable: Option<Seq<char>>,
    pub cfg_version: Option<Seq<char>>,
}

impl View for VersionDirEntry {
    type V = VersionDirEntryV;

    open spec fn view(&self) -> VersionDirEntryV {
        VersionDirEntryV {
            path: self.path@,
            executable: self.executable.deep_view(),
            cfg_version: self.cfg_version.deep_view(),
        }
    }
}

impl DeepView for VersionDirEntry {
    type V = VersionDirEntryV;

    open spec fn deep_view(&self) -> VersionDirEntryV {
        self.view()
    }
}

/// The record one directory entry yields: nothing without an
/// executable; otherwise the pure-interpreter strategy first, then the
/// virtual-environment strategy, first success winning.
pub open spec fn record_for_entry(
    e: VersionDirEntryV,
    manager: Option<EnvManagerV>,
) -> Option<PythonEnvironmentV> {
    match e.executable {
        Some(exe) => match classified_version(final_segment(e.path)) {
            Some(v) => Some(pure_record_of(exe, e.path, v, manager)),
            None => match e.cfg_version {
                Some(cv) => Some(virtual_record_of(exe, e.path, cv, manager)),
                None => None,
            },
        },
        None => None,
    }
}

/// The records a listing yields, in entry order, entries that yield
/// nothing skipped.
pub open spec fn records_for(
    entries: Seq<VersionDirEntryV>,
    manager: Option<EnvManagerV>,
) -> Seq<PythonEnvironmentV>
    decreases entries.len(),
{
    if entries.len() == 0 {
        Seq::empty()
    } else {
        match record_for_entry(entries[0], manager) {
            Some(r) => seq![r] + records_for(entries.drop_first(), manager),
            None => records_for(entries.drop_first(), manager),
        }
    }
}

proof fn lemma_records_for_step(
    entries: Seq<VersionDirEntryV>,
    manager: Option<EnvManagerV>,
    i: int,
)
    requires
        0 <= i < entries.len(),
    ensures
        records_for(entries.skip(i), manager) == (match record_for_entry(entries[i], manager) {
            Some(r) => seq![r] + records_for(entries.skip(i + 1), manager),
            None => records_for(entries.skip(i + 1), manager),
        }),
{
    assert(entries.skip(i)[0] == entries[i]);
    assert(entries.skip(i).drop_first() =~= entries.skip(i + 1));
}

/// Every record a listing yields carries an executable path.
pub proof fn lemma_records_have_executables(
    entries: Seq<VersionDirEntryV>,
    manager: Option<EnvManagerV>,
)
    ensures
        forall|k: int|
            0 <= k < records_for(entries, manager).len() ==> records_for(entries, manager)[k]
                .python_executable_path is Some,
    decreases entries.len(),
{
    if entries.len() > 0 {
        lemma_records_have_executables(entries.drop_first(), manager);
    }
}

/// Walk the listed version directories and build their records, in
/// order; nothing when the listing itself was unavailable, which means
/// the resolved root is not a pyenv installation.
#[verifier::loop_isolation(false)]
pub fn list_pyenv_environments(
    manager: &Option<EnvManager>,
    listing: &Option<Vec<VersionDirEntry>>,
) -> (r: Option<Vec<PythonEnvironment>>)
    ensures
        (match listing.deep_view() {
            Some(entries) => r matches Some(envs) && envs.deep_view() == records_for(
                entries,
                manager.deep_view(),
            ),
            None => r is None,
        }),
{
    match listing {
        Some(entries) => {
            let ghost entries_v: Seq<VersionDirEntryV> = entries.deep_view();
            let n: usize = entries.len();
            let mut envs: Vec<PythonEnvironment> = Vec::new();
            let mut i: usize = 0;
            proof {
                assert(entries_v.skip(0) =~= entries_v);
                assert(envs.deep_view() + records_for(entries_v, manager.deep_view())
                    =~= records_for(entries_v, manager.deep_view()));
            }
            while i < n
                invariant
                    i <= n,
                    records_for(entries_v, manager.deep_view()) == envs.deep_view()
                        + records_for(entries_v.skip(i as int), manager.deep_view()),
                decreases n - i,
            {
                proof {
                    lemma_records_for_step(entries_v, manager.deep_view(), i as int);
                }
                let entry: &VersionDirEntry = &entries[i];
                match &entry.executable {
                    Some(executable) => {
                        match get_pure_python_environment(executable, &entry.path, manager) {
                            Some(env) => {
                                envs.push(env);
                            },
                            None => {
                                match get_virtual_env_environment(
                                    executable,
                                    &entry.path,
                                    &entry.cfg_version,
                                    manager,
                                ) {
                                    Some(env) => {
                                        envs.push(env);
                                    },
                                    None => {},
                                }
                            },
                        }
                    },
                    None => {},
                }
                proof {
                    assert(records_for(entries_v, manager.deep_view()) =~= envs.deep_view()
                        + records_for(entries_v.skip(i + 1), manager.deep_view()));
                }
                i = i + 1;
            }
            proof {
                assert(entries_v.skip(n as int) =~= Seq::<VersionDirEntryV>::empty());
                assert(envs.deep_view() =~= records_for(entries_v, manager.deep_view()));
            }
            Some(envs)
        },
        None => None,
    }
}

/// A well-formed record collection: every record carries an executable
/// path and no two records share one.
pub open spec fn wf_records(s: Seq<PythonEnvironmentV>) -> bool {
    (forall|i: int| 0 <= i < s.len() ==> (#[trigger] s[i]).python_executable_path is Some)
        && (forall|i: int, j: int|
        #![trigger s[i], s[j]]
        0 <= i < s.len() && 0 <= j < s.len() && i != j ==> s[i].python_executable_path
            != s[j].python_executable_path)
}

/// Some record in `s` is keyed by `key`.
pub open spec fn has_record_key(s: Seq<PythonEnvironmentV>, key: Option<Seq<char>>) -> bool {
    exists|i: int| 0 <= i < s.len() && (#[trigger] s[i]).python_executable_path == key
}

/// The index of a record keyed by `key`.
pub open spec fn record_index_of(s: Seq<PythonEnvironmentV>, key: Option<Seq<char>>) -> int {
    choose|i: int| 0 <= i < s.len() && (#[trigger] s[i]).python_executable_path == key
}

/// Insert a record keyed by its executable path: replace the record
/// sharing its key, or append; the last write wins.
pub open spec fn insert_record(
    s: Seq<PythonEnvironmentV>,
    r: PythonEnvironmentV,
) -> Seq<PythonEnvironmentV> {
    if has_record_key(s, r.python_executable_path) {
        s.update(record_index_of(s, r.python_executable_path), r)
    } else {
        s.push(r)
    }
}

/// Insert every record of `rs` into `s`, in order.
pub open spec fn inserted_all(
    s: Seq<PythonEnvironmentV>,
    rs: Seq<PythonEnvironmentV>,
) -> Seq<PythonEnvironmentV>
    decreases rs.len(),
{
    if rs.len() == 0 {
        s
    } else {
        inserted_all(insert_record(s, rs[0]), rs.drop_first())
    }
}

/// The manager descriptor built from a resolved pyenv executable path.
pub open spec fn manager_of(binary: Option<Seq<char>>) -> Option<EnvManagerV> {
    match binary {
        Some(p) => Some(
            EnvManagerV { executable_path: p, version: None, tool: EnvManagerType::Pyenv },
        ),
        None => None,
    }
}

proof fn lemma_record_index_at(s: Seq<PythonEnvironmentV>, key: Option<Seq<char>>)
    requires
        has_record_key(s, key),
    ensures
        0 <= record_index_of(s, key) < s.len(),
        s[record_index_of(s, key)].python_executable_path == key,
{
}

/// In a well-formed registry two records that share an executable path
/// are the same entry: the registry retains at most one record per key.
pub proof fn lemma_wf_key_unique(s: Seq<PythonEnvironmentV>, i: int, j: int)
    requires
        wf_records(s),
        0 <= i < s.len(),
        0 <= j < s.len(),
        s[i].python_executable_path == s[j].python_executable_path,
    ensures
        i == j,
{
}

proof fn lemma_insert_record_wf(s: Seq<PythonEnvironmentV>, r: PythonEnvironmentV)
    requires
        wf_records(s),
        r.python_executable_path is Some,
    ensures
        wf_records(insert_record(s, r)),
{
    let key = r.python_executable_path;
    let t = insert_record(s, r);
    if has_record_key(s, key) {
        lemma_record_index_at(s, key);
        let idx = record_index_of(s, key);
        assert forall|i: int, j: int|
            #![trigger t[i], t[j]]
            0 <= i < t.len() && 0 <= j < t.len() && i != j implies t[i].python_executable_path
            != t[j].python_executable_path by {
            if i != idx && j != idx {
                assert(t[i] == s[i] && t[j] == s[j]);
            } else if i == idx {
                assert(t[j] == s[j]);
                lemma_record_index_at(s, key);
            } else {
                assert(t[i] == s[i]);
            }
        }
    } else {
        assert forall|i: int, j: int|
            #![trigger t[i], t[j]]
            0 <= i < t.len() && 0 <= j < t.len() && i != j implies t[i].python_executable_path
            != t[j].python_executable_path by {
            if i < s.len() && j < s.len() {
                assert(t[i] == s[i] && t[j] == s[j]);
            } else if i == s.len() {
                assert(t[j] == s[j]);
            } else {
                assert(t[i] == s[i]);
            }
        }
    }
}

proof fn lemma_insert_record_keys(
    s: Seq<PythonEnvironmentV>,
    r: PythonEnvironmentV,
    key: Option<Seq<char>>,
)
    ensures
        has_record_key(insert_record(s, r), key) <==> (has_record_key(s, key)
            || r.python_executable_path == key),
{
    let t = insert_record(s, r);
    if has_record_key(s, r.python_executable_path) {
        lemma_record_index_at(s, r.python_executable_path);
        let idx = record_index_of(s, r.python_executable_path);
        assert(t[idx] == r);
        if has_record_key(t, key) {
            let w = choose|i: int|
                0 <= i < t.len() && (#[trigger] t[i]).python_executable_path == key;
            if w != idx {
                assert(t[w] == s[w]);
            }
        }
        if has_record_key(s, key) {
            let w = choose|i: int|
                0 <= i < s.len() && (#[trigger] s[i]).python_executable_path == key;
            if w != idx {
                assert(t[w] == s[w]);
                assert(has_record_key(t, key));
            } else {
                assert(s[idx].python_executable_path == r.python_executable_path);
                assert(t[idx].python_executable_path == key);
            }
        }
        if r.python_executable_path == key {
            assert(t[idx].python_executable_path == key);
        }
    } else {
        assert(t == s.push(r));
        assert(t[s.len() as int] == r);
        if has_record_key(t, key) {
            let w = choose|i: int|
                0 <= i < t.len() && (#[trigger] t[i]).python_executable_path == key;
            if w < s.len() {
                assert(t[w] == s[w]);
            }
        }
        if has_record_key(s, key) {
            let w = choose|i: int|
                0 <= i < s.len() && (#[trigger] s[i]).python_executable_path == key;
            assert(t[w] == s[w]);
            assert(has_record_key(t, key));
        }
    }
}

/// After a bulk insertion a key is present exactly when it was present
/// before or one of the inserted records carries it; with a
/// well-formed collection, exactly one record then holds it, even when
/// several inserted records shared that key.
pub proof fn lemma_inserted_all_keys(
    s: Seq<PythonEnvironmentV>,
    rs: Seq<PythonEnvironmentV>,
    key: Option<Seq<char>>,
)
    ensures
        has_record_key(inserted_all(s, rs), key) <==> (has_record_key(s, key) || exists|k: int|
            0 <= k < rs.len() && (#[trigger] rs[k]).python_executable_path == key),
    decreases rs.len(),
{
    if rs.len() > 0 {
        lemma_insert_record_keys(s, rs[0], key);
        lemma_inserted_all_keys(insert_record(s, rs[0]), rs.drop_first(), key);
        if exists|k: int| 0 <= k < rs.len() && (#[trigger] rs[k]).python_executable_path == key {
            let w = choose|k: int|
                0 <= k < rs.len() && (#[trigger] rs[k]).python_executable_path == key;
            if w > 0 {
                assert(rs.drop_first()[w - 1] == rs[w]);
            }
        }
        if exists|k: int|
            0 <= k < rs.drop_first().len() && (#[trigger] rs.drop_first()[k]).python_executable_path
                == key {
            let w = choose|k: int|
                0 <= k < rs.drop_first().len()
                    && (#[trigger] rs.drop_first()[k]).python_executable_path == key;
            assert(rs.drop_first()[w] == rs[w + 1]);
        }
    }
}

/// Insert one built record into the record collection, keyed by its
/// executable path, overwriting the record that shares the key.
#[verifier::loop_isolation(false)]
fn insert_environment(environments: &mut Vec<PythonEnvironment>, env: PythonEnvironment)
    requires
        wf_records(old(environments).deep_view()),
        env@.python_executable_path is Some,
    ensures
        final(environments).deep_view() == insert_record(old(environments).deep_view(), env@),
        wf_records(final(environments).deep_view()),
{
    let key: String = match &env.python_executable_path {
        Some(k) => k.clone(),
        None => {
            proof {
                assert(false);
            }
            String::new()
        },
    };
    proof {
        assert(env@.python_executable_path == Some(key@));
    }
    let n: usize = environments.len();
    let mut i: usize = 0;
    let mut found: bool = false;
    let mut idx: usize = 0;
    while i < n
        invariant
            i <= n,
            n == environments@.len(),
            environments@ == old(environments)@,
            !found ==> forall|k: int|
                0 <= k < i ==> (#[trigger] environments.deep_view()[k]).python_executable_path
                    != Some(key@),
            found ==> idx < n && environments.deep_view()[idx as int].python_executable_path
                == Some(key@),
        decreases n - i,
    {
        if !found {
            match &environments[i].python_executable_path {
                Some(p) => {
                    if *p == key {
                        found = true;
                        idx = i;
                    }
                },
                None => {},
            }
        }
        i = i + 1;
    }
    let ghost s = old(environments).deep_view();
    if found {
        environments.set(idx, env);
        proof {
            assert(has_record_key(s, Some(key@)));
            lemma_record_index_at(s, Some(key@));
            lemma_wf_key_unique(s, record_index_of(s, Some(key@)), idx as int);
            assert(environments.deep_view() =~= s.update(idx as int, env@));
            lemma_insert_record_wf(s, env@);
        }
    } else {
        environments.push(env);
        proof {
            assert(!has_record_key(s, Some(key@)));
            assert(environments.deep_view() =~= s.push(env@));
            lemma_insert_record_wf(s, env@);
        }
    }
}

/// A candidate interpreter offered to the locator for incremental
/// tracking; this locator never accepts one.
pub struct PythonEnv {
    pub executable: String,
    pub path: Option<String>,
    pub version: Option<String>,
}

/// The locator's registry: the host-probe snapshot it was created
/// with, the manager resolved by the last gather, and the discovered
/// records, keyed by executable path.
pub struct PyEnv {
    pub environments: Vec<PythonEnvironment>,
    pub environment: Environment,
    pub manager: Option<EnvManager>,
}

impl PyEnv {
    /// A well-formed registry: every record carries an executable path
    /// and no two records share one.
    pub open spec fn wf(self) -> bool {
        wf_records(self.environments.deep_view())
    }

    /// The registry holds a record keyed by `path`.
    pub open spec fn knows(self, path: Seq<char>) -> bool {
        has_record_key(self.environments.deep_view(), Some(path))
    }

    /// A fresh locator over the given host snapshot: no manager, no
    /// records, so no path is known yet.
    pub fn with(environment: Environment) -> (r: PyEnv)
        ensures
            r.environment == environment,
            r.manager is None,
            r.environments.deep_view() == Seq::<PythonEnvironmentV>::empty(),
            r.wf(),
    {
        let r = PyEnv { environments: Vec::new(), environment, manager: None };
        proof {
            assert(r.environments.deep_view() =~= Seq::<PythonEnvironmentV>::empty());
        }
        r
    }

    /// True exactly when a record with this executable path has been
    /// gathered.
    #[verifier::loop_isolation(false)]
    pub fn is_known(&self, python_executable: &String) -> (r: bool)
        ensures
            r == self.knows(python_executable@),
    {
        let n: usize = self.environments.len();
        let mut i: usize = 0;
        let mut found: bool = false;
        while i < n
            invariant
                i <= n,
                n == self.environments@.len(),
                !found ==> forall|k: int|
                    0 <= k < i ==> (#[trigger] self.environments.deep_view()[k])
                        .python_executable_path != Some(python_executable@),
                found ==> self.knows(python_executable@),
            decreases n - i,
        {
            proof {
                assert(self.environments.deep_view()[i as int] == self.environments@[i as int]@);
            }
            if !found {
                match &self.environments[i].python_executable_path {
                    Some(p) => {
                        if *p == *python_executable {
                            found = true;
                            proof {
                                assert(self.environments.deep_view()[i as int]
                                    .python_executable_path == Some(python_executable@));
                            }
                        }
                    },
                    None => {},
                }
            }
            i = i + 1;
        }
        found
    }

    /// This locator finds everything in the bulk gather pass and never
    /// tracks an individual candidate.
    pub fn track_if_compatible(&mut self, _env: &PythonEnv) -> (r: bool)
        ensures
            r == false,
            *final(self) == *old(self),
    {
        false
    }

    /// One discovery pass: store the manager built from the resolved
    /// pyenv binary (possibly nothing), then build a record for every
    /// listed version directory and insert it keyed by its executable
    /// path, the last write winning; when the listing was unavailable
    /// the pass fails and the record collection is left as it was.
    #[verifier::loop_isolation(false)]
    pub fn gather(
        &mut self,
        manager_binary: Option<String>,
        listing: Option<Vec<VersionDirEntry>>,
    ) -> (r: Option<()>)
        requires
            old(self).wf(),
        ensures
            final(self).wf(),
            final(self).environment == old(self).environment,
            final(self).manager.deep_view() == manager_of(manager_binary.deep_view()),
            (match listing.deep_view() {
                Some(entries) => r is Some && final(self).environments.deep_view()
                    == inserted_all(
                    old(self).environments.deep_view(),
                    records_for(entries, manager_of(manager_binary.deep_view())),
                ),
                None => r is None && final(self).environments == old(self).environments,
            }),
    {
        let manager: Option<EnvManager> = match manager_binary {
            Some(pyenv_binary) => Some(
                EnvManager::new(pyenv_binary, None, EnvManagerType::Pyenv),
            ),
            None => None,
        };
        self.manager = clone_option_manager(&manager);
        match list_pyenv_environments(&manager, &listing) {
            Some(mut envs) => {
                let ghost s0: Seq<PythonEnvironmentV> = self.environments.deep_view();
                let ghost all: Seq<PythonEnvironmentV> = envs.deep_view();
                proof {
                    lemma_records_have_executables(listing.deep_view()->Some_0, manager.deep_view());
                }
                while envs.len() > 0
                    invariant
                        self.environment == old(self).environment,
                        self.manager.deep_view() == manager_of(manager_binary.deep_view()),
                        wf_records(self.environments.deep_view()),
                        forall|k: int|
                            0 <= k < envs.deep_view().len() ==> (#[trigger] envs.deep_view()[k])
                                .python_executable_path is Some,
                        inserted_all(s0, all) == inserted_all(
                            self.environments.deep_view(),
                            envs.deep_view(),
                        ),
                    decreases envs.len(),
                {
                    let ghost pre_envs: Seq<PythonEnvironmentV> = envs.deep_view();
                    let ghost pre_s: Seq<PythonEnvironmentV> = self.environments.deep_view();
                    let env: PythonEnvironment = envs.remove(0);
                    proof {
                        assert(envs.deep_view() =~= pre_envs.drop_first());
                        assert(env@ == pre_envs[0]);
                    }
                    insert_environment(&mut self.environments, env);
                    proof {
                        assert(self.environments.deep_view() == insert_record(pre_s, pre_envs[0]));
                        assert(inserted_all(pre_s, pre_envs) == inserted_all(
                            self.environments.deep_view(),
                            envs.deep_view(),
                        ));
                        assert forall|k: int|
                            0 <= k < envs.deep_view().len() implies (#[trigger] envs.deep_view()[k])
                            .python_executable_path is Some by {
                            assert(envs.deep_view()[k] == pre_envs[k + 1]);
                        }
                    }
                }
                proof {
                    assert(envs.deep_view() =~= Seq::<PythonEnvironmentV>::empty());
                    assert(inserted_all(self.environments.deep_view(), envs.deep_view())
                        == self.environments.deep_view());
                }
                Some(())
            },
            None => None,
        }
    }
}

/// A fresh registry knows no path: `is_known` is false for every path
/// before a gather has run.
pub proof fn lemma_fresh_knows_nothing(r: PyEnv, path: Seq<char>)
    requires
        r.environments.deep_view() == Seq::<PythonEnvironmentV>::empty(),
    ensures
        !r.knows(path),
{
}

/// Every record inserted by a bulk insertion leaves its executable path
/// present: after a successful gather, each gathered record's path is
/// known.
pub proof fn lemma_gathered_key_present(
    s: Seq<PythonEnvironmentV>,
    rs: Seq<PythonEnvironmentV>,
    k: int,
)
    requires
        0 <= k < rs.len(),
    ensures
        has_record_key(inserted_all(s, rs), rs[k].python_executable_path),
{
    lemma_inserted_all_keys(s, rs, rs[k].python_executable_path);
}

} // verus!
