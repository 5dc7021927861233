use rpy::args::Opts;
use rpy::error::LaunchError;
use rpy::resolve::{config_candidates, find_toml, find_toml_for_path, start_dir, Filesystem};
use rpy::rpy::{InvocationType, Rpy};

fn snapshot(cwd: Option<&str>, files: &[&str], resolved: &[(&str, &str)]) -> Filesystem {
    Filesystem {
        cwd: cwd.map(str::to_string),
        files: files.iter().map(|f| f.to_string()).collect(),
        resolved: resolved.iter().map(|(p, t)| (p.to_string(), t.to_string())).collect(),
    }
}

#[test]
fn what_a_snapshot_knows() {
    let fs = snapshot(
        None,
        &["/a/x", "/b"],
        &[("x", "/a/x"), ("y", "/a/y"), ("x", "/other/x")],
    );
    assert!(fs.is_file("/a/x"));
    assert!(fs.is_file("/b"));
    assert!(!fs.is_file("/a"));
    assert!(!fs.is_file("x"));
    assert_eq!(fs.canonicalize("x"), Some("/a/x".to_string()));
    assert_eq!(fs.canonicalize("y"), Some("/a/y".to_string()));
    assert_eq!(fs.canonicalize("z"), None);
    assert_eq!(fs.canonicalize("/a/x"), None);
}

#[test]
fn only_a_file_mode_names_a_script() {
    assert_eq!(InvocationType::File("a/b.py".into()).script(), Some(&"a/b.py".to_string()));
    assert_eq!(InvocationType::Module("a.b".into()).script(), None);
    assert_eq!(InvocationType::Command("a/b.py".into()).script(), None);
    assert_eq!(InvocationType::Interactive.script(), None);
}

#[test]
fn the_search_starts_at_the_working_directory() {
    let fs = snapshot(Some("/work/here"), &[], &[]);
    for mode in [
        InvocationType::Interactive,
        InvocationType::Module("pkg".into()),
        InvocationType::Command("pass".into()),
    ] {
        assert_eq!(start_dir(&mode, &fs), Ok("/work/here".to_string()));
    }
}

#[test]
fn the_search_starts_at_the_directory_of_the_script() {
    let fs = snapshot(
        Some("/elsewhere"),
        &["/proj/tool/run.py"],
        &[("tool/run.py", "/proj/tool/run.py")],
    );
    assert_eq!(
        start_dir(&InvocationType::File("tool/run.py".into()), &fs),
        Ok("/proj/tool".to_string())
    );
}

#[test]
fn a_script_that_is_no_regular_file_is_not_found() {
    let unresolved = snapshot(Some("/work"), &["/work/run.py"], &[]);
    assert_eq!(
        start_dir(&InvocationType::File("run.py".into()), &unresolved),
        Err(LaunchError::InputFileNotFound("run.py".into()))
    );
    let directory = snapshot(Some("/work"), &[], &[("sub", "/work/sub")]);
    assert_eq!(
        start_dir(&InvocationType::File("sub".into()), &directory),
        Err(LaunchError::InputFileNotFound("sub".into()))
    );
    assert_eq!(
        find_toml(&InvocationType::File("sub".into()), &directory),
        Err(LaunchError::InputFileNotFound("sub".into()))
    );
}

#[test]
fn without_a_working_directory_only_a_script_can_start_the_search() {
    let fs = snapshot(None, &["/p/s.py", "/p/pyproject.toml"], &[("s.py", "/p/s.py")]);
    assert_eq!(
        start_dir(&InvocationType::Interactive, &fs),
        Err(LaunchError::WorkingDirectoryUnknown)
    );
    assert_eq!(
        find_toml(&InvocationType::Module("m".into()), &fs),
        Err(LaunchError::WorkingDirectoryUnknown)
    );
    assert_eq!(
        find_toml(&InvocationType::File("s.py".into()), &fs),
        Ok("/p/pyproject.toml".to_string())
    );
}

#[test]
fn where_a_configuration_file_is_looked_for() {
    assert_eq!(
        config_candidates("/a/b/c"),
        vec![
            "/a/b/c/pyproject.toml".to_string(),
            "/a/b/pyproject.toml".to_string(),
            "/a/pyproject.toml".to_string(),
            "/pyproject.toml".to_string(),
        ]
    );
    assert_eq!(config_candidates("/"), vec!["/pyproject.toml".to_string()]);
    assert_eq!(
        config_candidates("rel/dir"),
        vec![
            "rel/dir/pyproject.toml".to_string(),
            "rel/pyproject.toml".to_string(),
            "pyproject.toml".to_string(),
        ]
    );
}

#[test]
fn the_nearest_configuration_file_wins() {
    let both = snapshot(None, &["/pyproject.toml", "/a/b/pyproject.toml"], &[]);
    assert_eq!(
        find_toml_for_path("/a/b/c/d", &both),
        Some("/a/b/pyproject.toml".to_string())
    );
    assert_eq!(find_toml_for_path("/a/b", &both), Some("/a/b/pyproject.toml".to_string()));
    assert_eq!(find_toml_for_path("/a", &both), Some("/pyproject.toml".to_string()));
    assert_eq!(find_toml_for_path("/x/y", &both), Some("/pyproject.toml".to_string()));
}

#[test]
fn files_beside_the_way_up_do_not_count() {
    let fs = snapshot(
        None,
        &["/a/other/pyproject.toml", "/a/b/c/deeper/pyproject.toml", "/a/b/setup.py"],
        &[],
    );
    assert_eq!(find_toml_for_path("/a/b/c", &fs), None);
}

#[test]
fn no_configuration_file_names_the_start_directory() {
    let root = snapshot(Some("/"), &[], &[]);
    let failure = find_toml(&InvocationType::Interactive, &root).unwrap_err();
    assert_eq!(failure, LaunchError::ConfigNotFound("/".into()));
    assert_eq!(failure.message(), "Unable to find pyproject.toml from /");
    assert_eq!(failure.report(), "[rpy] Error: Unable to find pyproject.toml from /");

    let deep = snapshot(Some("/a/b/c"), &["/a/b/c/setup.py"], &[]);
    assert_eq!(
        find_toml(&InvocationType::Command("pass".into()), &deep),
        Err(LaunchError::ConfigNotFound("/a/b/c".into()))
    );
    let script = snapshot(Some("/"), &["/s/t/u.py"], &[("u.py", "/s/t/u.py")]);
    assert_eq!(
        find_toml(&InvocationType::File("u.py".into()), &script),
        Err(LaunchError::ConfigNotFound("/s/t".into()))
    );
}

#[test]
fn a_classified_command_line_finds_its_configuration() {
    let fs = snapshot(
        Some("/home/me/proj/sub"),
        &["/home/me/proj/pyproject.toml", "/srv/app/pyproject.toml", "/srv/app/bin/run.py"],
        &[("bin/run.py", "/srv/app/bin/run.py")],
    );
    let module = Rpy::parse(vec!["-m".into(), "pkg".into()]);
    assert_eq!(module.find_toml(&fs), Ok("/home/me/proj/pyproject.toml".to_string()));
    let script = Rpy::parse(vec!["-i".into(), "bin/run.py".into(), "x".into()]);
    assert_eq!(script.find_toml(&fs), Ok("/srv/app/pyproject.toml".to_string()));
    let split = Opts::parse(vec!["bin/run.py".into()]);
    assert_eq!(split.find_toml(&fs), Ok("/srv/app/pyproject.toml".to_string()));
    let prompt = Opts::parse(vec![]);
    assert_eq!(prompt.find_toml(&fs), Ok("/home/me/proj/pyproject.toml".to_string()));
}
