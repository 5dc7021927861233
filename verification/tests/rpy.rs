use rpy::rpy::{InvocationType, Rpy};

fn strings(tokens: &[&str]) -> Vec<String> {
    tokens.iter().map(|t| t.to_string()).collect()
}

#[test]
fn rpy_should_parse_no_args() {
    assert_eq!(
        Rpy::parse(vec![]),
        Rpy {
            python_args: vec![],
            command_args: vec![],
            invocation_type: InvocationType::Interactive,
            print_banner: false,
        }
    );
}

#[test]
fn rpy_should_parse_simple_filename() {
    assert_eq!(
        Rpy::parse(vec!["some_file.py".into()]),
        Rpy {
            python_args: vec!["some_file.py".into()],
            command_args: vec![],
            invocation_type: InvocationType::File("some_file.py".into()),
            print_banner: false,
        }
    );
    assert_eq!(
        Rpy::parse(vec!["some_file.py".into(), "arg".into()]),
        Rpy {
            python_args: vec!["some_file.py".into()],
            command_args: vec!["arg".into()],
            invocation_type: InvocationType::File("some_file.py".into()),
            print_banner: false,
        }
    );
}

#[test]
fn rpy_should_parse_filename_with_args_and_opts() {
    assert_eq!(
        Rpy::parse(vec![
            "-i".into(),
            "-d".into(),
            "-s".into(),
            "some_file.py".into(),
            "arg1".into(),
            "arg2".into(),
        ]),
        Rpy {
            python_args: vec!["-i".into(), "-d".into(), "-s".into(), "some_file.py".into()],
            command_args: vec!["arg1".into(), "arg2".into()],
            invocation_type: InvocationType::File("some_file.py".into()),
            print_banner: false,
        }
    );
}

#[test]
fn rpy_should_parse_double_dash_even_with_nothing_else() {
    assert_eq!(
        Rpy::parse(vec!["--".into(), "moo".into(), "foo".into()]),
        Rpy {
            python_args: vec!["--".into()],
            command_args: vec!["moo".into(), "foo".into()],
            invocation_type: InvocationType::Interactive,
            print_banner: false,
        }
    );
}

#[test]
fn rpy_should_parse_simple_module() {
    assert_eq!(
        Rpy::parse(vec!["-m".into(), "some.module".into()]),
        Rpy {
            python_args: vec!["-m".into(), "some.module".into()],
            command_args: vec![],
            invocation_type: InvocationType::Module("some.module".into()),
            print_banner: false,
        }
    );
    assert_eq!(
        Rpy::parse(vec!["-msome.module".into()]),
        Rpy {
            python_args: vec!["-msome.module".into()],
            command_args: vec![],
            invocation_type: InvocationType::Module("some.module".into()),
            print_banner: false,
        }
    );
}

#[test]
fn rpy_should_parse_module_with_args_and_opts() {
    assert_eq!(
        Rpy::parse(vec![
            "-i".into(),
            "-d".into(),
            "-s".into(),
            "-msome.module".into(),
            "arg1".into(),
            "arg2".into(),
        ]),
        Rpy {
            python_args: vec![
                "-i".into(),
                "-d".into(),
                "-s".into(),
                "-msome.module".into(),
            ],
            command_args: vec!["arg1".into(), "arg2".into()],
            invocation_type: InvocationType::Module("some.module".into()),
            print_banner: false,
        }
    );
}

#[test]
fn rpy_should_parse_simple_command() {
    let cmd = "print(\"hello world\")";
    assert_eq!(
        Rpy::parse(vec!["-c".into(), cmd.into()]),
        Rpy {
            python_args: vec!["-c".into(), cmd.into()],
            command_args: vec![],
            invocation_type: InvocationType::Command(cmd.into()),
            print_banner: false,
        }
    );
    assert_eq!(
        Rpy::parse(vec!["-c".to_string() + &cmd]),
        Rpy {
            python_args: vec!["-c".to_string() + &cmd],
            command_args: vec![],
            invocation_type: InvocationType::Command(cmd.into()),
            print_banner: false,
        }
    );
}

#[test]
fn rpy_should_parse_commande_with_args_and_opts() {
    let cmd = "print(\"hello world\")";
    assert_eq!(
        Rpy::parse(vec![
            "-i".into(),
            "-d".into(),
            "-s".into(),
            "-c".to_string(),
            cmd.into(),
            "arg1".into(),
            "arg2".into(),
        ]),
        Rpy {
            python_args: vec![
                "-i".into(),
                "-d".into(),
                "-s".into(),
                "-c".to_string(),
                cmd.into(),
            ],
            command_args: vec!["arg1".into(), "arg2".into()],
            invocation_type: InvocationType::Command(cmd.into()),
            print_banner: false,
        }
    );
}

#[test]
fn should_parse_banner_producing() {
    assert!(Rpy::parse(vec!["-h".into()]).print_banner);
    assert!(Rpy::parse(vec!["--help".into()]).print_banner);
    assert!(Rpy::parse(vec!["--version".into()]).print_banner);
}

#[test]
fn should_parse_not_parse_help_after_script() {
    assert!(!Rpy::parse(vec!["script.py".into(), "--help".into()]).print_banner);
}

#[test]
fn should_handle_long_args() {
    assert_eq!(
        Rpy::parse(vec!["-X".into(), "moo".into(), "file.py".into()]),
        Rpy {
            python_args: vec!["-X".into(), "moo".into(), "file.py".into()],
            command_args: vec![],
            invocation_type: InvocationType::File("file.py".into()),
            print_banner: false,
        }
    );
    assert_eq!(
        Rpy::parse(vec!["-Xmoo".into(), "file.py".into()]),
        Rpy {
            python_args: vec!["-Xmoo".into(), "file.py".into()],
            command_args: vec![],
            invocation_type: InvocationType::File("file.py".into()),
            print_banner: false,
        }
    );
    assert_eq!(
        Rpy::parse(vec!["-iXmoo".into(), "file.py".into()]),
        Rpy {
            python_args: vec!["-iXmoo".into(), "file.py".into()],
            command_args: vec![],
            invocation_type: InvocationType::File("file.py".into()),
            print_banner: false,
        }
    );
    assert_eq!(
        Rpy::parse(vec!["-iWmodule".into(), "file.py".into()]),
        Rpy {
            python_args: vec!["-iWmodule".into(), "file.py".into()],
            command_args: vec![],
            invocation_type: InvocationType::File("file.py".into()),
            print_banner: false,
        }
    );
}

#[test]
fn make_args_gives_back_the_command_line() {
    let line = strings(&["-i", "-X", "dev", "-m", "pkg.mod", "--flag", "value"]);
    let parsed = Rpy::parse(line.clone());
    let rebuilt: Vec<String> = parsed.make_args().into_iter().cloned().collect();
    assert_eq!(rebuilt, line);
    assert_eq!(parsed.python_args, strings(&["-i", "-X", "dev", "-m", "pkg.mod"]));
    assert_eq!(parsed.command_args, strings(&["--flag", "value"]));
}
