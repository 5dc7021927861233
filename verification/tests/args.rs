use rpy::args::{InvocationType, Opts};

#[test]
fn args_should_parse_no_args() {
    assert_eq!(
        Opts::parse(vec![]),
        Opts {
            python_args: vec![],
            command_args: vec![],
            invocation_type: InvocationType::Interactive,
        }
    );
}

#[test]
fn args_should_parse_simple_filename() {
    assert_eq!(
        Opts::parse(vec!["some_file.py".into()]),
        Opts {
            python_args: vec!["some_file.py".into()],
            command_args: vec![],
            invocation_type: InvocationType::File("some_file.py".into()),
        }
    );
    assert_eq!(
        Opts::parse(vec!["some_file.py".into(), "arg".into()]),
        Opts {
            python_args: vec!["some_file.py".into()],
            command_args: vec!["arg".into()],
            invocation_type: InvocationType::File("some_file.py".into()),
        }
    );
}

#[test]
fn args_should_parse_filename_with_args_and_opts() {
    assert_eq!(
        Opts::parse(vec![
            "-i".into(),
            "-d".into(),
            "-s".into(),
            "some_file.py".into(),
            "arg1".into(),
            "arg2".into()
        ]),
        Opts {
            python_args: vec!["-i".into(), "-d".into(), "-s".into(), "some_file.py".into()],
            command_args: vec!["arg1".into(), "arg2".into()],
            invocation_type: InvocationType::File("some_file.py".into()),
        }
    );
}

#[test]
fn args_should_parse_double_dash_even_with_nothing_else() {
    assert_eq!(
        Opts::parse(vec!["--".into(), "moo".into(), "foo".into()]),
        Opts {
            python_args: vec!["--".into()],
            command_args: vec!["moo".into(), "foo".into()],
            invocation_type: InvocationType::Interactive,
        }
    );
}

#[test]
fn args_should_parse_simple_module() {
    assert_eq!(
        Opts::parse(vec!["-m".into(), "some.module".into()]),
        Opts {
            python_args: vec!["-m".into(), "some.module".into()],
            command_args: vec![],
            invocation_type: InvocationType::Module("some.module".into()),
        }
    );
    assert_eq!(
        Opts::parse(vec!["-msome.module".into()]),
        Opts {
            python_args: vec!["-msome.module".into()],
            command_args: vec![],
            invocation_type: InvocationType::Module("some.module".into()),
        }
    );
}

#[test]
fn args_should_parse_module_with_args_and_opts() {
    assert_eq!(
        Opts::parse(vec![
            "-i".into(),
            "-d".into(),
            "-s".into(),
            "-msome.module".into(),
            "arg1".into(),
            "arg2".into()
        ]),
        Opts {
            python_args: vec![
                "-i".into(),
                "-d".into(),
                "-s".into(),
                "-msome.module".into()
            ],
            command_args: vec!["arg1".into(), "arg2".into()],
            invocation_type: InvocationType::Module("some.module".into()),
        }
    );
}

#[test]
fn args_should_parse_simple_command() {
    let cmd = "print(\"hello world\")";
    assert_eq!(
        Opts::parse(vec!["-c".into(), cmd.into()]),
        Opts {
            python_args: vec!["-c".into(), cmd.into()],
            command_args: vec![],
            invocation_type: InvocationType::Command(cmd.into()),
        }
    );
    assert_eq!(
        Opts::parse(vec!["-c".to_string() + &cmd]),
        Opts {
            python_args: vec!["-c".to_string() + &cmd],
            command_args: vec![],
            invocation_type: InvocationType::Command(cmd.into()),
        }
    );
}

#[test]
fn args_should_parse_commande_with_args_and_opts() {
    let cmd = "print(\"hello world\")";
    assert_eq!(
        Opts::parse(vec![
            "-i".into(),
            "-d".into(),
            "-s".into(),
            "-c".to_string(),
            cmd.into(),
            "arg1".into(),
            "arg2".into()
        ]),
        Opts {
            python_args: vec![
                "-i".into(),
                "-d".into(),
                "-s".into(),
                "-c".to_string(),
                cmd.into()
            ],
            command_args: vec!["arg1".into(), "arg2".into()],
            invocation_type: InvocationType::Command(cmd.into()),
        }
    );
}
