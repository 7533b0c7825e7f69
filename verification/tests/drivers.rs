//! The recording driver and the runner, observed from outside: log
//! contents, input order, and the dry-run scenario.

use ellipsis::config::Config;
use ellipsis::domain::Driver;
use ellipsis::domain::DriverTypes;
use ellipsis::domain::Operation;
use ellipsis::domain::OperationPath;
use ellipsis::run;
use ellipsis::BlackholeDriver;

#[test]
fn blackhole_exec_file() {
    let working_dir = tempfile::tempdir().unwrap().into_path();
    let wd = working_dir.to_str().unwrap();
    let driver = BlackholeDriver::new()
        .exec(
            wd,
            "bash",
            &vec!["-c".to_string(), "echo hello > out.txt".to_string()],
        )
        .unwrap();

    assert_eq!(
        vec![(
            String::from("exec"),
            format!("in {} bash [-c, echo hello > out.txt]", wd)
        )],
        driver.log
    )
}

#[test]
fn blackhole_copy_file() {
    let working_dir = tempfile::tempdir().unwrap().into_path();
    let from = working_dir.join("in.txt");
    let to = working_dir.join("out.txt");
    let driver = BlackholeDriver::new()
        .copy(from.to_str().unwrap(), to.to_str().unwrap())
        .unwrap();

    assert_eq!(
        vec![(
            String::from("copy"),
            format!("{} -> {}", from.display(), to.display())
        )],
        driver.log
    )
}

#[test]
fn blackhole_link_file() {
    let working_dir = tempfile::tempdir().unwrap().into_path();
    let from = working_dir.join("in.txt");
    let to = working_dir.join("out.txt");
    let driver = BlackholeDriver::new()
        .link(from.to_str().unwrap(), to.to_str().unwrap(), false)
        .unwrap();

    assert_eq!(
        vec![(
            String::from("link"),
            format!(
                "{} -> (overwriting: false) {}",
                from.display(),
                to.display()
            )
        )],
        driver.log
    )
}

#[test]
fn runner_copy_file() {
    let working_dir = tempfile::tempdir().unwrap().into_path();
    let wd = working_dir.to_str().unwrap();
    let home_one = tempfile::tempdir().unwrap().into_path();
    let home_two = tempfile::tempdir().unwrap().into_path();
    let input = Config {
        driver: DriverTypes::Blackhole,
        operations: vec![Operation::Copy {
            to: OperationPath::new(wd, home_one.to_str().unwrap(), "out.txt"),
            from: OperationPath::new(wd, home_two.to_str().unwrap(), "in.txt"),
        }],
    };

    let driver = run(input, BlackholeDriver::new()).unwrap();

    assert_eq!(
        vec![(
            String::from("copy"),
            format!(
                "{} -> {}",
                working_dir.join("in.txt").display(),
                working_dir.join("out.txt").display()
            )
        )],
        driver.log
    );
}

#[test]
fn runner_link_file() {
    let working_dir = tempfile::tempdir().unwrap().into_path();
    let wd = working_dir.to_str().unwrap();
    let home_one = tempfile::tempdir().unwrap().into_path();
    let home_two = tempfile::tempdir().unwrap().into_path();
    let input = Config {
        driver: DriverTypes::Blackhole,
        operations: vec![Operation::Link {
            to: OperationPath::new(wd, home_one.to_str().unwrap(), "out.txt"),
            from: OperationPath::new(wd, home_two.to_str().unwrap(), "in.txt"),
            overwrite: false,
        }],
    };

    let driver = run(input, BlackholeDriver::new()).unwrap();

    assert_eq!(
        vec![(
            String::from("link"),
            format!(
                "{} -> (overwriting: false) {}",
                working_dir.join("in.txt").display(),
                working_dir.join("out.txt").display()
            )
        )],
        driver.log
    );
}

#[test]
fn link_message_reports_overwrite_flag() {
    let driver = BlackholeDriver::new()
        .link("/a/in.txt", "/a/out.txt", true)
        .unwrap();

    assert_eq!(
        vec![(
            String::from("link"),
            String::from("/a/in.txt -> (overwriting: true) /a/out.txt")
        )],
        driver.log
    );
}

#[test]
fn exec_message_lists_arguments_in_order() {
    let driver = BlackholeDriver::new()
        .exec(
            "/srv",
            "git",
            &vec![
                "clone".to_string(),
                "--depth".to_string(),
                "1".to_string(),
            ],
        )
        .unwrap();

    assert_eq!(
        vec![(
            String::from("exec"),
            String::from("in /srv git [clone, --depth, 1]")
        )],
        driver.log
    );
}

#[test]
fn exec_message_with_no_arguments() {
    let driver = BlackholeDriver::new().exec("/srv", "true", &vec![]).unwrap();

    assert_eq!(
        vec![(String::from("exec"), String::from("in /srv true []"))],
        driver.log
    );
}

#[test]
fn log_keeps_input_order_without_deduplication() {
    let input = Config {
        driver: DriverTypes::Blackhole,
        operations: vec![
            Operation::Copy {
                from: OperationPath::new("/wd", "/home/u", "a"),
                to: OperationPath::new("/wd", "/home/u", "b"),
            },
            Operation::Exec {
                working_dir: String::from("/wd"),
                command: String::from("echo"),
                args: vec!["hi".to_string()],
            },
            Operation::Copy {
                from: OperationPath::new("/wd", "/home/u", "a"),
                to: OperationPath::new("/wd", "/home/u", "b"),
            },
        ],
    };

    let driver = run(input, BlackholeDriver::new()).unwrap();

    assert_eq!(
        vec![
            (String::from("copy"), String::from("/wd/a -> /wd/b")),
            (String::from("exec"), String::from("in /wd echo [hi]")),
            (String::from("copy"), String::from("/wd/a -> /wd/b")),
        ],
        driver.log
    );
}

#[test]
fn dry_run_scenario_logs_and_leaves_no_file() {
    let working_dir = tempfile::tempdir().unwrap().into_path();
    let wd = working_dir.to_str().unwrap();
    let home = tempfile::tempdir().unwrap().into_path();
    let input = Config {
        driver: DriverTypes::Blackhole,
        operations: vec![Operation::new_copy(
            home.to_str().unwrap(),
            wd,
            "out.txt",
            "in.txt",
        )],
    };

    let driver = run(input, BlackholeDriver::new()).unwrap();

    assert_eq!(
        vec![(
            String::from("copy"),
            format!("{}/in.txt -> {}/out.txt", wd, wd)
        )],
        driver.log
    );
    assert!(!working_dir.join("out.txt").exists());
}

#[test]
fn log_method_appends_entries_in_order() {
    let mut driver = BlackholeDriver::new();
    driver.log(String::from("copy"), String::from("a -> b"));
    driver.log(String::from("link"), String::from("c -> d"));

    assert_eq!(
        vec![
            (String::from("copy"), String::from("a -> b")),
            (String::from("link"), String::from("c -> d")),
        ],
        driver.log
    );
}

#[test]
fn operation_constructors_resolve_their_paths() {
    let copy = Operation::new_copy("/home/u", "/wd", "~/dest.txt", "src.txt");
    match copy {
        Operation::Copy { from, to } => {
            assert_eq!("/wd/src.txt", from.location);
            assert_eq!("/home/u/dest.txt", to.location);
        }
        _ => panic!("expected a copy operation"),
    }

    let link = Operation::new_link("/home/u", "/wd", "~/dest.txt", "/abs/src.txt", true);
    match link {
        Operation::Link { from, to, overwrite } => {
            assert_eq!("/abs/src.txt", from.location);
            assert_eq!("/home/u/dest.txt", to.location);
            assert!(overwrite);
        }
        _ => panic!("expected a link operation"),
    }

    let exec = Operation::new_exec("/wd", String::from("echo"), vec!["hello".to_string()]);
    match exec {
        Operation::Exec { working_dir, command, args } => {
            assert_eq!("/wd", working_dir);
            assert_eq!("echo", command);
            assert_eq!(vec!["hello".to_string()], args);
        }
        _ => panic!("expected an exec operation"),
    }
}
