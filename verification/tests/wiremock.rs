use wiremock_ui::wiremock::{Wiremock, WiremockErrors};

#[test]
fn server_command_starts_java_with_the_standalone_jar() {
    let c = Wiremock::server_command(&"./mocks".to_string(), 7070);
    assert_eq!(c.program, "java");
    assert_eq!(
        c.args,
        vec![
            "-jar",
            "./wiremock-standalone-3.2.0.jar",
            "--root-dir",
            "./mocks",
            "--port",
            "7070",
            "--local-response-templating",
        ]
    );
}

#[test]
fn server_command_port_reads_back() {
    let c = Wiremock::server_command(&String::new(), 8443);
    assert_eq!(c.args[3], "");
    assert_eq!(c.args[4], "--port");
    assert_eq!(c.args[5].parse::<i32>().unwrap(), 8443);
}

#[test]
fn filewatcher_created() {
    assert!(Wiremock::filewatcher_outcome(true).is_ok());
}

#[test]
fn filewatcher_not_created() {
    assert!(matches!(
        Wiremock::filewatcher_outcome(false),
        Err(WiremockErrors::FileWatcherError)
    ));
}
