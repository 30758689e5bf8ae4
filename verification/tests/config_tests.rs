use formulatrix_uploader::config::{
    decimal_string, parse_ispyb_url, parse_task, ConfigError, Credentials, JobKind,
};

#[test]
fn task_names_select_their_variant() {
    assert_eq!(parse_task("Z").unwrap(), JobKind::Z);
    assert_eq!(parse_task("EF").unwrap(), JobKind::EF);
}

#[test]
fn unknown_task_is_refused_by_name() {
    match parse_task("Q") {
        Err(ConfigError::UnknownTask { task }) => assert_eq!(task, "Q".to_string()),
        _ => panic!("expected UnknownTask"),
    }
}

#[test]
fn decimal_rendering() {
    assert_eq!(decimal_string(0), "0".to_string());
    assert_eq!(decimal_string(7), "7".to_string());
    assert_eq!(decimal_string(3306), "3306".to_string());
    assert_eq!(decimal_string(u32::MAX), "4294967295".to_string());
}

#[test]
fn connection_url_is_formatted_from_the_credentials() {
    let creds = Credentials {
        database: "ispyb".to_string(),
        username: "reader".to_string(),
        password: "pw".to_string(),
        host: "db.example".to_string(),
        port: 3306,
    };
    assert_eq!(
        parse_ispyb_url(&creds),
        "mysql://reader:pw@db.example:3306/ispyb?pool_min=1&pool_max=1".to_string()
    );
}
