use noxide::proxy::Sysproxy;
use noxide::samples::{get_display_name, greet, nested_var, User};

#[test]
fn default_proxy_is_switched_off() {
    let proxy = Sysproxy::default();
    assert!(!proxy.enable);
    assert_eq!(proxy.host, "");
    assert_eq!(proxy.port, 0);
    assert_eq!(proxy.bypass, "");
}

#[test]
fn proxy_keeps_its_fields() {
    let proxy = Sysproxy {
        enable: true,
        host: "127.0.0.1".to_string(),
        port: 8080,
        bypass: "localhost,127.0.0.1/8".to_string(),
    };
    let copy = proxy.clone();
    assert!(copy.enable);
    assert_eq!(copy.host, "127.0.0.1");
    assert_eq!(copy.port, 8080);
    assert_eq!(copy.bypass, "localhost,127.0.0.1/8");
}

#[test]
fn display_name_joins_first_and_last_name() {
    let user = User {
        name: "tom".to_string(),
        first_name: "Tom".to_string(),
        last_name: "Ford".to_string(),
        email: "tom@example.com".to_string(),
    };
    assert_eq!(get_display_name(&user), "Tom Ford");
}

#[test]
fn display_name_of_empty_names_is_a_space() {
    let user = User {
        name: String::new(),
        first_name: String::new(),
        last_name: String::new(),
        email: String::new(),
    };
    assert_eq!(get_display_name(&user), " ");
}

#[test]
fn sample_functions_return() {
    nested_var();
    greet();
}
