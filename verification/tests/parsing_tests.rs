use cluster_noodle::bootstrap;
use cluster_noodle::config::{
    build_cluster_nodes_objects, check_conf_file_exists, parse_node_line, ConfFileError,
    NodeParseError,
};

#[test]
fn full_node_line_has_credential() {
    let node = parse_node_line("10.0.0.5,admin,secret").unwrap();
    assert_eq!(node.ip, "10.0.0.5");
    assert_eq!(node.username, "admin");
    assert_eq!(node.password, "secret");
    assert!(!node.password.is_empty());
}

#[test]
fn two_field_node_line_has_empty_credential() {
    let node = parse_node_line("10.0.0.5,admin").unwrap();
    assert_eq!(node.ip, "10.0.0.5");
    assert_eq!(node.username, "admin");
    assert_eq!(node.password, "");
}

#[test]
fn one_field_node_line_is_a_parse_failure() {
    assert_eq!(parse_node_line("10.0.0.5"), Err(NodeParseError::TooFewFields));
}

#[test]
fn empty_node_line_is_a_parse_failure() {
    assert_eq!(parse_node_line(""), Err(NodeParseError::TooFewFields));
}

#[test]
fn extra_fields_are_ignored() {
    let node = parse_node_line("10.0.0.5,admin,secret,junk").unwrap();
    assert_eq!(node.password, "secret");
}

#[test]
fn descriptor_file_parses_line_by_line_in_order() {
    let nodes = build_cluster_nodes_objects("10.0.0.5,admin,secret\n10.0.0.6,bob\n").unwrap();
    assert_eq!(nodes.len(), 2);
    assert_eq!(nodes[0].ip, "10.0.0.5");
    assert_eq!(nodes[0].password, "secret");
    assert_eq!(nodes[1].ip, "10.0.0.6");
    assert_eq!(nodes[1].username, "bob");
    assert_eq!(nodes[1].password, "");
}

#[test]
fn descriptor_file_with_windows_line_endings() {
    let nodes = build_cluster_nodes_objects("10.0.0.5,admin,secret\r\n10.0.0.6,bob\r\n").unwrap();
    assert_eq!(nodes.len(), 2);
    assert_eq!(nodes[0].password, "secret");
    assert_eq!(nodes[1].username, "bob");
}

#[test]
fn descriptor_file_with_a_short_line_fails() {
    assert_eq!(
        build_cluster_nodes_objects("10.0.0.5,admin\nlonely\n"),
        Err(NodeParseError::TooFewFields)
    );
}

#[test]
fn empty_descriptor_file_yields_no_nodes() {
    let nodes = build_cluster_nodes_objects("").unwrap();
    assert!(nodes.is_empty());
}

#[test]
fn parse_failure_message_names_the_required_fields() {
    assert_eq!(
        NodeParseError::TooFewFields.message(),
        "For each server declared in the conf file you need to provide at least ip,username"
    );
}

#[test]
fn conf_file_presence_is_required() {
    assert!(check_conf_file_exists(true).is_ok());
    assert_eq!(check_conf_file_exists(false), Err(ConfFileError::Missing));
    assert!(ConfFileError::Missing.message().contains("conf.cluster_noodle"));
}

#[test]
fn bootstrap_list_keeps_only_full_entries() {
    let nodes = bootstrap::build_cluster_nodes_objects("1.1.1.1,u,p 2.2.2.2,v 3.3.3.3,w,q");
    assert_eq!(nodes.len(), 2);
    assert_eq!(nodes[0].ip, "1.1.1.1");
    assert_eq!(nodes[0].username, "u");
    assert_eq!(nodes[0].password, "p");
    assert_eq!(nodes[1].ip, "3.3.3.3");
    assert_eq!(nodes[1].password, "q");
}

#[test]
fn bootstrap_list_empty_input_yields_no_nodes() {
    let nodes = bootstrap::build_cluster_nodes_objects("");
    assert!(nodes.is_empty());
}

#[test]
fn decimal_rendering_is_exact() {
    assert_eq!(bootstrap::decimal_string(0), "0");
    assert_eq!(bootstrap::decimal_string(7), "7");
    assert_eq!(bootstrap::decimal_string(10), "10");
    assert_eq!(bootstrap::decimal_string(1000), "1000");
    assert_eq!(bootstrap::decimal_string(65535), "65535");
}

#[test]
fn bootstrap_config_file_carries_the_replica_count() {
    let content = bootstrap::config_file_content(3);
    assert!(content.contains("replicas: 3\n"));
    assert!(content.starts_with("\nservices:\n  web:\n    image: nginx\n"));
    assert!(content.ends_with("volumes:\n  db_data:\n"));
}
