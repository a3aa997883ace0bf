//! The run's working state: node targets and the cluster descriptor.
//!
//! A `NodeConfig` is one remote machine, addressed as `username@ip`; it is
//! created by parsing the node descriptor file and never mutated afterwards.
//! A `ClusterConfig` is the working state of one invocation. The optional
//! path fields are expected to hold already-resolved absolute paths: path
//! resolution touches the file system and is the binary's job.

use vstd::prelude::*;
use vstd::string::*;
use crate::strutil::{lines_of, spec_lines, spec_split, split_str};

verus! {

/// One remote machine of the fleet: host address, login name and the
/// credential from the node descriptor. The credential is carried as data
/// only; remote access is key-based and no built command ever contains it.
#[derive(Debug, Clone, PartialEq, Eq)]
pub struct NodeConfig {
    pub ip: String,
    pub username: String,
    pub password: String,
}

/// The mathematical model of a `NodeConfig`.
#[verifier::ext_equal]
pub struct NodeConfigView {
    pub ip: Seq<char>,
    pub username: Seq<char>,
    pub password: Seq<char>,
}

impl View for NodeConfig {
    type V = NodeConfigView;

    open spec fn view(&self) -> NodeConfigView {
        NodeConfigView { ip: self.ip@, username: self.username@, password: self.password@ }
    }
}

impl DeepView for NodeConfig {
    type V = NodeConfigView;

    open spec fn deep_view(&self) -> NodeConfigView {
        self.view()
    }
}

/// The working state of one invocation: the node targets in declaration
/// order, the captured join command (write-once: set when the control plane
/// is initialized, read by every subsequent join), the service selection and
/// the optional resolved paths.
pub struct ClusterConfig {
    pub ip_adress: Option<String>,
    pub nodes_number: u16,
    pub nodes_configs: Vec<NodeConfig>,
    pub cluster_docker_command: String,
    pub project_folder_path: Option<String>,
    pub project_entry_file_path: Option<String>,
    pub ssl_certificate_path_key: Option<String>,
    pub ssl_certificate_path_crt: Option<String>,
    pub services: crate::selection::Services,
    pub docker_images: Vec<String>,
}

/// Externally configured database credentials, each optional; the
/// synthesizer falls back to fixed defaults for the absent ones. The binary
/// fills this from the process environment.
pub struct EnvConfig {
    pub database_user: Option<String>,
    pub database_password: Option<String>,
    pub database_name: Option<String>,
    pub database_rootpassword: Option<String>,
}

/// The error raised when the node descriptor file is absent: a fatal
/// precondition, checked before any node is touched.
#[derive(Debug, Clone, Copy, PartialEq, Eq, Structural)]
pub enum ConfFileError {
    Missing,
}

impl ConfFileError {
    /// A user-facing description of the error.
    pub fn message(&self) -> (m: String)
        ensures
            m@ == "No conf file found. You need to declare servers in the conf file (~/.config/conf.cluster_noodle)"@,
    {
        String::from_str(
            "No conf file found. You need to declare servers in the conf file (~/.config/conf.cluster_noodle)",
        )
    }
}

/// Turns the result of the binary's existence probe for the node descriptor
/// file into the fatal error the workflow stops on when the file is absent.
pub fn check_conf_file_exists(conf_file_present: bool) -> (r: Result<(), ConfFileError>)
    ensures
        r is Ok <==> conf_file_present,
        !conf_file_present ==> r == Result::<(), ConfFileError>::Err(ConfFileError::Missing),
{
    if conf_file_present {
        Ok(())
    } else {
        Err(ConfFileError::Missing)
    }
}

/// The fatal error raised when a node descriptor line holds fewer than the
/// two required fields.
#[derive(Debug, Clone, Copy, PartialEq, Eq, Structural)]
pub enum NodeParseError {
    TooFewFields,
}

impl NodeParseError {
    /// A user-facing description of the error.
    pub fn message(&self) -> (m: String)
        ensures
            m@ == "For each server declared in the conf file you need to provide at least ip,username"@,
    {
        String::from_str(
            "For each server declared in the conf file you need to provide at least ip,username",
        )
    }
}

/// The model of one node descriptor line, `ip,username[,password]`: three or
/// more comma-separated fields give a target with a credential, exactly two
/// give one with an empty credential, fewer than two are a parse failure.
/// Fields past the third are ignored.
pub open spec fn spec_parse_node_line(line: Seq<char>) -> Option<NodeConfigView> {
    let fields = spec_split(line, ',');
    if fields.len() >= 3 {
        Some(NodeConfigView { ip: fields[0], username: fields[1], password: fields[2] })
    } else if fields.len() == 2 {
        Some(NodeConfigView { ip: fields[0], username: fields[1], password: Seq::empty() })
    } else {
        None
    }
}

/// The model of the whole node descriptor text: every line parsed in order,
/// or nothing as soon as any line fails.
pub open spec fn spec_parse_nodes(lines: Seq<Seq<char>>) -> Option<Seq<NodeConfigView>>
    decreases lines.len(),
{
    if lines.len() == 0 {
        Some(Seq::empty())
    } else {
        match spec_parse_node_line(lines[0]) {
            Some(node) => match spec_parse_nodes(lines.drop_first()) {
                Some(rest) => Some(seq![node] + rest),
                None => None,
            },
            None => None,
        }
    }
}

/// A parse over lines that all succeed elementwise is the elementwise parse.
proof fn lemma_parse_nodes_from_elements(lines: Seq<Seq<char>>, nodes: Seq<NodeConfigView>)
    requires
        nodes.len() == lines.len(),
        forall|j: int|
            0 <= j < lines.len() ==> spec_parse_node_line(lines[j]) == Some(nodes[j]),
    ensures
        spec_parse_nodes(lines) == Some(nodes),
    decreases lines.len(),
{
    if lines.len() > 0 {
        let tail = lines.drop_first();
        let nodes_tail = nodes.drop_first();
        assert(forall|j: int| 0 <= j < tail.len() ==> tail[j] == lines[j + 1]);
        assert(forall|j: int| 0 <= j < nodes_tail.len() ==> nodes_tail[j] == nodes[j + 1]);
        lemma_parse_nodes_from_elements(tail, nodes_tail);
        assert(nodes =~= seq![nodes[0]] + nodes_tail);
    }
}

/// One failing line fails the whole parse.
proof fn lemma_parse_nodes_fails(lines: Seq<Seq<char>>, i: int)
    requires
        0 <= i < lines.len(),
        spec_parse_node_line(lines[i]) is None,
    ensures
        spec_parse_nodes(lines) is None,
    decreases lines.len(),
{
    if i > 0 {
        let tail = lines.drop_first();
        assert(tail[i - 1] == lines[i]);
        lemma_parse_nodes_fails(tail, i - 1);
    }
}

/// Parses one node descriptor line.
pub fn parse_node_line(line: &str) -> (r: Result<NodeConfig, NodeParseError>)
    ensures
        match r {
            Ok(node) => spec_parse_node_line(line@) == Some(node@),
            Err(e) => spec_parse_node_line(line@) is None && e == NodeParseError::TooFewFields,
        },
{
    let fields = split_str(line, ',');
    proof {
        assert(forall|j: int|
            0 <= j < fields@.len() ==> #[trigger] fields.deep_view()[j] == fields@[j]@);
    }
    if fields.len() >= 3 {
        Ok(
            NodeConfig {
                ip: fields[0].clone(),
                username: fields[1].clone(),
                password: fields[2].clone(),
            },
        )
    } else if fields.len() == 2 {
        let node = NodeConfig {
            ip: fields[0].clone(),
            username: fields[1].clone(),
            password: String::new(),
        };
        proof {
            assert(node@ =~= spec_parse_node_line(line@)->0);
        }
        Ok(node)
    } else {
        Err(NodeParseError::TooFewFields)
    }
}

/// Parses the node descriptor text, one target per line, in order. The
/// binary reads the file and hands its contents here; a line with fewer
/// than two fields fails the whole parse, as a fatal precondition.
pub fn build_cluster_nodes_objects(contents: &str) -> (r: Result<Vec<NodeConfig>, NodeParseError>)
    ensures
        match r {
            Ok(nodes) => spec_parse_nodes(spec_lines(contents@)) == Some(nodes.deep_view()),
            Err(e) => spec_parse_nodes(spec_lines(contents@)) is None && e
                == NodeParseError::TooFewFields,
        },
{
    let lines = lines_of(contents);
    let ghost lv = lines.deep_view();
    let mut nodes: Vec<NodeConfig> = Vec::new();
    let mut i: usize = 0;
    while i < lines.len()
        invariant
            0 <= i <= lines.len(),
            lines.deep_view() == lv,
            lv == spec_lines(contents@),
            nodes@.len() == i,
            forall|j: int|
                0 <= j < i ==> spec_parse_node_line(lv[j]) == Some(
                    #[trigger] nodes.deep_view()[j],
                ),
        decreases lines.len() - i,
    {
        proof {
            assert(lv[i as int] == lines@[i as int]@);
        }
        let ghost prev = nodes@;
        let ghost prev_deep = nodes.deep_view();
        match parse_node_line(lines[i].as_str()) {
            Ok(node) => {
                nodes.push(node);
                proof {
                    assert forall|j: int| 0 <= j < i + 1 implies spec_parse_node_line(lv[j])
                        == Some(#[trigger] nodes.deep_view()[j]) by {
                        assert(nodes.deep_view()[j] == nodes@[j].deep_view());
                        if j < i {
                            assert(prev_deep[j] == prev[j].deep_view());
                            assert(spec_parse_node_line(lv[j]) == Some(prev_deep[j]));
                            assert(nodes@[j] == prev[j]);
                        }
                    }
                }
            },
            Err(e) => {
                proof {
                    lemma_parse_nodes_fails(lv, i as int);
                }
                return Err(e);
            },
        }
        i = i + 1;
    }
    proof {
        lemma_parse_nodes_from_elements(lv, nodes.deep_view());
    }
    Ok(nodes)
}

} // verus!
