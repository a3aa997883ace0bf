//! The early, single-string form of the node list: space-separated node
//! entries, each `ip,username,password`. Entries with fewer than three
//! fields are silently dropped here — the line-based descriptor file of
//! `config` superseded this form and made short entries a hard error.

use vstd::prelude::*;
use vstd::string::*;
use crate::config::NodeConfigView;
use crate::strutil::{spec_split, split_str};

verus! {

/// One remote machine, as in the node descriptor.
pub struct NodeConfig {
    pub ip: String,
    pub username: String,
    pub password: String,
}

impl View for NodeConfig {
    type V = NodeConfigView;

    open spec fn view(&self) -> NodeConfigView {
        NodeConfigView { ip: self.ip@, username: self.username@, password: self.password@ }
    }
}

impl DeepView for NodeConfig {
    type V = NodeConfigView;

    open spec fn deep_view(&self) -> NodeConfigView {
        self.view()
    }
}

/// The early working state: a node count and the node list.
pub struct ClusterConfig {
    pub nodes_number: u16,
    pub nodes_configs: Vec<NodeConfig>,
}

/// The model of the single-string node list: the targets of the entries
/// that carry at least three comma-separated fields, in input order; every
/// shorter entry is dropped.
pub open spec fn spec_bootstrap_nodes(entries: Seq<Seq<char>>) -> Seq<NodeConfigView>
    decreases entries.len(),
{
    if entries.len() == 0 {
        Seq::empty()
    } else {
        let rest = spec_bootstrap_nodes(entries.drop_last());
        let fields = spec_split(entries.last(), ',');
        if fields.len() > 2 {
            rest.push(
                NodeConfigView { ip: fields[0], username: fields[1], password: fields[2] },
            )
        } else {
            rest
        }
    }
}

/// Parses the space-separated node list.
pub fn build_cluster_nodes_objects(input: &str) -> (nodes: Vec<NodeConfig>)
    ensures
        nodes.deep_view() == spec_bootstrap_nodes(spec_split(input@, ' ')),
{
    let entries = split_str(input, ' ');
    let ghost ev = entries.deep_view();
    let mut nodes: Vec<NodeConfig> = Vec::new();
    let mut i: usize = 0;
    while i < entries.len()
        invariant
            0 <= i <= entries.len(),
            entries.deep_view() == ev,
            nodes.deep_view() =~= spec_bootstrap_nodes(ev.subrange(0, i as int)),
        decreases entries.len() - i,
    {
        proof {
            assert(ev[i as int] == entries@[i as int]@);
        }
        let ghost prev = nodes@;
        let ghost prev_deep = nodes.deep_view();
        let fields = split_str(entries[i].as_str(), ',');
        proof {
            assert(forall|j: int|
                0 <= j < fields@.len() ==> #[trigger] fields.deep_view()[j] == fields@[j]@);
        }
        if fields.len() > 2 {
            nodes.push(
                NodeConfig {
                    ip: fields[0].clone(),
                    username: fields[1].clone(),
                    password: fields[2].clone(),
                },
            );
        }
        proof {
            assert(ev.subrange(0, i + 1).drop_last() =~= ev.subrange(0, i as int));
            assert(ev.subrange(0, i + 1).last() == ev[i as int]);
            assert forall|j: int| 0 <= j < nodes@.len() implies #[trigger] nodes.deep_view()[j]
                == spec_bootstrap_nodes(ev.subrange(0, i + 1))[j] by {
                assert(nodes.deep_view()[j] == nodes@[j]@);
                if j < prev.len() {
                    assert(nodes@[j] == prev[j]);
                    assert(prev_deep[j] == prev[j]@);
                }
            }
            assert(nodes.deep_view() =~= spec_bootstrap_nodes(ev.subrange(0, i + 1)));
        }
        i = i + 1;
    }
    proof {
        assert(ev.subrange(0, ev.len() as int) =~= ev);
    }
    nodes
}

/// One decimal digit as text.
pub open spec fn spec_digit(d: int) -> Seq<char>
    recommends
        0 <= d <= 9,
{
    if d == 0 {
        "0"@
    } else if d == 1 {
        "1"@
    } else if d == 2 {
        "2"@
    } else if d == 3 {
        "3"@
    } else if d == 4 {
        "4"@
    } else if d == 5 {
        "5"@
    } else if d == 6 {
        "6"@
    } else if d == 7 {
        "7"@
    } else if d == 8 {
        "8"@
    } else {
        "9"@
    }
}

/// A non-negative number in decimal, most significant digit first.
pub open spec fn spec_decimal(n: int) -> Seq<char>
    recommends
        n >= 0,
    decreases n,
{
    if n < 10 {
        spec_digit(n)
    } else {
        spec_decimal(n / 10) + spec_digit(n % 10)
    }
}

/// One decimal digit as text.
fn digit_str(d: u16) -> (r: &'static str)
    requires
        d <= 9,
    ensures
        r@ == spec_digit(d as int),
{
    match d {
        0 => "0",
        1 => "1",
        2 => "2",
        3 => "3",
        4 => "4",
        5 => "5",
        6 => "6",
        7 => "7",
        8 => "8",
        _ => "9",
    }
}

/// Writes a number in decimal.
pub fn decimal_string(n: u16) -> (r: String)
    ensures
        r@ == spec_decimal(n as int),
    decreases n,
{
    if n < 10 {
        digit_str(n).to_owned()
    } else {
        decimal_string(n / 10).concat(digit_str(n % 10))
    }
}

/// The early deployment document: a fixed two-service template with the
/// requested replica count written into it.
pub open spec fn spec_config_file_content(nodes_number: int) -> Seq<char> {
    "\nservices:\n  web:\n    image: nginx\n    deploy:\n      replicas: "@ + spec_decimal(
        nodes_number,
    )
        + "\n      update_config:\n        parallelism: 2\n        delay: 10s\n    ports:\n      - \"80:80\"\n  db:\n    image: postgres\n    environment:\n      POSTGRES_PASSWORD: admin\n\nnetworks:\n  net: \n\nvolumes:\n  db_data:\n"@
}

/// Builds the early deployment document for the requested replica count.
/// The binary writes it to disk.
pub fn config_file_content(nodes_number: u16) -> (r: String)
    ensures
        r@ == spec_config_file_content(nodes_number as int),
{
    String::from_str("\nservices:\n  web:\n    image: nginx\n    deploy:\n      replicas: ")
        .concat(decimal_string(nodes_number).as_str())
        .concat(
        "\n      update_config:\n        parallelism: 2\n        delay: 10s\n    ports:\n      - \"80:80\"\n  db:\n    image: postgres\n    environment:\n      POSTGRES_PASSWORD: admin\n\nnetworks:\n  net: \n\nvolumes:\n  db_data:\n",
    )
}

} // verus!
