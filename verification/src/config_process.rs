//! The flat model of a playbook: one protocol per document, and each step a
//! list of keys and string values.

use vstd::prelude::*;
use vstd::string::*;
use crate::document::{document_read, parse_document, Node};
use crate::error::PlaybookError;

verus! {

/// One role, with its bounds and working directory filled in.
#[derive(Debug, PartialEq, Eq)]
pub struct Role {
    /// The role's name.
    pub name: String,
    /// The most participants the role may have.
    pub max_num: i64,
    /// The fewest participants the role may have.
    pub min_num: i64,
    /// The steps in order, each as its keys and values; no key stands twice
    /// in a step that was read from a document.
    pub steps: Vec<Vec<(String, String)>>,
    /// The working directory, a template that ends in `/`.
    pub workdir: String,
}

/// The texts of the keys and values of one step.
pub open spec fn pair_texts(step: Seq<(String, String)>) -> Seq<(Seq<char>, Seq<char>)> {
    step.map_values(|p: (String, String)| (p.0@, p.1@))
}

/// The texts of a list of steps.
pub open spec fn step_texts(steps: Seq<Vec<(String, String)>>) -> Seq<Seq<(Seq<char>, Seq<char>)>> {
    steps.map_values(|s: Vec<(String, String)>| pair_texts(s@))
}

/// A role with its strings taken as texts.
pub struct RoleView {
    pub name: Seq<char>,
    pub max_num: i64,
    pub min_num: i64,
    pub steps: Seq<Seq<(Seq<char>, Seq<char>)>>,
    pub workdir: Seq<char>,
}

impl View for Role {
    type V = RoleView;

    open spec fn view(&self) -> RoleView {
        RoleView {
            name: self.name@,
            max_num: self.max_num,
            min_num: self.min_num,
            steps: step_texts(self.steps@),
            workdir: self.workdir@,
        }
    }
}

/// Whether `node` is a string.
pub open spec fn is_text(node: Node) -> bool {
    node is Str
}

/// The keys and values of the step that `node` stands for, or `None` if it is
/// no table or one of its values is no string.
pub open spec fn flat_step_of(node: Node) -> Option<Seq<(Seq<char>, Seq<char>)>> {
    match node {
        Node::Table(entries) => if forall|k: int|
            0 <= k < entries@.len() ==> is_text(#[trigger] entries@[k].1) {
            Some(Seq::new(entries@.len(), |k: int| (entries@[k].0@, entries@[k].1->Str_0@)))
        } else {
            None
        },
        _ => None,
    }
}

/// The steps that `items` stand for, or `None` if one of them stands for none.
pub open spec fn flat_steps_of(items: Seq<Node>) -> Option<Seq<Seq<(Seq<char>, Seq<char>)>>> {
    if forall|k: int| 0 <= k < items.len() ==> (#[trigger] flat_step_of(items[k])) is Some {
        Some(Seq::new(items.len(), |k: int| flat_step_of(items[k])->0))
    } else {
        None
    }
}

/// The role that the table `node` stands for under the name `name`, in a
/// protocol whose working directory is `parent_workdir`. The bounds default to
/// no upper bound and to zero, the working directory to the protocol's; a `/`
/// is put behind it.
pub open spec fn flat_role_of(name: Seq<char>, node: Node, parent_workdir: Seq<char>) -> Option<
    RoleView,
> {
    match (node.integer_under("max_num"@), node.integer_under("min_num"@), node.entry("playbook"@)) {
        (Some(max_num), Some(min_num), Some(playbook)) => match (
            playbook.text_under("workdir"@),
            playbook.entry("steps"@),
        ) {
            (Some(workdir), Some(Node::Array(items))) => match flat_steps_of(items@) {
                Some(steps) => Some(
                    RoleView {
                        name,
                        max_num: match max_num {
                            Some(n) => n,
                            None => i64::MAX,
                        },
                        min_num: match min_num {
                            Some(n) => n,
                            None => 0,
                        },
                        steps,
                        workdir: (match workdir {
                            Some(w) => w,
                            None => parent_workdir,
                        }) + "/"@,
                    },
                ),
                None => None,
            },
            _ => None,
        },
        _ => None,
    }
}

/// Reads one step: the keys of its table with their string values.
pub fn flat_step(node: &Node) -> (r: Option<Vec<(String, String)>>)
    ensures
        match r {
            Some(step) => flat_step_of(*node) == Some(pair_texts(step@)),
            None => flat_step_of(*node) is None,
        },
{
    let entries: &Vec<(String, Node)> = match node.as_table() {
        Some(entries) => entries,
        None => {
            return None;
        },
    };
    let mut step: Vec<(String, String)> = Vec::new();
    let mut i: usize = 0;
    while i < entries.len()
        invariant
            *node == Node::Table(*entries),
            0 <= i <= entries@.len(),
            step@.len() == i,
            forall|k: int| 0 <= k < i ==> is_text(#[trigger] entries@[k].1),
            forall|k: int|
                0 <= k < i ==> (#[trigger] step@[k]).0@ == entries@[k].0@ && step@[k].1@
                    == entries@[k].1->Str_0@,
        decreases entries@.len() - i,
    {
        match entries[i].1.as_str() {
            Some(value) => {
                step.push((entries[i].0.clone(), value.clone()));
            },
            None => {
                assert(!is_text(entries@[i as int].1));
                return None;
            },
        }
        i = i + 1;
    }
    assert(pair_texts(step@) =~= flat_step_of(*node)->0);
    Some(step)
}

impl Role {
    /// Reads the role `name` from its table; `father_workdir` is the working
    /// directory of the protocol.
    ///
    /// Fails with `Config` if `max_num` or `min_num` is no integer, if the
    /// `playbook` table is missing, if its `workdir` is no string, if its
    /// `steps` are missing or no array, or if a step is no table of strings.
    #[verifier::loop_isolation(false)]
    pub fn new(name: String, value: &Node, father_workdir: String) -> (r: Result<
        Role,
        PlaybookError,
    >)
        ensures
            match r {
                Ok(role) => flat_role_of(name@, *value, father_workdir@) == Some(role@),
                Err(e) => e == PlaybookError::Config && flat_role_of(name@, *value, father_workdir@)
                    is None,
            },
    {
        let max_num: i64 = match value.opt_integer("max_num") {
            Some(Some(n)) => n,
            Some(None) => i64::MAX,
            None => {
                return Err(PlaybookError::Config);
            },
        };
        let min_num: i64 = match value.opt_integer("min_num") {
            Some(Some(n)) => n,
            Some(None) => 0,
            None => {
                return Err(PlaybookError::Config);
            },
        };
        let playbook: &Node = match value.get("playbook") {
            Some(p) => p,
            None => {
                return Err(PlaybookError::Config);
            },
        };
        let workdir: String = match playbook.opt_str("workdir") {
            Some(Some(w)) => w,
            Some(None) => father_workdir,
            None => {
                return Err(PlaybookError::Config);
            },
        };
        let items: &Vec<Node> = match playbook.get("steps") {
            Some(node) => match node.as_array() {
                Some(items) => items,
                None => {
                    return Err(PlaybookError::Config);
                },
            },
            None => {
                return Err(PlaybookError::Config);
            },
        };
        let mut steps: Vec<Vec<(String, String)>> = Vec::new();
        let mut i: usize = 0;
        while i < items.len()
            invariant
                0 <= i <= items@.len(),
                steps@.len() == i,
                forall|k: int|
                    0 <= k < i ==> (#[trigger] flat_step_of(items@[k])) == Some(
                        pair_texts(steps@[k]@),
                    ),
            decreases items@.len() - i,
        {
            match flat_step(&items[i]) {
                Some(step) => {
                    steps.push(step);
                },
                None => {
                    return Err(PlaybookError::Config);
                },
            }
            i = i + 1;
        }
        assert(step_texts(steps@) =~= flat_steps_of(items@)->0);
        Ok(Role { name, max_num, min_num, steps, workdir: workdir.concat("/") })
    }
}

/// The one protocol of a document.
#[derive(Debug, PartialEq, Eq)]
pub struct ProtocolConfig {
    /// The protocol's name.
    pub protocol_name: String,
    /// The roles, in the order of the document's `roles` table.
    pub roles: Vec<Role>,
}

/// A protocol with its strings taken as texts.
pub struct ProtocolConfigView {
    pub protocol_name: Seq<char>,
    pub roles: Seq<RoleView>,
}

/// The views of a list of roles.
pub open spec fn flat_role_views(roles: Seq<Role>) -> Seq<RoleView> {
    roles.map_values(|r: Role| r@)
}

impl View for ProtocolConfig {
    type V = ProtocolConfigView;

    open spec fn view(&self) -> ProtocolConfigView {
        ProtocolConfigView {
            protocol_name: self.protocol_name@,
            roles: flat_role_views(self.roles@),
        }
    }
}

/// The roles of the entries of a `roles` table, or `None` if one of them
/// stands for no role.
pub open spec fn flat_roles_of(entries: Seq<(String, Node)>, parent_workdir: Seq<char>) -> Option<
    Seq<RoleView>,
> {
    if forall|k: int|
        0 <= k < entries.len() ==> (#[trigger] flat_role_of(
            entries[k].0@,
            entries[k].1,
            parent_workdir,
        )) is Some {
        Some(
            Seq::new(
                entries.len(),
                |k: int| flat_role_of(entries[k].0@, entries[k].1, parent_workdir)->0,
            ),
        )
    } else {
        None
    }
}

/// The protocol that the table `node` stands for, or `None` if `name` or
/// `workdir` is missing or no string, if `roles` is missing or no table, or if
/// one of its entries stands for no role.
pub open spec fn flat_protocol_of(node: Node) -> Option<ProtocolConfigView> {
    match (node.entry("name"@), node.entry("workdir"@), node.entry("roles"@)) {
        (Some(Node::Str(name)), Some(Node::Str(workdir)), Some(Node::Table(entries))) => match flat_roles_of(
            entries@,
            workdir@,
        ) {
            Some(roles) => Some(ProtocolConfigView { protocol_name: name@, roles }),
            None => None,
        },
        _ => None,
    }
}

impl ProtocolConfig {
    /// Reads the protocol from its table.
    ///
    /// Fails with `Config` exactly when `flat_protocol_of` gives no protocol.
    #[verifier::loop_isolation(false)]
    pub fn new(value: &Node) -> (r: Result<ProtocolConfig, PlaybookError>)
        ensures
            match r {
                Ok(protocol) => flat_protocol_of(*value) == Some(protocol@),
                Err(e) => e == PlaybookError::Config && flat_protocol_of(*value) is None,
            },
    {
        let name: String = match value.get("name") {
            Some(node) => match node.as_str() {
                Some(s) => s.clone(),
                None => {
                    return Err(PlaybookError::Config);
                },
            },
            None => {
                return Err(PlaybookError::Config);
            },
        };
        let workdir: String = match value.get("workdir") {
            Some(node) => match node.as_str() {
                Some(s) => s.clone(),
                None => {
                    return Err(PlaybookError::Config);
                },
            },
            None => {
                return Err(PlaybookError::Config);
            },
        };
        let entries: &Vec<(String, Node)> = match value.get("roles") {
            Some(node) => match node.as_table() {
                Some(entries) => entries,
                None => {
                    return Err(PlaybookError::Config);
                },
            },
            None => {
                return Err(PlaybookError::Config);
            },
        };
        let mut roles: Vec<Role> = Vec::new();
        let mut i: usize = 0;
        while i < entries.len()
            invariant
                0 <= i <= entries@.len(),
                roles@.len() == i,
                forall|k: int|
                    0 <= k < i ==> (#[trigger] flat_role_of(
                        entries@[k].0@,
                        entries@[k].1,
                        workdir@,
                    )) == Some(roles@[k]@),
            decreases entries@.len() - i,
        {
            match Role::new(entries[i].0.clone(), &entries[i].1, workdir.clone()) {
                Ok(role) => {
                    roles.push(role);
                },
                Err(_) => {
                    return Err(PlaybookError::Config);
                },
            }
            i = i + 1;
        }
        assert(flat_role_views(roles@) =~= flat_roles_of(entries@, workdir@)->0);
        Ok(ProtocolConfig { protocol_name: name, roles })
    }
}

/// The tables among the top-level entries from `from` on that are protocols,
/// that is every table but `package`; `None` if the table `package` does not
/// hold `use_playbook = true`.
pub open spec fn protocol_tables(entries: Seq<(String, Node)>, from: int) -> Option<Seq<Node>>
    decreases entries.len() - from,
{
    if from < 0 || from >= entries.len() {
        Some(Seq::empty())
    } else if !(entries[from].1 is Table) {
        protocol_tables(entries, from + 1)
    } else if entries[from].0@ == "package"@ {
        if entries[from].1.entry("use_playbook"@) == Some(Node::Bool(true)) {
            protocol_tables(entries, from + 1)
        } else {
            None
        }
    } else {
        match protocol_tables(entries, from + 1) {
            Some(rest) => Some(seq![entries[from].1] + rest),
            None => None,
        }
    }
}

/// The protocol of the document `root`: the one table besides `package`.
/// `None` if the document holds no such table or more than one, if `package`
/// does not switch the engine on, or if the table stands for no protocol.
pub open spec fn config_of(root: Node) -> Option<ProtocolConfigView> {
    match root {
        Node::Table(entries) => match protocol_tables(entries@, 0) {
            Some(tables) => if tables.len() == 1 {
                flat_protocol_of(tables[0])
            } else {
                None
            },
            None => None,
        },
        _ => None,
    }
}

/// The outcome of reading a configuration, with the protocol taken by its view.
pub open spec fn config_view(r: Result<ProtocolConfig, PlaybookError>) -> Option<ProtocolConfigView> {
    match r {
        Ok(protocol) => Some(protocol@),
        Err(_) => None,
    }
}

/// Reads the one protocol of a document that has been parsed.
pub fn config_from(root: &Node) -> (r: Result<ProtocolConfig, PlaybookError>)
    ensures
        config_view(r) == config_of(*root),
        r matches Err(e) ==> e == PlaybookError::Config,
{
    let entries: &Vec<(String, Node)> = match root.as_table() {
        Some(entries) => entries,
        None => {
            return Err(PlaybookError::Config);
        },
    };
    let package: String = "package".to_string();
    let mut found: Option<usize> = None;
    let ghost mut tables: Seq<Node> = Seq::empty();
    let mut i: usize = 0;
    while i < entries.len()
        invariant
            *root == Node::Table(*entries),
            0 <= i <= entries@.len(),
            package@ == "package"@,
            protocol_tables(entries@, 0) == (match protocol_tables(entries@, i as int) {
                Some(rest) => Some(tables + rest),
                None => None,
            }),
            match found {
                Some(at) => at < i && tables == seq![entries@[at as int].1],
                None => tables.len() == 0,
            },
        decreases entries@.len() - i,
    {
        let value: &Node = &entries[i].1;
        if value.as_table().is_some() {
            if entries[i].0 == package {
                let enabled: bool = match value.get("use_playbook") {
                    Some(node) => match node.as_bool() {
                        Some(b) => b,
                        None => false,
                    },
                    None => false,
                };
                if !enabled {
                    return Err(PlaybookError::Config);
                }
            } else {
                proof {
                    match protocol_tables(entries@, i + 1) {
                        Some(rest) => {
                            assert(tables + (seq![*value] + rest) =~= (tables + seq![*value])
                                + rest);
                        },
                        None => {},
                    }
                }
                if found.is_some() {
                    return Err(PlaybookError::Config);
                }
                found = Some(i);
                proof {
                    tables = tables + seq![*value];
                    assert(tables =~= seq![*value]);
                }
            }
        }
        i = i + 1;
    }
    proof {
        assert(tables + Seq::<Node>::empty() =~= tables);
    }
    match found {
        Some(at) => ProtocolConfig::new(&entries[at].1),
        None => Err(PlaybookError::Config),
    }
}

/// What reading `text` as a configuration gives.
pub open spec fn config_of_text(text: Seq<char>) -> Option<ProtocolConfigView> {
    match document_read(text) {
        Some(root) => config_of(root),
        None => None,
    }
}

/// Reads the one protocol of a configuration document from its text.
///
/// Fails with `Config` if `toml_str` is no document or is nested beyond the
/// depth limit, if it holds no table
/// besides `package` or more than one, if `package` does not hold
/// `use_playbook = true`, or if the table stands for no protocol.
pub fn generate_config_from_toml(toml_str: &str) -> (r: Result<ProtocolConfig, PlaybookError>)
    ensures
        config_view(r) == config_of_text(toml_str@),
        r matches Err(e) ==> e == PlaybookError::Config,
{
    match parse_document(toml_str) {
        Some(root) => config_from(&root),
        None => Err(PlaybookError::Config),
    }
}

} // verus!
