//! The model of a playbook: protocols, their roles, and each role's ordered
//! steps, as they are read from a configuration document.

use vstd::prelude::*;
use vstd::string::*;
use crate::document::{document_read, opt_text, parse_document, Node};
use crate::error::PlaybookError;

verus! {

/// One step of a role's playbook: a record of optional fields, of which the
/// ones that are present say what the step does.
#[derive(Debug, PartialEq, Eq)]
pub struct StepSpec {
    /// The guard: a command whose exit code decides whether the step runs.
    pub _if: Option<String>,
    /// The name under which the step's process is registered.
    pub step_name: Option<String>,
    /// The command to launch.
    pub process: Option<String>,
    /// The step name of the process to wait for.
    pub process_wait: Option<String>,
    /// The step name of the process to kill and then wait for.
    pub process_kill: Option<String>,
    /// The result that the process waited for must end with.
    pub check_exit_code: Option<i32>,
    /// The name of the variable to send.
    pub send_variable: Option<String>,
    /// The name of the variable to receive.
    pub recv_variable: Option<String>,
    /// The role of the sender of a received variable.
    pub from_role: Option<String>,
    /// The role of the receivers of a sent variable.
    pub to_role: Option<String>,
    /// The position of one participant among those of the role.
    pub index: Option<i64>,
    /// The file that holds, or takes, the payload.
    pub file: Option<String>,
    /// The file that takes the process's standard output.
    pub stdout_file: Option<String>,
    /// The file that takes the process's standard error.
    pub stderr_file: Option<String>,
    /// The file that takes the process's result as a decimal number.
    pub exit_code: Option<String>,
    /// The key of the entry to create.
    pub create_entry: Option<String>,
    /// The key of the entry to update.
    pub update_entry: Option<String>,
    /// The key of the entry to delete.
    pub delete_entry: Option<String>,
    /// The key of the entry to read.
    pub read_entry: Option<String>,
    /// The key of the entry to read once it exists.
    pub read_or_wait_entry: Option<String>,
}

/// A step with its strings taken as texts.
pub struct StepSpecView {
    pub _if: Option<Seq<char>>,
    pub step_name: Option<Seq<char>>,
    pub process: Option<Seq<char>>,
    pub process_wait: Option<Seq<char>>,
    pub process_kill: Option<Seq<char>>,
    pub check_exit_code: Option<i32>,
    pub send_variable: Option<Seq<char>>,
    pub recv_variable: Option<Seq<char>>,
    pub from_role: Option<Seq<char>>,
    pub to_role: Option<Seq<char>>,
    pub index: Option<i64>,
    pub file: Option<Seq<char>>,
    pub stdout_file: Option<Seq<char>>,
    pub stderr_file: Option<Seq<char>>,
    pub exit_code: Option<Seq<char>>,
    pub create_entry: Option<Seq<char>>,
    pub update_entry: Option<Seq<char>>,
    pub delete_entry: Option<Seq<char>>,
    pub read_entry: Option<Seq<char>>,
    pub read_or_wait_entry: Option<Seq<char>>,
}

impl View for StepSpec {
    type V = StepSpecView;

    open spec fn view(&self) -> StepSpecView {
        StepSpecView {
            _if: opt_text(self._if),
            step_name: opt_text(self.step_name),
            process: opt_text(self.process),
            process_wait: opt_text(self.process_wait),
            process_kill: opt_text(self.process_kill),
            check_exit_code: self.check_exit_code,
            send_variable: opt_text(self.send_variable),
            recv_variable: opt_text(self.recv_variable),
            from_role: opt_text(self.from_role),
            to_role: opt_text(self.to_role),
            index: self.index,
            file: opt_text(self.file),
            stdout_file: opt_text(self.stdout_file),
            stderr_file: opt_text(self.stderr_file),
            exit_code: opt_text(self.exit_code),
            create_entry: opt_text(self.create_entry),
            update_entry: opt_text(self.update_entry),
            delete_entry: opt_text(self.delete_entry),
            read_entry: opt_text(self.read_entry),
            read_or_wait_entry: opt_text(self.read_or_wait_entry),
        }
    }
}

/// A copy of a string that may be absent.
pub fn copy_text(s: &Option<String>) -> (r: Option<String>)
    ensures
        r == *s,
{
    match s {
        Some(t) => Some(t.clone()),
        None => None,
    }
}

impl Clone for StepSpec {
    fn clone(&self) -> (r: Self)
        ensures
            r == *self,
    {
        StepSpec {
            _if: copy_text(&self._if),
            step_name: copy_text(&self.step_name),
            process: copy_text(&self.process),
            process_wait: copy_text(&self.process_wait),
            process_kill: copy_text(&self.process_kill),
            check_exit_code: self.check_exit_code,
            send_variable: copy_text(&self.send_variable),
            recv_variable: copy_text(&self.recv_variable),
            from_role: copy_text(&self.from_role),
            to_role: copy_text(&self.to_role),
            index: self.index,
            file: copy_text(&self.file),
            stdout_file: copy_text(&self.stdout_file),
            stderr_file: copy_text(&self.stderr_file),
            exit_code: copy_text(&self.exit_code),
            create_entry: copy_text(&self.create_entry),
            update_entry: copy_text(&self.update_entry),
            delete_entry: copy_text(&self.delete_entry),
            read_entry: copy_text(&self.read_entry),
            read_or_wait_entry: copy_text(&self.read_or_wait_entry),
        }
    }
}

impl StepSpecView {
    /// Whether the step holds a field of one of the action families: process
    /// launch, wait or kill, variable send or receive, or an entry operation.
    pub open spec fn has_action(self) -> bool {
        ||| self.process is Some
        ||| self.process_wait is Some
        ||| self.process_kill is Some
        ||| self.send_variable is Some
        ||| self.recv_variable is Some
        ||| self.create_entry is Some
        ||| self.update_entry is Some
        ||| self.delete_entry is Some
        ||| self.read_entry is Some
        ||| self.read_or_wait_entry is Some
    }
}

/// The exit code that a step's table asks for: `Some` of the outcome, or
/// `None` if the value is no integer of 32 bits.
pub open spec fn exit_code_under(node: Node) -> Option<Option<i32>> {
    match node.integer_under("check_exit_code"@) {
        None => None,
        Some(None) => Some(None),
        Some(Some(i)) => if i32::MIN <= i <= i32::MAX {
            Some(Some(i as i32))
        } else {
            None
        },
    }
}

/// Whether every field of a step that `node` holds has the type of that field.
pub open spec fn step_fields_typed(node: Node) -> bool {
    &&& node is Table
    &&& node.text_under("if"@) is Some
    &&& node.text_under("step_name"@) is Some
    &&& node.text_under("process"@) is Some
    &&& node.text_under("process_wait"@) is Some
    &&& node.text_under("process_kill"@) is Some
    &&& exit_code_under(node) is Some
    &&& node.text_under("send_variable"@) is Some
    &&& node.text_under("recv_variable"@) is Some
    &&& node.text_under("from_role"@) is Some
    &&& node.text_under("to_role"@) is Some
    &&& node.integer_under("index"@) is Some
    &&& node.text_under("file"@) is Some
    &&& node.text_under("stdout_file"@) is Some
    &&& node.text_under("stderr_file"@) is Some
    &&& node.text_under("exit_code"@) is Some
    &&& node.text_under("create_entry"@) is Some
    &&& node.text_under("update_entry"@) is Some
    &&& node.text_under("delete_entry"@) is Some
    &&& node.text_under("read_entry"@) is Some
    &&& node.text_under("read_or_wait_entry"@) is Some
}

/// The step that `node` holds, read field by field; keys that are no field of
/// a step are passed over.
pub open spec fn step_fields(node: Node) -> StepSpecView {
    StepSpecView {
        _if: node.text_under("if"@)->0,
        step_name: node.text_under("step_name"@)->0,
        process: node.text_under("process"@)->0,
        process_wait: node.text_under("process_wait"@)->0,
        process_kill: node.text_under("process_kill"@)->0,
        check_exit_code: exit_code_under(node)->0,
        send_variable: node.text_under("send_variable"@)->0,
        recv_variable: node.text_under("recv_variable"@)->0,
        from_role: node.text_under("from_role"@)->0,
        to_role: node.text_under("to_role"@)->0,
        index: node.integer_under("index"@)->0,
        file: node.text_under("file"@)->0,
        stdout_file: node.text_under("stdout_file"@)->0,
        stderr_file: node.text_under("stderr_file"@)->0,
        exit_code: node.text_under("exit_code"@)->0,
        create_entry: node.text_under("create_entry"@)->0,
        update_entry: node.text_under("update_entry"@)->0,
        delete_entry: node.text_under("delete_entry"@)->0,
        read_entry: node.text_under("read_entry"@)->0,
        read_or_wait_entry: node.text_under("read_or_wait_entry"@)->0,
    }
}

/// The step that `node` stands for, or `None` if it stands for none: if it is
/// no table, if a field has a value of another type than the field's, or if
/// no field of any action family is present.
pub open spec fn step_of(node: Node) -> Option<StepSpecView> {
    if step_fields_typed(node) && step_fields(node).has_action() {
        Some(step_fields(node))
    } else {
        None
    }
}

/// The steps that `items` stand for, in order, or `None` if one of them stands
/// for no step.
pub open spec fn steps_of(items: Seq<Node>) -> Option<Seq<StepSpecView>> {
    if forall|k: int| 0 <= k < items.len() ==> (#[trigger] step_of(items[k])) is Some {
        Some(Seq::new(items.len(), |k: int| step_of(items[k])->0))
    } else {
        None
    }
}

/// The views of a list of steps.
pub open spec fn step_views(steps: Seq<StepSpec>) -> Seq<StepSpecView> {
    steps.map_values(|s: StepSpec| s@)
}

impl StepSpec {
    /// Whether the step holds a field of one of the action families.
    pub fn has_action(&self) -> (r: bool)
        ensures
            r == self@.has_action(),
    {
        self.process.is_some() || self.process_wait.is_some() || self.process_kill.is_some()
            || self.send_variable.is_some() || self.recv_variable.is_some()
            || self.create_entry.is_some() || self.update_entry.is_some()
            || self.delete_entry.is_some() || self.read_entry.is_some()
            || self.read_or_wait_entry.is_some()
    }

    /// Reads one step from its table.
    ///
    /// Fails with `Config` if `value` is no table, if a field of a step has a
    /// value of another type than the field's, or if no field of any action
    /// family is present.
    pub fn new(value: &Node) -> (r: Result<StepSpec, PlaybookError>)
        ensures
            match r {
                Ok(step) => step_of(*value) == Some(step@),
                Err(e) => e == PlaybookError::Config && step_of(*value) is None,
            },
    {
        if value.as_table().is_none() {
            return Err(PlaybookError::Config);
        }
        let _if: Option<String> = match value.opt_str("if") {
            Some(s) => s,
            None => {
                return Err(PlaybookError::Config);
            },
        };
        let step_name: Option<String> = match value.opt_str("step_name") {
            Some(s) => s,
            None => {
                return Err(PlaybookError::Config);
            },
        };
        let process: Option<String> = match value.opt_str("process") {
            Some(s) => s,
            None => {
                return Err(PlaybookError::Config);
            },
        };
        let process_wait: Option<String> = match value.opt_str("process_wait") {
            Some(s) => s,
            None => {
                return Err(PlaybookError::Config);
            },
        };
        let process_kill: Option<String> = match value.opt_str("process_kill") {
            Some(s) => s,
            None => {
                return Err(PlaybookError::Config);
            },
        };
        let check_exit_code: Option<i32> = match value.opt_integer("check_exit_code") {
            Some(Some(i)) => {
                if i < -2147483648i64 || i > 2147483647i64 {
                    return Err(PlaybookError::Config);
                }
                Some(i as i32)
            },
            Some(None) => None,
            None => {
                return Err(PlaybookError::Config);
            },
        };
        let send_variable: Option<String> = match value.opt_str("send_variable") {
            Some(s) => s,
            None => {
                return Err(PlaybookError::Config);
            },
        };
        let recv_variable: Option<String> = match value.opt_str("recv_variable") {
            Some(s) => s,
            None => {
                return Err(PlaybookError::Config);
            },
        };
        let from_role: Option<String> = match value.opt_str("from_role") {
            Some(s) => s,
            None => {
                return Err(PlaybookError::Config);
            },
        };
        let to_role: Option<String> = match value.opt_str("to_role") {
            Some(s) => s,
            None => {
                return Err(PlaybookError::Config);
            },
        };
        let index: Option<i64> = match value.opt_integer("index") {
            Some(i) => i,
            None => {
                return Err(PlaybookError::Config);
            },
        };
        let file: Option<String> = match value.opt_str("file") {
            Some(s) => s,
            None => {
                return Err(PlaybookError::Config);
            },
        };
        let stdout_file: Option<String> = match value.opt_str("stdout_file") {
            Some(s) => s,
            None => {
                return Err(PlaybookError::Config);
            },
        };
        let stderr_file: Option<String> = match value.opt_str("stderr_file") {
            Some(s) => s,
            None => {
                return Err(PlaybookError::Config);
            },
        };
        let exit_code: Option<String> = match value.opt_str("exit_code") {
            Some(s) => s,
            None => {
                return Err(PlaybookError::Config);
            },
        };
        let create_entry: Option<String> = match value.opt_str("create_entry") {
            Some(s) => s,
            None => {
                return Err(PlaybookError::Config);
            },
        };
        let update_entry: Option<String> = match value.opt_str("update_entry") {
            Some(s) => s,
            None => {
                return Err(PlaybookError::Config);
            },
        };
        let delete_entry: Option<String> = match value.opt_str("delete_entry") {
            Some(s) => s,
            None => {
                return Err(PlaybookError::Config);
            },
        };
        let read_entry: Option<String> = match value.opt_str("read_entry") {
            Some(s) => s,
            None => {
                return Err(PlaybookError::Config);
            },
        };
        let read_or_wait_entry: Option<String> = match value.opt_str("read_or_wait_entry") {
            Some(s) => s,
            None => {
                return Err(PlaybookError::Config);
            },
        };
        let step = StepSpec {
            _if,
            step_name,
            process,
            process_wait,
            process_kill,
            check_exit_code,
            send_variable,
            recv_variable,
            from_role,
            to_role,
            index,
            file,
            stdout_file,
            stderr_file,
            exit_code,
            create_entry,
            update_entry,
            delete_entry,
            read_entry,
            read_or_wait_entry,
        };
        if !step.has_action() {
            return Err(PlaybookError::Config);
        }
        Ok(step)
    }
}

/// One role of a protocol.
#[derive(Debug, PartialEq, Eq)]
pub struct RoleSpec {
    /// The role's name.
    pub name: String,
    /// The most participants the role may have; unbounded if absent.
    pub max_num: Option<i64>,
    /// The fewest participants the role may have; none at all if absent.
    pub min_num: Option<i64>,
    /// The steps, in the order in which they run.
    pub steps: Vec<StepSpec>,
    /// The role's working directory, a template; the protocol's if absent.
    pub workdir: Option<String>,
}

/// A role with its strings taken as texts.
pub struct RoleSpecView {
    pub name: Seq<char>,
    pub max_num: Option<i64>,
    pub min_num: Option<i64>,
    pub steps: Seq<StepSpecView>,
    pub workdir: Option<Seq<char>>,
}

impl View for RoleSpec {
    type V = RoleSpecView;

    open spec fn view(&self) -> RoleSpecView {
        RoleSpecView {
            name: self.name@,
            max_num: self.max_num,
            min_num: self.min_num,
            steps: step_views(self.steps@),
            workdir: opt_text(self.workdir),
        }
    }
}

impl Clone for RoleSpec {
    fn clone(&self) -> (r: Self)
        ensures
            r@ == self@,
    {
        let mut steps: Vec<StepSpec> = Vec::new();
        let mut i: usize = 0;
        while i < self.steps.len()
            invariant
                0 <= i <= self.steps@.len(),
                steps@ == self.steps@.take(i as int),
            decreases self.steps@.len() - i,
        {
            steps.push(self.steps[i].clone());
            i = i + 1;
        }
        assert(steps@ == self.steps@);
        RoleSpec {
            name: self.name.clone(),
            max_num: self.max_num,
            min_num: self.min_num,
            steps,
            workdir: copy_text(&self.workdir),
        }
    }
}

/// The role that the table `node` stands for under the name `name`, or `None`
/// if it stands for none: if `max_num` or `min_num` is no integer, if the
/// `playbook` table is missing, if its `workdir` is no string, if its `steps`
/// are missing or no array, or if one of them stands for no step.
pub open spec fn role_of(name: Seq<char>, node: Node) -> Option<RoleSpecView> {
    match (node.integer_under("max_num"@), node.integer_under("min_num"@), node.entry("playbook"@)) {
        (Some(max_num), Some(min_num), Some(playbook)) => match (
            playbook.text_under("workdir"@),
            playbook.entry("steps"@),
        ) {
            (Some(workdir), Some(Node::Array(items))) => match steps_of(items@) {
                Some(steps) => Some(RoleSpecView { name, max_num, min_num, steps, workdir }),
                None => None,
            },
            _ => None,
        },
        _ => None,
    }
}

/// The roles that the entries of a `roles` table stand for, in the table's
/// order, or `None` if one of them stands for no role.
pub open spec fn roles_of(entries: Seq<(String, Node)>) -> Option<Seq<RoleSpecView>> {
    if forall|k: int|
        0 <= k < entries.len() ==> (#[trigger] role_of(entries[k].0@, entries[k].1)) is Some {
        Some(Seq::new(entries.len(), |k: int| role_of(entries[k].0@, entries[k].1)->0))
    } else {
        None
    }
}

/// The views of a list of roles.
pub open spec fn role_views(roles: Seq<RoleSpec>) -> Seq<RoleSpecView> {
    roles.map_values(|r: RoleSpec| r@)
}

impl RoleSpec {
    /// Reads the role `name` from its table.
    ///
    /// Fails with `Config` exactly when `role_of` gives no role.
    #[verifier::loop_isolation(false)]
    pub fn new(name: String, value: &Node) -> (r: Result<RoleSpec, PlaybookError>)
        ensures
            match r {
                Ok(role) => role_of(name@, *value) == Some(role@),
                Err(e) => e == PlaybookError::Config && role_of(name@, *value) is None,
            },
    {
        let max_num: Option<i64> = match value.opt_integer("max_num") {
            Some(n) => n,
            None => {
                return Err(PlaybookError::Config);
            },
        };
        let min_num: Option<i64> = match value.opt_integer("min_num") {
            Some(n) => n,
            None => {
                return Err(PlaybookError::Config);
            },
        };
        let playbook: &Node = match value.get("playbook") {
            Some(p) => p,
            None => {
                return Err(PlaybookError::Config);
            },
        };
        let workdir: Option<String> = match playbook.opt_str("workdir") {
            Some(w) => w,
            None => {
                return Err(PlaybookError::Config);
            },
        };
        let items: &Vec<Node> = match playbook.get("steps") {
            Some(node) => match node.as_array() {
                Some(items) => items,
                None => {
                    return Err(PlaybookError::Config);
                },
            },
            None => {
                return Err(PlaybookError::Config);
            },
        };
        let mut steps: Vec<StepSpec> = Vec::new();
        let mut i: usize = 0;
        while i < items.len()
            invariant
                0 <= i <= items@.len(),
                steps@.len() == i,
                forall|k: int| 0 <= k < i ==> (#[trigger] step_of(items@[k])) == Some(steps@[k]@),
            decreases items@.len() - i,
        {
            match StepSpec::new(&items[i]) {
                Ok(step) => {
                    steps.push(step);
                },
                Err(_) => {
                    return Err(PlaybookError::Config);
                },
            }
            i = i + 1;
        }
        assert(step_views(steps@) =~= steps_of(items@)->0);
        Ok(RoleSpec { name, max_num, min_num, steps, workdir })
    }
}

/// One protocol: its name, its working directory, and its roles.
#[derive(Debug, PartialEq, Eq)]
pub struct ProtocolSpec {
    /// The protocol's name.
    pub protocol_name: String,
    /// The working directory of the roles that name none, a template.
    pub workdir: String,
    /// The roles, in the order of the document's `roles` table.
    pub roles: Vec<RoleSpec>,
}

/// A protocol with its strings taken as texts.
pub struct ProtocolSpecView {
    pub protocol_name: Seq<char>,
    pub workdir: Seq<char>,
    pub roles: Seq<RoleSpecView>,
}

impl View for ProtocolSpec {
    type V = ProtocolSpecView;

    open spec fn view(&self) -> ProtocolSpecView {
        ProtocolSpecView {
            protocol_name: self.protocol_name@,
            workdir: self.workdir@,
            roles: role_views(self.roles@),
        }
    }
}

/// The protocol that the table `node` stands for, or `None` if it stands for
/// none: if `name` or `workdir` is missing or no string, if `roles` is missing
/// or no table, or if one of its entries stands for no role.
pub open spec fn protocol_of(node: Node) -> Option<ProtocolSpecView> {
    match (node.entry("name"@), node.entry("workdir"@), node.entry("roles"@)) {
        (Some(Node::Str(name)), Some(Node::Str(workdir)), Some(Node::Table(entries))) => match roles_of(
            entries@,
        ) {
            Some(roles) => Some(ProtocolSpecView { protocol_name: name@, workdir: workdir@, roles }),
            None => None,
        },
        _ => None,
    }
}

/// The views of a list of protocols.
pub open spec fn protocol_views(protocols: Seq<ProtocolSpec>) -> Seq<ProtocolSpecView> {
    protocols.map_values(|p: ProtocolSpec| p@)
}

impl ProtocolSpec {
    /// Reads one protocol from its table.
    ///
    /// Fails with `Config` exactly when `protocol_of` gives no protocol.
    #[verifier::loop_isolation(false)]
    pub fn new(value: &Node) -> (r: Result<ProtocolSpec, PlaybookError>)
        ensures
            match r {
                Ok(protocol) => protocol_of(*value) == Some(protocol@),
                Err(e) => e == PlaybookError::Config && protocol_of(*value) is None,
            },
    {
        let name: String = match value.get("name") {
            Some(node) => match node.as_str() {
                Some(s) => s.clone(),
                None => {
                    return Err(PlaybookError::Config);
                },
            },
            None => {
                return Err(PlaybookError::Config);
            },
        };
        let workdir: String = match value.get("workdir") {
            Some(node) => match node.as_str() {
                Some(s) => s.clone(),
                None => {
                    return Err(PlaybookError::Config);
                },
            },
            None => {
                return Err(PlaybookError::Config);
            },
        };
        let entries: &Vec<(String, Node)> = match value.get("roles") {
            Some(node) => match node.as_table() {
                Some(entries) => entries,
                None => {
                    return Err(PlaybookError::Config);
                },
            },
            None => {
                return Err(PlaybookError::Config);
            },
        };
        let mut roles: Vec<RoleSpec> = Vec::new();
        let mut i: usize = 0;
        while i < entries.len()
            invariant
                0 <= i <= entries@.len(),
                roles@.len() == i,
                forall|k: int|
                    0 <= k < i ==> (#[trigger] role_of(entries@[k].0@, entries@[k].1)) == Some(
                        roles@[k]@,
                    ),
            decreases entries@.len() - i,
        {
            match RoleSpec::new(entries[i].0.clone(), &entries[i].1) {
                Ok(role) => {
                    roles.push(role);
                },
                Err(_) => {
                    return Err(PlaybookError::Config);
                },
            }
            i = i + 1;
        }
        assert(role_views(roles@) =~= roles_of(entries@)->0);
        Ok(ProtocolSpec { protocol_name: name, workdir, roles })
    }
}

/// Whether the `package` table `node` switches the playbook engine on: it
/// holds `use_playbook = true`.
pub open spec fn playbook_enabled(node: Node) -> bool {
    node.entry("use_playbook"@) == Some(Node::Bool(true))
}

/// The protocols of the top-level entries from `from` on. Entries that are no
/// tables are passed over; the table `package` must switch the engine on and
/// is no protocol; every other table must stand for a protocol.
pub open spec fn protocols_from(entries: Seq<(String, Node)>, from: int) -> Option<
    Seq<ProtocolSpecView>,
>
    decreases entries.len() - from,
{
    if from < 0 || from >= entries.len() {
        Some(Seq::empty())
    } else if !(entries[from].1 is Table) {
        protocols_from(entries, from + 1)
    } else if entries[from].0@ == "package"@ {
        if playbook_enabled(entries[from].1) {
            protocols_from(entries, from + 1)
        } else {
            None
        }
    } else {
        match (protocol_of(entries[from].1), protocols_from(entries, from + 1)) {
            (Some(protocol), Some(rest)) => Some(seq![protocol] + rest),
            _ => None,
        }
    }
}

/// The protocols that the document `root` holds, in the order of its top-level
/// table, or `None` if the document is refused.
pub open spec fn package_of(root: Node) -> Option<Seq<ProtocolSpecView>> {
    match root {
        Node::Table(entries) => protocols_from(entries@, 0),
        _ => None,
    }
}

/// The outcome of reading a package, with the protocols taken by their views.
pub open spec fn package_view(r: Result<Vec<ProtocolSpec>, PlaybookError>) -> Option<
    Seq<ProtocolSpecView>,
> {
    match r {
        Ok(protocols) => Some(protocol_views(protocols@)),
        Err(_) => None,
    }
}

/// Reads the protocols of a document that has been parsed.
///
/// Fails with `Config` if the document is no table, if its `package` table
/// does not hold `use_playbook = true`, or if one of its other tables stands
/// for no protocol.
pub fn package_spec_from(root: &Node) -> (r: Result<Vec<ProtocolSpec>, PlaybookError>)
    ensures
        package_view(r) == package_of(*root),
        r matches Err(e) ==> e == PlaybookError::Config,
{
    let entries: &Vec<(String, Node)> = match root.as_table() {
        Some(entries) => entries,
        None => {
            return Err(PlaybookError::Config);
        },
    };
    let package: String = "package".to_string();
    let mut protocols: Vec<ProtocolSpec> = Vec::new();
    let mut i: usize = 0;
    while i < entries.len()
        invariant
            0 <= i <= entries@.len(),
            package@ == "package"@,
            package_of(*root) == (match protocols_from(entries@, i as int) {
                Some(rest) => Some(protocol_views(protocols@) + rest),
                None => None,
            }),
        decreases entries@.len() - i,
    {
        let value: &Node = &entries[i].1;
        if value.as_table().is_some() {
            if entries[i].0 == package {
                let enabled: bool = match value.get("use_playbook") {
                    Some(node) => match node.as_bool() {
                        Some(b) => b,
                        None => false,
                    },
                    None => false,
                };
                if !enabled {
                    return Err(PlaybookError::Config);
                }
            } else {
                match ProtocolSpec::new(value) {
                    Ok(protocol) => {
                        let ghost before = protocol_views(protocols@);
                        protocols.push(protocol);
                        proof {
                            assert(protocol_views(protocols@) =~= before + seq![protocol@]);
                            match protocols_from(entries@, i + 1) {
                                Some(rest) => {
                                    assert(before + (seq![protocol@] + rest) =~= protocol_views(
                                        protocols@,
                                    ) + rest);
                                },
                                None => {},
                            }
                        }
                    },
                    Err(_) => {
                        return Err(PlaybookError::Config);
                    },
                }
            }
        }
        i = i + 1;
    }
    proof {
        assert(protocol_views(protocols@) + Seq::<ProtocolSpecView>::empty() =~= protocol_views(
            protocols@,
        ));
    }
    Ok(protocols)
}

/// What reading `text` as a package gives: `None` if it is no document or
/// lies beyond the depth limit, or a
/// document that is refused.
pub open spec fn package_of_text(text: Seq<char>) -> Option<Seq<ProtocolSpecView>> {
    match document_read(text) {
        Some(root) => package_of(root),
        None => None,
    }
}

/// Reads the protocols of a configuration document.
///
/// Fails with `Config` if `toml_str` is no document or is nested beyond the
/// depth limit, if its `package` table
/// does not hold `use_playbook = true`, or if one of its other tables stands
/// for no protocol.
pub fn parse_spec_from_toml(toml_str: &str) -> (r: Result<Vec<ProtocolSpec>, PlaybookError>)
    ensures
        package_view(r) == package_of_text(toml_str@),
        r matches Err(e) ==> e == PlaybookError::Config,
{
    match parse_document(toml_str) {
        Some(root) => package_spec_from(&root),
        None => Err(PlaybookError::Config),
    }
}

} // verus!
