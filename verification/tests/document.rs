use playbook::config_process::{generate_config_from_toml, ProtocolConfig, Role};
use playbook::document::{parse_document, shallow, Node};
use playbook::error::PlaybookError;
use playbook::spec_parser::{
    package_spec_from, parse_spec_from_toml, ProtocolSpec, RoleSpec, StepSpec,
};

fn blank() -> StepSpec {
    StepSpec {
        _if: None,
        step_name: None,
        process: None,
        process_wait: None,
        process_kill: None,
        check_exit_code: None,
        send_variable: None,
        recv_variable: None,
        from_role: None,
        to_role: None,
        index: None,
        file: None,
        stdout_file: None,
        stderr_file: None,
        exit_code: None,
        create_entry: None,
        update_entry: None,
        delete_entry: None,
        read_entry: None,
        read_or_wait_entry: None,
    }
}

fn s(text: &str) -> Option<String> {
    Some(text.to_string())
}

fn entry(key: &str, node: Node) -> (String, Node) {
    (key.to_string(), node)
}

fn text(value: &str) -> Node {
    Node::Str(value.to_string())
}

const SAMPLE: &str = r#"
title = "not a table, passed over"

[package]
name = "demo"
use_playbook = true

[demo]
name = "demo"
workdir = "work/{{task_id}}"

[demo.roles.initiator]
max_num = 1
min_num = 1

[demo.roles.initiator.playbook]
workdir = "init"

[[demo.roles.initiator.playbook.steps]]
step_name = "s1"
process = "echo hi"
unknown_key = "passed over"

[[demo.roles.initiator.playbook.steps]]
if = "test -f go"
process_wait = "s1"
check_exit_code = 0
stdout_file = "out.txt"

[demo.roles.receiver.playbook]

[[demo.roles.receiver.playbook.steps]]
recv_variable = "x"
from_role = "initiator"
index = 0
file = "x.bin"
"#;

#[test]
fn a_document_is_read_into_its_protocols() {
    let expected = vec![ProtocolSpec {
        protocol_name: "demo".to_string(),
        workdir: "work/{{task_id}}".to_string(),
        roles: vec![
            RoleSpec {
                name: "initiator".to_string(),
                max_num: Some(1),
                min_num: Some(1),
                steps: vec![
                    StepSpec { step_name: s("s1"), process: s("echo hi"), ..blank() },
                    StepSpec {
                        _if: s("test -f go"),
                        process_wait: s("s1"),
                        check_exit_code: Some(0),
                        stdout_file: s("out.txt"),
                        ..blank()
                    },
                ],
                workdir: s("init"),
            },
            RoleSpec {
                name: "receiver".to_string(),
                max_num: None,
                min_num: None,
                steps: vec![StepSpec {
                    recv_variable: s("x"),
                    from_role: s("initiator"),
                    index: Some(0),
                    file: s("x.bin"),
                    ..blank()
                }],
                workdir: None,
            },
        ],
    }];
    assert_eq!(parse_spec_from_toml(SAMPLE), Ok(expected));
}

#[test]
fn a_document_without_package_is_accepted() {
    let doc = "[p]\nname = \"p\"\nworkdir = \"w\"\n[p.roles]\n";
    assert_eq!(
        parse_spec_from_toml(doc),
        Ok(vec![ProtocolSpec {
            protocol_name: "p".to_string(),
            workdir: "w".to_string(),
            roles: vec![],
        }])
    );
    assert_eq!(parse_spec_from_toml(""), Ok(vec![]));
}

#[test]
fn several_protocols_come_in_the_order_of_the_table() {
    let doc = "[b]\nname = \"B\"\nworkdir = \"w\"\n[b.roles]\n[a]\nname = \"A\"\nworkdir = \"v\"\n[a.roles]\n";
    let got = parse_spec_from_toml(doc).unwrap();
    let names: Vec<&str> = got.iter().map(|p| p.protocol_name.as_str()).collect();
    assert_eq!(names, vec!["A", "B"]);
}

#[test]
fn package_must_switch_the_engine_on() {
    let off = "[package]\nuse_playbook = false\n";
    let missing = "[package]\nname = \"demo\"\n";
    let wrong = "[package]\nuse_playbook = \"true\"\n";
    let on = "[package]\nuse_playbook = true\n";
    assert_eq!(parse_spec_from_toml(off), Err(PlaybookError::Config));
    assert_eq!(parse_spec_from_toml(missing), Err(PlaybookError::Config));
    assert_eq!(parse_spec_from_toml(wrong), Err(PlaybookError::Config));
    assert_eq!(parse_spec_from_toml(on), Ok(vec![]));
}

#[test]
fn text_that_is_no_document_is_refused() {
    assert_eq!(parse_spec_from_toml("[unclosed"), Err(PlaybookError::Config));
    assert_eq!(parse_spec_from_toml("a = "), Err(PlaybookError::Config));
    assert_eq!(generate_config_from_toml("= 1"), Err(PlaybookError::Config));
}

#[test]
fn a_role_needs_its_playbook() {
    let doc = "[p]\nname = \"p\"\nworkdir = \"w\"\n[p.roles.r]\nmax_num = 2\n";
    assert_eq!(parse_spec_from_toml(doc), Err(PlaybookError::Config));
    let no_steps = "[p]\nname = \"p\"\nworkdir = \"w\"\n[p.roles.r.playbook]\nworkdir = \"x\"\n";
    assert_eq!(parse_spec_from_toml(no_steps), Err(PlaybookError::Config));
}

#[test]
fn a_protocol_needs_name_workdir_and_roles() {
    assert_eq!(parse_spec_from_toml("[p]\nworkdir = \"w\"\n[p.roles]\n"), Err(PlaybookError::Config));
    assert_eq!(parse_spec_from_toml("[p]\nname = \"p\"\n[p.roles]\n"), Err(PlaybookError::Config));
    assert_eq!(parse_spec_from_toml("[p]\nname = \"p\"\nworkdir = \"w\"\n"), Err(PlaybookError::Config));
    assert_eq!(
        parse_spec_from_toml("[p]\nname = 1\nworkdir = \"w\"\n[p.roles]\n"),
        Err(PlaybookError::Config)
    );
}

#[test]
fn a_step_must_map_onto_an_action() {
    let table = |entries: Vec<(String, Node)>| Node::Table(entries);
    assert_eq!(
        StepSpec::new(&table(vec![entry("process", text("ls")), entry("step_name", text("a"))])),
        Ok(StepSpec { process: s("ls"), step_name: s("a"), ..blank() })
    );
    assert_eq!(
        StepSpec::new(&table(vec![entry("delete_entry", text("k")), entry("zzz", Node::Int(3))])),
        Ok(StepSpec { delete_entry: s("k"), ..blank() })
    );
    assert_eq!(StepSpec::new(&table(vec![])), Err(PlaybookError::Config));
    assert_eq!(
        StepSpec::new(&table(vec![entry("if", text("true")), entry("file", text("f"))])),
        Err(PlaybookError::Config)
    );
    assert_eq!(StepSpec::new(&table(vec![entry("process", Node::Int(5))])), Err(PlaybookError::Config));
    assert_eq!(
        StepSpec::new(&table(vec![entry("process_wait", text("a")), entry("index", text("0"))])),
        Err(PlaybookError::Config)
    );
    assert_eq!(StepSpec::new(&text("process")), Err(PlaybookError::Config));
    assert_eq!(StepSpec::new(&Node::Array(vec![])), Err(PlaybookError::Config));
}

#[test]
fn an_exit_code_must_fit_thirty_two_bits() {
    let step = |code: i64| {
        StepSpec::new(&Node::Table(vec![
            entry("process_wait", text("a")),
            entry("check_exit_code", Node::Int(code)),
        ]))
    };
    assert_eq!(step(0).unwrap().check_exit_code, Some(0));
    assert_eq!(step(-1).unwrap().check_exit_code, Some(-1));
    assert_eq!(step(2147483647).unwrap().check_exit_code, Some(i32::MAX));
    assert_eq!(step(-2147483648).unwrap().check_exit_code, Some(i32::MIN));
    assert_eq!(step(2147483648), Err(PlaybookError::Config));
    assert_eq!(step(-2147483649), Err(PlaybookError::Config));
}

#[test]
fn a_tree_is_read_like_its_text() {
    let from_text = parse_document(SAMPLE).unwrap();
    assert_eq!(package_spec_from(&from_text), parse_spec_from_toml(SAMPLE));
    assert_eq!(package_spec_from(&Node::Int(1)), Err(PlaybookError::Config));
    assert_eq!(package_spec_from(&Node::Table(vec![])), Ok(vec![]));
}

#[test]
fn the_tree_of_a_text_holds_its_values() {
    let doc = parse_document("b = true\na = 3\ns = \"x\"\nf = 1.5\nd = 1979-05-27\nl = [1, \"y\"]\n[t]\nk = -2\n");
    assert_eq!(
        doc,
        Some(Node::Table(vec![
            entry("a", Node::Int(3)),
            entry("b", Node::Bool(true)),
            entry("d", Node::Datetime),
            entry("f", Node::Float),
            entry("l", Node::Array(vec![Node::Int(1), text("y")])),
            entry("s", text("x")),
            entry("t", Node::Table(vec![entry("k", Node::Int(-2))])),
        ]))
    );
    assert_eq!(parse_document("a = ["), None);
}

#[test]
fn nodes_give_what_they_hold() {
    let table = Node::Table(vec![entry("a", Node::Int(3)), entry("b", text("x")), entry("a", Node::Int(4))]);
    assert_eq!(table.get("a"), Some(&Node::Int(3)));
    assert_eq!(table.get("b"), Some(&text("x")));
    assert_eq!(table.get("c"), None);
    assert_eq!(Node::Int(1).get("a"), None);
    assert_eq!(text("x").as_str(), Some(&"x".to_string()));
    assert_eq!(Node::Int(1).as_str(), None);
    assert_eq!(Node::Int(7).as_integer(), Some(7));
    assert_eq!(Node::Bool(true).as_integer(), None);
    assert_eq!(Node::Bool(true).as_bool(), Some(true));
    assert_eq!(Node::Float.as_bool(), None);
    assert_eq!(Node::Array(vec![Node::Float]).as_array(), Some(&vec![Node::Float]));
    assert_eq!(table.as_array(), None);
    assert_eq!(Node::Table(vec![]).as_table(), Some(&vec![]));
    assert_eq!(Node::Datetime.as_table(), None);
    assert_eq!(table.opt_str("b"), Some(Some("x".to_string())));
    assert_eq!(table.opt_str("c"), Some(None));
    assert_eq!(table.opt_str("a"), None);
    assert_eq!(table.opt_integer("a"), Some(Some(3)));
    assert_eq!(table.opt_integer("c"), Some(None));
    assert_eq!(table.opt_integer("b"), None);
}

const FLAT: &str = r#"
[package]
use_playbook = true

[demo]
name = "demo"
workdir = "work"

[demo.roles.a]
min_num = 2

[demo.roles.a.playbook]
workdir = "own"
steps = [ { step_name = "s", process = "ls" }, { process_wait = "s", return_code = "rc" } ]

[demo.roles.b.playbook]
steps = []
"#;

#[test]
fn the_one_protocol_of_a_document_is_read() {
    let expected = ProtocolConfig {
        protocol_name: "demo".to_string(),
        roles: vec![
            Role {
                name: "a".to_string(),
                max_num: i64::MAX,
                min_num: 2,
                steps: vec![
                    vec![
                        ("process".to_string(), "ls".to_string()),
                        ("step_name".to_string(), "s".to_string()),
                    ],
                    vec![
                        ("process_wait".to_string(), "s".to_string()),
                        ("return_code".to_string(), "rc".to_string()),
                    ],
                ],
                workdir: "own/".to_string(),
            },
            Role {
                name: "b".to_string(),
                max_num: i64::MAX,
                min_num: 0,
                steps: vec![],
                workdir: "work/".to_string(),
            },
        ],
    };
    assert_eq!(generate_config_from_toml(FLAT), Ok(expected));
}

#[test]
fn exactly_one_protocol_is_wanted() {
    let none = "[package]\nuse_playbook = true\n";
    let two = "[a]\nname = \"a\"\nworkdir = \"w\"\n[a.roles]\n[b]\nname = \"b\"\nworkdir = \"w\"\n[b.roles]\n";
    let off = "[package]\nuse_playbook = false\n[a]\nname = \"a\"\nworkdir = \"w\"\n[a.roles]\n";
    let one = "[a]\nname = \"a\"\nworkdir = \"w\"\n[a.roles]\n";
    assert_eq!(generate_config_from_toml(none), Err(PlaybookError::Config));
    assert_eq!(generate_config_from_toml(two), Err(PlaybookError::Config));
    assert_eq!(generate_config_from_toml(off), Err(PlaybookError::Config));
    assert_eq!(
        generate_config_from_toml(one),
        Ok(ProtocolConfig { protocol_name: "a".to_string(), roles: vec![] })
    );
}

#[test]
fn a_flat_step_holds_strings_only() {
    let doc = "[a]\nname = \"a\"\nworkdir = \"w\"\n[a.roles.r.playbook]\nsteps = [ { index = 1 } ]\n";
    assert_eq!(generate_config_from_toml(doc), Err(PlaybookError::Config));
    let role = Role::new(
        "r".to_string(),
        &Node::Table(vec![entry(
            "playbook",
            Node::Table(vec![entry("steps", Node::Array(vec![Node::Table(vec![entry("k", text("v"))])]))]),
        )]),
        "parent".to_string(),
    );
    assert_eq!(
        role,
        Ok(Role {
            name: "r".to_string(),
            max_num: i64::MAX,
            min_num: 0,
            steps: vec![vec![("k".to_string(), "v".to_string())]],
            workdir: "parent/".to_string(),
        })
    );
}

#[test]
fn documents_beyond_the_depth_limit_are_not_read() {
    for depth in [200usize, 1000, 100000] {
        let arrays = format!("a = {}{}", "[".repeat(depth), "]".repeat(depth));
        let inline = format!("a = {}1{}", "{a=".repeat(depth), "}".repeat(depth));
        let header = format!("[{}a]\nx = 1\n", "a.".repeat(depth));
        let dotted = format!("{}a = 1\n", "a.".repeat(depth));
        let unclosed = format!("a = {}", "[".repeat(depth));
        let hidden = format!("a = [{}1", "\"]\", [".repeat(depth));
        for text in [arrays, inline, header, dotted, unclosed, hidden] {
            assert!(!shallow(&text));
            assert_eq!(parse_document(&text), None);
            assert_eq!(parse_spec_from_toml(&text), Err(PlaybookError::Config));
            assert_eq!(generate_config_from_toml(&text), Err(PlaybookError::Config));
        }
    }
}

#[test]
fn documents_within_the_depth_limit_are_read() {
    assert!(shallow(SAMPLE));
    assert!(shallow(FLAT));
    assert!(shallow(""));
    let mut many = String::new();
    for i in 0..500 {
        many.push_str(&format!("[[p.roles.r.playbook.steps]]\nprocess_wait = \"s{}\"\nstdout_file = \"out/{}.a.b.txt\" # [ {{ note\n", i, i));
    }
    assert!(shallow(&many));
    let text = format!("[p]\nname = \"p\"\nworkdir = \"w\"\n[p.roles.r.playbook]\n{}", many);
    let got = parse_spec_from_toml(&text).unwrap();
    assert_eq!(got[0].roles[0].steps.len(), 500);
    let nested = format!("a = {}{}", "[".repeat(20), "]".repeat(20));
    assert!(shallow(&nested));
    assert!(parse_document(&nested).is_some());
    assert!(shallow(&format!("a = \"{}\"\n", ".[{".repeat(200))));
    assert!(shallow(&format!("a = '{}' # {}\n", ".[{".repeat(200), ".[{".repeat(200))));
    assert!(shallow(&format!("a = \"x\\\"{}\"\n", "[".repeat(200))));
    assert!(!shallow(&format!("a = \"\"\"{}\"\"\"\n", ".".repeat(200))));
    assert!(!shallow(&format!("a = \"x\\\\\"{}\n", "[".repeat(200))));
    let lines = format!("{}", "a = 1.5\nb = [1.5, 2.5]\n[t.u]\n".repeat(200));
    assert!(shallow(&lines));
    assert!(parse_document(&lines).is_none());
    let distinct: String = (0..200).map(|i| format!("k{} = [1.5, [2.5]]\n", i)).collect();
    assert!(shallow(&distinct));
    assert!(parse_document(&distinct).is_some());
}

#[test]
fn documents_at_the_depth_limit_are_read() {
    let arrays = |depth: usize| format!("a = {}{}", "[".repeat(depth), "]".repeat(depth));
    assert!(shallow(&arrays(41)));
    assert!(parse_document(&arrays(41)).is_some());
    assert!(!shallow(&arrays(42)));
    assert_eq!(parse_document(&arrays(42)), None);

    let header = |dots: usize| format!("[{}a]\nx = 1\n", "a.".repeat(dots));
    assert!(shallow(&header(40)));
    assert!(parse_document(&header(40)).is_some());
    assert!(!shallow(&header(41)));

    let inline = |depth: usize| format!("a = {}1{}", "{a=".repeat(depth), "}".repeat(depth));
    assert!(shallow(&inline(41)));
    assert!(parse_document(&inline(41)).is_some());
    assert!(!shallow(&inline(42)));

    let full = format!(
        "[[{}h]]\n{}k = {}{{ {}i = 1 }}{}\n",
        "h.".repeat(39),
        "k.".repeat(20),
        "[".repeat(10),
        "i.".repeat(10),
        "]".repeat(10)
    );
    assert!(shallow(&full));
    assert!(parse_document(&full).is_some());
}
