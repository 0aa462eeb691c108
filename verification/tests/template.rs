use playbook::error::TemplateError;
use playbook::helper::{
    place_match, place_matches, render_template, replace_env_var, replace_str, replace_token,
    resolve, substitute_matches, substitute_tokens, ENV_PATTERN,
};

fn table(pairs: &[(&str, &str)]) -> Vec<(String, String)> {
    pairs.iter().map(|(k, v)| (k.to_string(), v.to_string())).collect()
}

fn ok(s: &str) -> Result<String, TemplateError> {
    Ok(s.to_string())
}

#[test]
fn renders_a_plain_placeholder() {
    let bindings = table(&[("task_id", "T1")]);
    assert_eq!(replace_str("{{task_id}}", &bindings), ok("T1"));
}

#[test]
fn renders_a_range_of_the_value() {
    let bindings = table(&[("task_id", "T1X")]);
    assert_eq!(replace_str("{{task_id[0..2]}}", &bindings), ok("T1"));
}

#[test]
fn unknown_name_is_an_error() {
    let bindings = table(&[("task_id", "T1"), ("user_id", "U")]);
    assert_eq!(replace_str("{{unknown}}", &bindings), Err(TemplateError::UndefinedBinding));
}

#[test]
fn literal_text_stays_as_it_is() {
    let bindings = table(&[("task_id", "T1")]);
    assert_eq!(replace_str("", &bindings), ok(""));
    assert_eq!(replace_str("no placeholder { here } at all", &bindings), ok("no placeholder { here } at all"));
    assert_eq!(replace_str("a}}b", &bindings), ok("a}}b"));
}

#[test]
fn text_around_placeholders_is_kept() {
    let bindings = table(&[("task_id", "T1"), ("user_id", "alice")]);
    assert_eq!(
        replace_str("run/{{user_id}}/{{task_id}}/out.txt", &bindings),
        ok("run/alice/T1/out.txt")
    );
    assert_eq!(replace_str("{{user_id}}{{task_id}}", &bindings), ok("aliceT1"));
}

#[test]
fn range_bounds_default_to_the_ends() {
    let bindings = table(&[("v", "abcdef")]);
    assert_eq!(replace_str("{{v[2..]}}", &bindings), ok("cdef"));
    assert_eq!(replace_str("{{v[..2]}}", &bindings), ok("ab"));
    assert_eq!(replace_str("{{v[..]}}", &bindings), ok("abcdef"));
    assert_eq!(replace_str("{{v[]}}", &bindings), ok("abcdef"));
    assert_eq!(replace_str("{{v[3..3]}}", &bindings), ok(""));
    assert_eq!(replace_str("{{v[0..6]}}", &bindings), ok("abcdef"));
}

#[test]
fn a_lone_number_selects_one_character() {
    let bindings = table(&[("v", "abcdef")]);
    assert_eq!(replace_str("{{v[0]}}", &bindings), ok("a"));
    assert_eq!(replace_str("{{v[5]}}", &bindings), ok("f"));
    assert_eq!(replace_str("{{v[6]}}", &bindings), Err(TemplateError::OutOfBounds));
}

#[test]
fn positions_count_characters_not_bytes() {
    let bindings = table(&[("v", "héllo wörld")]);
    assert_eq!(replace_str("{{v[1..5]}}", &bindings), ok("éllo"));
    assert_eq!(replace_str("{{v[7]}}", &bindings), ok("ö"));
    assert_eq!(replace_str("ü{{v[..1]}}ü", &bindings), ok("ühü"));
}

#[test]
fn ranges_outside_the_value_fail() {
    let bindings = table(&[("v", "abc")]);
    assert_eq!(replace_str("{{v[0..4]}}", &bindings), Err(TemplateError::OutOfBounds));
    assert_eq!(replace_str("{{v[2..1]}}", &bindings), Err(TemplateError::OutOfBounds));
    assert_eq!(replace_str("{{v[4..]}}", &bindings), Err(TemplateError::OutOfBounds));
    assert_eq!(
        replace_str("{{v[..99999999999999999999999999999999]}}", &bindings),
        Err(TemplateError::OutOfBounds)
    );
}

#[test]
fn malformed_ranges_fail() {
    let bindings = table(&[("v", "abc")]);
    assert_eq!(replace_str("{{v[a..2]}}", &bindings), Err(TemplateError::MalformedRange));
    assert_eq!(replace_str("{{v[0..b]}}", &bindings), Err(TemplateError::MalformedRange));
    assert_eq!(replace_str("{{v[x]}}", &bindings), Err(TemplateError::MalformedRange));
    assert_eq!(replace_str("{{v[0..1..2]}}", &bindings), Err(TemplateError::MalformedRange));
    assert_eq!(replace_str("{{v[0..1}}", &bindings), Err(TemplateError::MalformedRange));
    assert_eq!(replace_str("{{v]0[}}", &bindings), Err(TemplateError::MalformedRange));
    assert_eq!(replace_str("{{v[ 1]}}", &bindings), Err(TemplateError::MalformedRange));
}

#[test]
fn an_open_placeholder_fails() {
    let bindings = table(&[("v", "abc")]);
    assert_eq!(replace_str("a{{v", &bindings), Err(TemplateError::Unterminated));
    assert_eq!(replace_str("{{", &bindings), Err(TemplateError::Unterminated));
    assert_eq!(replace_str("{{v}", &bindings), Err(TemplateError::Unterminated));
}

#[test]
fn the_first_failure_from_the_left_decides() {
    let bindings = table(&[("v", "abc")]);
    assert_eq!(replace_str("{{w}}{{v[9]}}", &bindings), Err(TemplateError::UndefinedBinding));
    assert_eq!(replace_str("{{v[9]}}{{w}}", &bindings), Err(TemplateError::OutOfBounds));
    assert_eq!(replace_str("{{w[}}", &bindings), Err(TemplateError::MalformedRange));
}

#[test]
fn white_space_around_the_name_is_dropped() {
    let bindings = table(&[("v", "abc")]);
    assert_eq!(replace_str("{{ v }}", &bindings), ok("abc"));
    assert_eq!(replace_str("{{\tv[1..]\n}}", &bindings), ok("bc"));
    assert_eq!(replace_str("{{v [1..]}}", &bindings), Err(TemplateError::UndefinedBinding));
}

#[test]
fn the_first_binding_of_a_name_counts() {
    let bindings = table(&[("v", "first"), ("v", "second")]);
    assert_eq!(replace_str("{{v}}", &bindings), ok("first"));
}

#[test]
fn braces_inside_a_placeholder_belong_to_the_name() {
    let bindings = table(&[("{", "brace")]);
    assert_eq!(replace_str("{{{}}}", &bindings), ok("brace}"));
}

#[test]
fn env_tokens_are_replaced_or_left() {
    let env = table(&[("HOME", "/home/u")]);
    assert_eq!(replace_env_var("$HOME/x/$NOPE", &env), ok("/home/u/x/$NOPE"));
}

#[test]
fn env_substitution_leaves_other_text() {
    let env = table(&[("A", "1"), ("B_2", "two")]);
    assert_eq!(replace_env_var("", &env), ok(""));
    assert_eq!(replace_env_var("plain", &env), ok("plain"));
    assert_eq!(replace_env_var("cost: 5$", &env), ok("cost: 5$"));
    assert_eq!(replace_env_var("$A$B_2", &env), ok("1two"));
    assert_eq!(replace_env_var("$A-$B_2.$A", &env), ok("1-two.1"));
    assert_eq!(replace_env_var("${A}", &env), ok("${A}"));
}

#[test]
fn env_names_are_whole_words() {
    let env = table(&[("A", "1"), ("AB", "2")]);
    assert_eq!(replace_env_var("$AB", &env), ok("2"));
    assert_eq!(replace_env_var("$ABC", &env), ok("$ABC"));
    assert_eq!(replace_env_var("$A/B", &env), ok("1/B"));
}

#[test]
fn an_empty_environment_leaves_the_text_as_it_is() {
    let env = table(&[]);
    assert_eq!(replace_env_var("$A/x/$B_2 and $", &env), ok("$A/x/$B_2 and $"));
    assert_eq!(replace_env_var("", &env), ok(""));
}

#[test]
fn tokens_are_woven_between_the_gaps() {
    let env = table(&[("X", "1")]);
    let gaps = vec!["a".to_string(), "b".to_string(), "c".to_string()];
    let matches = vec![
        vec![Some("$X".to_string()), Some("X".to_string())],
        vec![Some("$Y".to_string()), Some("Y".to_string())],
    ];
    assert_eq!(substitute_tokens(&gaps, &matches, &env), "a1b$Yc");
    assert_eq!(substitute_tokens(&gaps, &Vec::new(), &env), "abc");
    assert_eq!(substitute_tokens(&Vec::new(), &matches, &env), "");
    assert_eq!(replace_token(&matches[0], &env), "1");
    assert_eq!(replace_token(&matches[1], &env), "$Y");
    assert_eq!(replace_token(&vec![None, Some("X".to_string())], &env), "1");
    assert_eq!(replace_token(&vec![None, Some("Y".to_string())], &env), "");
    assert_eq!(replace_token(&vec![], &env), "");
}

#[test]
fn a_pattern_that_is_refused_is_an_error() {
    let env = table(&[("A", "1")]);
    assert_eq!(substitute_matches("(", "$A", &env), Err(TemplateError::Pattern));
    assert_eq!(substitute_matches("[", "", &env), Err(TemplateError::Pattern));
}

#[test]
fn other_patterns_name_their_variable_in_group_one() {
    let env = table(&[("A", "1"), ("B", "2")]);
    assert_eq!(substitute_matches("%(A|B|C)%", "x%A%y%C%z%B%", &env), ok("x1y%C%z2"));
    assert_eq!(substitute_matches("%A%", "x%A%y", &env), ok("x%A%y"));
    assert_eq!(substitute_matches(ENV_PATTERN, "$A$B", &env), ok("12"));
    assert_eq!(substitute_matches("", "ab", &env), ok("ab"));
}

#[test]
fn templates_replace_placeholders_with_word_names() {
    let bindings = table(&[("task_id", "T1X"), ("user_id", "alice"), ("größe", "xl")]);
    assert_eq!(render_template("{{task_id}}", &bindings), ok("T1X"));
    assert_eq!(render_template("{{task_id[0..2]}}", &bindings), ok("T1"));
    assert_eq!(render_template("{{task_id[1..]}}", &bindings), ok("1X"));
    assert_eq!(render_template("{{task_id[..1]}}", &bindings), ok("T"));
    assert_eq!(render_template("{{task_id[..]}}", &bindings), ok("T1X"));
    assert_eq!(render_template("{{task_id[]}}", &bindings), ok("T1X"));
    assert_eq!(render_template("a/{{user_id}}/{{task_id}}.txt", &bindings), ok("a/alice/T1X.txt"));
    assert_eq!(render_template("{{größe}}", &bindings), ok("xl"));
    assert_eq!(render_template("", &bindings), ok(""));
}

#[test]
fn templates_fail_on_unknown_names_and_ranges_outside_the_value() {
    let bindings = table(&[("task_id", "T1X")]);
    assert_eq!(render_template("{{unknown}}", &bindings), Err(TemplateError::UndefinedBinding));
    assert_eq!(render_template("{{task_id[0..4]}}", &bindings), Err(TemplateError::OutOfBounds));
    assert_eq!(render_template("{{task_id[2..1]}}", &bindings), Err(TemplateError::OutOfBounds));
    assert_eq!(render_template("{{task_id[4..]}}", &bindings), Err(TemplateError::OutOfBounds));
    assert_eq!(
        render_template("{{task_id[..99999999999999999999999999]}}", &bindings),
        Err(TemplateError::OutOfBounds)
    );
    assert_eq!(
        render_template("{{task_id[9..]}} {{unknown}}", &bindings),
        Err(TemplateError::OutOfBounds)
    );
    assert_eq!(
        render_template("{{unknown}} {{task_id[9..]}}", &bindings),
        Err(TemplateError::UndefinedBinding)
    );
}

#[test]
fn text_that_is_no_placeholder_stays_in_a_template() {
    let bindings = table(&[("task_id", "T1X")]);
    for text in [
        "docker inspect -f '{{.State.Running}}' c",
        "{{ task_id }}",
        "{{task_id",
        "{{",
        "}}",
        "{{task_id[3]}}",
        "{{task_id[a..b]}}",
        "{{task_id[0ab2]}}",
        "{{task_id[0..1..2]}}",
        "{{task-id}}",
        "{{}}",
        "{task_id}",
        "plain text",
    ] {
        assert_eq!(render_template(text, &bindings), ok(text));
    }
    assert_eq!(render_template("{{{task_id}}}", &bindings), ok("{T1X}"));
    assert_eq!(render_template("{{x.y}}{{task_id}}", &bindings), ok("{{x.y}}T1X"));
}

#[test]
fn placeholders_are_placed_between_the_gaps() {
    let bindings = table(&[("v", "abcdef")]);
    let gaps = vec!["<".to_string(), "|".to_string(), ">".to_string()];
    let m = |name: &str, lo: Option<&str>, hi: Option<&str>| {
        vec![
            Some("whole".to_string()),
            Some(name.to_string()),
            None,
            None,
            lo.map(|s| s.to_string()),
            hi.map(|s| s.to_string()),
        ]
    };
    assert_eq!(
        place_matches(&gaps, &vec![m("v", Some("1"), Some("3")), m("v", None, None)], &bindings),
        ok("<bc|abcdef>")
    );
    assert_eq!(
        place_matches(&gaps, &vec![m("v", None, Some("7")), m("w", None, None)], &bindings),
        Err(TemplateError::OutOfBounds)
    );
    assert_eq!(
        place_matches(&gaps, &vec![m("w", None, None), m("v", None, Some("7"))], &bindings),
        Err(TemplateError::UndefinedBinding)
    );
    assert_eq!(place_match(&m("v", Some("x"), None), &bindings), Err(TemplateError::MalformedRange));
    assert_eq!(place_match(&m("v", Some("4"), None), &bindings), ok("ef"));
    assert_eq!(place_match(&vec![Some("x".to_string())], &bindings), Err(TemplateError::UndefinedBinding));
    assert_eq!(place_matches(&gaps, &vec![], &bindings), ok("<|>"));
}

#[test]
fn resolving_renders_first_and_substitutes_then() {
    let bindings = table(&[("task_id", "T1"), ("dir", "$HOME")]);
    let env = table(&[("HOME", "/h"), ("T1", "never")]);
    assert_eq!(resolve("$HOME/{{task_id}}", &bindings, &env), ok("/h/T1"));
    assert_eq!(resolve("{{dir}}/x", &bindings, &env), ok("/h/x"));
    assert_eq!(resolve("${{task_id}}", &bindings, &env), ok("never"));
    assert_eq!(resolve("{{task_id}}/$PB_NONE", &bindings, &env), ok("T1/$PB_NONE"));
    assert_eq!(resolve("{{nope}}/$HOME", &bindings, &env), Err(TemplateError::UndefinedBinding));
}
