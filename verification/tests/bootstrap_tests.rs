use harness_server::bootstrap::{args_array, bootstrap_script_path, generate_bootstrap};

#[test]
fn bootstrap_scenario_for_two_tests() {
    let args = vec!["--filter".to_string(), "foo".to_string()];
    let tests = vec!["a".to_string(), "b".to_string()];
    let script = generate_bootstrap("m", &args, &tests);

    assert!(script.contains("} from './m';"));
    assert!(script.contains("await init('./m_bg.wasm');"));
    assert!(script.contains("cx.args([\"--filter\", \"foo\"]);"));

    let push_a = script.find("tests.push('a');\n").expect("registration of a");
    let push_b = script.find("tests.push('b');\n").expect("registration of b");
    assert!(push_a < push_b);

    assert_eq!(script.matches("main(tests);").count(), 1);
    assert!(script.ends_with("main(tests);\n"));
}

#[test]
fn bootstrap_imports_console_hooks_and_context() {
    let script = generate_bootstrap("mod_test", &Vec::new(), &Vec::new());
    assert!(script.contains("WasmBindgenTestContext as Context"));
    for hook in ["debug", "log", "info", "warn", "error"] {
        assert!(script.contains(&format!("__wbgtest_console_{}", hook)));
        assert!(script.contains(&format!("window.on_console_{} = __wbgtest_console_{};", hook, hook)));
    }
    assert!(script.contains("default as init"));
}

#[test]
fn bootstrap_with_no_tests_registers_nothing_and_runs_once() {
    let script = generate_bootstrap("m", &Vec::new(), &Vec::new());
    assert!(!script.contains("tests.push"));
    assert!(script.contains("cx.args([]);"));
    assert!(script.ends_with("const tests = [];\nmain(tests);\n"));
}

#[test]
fn test_names_are_registered_in_supplied_order() {
    let tests = vec!["zeta".to_string(), "alpha".to_string(), "mid".to_string()];
    let script = generate_bootstrap("m", &Vec::new(), &tests);
    let z = script.find("tests.push('zeta');").unwrap();
    let a = script.find("tests.push('alpha');").unwrap();
    let m = script.find("tests.push('mid');").unwrap();
    assert!(z < a && a < m);
}

#[test]
fn args_array_serializes_strings() {
    assert_eq!(args_array(&Vec::new()), "[]");
    assert_eq!(args_array(&vec!["one".to_string()]), "[\"one\"]");
    assert_eq!(
        args_array(&vec!["--filter".to_string(), "foo".to_string()]),
        "[\"--filter\", \"foo\"]"
    );
}

#[test]
fn args_with_quotes_and_backslashes_are_escaped() {
    let args = vec!["say \"hi\"".to_string(), "back\\slash".to_string()];
    assert_eq!(args_array(&args), "[\"say \\\"hi\\\"\", \"back\\\\slash\"]");
    let script = generate_bootstrap("m", &args, &Vec::new());
    assert!(script.contains("cx.args([\"say \\\"hi\\\"\", \"back\\\\slash\"]);"));
}

#[test]
fn bootstrap_file_has_fixed_name_under_work_directory() {
    assert_eq!(bootstrap_script_path("tmp"), "tmp/run.js");
    assert_eq!(bootstrap_script_path("/var/work"), "/var/work/run.js");
}

#[test]
fn control_characters_in_args_are_escaped() {
    assert_eq!(args_array(&vec!["a\nb".to_string()]), "[\"a\\nb\"]");
    assert_eq!(args_array(&vec!["a\tb\r".to_string()]), "[\"a\\tb\\r\"]");
    assert_eq!(args_array(&vec!["\u{1}".to_string()]), "[\"\\u{01}\"]");
    assert_eq!(args_array(&vec!["\u{7f}".to_string()]), "[\"\\u{7f}\"]");
    assert_eq!(args_array(&vec!["\u{9f}".to_string()]), "[\"\\u{9f}\"]");
    let script = generate_bootstrap("m", &vec!["--filter\nfoo".to_string()], &Vec::new());
    assert!(script.contains("cx.args([\"--filter\\nfoo\"]);"));
    assert!(!script.contains("--filter\nfoo"));
}
