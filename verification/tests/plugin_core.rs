use textutil_core::controller::{run, run_source};
use textutil_core::host::greeting_line;
use textutil_core::outcome::InvocationResult;
use textutil_core::registry::PluginRegistry;

fn registry_of(entries: &[(&str, &str)]) -> PluginRegistry {
    let sources: Vec<(String, Vec<u8>)> = entries
        .iter()
        .map(|(name, source)| (name.to_string(), source.as_bytes().to_vec()))
        .collect();
    PluginRegistry::load(sources)
}

fn success(text: &str) -> InvocationResult {
    InvocationResult::Success(text.to_string())
}

fn failure(diagnostic: &str) -> InvocationResult {
    InvocationResult::Failure(diagnostic.to_string())
}

#[test]
fn missing_plugin_reports_fixed_diagnostic() {
    let reg = PluginRegistry::new();
    for buffer in ["", "hello", "anything at all"] {
        assert_eq!(
            run(&reg, "nonexistent", buffer),
            failure("no plugin named nonexistent found")
        );
    }
}

#[test]
fn missing_plugin_diagnostic_names_the_plugin() {
    let reg = registry_of(&[("shout", "function main(x) { return x.toUpperCase(); }")]);
    assert_eq!(
        run(&reg, "whisper", "abc"),
        failure("no plugin named whisper found")
    );
}

#[test]
fn identity_plugin_round_trips() {
    let reg = registry_of(&[("identity", "function main(x) { return x; }")]);
    assert_eq!(run(&reg, "identity", "hello"), success("hello"));
}

#[test]
fn uppercase_plugin_transforms_buffer() {
    let reg = registry_of(&[("shout", "function main(x) { return x.toUpperCase(); }")]);
    assert_eq!(run(&reg, "shout", "abc"), success("ABC"));
}

#[test]
fn same_run_twice_gives_same_result() {
    let reg = registry_of(&[
        ("shout", "function main(x) { return x.toUpperCase(); }"),
        ("bad", "function main(x) { throw new Error('boom'); }"),
    ]);
    let first = run(&reg, "shout", "abc");
    let second = run(&reg, "shout", "abc");
    assert_eq!(first, second);
    let first_failure = run(&reg, "bad", "abc");
    let second_failure = run(&reg, "bad", "abc");
    assert!(matches!(first_failure, InvocationResult::Failure(_)));
    assert_eq!(first_failure, second_failure);
}

#[test]
fn parse_error_reports_parse_diagnostic() {
    let reg = registry_of(&[("broken", "function main( {")]);
    match run(&reg, "broken", "abc") {
        InvocationResult::Failure(diagnostic) => {
            assert!(diagnostic.starts_with("parse error: "), "{}", diagnostic);
        }
        other => panic!("expected a failure, got {:?}", other),
    }
}

#[test]
fn throwing_plugin_fails_and_next_invocation_is_clean() {
    let reg = registry_of(&[
        ("bad", "function main(x) { throw new Error('boom'); }"),
        ("identity", "function main(x) { return x; }"),
    ]);
    match run(&reg, "bad", "abc") {
        InvocationResult::Failure(diagnostic) => assert!(!diagnostic.is_empty()),
        other => panic!("expected a failure, got {:?}", other),
    }
    assert_eq!(run(&reg, "identity", "abc"), success("abc"));
}

#[test]
fn top_level_state_does_not_leak_between_runs() {
    let reg = registry_of(&[(
        "counter",
        "if (typeof seen === 'undefined') { var seen = 0; } seen = seen + 1;\n\
         function main(x) { return x + seen; }",
    )]);
    assert_eq!(run(&reg, "counter", "n="), success("n=1"));
    assert_eq!(run(&reg, "counter", "n="), success("n=1"));
}

#[test]
fn collision_on_lower_cased_name_last_wins() {
    let reg = registry_of(&[
        ("foo", "function main(x) { return 'first'; }"),
        ("Foo", "function main(x) { return 'second'; }"),
    ]);
    assert_eq!(run(&reg, "foo", ""), success("second"));
    assert_eq!(run(&reg, "Foo", ""), success("second"));
    assert_eq!(run(&reg, "FOO", ""), success("second"));
}

#[test]
fn corrupt_source_is_skipped_and_the_rest_load() {
    let mut sources: Vec<(String, Vec<u8>)> = vec![
        ("one".to_string(), b"function main(x) { return '1'; }".to_vec()),
        ("two".to_string(), b"function main(x) { return '2'; }".to_vec()),
        ("bad".to_string(), vec![0xff, 0xfe, 0x80]),
        ("three".to_string(), b"function main(x) { return '3'; }".to_vec()),
        ("four".to_string(), b"function main(x) { return '4'; }".to_vec()),
    ];
    let reg = PluginRegistry::load(sources.drain(..).collect());
    assert_eq!(run(&reg, "one", ""), success("1"));
    assert_eq!(run(&reg, "two", ""), success("2"));
    assert_eq!(run(&reg, "three", ""), success("3"));
    assert_eq!(run(&reg, "four", ""), success("4"));
    assert_eq!(run(&reg, "bad", ""), failure("no plugin named bad found"));
}

#[test]
fn lookup_is_case_insensitive_and_exact() {
    let reg = registry_of(&[("MyPlugin", "function main(x) { return x; }")]);
    assert_eq!(reg.lookup("myplugin"), Some("function main(x) { return x; }".to_string()));
    assert_eq!(reg.lookup("MYPLUGIN"), Some("function main(x) { return x; }".to_string()));
    assert_eq!(reg.lookup("MyPlugin"), Some("function main(x) { return x; }".to_string()));
    assert_eq!(reg.lookup("myplug"), None);
    assert_eq!(reg.lookup("myplugin2"), None);
}

#[test]
fn refresh_replaces_the_whole_population() {
    let mut reg = registry_of(&[("old", "function main(x) { return 'old'; }")]);
    assert_eq!(run(&reg, "old", ""), success("old"));
    reg.refresh(vec![(
        "new".to_string(),
        b"function main(x) { return 'new'; }".to_vec(),
    )]);
    assert_eq!(run(&reg, "new", ""), success("new"));
    assert_eq!(run(&reg, "old", ""), failure("no plugin named old found"));
}

#[test]
fn non_text_return_is_a_conversion_failure() {
    let reg = registry_of(&[("numeric", "function main(x) { return 42; }")]);
    assert_eq!(run(&reg, "numeric", "abc"), failure("plugin did not return text"));
}

#[test]
fn plugin_without_entry_point_is_a_lookup_failure() {
    let reg = registry_of(&[("empty", "var unrelated = 1;")]);
    assert_eq!(
        run(&reg, "empty", "abc"),
        failure("plugin does not define a callable main")
    );
    let reg = registry_of(&[("notfn", "var main = 'not callable';")]);
    assert_eq!(
        run(&reg, "notfn", "abc"),
        failure("plugin does not define a callable main")
    );
}

#[test]
fn lexical_entry_points_are_found() {
    let reg = registry_of(&[
        ("arrow", "const main = (x) => x.toUpperCase();"),
        ("lexical", "let main = function(x) { return x + '!'; };"),
    ]);
    assert_eq!(run(&reg, "arrow", "abc"), success("ABC"));
    assert_eq!(run(&reg, "lexical", "hi"), success("hi!"));
}

#[test]
fn lexically_undefined_entry_is_still_a_lookup_failure() {
    let reg = registry_of(&[("hollow", "let main;")]);
    assert_eq!(
        run(&reg, "hollow", "abc"),
        failure("plugin does not define a callable main")
    );
}

#[test]
fn input_binding_is_read_only() {
    let reg = registry_of(&[(
        "clobber",
        "function main(x) { text_input = 'clobbered'; return text_input; }",
    )]);
    assert_eq!(run(&reg, "clobber", "original"), success("original"));
}

#[test]
fn version_constant_is_bound() {
    let reg = registry_of(&[("ver", "function main(x) { return MY_PROJECT_VERSION; }")]);
    assert_eq!(run(&reg, "ver", ""), success("1.0.0"));
}

#[test]
fn say_hello_utility_is_callable() {
    let reg = registry_of(&[(
        "greet",
        "function main(x) { say_hello(x); say_hello(); return x; }",
    )]);
    assert_eq!(run(&reg, "greet", "Rust"), success("Rust"));
}

#[test]
fn run_source_rejects_invalid_source() {
    match run_source("function main( {", "x") {
        InvocationResult::Failure(diagnostic) => {
            assert!(diagnostic.starts_with("parse error: "), "{}", diagnostic);
        }
        other => panic!("expected a failure, got {:?}", other),
    }
}

#[test]
fn registered_plugin_failure_is_never_the_unknown_name_diagnostic() {
    let reg = registry_of(&[("broken", "function main( {")]);
    match run(&reg, "broken", "abc") {
        InvocationResult::Failure(diagnostic) => {
            assert_ne!(diagnostic, "no plugin named broken found");
            assert!(diagnostic.starts_with("parse error: "), "{}", diagnostic);
        }
        other => panic!("expected a failure, got {:?}", other),
    }
}

#[test]
fn run_source_works_without_a_registry() {
    assert_eq!(
        run_source("function main(x) { return x + '!'; }", "hi"),
        success("hi!")
    );
}

#[test]
fn greeting_line_without_name() {
    assert_eq!(greeting_line(None), "Hello World!");
}

#[test]
fn greeting_line_with_name() {
    assert_eq!(greeting_line(Some("Rust".to_string())), "Hello Rust!");
}
