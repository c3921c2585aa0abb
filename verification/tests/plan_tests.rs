use fixit::error::PlanError;
use fixit::glob_pattern::GlobPattern;
use fixit::plan::{
    FileOperation, Plan, PlanProvider, Processor, RegexOperation, RegexProcessor,
};
use fixit::provider::TestProvider;

fn glob(text: &str) -> GlobPattern {
    GlobPattern::new(String::from(text)).expect("valid glob")
}

fn regex_op(from: &str, to: &str) -> RegexOperation {
    RegexOperation::new(String::from(from), String::from(to)).expect("valid regex")
}

fn plan_with_filters(allow: Vec<&str>, deny: Vec<&str>) -> Plan {
    Plan::new(
        String::from("fix-everything"),
        String::from("fix: apply plan"),
        None,
        None,
        vec![],
        PlanProvider::Test(TestProvider {}),
        allow.into_iter().map(|a| glob(a)).collect(),
        deny.into_iter().map(|d| glob(d)).collect(),
    )
    .expect("valid plan")
}

#[test]
fn test_filters() {
    let plan = plan_with_filters(vec!["*my-repo*"], vec!["*-rs"]);

    assert!(plan.repository_allowed("my-repo"));
    assert!(plan.repository_allowed("abc-rs-my-repo"));
    assert!(!plan.repository_allowed("my-repo-rs"));
}

#[test]
fn test_filters_no_deny() {
    let plan = plan_with_filters(vec!["*my-repo*"], vec![]);

    assert!(plan.repository_allowed("my-repo"));
    assert!(plan.repository_allowed("abc-rs-my-repo"));
    assert!(plan.repository_allowed("my-repo-rs"));
    assert!(!plan.repository_allowed("other"));
}

#[test]
fn test_regex_processor_reports_change_once() {
    let processor = Processor::Regex(RegexProcessor {
        operations: vec![regex_op("foo", "bar")],
    });

    let (text, changed) = processor.process("foo foo baz");
    assert_eq!(text, "bar bar baz");
    assert!(changed);

    let (text2, changed2) = processor.process(&text);
    assert_eq!(text2, "bar bar baz");
    assert!(!changed2);
}

#[test]
fn test_regex_processor_real_patterns() {
    // A non-literal pattern shows the real engine is behind the wrapper.
    let processor = Processor::Regex(RegexProcessor {
        operations: vec![regex_op("o+", "0")],
    });
    let (text, changed) = processor.process("foo booo");
    assert_eq!(text, "f0 b0");
    assert!(changed);
}

#[test]
fn test_regex_operations_run_in_order() {
    let processor = Processor::Regex(RegexProcessor {
        operations: vec![regex_op("a", "b"), regex_op("b", "c")],
    });
    let (text, changed) = processor.process("a");
    assert_eq!(text, "c");
    assert!(changed);
}

#[test]
fn test_changed_even_when_text_returns_to_start() {
    // The second pass undoes the first: the fold still reports a change,
    // because some pass produced a different text than its own input.
    let processor = Processor::Regex(RegexProcessor {
        operations: vec![regex_op("a", "b"), regex_op("b", "a")],
    });
    let (text, changed) = processor.process("a");
    assert_eq!(text, "a");
    assert!(changed);
}

#[test]
fn test_invalid_regex_is_rejected() {
    match RegexOperation::new(String::from("("), String::from("x")) {
        Err(PlanError::InvalidRegex { pattern }) => assert_eq!(pattern, "("),
        _ => panic!("an unbalanced pattern must be rejected"),
    }
}

#[test]
fn test_invalid_glob_is_rejected() {
    match GlobPattern::new(String::from("a[")) {
        Err(PlanError::InvalidGlob { pattern }) => assert_eq!(pattern, "a["),
        _ => panic!("an unclosed character class must be rejected"),
    }
}

#[test]
fn test_empty_allow_filters_are_rejected() {
    let r = Plan::new(
        String::from("fix-everything"),
        String::from("fix: apply plan"),
        None,
        None,
        vec![],
        PlanProvider::Test(TestProvider {}),
        vec![],
        vec![],
    );
    match r {
        Err(PlanError::NoAllowFilters) => {}
        _ => panic!("a plan without allow filters must be rejected"),
    }
}

#[test]
fn test_error_messages() {
    let e = PlanError::InvalidGlob {
        pattern: String::from("a["),
    };
    assert_eq!(e.message(), "failed to parse glob a[");
    let e = PlanError::InvalidRegex {
        pattern: String::from("("),
    };
    assert_eq!(e.message(), "failed to parse regex (");
    let e = PlanError::NoAllowFilters;
    assert_eq!(e.message(), "plan names no repository allow filter");
}

#[test]
fn test_glob_pattern_matches() {
    let g = glob("*.txt");
    assert!(g.matches("notes.txt"));
    assert!(!g.matches("notes.rs"));
    assert_eq!(g.as_str(), "*.txt");
}

#[test]
fn test_file_operation_processors_fold() {
    let op = FileOperation {
        pattern: glob("*.txt"),
        processors: vec![
            Processor::Regex(RegexProcessor {
                operations: vec![regex_op("TODO", "DONE")],
            }),
            Processor::Regex(RegexProcessor {
                operations: vec![regex_op("DONE!", "DONE.")],
            }),
        ],
    };
    let (text, changed) = fixit::plan::apply_processors(&op.processors, "TODO! and TODO");
    assert_eq!(text, "DONE. and DONE");
    assert!(changed);
    let (same, unchanged) = fixit::plan::apply_processors(&op.processors, "nothing here");
    assert_eq!(same, "nothing here");
    assert!(!unchanged);
}
