use grumpy_clippy::analyzer::actions::{
    analyze_change, analyze_file_complexity, analyze_file_with_custom_rules,
    extract_clippy_error_for_path, handle_file_changes, linter_excerpt, match_path, Evidence,
    History, ToolRun,
};
use grumpy_clippy::analyzer::complexity_inspector::{
    FunctionItem, Item, NodeKind, SourceFile, SyntaxNode,
};
use grumpy_clippy::analyzer::custom_rules::{RuleConfig, RuleFile};
use grumpy_clippy::analyzer::messages::{
    clippy, complexity, function_size, git_is_stale, git_most_frequent_author,
};
use grumpy_clippy::config::GrumpinessLevel;
use grumpy_clippy::logger::model::LogLevel;

const FILE: &str = "/home/me/project/src/lib.rs";
const NOW: i64 = 1_700_000_000;

fn function(name: &str, branches: usize, plain: usize) -> Item {
    let mut statements: Vec<SyntaxNode> = Vec::new();
    for _ in 0..branches {
        statements.push(SyntaxNode::leaf(NodeKind::If));
    }
    for _ in 0..plain {
        statements.push(SyntaxNode::leaf(NodeKind::Other));
    }
    Item::Function(FunctionItem {
        name: name.to_string(),
        param_count: 0,
        body: SyntaxNode::new(NodeKind::Other, statements).unwrap(),
    })
}

fn succeeded() -> ToolRun {
    ToolRun::finished(true, b"")
}

fn quiet_evidence(items: Vec<Item>) -> Evidence {
    Evidence {
        formatter: succeeded(),
        linter: succeeded(),
        code: Ok("fn busy() {}".to_string()),
        syntax: Ok(SourceFile { items }),
        rules: RuleFile::Missing,
        history: History::Found {
            commit_times: Ok(vec![NOW - 3600]),
            authors: Ok(vec![Some("Ann".to_string())]),
            now: NOW,
        },
    }
}

#[test]
fn one_function_above_the_complexity_limit_gives_one_warning_and_no_error() {
    let evidence = quiet_evidence(vec![function("busy", 11, 0), function("calm", 2, 3)]);
    let report = analyze_change(
        FILE,
        &GrumpinessLevel::Mild,
        &32,
        &10,
        "rules.toml",
        evidence,
    );
    assert_eq!(
        report.warning(),
        "Function 'busy': Cyclomatic complexity too high (12 > 10). Consider simplifying it.\n"
    );
    assert_eq!(report.error(), "");
    assert_eq!(
        report.info(),
        "Detected changes in '\"src/lib.rs\"'\n\
         ✅ cargo fmt successful!\n\
         ✅ cargo clippy successful\n\
         Git: file mostly edited by our star `Ann`!\n"
    );
    assert_eq!(
        report.render(),
        format!("{}{}{}", report.info(), report.warning(), report.error())
    );
}

#[test]
fn report_text_is_info_then_warning_then_error() {
    let mut evidence = quiet_evidence(vec![function("long", 0, 40)]);
    evidence.formatter = ToolRun::Failed("No such file or directory (os error 2)".to_string());
    let text = handle_file_changes(
        FILE,
        &GrumpinessLevel::Rude,
        &32,
        &10,
        "rules.toml",
        evidence,
    );
    assert_eq!(
        text,
        "Detected changes in '\"src/lib.rs\"'\n\
         ✅🙄 Oh, you managed not to break anything? Well, there is a first time for everything.\n\
         Git: Looks like here is Ann's personal playground.\n\
         Function 'long': 40 lines (40 > 32)? This is absurd!\n\
         ❌ Failed to run 'cargo fmt': No such file or directory (os error 2)\n"
    );
}

#[test]
fn a_function_can_give_two_warnings() {
    let file = SourceFile {
        items: vec![function("big", 5, 3), function("fine", 1, 1)],
    };
    let (passed, warnings) =
        analyze_file_complexity(&file, &GrumpinessLevel::Sarcastic, &7, &4);
    assert!(!passed);
    assert_eq!(
        warnings,
        "Function 'big': Wow, cyclomatic complexity (6 > 4)! Are you trying to write a novel?\n\
         Function 'big': Wow, 8 lines (8 > 7)! Are you writing a novel?\n"
    );
    let (passed, warnings) = analyze_file_complexity(&file, &GrumpinessLevel::Mild, &8, &6);
    assert!(passed);
    assert_eq!(warnings, "");
}

#[test]
fn limits_are_compared_without_truncation() {
    let file = SourceFile {
        items: vec![function("huge", 256, 0)],
    };
    let (passed, warnings) = analyze_file_complexity(&file, &GrumpinessLevel::Mild, &255, &255);
    assert!(!passed);
    assert_eq!(
        warnings,
        "Function 'huge': Cyclomatic complexity too high (257 > 255). Consider simplifying it.\n\
         Function 'huge': Too many lines (256 > 255). Consider refactoring.\n"
    );
}

#[test]
fn every_failure_goes_to_the_errors_and_stops_nothing() {
    let evidence = Evidence {
        formatter: ToolRun::finished(false, b"error: expected `;`"),
        linter: ToolRun::Failed("cargo not found".to_string()),
        code: Err("Permission denied (os error 13)".to_string()),
        syntax: Err("expected identifier".to_string()),
        rules: RuleFile::Missing,
        history: History::Found {
            commit_times: Err("no blame".to_string()),
            authors: Err("no commit".to_string()),
            now: NOW,
        },
    };
    let report = analyze_change(
        FILE,
        &GrumpinessLevel::Mild,
        &32,
        &10,
        "rules.toml",
        evidence,
    );
    assert_eq!(report.info(), "Detected changes in '\"src/lib.rs\"'\n");
    assert_eq!(report.warning(), "");
    assert_eq!(
        report.error(),
        "❌ Failed to run 'cargo fmt': error: expected `;`\n\
         ❌ Failed to run 'clippy': cargo not found\n\
         ❌ Failed to analyse file: expected identifier\n\
         ❌ Failed to analyse file with custom rules: Permission denied (os error 13)\n\
         ❌ Failed to check if file is stale: no blame\n\
         ❌ Failed to get most frequent author: no commit\n"
    );
}

#[test]
fn linter_failure_counts_only_where_it_names_the_file() {
    let stderr = b"warning: unused variable\n  --> src/lib.rs:3:9\n";
    let mut evidence = quiet_evidence(vec![]);
    evidence.linter = ToolRun::finished(false, stderr);
    let report = analyze_change(
        FILE,
        &GrumpinessLevel::Sarcastic,
        &32,
        &10,
        "rules.toml",
        evidence,
    );
    assert_eq!(report.warning(), "❌🙄 Oh, you did break something (as usual):\n");
    assert_eq!(report.error(), "");

    let mut evidence = quiet_evidence(vec![]);
    evidence.linter = ToolRun::finished(false, b"  --> src/other.rs:1:1\n");
    let report = analyze_change(
        FILE,
        &GrumpinessLevel::Sarcastic,
        &32,
        &10,
        "rules.toml",
        evidence,
    );
    assert_eq!(report.warning(), "");
    assert_eq!(report.error(), "");
    assert_eq!(
        report.info(),
        "Detected changes in '\"src/lib.rs\"'\n\
         ✅ cargo fmt successful!\n\
         Git: file mostly authored by `Ann`. Check if they're still around.\n"
    );
}

#[test]
fn rule_violations_become_warnings_and_unknown_rules_errors() {
    let rule = |name: &str, option: Option<&str>| RuleConfig {
        name: name.to_string(),
        enabled: true,
        threshold: None,
        option: option.map(|word| word.to_string()),
    };
    let mut evidence = quiet_evidence(vec![]);
    evidence.code = Ok("fn f() { todo!() }".to_string());
    evidence.rules = RuleFile::Parsed(vec![
        rule("no_todo_comments", None),
        rule("forbid_word", Some("fn")),
    ]);
    let report = analyze_change(
        FILE,
        &GrumpinessLevel::Mild,
        &32,
        &10,
        "rules.toml",
        evidence,
    );
    assert_eq!(
        report.warning(),
        "Rule violation: no_todo_comments\nmessage Some(Some(\"TODO comments found!\"))\n\
         Rule violation: forbid_word\nmessage Some(Some(\"Use of forbidden word: fn\"))\n"
    );
    assert_eq!(report.error(), "");

    let mut evidence = quiet_evidence(vec![]);
    evidence.rules = RuleFile::Parsed(vec![rule("line_length", None)]);
    let report = analyze_change(
        FILE,
        &GrumpinessLevel::Mild,
        &32,
        &10,
        "rules.toml",
        evidence,
    );
    assert_eq!(report.warning(), "");
    assert_eq!(
        report.error(),
        "❌ Failed to analyse file with custom rules: Unknown rule: line_length\n"
    );

    let mut evidence = quiet_evidence(vec![]);
    evidence.rules = RuleFile::Malformed("missing field `name`".to_string());
    let report = analyze_change(
        FILE,
        &GrumpinessLevel::Mild,
        &32,
        &10,
        "my_rules.toml",
        evidence,
    );
    assert_eq!(
        report.error(),
        "❌ Failed to analyse file with custom rules: Failed to load custom rules: \
         Invalid ruleset file 'my_rules.toml': missing field `name`\n"
    );
}

#[test]
fn stale_file_and_empty_author_are_reported() {
    let mut evidence = quiet_evidence(vec![]);
    evidence.history = History::Found {
        commit_times: Ok(vec![NOW - 8 * 86_400, NOW - 30 * 86_400]),
        authors: Ok(vec![]),
        now: NOW,
    };
    let report = analyze_change(
        FILE,
        &GrumpinessLevel::Sarcastic,
        &32,
        &10,
        "rules.toml",
        evidence,
    );
    assert_eq!(
        report.info(),
        "Detected changes in '\"src/lib.rs\"'\n\
         ✅ cargo fmt successful!\n\
         ✅🙈 Oh, you did not break anything. Strange!\n\
         Git: file looks stale. Consider revisiting it.\n\
         Git: file mostly authored by ``. Check if they're still around.\n"
    );

    let mut evidence = quiet_evidence(vec![]);
    evidence.history = History::Found {
        commit_times: Ok(vec![NOW - 7 * 86_400 - 86_399]),
        authors: Ok(vec![None, None, Some("Bo".to_string())]),
        now: NOW,
    };
    let report = analyze_change(
        FILE,
        &GrumpinessLevel::Mild,
        &32,
        &10,
        "rules.toml",
        evidence,
    );
    assert_eq!(
        report.info(),
        "Detected changes in '\"src/lib.rs\"'\n\
         ✅ cargo fmt successful!\n\
         ✅ cargo clippy successful\n\
         Git: file mostly edited by our star `Unknown`!\n"
    );
}

#[test]
fn repository_that_cannot_be_found_is_an_error() {
    let mut evidence = quiet_evidence(vec![]);
    evidence.history = History::Unavailable("could not find repository".to_string());
    let report = analyze_change(
        FILE,
        &GrumpinessLevel::Mild,
        &32,
        &10,
        "rules.toml",
        evidence,
    );
    assert_eq!(
        report.error(),
        "❌ Failed to create GitInspector: could not find repository\n"
    );
    let report = analyze_change(
        "lib.rs",
        &GrumpinessLevel::Mild,
        &32,
        &10,
        "rules.toml",
        quiet_evidence(vec![]),
    );
    assert_eq!(
        report.error(),
        "❌ Failed to create GitInspector: Invalid repository path\n"
    );
    assert_eq!(
        report.info(),
        "Detected changes in '\"\"'\n✅ cargo fmt successful!\n✅ cargo clippy successful\n"
    );
}

#[test]
fn output_names_the_file_by_its_path_from_src() {
    assert!(match_path(FILE, "error\n --> src/lib.rs:1:1\n"));
    assert!(match_path(FILE, "--> /home/me/project/src/lib.rs"));
    assert!(!match_path(FILE, "--> src/main.rs:1:1"));
    assert!(!match_path(FILE, "src/lib.rs"));
    assert!(!match_path("lib.rs", "--> lib.rs:1:1"));
    assert!(match_path("/p/src/a/src/b.rs", "--> src/a/src/b.rs"));
    assert!(!match_path("/p/src/a/src/b.rs", "--> src/b.rs"));
}

#[test]
fn excerpt_runs_from_the_marker_of_the_file_to_the_next_marker() {
    let stderr = "warning: a\n  --> src/lib.rs:3:9\n   |\n3  | let x;\nwarning: b\n  --> src/main.rs:1:1\nrest\n";
    assert_eq!(
        extract_clippy_error_for_path(stderr, "src/lib.rs"),
        Some("  --> src/lib.rs:3:9\n   |\n3  | let x;\nwarning: b\n")
    );
    assert_eq!(
        extract_clippy_error_for_path(stderr, "src/main.rs"),
        Some("  --> src/main.rs:1:1\nr")
    );
    assert_eq!(extract_clippy_error_for_path(stderr, "src/none.rs"), None);
    assert_eq!(extract_clippy_error_for_path("", "src/lib.rs"), None);
    assert_eq!(
        extract_clippy_error_for_path("--> src/lib.rs", "src/lib.rs"),
        Some("-")
    );
    // the last marker that names the file starts the excerpt
    assert_eq!(
        extract_clippy_error_for_path("--> a.rs:1\nx\n--> a.rs:2\ny\n", "a.rs"),
        Some("--> a.rs:2\ny")
    );
    // a line that names the file without being a marker starts nothing
    assert_eq!(extract_clippy_error_for_path("see a.rs\n", "a.rs"), None);
}

#[test]
fn excerpt_for_the_log() {
    let failed = ToolRun::finished(false, b"e\n --> src/lib.rs:1:1\nline\n --> src/x.rs:1\n");
    assert_eq!(
        linter_excerpt(FILE, &failed),
        Some(" --> src/lib.rs:1:1\nline\n")
    );
    let elsewhere = ToolRun::finished(false, b" --> src/x.rs:1\n");
    assert_eq!(linter_excerpt(FILE, &elsewhere), None);
    assert_eq!(linter_excerpt(FILE, &succeeded()), None);
    assert_eq!(linter_excerpt(FILE, &ToolRun::Failed("x".to_string())), None);
}

#[test]
fn invalid_bytes_of_a_tool_are_replaced() {
    match ToolRun::finished(false, b"bad \xff byte") {
        ToolRun::Finished { success, stderr } => {
            assert!(!success);
            assert_eq!(stderr, "bad \u{FFFD} byte");
        }
        ToolRun::Failed(_) => panic!("the tool ran"),
    }
}

#[test]
fn custom_rules_step() {
    assert_eq!(
        analyze_file_with_custom_rules("// TODO", "r.toml", RuleFile::Missing),
        Ok((true, vec![]))
    );
    assert_eq!(
        analyze_file_with_custom_rules("x", "r.toml", RuleFile::Unreadable("denied".to_string())),
        Err("Failed to load custom rules: Failed to read ruleset file 'r.toml': denied".to_string())
    );
}

#[test]
fn messages_follow_the_tone() {
    assert_eq!(clippy::success(&GrumpinessLevel::Mild), "✅ cargo clippy successful");
    assert_eq!(
        clippy::failure(&GrumpinessLevel::Mild),
        "❌ Clippy failed (see terminal for details)"
    );
    assert_eq!(
        clippy::failure(&GrumpinessLevel::Rude),
        "❌💣 Of course you broke something—how utterly predictable."
    );
    assert_eq!(
        complexity::warning(&GrumpinessLevel::Rude, "f", 300, 255),
        "Function 'f': Cyclomatic complexity (300 > 255)? What is this monstrosity?"
    );
    assert_eq!(
        complexity::warning(&GrumpinessLevel::Sarcastic, "f", 11, 10),
        "Function 'f': Wow, cyclomatic complexity (11 > 10)! Are you trying to write a novel?"
    );
    assert_eq!(
        function_size::warning(&GrumpinessLevel::Mild, "g", 1000, 0),
        "Function 'g': Too many lines (1000 > 0). Consider refactoring."
    );
    assert_eq!(
        function_size::warning(&GrumpinessLevel::Sarcastic, "g", 33, 32),
        "Function 'g': Wow, 33 lines (33 > 32)! Are you writing a novel?"
    );
    assert_eq!(
        git_is_stale::info(&GrumpinessLevel::Mild),
        "Git: Hey there! Just a heads-up: file hasn’t been updated in a while."
    );
    assert_eq!(
        git_is_stale::info(&GrumpinessLevel::Rude),
        "Git: file is gathering dust. Are you asleep at the keyboard?"
    );
    assert_eq!(
        git_most_frequent_author::info(&GrumpinessLevel::Rude, ""),
        "Git: Looks like here is 's personal playground."
    );
}

#[test]
fn every_line_of_the_report_becomes_a_log_record() {
    let rule = RuleConfig {
        name: "no_todo_comments".to_string(),
        enabled: true,
        threshold: None,
        option: None,
    };
    let mut evidence = quiet_evidence(vec![]);
    evidence.code = Ok("// todo".to_string());
    evidence.rules = RuleFile::Parsed(vec![rule]);
    evidence.linter = ToolRun::Failed("cargo not found".to_string());
    let report = analyze_change(
        FILE,
        &GrumpinessLevel::Mild,
        &32,
        &10,
        "rules.toml",
        evidence,
    );
    assert_eq!(
        report.log_records(),
        vec![
            (
                LogLevel::Info,
                "Detected changes in '\"src/lib.rs\"'".to_string()
            ),
            (LogLevel::Info, "✅ cargo fmt successful!".to_string()),
            (
                LogLevel::Info,
                "Git: file mostly edited by our star `Ann`!".to_string()
            ),
            (
                LogLevel::Warn,
                "Rule violation: no_todo_comments".to_string()
            ),
            (
                LogLevel::Warn,
                "message Some(Some(\"TODO comments found!\"))".to_string()
            ),
            (
                LogLevel::Error,
                "❌ Failed to run 'clippy': cargo not found".to_string()
            ),
        ]
    );
}
