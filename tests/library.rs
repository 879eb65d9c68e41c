use csvargs::{
    create_indexed_context, create_named_context, shows_output, Action, Args, CommandOutcome,
    CsvProcessor, RecordRead, RowOutcome, Run, RunError, SourceError,
};

fn strings(v: &[&str]) -> Vec<String> {
    v.iter().map(|s| s.to_string()).collect()
}

struct Trace {
    executed: Vec<(usize, usize, String)>,
    opened: Vec<usize>,
    result: Result<(), RunError>,
}

/// Drives a run: `None` stands for a source that cannot be opened, and the
/// command of (source, row) in `failing` exits with a failure.
fn drive(template: &str, has_header: bool, sources: &[Option<&str>], failing: Option<(usize, usize)>) -> Trace {
    let paths: Vec<String> = (0..sources.len()).map(|i| format!("source{}.csv", i)).collect();
    let mut trace = Trace { executed: Vec::new(), opened: Vec::new(), result: Ok(()) };
    let (mut run, mut action) = match Run::start(template, has_header, paths) {
        Ok(started) => started,
        Err(e) => {
            trace.result = Err(e);
            return trace;
        }
    };
    loop {
        action = match action {
            Action::Open { source } => {
                trace.opened.push(source);
                match sources[source] {
                    Some(text) => run.opened(text.as_bytes().to_vec()),
                    None => run.open_failed("No such file or directory".to_string()),
                }
            }
            Action::Execute { source, row, command, .. } => {
                trace.executed.push((source, row, command));
                let success = failing != Some((source, row));
                let outcome = CommandOutcome {
                    success,
                    status: "exit status: 1".to_string(),
                    stderr: "boom".to_string(),
                };
                run.executed(outcome)
            }
            Action::Done => return trace,
            Action::Fail(e) => {
                trace.result = Err(e);
                return trace;
            }
        };
    }
}

fn commands(trace: &Trace) -> Vec<String> {
    trace.executed.iter().map(|(_, _, c)| c.clone()).collect()
}

#[test]
fn test_create_named_context() {
    let headers = strings(&["name", "age", "city"]);
    let record = strings(&["Alice", "25", "NYC"]);
    let context = create_named_context(&headers, &record);
    assert_eq!(context.get("name"), Some(&"Alice".to_string()));
    assert_eq!(context.get("age"), Some(&"25".to_string()));
    assert_eq!(context.get("city"), Some(&"NYC".to_string()));
}

#[test]
fn test_create_indexed_context() {
    let record = strings(&["Alice", "25", "NYC"]);
    let context = create_indexed_context(&record);
    assert_eq!(context.get("0"), Some(&"Alice".to_string()));
    assert_eq!(context.get("1"), Some(&"25".to_string()));
    assert_eq!(context.get("2"), Some(&"NYC".to_string()));
}

#[test]
fn test_csv_processor_new_valid_template() {
    let processor = CsvProcessor::new("echo {{row.name}}", true);
    assert!(processor.is_ok());
}

#[test]
fn test_csv_processor_new_invalid_template() {
    let processor = CsvProcessor::new("echo {{row.name", true);
    assert!(processor.is_err());
}

#[test]
fn test_process_csv_with_headers() {
    let trace = drive("echo Hello {{row.name}}", true, &[Some("name,age\nAlice,25\nBob,30")], None);
    assert!(trace.result.is_ok());
    assert_eq!(commands(&trace), vec!["echo Hello Alice", "echo Hello Bob"]);
}

#[test]
fn test_process_csv_without_headers() {
    let trace = drive("echo Hello {{row['0']}}", false, &[Some("Alice,25\nBob,30")], None);
    assert!(trace.result.is_ok());
    assert_eq!(commands(&trace), vec!["echo Hello Alice", "echo Hello Bob"]);
}

#[test]
fn test_process_empty_csv() {
    let trace = drive("echo {{row['0']}}", false, &[Some("")], None);
    assert!(trace.result.is_ok());
    assert!(trace.executed.is_empty());
}

#[test]
fn test_process_csv_with_missing_fields() {
    let trace = drive("echo Hello {{row.name}} age {{row.age}}", true, &[Some("name,age\nAlice,25\nBob,")], None);
    assert!(trace.result.is_ok());
    assert_eq!(commands(&trace), vec!["echo Hello Alice age 25", "echo Hello Bob age "]);
}

#[test]
fn test_process_nonexistent_file() {
    let trace = drive("echo {{row['0']}}", false, &[None], None);
    assert!(trace.result.is_err());
}

#[test]
fn test_template_rendering_with_special_characters() {
    let trace = drive("echo '{{row.message}}'", true, &[Some("message\nHello World\nquoted text")], None);
    assert!(trace.result.is_ok());
    assert_eq!(commands(&trace), vec!["echo 'Hello World'", "echo 'quoted text'"]);
}

#[test]
fn test_multiple_columns_template() {
    let trace = drive(
        "echo {{row.first}} {{row.last}} is {{row.age}} years old",
        true,
        &[Some("first,last,age\nJohn,Doe,30\nJane,Smith,25")],
        None,
    );
    assert!(trace.result.is_ok());
    assert_eq!(
        commands(&trace),
        vec!["echo John Doe is 30 years old", "echo Jane Smith is 25 years old"]
    );
}

#[test]
fn named_context_short_row_gets_empty_strings() {
    let headers = strings(&["name", "age"]);
    let record = strings(&["Bob"]);
    let context = create_named_context(&headers, &record);
    assert_eq!(context.get("name"), Some(&"Bob".to_string()));
    assert_eq!(context.get("age"), Some(&"".to_string()));
    assert_eq!(context.entries().len(), 2);
}

#[test]
fn named_context_ignores_extra_fields() {
    let headers = strings(&["name"]);
    let record = strings(&["Bob", "30", "x"]);
    let context = create_named_context(&headers, &record);
    assert_eq!(context.entries().len(), 1);
    assert_eq!(context.get("1"), None);
}

#[test]
fn named_context_duplicate_header_last_wins() {
    let headers = strings(&["a", "a"]);
    let record = strings(&["1", "2"]);
    let context = create_named_context(&headers, &record);
    assert_eq!(context.get("a"), Some(&"2".to_string()));
}

#[test]
fn indexed_context_has_one_key_per_field() {
    let record: Vec<String> = (0..12).map(|i| format!("f{}", i)).collect();
    let context = create_indexed_context(&record);
    assert_eq!(context.entries().len(), 12);
    assert_eq!(context.get("10"), Some(&"f10".to_string()));
    assert_eq!(context.get("11"), Some(&"f11".to_string()));
    assert_eq!(context.get("12"), None);
    assert_eq!(context.get("01"), None);
}

#[test]
fn indexed_context_of_empty_row_is_empty() {
    let context = create_indexed_context(&Vec::new());
    assert!(context.entries().is_empty());
    assert_eq!(context.get("0"), None);
}

#[test]
fn validation_gives_same_answer_twice() {
    for t in ["echo {{row.name}}", "echo {{row['0'", "plain text", "{% if %}"] {
        assert_eq!(CsvProcessor::new(t, true).is_ok(), CsvProcessor::new(t, true).is_ok());
    }
}

#[test]
fn render_row_binds_fields() {
    let processor = CsvProcessor::new("echo {{row.name}}-{{row['name']}}", true).unwrap();
    let header = strings(&["name"]);
    let rendered = processor.render_row(Some(&header), &strings(&["Ann"]), 0);
    assert_eq!(rendered.ok(), Some("echo Ann-Ann".to_string()));
}

#[test]
fn render_row_reports_undefined_variable() {
    let processor = CsvProcessor::new("echo {{row.missing}}", true).unwrap();
    let header = strings(&["name"]);
    match processor.render_row(Some(&header), &strings(&["Ann"]), 7) {
        Err(SourceError::Render { row, .. }) => assert_eq!(row, 7),
        _ => panic!("expected a render error"),
    }
}

#[test]
fn zero_sources_is_a_configuration_error() {
    let trace = drive("echo {{row['0']}}", false, &[], None);
    assert!(matches!(trace.result, Err(RunError::NoSources)));
    assert!(trace.executed.is_empty());
    let args = Args { template: "echo {{row['0']}}".to_string(), no_header: false, files: Vec::new() };
    match args.start() {
        Err(e) => assert_eq!(e.message(), "At least one CSV file must be provided"),
        Ok(_) => panic!("expected an error"),
    }
}

#[test]
fn invalid_template_runs_nothing() {
    let trace = drive("echo {{row['0'", false, &[Some("Alice,25")], None);
    assert!(matches!(trace.result, Err(RunError::Template { .. })));
    assert!(trace.executed.is_empty());
    assert!(trace.opened.is_empty());
    if let Err(e) = trace.result {
        assert!(e.message().starts_with("Failed to parse template"));
    }
}

#[test]
fn render_failure_stops_before_next_source() {
    let trace = drive(
        "echo {{row['1']}}",
        false,
        &[Some("a,1\nb,2\nc\nd,4"), Some("e,5")],
        None,
    );
    assert_eq!(commands(&trace), vec!["echo 1", "echo 2"]);
    assert_eq!(trace.opened, vec![0]);
    match trace.result {
        Err(RunError::Source { path, error: SourceError::Render { row, .. } }) => {
            assert_eq!(path, "source0.csv");
            assert_eq!(row, 2);
        }
        _ => panic!("expected a render error"),
    }
}

#[test]
fn command_failure_stops_the_run() {
    let trace = drive("echo {{row['0']}}", false, &[Some("a\nb\nc"), Some("d")], Some((0, 1)));
    assert_eq!(commands(&trace), vec!["echo a", "echo b"]);
    assert_eq!(trace.opened, vec![0]);
    match trace.result {
        Err(ref e @ RunError::Source { error: SourceError::Exec { row, .. }, .. }) => {
            assert_eq!(row, 1);
            assert_eq!(
                e.message(),
                "Failed to process file: source0.csv: Failed to execute command for row 1: Command failed with status exit status: 1: boom"
            );
        }
        _ => panic!("expected a command error"),
    }
}

#[test]
fn sources_run_in_order() {
    let trace = drive("echo {{row.x}}", true, &[Some("x\n1\n2"), Some("x\n3"), Some("")], None);
    assert!(trace.result.is_ok());
    assert_eq!(trace.opened, vec![0, 1, 2]);
    assert_eq!(
        trace.executed,
        vec![(0, 0, "echo 1".to_string()), (0, 1, "echo 2".to_string()), (1, 0, "echo 3".to_string())]
    );
}

#[test]
fn header_file_two_executions() {
    let trace = drive("echo hi-{{row.name}}", true, &[Some("name,age\nAlice,25\nBob,30")], None);
    assert!(trace.result.is_ok());
    assert_eq!(commands(&trace), vec!["echo hi-Alice", "echo hi-Bob"]);
}

#[test]
fn no_header_file_one_execution() {
    let trace = drive("echo {{row['0']}}", false, &[Some("Alice,25")], None);
    assert!(trace.result.is_ok());
    assert_eq!(commands(&trace), vec!["echo Alice"]);
}

#[test]
fn empty_file_with_header_mode_runs_nothing() {
    let trace = drive("echo {{row.name}}", true, &[Some("")], None);
    assert!(trace.result.is_ok());
    assert!(trace.executed.is_empty());
}

#[test]
fn missing_file_names_its_path() {
    let trace = drive("echo {{row['0']}}", false, &[Some("a"), None, Some("b")], None);
    assert_eq!(trace.opened, vec![0, 1]);
    match trace.result {
        Err(e) => {
            let m = e.message();
            assert!(m.contains("source1.csv"));
            assert!(m.contains("Failed to open file"));
        }
        Ok(()) => panic!("expected an error"),
    }
}

#[test]
fn quoted_fields_keep_commas() {
    let trace = drive("echo {{row['0']}}/{{row['1']}}", false, &[Some("\"a,b\",c")], None);
    assert_eq!(commands(&trace), vec!["echo a,b/c"]);
}

#[test]
fn output_shown_only_when_not_blank() {
    assert!(!shows_output(""));
    assert!(!shows_output("  \n\t"));
    assert!(shows_output(" hi \n"));
}

#[test]
fn source_error_messages_name_the_row() {
    let e = SourceError::Read { row: 12, message: "bad".to_string() };
    assert_eq!(e.message(), "Failed to read row 12: bad");
    let e = SourceError::Render { row: 0, message: "x".to_string() };
    assert_eq!(e.message(), "Failed to render template for row 0: x");
}

#[test]
fn unreadable_header_fails_before_any_row() {
    let (mut run, _) = Run::start("echo {{row.a}}", true, vec!["bad.csv".to_string()]).unwrap();
    match run.opened(vec![0xff, 0xfe, b'\n', b'x']) {
        Action::Fail(RunError::Source { path, error: SourceError::Read { row, .. } }) => {
            assert_eq!(path, "bad.csv");
            assert_eq!(row, 0);
        }
        other => panic!("expected a read error, got {:?}", other),
    }
}

#[test]
fn unreadable_record_fails_at_its_row() {
    let (mut run, _) = Run::start("echo {{row['0']}}", false, vec!["bad.csv".to_string()]).unwrap();
    let first = run.opened(b"ok\n\xff\n".to_vec());
    assert!(matches!(first, Action::Execute { row: 0, .. }));
    let outcome = CommandOutcome { success: true, status: "exit status: 0".to_string(), stderr: String::new() };
    match run.executed(outcome) {
        Action::Fail(e @ RunError::Source { error: SourceError::Read { row: 1, .. }, .. }) => {
            assert!(e.message().starts_with("Failed to process file: bad.csv: Failed to read row 1: "));
        }
        other => panic!("expected a read error, got {:?}", other),
    }
}

#[test]
fn spawn_failure_names_the_row() {
    let (mut run, _) = Run::start("echo {{row['0']}}", false, vec!["a.csv".to_string()]).unwrap();
    let first = run.opened(b"x".to_vec());
    assert!(matches!(first, Action::Execute { row: 0, .. }));
    match run.spawn_failed("not found".to_string()) {
        Action::Fail(e) => assert_eq!(
            e.message(),
            "Failed to process file: a.csv: Failed to execute command for row 0: Failed to execute command: not found"
        ),
        other => panic!("expected a failure, got {:?}", other),
    }
}

#[test]
fn open_failure_message() {
    let (mut run, _) = Run::start("echo", false, vec!["/nonexistent/file.csv".to_string()]).unwrap();
    match run.open_failed("gone".to_string()) {
        Action::Fail(e) => assert_eq!(
            e.message(),
            "Failed to process file: /nonexistent/file.csv: Failed to open file: /nonexistent/file.csv: gone"
        ),
        other => panic!("expected a failure, got {:?}", other),
    }
}

#[test]
fn row_outcome_decides_each_read() {
    let processor = CsvProcessor::new("echo {{row['0']}}", false).unwrap();
    match processor.row_outcome(None, RecordRead::Record(strings(&["z"])), 3) {
        RowOutcome::Execute { record, command } => {
            assert_eq!(record, strings(&["z"]));
            assert_eq!(command, "echo z");
        }
        other => panic!("expected a command, got {:?}", other),
    }
    assert!(matches!(processor.row_outcome(None, RecordRead::End, 3), RowOutcome::End));
    assert!(matches!(
        processor.row_outcome(None, RecordRead::Failed("x".to_string()), 3),
        RowOutcome::Fail(SourceError::Read { row: 3, .. })
    ));
    assert!(matches!(
        processor.row_outcome(None, RecordRead::Record(Vec::new()), 4),
        RowOutcome::Fail(SourceError::Render { row: 4, .. })
    ));
}
