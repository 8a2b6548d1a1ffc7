use code_executor::execution::{Event, Orchestrator, Response, Step};
use code_executor::request::CodeInput;

fn request(language: &str, code: &str, input: Option<&str>) -> CodeInput {
    CodeInput::new(language.to_string(), code.to_string(), input.map(|s| s.to_string()))
}

fn strings(items: &[&str]) -> Vec<String> {
    items.iter().map(|s| s.to_string()).collect()
}

fn started(language: &str, code: &str, input: Option<&str>, workspace: &str) -> Orchestrator {
    match Orchestrator::start(&request(language, code, input), workspace) {
        Ok(o) => o,
        Err(_) => panic!("{language} should be supported"),
    }
}

fn expect_write(o: &Orchestrator) -> (String, String) {
    match o.next_step() {
        Step::WriteSource { path, code } => (path, code),
        _ => panic!("expected the source to be written"),
    }
}

fn expect_compile(o: &Orchestrator) -> Vec<String> {
    match o.next_step() {
        Step::Compile { args } => args,
        _ => panic!("expected a compile step"),
    }
}

fn expect_run(o: &Orchestrator) -> (Vec<String>, String) {
    match o.next_step() {
        Step::Run { args, stdin } => (args, stdin),
        _ => panic!("expected a run step"),
    }
}

fn expect_response(o: &Orchestrator) -> Response {
    match o.next_step() {
        Step::Respond { response } => response,
        _ => panic!("expected a response"),
    }
}

fn expect_success(o: &Orchestrator) -> (String, String) {
    match expect_response(o) {
        Response::Success { result } => (result.output, result.error),
        _ => panic!("expected a success response"),
    }
}

fn expect_server_error(o: &Orchestrator) -> (String, String) {
    match expect_response(o) {
        Response::ServerError { result } => (result.output, result.error),
        _ => panic!("expected a server error"),
    }
}

#[test]
fn python_prints_hi() {
    let mut o = started("python", "print('hi')", Some(""), "/ws");
    assert_eq!(expect_write(&o), ("/ws/code.py".to_string(), "print('hi')".to_string()));
    o.advance(Event::Written);
    let (args, stdin) = expect_run(&o);
    assert_eq!(args, strings(&["run", "--rm", "-i", "-v", "/ws:/app", "-w", "/app", "executor", "python3", "code.py"]));
    assert_eq!(stdin, "");
    o.advance(Event::exited(true, &b"hi\n".to_vec(), &Vec::new()));
    assert_eq!(expect_success(&o), ("hi\n".to_string(), "".to_string()));
}

#[test]
fn cpp_compile_failure_skips_run() {
    let mut o = started("cpp", "int main(){return 1/0;}", None, "/ws");
    assert_eq!(expect_write(&o).0, "/ws/code.cpp");
    o.advance(Event::Written);
    assert_eq!(
        expect_compile(&o),
        strings(&["run", "--rm", "-v", "/ws:/app", "-w", "/app", "executor", "g++", "code.cpp", "-o", "code"])
    );
    let diagnostic = b"code.cpp:1:20: warning: division by zero\nerror: linking failed\n".to_vec();
    o.advance(Event::exited(false, &Vec::new(), &diagnostic));
    let (output, error) = expect_success(&o);
    assert_eq!(output, "");
    assert!(!error.is_empty());
    assert_eq!(error.as_bytes(), diagnostic.as_slice());
    // Nothing reported later reopens the request.
    o.advance(Event::exited(true, &b"late".to_vec(), &Vec::new()));
    o.advance(Event::Written);
    assert_eq!(expect_success(&o), ("".to_string(), String::from_utf8(diagnostic).unwrap()));
}

#[test]
fn python_echoes_input() {
    let mut o = started("python", "print(input())", Some("hello\n"), "/ws");
    o.advance(Event::Written);
    let (_, stdin) = expect_run(&o);
    assert_eq!(stdin, "hello\n");
    o.advance(Event::exited(true, &b"hello\n".to_vec(), &Vec::new()));
    assert_eq!(expect_success(&o), ("hello\n".to_string(), "".to_string()));
}

#[test]
fn unsupported_language_is_rejected() {
    match Orchestrator::start(&request("ruby", "puts 1", None), "/ws") {
        Err(Response::BadRequest { message }) => assert_eq!(message, "Unsupported language"),
        _ => panic!("ruby must be rejected before any step"),
    }
}

#[test]
fn launch_failure_is_server_error_for_every_language() {
    for language in ["python", "rust", "cpp", "typescript", "javascript"] {
        let mut o = started(language, "code", None, "/ws");
        o.advance(Event::Written);
        let compiled = matches!(o.next_step(), Step::Compile { .. });
        o.advance(Event::LaunchFailed { reason: "No such file or directory (os error 2)".to_string() });
        let (output, error) = expect_server_error(&o);
        assert_eq!(output, "");
        if compiled {
            assert_eq!(error, "Compilation failed: No such file or directory (os error 2)");
        } else {
            assert_eq!(error, "Failed to run code: No such file or directory (os error 2)");
        }
    }
}

#[test]
fn run_launch_failure_after_compile() {
    let mut o = started("rust", "fn main() {}", None, "/ws");
    o.advance(Event::Written);
    o.advance(Event::exited(true, &Vec::new(), &Vec::new()));
    let (args, _) = expect_run(&o);
    assert_eq!(args, strings(&["run", "--rm", "-i", "-v", "/ws:/app", "-w", "/app", "executor", "./code"]));
    o.advance(Event::LaunchFailed { reason: "spawn failed".to_string() });
    assert_eq!(expect_server_error(&o), ("".to_string(), "Failed to run code: spawn failed".to_string()));
}

#[test]
fn write_failure_is_server_error() {
    let mut o = started("python", "print(1)", None, "/ws");
    o.advance(Event::WriteFailed { reason: "Permission denied".to_string() });
    assert_eq!(
        expect_server_error(&o),
        ("".to_string(), "Failed to write code file: Permission denied".to_string())
    );
}

#[test]
fn program_failure_passes_through() {
    let mut o = started("python", "raise SystemExit(3)", None, "/ws");
    o.advance(Event::Written);
    o.advance(Event::exited(false, &b"partial".to_vec(), &b"Traceback\n".to_vec()));
    assert_eq!(expect_success(&o), ("partial".to_string(), "Traceback\n".to_string()));
}

#[test]
fn stray_events_are_ignored() {
    let mut o = started("cpp", "int main(){}", None, "/ws");
    o.advance(Event::exited(true, &Vec::new(), &Vec::new()));
    o.advance(Event::LaunchFailed { reason: "x".to_string() });
    assert_eq!(expect_write(&o).0, "/ws/code.cpp");
    o.advance(Event::Written);
    o.advance(Event::Written);
    o.advance(Event::WriteFailed { reason: "x".to_string() });
    assert_eq!(expect_compile(&o).len(), 11);
}

#[test]
fn invalid_utf8_is_replaced() {
    match Event::exited(true, &vec![b'o', 0xff, b'k'], &vec![0xc3]) {
        Event::Exited { success, stdout, stderr } => {
            assert!(success);
            assert_eq!(stdout, "o\u{FFFD}k");
            assert_eq!(stderr, "\u{FFFD}");
        }
        _ => panic!("expected an exit event"),
    }
}

#[test]
fn language_is_case_insensitive_in_requests() {
    let o = started("PyThOn", "print(1)", None, "/ws");
    assert_eq!(expect_write(&o).0, "/ws/code.py");
}

#[test]
fn same_request_twice_same_answer() {
    let run = || {
        let mut o = started("python", "print(input())", Some("abc\n"), "/ws");
        let mut seen = Vec::new();
        seen.push(expect_write(&o));
        o.advance(Event::Written);
        let (args, stdin) = expect_run(&o);
        seen.push((args.join(" "), stdin));
        o.advance(Event::exited(true, &b"abc\n".to_vec(), &Vec::new()));
        seen.push(expect_success(&o));
        seen
    };
    assert_eq!(run(), run());
}

#[test]
fn distinct_workspaces_do_not_share_files() {
    let mut a = started("python", "print('a')", None, "/tmp/req-1");
    let mut b = started("python", "print('b')", None, "/tmp/req-2");
    let (pa, ca) = expect_write(&a);
    let (pb, cb) = expect_write(&b);
    assert_ne!(pa, pb);
    assert_eq!(ca, "print('a')");
    assert_eq!(cb, "print('b')");
    a.advance(Event::Written);
    b.advance(Event::Written);
    let (args_a, _) = expect_run(&a);
    let (args_b, _) = expect_run(&b);
    assert_eq!(args_a[4], "/tmp/req-1:/app");
    assert_eq!(args_b[4], "/tmp/req-2:/app");
}

#[test]
fn response_duplicate_keeps_fields() {
    let mut o = started("python", "print(1)", None, "/ws");
    o.advance(Event::Written);
    o.advance(Event::exited(true, &b"1\n".to_vec(), &b"w".to_vec()));
    let first = expect_response(&o);
    match first.duplicate() {
        Response::Success { result } => {
            assert_eq!(result.output, "1\n");
            assert_eq!(result.error, "w");
        }
        _ => panic!("expected a success response"),
    }
}
