use pgdatum::command::{compile_command, host_dir, link_command, split_spaces, ProcessOutput};
use pgdatum::driver::{Action, Event, Pipeline, Stage};
use pgdatum::error::{Artifact, BuildError, HostQuery};
use pgdatum::layout::join_path_exec;
use pgdatum::manifest::ExtensionInfo;

fn demo() -> ExtensionInfo {
    ExtensionInfo {
        name: "demo".to_string(),
        description: "x".to_string(),
        version: "0.1.0".to_string(),
    }
}

fn exited(success: bool, stdout: &[u8], stderr: &[u8]) -> Event {
    Event::Exited(ProcessOutput { success, stdout: stdout.to_vec(), stderr: stderr.to_vec() })
}

const SQL: &str = "create function add(a integer, b integer) returns integer as 'file.so','function' language c strict;";

#[test]
fn descriptor_text_layout() {
    let text = demo().descriptor_text();
    assert_eq!(
        text,
        "# demo extension\ncomment = 'x'\ndefault_version = '0.1.0'\nmodule_pathname = '$libdir/demo'\nrelocatable=true\n"
    );
}

#[test]
fn descriptor_round_trip() {
    let text = demo().descriptor_text();
    let value = |key: &str| -> String {
        let opening = format!("{} = '", key);
        let line = text.lines().find(|l| l.starts_with(&opening)).unwrap();
        line[opening.len()..line.len() - 1].to_string()
    };
    assert_eq!(value("comment"), "x");
    assert_eq!(value("default_version"), "0.1.0");
    assert_eq!(value("module_pathname"), "$libdir/demo");
    let parsed: toml::Value = text.parse().unwrap();
    assert_eq!(parsed.get("comment").and_then(|v| v.as_str()), Some("x"));
    assert_eq!(parsed.get("default_version").and_then(|v| v.as_str()), Some("0.1.0"));
    assert_eq!(parsed.get("module_pathname").and_then(|v| v.as_str()), Some("$libdir/demo"));
}

#[test]
fn file_names() {
    let i = demo();
    assert_eq!(i.script_name(), "demo--0.1.0.sql");
    assert_eq!(i.descriptor_name(), "demo.control");
    assert_eq!(i.source_name(), "demo.c");
    assert_eq!(i.object_name(), "demo.o");
    assert_eq!(i.library_name(), "libdemo.so");
    assert_eq!(i.archive_path(), "target/release/libdemo.a");
}

#[test]
fn joining_paths() {
    assert_eq!(join_path_exec("out", "a.c"), "out/a.c");
    assert_eq!(join_path_exec("out/", "a.c"), "out/a.c");
    assert_eq!(join_path_exec("", "a.c"), "a.c");
}

#[test]
fn extra_flags_split_on_single_spaces() {
    assert_eq!(split_spaces("-lm -lz"), vec!["-lm", "-lz"]);
    assert_eq!(split_spaces("a  b"), vec!["a", "", "b"]);
    assert_eq!(split_spaces(""), vec![""]);
    assert_eq!(split_spaces(" x "), vec!["", "x", ""]);
}

#[test]
fn compile_arguments() {
    let args = compile_command("t/demo.c", "t/demo.o", "/usr/include/pg/server", &demo());
    assert_eq!(
        args,
        vec!["-c", "t/demo.c", "-fPIC", "-o", "t/demo.o", "-I/usr/include/pg/server", "-Ltarget/release", "-ldemo"]
    );
}

#[test]
fn link_arguments() {
    let base = vec![
        "t/demo.o", "-shared", "-o", "t/libdemo.so", "-Wl,--whole-archive", "target/release/libdemo.a",
        "-Wl,--no-whole-archive",
    ];
    assert_eq!(link_command("t/demo.o", "t/libdemo.so", &demo(), None), base);
    let mut with_extra = base.clone();
    with_extra.extend(["-lm", "-lpthread"]);
    assert_eq!(link_command("t/demo.o", "t/libdemo.so", &demo(), Some("-lm -lpthread")), with_extra);
}

#[test]
fn host_dir_is_trimmed_output() {
    let o = ProcessOutput { success: true, stdout: b"  /usr/include/server \n".to_vec(), stderr: Vec::new() };
    assert_eq!(host_dir(&o, HostQuery::IncludeDir).unwrap(), "/usr/include/server");
}

#[test]
fn host_dir_fails_on_failed_run() {
    let o = ProcessOutput { success: false, stdout: b"/x\n".to_vec(), stderr: Vec::new() };
    assert!(matches!(
        host_dir(&o, HostQuery::ShareDir),
        Err(BuildError::HostConfigUnavailable(HostQuery::ShareDir))
    ));
}

#[test]
fn host_dir_fails_on_invalid_text() {
    let o = ProcessOutput { success: true, stdout: vec![0xff, 0xfe], stderr: Vec::new() };
    assert!(matches!(
        host_dir(&o, HostQuery::ModuleDir),
        Err(BuildError::HostConfigUnavailable(HostQuery::ModuleDir))
    ));
}

#[test]
fn host_query_flags() {
    assert_eq!(HostQuery::IncludeDir.flag(), "--includedir-server");
    assert_eq!(HostQuery::ModuleDir.flag(), "--pkglibdir");
    assert_eq!(HostQuery::ShareDir.flag(), "--sharedir");
}

fn started() -> (Pipeline, Action) {
    Pipeline::start("t".to_string(), "proj/sql/demo.sql", SQL.to_string(), demo(), Some("-lm".to_string()))
}

/// Drives a fresh run up to the compile step.
fn at_compile() -> Pipeline {
    let (mut p, _) = started();
    p.advance(Event::Done);
    p.advance(Event::Done);
    p.advance(Event::Done);
    p.advance(exited(true, b"/inc\n", b""));
    assert_eq!(p.stage(), Stage::Compile);
    p
}

#[test]
fn successful_run_asks_for_each_step_in_order() {
    let (mut p, a) = started();
    assert!(matches!(&a, Action::CopyFile { from, to } if from == "proj/sql/demo.sql" && to == "t/demo--0.1.0.sql"));
    let a = p.advance(Event::Done);
    assert!(matches!(&a, Action::WriteFile { path, contents } if path == "t/demo.control" && contents.starts_with("# demo extension\n")));
    let a = p.advance(Event::Done);
    assert!(matches!(&a, Action::WriteFile { path, contents } if path == "t/demo.c" && contents.ends_with("PG_FUNCTION_INFO_V1(add);\n\n")));
    let a = p.advance(Event::Done);
    assert!(matches!(a, Action::QueryHost(HostQuery::IncludeDir)));
    let a = p.advance(exited(true, b"/inc\n", b""));
    assert!(matches!(&a, Action::RunCompiler(args) if args[5] == "-I/inc" && args[1] == "t/demo.c"));
    let a = p.advance(exited(true, b"", b""));
    assert!(matches!(&a, Action::RunCompiler(args) if args[0] == "t/demo.o" && args.last().unwrap() == "-lm"));
    let a = p.advance(exited(true, b"", b""));
    assert!(matches!(a, Action::QueryHost(HostQuery::ModuleDir)));
    let a = p.advance(exited(true, b"/lib/pg\n", b""));
    assert!(matches!(a, Action::QueryHost(HostQuery::ShareDir)));
    let a = p.advance(exited(true, b"/share/pg\n", b""));
    assert!(matches!(&a, Action::CopyFile { from, to } if from == "t/libdemo.so" && to == "/lib/pg/libdemo.so"));
    let a = p.advance(Event::Done);
    assert!(matches!(&a, Action::CopyFile { from, to } if from == "t/demo--0.1.0.sql" && to == "/share/pg/extension/demo--0.1.0.sql"));
    let a = p.advance(Event::Done);
    assert!(matches!(&a, Action::CopyFile { from, to } if from == "t/demo.control" && to == "/share/pg/extension/demo.control"));
    let a = p.advance(Event::Done);
    assert!(matches!(a, Action::Finished));
    assert_eq!(p.stage(), Stage::Finished);
    assert!(!p.accepts(&Event::Done));
}

#[test]
fn compile_failure_stops_the_run_with_diagnostics() {
    let mut p = at_compile();
    let diagnostics = b"demo.c:1: error: expected ';'\n\xff".to_vec();
    let a = p.advance(exited(false, b"", &diagnostics));
    match a {
        Action::Failed(BuildError::CompileFailed(d)) => assert_eq!(d, diagnostics),
        other => panic!("unexpected action {:?}", other),
    }
    assert_eq!(p.stage(), Stage::Failed);
    assert!(!p.accepts(&Event::Done));
    assert!(!p.accepts(&exited(true, b"", b"")));
    assert!(!p.accepts(&Event::IoFailed("x".to_string())));
}

#[test]
fn compiler_that_cannot_start_fails_the_compile() {
    let mut p = at_compile();
    match p.advance(Event::IoFailed("no such file".to_string())) {
        Action::Failed(BuildError::CompileFailed(d)) => assert_eq!(d, b"no such file".to_vec()),
        other => panic!("unexpected action {:?}", other),
    }
}

#[test]
fn link_failure_carries_diagnostics() {
    let mut p = at_compile();
    p.advance(exited(true, b"", b""));
    match p.advance(exited(false, b"", b"undefined symbol")) {
        Action::Failed(BuildError::LinkFailed(d)) => assert_eq!(d, b"undefined symbol".to_vec()),
        other => panic!("unexpected action {:?}", other),
    }
}

#[test]
fn metadata_write_failure() {
    let (mut p, _) = started();
    let a = p.advance(Event::IoFailed("denied".to_string()));
    assert!(matches!(a, Action::Failed(BuildError::MetadataWriteFailed(m)) if m == "denied"));
}

#[test]
fn descriptor_write_failure() {
    let (mut p, _) = started();
    p.advance(Event::Done);
    let a = p.advance(Event::IoFailed("full".to_string()));
    assert!(matches!(a, Action::Failed(BuildError::MetadataWriteFailed(m)) if m == "full"));
}

#[test]
fn source_write_failure() {
    let (mut p, _) = started();
    p.advance(Event::Done);
    p.advance(Event::Done);
    let a = p.advance(Event::IoFailed("full".to_string()));
    assert!(matches!(a, Action::Failed(BuildError::SourceWriteFailed(m)) if m == "full"));
}

#[test]
fn scan_failure_after_metadata() {
    let (mut p, _) = Pipeline::start("t".to_string(), "s.sql", "select 'open".to_string(), demo(), None);
    p.advance(Event::Done);
    let a = p.advance(Event::Done);
    assert!(matches!(a, Action::Failed(BuildError::ScanFailed(_))));
    assert_eq!(p.stage(), Stage::Failed);
}

#[test]
fn include_query_failure() {
    let (mut p, _) = started();
    p.advance(Event::Done);
    p.advance(Event::Done);
    p.advance(Event::Done);
    let a = p.advance(exited(false, b"", b"oops"));
    assert!(matches!(a, Action::Failed(BuildError::HostConfigUnavailable(HostQuery::IncludeDir))));
}

#[test]
fn deploy_failure_names_the_artifact() {
    let mut p = at_compile();
    p.advance(exited(true, b"", b""));
    p.advance(exited(true, b"", b""));
    p.advance(exited(true, b"/lib\n", b""));
    p.advance(exited(true, b"/share\n", b""));
    p.advance(Event::Done);
    let a = p.advance(Event::IoFailed("read-only".to_string()));
    assert!(matches!(a, Action::Failed(BuildError::DeployFailed(Artifact::SqlScript, m)) if m == "read-only"));
}

#[test]
fn run_accepts_only_outcomes_of_its_step() {
    let (p, _) = started();
    assert!(p.accepts(&Event::Done));
    assert!(!p.accepts(&exited(true, b"", b"")));
    let q = at_compile();
    assert!(!q.accepts(&Event::Done));
    assert!(q.accepts(&exited(false, b"", b"")));
}
