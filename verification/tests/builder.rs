use genlink::{conclude, CmdOutput, GenLink, IoError, Ld, LinkError, OutputFormat};

fn missing(name: &str) -> IoError {
    IoError { os_code: Some(2), message: format!("{} not found", name) }
}

fn exited(code: i32) -> CmdOutput {
    CmdOutput { code: Some(code), stdout: Vec::new(), stderr: Vec::new() }
}

#[test]
fn new_builder_starts_from_backend_defaults() {
    let g = GenLink::new(Ld);
    assert_eq!(g.command_ref().program, "ld");
    assert!(g.command_ref().args.is_empty());
    assert_eq!(g.destination(), "a.out");
}

#[test]
fn output_overwrites_destination() {
    let mut g = GenLink::new(Ld);
    g.output("first".to_string());
    assert_eq!(g.destination(), "first");
    g.output("second".to_string());
    assert_eq!(g.destination(), "second");
}

#[test]
fn obj_appends_resolved_path_verbatim() {
    let mut g = GenLink::new(Ld);
    let r = g.obj(Ok("/tmp/x.o".to_string()));
    assert!(r.is_ok());
    assert_eq!(g.command_ref().args, vec!["/tmp/x.o".to_string()]);
}

#[test]
fn obj_failed_resolution_changes_nothing() {
    let mut g = GenLink::new(Ld);
    let r = g.obj(Err(missing("x.o")));
    assert_eq!(r, Err(LinkError::IO(missing("x.o"))));
    assert!(g.command_ref().args.is_empty());
    // The builder stays usable, and later calls see no trace of the
    // failed one.
    g.dylib("m");
    assert_eq!(
        g.command_ref().args,
        vec!["-Bdynamic".to_string(), "-l".to_string(), "m".to_string()]
    );
}

#[test]
fn objs_appends_all_in_order() {
    let mut g = GenLink::new(Ld);
    let r = g.objs(vec![Ok("a.o".to_string()), Ok("b.o".to_string())]);
    assert!(r.is_ok());
    assert_eq!(g.command_ref().args, vec!["a.o".to_string(), "b.o".to_string()]);
}

#[test]
fn objs_stops_at_first_failure() {
    let mut g = GenLink::new(Ld);
    let r = g.objs(vec![
        Ok("a.o".to_string()),
        Err(missing("b.o")),
        Ok("c.o".to_string()),
    ]);
    assert_eq!(r, Err(LinkError::IO(missing("b.o"))));
    // Only the objects before the failure were handed to the backend.
    assert_eq!(g.command_ref().args, vec!["a.o".to_string()]);
}

#[test]
fn dylib_and_staticlib_use_distinct_groups() {
    let mut g = GenLink::new(Ld);
    g.dylib("m");
    g.staticlib("c");
    assert_eq!(
        g.command_ref().args,
        vec![
            "-Bdynamic".to_string(),
            "-l".to_string(),
            "m".to_string(),
            "-Bstatic".to_string(),
            "-l".to_string(),
            "c".to_string(),
        ]
    );
}

#[test]
fn paths_append_in_iteration_order() {
    let mut g = GenLink::new(Ld);
    g.path("/usr/lib");
    g.paths(vec!["/lib".to_string(), "/opt/lib".to_string()]);
    assert_eq!(
        g.command_ref().args,
        vec![
            "-L".to_string(),
            "/usr/lib".to_string(),
            "-L".to_string(),
            "/lib".to_string(),
            "-L".to_string(),
            "/opt/lib".to_string(),
        ]
    );
}

#[test]
fn finalize_appends_format_then_destination_last() {
    let mut g = GenLink::new(Ld);
    g.format(OutputFormat::StaticExe);
    g.dylib("m");
    let r = g.finalize(Ok("/tmp/prog".to_string()));
    assert_eq!(r, Ok("/tmp/prog".to_string()));
    assert_eq!(
        g.command_ref().args,
        vec![
            "-Bdynamic".to_string(),
            "-l".to_string(),
            "m".to_string(),
            "-static".to_string(),
            "-o".to_string(),
            "/tmp/prog".to_string(),
        ]
    );
}

#[test]
fn finalize_failed_resolution_changes_nothing() {
    let mut g = GenLink::new(Ld);
    g.path("/usr/lib");
    let r = g.finalize(Err(missing("a.out")));
    assert_eq!(r, Err(LinkError::IO(missing("a.out"))));
    assert_eq!(g.command_ref().args, vec!["-L".to_string(), "/usr/lib".to_string()]);
}

#[test]
fn conclude_success_returns_canonical_destination() {
    let r = conclude("/tmp/prog".to_string(), Ok(exited(0)));
    assert_eq!(r, Ok("/tmp/prog".to_string()));
}

#[test]
fn conclude_failure_carries_captured_status() {
    let mut out = exited(3);
    out.stderr = b"undefined symbol".to_vec();
    let r = conclude("/tmp/prog".to_string(), Ok(out));
    match r {
        Err(LinkError::Cmd(captured)) => {
            assert_eq!(captured.code, Some(3));
            assert_eq!(captured.stderr, b"undefined symbol".to_vec());
        }
        other => panic!("expected a command failure, got {:?}", other),
    }
}

#[test]
fn conclude_spawn_failure_is_an_io_error() {
    let r = conclude("/tmp/prog".to_string(), Err(missing("ld")));
    assert_eq!(r, Err(LinkError::IO(missing("ld"))));
}

#[test]
fn end_to_end_command_reflects_call_order() {
    let mut g = GenLink::new(Ld);
    g.obj(Ok("a.o".to_string())).unwrap();
    g.obj(Ok("b.o".to_string())).unwrap();
    g.dylib("m");
    g.path("/usr/lib");
    g.output("a.out".to_string());
    let dest = g.destination().clone();
    let r = g.finalize(Ok(dest));
    assert_eq!(r, Ok("a.out".to_string()));
    let cmd = g.command_ref();
    assert_eq!(cmd.program, "ld");
    assert_eq!(
        cmd.args,
        vec![
            "a.o".to_string(),
            "b.o".to_string(),
            "-Bdynamic".to_string(),
            "-l".to_string(),
            "m".to_string(),
            "-L".to_string(),
            "/usr/lib".to_string(),
            "-o".to_string(),
            "a.out".to_string(),
        ]
    );
    let done = conclude(r.unwrap(), Ok(exited(0)));
    assert_eq!(done, Ok("a.out".to_string()));
}
