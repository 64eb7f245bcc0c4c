use std::path::Path;

use mustang_cli::cli::classify_exit;
use mustang_cli::defs::{Config, Format, Language, ProfileV1, ProfileV2};
use mustang_cli::error::MustangError;
use mustang_cli::file_handle::{FileInput, FileOutput};
use mustang_cli::{Invocation, MustangCLI, ProcessOutput, RunnerMustangCLI};

fn strings(args: &[&str]) -> Vec<String> {
    args.iter().map(|a| a.to_string()).collect()
}

fn resolved(path: &str) -> Result<String, std::io::Error> {
    Ok(path.to_string())
}

/// A runner on a jar, as if both paths had resolved.
fn cli() -> MustangCLI {
    MustangCLI::from_jar(resolved("/jdk/bin/java"), resolved("/opt/Mustang-CLI-2.20.0.jar"), vec![])
        .unwrap()
        .with_log_print()
}

fn exe() -> MustangCLI {
    MustangCLI::from_graalvm_exe(resolved("/opt/Mustang-CLI-2.20.0"), vec![]).unwrap()
}

fn input(path: &str) -> FileInput {
    FileInput::from_path(path, true).unwrap()
}

fn temp_output(path: &str) -> FileOutput {
    FileOutput::temp(Ok(path.to_string())).unwrap()
}

fn exited(code: i32, stdout: &[u8], stderr: &[u8]) -> ProcessOutput {
    ProcessOutput { status: Some(code), stdout: stdout.to_vec(), stderr: stderr.to_vec() }
}

fn assert_run(run: &Invocation, program: &str, args: &[&str]) {
    assert_eq!(run.program, program);
    assert_eq!(run.args, strings(args));
}

const JAR_PREFIX: [&str; 5] =
    ["-jar", "/opt/Mustang-CLI-2.20.0.jar", "--action", "", "--disable-file-logging"];

fn jar_args(action: &str, flags: &[&str]) -> Vec<String> {
    let mut args = strings(&JAR_PREFIX);
    args[3] = action.to_string();
    args.extend(strings(flags));
    args
}

#[test]
fn test_extract_xml_from_pdf() {
    let cli = cli();
    let sample = "samples/ZF24_DE/Beispiele/1. Rechnungen/EN16931_Einfach/EN16931_Einfach_fx.pdf";
    let input = input(sample);
    let mut output = temp_output("/tmp/.tmpExtract");

    let run = cli.extract_xml_from_pdf(&input, &mut output);
    assert_eq!(run.program, "/jdk/bin/java");
    assert_eq!(
        run.args,
        jar_args("extract", &["--source", sample, "--out", "/tmp/.tmpExtract"])
    );
    assert_eq!(output.path(), "/tmp/.tmpExtract");
    cli.finish_command(Ok(exited(0, b"", b""))).unwrap();
}

#[test]
fn test_add_xml_to_pdf() {
    let cli = cli();
    let xml = input("samples/EN16931_Einfach.xml");
    let pdf_input = input("samples/sample.pdf");
    let mut output = temp_output("/tmp/.tmpCombined");

    let run = cli.combine_xml_and_pdf(
        &pdf_input,
        &xml,
        &mut output,
        Format::Zugferd,
        Config::FacturXOrZugferdV2 { profile: ProfileV2::EN16931 },
        &[],
    );
    assert_eq!(run.program, "/jdk/bin/java");
    assert_eq!(
        run.args,
        jar_args(
            "combine",
            &[
                "--source",
                "samples/sample.pdf",
                "--source-xml",
                "samples/EN16931_Einfach.xml",
                "--out",
                "/tmp/.tmpCombined",
                "--format",
                "zf",
                "--version",
                "2",
                "--profile",
                "E",
                "--no-additional-attachments",
                "--attachments",
                "",
            ]
        )
    );
    cli.finish_command(Ok(exited(0, b"", b""))).unwrap();

    // extract it again
    let input: FileInput = output.into();
    assert!(matches!(&input, FileInput::Temp(p) if p == "/tmp/.tmpCombined"));
    let mut output = temp_output("/tmp/.tmpExtracted");
    let run = cli.extract_xml_from_pdf(&input, &mut output);
    assert_eq!(
        run.args,
        jar_args("extract", &["--source", "/tmp/.tmpCombined", "--out", "/tmp/.tmpExtracted"])
    );
    cli.finish_command(Ok(exited(0, b"", b""))).unwrap();
}

#[test]
fn test_validate() {
    let cli = cli();

    let xml = input("samples/EN16931_Einfach.xml");
    let run = cli.validate(&xml, false, None, false);
    assert_eq!(run.program, "/jdk/bin/java");
    assert_eq!(run.args, jar_args("validate", &["--source", "samples/EN16931_Einfach.xml"]));
    cli.finish_command(Ok(exited(0, b"", b""))).unwrap();

    let pdf = input("samples/EN16931_Einfach_fx.pdf");
    let run = cli.validate(&pdf, false, None, false);
    assert_eq!(run.args, jar_args("validate", &["--source", "samples/EN16931_Einfach_fx.pdf"]));
    cli.finish_command(Ok(exited(0, b"", b""))).unwrap();
}

#[test]
fn nonexistent_engine_is_not_found() {
    let missing = Path::new("no/such/Mustang-CLI").canonicalize();
    assert!(missing.is_err());
    let resolved = missing.map(|p| p.to_string_lossy().into_owned());
    match MustangCLI::from_graalvm_exe(resolved, vec![]) {
        Err(MustangError::ExecutableOrJavaNotFound(error)) => {
            assert_eq!(error.kind(), std::io::ErrorKind::NotFound)
        }
        other => panic!("unexpected: {:?}", other),
    }
}

fn not_found(what: &str) -> Result<String, std::io::Error> {
    Err(std::io::Error::new(std::io::ErrorKind::NotFound, what.to_string()))
}

#[test]
fn jar_runner_needs_launcher_and_jar() {
    match MustangCLI::from_jar(not_found("java"), resolved("/m.jar"), vec![]) {
        Err(MustangError::ExecutableOrJavaNotFound(e)) => assert_eq!(e.to_string(), "java"),
        other => panic!("unexpected: {:?}", other),
    }
    match MustangCLI::from_jar(resolved("/java"), not_found("jar"), vec![]) {
        Err(MustangError::ExecutableOrJavaNotFound(e)) => assert_eq!(e.to_string(), "jar"),
        other => panic!("unexpected: {:?}", other),
    }
    match MustangCLI::from_jar(not_found("java"), not_found("jar"), vec![]) {
        Err(MustangError::ExecutableOrJavaNotFound(e)) => assert_eq!(e.to_string(), "java"),
        other => panic!("unexpected: {:?}", other),
    }
}

#[test]
fn constructors_keep_what_they_are_given() {
    let cli = MustangCLI::from_graalvm_exe(resolved("/bin/m"), strings(&["-v", "-q"])).unwrap();
    assert!(!cli.log_print());
    match cli.runner() {
        RunnerMustangCLI::Exe { bin, extra_args } => {
            assert_eq!(bin, "/bin/m");
            assert_eq!(*extra_args, strings(&["-v", "-q"]));
        }
        other => panic!("unexpected: {:?}", other),
    }

    let cli = MustangCLI::from_jar(resolved("/java"), resolved("/m.jar"), strings(&["-Xmx1g"]))
        .unwrap();
    assert!(!cli.log_print());
    match cli.runner() {
        RunnerMustangCLI::Jar { java_path, jar_path, java_args } => {
            assert_eq!(java_path, "/java");
            assert_eq!(jar_path, "/m.jar");
            assert_eq!(*java_args, strings(&["-Xmx1g"]));
        }
        other => panic!("unexpected: {:?}", other),
    }
}

#[test]
fn with_log_print_switches_logging_on_and_keeps_the_runner() {
    let cli = exe().with_log_print();
    assert!(cli.log_print());
    assert!(matches!(
        cli.runner(),
        RunnerMustangCLI::Exe { bin, .. } if bin == "/opt/Mustang-CLI-2.20.0"
    ));
}

#[test]
fn exe_invocation_starts_with_the_extra_arguments() {
    let cli = MustangCLI::from_graalvm_exe(resolved("/bin/m"), strings(&["-Dx=1", "-q"])).unwrap();
    let mut output = temp_output("/tmp/o.xml");
    let run = cli.ubl(&input("in.xml"), &mut output);
    assert_run(
        &run,
        "/bin/m",
        &[
            "-Dx=1",
            "-q",
            "--action",
            "ubl",
            "--disable-file-logging",
            "--source",
            "in.xml",
            "--out",
            "/tmp/o.xml",
        ],
    );
}

#[test]
fn jar_invocation_starts_with_launcher_arguments_and_jar() {
    let cli = MustangCLI::from_jar(resolved("/java"), resolved("/m.jar"), strings(&["-Xmx1g"]))
        .unwrap();
    let mut output = temp_output("/tmp/o.pdf");
    let run = cli.upgrade(&input("in.xml"), &mut output);
    assert_run(
        &run,
        "/java",
        &[
            "-Xmx1g",
            "-jar",
            "/m.jar",
            "--action",
            "upgrade",
            "--disable-file-logging",
            "--source",
            "in.xml",
            "--out",
            "/tmp/o.pdf",
        ],
    );
}

#[test]
fn source_and_out_actions() {
    let cli = exe();
    let input = input("in.pdf");
    let mut output = FileOutput::Path("/d/out.pdf".to_string());
    let flags = ["--source", "in.pdf", "--out", "/d/out.pdf"];
    let header = |action: &str| {
        let mut args = strings(&["--action", action, "--disable-file-logging"]);
        args.extend(strings(&flags));
        args
    };
    assert_eq!(cli.extract_xml_from_pdf(&input, &mut output).args, header("extract"));
    assert_eq!(cli.a3_only(&input, &mut output).args, header("a3only"));
    assert_eq!(cli.ubl(&input, &mut output).args, header("ubl"));
    assert_eq!(cli.upgrade(&input, &mut output).args, header("upgrade"));
    assert_eq!(cli.xml_to_pdf(&input, &mut output).args, header("pdf"));
    assert!(matches!(&output, FileOutput::Path(p) if p == "/d/out.pdf"));
}

#[test]
fn combine_joins_attachments_with_commas() {
    let cli = exe();
    let mut output = temp_output("/tmp/o.pdf");
    let attachments = [input("a.txt"), input("dir/b.png"), input("c")];
    let run = cli.combine_xml_and_pdf(
        &input("in.pdf"),
        &input("in.xml"),
        &mut output,
        Format::OrderX,
        Config::OrderX { profile: ProfileV1::COMFORT },
        &attachments,
    );
    assert_run(
        &run,
        "/opt/Mustang-CLI-2.20.0",
        &[
            "--action",
            "combine",
            "--disable-file-logging",
            "--source",
            "in.pdf",
            "--source-xml",
            "in.xml",
            "--out",
            "/tmp/o.pdf",
            "--format",
            "ox",
            "--version",
            "1",
            "--profile",
            "C",
            "--no-additional-attachments",
            "--attachments",
            "a.txt,dir/b.png,c",
        ],
    );
}

#[test]
fn combine_with_one_attachment_has_no_comma() {
    let cli = exe();
    let mut output = temp_output("/tmp/o.pdf");
    let run = cli.combine_xml_and_pdf(
        &input("in.pdf"),
        &input("in.xml"),
        &mut output,
        Format::FacturX,
        Config::FacturXOrZugferdV2 { profile: ProfileV2::XRechnung },
        &[input("only.txt")],
    );
    assert_eq!(run.args[9..], strings(&[
        "--format",
        "fx",
        "--version",
        "2",
        "--profile",
        "X",
        "--no-additional-attachments",
        "--attachments",
        "only.txt",
    ]));
}

#[test]
fn validate_adds_each_option_asked_for() {
    let cli = exe();
    let input = input("in.xml");
    let head = ["--action", "validate", "--disable-file-logging", "--source", "in.xml"];
    let with = |flags: &[&str]| {
        let mut args = strings(&head);
        args.extend(strings(flags));
        args
    };
    assert_eq!(cli.validate(&input, false, None, false).args, with(&[]));
    assert_eq!(cli.validate(&input, true, None, false).args, with(&["--no-notices"]));
    assert_eq!(cli.validate(&input, false, Some("tag"), false).args, with(&["--logAppend", "tag"]));
    assert_eq!(cli.validate(&input, false, None, true).args, with(&["--log-as-pdf"]));
    assert_eq!(
        cli.validate(&input, true, Some("run 7"), true).args,
        with(&["--no-notices", "--logAppend", "run 7", "--log-as-pdf"])
    );
}

#[test]
fn visualize_names_the_language() {
    let cli = exe();
    let mut output = temp_output("/tmp/o.html");
    for (language, token) in [(Language::En, "en"), (Language::Fr, "fr"), (Language::De, "de")] {
        let run = cli.visualize(&input("in.xml"), &mut output, language);
        assert_run(
            &run,
            "/opt/Mustang-CLI-2.20.0",
            &[
                "--action",
                "visualize",
                "--disable-file-logging",
                "--source",
                "in.xml",
                "--out",
                "/tmp/o.html",
                "--language",
                token,
            ],
        );
    }
}

#[test]
fn zero_exit_is_success() {
    assert!(exe().handle_output(exited(0, b"done", b"warning")).is_ok());
    assert!(classify_exit(Some(0), "done".to_string(), "warning".to_string()).is_ok());
}

#[test]
fn nonzero_exit_carries_status_and_both_streams() {
    match exe().handle_output(exited(255, b"line 1\nline 2\n", b"Exception in thread \"main\"")) {
        Err(MustangError::ExecutionFailed { status, stdout, stderr }) => {
            assert_eq!(status, Some(255));
            assert_eq!(stdout, "line 1\nline 2\n");
            assert_eq!(stderr, "Exception in thread \"main\"");
        }
        other => panic!("unexpected: {:?}", other),
    }
    match classify_exit(Some(-1), "o".to_string(), "e".to_string()) {
        Err(MustangError::ExecutionFailed { status, stdout, stderr }) => {
            assert_eq!((status, stdout.as_str(), stderr.as_str()), (Some(-1), "o", "e"));
        }
        other => panic!("unexpected: {:?}", other),
    }
}

#[test]
fn exit_without_code_is_a_failure() {
    let output = ProcessOutput { status: None, stdout: vec![], stderr: b"killed".to_vec() };
    match exe().handle_output(output) {
        Err(MustangError::ExecutionFailed { status, stdout, stderr }) => {
            assert_eq!((status, stdout.as_str(), stderr.as_str()), (None, "", "killed"));
        }
        other => panic!("unexpected: {:?}", other),
    }
}

#[test]
fn invalid_bytes_are_replaced_in_the_captured_text() {
    match exe().handle_output(exited(1, b"ok \xff end", "gr\u{fc}n".as_bytes())) {
        Err(MustangError::ExecutionFailed { stdout, stderr, .. }) => {
            assert_eq!(stdout, "ok \u{fffd} end");
            assert_eq!(stderr, "gr\u{fc}n");
        }
        other => panic!("unexpected: {:?}", other),
    }
}

#[test]
fn failed_launch_surfaces_as_io_error() {
    let error = std::io::Error::new(std::io::ErrorKind::PermissionDenied, "not executable");
    match exe().finish_command(Err(error)) {
        Err(MustangError::Io(error)) => {
            assert_eq!(error.kind(), std::io::ErrorKind::PermissionDenied)
        }
        other => panic!("unexpected: {:?}", other),
    }
}

#[test]
fn finished_run_is_judged_by_its_exit() {
    assert!(exe().finish_command(Ok(exited(0, b"", b""))).is_ok());
    assert!(matches!(
        exe().finish_command(Ok(exited(2, b"", b"bad"))),
        Err(MustangError::ExecutionFailed { status: Some(2), .. })
    ));
}

#[test]
fn only_a_logging_runner_has_something_to_print() {
    let output = exited(0, b"out text", b"err text");
    assert_eq!(exe().log_output(&output), None);
    assert_eq!(
        exe().with_log_print().log_output(&output),
        Some("Mustang CLI stdout:\nout text\nMustang CLI stderr:\nerr text\n".to_string())
    );
    assert_eq!(
        MustangCLI::log_lines("a", ""),
        "Mustang CLI stdout:\na\nMustang CLI stderr:\n\n"
    );
}

#[test]
fn one_runner_serves_many_runs_with_their_own_outputs() {
    let cli = cli();
    let input = input("in.pdf");
    let runs: Vec<Invocation> = (0..8)
        .map(|i| {
            let mut output = temp_output(&format!("/tmp/out{}", i));
            cli.extract_xml_from_pdf(&input, &mut output)
        })
        .collect();
    for (i, run) in runs.iter().enumerate() {
        assert_eq!(run.program, "/jdk/bin/java");
        assert_eq!(
            run.args,
            jar_args("extract", &["--source", "in.pdf", "--out", &format!("/tmp/out{}", i)])
        );
    }
}
