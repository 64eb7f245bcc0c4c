use mustang_cli::error::MustangError;
use mustang_cli::file_utils::{build_rs_mustang_cli, jar, java_launcher, jre_home};
use mustang_cli::target::target_translate;
use mustang_cli::RunnerMustangCLI;

#[test]
fn bundled_runtime_lives_in_the_output_directory() {
    assert_eq!(jre_home("/build/out"), "/build/out/jre");
    assert_eq!(jre_home("/build/out/"), "/build/out/jre");
    assert_eq!(jre_home("out"), "out/jre");
}

#[test]
fn bundled_jar_lives_in_the_output_directory() {
    assert_eq!(jar("/build/out"), "/build/out/Mustang-CLI-2.20.0.jar");
    assert_eq!(jar("out"), "out/Mustang-CLI-2.20.0.jar");
}

#[test]
fn launcher_lives_in_the_runtime() {
    assert_eq!(java_launcher("/build/out/jre"), "/build/out/jre/bin/java");
    assert_eq!(java_launcher(&jre_home("/build/out")), "/build/out/jre/bin/java");
}

#[test]
fn bundled_runner_is_a_jar_runner_without_launcher_arguments() {
    let cli = build_rs_mustang_cli(Ok("/o/jre/bin/java".to_string()), Ok("/o/m.jar".to_string()))
        .unwrap();
    assert!(!cli.log_print());
    match cli.runner() {
        RunnerMustangCLI::Jar { java_path, jar_path, java_args } => {
            assert_eq!(java_path, "/o/jre/bin/java");
            assert_eq!(jar_path, "/o/m.jar");
            assert!(java_args.is_empty());
        }
        other => panic!("unexpected: {:?}", other),
    }
}

#[test]
fn bundled_runner_needs_both_files() {
    let missing = std::io::Error::new(std::io::ErrorKind::NotFound, "gone");
    assert!(matches!(
        build_rs_mustang_cli(Err(missing), Ok("/o/m.jar".to_string())),
        Err(MustangError::ExecutableOrJavaNotFound(_))
    ));
    let missing = std::io::Error::new(std::io::ErrorKind::NotFound, "gone");
    assert!(matches!(
        build_rs_mustang_cli(Ok("/o/jre/bin/java".to_string()), Err(missing)),
        Err(MustangError::ExecutableOrJavaNotFound(_))
    ));
}

#[test]
fn supported_targets_have_their_keywords() {
    assert_eq!(target_translate("aarch64-apple-darwin"), Some(vec!["Mach-O", "64-bit", "arm64"]));
    assert_eq!(target_translate("x86_64-apple-darwin"), Some(vec!["Mach-O", "64-bit", "x86_64"]));
}

#[test]
fn other_targets_have_none() {
    assert_eq!(target_translate("x86_64-unknown-linux-gnu"), None);
    assert_eq!(target_translate(""), None);
    assert_eq!(target_translate("aarch64-apple-darwin "), None);
}
