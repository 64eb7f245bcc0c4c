//! Where a build that bundles the engine keeps it: a trimmed java runtime
//! and the engine's jar, both inside the build's output directory.

use vstd::prelude::*;

use crate::cli::{jar_runner, MustangCLI};
use crate::error::{result_view, MustangError};
use crate::file_handle::text_outcome;
use crate::path::{join, path_join};

verus! {

/// The home of the bundled java runtime inside the output directory
/// `out_dir`.
pub fn jre_home(out_dir: &str) -> (home: String)
    ensures
        home@ == path_join(out_dir@, "jre"@),
{
    join(out_dir, "jre")
}

/// The bundled jar of the engine inside the output directory `out_dir`.
pub fn jar(out_dir: &str) -> (jar: String)
    ensures
        jar@ == path_join(out_dir@, "Mustang-CLI-2.20.0.jar"@),
{
    join(out_dir, "Mustang-CLI-2.20.0.jar")
}

/// The java launcher of the runtime whose home is `java_home`.
pub fn java_launcher(java_home: &str) -> (java: String)
    ensures
        java@ == path_join(java_home@, "bin/java"@),
{
    join(java_home, "bin/java")
}

/// The runner on the bundled runtime and jar, given how resolving the
/// launcher and the jar went. The launcher gets no arguments of its own.
pub fn build_rs_mustang_cli(
    java: Result<String, std::io::Error>,
    jar: Result<String, std::io::Error>,
) -> (r: Result<MustangCLI, MustangError>)
    ensures
        result_view(r) == jar_runner(text_outcome(java), text_outcome(jar), Seq::empty()),
{
    let java_args: Vec<String> = Vec::new();
    assert(java_args.deep_view() =~= Seq::<Seq<char>>::empty());
    MustangCLI::from_jar(java, jar, java_args)
}

} // verus!
