//! What a binary built for a given target looks like to the `file` tool.

use vstd::prelude::*;

verus! {

/// The words that the `file` tool prints about a binary for `target`, for
/// the targets a runtime can be bundled for.
pub open spec fn target_keywords(target: Seq<char>) -> Option<Seq<Seq<char>>> {
    if target == "aarch64-apple-darwin"@ {
        Some(seq!["Mach-O"@, "64-bit"@, "arm64"@])
    } else if target == "x86_64-apple-darwin"@ {
        Some(seq!["Mach-O"@, "64-bit"@, "x86_64"@])
    } else {
        None
    }
}

/// Whether two texts are the same.
fn same_text(a: &str, b: &str) -> (same: bool)
    ensures
        same == (a@ == b@),
{
    a.to_owned() == b.to_owned()
}

/// The words to look for in what `file` prints about a binary for `target`,
/// or nothing where no runtime can be bundled for the target.
pub fn target_translate(target: &str) -> (keywords: Option<Vec<&'static str>>)
    ensures
        keywords.deep_view() == target_keywords(target@),
{
    if same_text(target, "aarch64-apple-darwin") {
        let words = vec!["Mach-O", "64-bit", "arm64"];
        assert(words.deep_view() =~= seq!["Mach-O"@, "64-bit"@, "arm64"@]);
        Some(words)
    } else if same_text(target, "x86_64-apple-darwin") {
        let words = vec!["Mach-O", "64-bit", "x86_64"];
        assert(words.deep_view() =~= seq!["Mach-O"@, "64-bit"@, "x86_64"@]);
        Some(words)
    } else {
        None
    }
}

} // verus!
