use vstd::prelude::*;

use super::{build_command, optional_flag, push_arg, push_optional_flag};

verus! {

/// The arguments of `anchorscope write` for a file, an anchor and a
/// replacement each given inline and/or by a file, and the expected hash.
pub open spec fn write_args(
    file: Seq<char>,
    anchor: Option<Seq<char>>,
    anchor_file: Option<Seq<char>>,
    expected_hash: Seq<char>,
    replacement: Option<Seq<char>>,
    replacement_file: Option<Seq<char>>,
) -> Seq<Seq<char>> {
    seq!["write"@, "--file"@, file] + optional_flag("--anchor"@, anchor) + optional_flag(
        "--anchor-file"@,
        anchor_file,
    ) + seq!["--expected-hash"@, expected_hash] + optional_flag("--replacement"@, replacement)
        + optional_flag("--replacement-file"@, replacement_file)
}

/// How the arguments of `anchorscope write` are laid out: `write`, `--file`
/// and the file; `--anchor` and the anchor when it is given; `--anchor-file`
/// and its path when it is given; `--expected-hash` and the hash; then
/// `--replacement` and the replacement when it is given, and
/// `--replacement-file` and its path when it is given, whichever way the
/// anchor was given; nothing else. Every value is passed exactly as given.
pub proof fn lemma_write_args_layout(
    file: Seq<char>,
    anchor: Option<Seq<char>>,
    anchor_file: Option<Seq<char>>,
    expected_hash: Seq<char>,
    replacement: Option<Seq<char>>,
    replacement_file: Option<Seq<char>>,
)
    ensures
        ({
            let args = write_args(
                file,
                anchor,
                anchor_file,
                expected_hash,
                replacement,
                replacement_file,
            );
            let na: int = if anchor is Some { 2 } else { 0 };
            let nf: int = if anchor_file is Some { 2 } else { 0 };
            let nr: int = if replacement is Some { 2 } else { 0 };
            let nrf: int = if replacement_file is Some { 2 } else { 0 };
            let h = 3 + na + nf;
            &&& args.len() == h + 2 + nr + nrf
            &&& args[0] == "write"@ && args[1] == "--file"@ && args[2] == file
            &&& anchor matches Some(a) ==> args[3] == "--anchor"@ && args[4] == a
            &&& anchor_file matches Some(f) ==> args[3 + na] == "--anchor-file"@ && args[4 + na]
                == f
            &&& args[h] == "--expected-hash"@ && args[h + 1] == expected_hash
            &&& replacement matches Some(r) ==> args[h + 2] == "--replacement"@ && args[h + 3]
                == r
            &&& replacement_file matches Some(f) ==> args[args.len() - 2] == "--replacement-file"@
                && args[args.len() - 1] == f
        }),
{
}

/// Plans `ae write` as a run of `anchorscope write`: returns the arguments
/// that the binary is given, `write --file <file>`, the anchor options that
/// are given, `--expected-hash <hash>`, then the replacement options that
/// are given.
pub fn run(
    file: &str,
    anchor: Option<&str>,
    anchor_file: Option<&str>,
    expected_hash: &str,
    replacement: Option<&str>,
    replacement_file: Option<&str>,
) -> (args: Vec<String>)
    ensures
        args.deep_view() == write_args(
            file@,
            anchor.deep_view(),
            anchor_file.deep_view(),
            expected_hash@,
            replacement.deep_view(),
            replacement_file.deep_view(),
        ),
        ({
            let a = args.deep_view();
            let na: int = if anchor is Some { 2 } else { 0 };
            let nf: int = if anchor_file is Some { 2 } else { 0 };
            let nr: int = if replacement is Some { 2 } else { 0 };
            let nrf: int = if replacement_file is Some { 2 } else { 0 };
            let h = 3 + na + nf;
            &&& a.len() == h + 2 + nr + nrf
            &&& a[0] == "write"@ && a[1] == "--file"@ && a[2] == file@
            &&& anchor matches Some(x) ==> a[3] == "--anchor"@ && a[4] == x@
            &&& anchor_file matches Some(f) ==> a[3 + na] == "--anchor-file"@ && a[4 + na] == f@
            &&& a[h] == "--expected-hash"@ && a[h + 1] == expected_hash@
            &&& replacement matches Some(r) ==> a[h + 2] == "--replacement"@ && a[h + 3] == r@
            &&& replacement_file matches Some(f) ==> a[a.len() - 2] == "--replacement-file"@
                && a[a.len() - 1] == f@
        }),
{
    let mut args = build_command("write");
    push_arg(&mut args, "--file");
    push_arg(&mut args, file);
    push_optional_flag(&mut args, "--anchor", anchor);
    push_optional_flag(&mut args, "--anchor-file", anchor_file);
    push_arg(&mut args, "--expected-hash");
    push_arg(&mut args, expected_hash);
    push_optional_flag(&mut args, "--replacement", replacement);
    push_optional_flag(&mut args, "--replacement-file", replacement_file);
    proof {
        assert(args.deep_view() =~= write_args(
            file@,
            anchor.deep_view(),
            anchor_file.deep_view(),
            expected_hash@,
            replacement.deep_view(),
            replacement_file.deep_view(),
        ));
        lemma_write_args_layout(
            file@,
            anchor.deep_view(),
            anchor_file.deep_view(),
            expected_hash@,
            replacement.deep_view(),
            replacement_file.deep_view(),
        );
    }
    args
}

} // verus!
