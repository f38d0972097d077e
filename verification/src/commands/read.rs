use vstd::prelude::*;

use super::{build_command, optional_flag, push_arg, push_optional_flag};

verus! {

/// The arguments of `anchorscope read` for a file and an anchor given inline
/// and/or by a file.
pub open spec fn read_args(
    file: Seq<char>,
    anchor: Option<Seq<char>>,
    anchor_file: Option<Seq<char>>,
) -> Seq<Seq<char>> {
    seq!["read"@, "--file"@, file] + optional_flag("--anchor"@, anchor) + optional_flag(
        "--anchor-file"@,
        anchor_file,
    )
}

/// How the arguments of `anchorscope read` are laid out: `read`, `--file`
/// and the file; then `--anchor` and the anchor, exactly as given, when it
/// is given; then `--anchor-file` and its path when it is given; nothing
/// else.
pub proof fn lemma_read_args_layout(
    file: Seq<char>,
    anchor: Option<Seq<char>>,
    anchor_file: Option<Seq<char>>,
)
    ensures
        ({
            let args = read_args(file, anchor, anchor_file);
            let na: int = if anchor is Some { 2 } else { 0 };
            let nf: int = if anchor_file is Some { 2 } else { 0 };
            &&& args.len() == 3 + na + nf
            &&& args[0] == "read"@ && args[1] == "--file"@ && args[2] == file
            &&& anchor matches Some(a) ==> args[3] == "--anchor"@ && args[4] == a
            &&& anchor_file matches Some(f) ==> args[3 + na] == "--anchor-file"@ && args[4 + na]
                == f
        }),
{
}

/// Plans `ae read` as a run of `anchorscope read`: returns the arguments that
/// the binary is given, `read --file <file>`, then `--anchor <a>` and
/// `--anchor-file <f>` for those that are given.
pub fn run(file: &str, anchor: Option<&str>, anchor_file: Option<&str>) -> (args: Vec<String>)
    ensures
        args.deep_view() == read_args(file@, anchor.deep_view(), anchor_file.deep_view()),
        ({
            let a = args.deep_view();
            let na: int = if anchor is Some { 2 } else { 0 };
            let nf: int = if anchor_file is Some { 2 } else { 0 };
            &&& a.len() == 3 + na + nf
            &&& a[0] == "read"@ && a[1] == "--file"@ && a[2] == file@
            &&& anchor matches Some(x) ==> a[3] == "--anchor"@ && a[4] == x@
            &&& anchor_file matches Some(f) ==> a[3 + na] == "--anchor-file"@ && a[4 + na] == f@
        }),
{
    let mut args = build_command("read");
    push_arg(&mut args, "--file");
    push_arg(&mut args, file);
    push_optional_flag(&mut args, "--anchor", anchor);
    push_optional_flag(&mut args, "--anchor-file", anchor_file);
    proof {
        assert(args.deep_view() =~= read_args(
            file@,
            anchor.deep_view(),
            anchor_file.deep_view(),
        ));
        lemma_read_args_layout(file@, anchor.deep_view(), anchor_file.deep_view());
    }
    args
}

} // verus!
