//! The resource compiler `windres`: its name, its arguments, and the line
//! that tells the build to link what it made.

use crate::text::{
    free_of, lemma_pieces_join, lemma_pieces_plain, lemma_replaced_after_plain,
    lemma_replaced_after_unlike, lemma_replaced_at_match, lemma_replaced_plain, pieces, replace,
    replaced, split_at_blanks, texts,
};
use vstd::prelude::*;

verus! {

/// The object format that `windres` is to write.
#[derive(Clone, Copy, Debug, PartialEq, Eq, Structural)]
pub enum Arch {
    /// 64-bit Windows.
    X64,
    /// 32-bit Windows.
    X86,
}

impl Arch {
    /// The name of the format as `windres` knows it.
    pub open spec fn text(self) -> Seq<char> {
        match self {
            Arch::X64 => "pe-x86-64"@,
            Arch::X86 => "pe-i386"@,
        }
    }

    /// The name of the format as `windres` knows it.
    pub fn name(&self) -> (r: &'static str)
        ensures
            r@ == self.text(),
    {
        match self {
            Arch::X64 => "pe-x86-64",
            Arch::X86 => "pe-i386",
        }
    }
}

/// The file that `windres` makes of the script at `script`.
pub open spec fn object_path(script: Seq<char>) -> Seq<char> {
    script + ".a"@
}

/// The command line of `windres` for the script at `script`: the pattern
/// with the script put for `[INPUT]`, then the object file put for
/// `[OUTPUT]`, then, where a format is given, its name put for `[ARCH]`.
/// Without a format the pattern has no `-F` option.
pub open spec fn windres_command_line(script: Seq<char>, arch: Option<Arch>) -> Seq<char> {
    match arch {
        Some(a) => replaced(
            replaced(
                replaced("-i [INPUT] -O coff -F [ARCH] -o [OUTPUT] -v"@, "[INPUT]"@, script),
                "[OUTPUT]"@,
                object_path(script),
            ),
            "[ARCH]"@,
            a.text(),
        ),
        None => replaced(
            replaced("-i [INPUT] -O coff -o [OUTPUT] -v"@, "[INPUT]"@, script),
            "[OUTPUT]"@,
            object_path(script),
        ),
    }
}

/// For a script path without a square bracket, the command line with a
/// format names the script, the format and the object file once each.
pub proof fn lemma_command_line_with_format(script: Seq<char>, arch: Arch)
    requires
        free_of(script, '['),
    ensures
        windres_command_line(script, Some(arch)) == "-i "@ + script + " -O coff -F "@ + arch.text()
            + " -o "@ + object_path(script) + " -v"@,
{
    reveal_strlit("-i [INPUT] -O coff -F [ARCH] -o [OUTPUT] -v");
    reveal_strlit("[INPUT]");
    reveal_strlit("[OUTPUT]");
    reveal_strlit("[ARCH]");
    reveal_strlit("-i ");
    reveal_strlit(" -O coff -F [ARCH] -o [OUTPUT] -v");
    reveal_strlit(" -O coff -F [ARCH] -o ");
    reveal_strlit(" -O coff -F ");
    reveal_strlit(" -o ");
    reveal_strlit(" -v");
    reveal_strlit(".a");
    reveal_strlit("pe-x86-64");
    reveal_strlit("pe-i386");
    let pattern = "-i [INPUT] -O coff -F [ARCH] -o [OUTPUT] -v"@;
    let input = "[INPUT]"@;
    let output = "[OUTPUT]"@;
    let format = "[ARCH]"@;
    let object = object_path(script);
    let name = arch.text();
    assert(free_of(object, '['));
    // the script goes where the pattern has its input
    let after_input = " -O coff -F [ARCH] -o [OUTPUT] -v"@;
    assert(pattern =~= "-i "@ + (input + after_input));
    lemma_replaced_after_plain("-i "@, input + after_input, input, script);
    lemma_replaced_at_match(input, after_input, script);
    lemma_replaced_after_unlike(after_input, Seq::empty(), input, script);
    assert(after_input + Seq::<char>::empty() =~= after_input);
    let first = replaced(pattern, input, script);
    assert(first =~= "-i "@ + script + after_input);
    // the object file goes where the pattern has its output
    let before_output = "-i "@ + script + " -O coff -F [ARCH] -o "@;
    assert(first =~= before_output + (output + " -v"@));
    assert forall|i: int|
        0 <= i < before_output.len() && #[trigger] before_output[i] == output[0] implies i + 1
        < before_output.len() && before_output[i + 1] != output[1] by {
        if i >= 3 && i < 3 + script.len() {
            assert(before_output[i] == script[i - 3]);
        }
    }
    lemma_replaced_after_unlike(before_output, output + " -v"@, output, object);
    lemma_replaced_at_match(output, " -v"@, object);
    let second = replaced(first, output, object);
    assert(second =~= before_output + object + " -v"@);
    // the format goes where the pattern has its format
    let before_format = "-i "@ + script + " -O coff -F "@;
    let after_format = " -o "@ + object + " -v"@;
    assert(second =~= before_format + (format + after_format));
    assert(free_of(before_format, '['));
    assert(free_of(after_format, '['));
    lemma_replaced_after_plain(before_format, format + after_format, format, name);
    lemma_replaced_at_match(format, after_format, name);
    lemma_replaced_plain(after_format, format, name);
    assert(before_format + (name + after_format) =~= "-i "@ + script + " -O coff -F "@ + name
        + " -o "@ + object + " -v"@);
}

/// For a script path without a square bracket, the command line without
/// a format names the script and the object file once each.
pub proof fn lemma_command_line_without_format(script: Seq<char>)
    requires
        free_of(script, '['),
    ensures
        windres_command_line(script, None) == "-i "@ + script + " -O coff -o "@ + object_path(
            script,
        ) + " -v"@,
{
    reveal_strlit("-i [INPUT] -O coff -o [OUTPUT] -v");
    reveal_strlit("[INPUT]");
    reveal_strlit("[OUTPUT]");
    reveal_strlit("-i ");
    reveal_strlit(" -O coff -o [OUTPUT] -v");
    reveal_strlit(" -O coff -o ");
    reveal_strlit(" -v");
    reveal_strlit(".a");
    let pattern = "-i [INPUT] -O coff -o [OUTPUT] -v"@;
    let input = "[INPUT]"@;
    let output = "[OUTPUT]"@;
    let object = object_path(script);
    // the script goes where the pattern has its input
    let after_input = " -O coff -o [OUTPUT] -v"@;
    assert(pattern =~= "-i "@ + (input + after_input));
    lemma_replaced_after_plain("-i "@, input + after_input, input, script);
    lemma_replaced_at_match(input, after_input, script);
    lemma_replaced_after_unlike(after_input, Seq::empty(), input, script);
    assert(after_input + Seq::<char>::empty() =~= after_input);
    let first = replaced(pattern, input, script);
    assert(first =~= "-i "@ + script + after_input);
    // the object file goes where the pattern has its output
    let before_output = "-i "@ + script + " -O coff -o "@;
    assert(first =~= before_output + (output + " -v"@));
    assert(free_of(before_output, '['));
    lemma_replaced_after_plain(before_output, output + " -v"@, output, object);
    lemma_replaced_at_match(output, " -v"@, object);
    assert(before_output + (object + " -v"@) =~= "-i "@ + script + " -O coff -o "@ + object
        + " -v"@);
}

/// For a script path without a square bracket and without a blank, the
/// arguments are the options in their order, with the script, the format
/// where one is given, and the object file each as one argument.
pub proof fn lemma_windres_args_of_plain_path(script: Seq<char>, arch: Option<Arch>)
    requires
        free_of(script, '['),
        free_of(script, ' '),
    ensures
        pieces(windres_command_line(script, arch)) == match arch {
            Some(a) => seq![
                "-i"@,
                script,
                "-O"@,
                "coff"@,
                "-F"@,
                a.text(),
                "-o"@,
                object_path(script),
                "-v"@,
            ],
            None => seq!["-i"@, script, "-O"@, "coff"@, "-o"@, object_path(script), "-v"@],
        },
{
    reveal_strlit("-i ");
    reveal_strlit(" -O coff -F ");
    reveal_strlit(" -O coff -o ");
    reveal_strlit(" -o ");
    reveal_strlit(" -v");
    reveal_strlit(".a");
    reveal_strlit("-i");
    reveal_strlit("-O");
    reveal_strlit("coff");
    reveal_strlit("-F");
    reveal_strlit("-o");
    reveal_strlit("-v");
    reveal_strlit("pe-x86-64");
    reveal_strlit("pe-i386");
    let blank = seq![' '];
    let object = object_path(script);
    assert(free_of(object, ' '));
    lemma_pieces_plain("-i"@);
    lemma_pieces_plain(script);
    lemma_pieces_plain("-O"@);
    lemma_pieces_plain("coff"@);
    lemma_pieces_plain("-F"@);
    lemma_pieces_plain("-o"@);
    lemma_pieces_plain(object);
    lemma_pieces_plain("-v"@);
    let r1 = object + blank + "-v"@;
    lemma_pieces_join(object, "-v"@);
    let r2 = "-o"@ + blank + r1;
    lemma_pieces_join("-o"@, r1);
    assert(pieces(r2) =~= seq!["-o"@, object, "-v"@]);
    match arch {
        Some(a) => {
            lemma_command_line_with_format(script, a);
            lemma_pieces_plain(a.text());
            let r3 = a.text() + blank + r2;
            lemma_pieces_join(a.text(), r2);
            let r4 = "-F"@ + blank + r3;
            lemma_pieces_join("-F"@, r3);
            let r5 = "coff"@ + blank + r4;
            lemma_pieces_join("coff"@, r4);
            let r6 = "-O"@ + blank + r5;
            lemma_pieces_join("-O"@, r5);
            let r7 = script + blank + r6;
            lemma_pieces_join(script, r6);
            let r8 = "-i"@ + blank + r7;
            lemma_pieces_join("-i"@, r7);
            assert(r8 =~= windres_command_line(script, arch));
            assert(pieces(r8) =~= seq![
                "-i"@,
                script,
                "-O"@,
                "coff"@,
                "-F"@,
                a.text(),
                "-o"@,
                object,
                "-v"@,
            ]);
        },
        None => {
            lemma_command_line_without_format(script);
            let r5 = "coff"@ + blank + r2;
            lemma_pieces_join("coff"@, r2);
            let r6 = "-O"@ + blank + r5;
            lemma_pieces_join("-O"@, r5);
            let r7 = script + blank + r6;
            lemma_pieces_join(script, r6);
            let r8 = "-i"@ + blank + r7;
            lemma_pieces_join("-i"@, r7);
            assert(r8 =~= windres_command_line(script, arch));
            assert(pieces(r8) =~= seq!["-i"@, script, "-O"@, "coff"@, "-o"@, object, "-v"@]);
        },
    }
}

/// The file that `windres` makes of the script at `script`.
pub fn object_file(script: &str) -> (r: String)
    ensures
        r@ == object_path(script@),
{
    let mut r = script.to_owned();
    r.append(".a");
    r
}

/// The arguments of `windres` for the script at `script`: the command
/// line, taken apart at its blanks.
pub fn windres_args(script: &str, arch: Option<Arch>) -> (r: Vec<String>)
    ensures
        texts(r@) == pieces(windres_command_line(script@, arch)),
{
    let object = object_file(script);
    let line = match arch {
        Some(a) => {
            let line = replace("-i [INPUT] -O coff -F [ARCH] -o [OUTPUT] -v", "[INPUT]", script);
            let line = replace(line.as_str(), "[OUTPUT]", object.as_str());
            replace(line.as_str(), "[ARCH]", a.name())
        },
        None => {
            let line = replace("-i [INPUT] -O coff -o [OUTPUT] -v", "[INPUT]", script);
            replace(line.as_str(), "[OUTPUT]", object.as_str())
        },
    };
    split_at_blanks(line.as_str())
}

/// The name under which `windres` is called: its plain name on a Windows
/// host, the name of the cross compiler for the target elsewhere.
pub open spec fn windres_name(host_is_windows: bool, arch: Arch) -> Seq<char> {
    if host_is_windows {
        "windres"@
    } else {
        match arch {
            Arch::X64 => "x86_64-w64-mingw32-windres"@,
            Arch::X86 => "i686-w64-mingw32-windres"@,
        }
    }
}

/// The name under which `windres` is called.
pub fn windres_program(host_is_windows: bool, arch: Arch) -> (r: &'static str)
    ensures
        r@ == windres_name(host_is_windows, arch),
{
    if host_is_windows {
        "windres"
    } else {
        match arch {
            Arch::X64 => "x86_64-w64-mingw32-windres",
            Arch::X86 => "i686-w64-mingw32-windres",
        }
    }
}

/// The line that tells the build to link the object file of the script at
/// `script`.
pub fn link_directive(script: &str) -> (r: String)
    ensures
        r@ == "cargo:rustc-link-arg="@ + object_path(script@),
{
    let mut r = "cargo:rustc-link-arg=".to_owned();
    let object = object_file(script);
    r.append(object.as_str());
    r
}

} // verus!
