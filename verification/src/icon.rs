//! Icon resources: which format a file has, the script that names an icon,
//! and the arguments of the image tool that converts one.

use crate::digits::{append_decimal, decimal};
use crate::text::{
    free_of, lemma_replaced_after_plain, lemma_replaced_at_match, lemma_replaced_at_mismatch,
    lemma_replaced_plain, lemma_replaced_stays_free, occurs_in, pieces, replace, replaced,
    split_at_blanks, texts,
};
use vstd::prelude::*;

verus! {

/// How an icon file is brought into the executable.
#[derive(Clone, Copy, Debug, PartialEq, Eq, Structural)]
pub enum IconFormat {
    /// An `ico` file: linked as it is.
    Ico,
    /// A `png` file: scaled and packed into an `ico` file first.
    Png,
    /// Anything else: converted to `png` first.
    Other,
}

/// The format that goes with the extension of a file name.
pub open spec fn format_of(extension: Option<Seq<char>>) -> IconFormat {
    match extension {
        Some(e) => if e == "ico"@ {
            IconFormat::Ico
        } else if e == "png"@ {
            IconFormat::Png
        } else {
            IconFormat::Other
        },
        None => IconFormat::Other,
    }
}

/// The text of an extension, where there is one.
pub open spec fn extension_text(extension: Option<String>) -> Option<Seq<char>> {
    match extension {
        Some(e) => Some(e@),
        None => None,
    }
}

/// Whether `path` is a bare file name: it holds no slash, no backslash and
/// no colon, so no platform finds a directory, a drive or a prefix in it.
pub open spec fn bare_name(path: Seq<char>) -> bool {
    free_of(path, '/') && free_of(path, '\\') && free_of(path, ':')
}

/// The place of the last dot in `name`, or -1 where it holds none.
pub open spec fn last_dot(name: Seq<char>) -> int
    decreases name.len(),
{
    if name.len() == 0 {
        -1
    } else if name.last() == '.' {
        name.len() - 1
    } else {
        last_dot(name.drop_last())
    }
}

/// The extension of the file name `name`: what stands behind its last
/// dot. There is none where the name holds no dot, where its only dot is
/// its first character, and for the name `..`, which names no file.
pub open spec fn name_extension(name: Seq<char>) -> Option<Seq<char>> {
    if name == ".."@ || last_dot(name) <= 0 {
        None
    } else {
        Some(name.skip(last_dot(name) + 1))
    }
}

/// The extension of the path `path`, by `camino::Utf8Path::extension`:
/// the part of the file name behind its last dot, where the file name has
/// a dot that is not its first character. Which part of a path is the file
/// name depends on the platform, so for a path at large the contract
/// states only what holds on each: the extension holds no dot, and the
/// path holds a dot followed by the extension. A bare file name is its own
/// last component on every platform, `..` apart, which has no file name;
/// of such a path the contract states the extension itself.
#[verifier::external_body]
fn extension_of(path: &str) -> (r: Option<String>)
    ensures
        r matches Some(e) ==> !e@.contains('.') && occurs_in(seq!['.'] + e@, path@),
        bare_name(path@) ==> extension_text(r) == name_extension(path@),
{
    camino::Utf8Path::new(path).extension().map(str::to_owned)
}

/// The format that goes with an extension.
pub fn format_for(extension: &Option<String>) -> (r: IconFormat)
    ensures
        r == format_of(extension_text(*extension)),
{
    match extension {
        Some(e) => {
            if *e == "ico".to_owned() {
                IconFormat::Ico
            } else if *e == "png".to_owned() {
                IconFormat::Png
            } else {
                IconFormat::Other
            }
        },
        None => IconFormat::Other,
    }
}

/// In a name made of a beginning, a dot and an end without a dot, that
/// dot is the last.
pub proof fn lemma_last_dot(stem: Seq<char>, end: Seq<char>)
    requires
        free_of(end, '.'),
    ensures
        last_dot(stem + seq!['.'] + end) == stem.len(),
    decreases end.len(),
{
    let name = stem + seq!['.'] + end;
    if end.len() == 0 {
        assert(name.last() == '.');
    } else {
        let front = end.drop_last();
        assert(free_of(front, '.')) by {
            assert forall|i: int| 0 <= i < front.len() implies #[trigger] front[i] != '.' by {
                assert(front[i] == end[i]);
            }
        }
        lemma_last_dot(stem, front);
        assert(name.drop_last() =~= stem + seq!['.'] + front);
        assert(name.last() == end[end.len() - 1]);
    }
}

/// A file name made of a beginning that is not empty, a dot and an end
/// without a dot has that end as its extension, unless the name is `..`.
pub proof fn lemma_extension_of_name(stem: Seq<char>, end: Seq<char>)
    requires
        stem.len() > 0,
        free_of(end, '.'),
        stem + seq!['.'] + end != ".."@,
    ensures
        name_extension(stem + seq!['.'] + end) == Some(end),
{
    let name = stem + seq!['.'] + end;
    lemma_last_dot(stem, end);
    assert(name.skip(stem.len() as int + 1) =~= end);
}

/// A bare file name that ends in `.ico` behind a beginning that is not
/// empty is taken for an `ico` file, one that ends in `.png` for a `png`
/// file.
pub proof fn lemma_format_of_bare_name(stem: Seq<char>)
    requires
        stem.len() > 0,
    ensures
        format_of(name_extension(stem + ".ico"@)) == IconFormat::Ico,
        format_of(name_extension(stem + ".png"@)) == IconFormat::Png,
{
    reveal_strlit(".ico");
    reveal_strlit(".png");
    reveal_strlit("ico");
    reveal_strlit("png");
    reveal_strlit("..");
    assert(stem + ".ico"@ =~= stem + seq!['.'] + "ico"@);
    assert(stem + ".png"@ =~= stem + seq!['.'] + "png"@);
    assert((stem + ".ico"@).len() > 2);
    assert((stem + ".png"@).len() > 2);
    lemma_extension_of_name(stem, "ico"@);
    lemma_extension_of_name(stem, "png"@);
}

/// The format of the icon file at `path`, by the extension of its name.
/// For a bare file name the format is that of what stands behind its last
/// dot. For a path at large, which part is the file name depends on the
/// platform; on each, a path taken for an `ico` or a `png` file holds that
/// extension behind a dot.
pub fn icon_format(path: &str) -> (r: IconFormat)
    ensures
        bare_name(path@) ==> r == format_of(name_extension(path@)),
        r == IconFormat::Ico ==> occurs_in(".ico"@, path@),
        r == IconFormat::Png ==> occurs_in(".png"@, path@),
{
    let extension = extension_of(path);
    let r = format_for(&extension);
    proof {
        reveal_strlit(".ico");
        reveal_strlit(".png");
        reveal_strlit("ico");
        reveal_strlit("png");
        if r == IconFormat::Ico {
            assert(seq!['.'] + "ico"@ =~= ".ico"@);
        }
        if r == IconFormat::Png {
            assert(seq!['.'] + "png"@ =~= ".png"@);
        }
    }
    r
}

/// `path` with a slash in place of each backslash.
pub open spec fn slashed(path: Seq<char>) -> Seq<char> {
    replaced(path, "\\"@, "/"@)
}

/// The name of the icon with the identifier `id`.
pub open spec fn icon_name(id: u16) -> Seq<char> {
    "icon"@ + decimal(id as nat)
}

/// The script that names the icon file at `path` as the icon `id`: the
/// pattern `[ID] ICON "[PATH]"` and a line feed, with the slashed path put
/// for `[PATH]` and then the name of the icon put for each `[ID]`.
pub open spec fn icon_script_text(id: u16, path: Seq<char>) -> Seq<char> {
    replaced(replaced("[ID] ICON \"[PATH]\"\n"@, "[PATH]"@, slashed(path)), "[ID]"@, icon_name(id))
}

/// A slashed path holds no character that the path did not hold, but for
/// the slash.
pub proof fn lemma_slashed_stays_free(path: Seq<char>, c: char)
    requires
        free_of(path, c),
        c != '/',
    ensures
        free_of(slashed(path), c),
{
    reveal_strlit("\\");
    reveal_strlit("/");
    lemma_replaced_stays_free(path, "\\"@, "/"@, c);
}

/// A slashed path is the path, character by character, with a slash
/// wherever the path has a backslash.
pub proof fn lemma_slashed_by_character(path: Seq<char>)
    ensures
        slashed(path).len() == path.len(),
        forall|i: int|
            0 <= i < path.len() ==> #[trigger] slashed(path)[i] == if path[i] == '\\' {
                '/'
            } else {
                path[i]
            },
    decreases path.len(),
{
    reveal_strlit("\\");
    reveal_strlit("/");
    let from = "\\"@;
    let to = "/"@;
    if path.len() > 0 {
        let rest = path.skip(1);
        lemma_slashed_by_character(rest);
        if path[0] == '\\' {
            assert(path.take(1) =~= from);
            assert(path =~= from + rest);
            lemma_replaced_at_match(from, rest, to);
        } else {
            lemma_replaced_at_mismatch(path, from, to, 0);
        }
        assert forall|i: int| 0 <= i < path.len() implies #[trigger] slashed(path)[i] == if path[i]
            == '\\' {
            '/'
        } else {
            path[i]
        } by {
            if i > 0 {
                assert(slashed(rest)[i - 1] == if rest[i - 1] == '\\' {
                    '/'
                } else {
                    rest[i - 1]
                });
                assert(rest[i - 1] == path[i]);
            }
        }
    }
}

/// For a path without a square bracket the script is the name of the
/// icon, the word `ICON`, and the slashed path between double quotes.
pub proof fn lemma_icon_script_of_plain_path(id: u16, path: Seq<char>)
    requires
        free_of(path, '['),
    ensures
        icon_script_text(id, path) == icon_name(id) + " ICON \""@ + slashed(path) + "\"\n"@,
{
    reveal_strlit("[ID] ICON \"[PATH]\"\n");
    reveal_strlit("[PATH]");
    reveal_strlit("[ID]");
    reveal_strlit("ID] ICON \"");
    reveal_strlit(" ICON \"");
    reveal_strlit("\"\n");
    let pattern = "[ID] ICON \"[PATH]\"\n"@;
    let place = "[PATH]"@;
    let mark = "[ID]"@;
    let end = "\"\n"@;
    let put = slashed(path);
    let name = icon_name(id);
    lemma_slashed_stays_free(path, '[');
    // the path goes where the pattern has its place
    lemma_replaced_at_mismatch(pattern, place, put, 1);
    let head = "ID] ICON \""@;
    assert(pattern.skip(1) =~= head + (place + end));
    lemma_replaced_after_plain(head, place + end, place, put);
    lemma_replaced_at_match(place, end, put);
    let with_path = replaced(pattern, place, put);
    let tail = " ICON \""@ + put + end;
    assert(with_path =~= mark + tail);
    // the name goes where the pattern has its mark, and nowhere else
    lemma_replaced_at_match(mark, tail, name);
    assert(free_of(tail, '['));
    lemma_replaced_plain(tail, mark, name);
    assert(name + tail =~= name + " ICON \""@ + put + end);
}

/// The script that names the icon file at `path` as the icon `id`.
pub fn icon_script(id: u16, path: &str) -> (r: String)
    ensures
        r@ == icon_script_text(id, path@),
{
    let mut name = "icon".to_owned();
    append_decimal(&mut name, id as u32);
    let path = replace(path, "\\", "/");
    let with_path = replace("[ID] ICON \"[PATH]\"\n", "[PATH]", path.as_str());
    replace(with_path.as_str(), "[ID]", name.as_str())
}

/// Where the script of the icon `id` is written: `icon`, the identifier
/// and `.rc`, in the directory `out_dir`.
pub fn icon_script_path(out_dir: &str, id: u16) -> (r: String)
    ensures
        r@ == out_dir@ + "/icon"@ + decimal(id as nat) + ".rc"@,
{
    let mut r = out_dir.to_owned();
    r.append("/icon");
    append_decimal(&mut r, id as u32);
    r.append(".rc");
    r
}

/// The number of sizes an icon is scaled to.
pub open spec fn scale_count() -> int {
    7
}

/// The size at place `k`, in pixels, written in decimal.
pub open spec fn scale_text(k: int) -> Seq<char>
    recommends
        0 <= k < scale_count(),
{
    if k == 0 {
        "8"@
    } else if k == 1 {
        "16"@
    } else if k == 2 {
        "32"@
    } else if k == 3 {
        "48"@
    } else if k == 4 {
        "64"@
    } else if k == 5 {
        "128"@
    } else {
        "256"@
    }
}

/// The size at place `k`, in pixels, written in decimal.
pub fn scale(k: usize) -> (r: &'static str)
    requires
        k < scale_count(),
    ensures
        r@ == scale_text(k as int),
{
    if k == 0 {
        "8"
    } else if k == 1 {
        "16"
    } else if k == 2 {
        "32"
    } else if k == 3 {
        "48"
    } else if k == 4 {
        "64"
    } else if k == 5 {
        "128"
    } else {
        "256"
    }
}

/// The command line that scales the image `input` to one size and writes
/// it beside `output`: the pattern with `input`, the size and `output` put
/// in, in that order, and a blank put for each line feed.
pub open spec fn scale_command(input: Seq<char>, size: Seq<char>, output: Seq<char>) -> Seq<char> {
    replaced(
        replaced(
            replaced(
                replaced(
                    "convert [INPUT] -scale [SCALE]x[SCALE] -extent [SCALE]x[SCALE] -background None -alpha on [OUTPUT][SCALE].png"@,
                    "[INPUT]"@,
                    input,
                ),
                "[SCALE]"@,
                size,
            ),
            "[OUTPUT]"@,
            output,
        ),
        "\n"@,
        " "@,
    )
}

/// The arguments for the image tool that scale the image `input` to the
/// size at place `k`: the command line, taken apart at its blanks.
pub fn scale_args(input: &str, k: usize, output: &str) -> (r: Vec<String>)
    requires
        k < scale_count(),
    ensures
        texts(r@) == pieces(scale_command(input@, scale_text(k as int), output@)),
{
    let line = replace(
        "convert [INPUT] -scale [SCALE]x[SCALE] -extent [SCALE]x[SCALE] -background None -alpha on [OUTPUT][SCALE].png",
        "[INPUT]",
        input,
    );
    let line = replace(line.as_str(), "[SCALE]", scale(k));
    let line = replace(line.as_str(), "[OUTPUT]", output);
    let line = replace(line.as_str(), "\n", " ");
    split_at_blanks(line.as_str())
}

/// The scaled images of `output`, in the order of the sizes, as far as
/// place `k`.
pub open spec fn scaled_files(output: Seq<char>, k: int) -> Seq<Seq<char>>
    decreases k,
{
    if k <= 0 {
        Seq::empty()
    } else {
        scaled_files(output, k - 1).push(output + scale_text(k - 1) + ".png"@)
    }
}

/// The arguments for the image tool that pack the scaled images of
/// `output` into the icon file `icon`: `convert`, the seven images in the
/// order of their sizes, then the icon file. No argument is taken apart.
pub fn pack_args(output: &str, icon: &str) -> (r: Vec<String>)
    ensures
        texts(r@) == seq!["convert"@] + scaled_files(output@, scale_count()) + seq![icon@],
{
    let mut r: Vec<String> = Vec::new();
    r.push("convert".to_owned());
    let mut k: usize = 0;
    assert(texts(r@) =~= seq!["convert"@] + scaled_files(output@, 0));
    while k < 7
        invariant
            0 <= k <= 7,
            texts(r@) == seq!["convert"@] + scaled_files(output@, k as int),
        decreases 7 - k,
    {
        let ghost before = texts(r@);
        let mut file = output.to_owned();
        file.append(scale(k));
        file.append(".png");
        r.push(file);
        assert(texts(r@) =~= before.push(output@ + scale_text(k as int) + ".png"@));
        assert(texts(r@) =~= seq!["convert"@] + scaled_files(output@, k + 1));
        k += 1;
    }
    let ghost before = texts(r@);
    r.push(icon.to_owned());
    assert(texts(r@) =~= before.push(icon@));
    assert(texts(r@) =~= seq!["convert"@] + scaled_files(output@, scale_count()) + seq![icon@]);
    r
}

/// The command line that converts the image `input` to the `png` file
/// `output`: the pattern with `input` and then `output` put in.
pub open spec fn to_png_command(input: Seq<char>, output: Seq<char>) -> Seq<char> {
    replaced(
        replaced(
            "convert [INPUT] -background None -alpha on -scale 256x256 -layers merge [OUTPUT]"@,
            "[INPUT]"@,
            input,
        ),
        "[OUTPUT]"@,
        output,
    )
}

/// The arguments for the image tool that convert the image `input` to the
/// `png` file `output`: the command line, taken apart at its blanks.
pub fn to_png_args(input: &str, output: &str) -> (r: Vec<String>)
    ensures
        texts(r@) == pieces(to_png_command(input@, output@)),
{
    let line = replace(
        "convert [INPUT] -background None -alpha on -scale 256x256 -layers merge [OUTPUT]",
        "[INPUT]",
        input,
    );
    let line = replace(line.as_str(), "[OUTPUT]", output);
    split_at_blanks(line.as_str())
}

} // verus!
