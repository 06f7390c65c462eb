//! Application manifests: the script that names one.

use crate::digits::{append_decimal, decimal};
use crate::icon::{lemma_slashed_stays_free, slashed};
use crate::text::{
    free_of, lemma_replaced_after_plain, lemma_replaced_after_unlike, lemma_replaced_at_match,
    lemma_replaced_plain, replace, replaced,
};
use vstd::prelude::*;

verus! {

/// The name of the manifest with the identifier `id`.
pub open spec fn manifest_name(id: u16) -> Seq<char> {
    "manifest"@ + decimal(id as nat)
}

/// The script that names the manifest file at `path` as the manifest `id`:
/// a line that defines `RT_MANIFEST` as 24, then the pattern
/// `[ID] RT_MANIFEST "[PATH]"` and a line feed, with the slashed path put
/// for `[PATH]` and then the name of the manifest put for each `[ID]`.
pub open spec fn manifest_script_text(id: u16, path: Seq<char>) -> Seq<char> {
    replaced(
        replaced(
            "#define RT_MANIFEST 24\n[ID] RT_MANIFEST \"[PATH]\"\n"@,
            "[PATH]"@,
            slashed(path),
        ),
        "[ID]"@,
        manifest_name(id),
    )
}

/// For a path without a square bracket the script is the line that
/// defines `RT_MANIFEST`, then the name of the manifest, the word
/// `RT_MANIFEST`, and the slashed path between double quotes.
pub proof fn lemma_manifest_script_of_plain_path(id: u16, path: Seq<char>)
    requires
        free_of(path, '['),
    ensures
        manifest_script_text(id, path) == "#define RT_MANIFEST 24\n"@ + manifest_name(id)
            + " RT_MANIFEST \""@ + slashed(path) + "\"\n"@,
{
    reveal_strlit("#define RT_MANIFEST 24\n[ID] RT_MANIFEST \"[PATH]\"\n");
    reveal_strlit("#define RT_MANIFEST 24\n");
    reveal_strlit("#define RT_MANIFEST 24\n[ID] RT_MANIFEST \"");
    reveal_strlit("[PATH]");
    reveal_strlit("[ID]");
    reveal_strlit(" RT_MANIFEST \"");
    reveal_strlit("\"\n");
    let pattern = "#define RT_MANIFEST 24\n[ID] RT_MANIFEST \"[PATH]\"\n"@;
    let place = "[PATH]"@;
    let mark = "[ID]"@;
    let first = "#define RT_MANIFEST 24\n"@;
    let end = "\"\n"@;
    let put = slashed(path);
    let name = manifest_name(id);
    lemma_slashed_stays_free(path, '[');
    // the path goes where the pattern has its place
    let before = "#define RT_MANIFEST 24\n[ID] RT_MANIFEST \""@;
    assert(pattern =~= before + (place + end));
    lemma_replaced_after_unlike(before, place + end, place, put);
    lemma_replaced_at_match(place, end, put);
    let with_path = replaced(pattern, place, put);
    let tail = " RT_MANIFEST \""@ + put + end;
    assert(with_path =~= first + (mark + tail));
    // the name goes where the pattern has its mark, and nowhere else
    lemma_replaced_after_plain(first, mark + tail, mark, name);
    lemma_replaced_at_match(mark, tail, name);
    assert(free_of(tail, '['));
    lemma_replaced_plain(tail, mark, name);
    assert(first + (name + tail) =~= first + name + " RT_MANIFEST \""@ + put + end);
}

/// The script that names the manifest file at `path` as the manifest `id`.
pub fn manifest_script(id: u16, path: &str) -> (r: String)
    ensures
        r@ == manifest_script_text(id, path@),
{
    let mut name = "manifest".to_owned();
    append_decimal(&mut name, id as u32);
    let path = replace(path, "\\", "/");
    let with_path = replace(
        "#define RT_MANIFEST 24\n[ID] RT_MANIFEST \"[PATH]\"\n",
        "[PATH]",
        path.as_str(),
    );
    replace(with_path.as_str(), "[ID]", name.as_str())
}

/// Where the script of the manifest `id` is written: `manifest`, the
/// identifier and `.rc`, in the directory `out_dir`.
pub fn manifest_script_path(out_dir: &str, id: u16) -> (r: String)
    ensures
        r@ == out_dir@ + "/manifest"@ + decimal(id as nat) + ".rc"@,
{
    let mut r = out_dir.to_owned();
    r.append("/manifest");
    append_decimal(&mut r, id as u32);
    r.append(".rc");
    r
}

} // verus!
