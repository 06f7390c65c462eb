//! The whole resource and the script that states it.

use crate::lines::{join_lines, lemma_join_lines_concat, lemma_join_lines_push, put_line};
use crate::versioninfo::file_info::{FileInfo, FileInfoView};
use crate::versioninfo::file_os::FileOS;
use crate::versioninfo::file_type::FileType;
use crate::versioninfo::flags::{FileFlagMask, FileFlags};
use crate::versioninfo::version::Version;
use vstd::prelude::*;

verus! {

/// The version information of one executable. The blocks of strings keep
/// the order they were given in: the script writes them, and the entries of
/// the translation table, in that order.
#[derive(Debug)]
pub struct VersionInfo {
    /// The binary version of the file.
    pub file_version: Version,
    /// The binary version of the product the file belongs to.
    pub product_version: Version,
    /// Which bits of the file flags are valid.
    pub file_flag_mask: FileFlagMask,
    /// The attributes of the file.
    pub file_flags: FileFlags,
    /// The operating system the file was made for.
    pub file_os: FileOS,
    /// The type of the file, with its subtype.
    pub file_type: FileType,
    /// The blocks of strings, one for each language.
    pub file_info: Vec<FileInfo>,
}

/// What a resource holds: its fields, and its blocks of strings as a
/// sequence of what each of them holds.
pub struct VersionInfoView {
    pub file_version: Version,
    pub product_version: Version,
    pub file_flag_mask: FileFlagMask,
    pub file_flags: FileFlags,
    pub file_os: FileOS,
    pub file_type: FileType,
    pub file_info: Seq<FileInfoView>,
}

impl View for VersionInfo {
    type V = VersionInfoView;

    open spec fn view(&self) -> VersionInfoView {
        VersionInfoView {
            file_version: self.file_version,
            product_version: self.product_version,
            file_flag_mask: self.file_flag_mask,
            file_flags: self.file_flags,
            file_os: self.file_os,
            file_type: self.file_type,
            file_info: self.file_info@.map_values(|info: FileInfo| info@),
        }
    }
}

/// The lines of the blocks of `infos`, block after block.
pub open spec fn blocks_lines(infos: Seq<FileInfoView>) -> Seq<Seq<char>>
    decreases infos.len(),
{
    if infos.len() == 0 {
        Seq::empty()
    } else {
        blocks_lines(infos.drop_last()) + infos.last().block_lines()
    }
}

/// The entries that `infos` add to the translation table, one after another.
pub open spec fn translations(infos: Seq<FileInfoView>) -> Seq<char>
    decreases infos.len(),
{
    if infos.len() == 0 {
        Seq::empty()
    } else {
        translations(infos.drop_last()) + infos.last().translation()
    }
}

impl VersionInfoView {
    /// The lines that open the script and state the fixed fields of the
    /// root block.
    pub open spec fn root_lines(self) -> Seq<Seq<char>> {
        seq![
            "// This resource script was autogenerated"@,
            "// Do not change manually!!!"@,
            "#include<winver.h>"@,
            "VS_VERSION_INFO VERSIONINFO"@,
            "FILEVERSION     "@ + self.file_version.text(),
            "PRODUCTVERSION  "@ + self.product_version.text(),
            "FILEFLAGSMASK   "@ + self.file_flag_mask.text(),
            "FILEFLAGS       "@ + self.file_flags.text(),
            "FILEOS          "@ + self.file_os.text(),
            "FILETYPE        "@ + self.file_type.text(),
            "FILESUBTYPE     "@ + self.file_type.subtype_text(),
        ]
    }

    /// The line of the translation table.
    pub open spec fn translation_line(self) -> Seq<char> {
        "  VALUE \"Translation\""@ + translations(self.file_info)
    }

    /// The lines of the string table and of the translation table, an
    /// empty line between the two.
    pub open spec fn table_lines(self) -> Seq<Seq<char>> {
        seq![" BLOCK \"StringFileInfo\""@, " BEGIN"@] + blocks_lines(self.file_info) + seq![
            " END"@,
            ""@,
            " BLOCK \"VarFileInfo\""@,
            " BEGIN"@,
            self.translation_line(),
            " END"@,
        ]
    }

    /// The lines inside the root block: the two tables where there is at
    /// least one block of strings, nothing where there is none.
    pub open spec fn body_lines(self) -> Seq<Seq<char>> {
        if self.file_info.len() > 0 {
            self.table_lines()
        } else {
            Seq::empty()
        }
    }

    /// The lines of the script.
    pub open spec fn script_lines(self) -> Seq<Seq<char>> {
        self.root_lines() + seq!["BEGIN"@] + self.body_lines() + seq!["END"@]
    }

    /// The script: its lines, each closed by a line feed.
    pub open spec fn script(self) -> Seq<char> {
        join_lines(self.script_lines())
    }
}

/// The script is a function of what the resource holds: two resources that
/// hold the same give the same script, so writing one resource twice gives
/// the same text twice.
pub proof fn lemma_same_resource_same_script(
    a: VersionInfo,
    b: VersionInfo,
    first: String,
    second: String,
)
    requires
        a@ == b@,
        first@ == a@.script(),
        second@ == b@.script(),
    ensures
        first@ == second@,
{
}

/// A resource without blocks of strings has a script of thirteen lines:
/// the root lines, `BEGIN` and `END`. None of them is indented, so the
/// script holds no line of a table.
pub proof fn lemma_no_strings_no_tables(view: VersionInfoView)
    requires
        view.file_info.len() == 0,
    ensures
        view.script_lines() == view.root_lines() + seq!["BEGIN"@, "END"@],
        view.script_lines().len() == 13,
        forall|i: int|
            0 <= i < view.script_lines().len() ==> (#[trigger] view.script_lines()[i]).len() > 0
                && view.script_lines()[i][0] != ' ',
{
    reveal_strlit("// This resource script was autogenerated");
    reveal_strlit("// Do not change manually!!!");
    reveal_strlit("#include<winver.h>");
    reveal_strlit("VS_VERSION_INFO VERSIONINFO");
    reveal_strlit("FILEVERSION     ");
    reveal_strlit("PRODUCTVERSION  ");
    reveal_strlit("FILEFLAGSMASK   ");
    reveal_strlit("FILEFLAGS       ");
    reveal_strlit("FILEOS          ");
    reveal_strlit("FILETYPE        ");
    reveal_strlit("FILESUBTYPE     ");
    reveal_strlit("BEGIN");
    reveal_strlit("END");
    let lines = view.script_lines();
    assert(lines =~= view.root_lines() + seq!["BEGIN"@, "END"@]);
    assert forall|i: int| 0 <= i < lines.len() implies (#[trigger] lines[i]).len() > 0
        && lines[i][0] != ' ' by {
        if i < 11 {
            assert(lines[i] == view.root_lines()[i]);
        }
    }
}

/// A resource with blocks of strings has, between `BEGIN` and `END` of the
/// root block, the string table with the blocks in their order, an empty
/// line, and the translation table.
pub proof fn lemma_tables_follow_root(view: VersionInfoView)
    requires
        view.file_info.len() > 0,
    ensures
        view.script_lines() == view.root_lines() + seq!["BEGIN"@] + view.table_lines() + seq![
            "END"@,
        ],
        view.script_lines().len() == 21 + blocks_lines(view.file_info).len(),
{
}

/// Adds the line `label` followed by `value` to a text of `lines`.
fn put_field(out: &mut String, label: &str, value: String, Ghost(lines): Ghost<Seq<Seq<char>>>)
    requires
        old(out)@ == join_lines(lines),
    ensures
        final(out)@ == join_lines(lines.push(label@ + value@)),
{
    let mut line = label.to_owned();
    line.append(value.as_str());
    put_line(out, line.as_str());
    proof {
        lemma_join_lines_push(lines, label@ + value@);
    }
}

/// Adds `line` to a text of `lines`.
fn put_plain(out: &mut String, line: &str, Ghost(lines): Ghost<Seq<Seq<char>>>)
    requires
        old(out)@ == join_lines(lines),
    ensures
        final(out)@ == join_lines(lines.push(line@)),
{
    put_line(out, line);
    proof {
        lemma_join_lines_push(lines, line@);
    }
}

impl VersionInfo {
    /// Writes the script that states this resource.
    pub fn to_string(&self) -> (r: String)
        ensures
            r@ == self@.script(),
    {
        let ghost view = self@;
        let mut out = String::new();
        let ghost mut lines: Seq<Seq<char>> = Seq::empty();
        put_plain(&mut out, "// This resource script was autogenerated", Ghost(lines));
        proof {
            lines = lines.push("// This resource script was autogenerated"@);
        }
        put_plain(&mut out, "// Do not change manually!!!", Ghost(lines));
        proof {
            lines = lines.push("// Do not change manually!!!"@);
        }
        put_plain(&mut out, "#include<winver.h>", Ghost(lines));
        proof {
            lines = lines.push("#include<winver.h>"@);
        }
        put_plain(&mut out, "VS_VERSION_INFO VERSIONINFO", Ghost(lines));
        proof {
            lines = lines.push("VS_VERSION_INFO VERSIONINFO"@);
        }
        put_field(&mut out, "FILEVERSION     ", self.file_version.to_string(), Ghost(lines));
        proof {
            lines = lines.push("FILEVERSION     "@ + view.file_version.text());
        }
        put_field(&mut out, "PRODUCTVERSION  ", self.product_version.to_string(), Ghost(lines));
        proof {
            lines = lines.push("PRODUCTVERSION  "@ + view.product_version.text());
        }
        put_field(&mut out, "FILEFLAGSMASK   ", self.file_flag_mask.to_string(), Ghost(lines));
        proof {
            lines = lines.push("FILEFLAGSMASK   "@ + view.file_flag_mask.text());
        }
        put_field(&mut out, "FILEFLAGS       ", self.file_flags.to_string(), Ghost(lines));
        proof {
            lines = lines.push("FILEFLAGS       "@ + view.file_flags.text());
        }
        put_field(&mut out, "FILEOS          ", self.file_os.to_string(), Ghost(lines));
        proof {
            lines = lines.push("FILEOS          "@ + view.file_os.text());
        }
        put_field(&mut out, "FILETYPE        ", self.file_type.to_string(), Ghost(lines));
        proof {
            lines = lines.push("FILETYPE        "@ + view.file_type.text());
        }
        put_field(&mut out, "FILESUBTYPE     ", self.file_type.get_subvalue(), Ghost(lines));
        proof {
            lines = lines.push("FILESUBTYPE     "@ + view.file_type.subtype_text());
            assert(lines =~= view.root_lines());
        }
        put_plain(&mut out, "BEGIN", Ghost(lines));
        proof {
            lines = lines.push("BEGIN"@);
        }
        if self.file_info.len() > 0 {
            self.write_tables(&mut out, Ghost(lines));
            proof {
                lines = lines + view.table_lines();
            }
        }
        put_plain(&mut out, "END", Ghost(lines));
        proof {
            lines = lines.push("END"@);
            assert(lines =~= view.script_lines());
        }
        out
    }

    /// Adds the string table and the translation table to a text of `lines`.
    fn write_tables(&self, out: &mut String, Ghost(lines): Ghost<Seq<Seq<char>>>)
        requires
            old(out)@ == join_lines(lines),
        ensures
            final(out)@ == join_lines(lines + self@.table_lines()),
    {
        let ghost view = self@;
        let ghost mut head = lines;
        put_plain(out, " BLOCK \"StringFileInfo\"", Ghost(head));
        proof {
            head = head.push(" BLOCK \"StringFileInfo\""@);
        }
        put_plain(out, " BEGIN", Ghost(head));
        proof {
            head = head.push(" BEGIN"@);
            assert(view.file_info.take(0) =~= Seq::<FileInfoView>::empty());
            assert(head + blocks_lines(view.file_info.take(0)) =~= head);
        }
        let n = self.file_info.len();
        let mut i: usize = 0;
        while i < n
            invariant
                n == self.file_info.len(),
                view == self@,
                0 <= i <= n,
                out@ == join_lines(head + blocks_lines(view.file_info.take(i as int))),
            decreases n - i,
        {
            let ghost before = view.file_info.take(i as int);
            let ghost now = view.file_info.take(i + 1);
            self.file_info[i].write_block(out);
            proof {
                assert(now.drop_last() =~= before);
                assert(now.last() == self.file_info[i as int]@);
                lemma_join_lines_concat(head + blocks_lines(before), now.last().block_lines());
                assert(head + blocks_lines(before) + now.last().block_lines() =~= head
                    + blocks_lines(now));
            }
            i += 1;
        }
        proof {
            assert(view.file_info.take(n as int) =~= view.file_info);
            head = head + blocks_lines(view.file_info);
        }
        put_plain(out, " END", Ghost(head));
        proof {
            head = head.push(" END"@);
        }
        put_plain(out, "", Ghost(head));
        proof {
            head = head.push(""@);
        }
        put_plain(out, " BLOCK \"VarFileInfo\"", Ghost(head));
        proof {
            head = head.push(" BLOCK \"VarFileInfo\""@);
        }
        put_plain(out, " BEGIN", Ghost(head));
        proof {
            head = head.push(" BEGIN"@);
        }
        let mut row = "  VALUE \"Translation\"".to_owned();
        let mut i: usize = 0;
        assert(row@ =~= "  VALUE \"Translation\""@ + translations(view.file_info.take(0)));
        while i < n
            invariant
                n == self.file_info.len(),
                view == self@,
                0 <= i <= n,
                row@ == "  VALUE \"Translation\""@ + translations(view.file_info.take(i as int)),
            decreases n - i,
        {
            let ghost before = view.file_info.take(i as int);
            let ghost now = view.file_info.take(i + 1);
            self.file_info[i].write_translation(&mut row);
            proof {
                assert(now.drop_last() =~= before);
                assert(now.last() == self.file_info[i as int]@);
                assert(row@ =~= "  VALUE \"Translation\""@ + translations(now));
            }
            i += 1;
        }
        proof {
            assert(view.file_info.take(n as int) =~= view.file_info);
        }
        put_plain(out, row.as_str(), Ghost(head));
        proof {
            head = head.push(view.translation_line());
        }
        put_plain(out, " END", Ghost(head));
        proof {
            head = head.push(" END"@);
            assert(head =~= lines + view.table_lines());
        }
    }
}

} // verus!
