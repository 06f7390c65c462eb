//! One block of strings: the texts of a file in one language.

use crate::lines::{join_lines, lemma_join_lines_push, put_line};
use crate::versioninfo::charset::CharacterSet;
use crate::versioninfo::language::Language;
use crate::versioninfo::rcstring::{quoted, RCString};
use vstd::prelude::*;

verus! {

/// The strings that describe a file in one language. Seven of them are
/// required and always written, also where they are empty; five are
/// optional and written only where they are set.
#[derive(Debug)]
pub struct FileInfo {
    /// The language the strings are written in.
    pub lang: Language,
    /// The character set the strings are written in.
    pub charset: CharacterSet,
    /// Remarks for diagnostic purposes. Optional.
    pub comment: Option<RCString>,
    /// The company that made the file. Required.
    pub company_name: RCString,
    /// What the file is, for users. Required.
    pub file_description: RCString,
    /// The version of the file, such as `3.10` or `5.00.RC2`. Required.
    pub file_version: RCString,
    /// The internal name of the file, such as a module name. Required.
    pub internal_name: RCString,
    /// The copyright notices that apply to the file. Optional.
    pub legal_copyright: Option<RCString>,
    /// The trademarks that apply to the file. Optional.
    pub legal_trademarks: Option<RCString>,
    /// The name the file was made under, without a path. Required.
    pub original_filename: RCString,
    /// The product the file is shipped with. Required.
    pub product_name: RCString,
    /// The version of that product. Required.
    pub product_version: RCString,
    /// Who built a private version, and where. Optional.
    pub private_build: Option<RCString>,
    /// How a special build differs from the standard one. Optional.
    pub special_build: Option<RCString>,
}

/// The content of an optional string, where it is set.
pub open spec fn content(value: Option<RCString>) -> Option<Seq<char>> {
    match value {
        Some(s) => Some(s@),
        None => None,
    }
}

/// What a block of strings holds: its language, its character set and the
/// content of each string.
pub struct FileInfoView {
    pub lang: Language,
    pub charset: CharacterSet,
    pub comment: Option<Seq<char>>,
    pub company_name: Seq<char>,
    pub file_description: Seq<char>,
    pub file_version: Seq<char>,
    pub internal_name: Seq<char>,
    pub legal_copyright: Option<Seq<char>>,
    pub legal_trademarks: Option<Seq<char>>,
    pub original_filename: Seq<char>,
    pub product_name: Seq<char>,
    pub product_version: Seq<char>,
    pub private_build: Option<Seq<char>>,
    pub special_build: Option<Seq<char>>,
}

impl View for FileInfo {
    type V = FileInfoView;

    open spec fn view(&self) -> FileInfoView {
        FileInfoView {
            lang: self.lang,
            charset: self.charset,
            comment: content(self.comment),
            company_name: self.company_name@,
            file_description: self.file_description@,
            file_version: self.file_version@,
            internal_name: self.internal_name@,
            legal_copyright: content(self.legal_copyright),
            legal_trademarks: content(self.legal_trademarks),
            original_filename: self.original_filename@,
            product_name: self.product_name@,
            product_version: self.product_version@,
            private_build: content(self.private_build),
            special_build: content(self.special_build),
        }
    }
}

/// What stands in a line of a block before the value of the string `name`.
pub open spec fn value_head(name: Seq<char>) -> Seq<char> {
    "   VALUE \""@ + name + "\", "@
}

/// The line of a block that gives the string `name` the content `value`.
pub open spec fn value_line(name: Seq<char>, value: Seq<char>) -> Seq<char> {
    value_head(name) + quoted(value)
}

impl FileInfoView {
    /// The number of required strings.
    pub open spec fn required_count() -> int {
        7
    }

    /// The name under which the script writes the required string at place `k`.
    pub open spec fn required_name(k: int) -> Seq<char>
        recommends
            0 <= k < Self::required_count(),
    {
        if k == 0 {
            "CompanyName"@
        } else if k == 1 {
            "FileDescription"@
        } else if k == 2 {
            "FileVersion"@
        } else if k == 3 {
            "InternalName"@
        } else if k == 4 {
            "OriginalFilename"@
        } else if k == 5 {
            "ProductName"@
        } else {
            "ProductVersion"@
        }
    }

    /// The content of the required string at place `k`.
    pub open spec fn required(self, k: int) -> Seq<char>
        recommends
            0 <= k < Self::required_count(),
    {
        if k == 0 {
            self.company_name
        } else if k == 1 {
            self.file_description
        } else if k == 2 {
            self.file_version
        } else if k == 3 {
            self.internal_name
        } else if k == 4 {
            self.original_filename
        } else if k == 5 {
            self.product_name
        } else {
            self.product_version
        }
    }

    /// The number of optional strings.
    pub open spec fn optional_count() -> int {
        5
    }

    /// The name under which the script writes the optional string at place `k`.
    pub open spec fn optional_name(k: int) -> Seq<char>
        recommends
            0 <= k < Self::optional_count(),
    {
        if k == 0 {
            "Comments"@
        } else if k == 1 {
            "LegalCopyright"@
        } else if k == 2 {
            "LegalTrademarks"@
        } else if k == 3 {
            "PrivateBuild"@
        } else {
            "SpecialBuild"@
        }
    }

    /// The content of the optional string at place `k`, where it is set.
    pub open spec fn optional(self, k: int) -> Option<Seq<char>>
        recommends
            0 <= k < Self::optional_count(),
    {
        if k == 0 {
            self.comment
        } else if k == 1 {
            self.legal_copyright
        } else if k == 2 {
            self.legal_trademarks
        } else if k == 3 {
            self.private_build
        } else {
            self.special_build
        }
    }

    /// The lines of the first `k` required strings, one for each.
    pub open spec fn required_lines_upto(self, k: int) -> Seq<Seq<char>>
        decreases k,
    {
        if k <= 0 {
            Seq::empty()
        } else {
            self.required_lines_upto(k - 1).push(
                value_line(Self::required_name(k - 1), self.required(k - 1)),
            )
        }
    }

    /// The lines of the first `k` optional strings: one for each that is
    /// set, none for the others.
    pub open spec fn optional_lines_upto(self, k: int) -> Seq<Seq<char>>
        decreases k,
    {
        if k <= 0 {
            Seq::empty()
        } else {
            match self.optional(k - 1) {
                Some(value) => self.optional_lines_upto(k - 1).push(
                    value_line(Self::optional_name(k - 1), value),
                ),
                None => self.optional_lines_upto(k - 1),
            }
        }
    }

    /// The lines that give the strings their content: the required ones,
    /// then the optional ones that are set.
    pub open spec fn value_lines(self) -> Seq<Seq<char>> {
        self.required_lines_upto(Self::required_count()) + self.optional_lines_upto(
            Self::optional_count(),
        )
    }

    /// The key of the block: the code of the language, then the code page
    /// in hexadecimal.
    pub open spec fn key(self) -> Seq<char> {
        self.lang.code() + self.charset.hex()
    }

    /// The lines of the block: its key, its opening, the strings, its end.
    pub open spec fn block_lines(self) -> Seq<Seq<char>> {
        seq!["  BLOCK \""@ + self.key() + "\""@, "  BEGIN"@] + self.value_lines() + seq![
            "  END"@,
        ]
    }

    /// What the block adds to the translation table: the code of the
    /// language in hexadecimal and the code page in decimal.
    pub open spec fn translation(self) -> Seq<char> {
        ", 0x"@ + self.lang.code() + ", "@ + self.charset.dec()
    }
}

/// Whether `line` is a line that gives a content to the string `name`.
pub open spec fn names_string(line: Seq<char>, name: Seq<char>) -> bool {
    value_head(name).is_prefix_of(line)
}

impl FileInfoView {
    /// How many of the first `k` optional strings are set.
    pub open spec fn set_before(self, k: int) -> int
        decreases k,
    {
        if k <= 0 {
            0
        } else if self.optional(k - 1) is Some {
            self.set_before(k - 1) + 1
        } else {
            self.set_before(k - 1)
        }
    }

    /// Whether some line of the block gives a content to the string `name`.
    pub open spec fn writes(self, name: Seq<char>) -> bool {
        exists|i: int|
            0 <= i < self.block_lines().len() && names_string(#[trigger] self.block_lines()[i], name)
    }

    /// Whether place `i` among the lines of the first `n` optional strings
    /// holds the line of one that is set.
    pub open spec fn holds_set_string(self, n: int, i: int) -> bool {
        exists|k: int|
            0 <= k < n && self.optional(k) is Some && #[trigger] value_line(
                Self::optional_name(k),
                self.optional(k)->0,
            ) == self.optional_lines_upto(n)[i]
    }
}

/// A name is plain where it holds no double quote.
pub open spec fn plain_name(name: Seq<char>) -> bool {
    forall|i: int| 0 <= i < name.len() ==> #[trigger] name[i] != '"'
}

/// The line of one string is not also a line of a string of another name.
pub proof fn lemma_line_names_one_string(a: Seq<char>, value: Seq<char>, b: Seq<char>)
    requires
        plain_name(a),
        plain_name(b),
        names_string(value_line(a, value), b),
    ensures
        a == b,
{
    reveal_strlit("   VALUE \"");
    reveal_strlit("\", ");
    let line = value_line(a, value);
    let head = value_head(b);
    assert(head =~= line.subrange(0, head.len() as int));
    assert forall|i: int| 0 <= i < head.len() implies head[i] == line[i] by {
        assert(line.subrange(0, head.len() as int)[i] == line[i]);
    }
    if a.len() < b.len() {
        assert(line[10 + a.len() as int] == '"');
        assert(head[10 + a.len() as int] == b[a.len() as int]);
    } else if b.len() < a.len() {
        assert(head[10 + b.len() as int] == '"');
        assert(line[10 + b.len() as int] == a[b.len() as int]);
    } else {
        assert forall|i: int| 0 <= i < a.len() implies a[i] == b[i] by {
            assert(line[10 + i] == a[i]);
            assert(head[10 + i] == b[i]);
        }
        assert(a =~= b);
    }
}

/// The twelve names are plain, and no optional string shares its name with
/// another string.
pub proof fn lemma_names(j: int, k: int)
    requires
        0 <= k < FileInfoView::optional_count(),
    ensures
        plain_name(FileInfoView::optional_name(k)),
        0 <= j < FileInfoView::required_count() ==> plain_name(FileInfoView::required_name(j))
            && FileInfoView::required_name(j) != FileInfoView::optional_name(k),
        0 <= j < FileInfoView::optional_count() && j != k ==> FileInfoView::optional_name(j)
            != FileInfoView::optional_name(k),
{
    reveal_strlit("CompanyName");
    reveal_strlit("FileDescription");
    reveal_strlit("FileVersion");
    reveal_strlit("InternalName");
    reveal_strlit("OriginalFilename");
    reveal_strlit("ProductName");
    reveal_strlit("ProductVersion");
    reveal_strlit("Comments");
    reveal_strlit("LegalCopyright");
    reveal_strlit("LegalTrademarks");
    reveal_strlit("PrivateBuild");
    reveal_strlit("SpecialBuild");
    let name = FileInfoView::optional_name(k);
    if 0 <= j < FileInfoView::required_count() {
        let other = FileInfoView::required_name(j);
        assert(other.len() != name.len() || other[0] != name[0]);
    }
    if 0 <= j < FileInfoView::optional_count() && j != k {
        let other = FileInfoView::optional_name(j);
        assert(other.len() != name.len() || other[0] != name[0] || other[5] != name[5]);
    }
}

/// The first `n` required strings have one line each, in their order.
pub proof fn lemma_required_lines_upto(info: FileInfoView, n: int)
    requires
        0 <= n <= FileInfoView::required_count(),
    ensures
        info.required_lines_upto(n).len() == n,
        forall|k: int|
            0 <= k < n ==> #[trigger] info.required_lines_upto(n)[k] == value_line(
                FileInfoView::required_name(k),
                info.required(k),
            ),
    decreases n,
{
    if n > 0 {
        lemma_required_lines_upto(info, n - 1);
    }
}

/// Among the first `n` optional strings, each that is set has its line at
/// the place given by the number of set ones before it, and every line
/// belongs to one that is set.
pub proof fn lemma_optional_lines_upto(info: FileInfoView, n: int)
    requires
        0 <= n <= FileInfoView::optional_count(),
    ensures
        info.optional_lines_upto(n).len() == info.set_before(n),
        forall|k: int|
            0 <= k < n && info.optional(k) is Some ==> 0 <= #[trigger] info.set_before(k)
                < info.set_before(n) && info.optional_lines_upto(n)[info.set_before(k)]
                == value_line(FileInfoView::optional_name(k), info.optional(k)->0),
        forall|i: int|
            0 <= i < info.optional_lines_upto(n).len() ==> #[trigger] info.holds_set_string(n, i),
    decreases n,
{
    if n > 0 {
        lemma_optional_lines_upto(info, n - 1);
        let before = info.optional_lines_upto(n - 1);
        let now = info.optional_lines_upto(n);
        assert forall|i: int| 0 <= i < now.len() implies #[trigger] info.holds_set_string(
            n,
            i,
        ) by {
            if i < before.len() {
                assert(info.holds_set_string(n - 1, i));
                let k = choose|k: int|
                    0 <= k < n - 1 && info.optional(k) is Some && #[trigger] value_line(
                        FileInfoView::optional_name(k),
                        info.optional(k)->0,
                    ) == before[i];
                assert(value_line(FileInfoView::optional_name(k), info.optional(k)->0) == now[i]);
            } else {
                assert(value_line(FileInfoView::optional_name(n - 1), info.optional(n - 1)->0)
                    == now[i]);
            }
        }
    }
}

/// Every required string has its line in the block, whatever it holds; an
/// optional string has a line if and only if it is set. The lines stand in
/// the order of the declaration and give each string its own content.
pub proof fn lemma_strings_written(info: FileInfoView)
    ensures
        info.value_lines().len() == FileInfoView::required_count() + info.set_before(
            FileInfoView::optional_count(),
        ),
        forall|k: int|
            0 <= k < FileInfoView::required_count() ==> #[trigger] info.value_lines()[k]
                == value_line(FileInfoView::required_name(k), info.required(k)),
        forall|k: int|
            0 <= k < FileInfoView::optional_count() && info.optional(k) is Some
                ==> 0 <= #[trigger] info.set_before(k) < info.set_before(
                FileInfoView::optional_count(),
            ) && info.value_lines()[FileInfoView::required_count() + info.set_before(k)]
                == value_line(FileInfoView::optional_name(k), info.optional(k)->0),
        forall|k: int|
            0 <= k < FileInfoView::required_count() ==> info.writes(
                #[trigger] FileInfoView::required_name(k),
            ),
        forall|k: int|
            0 <= k < FileInfoView::optional_count() ==> (info.writes(
                #[trigger] FileInfoView::optional_name(k),
            ) <==> info.optional(k) is Some),
{
    let required = info.required_lines_upto(FileInfoView::required_count());
    let optional = info.optional_lines_upto(FileInfoView::optional_count());
    let block = info.block_lines();
    lemma_required_lines_upto(info, FileInfoView::required_count());
    lemma_optional_lines_upto(info, FileInfoView::optional_count());
    assert forall|k: int| 0 <= k < FileInfoView::required_count() implies info.writes(
        #[trigger] FileInfoView::required_name(k),
    ) by {
        let line = value_line(FileInfoView::required_name(k), info.required(k));
        assert(block[2 + k] == required[k]);
        lemma_head_leads_line(FileInfoView::required_name(k), info.required(k));
    }
    assert forall|k: int| 0 <= k < FileInfoView::optional_count() implies (info.writes(
        #[trigger] FileInfoView::optional_name(k),
    ) <==> info.optional(k) is Some) by {
        let name = FileInfoView::optional_name(k);
        if info.optional(k) is Some {
            let at = info.set_before(k);
            assert(block[9 + at] == optional[at]);
            lemma_head_leads_line(name, info.optional(k)->0);
        }
        if info.writes(name) {
            let i = choose|i: int|
                0 <= i < block.len() && names_string(#[trigger] block[i], name);
            lemma_names(0, k);
            reveal_strlit("   VALUE \"");
            reveal_strlit("  BEGIN");
            reveal_strlit("  END");
            reveal_strlit("  BLOCK \"");
            let head = value_head(name);
            assert(head =~= block[i].subrange(0, head.len() as int));
            assert(head[2] == block[i].subrange(0, head.len() as int)[2]);
            assert(head[2] == ' ');
            if i < 2 {
            } else if i < 2 + FileInfoView::required_count() {
                let j = i - 2;
                assert(block[i] == required[j]);
                lemma_names(j, k);
                lemma_line_names_one_string(FileInfoView::required_name(j), info.required(j), name);
            } else if i < block.len() - 1 {
                let at = i - 9;
                assert(block[i] == optional[at]);
                assert(info.holds_set_string(FileInfoView::optional_count(), at));
                let j = choose|j: int|
                    0 <= j < FileInfoView::optional_count() && info.optional(j) is Some
                        && #[trigger] value_line(
                        FileInfoView::optional_name(j),
                        info.optional(j)->0,
                    ) == optional[at];
                lemma_names(j, k);
                lemma_names(0, j);
                lemma_line_names_one_string(
                    FileInfoView::optional_name(j),
                    info.optional(j)->0,
                    name,
                );
            } else {
            }
        }
    }
}

/// The line of a string begins with what names the string.
pub proof fn lemma_head_leads_line(name: Seq<char>, value: Seq<char>)
    ensures
        names_string(value_line(name, value), name),
{
    let line = value_line(name, value);
    let head = value_head(name);
    assert(head =~= line.subrange(0, head.len() as int));
}

/// Writes the line of one string.
fn put_value(out: &mut String, name: &str, value: &RCString)
    ensures
        final(out)@ == old(out)@ + value_line(name@, value@) + seq!['\n'],
{
    let mut line = "   VALUE \"".to_owned();
    line.append(name);
    line.append("\", ");
    let text = value.to_string();
    line.append(text.as_str());
    assert(line@ =~= value_line(name@, value@));
    put_line(out, line.as_str());
}

/// Takes the lines of the first `k` required strings to those of the first
/// `k + 1`.
fn put_required(
    out: &mut String,
    name: &str,
    value: &RCString,
    Ghost(start): Ghost<Seq<char>>,
    Ghost(head): Ghost<Seq<Seq<char>>>,
    Ghost(info): Ghost<FileInfoView>,
    Ghost(k): Ghost<int>,
)
    requires
        0 <= k < FileInfoView::required_count(),
        name@ == FileInfoView::required_name(k),
        value@ == info.required(k),
        old(out)@ == start + join_lines(head + info.required_lines_upto(k)),
    ensures
        final(out)@ == start + join_lines(head + info.required_lines_upto(k + 1)),
{
    put_value(out, name, value);
    proof {
        let line = value_line(name@, value@);
        lemma_join_lines_push(head + info.required_lines_upto(k), line);
        assert((head + info.required_lines_upto(k)).push(line) =~= head
            + info.required_lines_upto(k + 1));
        assert(out@ =~= start + join_lines(head + info.required_lines_upto(k + 1)));
    }
}

/// Takes the lines of the first `k` optional strings to those of the first
/// `k + 1`.
fn put_optional(
    out: &mut String,
    name: &str,
    value: &Option<RCString>,
    Ghost(start): Ghost<Seq<char>>,
    Ghost(head): Ghost<Seq<Seq<char>>>,
    Ghost(info): Ghost<FileInfoView>,
    Ghost(k): Ghost<int>,
)
    requires
        0 <= k < FileInfoView::optional_count(),
        name@ == FileInfoView::optional_name(k),
        content(*value) == info.optional(k),
        old(out)@ == start + join_lines(head + info.optional_lines_upto(k)),
    ensures
        final(out)@ == start + join_lines(head + info.optional_lines_upto(k + 1)),
{
    match value {
        Some(text) => {
            put_value(out, name, text);
            proof {
                let line = value_line(name@, text@);
                lemma_join_lines_push(head + info.optional_lines_upto(k), line);
                assert((head + info.optional_lines_upto(k)).push(line) =~= head
                    + info.optional_lines_upto(k + 1));
                assert(out@ =~= start + join_lines(head + info.optional_lines_upto(k + 1)));
            }
        },
        None => {},
    }
}

impl FileInfo {
    /// Appends the block of these strings to `out`, line by line.
    pub fn write_block(&self, out: &mut String)
        ensures
            final(out)@ == old(out)@ + join_lines(self@.block_lines()),
    {
        let ghost start = out@;
        let ghost info = self@;
        let mut first = "  BLOCK \"".to_owned();
        first.append(self.lang.to_hex());
        first.append(self.charset.to_hex());
        first.append("\"");
        assert(first@ =~= "  BLOCK \""@ + info.key() + "\""@);
        put_line(out, first.as_str());
        put_line(out, "  BEGIN");
        let ghost head = seq![first@, "  BEGIN"@];
        proof {
            lemma_join_lines_push(Seq::empty(), first@);
            lemma_join_lines_push(seq![first@], "  BEGIN"@);
            assert(seq![first@].push("  BEGIN"@) =~= head);
            assert(Seq::<Seq<char>>::empty().push(first@) =~= seq![first@]);
            assert(head + info.required_lines_upto(0) =~= head);
            assert(out@ =~= start + join_lines(head + info.required_lines_upto(0)));
        }
        put_required(out, "CompanyName", &self.company_name, Ghost(start), Ghost(head), Ghost(info), Ghost(0));
        put_required(out, "FileDescription", &self.file_description, Ghost(start), Ghost(head), Ghost(info), Ghost(1));
        put_required(out, "FileVersion", &self.file_version, Ghost(start), Ghost(head), Ghost(info), Ghost(2));
        put_required(out, "InternalName", &self.internal_name, Ghost(start), Ghost(head), Ghost(info), Ghost(3));
        put_required(out, "OriginalFilename", &self.original_filename, Ghost(start), Ghost(head), Ghost(info), Ghost(4));
        put_required(out, "ProductName", &self.product_name, Ghost(start), Ghost(head), Ghost(info), Ghost(5));
        put_required(out, "ProductVersion", &self.product_version, Ghost(start), Ghost(head), Ghost(info), Ghost(6));
        let ghost head = head + info.required_lines_upto(7);
        proof {
            assert(head + info.optional_lines_upto(0) =~= head);
        }
        put_optional(out, "Comments", &self.comment, Ghost(start), Ghost(head), Ghost(info), Ghost(0));
        put_optional(out, "LegalCopyright", &self.legal_copyright, Ghost(start), Ghost(head), Ghost(info), Ghost(1));
        put_optional(out, "LegalTrademarks", &self.legal_trademarks, Ghost(start), Ghost(head), Ghost(info), Ghost(2));
        put_optional(out, "PrivateBuild", &self.private_build, Ghost(start), Ghost(head), Ghost(info), Ghost(3));
        put_optional(out, "SpecialBuild", &self.special_build, Ghost(start), Ghost(head), Ghost(info), Ghost(4));
        put_line(out, "  END");
        proof {
            let body = head + info.optional_lines_upto(5);
            lemma_join_lines_push(body, "  END"@);
            assert(body.push("  END"@) =~= info.block_lines());
            assert(out@ =~= start + join_lines(info.block_lines()));
        }
    }

    /// Appends to `out` what these strings add to the translation table.
    pub fn write_translation(&self, out: &mut String)
        ensures
            final(out)@ == old(out)@ + self@.translation(),
    {
        out.append(", 0x");
        out.append(self.lang.to_hex());
        out.append(", ");
        out.append(self.charset.to_decimal());
        assert(out@ =~= old(out)@ + self@.translation());
    }
}

} // verus!
