//! The flag mask and the file flags of the root block.

use crate::digits::{decimal, decimal_string};
use crate::lines::{join_with, lemma_join_with_push};
use vstd::prelude::*;

verus! {

/// Which bits of the file flags are valid: the one well-known mask, or a
/// number of the caller's own.
#[derive(Clone, Copy, Debug, PartialEq, Eq, Structural)]
pub enum FileFlagMask {
    Win16,
    Custom(u32),
}

impl FileFlagMask {
    /// How the mask is written in a script: the symbol of the well-known
    /// mask, or the caller's number in decimal.
    pub open spec fn text(self) -> Seq<char> {
        match self {
            FileFlagMask::Win16 => "VS_FFI_FILEFLAGSMASK"@,
            FileFlagMask::Custom(i) => decimal(i as nat),
        }
    }

    /// Writes the mask as the script has it.
    pub fn to_string(&self) -> (r: String)
        ensures
            r@ == self.text(),
    {
        match self {
            FileFlagMask::Win16 => "VS_FFI_FILEFLAGSMASK".to_owned(),
            FileFlagMask::Custom(i) => decimal_string(*i),
        }
    }
}

/// Six attributes of a file, each set or not.
#[derive(Clone, Copy, Debug, PartialEq, Eq, Structural)]
pub struct FileFlags {
    /// The file holds debugging information or was built with debugging on.
    pub debug: bool,
    /// The file was changed and differs from the shipped file of its version.
    pub patched: bool,
    /// The file is a development version, not a released product.
    pub prerelease: bool,
    /// The file was not built by the standard release procedure.
    pub privatebuild: bool,
    /// The version information was made up on the fly.
    pub infoinferred: bool,
    /// The file is a variation of the standard file of its version.
    pub specialbuild: bool,
}

impl FileFlags {
    /// The number of attributes.
    pub open spec fn count() -> int {
        6
    }

    /// Whether the attribute at place `k` of the declaration is set.
    pub open spec fn is_set(self, k: int) -> bool
        recommends
            0 <= k < Self::count(),
    {
        if k == 0 {
            self.debug
        } else if k == 1 {
            self.patched
        } else if k == 2 {
            self.prerelease
        } else if k == 3 {
            self.privatebuild
        } else if k == 4 {
            self.infoinferred
        } else {
            self.specialbuild
        }
    }

    /// The token that stands for the attribute at place `k` of the declaration.
    pub open spec fn token(k: int) -> Seq<char>
        recommends
            0 <= k < Self::count(),
    {
        if k == 0 {
            "VS_FF_DEBUG"@
        } else if k == 1 {
            "VS_FF_PATCHED"@
        } else if k == 2 {
            "VS_FF_PRERELEASE"@
        } else if k == 3 {
            "VS_FF_PRIVATEBUILD"@
        } else if k == 4 {
            "VS_FF_INFOINFERRED"@
        } else {
            "VS_FF_SPECIALBUILD"@
        }
    }

    /// The tokens of the set attributes among the first `k`, in the order of
    /// the declaration.
    pub open spec fn tokens_upto(self, k: int) -> Seq<Seq<char>>
        decreases k,
    {
        if k <= 0 {
            Seq::empty()
        } else if self.is_set(k - 1) {
            self.tokens_upto(k - 1).push(Self::token(k - 1))
        } else {
            self.tokens_upto(k - 1)
        }
    }

    /// The tokens of all set attributes, in the order of the declaration.
    pub open spec fn tokens(self) -> Seq<Seq<char>> {
        self.tokens_upto(Self::count())
    }

    /// How the flags are written in a script: the tokens of the set
    /// attributes with `" | "` between neighbours, or `0` where none is set.
    pub open spec fn text(self) -> Seq<char> {
        if self.tokens().len() == 0 {
            "0"@
        } else {
            join_with(self.tokens(), " | "@)
        }
    }

    /// How many of the first `k` attributes are set.
    pub open spec fn set_before(self, k: int) -> int
        decreases k,
    {
        if k <= 0 {
            0
        } else if self.is_set(k - 1) {
            self.set_before(k - 1) + 1
        } else {
            self.set_before(k - 1)
        }
    }

    /// Whether place `i` among the tokens of the first `n` attributes holds
    /// the token of a set attribute, namely of the one that has `i` set
    /// attributes before it.
    pub open spec fn holds_set_flag(self, n: int, i: int) -> bool {
        exists|k: int|
            0 <= k < n && self.is_set(k) && self.set_before(k) == i && #[trigger] Self::token(k)
                == self.tokens_upto(n)[i]
    }

    /// Writes the flags as the script has them.
    pub fn to_string(&self) -> (r: String)
        ensures
            r@ == self.text(),
    {
        let mut r = String::new();
        assert(r@ =~= join_with(self.tokens_upto(0), " | "@));
        let any = put_flag(&mut r, false, self.debug, "VS_FF_DEBUG", Ghost(*self), Ghost(0));
        let any = put_flag(&mut r, any, self.patched, "VS_FF_PATCHED", Ghost(*self), Ghost(1));
        let any = put_flag(&mut r, any, self.prerelease, "VS_FF_PRERELEASE", Ghost(*self), Ghost(2));
        let any = put_flag(
            &mut r,
            any,
            self.privatebuild,
            "VS_FF_PRIVATEBUILD",
            Ghost(*self),
            Ghost(3),
        );
        let any = put_flag(
            &mut r,
            any,
            self.infoinferred,
            "VS_FF_INFOINFERRED",
            Ghost(*self),
            Ghost(4),
        );
        let any = put_flag(
            &mut r,
            any,
            self.specialbuild,
            "VS_FF_SPECIALBUILD",
            Ghost(*self),
            Ghost(5),
        );
        if !any {
            r.append("0");
            assert(r@ =~= "0"@);
        }
        r
    }
}

/// Among the first `n` attributes, the token of each set one stands at the
/// place given by the number of set attributes before it, and every token
/// written belongs to a set attribute.
pub proof fn lemma_tokens_upto(flags: FileFlags, n: int)
    requires
        0 <= n <= FileFlags::count(),
    ensures
        flags.tokens_upto(n).len() == flags.set_before(n),
        forall|k: int|
            0 <= k < n && flags.is_set(k) ==> 0 <= #[trigger] flags.set_before(k)
                < flags.set_before(n) && flags.tokens_upto(n)[flags.set_before(k)]
                == FileFlags::token(k),
        forall|i: int|
            0 <= i < flags.tokens_upto(n).len() ==> #[trigger] flags.holds_set_flag(n, i),
    decreases n,
{
    if n > 0 {
        lemma_tokens_upto(flags, n - 1);
        let before = flags.tokens_upto(n - 1);
        let now = flags.tokens_upto(n);
        assert forall|i: int| 0 <= i < now.len() implies #[trigger] flags.holds_set_flag(
            n,
            i,
        ) by {
            if i < before.len() {
                assert(flags.holds_set_flag(n - 1, i));
                let k = choose|k: int|
                    0 <= k < n - 1 && flags.is_set(k) && flags.set_before(k) == i
                        && #[trigger] FileFlags::token(k) == before[i];
                assert(FileFlags::token(k) == now[i]);
            } else {
                assert(FileFlags::token(n - 1) == now[i]);
            }
        }
    }
}

/// The flags are written in the order of their declaration: debug, patched,
/// prerelease, private build, info inferred, special build. The token of a
/// set attribute stands after the tokens of all set attributes declared
/// before it, no token of an unset attribute is written, `" | "` stands
/// between neighbours, and with no attribute set the text is `0`.
pub proof fn lemma_flags_order_stable(flags: FileFlags)
    ensures
        flags.tokens().len() == flags.set_before(FileFlags::count()),
        forall|k: int|
            0 <= k < FileFlags::count() && flags.is_set(k) ==> 0 <= #[trigger] flags.set_before(k)
                < flags.tokens().len() && flags.tokens()[flags.set_before(k)] == FileFlags::token(
                k,
            ),
        forall|j: int, k: int|
            0 <= j < k < FileFlags::count() && flags.is_set(j) && flags.is_set(k)
                ==> #[trigger] flags.set_before(j) < #[trigger] flags.set_before(k),
        forall|i: int|
            0 <= i < flags.tokens().len() ==> #[trigger] flags.holds_set_flag(
                FileFlags::count(),
                i,
            ),
        flags.tokens().len() > 0 ==> flags.text() == join_with(flags.tokens(), " | "@),
        (forall|k: int| 0 <= k < FileFlags::count() ==> !flags.is_set(k)) <==> flags.text() == "0"@,
{
    lemma_tokens_upto(flags, FileFlags::count());
    assert forall|j: int, k: int|
        0 <= j < k < FileFlags::count() && flags.is_set(j) && flags.is_set(
            k,
        ) implies #[trigger] flags.set_before(j) < #[trigger] flags.set_before(k) by {
        lemma_set_before_grows(flags, j + 1, k);
    }
    if flags.tokens().len() > 0 {
        lemma_joined_tokens_are_not_zero(flags, FileFlags::count());
        assert(flags.holds_set_flag(FileFlags::count(), 0));
        let k = choose|k: int|
            0 <= k < FileFlags::count() && flags.is_set(k) && flags.set_before(k) == 0
                && #[trigger] FileFlags::token(k) == flags.tokens()[0];
        assert(flags.is_set(k));
    } else {
        assert forall|k: int| 0 <= k < FileFlags::count() implies !flags.is_set(k) by {
            if flags.is_set(k) {
                assert(0 <= flags.set_before(k) < flags.tokens().len());
            }
        }
    }
}

/// The count of set attributes does not fall as more attributes are counted.
pub proof fn lemma_set_before_grows(flags: FileFlags, j: int, k: int)
    requires
        0 <= j <= k,
    ensures
        flags.set_before(j) <= flags.set_before(k),
    decreases k - j,
{
    if j < k {
        lemma_set_before_grows(flags, j, k - 1);
    }
}

/// A text of one or more tokens begins with the letter `V`, so it is never
/// the text `0`.
proof fn lemma_joined_tokens_are_not_zero(flags: FileFlags, n: int)
    requires
        0 <= n <= FileFlags::count(),
        flags.tokens_upto(n).len() > 0,
    ensures
        join_with(flags.tokens_upto(n), " | "@).len() > 0,
        join_with(flags.tokens_upto(n), " | "@)[0] == 'V',
        join_with(flags.tokens_upto(n), " | "@) != "0"@,
    decreases n,
{
    reveal_strlit("VS_FF_DEBUG");
    reveal_strlit("VS_FF_PATCHED");
    reveal_strlit("VS_FF_PRERELEASE");
    reveal_strlit("VS_FF_PRIVATEBUILD");
    reveal_strlit("VS_FF_INFOINFERRED");
    reveal_strlit("VS_FF_SPECIALBUILD");
    reveal_strlit("0");
    let sep = " | "@;
    if flags.is_set(n - 1) {
        let before = flags.tokens_upto(n - 1);
        lemma_join_with_push(before, sep, FileFlags::token(n - 1));
        if before.len() > 0 {
            lemma_joined_tokens_are_not_zero(flags, n - 1);
        }
    } else {
        lemma_joined_tokens_are_not_zero(flags, n - 1);
    }
}

/// Takes the running text of the first `k` attributes to that of the first
/// `k + 1`, and says whether any token has been written so far.
fn put_flag(
    out: &mut String,
    any: bool,
    set: bool,
    name: &str,
    Ghost(flags): Ghost<FileFlags>,
    Ghost(k): Ghost<int>,
) -> (now: bool)
    requires
        0 <= k < FileFlags::count(),
        set == flags.is_set(k),
        name@ == FileFlags::token(k),
        old(out)@ == join_with(flags.tokens_upto(k), " | "@),
        any == (flags.tokens_upto(k).len() > 0),
    ensures
        final(out)@ == join_with(flags.tokens_upto(k + 1), " | "@),
        now == (flags.tokens_upto(k + 1).len() > 0),
{
    if set {
        proof {
            lemma_join_with_push(flags.tokens_upto(k), " | "@, name@);
        }
        if any {
            out.append(" | ");
        }
        out.append(name);
        assert(out@ =~= join_with(flags.tokens_upto(k + 1), " | "@));
        true
    } else {
        any
    }
}

} // verus!
