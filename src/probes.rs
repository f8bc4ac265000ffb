use vstd::prelude::*;
use crate::results::{CheckerResult, ResultView, fail_view, pass_view};

verus! {

/// What `stat` reported about a path: permission bits and owning ids.
#[derive(Clone, Copy, Debug, PartialEq, Eq, Structural)]
pub struct FileStat {
    pub mode: u32,
    pub uid: u32,
    pub gid: u32,
}

/// Relies on libc::S_IXUSR, the owner-execute permission bit.
#[verifier::external_body]
fn s_ixusr() -> (r: u32)
    ensures
        r == 0o100,
{
    libc::S_IXUSR
}

/// Relies on libc::S_IRWXG, the group read, write and execute bits.
#[verifier::external_body]
fn s_irwxg() -> (r: u32)
    ensures
        r == 0o070,
{
    libc::S_IRWXG
}

/// Relies on libc::S_IXGRP, the group-execute permission bit.
#[verifier::external_body]
fn s_ixgrp() -> (r: u32)
    ensures
        r == 0o010,
{
    libc::S_IXGRP
}

/// Relies on libc::S_IWGRP, the group-write permission bit.
#[verifier::external_body]
fn s_iwgrp() -> (r: u32)
    ensures
        r == 0o020,
{
    libc::S_IWGRP
}

/// Relies on libc::S_IRWXO, the other read, write and execute bits.
#[verifier::external_body]
fn s_irwxo() -> (r: u32)
    ensures
        r == 0o007,
{
    libc::S_IRWXO
}

/// Relies on libc::S_IXOTH, the other-execute permission bit.
#[verifier::external_body]
fn s_ixoth() -> (r: u32)
    ensures
        r == 0o001,
{
    libc::S_IXOTH
}

/// Relies on libc::S_IWOTH, the other-write permission bit.
#[verifier::external_body]
fn s_iwoth() -> (r: u32)
    ensures
        r == 0o002,
{
    libc::S_IWOTH
}

/// Forbidden bits of a file that may be at most `644`: execute for anyone,
/// write for group and other.
pub open spec fn spec_mask_at_most_644() -> u32 {
    0o133
}

/// Forbidden bits of a file that may be at most `600`: owner execute, and
/// everything for group and other.
pub open spec fn spec_mask_at_most_600() -> u32 {
    0o177
}

/// The mask of bits forbidden on a file that must be `644` or stricter.
pub fn mask_at_most_644() -> (r: u32)
    ensures
        r == spec_mask_at_most_644(),
{
    let r = s_ixusr() | s_ixgrp() | s_iwgrp() | s_ixoth() | s_iwoth();
    assert(0o100u32 | 0o010u32 | 0o020u32 | 0o001u32 | 0o002u32 == 0o133u32) by (bit_vector);
    r
}

/// The mask of bits forbidden on a file that must be `600` or stricter.
pub fn mask_at_most_600() -> (r: u32)
    ensures
        r == spec_mask_at_most_600(),
{
    let r = s_ixusr() | s_irwxg() | s_irwxo();
    assert(0o100u32 | 0o070u32 | 0o007u32 == 0o177u32) by (bit_vector);
    r
}

/// The decimal digit `d` (below ten) as a character.
pub open spec fn digit_char(d: nat) -> char {
    seq!['0', '1', '2', '3', '4', '5', '6', '7', '8', '9'][d as int]
}

/// The decimal notation of `n`, without leading zeros.
pub open spec fn decimal(n: nat) -> Seq<char>
    decreases n,
{
    if n < 10 {
        seq![digit_char(n)]
    } else {
        decimal(n / 10) + seq![digit_char(n % 10)]
    }
}

/// The decimal digit `d` (below ten) as a one-character string.
fn digit_str(d: u32) -> (r: &'static str)
    requires
        d < 10,
    ensures
        r@ == seq![digit_char(d as nat)],
{
    proof {
        reveal_strlit("0");
        reveal_strlit("1");
        reveal_strlit("2");
        reveal_strlit("3");
        reveal_strlit("4");
        reveal_strlit("5");
        reveal_strlit("6");
        reveal_strlit("7");
        reveal_strlit("8");
        reveal_strlit("9");
    }
    let r = match d {
        0 => "0",
        1 => "1",
        2 => "2",
        3 => "3",
        4 => "4",
        5 => "5",
        6 => "6",
        7 => "7",
        8 => "8",
        _ => "9",
    };
    assert(r@ =~= seq![digit_char(d as nat)]);
    r
}

/// The decimal notation of `n`.
pub fn decimal_string(n: u32) -> (r: String)
    ensures
        r@ == decimal(n as nat),
    decreases n,
{
    if n < 10 {
        String::from_str(digit_str(n))
    } else {
        let mut r = decimal_string(n / 10);
        r.append(digit_str(n % 10));
        r
    }
}

/// Diagnostic for a path that could not be stat'ed or read.
pub open spec fn unreadable_message(path: Seq<char>) -> Seq<char> {
    "unable to read '"@ + path + "'"@
}

/// Diagnostic for a file whose permission bits intersect the forbidden mask.
pub open spec fn mode_message(path: Seq<char>) -> Seq<char> {
    "file '"@ + path + "' has permissions beyond those allowed"@
}

/// Diagnostic for a file not owned by `root:root`.
pub open spec fn owner_message(path: Seq<char>, uid: u32, gid: u32) -> Seq<char> {
    "file '"@ + path + "' is owned by "@ + decimal(uid as nat) + ":"@ + decimal(gid as nat)
        + ", not root:root"@
}

/// What the mode probe decides for `path`, given what `stat` reported.
pub open spec fn spec_file_not_mode(path: Seq<char>, stat: Option<FileStat>, mask: u32) -> ResultView {
    match stat {
        None => fail_view(unreadable_message(path)),
        Some(s) => if s.mode & mask == 0 {
            pass_view()
        } else {
            fail_view(mode_message(path))
        },
    }
}

/// What the ownership probe decides for `path`, given what `stat` reported.
pub open spec fn spec_owner_and_group_root(path: Seq<char>, stat: Option<FileStat>) -> ResultView {
    match stat {
        None => fail_view(unreadable_message(path)),
        Some(s) => if s.uid == 0 && s.gid == 0 {
            pass_view()
        } else {
            fail_view(owner_message(path, s.uid, s.gid))
        },
    }
}

/// The unreadable-target diagnostic for `path`.
pub fn unreadable(path: &str) -> (r: String)
    ensures
        r@ == unreadable_message(path@),
{
    let mut r = String::from_str("unable to read '");
    r.append(path);
    r.append("'");
    r
}

/// Passes when none of the bits of `mask` is set in the mode that `stat`
/// reported for `path`; fails, naming the path, otherwise or when `path`
/// could not be stat'ed (`stat` is `None`).
pub fn check_file_not_mode(path: &str, stat: Option<FileStat>, mask: u32) -> (r: CheckerResult)
    ensures
        r@ == spec_file_not_mode(path@, stat, mask),
        r@.wf(),
{
    proof {
        reveal_strlit("unable to read '");
        reveal_strlit("file '");
    }
    match stat {
        None => CheckerResult::fail(unreadable(path)),
        Some(s) => {
            if s.mode & mask == 0 {
                CheckerResult::pass()
            } else {
                let mut e = String::from_str("file '");
                e.append(path);
                e.append("' has permissions beyond those allowed");
                CheckerResult::fail(e)
            }
        },
    }
}

/// Passes when `stat` reports both owning user and group of `path` as root
/// (id 0); fails, naming the actual owner and group, otherwise, and fails
/// naming the path when it could not be stat'ed (`stat` is `None`).
pub fn ensure_file_owner_and_group_root(path: &str, stat: Option<FileStat>) -> (r: CheckerResult)
    ensures
        r@ == spec_owner_and_group_root(path@, stat),
        r@.wf(),
{
    proof {
        reveal_strlit("unable to read '");
        reveal_strlit("file '");
    }
    match stat {
        None => CheckerResult::fail(unreadable(path)),
        Some(s) => {
            if s.uid == 0 && s.gid == 0 {
                CheckerResult::pass()
            } else {
                let mut e = String::from_str("file '");
                e.append(path);
                e.append("' is owned by ");
                let u = decimal_string(s.uid);
                e.append(u.as_str());
                e.append(":");
                let g = decimal_string(s.gid);
                e.append(g.as_str());
                e.append(", not root:root");
                CheckerResult::fail(e)
            }
        },
    }
}

} // verus!
