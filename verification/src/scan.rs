use vstd::prelude::*;
use crate::token::{Tok, TokV, Delim, is_id, is_punct, is_joint};

verus! {

/// What a depth-zero scan of a token region looks for.
#[derive(Clone, Copy, PartialEq, Eq, Structural, Debug)]
pub enum Needle {
    /// The opening brace of a body.
    OpenBrace,
    /// The keyword separating a trait path from the target type.
    KwFor,
    /// The keyword opening a where-clause.
    KwWhere,
    /// A separating comma.
    Comma,
    /// The lone colon separating a pattern from its type (not the first
    /// half of a path separator, and not its second half either).
    ColonSep,
    /// Whatever ends a non-method item first: a semicolon or an opening
    /// brace.
    ItemEnd,
}

/// Is the previous token the first half of an arrow (`->` or `=>`), so
/// that a `>` here closes no angle bracket?
pub open spec fn arrow_prev(ts: Seq<Tok>, i: int) -> bool {
    i > 0 && (is_joint(ts[i - 1], '-') || is_joint(ts[i - 1], '='))
}

/// Does position `i` of `ts` hit the needle, ignoring nesting?
pub open spec fn hits(ts: Seq<Tok>, i: int, n: Needle) -> bool {
    match n {
        Needle::OpenBrace => ts[i]@ == TokV::Open(Delim::Brace),
        Needle::KwFor => is_id(ts[i], "for"@),
        Needle::KwWhere => is_id(ts[i], "where"@),
        Needle::Comma => is_punct(ts[i], ','),
        Needle::ColonSep => is_punct(ts[i], ':') && !(i > 0 && is_joint(ts[i - 1], ':')) && !(
        is_joint(ts[i], ':') && i + 1 < ts.len() && is_punct(ts[i + 1], ':')),
        Needle::ItemEnd => is_punct(ts[i], ';') || ts[i]@ == TokV::Open(Delim::Brace),
    }
}

/// The first position in `[i, end)` that hits the needle at group depth
/// zero and angle depth zero.  `gd` and `ad` are the depths already open
/// at `i`.  A stray closing delimiter ends the scan with no result.
pub open spec fn find0(ts: Seq<Tok>, i: int, end: int, gd: int, ad: int, n: Needle) -> Option<
    int,
>
    decreases end - i,
{
    if i >= end {
        None
    } else if gd == 0 && ad == 0 && hits(ts, i, n) {
        Some(i)
    } else {
        match ts[i]@ {
            TokV::Open(_) => find0(ts, i + 1, end, gd + 1, ad, n),
            TokV::Close(_) => if gd == 0 {
                None
            } else {
                find0(ts, i + 1, end, gd - 1, ad, n)
            },
            TokV::Punct(c, _) => if gd == 0 && c == '<' {
                find0(ts, i + 1, end, gd, ad + 1, n)
            } else if gd == 0 && c == '>' && ad > 0 && !arrow_prev(ts, i) {
                find0(ts, i + 1, end, gd, ad - 1, n)
            } else {
                find0(ts, i + 1, end, gd, ad, n)
            },
            _ => find0(ts, i + 1, end, gd, ad, n),
        }
    }
}

/// The position of the closing delimiter matching the `depth` opening
/// delimiters still open at `i`.
pub open spec fn close_from(ts: Seq<Tok>, i: int, end: int, depth: int) -> Option<int>
    decreases end - i,
{
    if i >= end {
        None
    } else {
        match ts[i]@ {
            TokV::Open(_) => close_from(ts, i + 1, end, depth + 1),
            TokV::Close(_) => if depth == 1 {
                Some(i)
            } else {
                close_from(ts, i + 1, end, depth - 1)
            },
            _ => close_from(ts, i + 1, end, depth),
        }
    }
}

/// The position of the `>` closing the `ad` angle brackets still open at
/// `i`, with delimited groups skipped wholesale.
pub open spec fn angle_close(ts: Seq<Tok>, i: int, end: int, gd: int, ad: int) -> Option<int>
    decreases end - i,
{
    if i >= end {
        None
    } else {
        match ts[i]@ {
            TokV::Open(_) => angle_close(ts, i + 1, end, gd + 1, ad),
            TokV::Close(_) => if gd == 0 {
                None
            } else {
                angle_close(ts, i + 1, end, gd - 1, ad)
            },
            TokV::Punct(c, _) => if gd == 0 && c == '<' {
                angle_close(ts, i + 1, end, gd, ad + 1)
            } else if gd == 0 && c == '>' && !arrow_prev(ts, i) {
                if ad == 1 {
                    Some(i)
                } else {
                    angle_close(ts, i + 1, end, gd, ad - 1)
                }
            } else {
                angle_close(ts, i + 1, end, gd, ad)
            },
            _ => angle_close(ts, i + 1, end, gd, ad),
        }
    }
}

/// Does position `i` hit the needle?  (Executable form of `hits`.)
pub fn check_hit(ts: &Vec<Tok>, i: usize, n: Needle) -> (b: bool)
    requires
        i < ts@.len(),
    ensures
        b == hits(ts@, i as int, n),
{
    match n {
        Needle::OpenBrace => ts[i].reads_open(Delim::Brace),
        Needle::KwFor => ts[i].reads_ident("for"),
        Needle::KwWhere => ts[i].reads_ident("where"),
        Needle::Comma => ts[i].reads_punct(','),
        Needle::ColonSep => ts[i].reads_punct(':') && !(i > 0 && ts[i - 1].reads_joint(':'))
            && !(ts[i].reads_joint(':') && i < ts.len() - 1 && ts[i + 1].reads_punct(':')),
        Needle::ItemEnd => ts[i].reads_punct(';') || ts[i].reads_open(Delim::Brace),
    }
}

/// Executable form of `find0`.
pub fn scan_find0(ts: &Vec<Tok>, i: usize, end: usize, gd: usize, ad: usize, n: Needle) -> (r:
    Option<usize>)
    requires
        i <= end <= ts@.len(),
        gd <= i,
        ad <= i,
    ensures
        match r {
            Some(k) => find0(ts@, i as int, end as int, gd as int, ad as int, n) == Some(
                k as int,
            ) && i <= k < end,
            None => find0(ts@, i as int, end as int, gd as int, ad as int, n) is None,
        },
    decreases end - i,
{
    if i >= end {
        None
    } else if gd == 0 && ad == 0 && check_hit(ts, i, n) {
        Some(i)
    } else {
        match &ts[i] {
            Tok::Open(_) => scan_find0(ts, i + 1, end, gd + 1, ad, n),
            Tok::Close(_) => if gd == 0 {
                None
            } else {
                scan_find0(ts, i + 1, end, gd - 1, ad, n)
            },
            Tok::Punct(c, _) => if gd == 0 && *c == '<' {
                scan_find0(ts, i + 1, end, gd, ad + 1, n)
            } else if gd == 0 && *c == '>' && ad > 0 && !(i > 0 && (ts[i - 1].reads_joint('-')
                || ts[i - 1].reads_joint('='))) {
                scan_find0(ts, i + 1, end, gd, ad - 1, n)
            } else {
                scan_find0(ts, i + 1, end, gd, ad, n)
            },
            _ => scan_find0(ts, i + 1, end, gd, ad, n),
        }
    }
}

/// Executable form of `close_from`.
pub fn scan_close(ts: &Vec<Tok>, i: usize, end: usize, depth: usize) -> (r: Option<usize>)
    requires
        i <= end <= ts@.len(),
        1 <= depth <= i,
    ensures
        match r {
            Some(k) => close_from(ts@, i as int, end as int, depth as int) == Some(k as int)
                && i <= k < end,
            None => close_from(ts@, i as int, end as int, depth as int) is None,
        },
    decreases end - i,
{
    if i >= end {
        None
    } else {
        match &ts[i] {
            Tok::Open(_) => scan_close(ts, i + 1, end, depth + 1),
            Tok::Close(_) => if depth == 1 {
                Some(i)
            } else {
                scan_close(ts, i + 1, end, depth - 1)
            },
            _ => scan_close(ts, i + 1, end, depth),
        }
    }
}

/// Executable form of `angle_close`.
pub fn scan_angle_close(ts: &Vec<Tok>, i: usize, end: usize, gd: usize, ad: usize) -> (r: Option<
    usize,
>)
    requires
        i <= end <= ts@.len(),
        1 <= ad <= i,
        gd <= i,
    ensures
        match r {
            Some(k) => angle_close(ts@, i as int, end as int, gd as int, ad as int) == Some(
                k as int,
            ) && i <= k < end,
            None => angle_close(ts@, i as int, end as int, gd as int, ad as int) is None,
        },
    decreases end - i,
{
    if i >= end {
        None
    } else {
        match &ts[i] {
            Tok::Open(_) => scan_angle_close(ts, i + 1, end, gd + 1, ad),
            Tok::Close(_) => if gd == 0 {
                None
            } else {
                scan_angle_close(ts, i + 1, end, gd - 1, ad)
            },
            Tok::Punct(c, _) => if gd == 0 && *c == '<' {
                scan_angle_close(ts, i + 1, end, gd, ad + 1)
            } else if gd == 0 && *c == '>' && !(i > 0 && (ts[i - 1].reads_joint('-')
                || ts[i - 1].reads_joint('='))) {
                if ad == 1 {
                    Some(i)
                } else {
                    scan_angle_close(ts, i + 1, end, gd, ad - 1)
                }
            } else {
                scan_angle_close(ts, i + 1, end, gd, ad)
            },
            _ => scan_angle_close(ts, i + 1, end, gd, ad),
        }
    }
}

} // verus!
