use vstd::prelude::*;
use crate::token::{Tok, TokV, Delim, is_id, is_punct, is_joint, copy_range, append_frag,
    is_ident_tok};
use crate::scan::{Needle, find0, close_from, angle_close, scan_find0, scan_close,
    scan_angle_close};
use crate::ast::{Receiver, Error, Param, ParamV, MethodItem, MethodV, Member, MemberV,
    Generics, GenericsV, ImplBlock, BlockV, params_v, members_v};

verus! {

/// The text of an identifier token (empty for any other token).
pub open spec fn ident_text(t: Tok) -> Seq<char> {
    match t@ {
        TokV::Ident(s) => s,
        _ => Seq::empty(),
    }
}

/// The tokens of the unit type `()`.
pub open spec fn unit_toks() -> Seq<Tok> {
    seq![Tok::Open(Delim::Paren), Tok::Close(Delim::Paren)]
}

/// The first position at or after `i` that no longer belongs to leading
/// attributes (`#[...]` pairs).
pub open spec fn skip_attrs(ts: Seq<Tok>, i: int, end: int) -> int
    decreases end - i,
{
    if i + 1 < end && is_punct(ts[i], '#') && ts[i + 1]@ == TokV::Open(Delim::Bracket) {
        match close_from(ts, i + 2, end, 1) {
            Some(c) => if i < c + 1 && c + 1 <= end {
                skip_attrs(ts, c + 1, end)
            } else {
                i
            },
            None => i,
        }
    } else {
        i
    }
}

/// The first position at or after `a` past a leading visibility marker
/// (`pub`, optionally with a parenthesized restriction).
pub open spec fn skip_vis(ts: Seq<Tok>, a: int, end: int) -> int {
    if a < end && is_id(ts[a], "pub"@) {
        if a + 1 < end && ts[a + 1]@ == TokV::Open(Delim::Paren) {
            match close_from(ts, a + 2, end, 1) {
                Some(c) => if c + 1 <= end {
                    c + 1
                } else {
                    a + 1
                },
                None => a + 1,
            }
        } else {
            a + 1
        }
    } else {
        a
    }
}

/// The receiver discipline of the first parameter fragment, if it is one
/// of the standard self-receiver forms.
pub open spec fn recv_class(f: Seq<Tok>) -> Option<Receiver> {
    if f.len() == 1 && is_id(f[0], "self"@) {
        Some(Receiver::Owned)
    } else if f.len() == 2 && is_id(f[0], "mut"@) && is_id(f[1], "self"@) {
        Some(Receiver::Owned)
    } else if f.len() == 2 && is_punct(f[0], '&') && is_id(f[1], "self"@) {
        Some(Receiver::Ref)
    } else if f.len() == 3 && is_punct(f[0], '&') && is_id(f[1], "mut"@) && is_id(
        f[2],
        "self"@,
    ) {
        Some(Receiver::MutRef)
    } else if f.len() == 4 && is_punct(f[0], '&') && is_joint(f[1], '\'') && (f[2]@ matches
        TokV::Ident(_)) && is_id(f[3], "self"@) {
        Some(Receiver::Ref)
    } else if f.len() == 5 && is_punct(f[0], '&') && is_joint(f[1], '\'') && (f[2]@ matches
        TokV::Ident(_)) && is_id(f[3], "mut"@) && is_id(f[4], "self"@) {
        Some(Receiver::MutRef)
    } else {
        None
    }
}

/// The parameters after the receiver: the fragments between depth-zero
/// commas, each split at its pattern/type colon.
pub open spec fn params_walk(ts: Seq<Tok>, i: int, hi: int) -> Result<Seq<ParamV>, Error>
    decreases hi - i,
{
    if i >= hi {
        Ok(Seq::empty())
    } else {
        let e: int = match find0(ts, i, hi, 0, 0, Needle::Comma) {
            Some(k) => k,
            None => hi,
        };
        let nx: int = if i < e + 1 && e + 1 <= hi {
            e + 1
        } else {
            hi
        };
        if i == e {
            params_walk(ts, nx, hi)
        } else {
            match find0(ts, i, e, 0, 0, Needle::ColonSep) {
                None => Err(Error::Malformed),
                Some(c) => {
                    let p = ParamV { pat: ts.subrange(i, c), ty: ts.subrange(c + 1, e) };
                    match params_walk(ts, nx, hi) {
                        Err(er) => Err(er),
                        Ok(rest) => Ok(seq![p] + rest),
                    }
                },
            }
        }
    }
}

/// The receiver and the parameter list of a method's parenthesized
/// inputs.
pub open spec fn parse_params(ts: Seq<Tok>, lo: int, hi: int) -> Result<
    (Receiver, Seq<Tok>, Seq<ParamV>),
    Error,
> {
    if lo >= hi {
        Err(Error::ExpectedMethod)
    } else {
        let e: int = match find0(ts, lo, hi, 0, 0, Needle::Comma) {
            Some(k) => k,
            None => hi,
        };
        match recv_class(ts.subrange(lo, e)) {
            None => Err(Error::ExpectedMethod),
            Some(r) => {
                let nx: int = if lo < e + 1 && e + 1 <= hi {
                    e + 1
                } else {
                    hi
                };
                match params_walk(ts, nx, hi) {
                    Err(er) => Err(er),
                    Ok(ps) => Ok((r, ts.subrange(lo, e), ps)),
                }
            },
        }
    }
}

/// One method member, starting at `i` with attributes ending at `a` and
/// visibility ending at `v` (so `ts[v]` is the `fn` keyword); the result
/// carries the position just after the member.
pub open spec fn parse_method(ts: Seq<Tok>, i: int, a: int, v: int, end: int) -> Result<
    (MethodV, int),
    Error,
> {
    let n: int = v + 1;
    if n >= end || !(ts[n]@ matches TokV::Ident(_)) {
        Err(Error::Malformed)
    } else {
        let p0: int = n + 1;
        let p1: int = if p0 < end && is_punct(ts[p0], '<') {
            match angle_close(ts, p0 + 1, end, 0, 1) {
                Some(c) => c + 1,
                None => end,
            }
        } else {
            p0
        };
        if p1 >= end || !(ts[p1]@ == TokV::Open(Delim::Paren)) {
            Err(Error::Malformed)
        } else {
            match close_from(ts, p1 + 1, end, 1) {
                None => Err(Error::Malformed),
                Some(pc) => {
                    let q: int = pc + 1;
                    if q < end && ts[q]@ == TokV::Open(Delim::Brace) {
                        match close_from(ts, q + 1, end, 1) {
                            None => Err(Error::Malformed),
                            Some(bc) => finish_method(
                                ts,
                                i,
                                a,
                                v,
                                n,
                                p1,
                                pc,
                                unit_toks(),
                                false,
                                q + 1,
                                bc,
                            ),
                        }
                    } else if q + 1 < end && is_joint(ts[q], '-') && is_punct(ts[q + 1], '>') {
                        match find0(ts, q + 2, end, 0, 0, Needle::OpenBrace) {
                            None => Err(Error::Malformed),
                            Some(ob) => match close_from(ts, ob + 1, end, 1) {
                                None => Err(Error::Malformed),
                                Some(bc) => finish_method(
                                    ts,
                                    i,
                                    a,
                                    v,
                                    n,
                                    p1,
                                    pc,
                                    ts.subrange(q + 2, ob),
                                    true,
                                    ob + 1,
                                    bc,
                                ),
                            },
                        }
                    } else {
                        Err(Error::Malformed)
                    }
                },
            }
        }
    }
}

/// Assembles the method value once every region is known.
pub open spec fn finish_method(
    ts: Seq<Tok>,
    i: int,
    a: int,
    v: int,
    n: int,
    p1: int,
    pc: int,
    ret: Seq<Tok>,
    explicit_ret: bool,
    blo: int,
    bc: int,
) -> Result<(MethodV, int), Error> {
    match parse_params(ts, p1 + 1, pc) {
        Err(er) => Err(er),
        Ok((r, recv, ps)) => Ok(
            (
                MethodV {
                    attrs: ts.subrange(i, a),
                    vis: ts.subrange(a, v),
                    name: ident_text(ts[n]),
                    receiver: r,
                    recv: recv,
                    params: ps,
                    ret: ret,
                    explicit_ret: explicit_ret,
                    body: ts.subrange(blo, bc),
                },
                bc + 1,
            ),
        ),
    }
}

/// The ordered members of the block's brace region `[i, end)`.
pub open spec fn parse_members(ts: Seq<Tok>, i: int, end: int) -> Result<Seq<MemberV>, Error>
    decreases end - i,
{
    if i >= end {
        Ok(Seq::empty())
    } else {
        let a: int = skip_attrs(ts, i, end);
        let v: int = skip_vis(ts, a, end);
        if v < end && is_id(ts[v], "fn"@) {
            match parse_method(ts, i, a, v, end) {
                Err(er) => Err(er),
                Ok((m, nx)) => {
                    let nx2: int = if i < nx && nx <= end {
                        nx
                    } else {
                        end
                    };
                    match parse_members(ts, nx2, end) {
                        Err(er) => Err(er),
                        Ok(rest) => Ok(seq![MemberV::Method(m)] + rest),
                    }
                },
            }
        } else {
            match find0(ts, v, end, 0, 0, Needle::ItemEnd) {
                None => Ok(seq![MemberV::Other(ts.subrange(i, end))]),
                Some(k) => {
                    if is_punct(ts[k], ';') {
                        let nx: int = if i < k + 1 && k + 1 <= end {
                            k + 1
                        } else {
                            end
                        };
                        match parse_members(ts, nx, end) {
                            Err(er) => Err(er),
                            Ok(rest) => Ok(seq![MemberV::Other(ts.subrange(i, nx))] + rest),
                        }
                    } else {
                        match close_from(ts, k + 1, end, 1) {
                            None => Err(Error::Malformed),
                            Some(c) => {
                                let nx: int = if i < c + 1 && c + 1 <= end {
                                    c + 1
                                } else {
                                    end
                                };
                                match parse_members(ts, nx, end) {
                                    Err(er) => Err(er),
                                    Ok(rest) => Ok(
                                        seq![MemberV::Other(ts.subrange(i, nx))] + rest,
                                    ),
                                }
                            },
                        }
                    }
                },
            }
        }
    }
}

/// The use-site form of one generic-parameter fragment `[i, e)`: the bare
/// lifetime, the bare name of a value parameter, or the bare type name.
pub open spec fn entry_use(ds: Seq<Tok>, i: int, e: int) -> Seq<Tok> {
    let j: int = skip_attrs(ds, i, e);
    if j >= e {
        Seq::empty()
    } else if is_joint(ds[j], '\'') && j + 1 < e && (ds[j + 1]@ matches TokV::Ident(_)) {
        seq![ds[j], ds[j + 1]]
    } else if is_id(ds[j], "const"@) && j + 1 < e && (ds[j + 1]@ matches TokV::Ident(_)) {
        seq![ds[j + 1]]
    } else if ds[j]@ matches TokV::Ident(_) {
        seq![ds[j]]
    } else {
        Seq::empty()
    }
}

/// The use-site generics derived from the declaration-site list: every
/// fragment reduced to its bare name, the commas kept.
pub open spec fn args_walk(ds: Seq<Tok>, i: int) -> Seq<Tok>
    decreases ds.len() - i,
{
    if i >= ds.len() {
        Seq::empty()
    } else {
        let e: int = match find0(ds, i, ds.len() as int, 0, 0, Needle::Comma) {
            Some(k) => k,
            None => ds.len() as int,
        };
        let frag = entry_use(ds, i, e);
        if e >= ds.len() {
            frag
        } else {
            let nx: int = if i < e + 1 && e + 1 <= ds.len() {
                e + 1
            } else {
                ds.len() as int
            };
            frag + seq![Tok::Punct(',', false)] + args_walk(ds, nx)
        }
    }
}

/// The whole block, once the declaration-site generics `decl` and the
/// position `p` just after them are known.
pub open spec fn after_generics(ts: Seq<Tok>, a: int, decl: Seq<Tok>, p: int) -> Result<
    BlockV,
    Error,
> {
    let len: int = ts.len() as int;
    match find0(ts, p, len, 0, 0, Needle::OpenBrace) {
        None => Err(Error::Malformed),
        Some(b) => match close_from(ts, b + 1, len, 1) {
            None => Err(Error::Malformed),
            Some(cb) => {
                if cb != len - 1 {
                    Err(Error::Malformed)
                } else {
                    let w = find0(ts, p, b, 0, 0, Needle::KwWhere);
                    let t_end: int = match w {
                        Some(wi) => wi,
                        None => b,
                    };
                    let where_toks = match w {
                        Some(wi) => ts.subrange(wi, b),
                        None => Seq::<Tok>::empty(),
                    };
                    let f = find0(ts, p, t_end, 0, 0, Needle::KwFor);
                    let s_lo: int = match f {
                        Some(fi) => fi + 1,
                        None => p,
                    };
                    if !(t_end - s_lo == 1 && ts[s_lo]@ matches TokV::Ident(_)) {
                        Err(Error::BadType)
                    } else if f is Some {
                        Err(Error::ExpectedBareImpl)
                    } else {
                        match parse_members(ts, b + 1, cb) {
                            Err(er) => Err(er),
                            Ok(ms) => Ok(
                                BlockV {
                                    attrs: ts.subrange(0, a),
                                    ty_name: ident_text(ts[s_lo]),
                                    generics: GenericsV {
                                        decl: decl,
                                        use_args: args_walk(decl, 0),
                                        where_toks: where_toks,
                                    },
                                    members: ms,
                                },
                            ),
                        }
                    }
                }
            },
        },
    }
}

/// What the block parser returns on the token form of the annotated item.
pub open spec fn parse_spec(ts: Seq<Tok>) -> Result<BlockV, Error> {
    let len: int = ts.len() as int;
    let a: int = skip_attrs(ts, 0, len);
    if a >= len || !is_id(ts[a], "impl"@) {
        Err(Error::Malformed)
    } else {
        let g: int = a + 1;
        if g < len && is_punct(ts[g], '<') {
            match angle_close(ts, g + 1, len, 0, 1) {
                None => Err(Error::Malformed),
                Some(c) => after_generics(ts, a, ts.subrange(g + 1, c), c + 1),
            }
        } else {
            after_generics(ts, a, Seq::empty(), g)
        }
    }
}


/// Executable form of `skip_attrs`.
pub fn skip_attrs_x(ts: &Vec<Tok>, i: usize, end: usize) -> (r: usize)
    requires
        i <= end <= ts@.len(),
    ensures
        r as int == skip_attrs(ts@, i as int, end as int),
        i <= r <= end,
    decreases end - i,
{
    if i < end && end - i >= 2 && ts[i].reads_punct('#') && ts[i + 1].reads_open(Delim::Bracket) {
        match scan_close(ts, i + 2, end, 1) {
            Some(c) => skip_attrs_x(ts, c + 1, end),
            None => i,
        }
    } else {
        i
    }
}

/// Executable form of `skip_vis`.
pub fn skip_vis_x(ts: &Vec<Tok>, a: usize, end: usize) -> (r: usize)
    requires
        a <= end <= ts@.len(),
    ensures
        r as int == skip_vis(ts@, a as int, end as int),
        a <= r <= end,
{
    if a < end && ts[a].reads_ident("pub") {
        if end - a >= 2 && ts[a + 1].reads_open(Delim::Paren) {
            match scan_close(ts, a + 2, end, 1) {
                Some(c) => c + 1,
                None => a + 1,
            }
        } else {
            a + 1
        }
    } else {
        a
    }
}

/// Executable form of `recv_class`.
pub fn recv_x(f: &Vec<Tok>) -> (r: Option<Receiver>)
    ensures
        r == recv_class(f@),
{
    let n = f.len();
    if n == 1 && f[0].reads_ident("self") {
        Some(Receiver::Owned)
    } else if n == 2 && f[0].reads_ident("mut") && f[1].reads_ident("self") {
        Some(Receiver::Owned)
    } else if n == 2 && f[0].reads_punct('&') && f[1].reads_ident("self") {
        Some(Receiver::Ref)
    } else if n == 3 && f[0].reads_punct('&') && f[1].reads_ident("mut") && f[2].reads_ident(
        "self",
    ) {
        Some(Receiver::MutRef)
    } else if n == 4 && f[0].reads_punct('&') && f[1].reads_joint('\'') && is_ident_tok(&f[2])
        && f[3].reads_ident("self") {
        Some(Receiver::Ref)
    } else if n == 5 && f[0].reads_punct('&') && f[1].reads_joint('\'') && is_ident_tok(&f[2])
        && f[3].reads_ident("mut") && f[4].reads_ident("self") {
        Some(Receiver::MutRef)
    } else {
        None
    }
}

/// Executable form of `params_walk`.
pub fn params_walk_x(ts: &Vec<Tok>, i: usize, hi: usize) -> (r: Result<Vec<Param>, Error>)
    requires
        i <= hi <= ts@.len(),
    ensures
        match r {
            Ok(ps) => params_walk(ts@, i as int, hi as int) == Ok::<Seq<ParamV>, Error>(
                params_v(ps@),
            ),
            Err(e) => params_walk(ts@, i as int, hi as int) == Err::<Seq<ParamV>, Error>(e),
        },
    decreases hi - i,
{
    if i >= hi {
        let ps: Vec<Param> = Vec::new();
        assert(params_v(ps@) =~= Seq::<ParamV>::empty());
        Ok(ps)
    } else {
        let e: usize = match scan_find0(ts, i, hi, 0, 0, Needle::Comma) {
            Some(k) => k,
            None => hi,
        };
        let nx: usize = if e < hi {
            e + 1
        } else {
            hi
        };
        if i == e {
            params_walk_x(ts, nx, hi)
        } else {
            match scan_find0(ts, i, e, 0, 0, Needle::ColonSep) {
                None => Err(Error::Malformed),
                Some(c) => {
                    let pat = copy_range(ts, i, c);
                    let ty = copy_range(ts, c + 1, e);
                    match params_walk_x(ts, nx, hi) {
                        Err(er) => Err(er),
                        Ok(mut rest) => {
                            let p = Param { pat, ty };
                            let ghost pv = p@;
                            let ghost restv = params_v(rest@);
                            rest.insert(0, p);
                            assert(params_v(rest@) =~= seq![pv] + restv);
                            Ok(rest)
                        },
                    }
                },
            }
        }
    }
}

/// Executable form of `parse_params`.
pub fn parse_params_x(ts: &Vec<Tok>, lo: usize, hi: usize) -> (r: Result<
    (Receiver, Vec<Tok>, Vec<Param>),
    Error,
>)
    requires
        lo <= hi <= ts@.len(),
    ensures
        match r {
            Ok(t) => parse_params(ts@, lo as int, hi as int) == Ok::<
                (Receiver, Seq<Tok>, Seq<ParamV>),
                Error,
            >((t.0, t.1@, params_v(t.2@))),
            Err(e) => parse_params(ts@, lo as int, hi as int) == Err::<
                (Receiver, Seq<Tok>, Seq<ParamV>),
                Error,
            >(e),
        },
{
    if lo >= hi {
        Err(Error::ExpectedMethod)
    } else {
        let e: usize = match scan_find0(ts, lo, hi, 0, 0, Needle::Comma) {
            Some(k) => k,
            None => hi,
        };
        let recv = copy_range(ts, lo, e);
        match recv_x(&recv) {
            None => Err(Error::ExpectedMethod),
            Some(rc) => {
                let nx: usize = if e < hi {
                    e + 1
                } else {
                    hi
                };
                match params_walk_x(ts, nx, hi) {
                    Err(er) => Err(er),
                    Ok(ps) => Ok((rc, recv, ps)),
                }
            },
        }
    }
}

/// Executable form of `parse_method`.
pub fn method_x(ts: &Vec<Tok>, i: usize, a: usize, v: usize, end: usize) -> (r: Result<
    (MethodItem, usize),
    Error,
>)
    requires
        i <= a <= v < end <= ts@.len(),
    ensures
        match r {
            Ok(t) => parse_method(ts@, i as int, a as int, v as int, end as int) == Ok::<
                (MethodV, int),
                Error,
            >((t.0@, t.1 as int)) && i < t.1 <= end,
            Err(e) => parse_method(ts@, i as int, a as int, v as int, end as int) == Err::<
                (MethodV, int),
                Error,
            >(e),
        },
{
    let n: usize = v + 1;
    if n >= end {
        return Err(Error::Malformed);
    }
    let nm: String = match &ts[n] {
        Tok::Ident(s) => s.clone(),
        _ => {
            return Err(Error::Malformed);
        },
    };
    let p0: usize = n + 1;
    let p1: usize;
    if p0 < end && ts[p0].reads_punct('<') {
        match scan_angle_close(ts, p0 + 1, end, 0, 1) {
            Some(c) => {
                p1 = c + 1;
            },
            None => {
                return Err(Error::Malformed);
            },
        }
    } else {
        p1 = p0;
    }
    if p1 >= end || !ts[p1].reads_open(Delim::Paren) {
        return Err(Error::Malformed);
    }
    let pc: usize = match scan_close(ts, p1 + 1, end, 1) {
        Some(k) => k,
        None => {
            return Err(Error::Malformed);
        },
    };
    let q: usize = pc + 1;
    let ret: Vec<Tok>;
    let explicit_ret: bool;
    let blo: usize;
    let bc: usize;
    if q < end && ts[q].reads_open(Delim::Brace) {
        match scan_close(ts, q + 1, end, 1) {
            Some(k) => {
                let mut u: Vec<Tok> = Vec::new();
                u.push(Tok::Open(Delim::Paren));
                u.push(Tok::Close(Delim::Paren));
                assert(u@ =~= unit_toks());
                ret = u;
                explicit_ret = false;
                blo = q + 1;
                bc = k;
            },
            None => {
                return Err(Error::Malformed);
            },
        }
    } else if q < end && end - q >= 2 && ts[q].reads_joint('-') && ts[q + 1].reads_punct('>') {
        match scan_find0(ts, q + 2, end, 0, 0, Needle::OpenBrace) {
            None => {
                return Err(Error::Malformed);
            },
            Some(ob) => {
                match scan_close(ts, ob + 1, end, 1) {
                    None => {
                        return Err(Error::Malformed);
                    },
                    Some(k) => {
                        ret = copy_range(ts, q + 2, ob);
                        explicit_ret = true;
                        blo = ob + 1;
                        bc = k;
                    },
                }
            },
        }
    } else {
        return Err(Error::Malformed);
    }
    match parse_params_x(ts, p1 + 1, pc) {
        Err(er) => Err(er),
        Ok((rc, recv, ps)) => {
            let m = MethodItem {
                attrs: copy_range(ts, i, a),
                vis: copy_range(ts, a, v),
                name: nm,
                receiver: rc,
                recv: recv,
                params: ps,
                ret: ret,
                explicit_ret: explicit_ret,
                body: copy_range(ts, blo, bc),
            };
            Ok((m, bc + 1))
        },
    }
}

/// Executable form of `parse_members`.
pub fn members_x(ts: &Vec<Tok>, i: usize, end: usize) -> (r: Result<Vec<Member>, Error>)
    requires
        i <= end <= ts@.len(),
    ensures
        match r {
            Ok(ms) => parse_members(ts@, i as int, end as int) == Ok::<Seq<MemberV>, Error>(
                members_v(ms@),
            ),
            Err(e) => parse_members(ts@, i as int, end as int) == Err::<Seq<MemberV>, Error>(e),
        },
    decreases end - i,
{
    if i >= end {
        let ms: Vec<Member> = Vec::new();
        assert(members_v(ms@) =~= Seq::<MemberV>::empty());
        return Ok(ms);
    }
    let a: usize = skip_attrs_x(ts, i, end);
    let v: usize = skip_vis_x(ts, a, end);
    if v < end && ts[v].reads_ident("fn") {
        match method_x(ts, i, a, v, end) {
            Err(er) => Err(er),
            Ok((m, nx)) => {
                match members_x(ts, nx, end) {
                    Err(er) => Err(er),
                    Ok(mut rest) => {
                        let ghost mv = m@;
                        let ghost restv = members_v(rest@);
                        rest.insert(0, Member::Method(m));
                        assert(members_v(rest@) =~= seq![MemberV::Method(mv)] + restv);
                        Ok(rest)
                    },
                }
            },
        }
    } else {
        match scan_find0(ts, v, end, 0, 0, Needle::ItemEnd) {
            None => {
                let mut ms: Vec<Member> = Vec::new();
                ms.push(Member::Other(copy_range(ts, i, end)));
                assert(members_v(ms@) =~= seq![
                    MemberV::Other(ts@.subrange(i as int, end as int)),
                ]);
                Ok(ms)
            },
            Some(k) => {
                let nx: usize;
                if ts[k].reads_punct(';') {
                    nx = k + 1;
                } else {
                    match scan_close(ts, k + 1, end, 1) {
                        None => {
                            return Err(Error::Malformed);
                        },
                        Some(c) => {
                            nx = c + 1;
                        },
                    }
                }
                let item = copy_range(ts, i, nx);
                match members_x(ts, nx, end) {
                    Err(er) => Err(er),
                    Ok(mut rest) => {
                        let ghost iv = item@;
                        let ghost restv = members_v(rest@);
                        rest.insert(0, Member::Other(item));
                        assert(members_v(rest@) =~= seq![MemberV::Other(iv)] + restv);
                        Ok(rest)
                    },
                }
            },
        }
    }
}

/// Executable form of `entry_use`.
pub fn entry_x(ds: &Vec<Tok>, i: usize, e: usize) -> (r: Vec<Tok>)
    requires
        i <= e <= ds@.len(),
    ensures
        r@ == entry_use(ds@, i as int, e as int),
{
    let j: usize = skip_attrs_x(ds, i, e);
    let mut r: Vec<Tok> = Vec::new();
    if j >= e {
        assert(r@ =~= entry_use(ds@, i as int, e as int));
        return r;
    }
    if ds[j].reads_joint('\'') && e - j >= 2 && is_ident_tok(&ds[j + 1]) {
        r.push(ds[j].dup());
        r.push(ds[j + 1].dup());
        assert(r@ =~= seq![ds@[j as int], ds@[j + 1]]);
    } else if ds[j].reads_ident("const") && e - j >= 2 && is_ident_tok(&ds[j + 1]) {
        r.push(ds[j + 1].dup());
        assert(r@ =~= seq![ds@[j + 1]]);
    } else if is_ident_tok(&ds[j]) {
        r.push(ds[j].dup());
        assert(r@ =~= seq![ds@[j as int]]);
    }
    assert(r@ =~= entry_use(ds@, i as int, e as int));
    r
}

/// Executable form of `args_walk`.
pub fn args_x(ds: &Vec<Tok>, i: usize) -> (r: Vec<Tok>)
    requires
        i <= ds@.len(),
    ensures
        r@ == args_walk(ds@, i as int),
    decreases ds@.len() - i,
{
    if i >= ds.len() {
        let r: Vec<Tok> = Vec::new();
        assert(r@ =~= args_walk(ds@, i as int));
        return r;
    }
    let e: usize = match scan_find0(ds, i, ds.len(), 0, 0, Needle::Comma) {
        Some(k) => k,
        None => ds.len(),
    };
    let mut frag = entry_x(ds, i, e);
    if e >= ds.len() {
        return frag;
    }
    frag.push(Tok::Punct(',', false));
    let rest = args_x(ds, e + 1);
    append_frag(&mut frag, &rest);
    assert(frag@ =~= entry_use(ds@, i as int, e as int) + seq![Tok::Punct(',', false)]
        + args_walk(ds@, e + 1 as int));
    frag
}

/// Executable form of `after_generics`.
pub fn after_generics_x(ts: &Vec<Tok>, a: usize, decl: Vec<Tok>, p: usize) -> (r: Result<
    ImplBlock,
    Error,
>)
    requires
        a <= ts@.len(),
        p <= ts@.len(),
    ensures
        match r {
            Ok(b) => after_generics(ts@, a as int, decl@, p as int) == Ok::<BlockV, Error>(b@),
            Err(e) => after_generics(ts@, a as int, decl@, p as int) == Err::<BlockV, Error>(e),
        },
{
    let len: usize = ts.len();
    let b: usize = match scan_find0(ts, p, len, 0, 0, Needle::OpenBrace) {
        Some(k) => k,
        None => {
            return Err(Error::Malformed);
        },
    };
    let cb: usize = match scan_close(ts, b + 1, len, 1) {
        Some(k) => k,
        None => {
            return Err(Error::Malformed);
        },
    };
    if cb != len - 1 {
        return Err(Error::Malformed);
    }
    let w = scan_find0(ts, p, b, 0, 0, Needle::KwWhere);
    let t_end: usize = match w {
        Some(wi) => wi,
        None => b,
    };
    let where_toks: Vec<Tok> = match w {
        Some(wi) => copy_range(ts, wi, b),
        None => Vec::new(),
    };
    let f = scan_find0(ts, p, t_end, 0, 0, Needle::KwFor);
    let s_lo: usize = match f {
        Some(fi) => fi + 1,
        None => p,
    };
    if !(t_end == s_lo + 1 && s_lo < len && is_ident_tok(&ts[s_lo])) {
        return Err(Error::BadType);
    }
    if f.is_some() {
        return Err(Error::ExpectedBareImpl);
    }
    let nm: String = match &ts[s_lo] {
        Tok::Ident(s) => s.clone(),
        _ => {
            return Err(Error::BadType);
        },
    };
    match members_x(ts, b + 1, cb) {
        Err(er) => Err(er),
        Ok(ms) => {
            let use_args = args_x(&decl, 0);
            let blk = ImplBlock {
                attrs: copy_range(ts, 0, a),
                ty_name: nm,
                generics: Generics { decl, use_args, where_toks },
                members: ms,
            };
            Ok(blk)
        },
    }
}

/// The block parser: consumes the token form of the annotated item and
/// produces the structured block, or the diagnostic the input deserves.
pub fn parse_impl_block(ts: &Vec<Tok>) -> (r: Result<ImplBlock, Error>)
    ensures
        match r {
            Ok(b) => parse_spec(ts@) == Ok::<BlockV, Error>(b@),
            Err(e) => parse_spec(ts@) == Err::<BlockV, Error>(e),
        },
{
    let len: usize = ts.len();
    let a: usize = skip_attrs_x(ts, 0, len);
    if a >= len || !ts[a].reads_ident("impl") {
        return Err(Error::Malformed);
    }
    let g: usize = a + 1;
    if g < len && ts[g].reads_punct('<') {
        match scan_angle_close(ts, g + 1, len, 0, 1) {
            None => Err(Error::Malformed),
            Some(c) => {
                let decl = copy_range(ts, g + 1, c);
                after_generics_x(ts, a, decl, c + 1)
            },
        }
    } else {
        let decl: Vec<Tok> = Vec::new();
        assert(decl@ =~= Seq::<Tok>::empty());
        after_generics_x(ts, a, decl, g)
    }
}

} // verus!
