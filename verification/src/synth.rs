use vstd::prelude::*;
use crate::token::{Tok, TokV, Delim, tv, tv_laws, append_frag};
use crate::ast::{Receiver, Param, ParamV, MethodItem, MethodV, Generics, GenericsV, params_v};

verus! {

broadcast use tv_laws;

/// The three call-protocol levels, from the one that consumes the
/// receiver to the one that only reads it.
#[derive(Clone, Copy, PartialEq, Eq, Structural, Debug)]
pub enum CallKind {
    Once,
    Mut,
    Imm,
}

/// An identifier token value.
pub open spec fn idv(s: Seq<char>) -> TokV {
    TokV::Ident(s)
}

/// A punctuation token value with alone spacing.
pub open spec fn pv(c: char) -> TokV {
    TokV::Punct(c, false)
}

/// A punctuation token value joined to its successor.
pub open spec fn pj(c: char) -> TokV {
    TokV::Punct(c, true)
}

/// The path separator `::`.
pub open spec fn colon2() -> Seq<TokV> {
    seq![pj(':'), pv(':')]
}

/// The arrow `->` of a return annotation.
pub open spec fn arrow() -> Seq<TokV> {
    seq![pj('-'), pv('>')]
}

/// A fragment wrapped in angle brackets, or nothing when it is empty.
pub open spec fn angle(f: Seq<Tok>) -> Seq<TokV> {
    if f.len() == 0 {
        Seq::empty()
    } else {
        seq![pv('<')] + tv(f) + seq![pv('>')]
    }
}

/// The absolute path `::std::ops::<name>`.
pub open spec fn std_ops(name: Seq<char>) -> Seq<TokV> {
    colon2() + seq![idv("std"@)] + colon2() + seq![idv("ops"@)] + colon2() + seq![idv(name)]
}

/// The name of the per-method helper contract, derived deterministically
/// from the type and method names.
pub open spec fn helper_name(ty: Seq<char>, m: Seq<char>) -> Seq<char> {
    "_"@ + ty + "Functionate_"@ + m
}

/// The inside of the argument tuple: every parameter type in declaration
/// order, each followed by a comma.
pub open spec fn tuple_inner(ps: Seq<ParamV>, i: int) -> Seq<TokV>
    decreases ps.len() - i,
{
    if i >= ps.len() {
        Seq::empty()
    } else {
        tv(ps[i].ty) + seq![pv(',')] + tuple_inner(ps, i + 1)
    }
}

/// The argument-tuple type keying every synthesized implementation.
pub open spec fn arg_tuple(ps: Seq<ParamV>) -> Seq<TokV> {
    seq![TokV::Open(Delim::Paren)] + tuple_inner(ps, 0) + seq![TokV::Close(Delim::Paren)]
}

/// The bound patterns, each followed by a comma.
pub open spec fn pats_inner(ps: Seq<ParamV>, i: int) -> Seq<TokV>
    decreases ps.len() - i,
{
    if i >= ps.len() {
        Seq::empty()
    } else {
        tv(ps[i].pat) + seq![pv(',')] + pats_inner(ps, i + 1)
    }
}

/// The argument binder of a synthesized call function: a discarded unit
/// argument when the method has no parameters, else a tuple pattern over
/// all parameter names, typed as the argument tuple.
pub open spec fn binder(ps: Seq<ParamV>) -> Seq<TokV> {
    if ps.len() == 0 {
        seq![idv("_"@), pv(':'), TokV::Open(Delim::Paren), TokV::Close(Delim::Paren)]
    } else {
        seq![TokV::Open(Delim::Paren)] + pats_inner(ps, 0) + seq![
            TokV::Close(Delim::Paren),
            pv(':'),
        ] + arg_tuple(ps)
    }
}

/// The method's input list: the receiver verbatim, then every parameter
/// as `, pattern : type`.
pub open spec fn inputs_inner(ps: Seq<ParamV>, i: int) -> Seq<TokV>
    decreases ps.len() - i,
{
    if i >= ps.len() {
        Seq::empty()
    } else {
        seq![pv(',')] + tv(ps[i].pat) + seq![pv(':')] + tv(ps[i].ty) + inputs_inner(ps, i + 1)
    }
}

pub open spec fn inputs(m: MethodV) -> Seq<TokV> {
    tv(m.recv) + inputs_inner(m.params, 0)
}

/// The forwarded arguments after the receiver: `, p1 , p2 ...`.
pub open spec fn fwd_args(ps: Seq<ParamV>, i: int) -> Seq<TokV>
    decreases ps.len() - i,
{
    if i >= ps.len() {
        Seq::empty()
    } else {
        seq![pv(',')] + tv(ps[i].pat) + fwd_args(ps, i + 1)
    }
}

/// How the consuming call function hands the receiver to the method.
pub open spec fn self_arg(r: Receiver) -> Seq<TokV> {
    match r {
        Receiver::Owned => seq![idv("self"@)],
        Receiver::MutRef => seq![pv('&'), idv("mut"@), idv("self"@)],
        Receiver::Ref => seq![pv('&'), idv("self"@)],
    }
}

/// The qualified-path prefix `< Self as <helper> >`.
pub open spec fn helper_qual(h: Seq<char>) -> Seq<TokV> {
    seq![pv('<'), idv("Self"@), idv("as"@), idv(h), pv('>')]
}

/// The single declared result type, `< Self as <helper> >::RetTy`.
pub open spec fn helper_ret(h: Seq<char>) -> Seq<TokV> {
    helper_qual(h) + colon2() + seq![idv("RetTy"@)]
}

/// The call functions' written return type,
/// `< Self as ::std::ops::FnOnce<(..)> >::Output`.
pub open spec fn output_ref(ps: Seq<ParamV>) -> Seq<TokV> {
    seq![pv('<'), idv("Self"@), idv("as"@)] + std_ops("FnOnce"@) + seq![pv('<')] + arg_tuple(ps)
        + seq![pv('>'), pv('>')] + colon2() + seq![idv("Output"@)]
}

/// The forwarding call `< Self as <helper> >::<name>( <recv> , p1 , p2 )`:
/// the receiver and every argument handed on unchanged.
pub open spec fn fwd_call(h: Seq<char>, name: Seq<char>, sa: Seq<TokV>, ps: Seq<ParamV>) -> Seq<
    TokV,
> {
    helper_qual(h) + colon2() + seq![idv(name), TokV::Open(Delim::Paren)] + sa + fwd_args(ps, 0)
        + seq![TokV::Close(Delim::Paren)]
}

/// The shared head of every synthesized implementation: the block's
/// declaration-site generics, the implemented path, the target type with
/// its use-site generics, and the where-clause, all verbatim.
pub open spec fn impl_intro(g: GenericsV, path: Seq<TokV>, ty: Seq<char>) -> Seq<TokV> {
    seq![idv("impl"@)] + angle(g.decl) + path + seq![idv("for"@), idv(ty)] + angle(g.use_args)
        + tv(g.where_toks)
}

/// The helper contract declaration: a trait with the single result type
/// and the method's own signature.
pub open spec fn helper_trait(ty: Seq<char>, m: MethodV) -> Seq<TokV> {
    seq![
        pv('#'),
        TokV::Open(Delim::Bracket),
        idv("allow"@),
        TokV::Open(Delim::Paren),
        idv("non_camel_case_types"@),
        TokV::Close(Delim::Paren),
        TokV::Close(Delim::Bracket),
        idv("trait"@),
        idv(helper_name(ty, m.name)),
        pv(':'),
        idv("Sized"@),
        TokV::Open(Delim::Brace),
        idv("type"@),
        idv("RetTy"@),
        pv(';'),
        idv("fn"@),
        idv(m.name),
        TokV::Open(Delim::Paren),
    ] + inputs(m) + seq![TokV::Close(Delim::Paren)] + arrow() + seq![idv("Self"@)] + colon2()
        + seq![idv("RetTy"@), pv(';'), TokV::Close(Delim::Brace)]
}

/// The helper contract's implementation for the target type: the result
/// type bound to the method's return type, and the method body relocated
/// into the contract's method.
pub open spec fn helper_impl(g: GenericsV, ty: Seq<char>, m: MethodV) -> Seq<TokV> {
    impl_intro(g, seq![idv(helper_name(ty, m.name))], ty) + seq![
        TokV::Open(Delim::Brace),
        idv("type"@),
        idv("RetTy"@),
        pv('='),
    ] + tv(m.ret) + seq![pv(';'), idv("fn"@), idv(m.name), TokV::Open(Delim::Paren)] + inputs(m)
        + seq![TokV::Close(Delim::Paren)] + arrow() + helper_ret(helper_name(ty, m.name)) + seq![
        TokV::Open(Delim::Brace),
    ] + tv(m.body) + seq![TokV::Close(Delim::Brace), TokV::Close(Delim::Brace)]
}

/// The call-protocol trait a level implements.
pub open spec fn kind_trait(k: CallKind) -> Seq<char> {
    match k {
        CallKind::Once => "FnOnce"@,
        CallKind::Mut => "FnMut"@,
        CallKind::Imm => "Fn"@,
    }
}

/// The call function a level declares.
pub open spec fn kind_fn(k: CallKind) -> Seq<char> {
    match k {
        CallKind::Once => "call_once"@,
        CallKind::Mut => "call_mut"@,
        CallKind::Imm => "call"@,
    }
}

/// The receiver the call function itself takes.
pub open spec fn kind_recv(k: CallKind) -> Seq<TokV> {
    match k {
        CallKind::Once => seq![idv("mut"@), idv("self"@)],
        CallKind::Mut => seq![pv('&'), idv("mut"@), idv("self"@)],
        CallKind::Imm => seq![pv('&'), idv("self"@)],
    }
}

/// How the call function hands the receiver on: the consuming level
/// re-creates the method's own receiver form, the repeatable levels pass
/// their reference through.
pub open spec fn kind_self(k: CallKind, r: Receiver) -> Seq<TokV> {
    match k {
        CallKind::Once => self_arg(r),
        CallKind::Mut => seq![idv("self"@)],
        CallKind::Imm => seq![idv("self"@)],
    }
}

/// One call-protocol implementation of the ladder.  Only the consuming
/// level declares the output type; the others reference it through the
/// `FnOnce` path.
pub open spec fn call_impl(g: GenericsV, ty: Seq<char>, m: MethodV, k: CallKind) -> Seq<TokV> {
    impl_intro(g, std_ops(kind_trait(k)) + seq![pv('<')] + arg_tuple(m.params) + seq![pv('>')], ty)
        + seq![TokV::Open(Delim::Brace)] + (if k == CallKind::Once {
        seq![idv("type"@), idv("Output"@), pv('=')] + helper_ret(helper_name(ty, m.name)) + seq![
            pv(';'),
        ]
    } else {
        Seq::empty()
    }) + seq![TokV::Abi, idv("fn"@), idv(kind_fn(k)), TokV::Open(Delim::Paren)] + kind_recv(k)
        + seq![pv(',')] + binder(m.params) + seq![TokV::Close(Delim::Paren)] + arrow() + output_ref(
        m.params,
    ) + seq![TokV::Open(Delim::Brace)] + fwd_call(
        helper_name(ty, m.name),
        m.name,
        kind_self(k, m.receiver),
        m.params,
    ) + seq![TokV::Close(Delim::Brace), TokV::Close(Delim::Brace)]
}

/// The ordered levels a receiver discipline earns: consuming only for an
/// owned receiver, consuming and mutable for an exclusive reference, all
/// three for a shared reference.
pub open spec fn ladder_kinds(r: Receiver) -> Seq<CallKind> {
    match r {
        Receiver::Owned => seq![CallKind::Once],
        Receiver::MutRef => seq![CallKind::Once, CallKind::Mut],
        Receiver::Ref => seq![CallKind::Once, CallKind::Mut, CallKind::Imm],
    }
}

/// The call implementations of the ladder, in order.
pub open spec fn calls_out(g: GenericsV, ty: Seq<char>, m: MethodV, ks: Seq<CallKind>, i: int) -> Seq<TokV>
    decreases ks.len() - i,
{
    if i >= ks.len() {
        Seq::empty()
    } else {
        call_impl(g, ty, m, ks[i]) + calls_out(g, ty, m, ks, i + 1)
    }
}

/// Everything synthesized for one method: the helper contract, its
/// implementation carrying the relocated body, and the ladder of
/// call-protocol implementations the receiver discipline earns.
pub open spec fn ladder(g: GenericsV, ty: Seq<char>, m: MethodV) -> Seq<TokV> {
    helper_trait(ty, m) + helper_impl(g, ty, m) + calls_out(g, ty, m, ladder_kinds(m.receiver), 0)
}

/// The delegating stub that replaces the method in the re-emitted block:
/// same attributes, visibility and signature, body forwarding through the
/// helper contract.
pub open spec fn stub(ty: Seq<char>, m: MethodV) -> Seq<TokV> {
    tv(m.attrs) + tv(m.vis) + seq![idv("fn"@), idv(m.name), TokV::Open(Delim::Paren)] + inputs(m)
        + seq![TokV::Close(Delim::Paren)] + arrow() + helper_ret(helper_name(ty, m.name)) + seq![
        TokV::Open(Delim::Brace),
    ] + fwd_call(helper_name(ty, m.name), m.name, seq![idv("self"@)], m.params) + seq![
        TokV::Close(Delim::Brace),
    ]
}


/// Builds the helper-contract name `_<Ty>Functionate_<method>`.
pub fn helper_name_x(ty: &String, m: &String) -> (h: String)
    ensures
        h@ == helper_name(ty@, m@),
{
    let mut s = String::from_str("_");
    s.append(ty.as_str());
    s.append("Functionate_");
    s.append(m.as_str());
    assert(s@ =~= helper_name(ty@, m@));
    s
}

/// Appends the identifier `w`.
pub fn push_id(v: &mut Vec<Tok>, w: &str)
    ensures
        tv(final(v)@) == tv(old(v)@).push(idv(w@)),
{
    v.push(Tok::Ident(w.to_owned()));
}

/// Appends the identifier held by `s`.
pub fn push_name(v: &mut Vec<Tok>, s: &String)
    ensures
        tv(final(v)@) == tv(old(v)@).push(idv(s@)),
{
    v.push(Tok::Ident(s.clone()));
}

/// Appends the punctuation character `c` with alone spacing.
pub fn push_p(v: &mut Vec<Tok>, c: char)
    ensures
        tv(final(v)@) == tv(old(v)@).push(pv(c)),
{
    v.push(Tok::Punct(c, false));
}

/// Appends the punctuation character `c` joined to its successor.
pub fn push_pj(v: &mut Vec<Tok>, c: char)
    ensures
        tv(final(v)@) == tv(old(v)@).push(pj(c)),
{
    v.push(Tok::Punct(c, true));
}

/// Appends an opening delimiter.
pub fn push_open(v: &mut Vec<Tok>, d: Delim)
    ensures
        tv(final(v)@) == tv(old(v)@).push(TokV::Open(d)),
{
    v.push(Tok::Open(d));
}

/// Appends a closing delimiter.
pub fn push_close(v: &mut Vec<Tok>, d: Delim)
    ensures
        tv(final(v)@) == tv(old(v)@).push(TokV::Close(d)),
{
    v.push(Tok::Close(d));
}

/// Appends the calling-convention qualifier.
pub fn push_abi(v: &mut Vec<Tok>)
    ensures
        tv(final(v)@) == tv(old(v)@).push(TokV::Abi),
{
    v.push(Tok::Abi);
}

/// Appends the path separator `::`.
pub fn push_colon2(v: &mut Vec<Tok>)
    ensures
        tv(final(v)@) == tv(old(v)@) + colon2(),
{
    push_pj(v, ':');
    push_p(v, ':');
    assert(tv(v@) =~= tv(old(v)@) + colon2());
}

/// Appends the arrow `->`.
pub fn push_arrow(v: &mut Vec<Tok>)
    ensures
        tv(final(v)@) == tv(old(v)@) + arrow(),
{
    push_pj(v, '-');
    push_p(v, '>');
    assert(tv(v@) =~= tv(old(v)@) + arrow());
}

/// Appends a copy of the fragment `f`.
pub fn push_tv_frag(v: &mut Vec<Tok>, f: &Vec<Tok>)
    ensures
        tv(final(v)@) == tv(old(v)@) + tv(f@),
{
    append_frag(v, f);
}

/// Appends the fragment `f` wrapped in angle brackets, or nothing when it
/// is empty.
pub fn push_angle(v: &mut Vec<Tok>, f: &Vec<Tok>)
    ensures
        tv(final(v)@) == tv(old(v)@) + angle(f@),
{
    if f.len() > 0 {
        push_p(v, '<');
        push_tv_frag(v, f);
        push_p(v, '>');
        assert(tv(v@) =~= tv(old(v)@) + angle(f@));
    } else {
        assert(tv(v@) =~= tv(old(v)@) + angle(f@));
    }
}

/// Appends the absolute path `::std::ops::<w>`.
pub fn push_std_ops(v: &mut Vec<Tok>, w: &str)
    ensures
        tv(final(v)@) == tv(old(v)@) + std_ops(w@),
{
    push_colon2(v);
    push_id(v, "std");
    push_colon2(v);
    push_id(v, "ops");
    push_colon2(v);
    push_id(v, w);
    assert(tv(v@) =~= tv(old(v)@) + std_ops(w@));
}

/// Appends the inside of the argument tuple from parameter `i` on.
pub fn build_tuple_inner(v: &mut Vec<Tok>, ps: &Vec<Param>, i: usize)
    requires
        i <= ps@.len(),
    ensures
        tv(final(v)@) == tv(old(v)@) + tuple_inner(params_v(ps@), i as int),
    decreases ps@.len() - i,
{
    if i < ps.len() {
        push_tv_frag(v, &ps[i].ty);
        push_p(v, ',');
        build_tuple_inner(v, ps, i + 1);
        assert(tv(v@) =~= tv(old(v)@) + tuple_inner(params_v(ps@), i as int));
    } else {
        assert(tv(v@) =~= tv(old(v)@) + tuple_inner(params_v(ps@), i as int));
    }
}

/// Appends the argument-tuple type.
pub fn build_arg_tuple(v: &mut Vec<Tok>, ps: &Vec<Param>)
    ensures
        tv(final(v)@) == tv(old(v)@) + arg_tuple(params_v(ps@)),
{
    push_open(v, Delim::Paren);
    build_tuple_inner(v, ps, 0);
    push_close(v, Delim::Paren);
    assert(tv(v@) =~= tv(old(v)@) + arg_tuple(params_v(ps@)));
}

/// Appends the bound patterns from parameter `i` on.
pub fn build_pats_inner(v: &mut Vec<Tok>, ps: &Vec<Param>, i: usize)
    requires
        i <= ps@.len(),
    ensures
        tv(final(v)@) == tv(old(v)@) + pats_inner(params_v(ps@), i as int),
    decreases ps@.len() - i,
{
    if i < ps.len() {
        push_tv_frag(v, &ps[i].pat);
        push_p(v, ',');
        build_pats_inner(v, ps, i + 1);
        assert(tv(v@) =~= tv(old(v)@) + pats_inner(params_v(ps@), i as int));
    } else {
        assert(tv(v@) =~= tv(old(v)@) + pats_inner(params_v(ps@), i as int));
    }
}

/// Appends the call functions' argument binder.
pub fn build_binder(v: &mut Vec<Tok>, ps: &Vec<Param>)
    ensures
        tv(final(v)@) == tv(old(v)@) + binder(params_v(ps@)),
{
    if ps.len() == 0 {
        push_id(v, "_");
        push_p(v, ':');
        push_open(v, Delim::Paren);
        push_close(v, Delim::Paren);
        assert(tv(v@) =~= tv(old(v)@) + binder(params_v(ps@)));
    } else {
        push_open(v, Delim::Paren);
        build_pats_inner(v, ps, 0);
        push_close(v, Delim::Paren);
        push_p(v, ':');
        build_arg_tuple(v, ps);
        assert(tv(v@) =~= tv(old(v)@) + binder(params_v(ps@)));
    }
}

/// Appends `, pattern : type` for every parameter from `i` on.
pub fn build_inputs_inner(v: &mut Vec<Tok>, ps: &Vec<Param>, i: usize)
    requires
        i <= ps@.len(),
    ensures
        tv(final(v)@) == tv(old(v)@) + inputs_inner(params_v(ps@), i as int),
    decreases ps@.len() - i,
{
    if i < ps.len() {
        push_p(v, ',');
        push_tv_frag(v, &ps[i].pat);
        push_p(v, ':');
        push_tv_frag(v, &ps[i].ty);
        build_inputs_inner(v, ps, i + 1);
        assert(tv(v@) =~= tv(old(v)@) + inputs_inner(params_v(ps@), i as int));
    } else {
        assert(tv(v@) =~= tv(old(v)@) + inputs_inner(params_v(ps@), i as int));
    }
}

/// Appends the method's input list.
pub fn build_inputs(v: &mut Vec<Tok>, m: &MethodItem)
    ensures
        tv(final(v)@) == tv(old(v)@) + inputs(m@),
{
    push_tv_frag(v, &m.recv);
    build_inputs_inner(v, &m.params, 0);
    assert(tv(v@) =~= tv(old(v)@) + inputs(m@));
}

/// Appends the forwarded arguments from parameter `i` on.
pub fn build_fwd_args(v: &mut Vec<Tok>, ps: &Vec<Param>, i: usize)
    requires
        i <= ps@.len(),
    ensures
        tv(final(v)@) == tv(old(v)@) + fwd_args(params_v(ps@), i as int),
    decreases ps@.len() - i,
{
    if i < ps.len() {
        push_p(v, ',');
        push_tv_frag(v, &ps[i].pat);
        build_fwd_args(v, ps, i + 1);
        assert(tv(v@) =~= tv(old(v)@) + fwd_args(params_v(ps@), i as int));
    } else {
        assert(tv(v@) =~= tv(old(v)@) + fwd_args(params_v(ps@), i as int));
    }
}

/// Appends the qualified-path prefix `< Self as <h> >`.
pub fn build_helper_qual(v: &mut Vec<Tok>, h: &String)
    ensures
        tv(final(v)@) == tv(old(v)@) + helper_qual(h@),
{
    push_p(v, '<');
    push_id(v, "Self");
    push_id(v, "as");
    push_name(v, h);
    push_p(v, '>');
    assert(tv(v@) =~= tv(old(v)@) + helper_qual(h@));
}

/// Appends `< Self as <h> >::RetTy`.
pub fn build_helper_ret(v: &mut Vec<Tok>, h: &String)
    ensures
        tv(final(v)@) == tv(old(v)@) + helper_ret(h@),
{
    build_helper_qual(v, h);
    push_colon2(v);
    push_id(v, "RetTy");
    assert(tv(v@) =~= tv(old(v)@) + helper_ret(h@));
}

/// Appends the call functions' written return type.
pub fn build_output_ref(v: &mut Vec<Tok>, ps: &Vec<Param>)
    ensures
        tv(final(v)@) == tv(old(v)@) + output_ref(params_v(ps@)),
{
    push_p(v, '<');
    push_id(v, "Self");
    push_id(v, "as");
    push_std_ops(v, "FnOnce");
    push_p(v, '<');
    build_arg_tuple(v, ps);
    push_p(v, '>');
    push_p(v, '>');
    push_colon2(v);
    push_id(v, "Output");
    assert(tv(v@) =~= tv(old(v)@) + output_ref(params_v(ps@)));
}

/// Appends the receiver expression the consuming level forwards.
pub fn build_self_arg(v: &mut Vec<Tok>, r: Receiver)
    ensures
        tv(final(v)@) == tv(old(v)@) + self_arg(r),
{
    match r {
        Receiver::Owned => {
            push_id(v, "self");
        },
        Receiver::MutRef => {
            push_p(v, '&');
            push_id(v, "mut");
            push_id(v, "self");
        },
        Receiver::Ref => {
            push_p(v, '&');
            push_id(v, "self");
        },
    }
    assert(tv(v@) =~= tv(old(v)@) + self_arg(r));
}

/// Appends the receiver expression level `k` forwards.
pub fn build_kind_self(v: &mut Vec<Tok>, k: CallKind, r: Receiver)
    ensures
        tv(final(v)@) == tv(old(v)@) + kind_self(k, r),
{
    match k {
        CallKind::Once => {
            build_self_arg(v, r);
        },
        CallKind::Mut => {
            push_id(v, "self");
        },
        CallKind::Imm => {
            push_id(v, "self");
        },
    }
    assert(tv(v@) =~= tv(old(v)@) + kind_self(k, r));
}

/// Appends the receiver level `k`'s call function takes.
pub fn build_kind_recv(v: &mut Vec<Tok>, k: CallKind)
    ensures
        tv(final(v)@) == tv(old(v)@) + kind_recv(k),
{
    match k {
        CallKind::Once => {
            push_id(v, "mut");
            push_id(v, "self");
        },
        CallKind::Mut => {
            push_p(v, '&');
            push_id(v, "mut");
            push_id(v, "self");
        },
        CallKind::Imm => {
            push_p(v, '&');
            push_id(v, "self");
        },
    }
    assert(tv(v@) =~= tv(old(v)@) + kind_recv(k));
}

/// Appends the forwarding call through the helper contract.
pub fn build_fwd_call(v: &mut Vec<Tok>, h: &String, m: &MethodItem, k: CallKind)
    ensures
        tv(final(v)@) == tv(old(v)@) + fwd_call(h@, m@.name, kind_self(k, m.receiver), m@.params),
{
    build_helper_qual(v, h);
    push_colon2(v);
    push_name(v, &m.name);
    push_open(v, Delim::Paren);
    build_kind_self(v, k, m.receiver);
    build_fwd_args(v, &m.params, 0);
    push_close(v, Delim::Paren);
    assert(tv(v@) =~= tv(old(v)@) + fwd_call(h@, m@.name, kind_self(k, m.receiver), m@.params));
}

/// Appends the shared head of a synthesized implementation.
pub fn build_impl_intro(v: &mut Vec<Tok>, g: &Generics, path: &Vec<Tok>, ty: &String)
    ensures
        tv(final(v)@) == tv(old(v)@) + impl_intro(g@, tv(path@), ty@),
{
    push_id(v, "impl");
    push_angle(v, &g.decl);
    push_tv_frag(v, path);
    push_id(v, "for");
    push_name(v, ty);
    push_angle(v, &g.use_args);
    push_tv_frag(v, &g.where_toks);
    assert(tv(v@) =~= tv(old(v)@) + impl_intro(g@, tv(path@), ty@));
}

/// Appends the helper contract declaration for one method.
pub fn build_helper_trait(v: &mut Vec<Tok>, ty: &String, m: &MethodItem)
    ensures
        tv(final(v)@) == tv(old(v)@) + helper_trait(ty@, m@),
{
    let h = helper_name_x(ty, &m.name);
    push_p(v, '#');
    push_open(v, Delim::Bracket);
    push_id(v, "allow");
    push_open(v, Delim::Paren);
    push_id(v, "non_camel_case_types");
    push_close(v, Delim::Paren);
    push_close(v, Delim::Bracket);
    push_id(v, "trait");
    push_name(v, &h);
    push_p(v, ':');
    push_id(v, "Sized");
    push_open(v, Delim::Brace);
    push_id(v, "type");
    push_id(v, "RetTy");
    push_p(v, ';');
    push_id(v, "fn");
    push_name(v, &m.name);
    push_open(v, Delim::Paren);
    build_inputs(v, m);
    push_close(v, Delim::Paren);
    push_arrow(v);
    push_id(v, "Self");
    push_colon2(v);
    push_id(v, "RetTy");
    push_p(v, ';');
    push_close(v, Delim::Brace);
    assert(tv(v@) =~= tv(old(v)@) + helper_trait(ty@, m@));
}

/// Appends the helper contract's implementation for one method.
pub fn build_helper_impl(v: &mut Vec<Tok>, g: &Generics, ty: &String, m: &MethodItem)
    ensures
        tv(final(v)@) == tv(old(v)@) + helper_impl(g@, ty@, m@),
{
    let h = helper_name_x(ty, &m.name);
    let mut path: Vec<Tok> = Vec::new();
    push_name(&mut path, &h);
    assert(tv(path@) =~= seq![idv(helper_name(ty@, m@.name))]);
    build_impl_intro(v, g, &path, ty);
    push_open(v, Delim::Brace);
    push_id(v, "type");
    push_id(v, "RetTy");
    push_p(v, '=');
    push_tv_frag(v, &m.ret);
    push_p(v, ';');
    push_id(v, "fn");
    push_name(v, &m.name);
    push_open(v, Delim::Paren);
    build_inputs(v, m);
    push_close(v, Delim::Paren);
    push_arrow(v);
    build_helper_ret(v, &h);
    push_open(v, Delim::Brace);
    push_tv_frag(v, &m.body);
    push_close(v, Delim::Brace);
    push_close(v, Delim::Brace);
    assert(tv(v@) =~= tv(old(v)@) + helper_impl(g@, ty@, m@));
}

/// The name of the call-protocol trait level `k` implements.
pub fn kind_trait_x(k: CallKind) -> (w: &'static str)
    ensures
        w@ == kind_trait(k),
{
    match k {
        CallKind::Once => "FnOnce",
        CallKind::Mut => "FnMut",
        CallKind::Imm => "Fn",
    }
}

/// The name of the call function level `k` declares.
pub fn kind_fn_x(k: CallKind) -> (w: &'static str)
    ensures
        w@ == kind_fn(k),
{
    match k {
        CallKind::Once => "call_once",
        CallKind::Mut => "call_mut",
        CallKind::Imm => "call",
    }
}

/// Appends one call-protocol implementation of the ladder.
#[verifier::rlimit(100)]
pub fn build_call_impl(v: &mut Vec<Tok>, g: &Generics, ty: &String, m: &MethodItem, k: CallKind)
    ensures
        tv(final(v)@) == tv(old(v)@) + call_impl(g@, ty@, m@, k),
{
    let h = helper_name_x(ty, &m.name);
    let mut path: Vec<Tok> = Vec::new();
    push_std_ops(&mut path, kind_trait_x(k));
    push_p(&mut path, '<');
    build_arg_tuple(&mut path, &m.params);
    push_p(&mut path, '>');
    assert(tv(path@) =~= std_ops(kind_trait(k)) + seq![pv('<')] + arg_tuple(m@.params)
        + seq![pv('>')]);
    build_impl_intro(v, g, &path, ty);
    push_open(v, Delim::Brace);
    let ghost mid0 = tv(old(v)@) + impl_intro(g@, tv(path@), ty@) + seq![
        TokV::Open(Delim::Brace),
    ];
    assert(tv(v@) =~= mid0);
    if matches!(k, CallKind::Once) {
        push_id(v, "type");
        push_id(v, "Output");
        push_p(v, '=');
        build_helper_ret(v, &h);
        push_p(v, ';');
        assert(tv(v@) =~= mid0 + (seq![idv("type"@), idv("Output"@), pv('=')] + helper_ret(
            helper_name(ty@, m@.name),
        ) + seq![pv(';')]));
    } else {
        assert(tv(v@) =~= mid0 + Seq::<TokV>::empty());
    }
    let ghost mid1 = mid0 + (if k == CallKind::Once {
        seq![idv("type"@), idv("Output"@), pv('=')] + helper_ret(helper_name(ty@, m@.name))
            + seq![pv(';')]
    } else {
        Seq::empty()
    });
    assert(tv(v@) == mid1);
    push_abi(v);
    push_id(v, "fn");
    push_id(v, kind_fn_x(k));
    push_open(v, Delim::Paren);
    build_kind_recv(v, k);
    push_p(v, ',');
    build_binder(v, &m.params);
    push_close(v, Delim::Paren);
    push_arrow(v);
    build_output_ref(v, &m.params);
    push_open(v, Delim::Brace);
    build_fwd_call(v, &h, m, k);
    push_close(v, Delim::Brace);
    push_close(v, Delim::Brace);
    assert(tv(v@) =~= tv(old(v)@) + call_impl(g@, ty@, m@, k));
}

/// Appends the whole ladder synthesized for one method.
#[verifier::rlimit(100)]
pub fn build_ladder(v: &mut Vec<Tok>, g: &Generics, ty: &String, m: &MethodItem)
    ensures
        tv(final(v)@) == tv(old(v)@) + ladder(g@, ty@, m@),
{
    build_helper_trait(v, ty, m);
    build_helper_impl(v, g, ty, m);
    let ghost ks = ladder_kinds(m@.receiver);
    match m.receiver {
        Receiver::Owned => {
            build_call_impl(v, g, ty, m, CallKind::Once);
            proof {
                assert(calls_out(g@, ty@, m@, ks, 1) =~= Seq::<TokV>::empty());
                assert(calls_out(g@, ty@, m@, ks, 0) =~= call_impl(g@, ty@, m@, CallKind::Once));
            }
        },
        Receiver::MutRef => {
            build_call_impl(v, g, ty, m, CallKind::Once);
            build_call_impl(v, g, ty, m, CallKind::Mut);
            proof {
                assert(calls_out(g@, ty@, m@, ks, 2) =~= Seq::<TokV>::empty());
                assert(calls_out(g@, ty@, m@, ks, 1) =~= call_impl(g@, ty@, m@, CallKind::Mut));
                assert(calls_out(g@, ty@, m@, ks, 0) =~= call_impl(g@, ty@, m@, CallKind::Once)
                    + call_impl(g@, ty@, m@, CallKind::Mut));
            }
        },
        Receiver::Ref => {
            build_call_impl(v, g, ty, m, CallKind::Once);
            build_call_impl(v, g, ty, m, CallKind::Mut);
            build_call_impl(v, g, ty, m, CallKind::Imm);
            proof {
                assert(calls_out(g@, ty@, m@, ks, 3) =~= Seq::<TokV>::empty());
                assert(calls_out(g@, ty@, m@, ks, 2) =~= call_impl(g@, ty@, m@, CallKind::Imm));
                assert(calls_out(g@, ty@, m@, ks, 1) =~= call_impl(g@, ty@, m@, CallKind::Mut)
                    + call_impl(g@, ty@, m@, CallKind::Imm));
                assert(calls_out(g@, ty@, m@, ks, 0) =~= call_impl(g@, ty@, m@, CallKind::Once)
                    + call_impl(g@, ty@, m@, CallKind::Mut) + call_impl(
                    g@,
                    ty@,
                    m@,
                    CallKind::Imm,
                ));
            }
        },
    }
    assert(tv(v@) =~= tv(old(v)@) + ladder(g@, ty@, m@));
}

/// Appends the delegating stub that stands for the method in the
/// re-emitted block.
pub fn build_stub(v: &mut Vec<Tok>, ty: &String, m: &MethodItem)
    ensures
        tv(final(v)@) == tv(old(v)@) + stub(ty@, m@),
{
    let h = helper_name_x(ty, &m.name);
    push_tv_frag(v, &m.attrs);
    push_tv_frag(v, &m.vis);
    push_id(v, "fn");
    push_name(v, &m.name);
    push_open(v, Delim::Paren);
    build_inputs(v, m);
    push_close(v, Delim::Paren);
    push_arrow(v);
    build_helper_ret(v, &h);
    push_open(v, Delim::Brace);
    build_fwd_call(v, &h, m, CallKind::Mut);
    push_close(v, Delim::Brace);
    assert(tv(v@) =~= tv(old(v)@) + stub(ty@, m@));
}

} // verus!
