use vstd::prelude::*;
use crate::token::{Tok, TokV, tv};
use crate::ast::{Receiver, ParamV, MethodV, MemberV, GenericsV};
use crate::synth::{CallKind, angle, std_ops, kind_trait, helper_name, kind_self, arg_tuple,
    tuple_inner, fwd_call, call_impl, impl_intro, ladder_kinds, helper_impl, idv, pv};
use crate::parse::{parse_method, unit_toks};
use crate::emit::{member_out, members_out, ladder_out};

verus! {

/// The middle of a three-part concatenation, read back out.
pub proof fn lemma_mid(a: Seq<TokV>, b: Seq<TokV>, c: Seq<TokV>)
    ensures
        (a + b + c).subrange(a.len() as int, a.len() + b.len() as int) == b,
{
    assert((a + b + c).subrange(a.len() as int, a.len() + b.len() as int) =~= b);
}

/// Where the type of parameter `i` begins inside the tuple's interior,
/// counting from entry `j`.
pub open spec fn off_from(ps: Seq<ParamV>, j: int, i: int) -> int
    decreases i - j,
{
    if i <= j {
        0
    } else {
        ps[j].ty.len() + 1 + off_from(ps, j + 1, i)
    }
}

/// Inside `tuple_inner(ps, j)`, the type of parameter `i` stands
/// contiguously at `off_from(ps, j, i)`, followed by its comma.
pub proof fn lemma_tuple_entry(ps: Seq<ParamV>, j: int, i: int)
    requires
        0 <= j <= i < ps.len(),
    ensures
        0 <= off_from(ps, j, i),
        off_from(ps, j, i) + ps[i].ty.len() + 1 <= tuple_inner(ps, j).len(),
        tuple_inner(ps, j).subrange(
            off_from(ps, j, i),
            off_from(ps, j, i) + ps[i].ty.len() as int,
        ) == tv(ps[i].ty),
    decreases i - j,
{
    if i == j {
        assert(tuple_inner(ps, j) == tv(ps[j].ty) + seq![pv(',')] + tuple_inner(ps, j + 1));
        assert(tuple_inner(ps, j).subrange(0, ps[i].ty.len() as int) =~= tv(ps[i].ty));
    } else {
        lemma_tuple_entry(ps, j + 1, i);
        let head = tv(ps[j].ty) + seq![pv(',')];
        let rest = tuple_inner(ps, j + 1);
        assert(tuple_inner(ps, j) == tv(ps[j].ty) + seq![pv(',')] + rest);
        assert(tuple_inner(ps, j) =~= head + rest);
        let o = off_from(ps, j + 1, i);
        assert(off_from(ps, j, i) == head.len() + o);
        assert((head + rest).subrange(head.len() + o, head.len() + o + ps[i].ty.len() as int)
            =~= rest.subrange(o, o + ps[i].ty.len() as int));
    }
}

/// Arity preservation, in the shape of the emitted source: the argument
/// tuple that keys a synthesized implementation opens with a parenthesis,
/// lists the type of every declared parameter contiguously, in
/// declaration order and each followed by its comma, and closes again —
/// so the tuple's shape is exactly the N declared types.
pub proof fn lemma_arity(ps: Seq<ParamV>, i: int)
    requires
        0 <= i < ps.len(),
    ensures
        arg_tuple(ps).subrange(
            1 + off_from(ps, 0, i),
            1 + off_from(ps, 0, i) + ps[i].ty.len() as int,
        ) == tv(ps[i].ty),
{
    lemma_tuple_entry(ps, 0, i);
    let o = off_from(ps, 0, i);
    assert(arg_tuple(ps).subrange(1 + o, 1 + o + ps[i].ty.len() as int) =~= tuple_inner(
        ps,
        0,
    ).subrange(o, o + ps[i].ty.len() as int));
}

/// The same tuple keys every level of the ladder: each level's
/// implementation head embeds `arg_tuple(m.params)` right after the
/// call-protocol trait's path, whatever the level.
pub proof fn lemma_arity_key(g: GenericsV, ty: Seq<char>, m: MethodV, k: CallKind)
    ensures
        ({
            let off: int = 2 + angle(g.decl).len() as int + std_ops(kind_trait(k)).len() as int;
            call_impl(g, ty, m, k).subrange(off, off + arg_tuple(m.params).len() as int) == arg_tuple(
                m.params,
            )
        }),
{
    let pre = seq![idv("impl"@)] + angle(g.decl) + std_ops(kind_trait(k)) + seq![pv('<')];
    let path = std_ops(kind_trait(k)) + seq![pv('<')] + arg_tuple(m.params) + seq![pv('>')];
    let tail = call_impl(g, ty, m, k).subrange(
        pre.len() + arg_tuple(m.params).len() as int,
        call_impl(g, ty, m, k).len() as int,
    );
    assert(call_impl(g, ty, m, k) =~= pre + arg_tuple(m.params) + tail);
    lemma_mid(pre, arg_tuple(m.params), tail);
    assert(pre.len() == 2 + angle(g.decl).len() + std_ops(kind_trait(k)).len());
}

/// Receiver-ladder completeness: the consuming level is always offered
/// first; an exclusive receiver earns the repeatable-mutable level on
/// top, a shared receiver all three; and a stricter receiver's ladder is
/// a prefix of every weaker receiver's.
pub proof fn lemma_receiver_ladder(r: Receiver)
    ensures
        ladder_kinds(r).len() >= 1,
        ladder_kinds(r)[0] == CallKind::Once,
        ladder_kinds(Receiver::Owned) == seq![CallKind::Once],
        ladder_kinds(Receiver::MutRef) == seq![CallKind::Once, CallKind::Mut],
        ladder_kinds(Receiver::Ref) == seq![CallKind::Once, CallKind::Mut, CallKind::Imm],
        ladder_kinds(Receiver::Owned).is_prefix_of(ladder_kinds(Receiver::MutRef)),
        ladder_kinds(Receiver::MutRef).is_prefix_of(ladder_kinds(Receiver::Ref)),
{
    assert(ladder_kinds(Receiver::Owned) =~= seq![CallKind::Once]);
    assert(ladder_kinds(Receiver::MutRef) =~= seq![CallKind::Once, CallKind::Mut]);
    assert(ladder_kinds(Receiver::Ref) =~= seq![CallKind::Once, CallKind::Mut, CallKind::Imm]);
}

/// Result equivalence, as far as it shows in the emitted source: every
/// level's call function has as its whole body the bare forwarding call,
/// which names the method's own helper contract and method, hands the
/// receiver over first, and then the declared argument patterns —
/// nothing is added, reordered or transformed on the way through.
pub proof fn lemma_forwarding(g: GenericsV, ty: Seq<char>, m: MethodV, k: CallKind)
    ensures
        ({
            let ci = call_impl(g, ty, m, k);
            let body = fwd_call(helper_name(ty, m.name), m.name, kind_self(k, m.receiver), m.params);
            ci.subrange(ci.len() - 2 - body.len() as int, ci.len() - 2) == body
        }),
{
    let ci = call_impl(g, ty, m, k);
    let body = fwd_call(helper_name(ty, m.name), m.name, kind_self(k, m.receiver), m.params);
    let pre = ci.subrange(0, ci.len() - 2 - body.len() as int);
    let suf = seq![TokV::Close(crate::token::Delim::Brace), TokV::Close(
        crate::token::Delim::Brace,
    )];
    assert(ci =~= pre + body + suf);
    lemma_mid(pre, body, suf);
}

/// Return-type defaulting: a method the classifier accepts without an
/// explicit return annotation carries exactly the unit tokens as its
/// return type, so its helper implementation binds the single declared
/// result type to unit.
pub proof fn lemma_return_default(
    ts: Seq<Tok>,
    i: int,
    a: int,
    v: int,
    end: int,
    m: MethodV,
    nx: int,
)
    requires
        parse_method(ts, i, a, v, end) == Ok::<(MethodV, int), crate::ast::Error>((m, nx)),
        !m.explicit_ret,
    ensures
        m.ret == unit_toks(),
{
}

/// Non-method passthrough: a member that is not a method contributes its
/// tokens verbatim, at its own position, to the re-emitted block, and no
/// ladder is synthesized for it.
pub proof fn lemma_passthrough(
    g: GenericsV,
    ty: Seq<char>,
    ms: Seq<MemberV>,
    i: int,
    t: Seq<Tok>,
)
    requires
        0 <= i < ms.len(),
        ms[i] == MemberV::Other(t),
    ensures
        member_out(ty, ms[i]) == tv(t),
        ladder_out(g, ty, ms[i]) == Seq::<TokV>::empty(),
        members_out(ty, ms, i) == tv(t) + members_out(ty, ms, i + 1),
{
}

/// Generics fidelity, first half: the shared implementation head embeds
/// the block's three generics fragments verbatim — the declaration-site
/// list right after `impl`, the use-site arguments right after the target
/// type, and the where-clause at its end.
pub proof fn lemma_generics_fidelity(g: GenericsV, path: Seq<TokV>, ty: Seq<char>)
    ensures
        ({
            let h = impl_intro(g, path, ty);
            &&& g.decl.len() > 0 ==> h.subrange(2, 2 + g.decl.len() as int) == tv(g.decl)
            &&& g.use_args.len() > 0 ==> {
                let u: int = 4 + angle(g.decl).len() as int + path.len() as int;
                h.subrange(u, u + g.use_args.len() as int) == tv(g.use_args)
            }
            &&& h.subrange(h.len() - g.where_toks.len() as int, h.len() as int) == tv(g.where_toks)
        }),
{
    let h = impl_intro(g, path, ty);
    if g.decl.len() > 0 {
        assert(h.subrange(2, 2 + g.decl.len() as int) =~= tv(g.decl));
    }
    if g.use_args.len() > 0 {
        let u: int = 4 + angle(g.decl).len() as int + path.len() as int;
        assert(h.subrange(u, u + g.use_args.len() as int) =~= tv(g.use_args));
    }
    assert(h.subrange(h.len() - g.where_toks.len() as int, h.len() as int) =~= tv(g.where_toks));
}

/// Generics fidelity, second half: every implementation of a method's
/// ladder, and the helper implementation too, begins with that shared
/// head, built from the block's generics unchanged.
pub proof fn lemma_impl_heads(g: GenericsV, ty: Seq<char>, m: MethodV, k: CallKind)
    ensures
        ({
            let path = std_ops(kind_trait(k)) + seq![pv('<')] + arg_tuple(m.params) + seq![
                pv('>'),
            ];
            call_impl(g, ty, m, k).subrange(0, impl_intro(g, path, ty).len() as int)
                == impl_intro(g, path, ty)
        }),
        ({
            let hp = seq![idv(helper_name(ty, m.name))];
            helper_impl(g, ty, m).subrange(0, impl_intro(g, hp, ty).len() as int) == impl_intro(
                g,
                hp,
                ty,
            )
        }),
{
    let path = std_ops(kind_trait(k)) + seq![pv('<')] + arg_tuple(m.params) + seq![pv('>')];
    assert(call_impl(g, ty, m, k).subrange(0, impl_intro(g, path, ty).len() as int)
        =~= impl_intro(g, path, ty));
    let hp = seq![idv(helper_name(ty, m.name))];
    assert(helper_impl(g, ty, m).subrange(0, impl_intro(g, hp, ty).len() as int) =~= impl_intro(
        g,
        hp,
        ty,
    ));
}


/// The single-result invariant across the ladder: only the consuming
/// member declares the call's output type; in every other member the
/// body opens directly with the call function, and the result is only
/// referenced through the consuming trait's path.
pub proof fn lemma_single_output(g: GenericsV, ty: Seq<char>, m: MethodV, k: CallKind)
    ensures
        ({
            let ci = call_impl(g, ty, m, k);
            let path = std_ops(kind_trait(k)) + seq![pv('<')] + arg_tuple(m.params) + seq![
                pv('>'),
            ];
            let ih = impl_intro(g, path, ty);
            &&& k == CallKind::Once ==> ci[ih.len() as int + 1] == idv("type"@) && ci[ih.len() as int + 2]
                == idv("Output"@)
            &&& k != CallKind::Once ==> ci[ih.len() as int + 1] == TokV::Abi
        }),
{
    let ci = call_impl(g, ty, m, k);
    let path = std_ops(kind_trait(k)) + seq![pv('<')] + arg_tuple(m.params) + seq![pv('>')];
    let ih = impl_intro(g, path, ty);
    if k == CallKind::Once {
        assert(ci[ih.len() as int + 1] == idv("type"@));
        assert(ci[ih.len() as int + 2] == idv("Output"@));
    } else {
        assert(ci[ih.len() as int + 1] == TokV::Abi);
    }
}

} // verus!
