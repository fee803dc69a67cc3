use vstd::prelude::*;
use crate::token::{Tok, TokV, Delim, tv, tv_laws};
use crate::ast::{Error, Member, MemberV, Generics, GenericsV, ImplBlock, BlockV, members_v};
use crate::synth::{idv, angle, stub, ladder, build_stub, build_ladder, push_tv_frag, push_id,
    push_name, push_angle, push_open, push_close};
use crate::parse::{parse_spec, parse_impl_block};

verus! {

broadcast use tv_laws;

/// What one member contributes to the re-emitted block: methods become
/// delegating stubs, every other member is re-emitted verbatim.
pub open spec fn member_out(ty: Seq<char>, m: MemberV) -> Seq<TokV> {
    match m {
        MemberV::Method(mm) => stub(ty, mm),
        MemberV::Other(t) => tv(t),
    }
}

/// The re-emitted members, in declaration order.
pub open spec fn members_out(ty: Seq<char>, ms: Seq<MemberV>, i: int) -> Seq<TokV>
    decreases ms.len() - i,
{
    if i >= ms.len() {
        Seq::empty()
    } else {
        member_out(ty, ms[i]) + members_out(ty, ms, i + 1)
    }
}

/// The re-emitted implementation block: same attributes, generics, type
/// and where-clause, methods replaced by their stubs, other members kept
/// verbatim.
pub open spec fn block_out(b: BlockV) -> Seq<TokV> {
    tv(b.attrs) + seq![idv("impl"@)] + angle(b.generics.decl) + seq![idv(b.ty_name)] + angle(
        b.generics.use_args,
    ) + tv(b.generics.where_toks) + seq![TokV::Open(Delim::Brace)] + members_out(
        b.ty_name,
        b.members,
        0,
    ) + seq![TokV::Close(Delim::Brace)]
}

/// What one member contributes after the block: a whole ladder for a
/// method, nothing for any other member.
pub open spec fn ladder_out(g: GenericsV, ty: Seq<char>, m: MemberV) -> Seq<TokV> {
    match m {
        MemberV::Method(mm) => ladder(g, ty, mm),
        MemberV::Other(t) => Seq::empty(),
    }
}

/// The ladders of all methods, in the order the methods were declared.
pub open spec fn ladders_out(g: GenericsV, ty: Seq<char>, ms: Seq<MemberV>, i: int) -> Seq<TokV>
    decreases ms.len() - i,
{
    if i >= ms.len() {
        Seq::empty()
    } else {
        ladder_out(g, ty, ms[i]) + ladders_out(g, ty, ms, i + 1)
    }
}

/// Everything the transformation emits for a parsed block: first the
/// re-emitted block, then every method's ladder, in declaration order.
pub open spec fn emit_spec(b: BlockV) -> Seq<TokV> {
    block_out(b) + ladders_out(b.generics, b.ty_name, b.members, 0)
}

/// Appends the re-emitted members from `i` on.
pub fn build_members_out(v: &mut Vec<Tok>, ty: &String, ms: &Vec<Member>, i: usize)
    requires
        i <= ms@.len(),
    ensures
        tv(final(v)@) == tv(old(v)@) + members_out(ty@, members_v(ms@), i as int),
    decreases ms@.len() - i,
{
    if i < ms.len() {
        proof {
            assert(members_v(ms@)[i as int] == ms@[i as int]@);
        }
        match &ms[i] {
            Member::Method(m) => {
                build_stub(v, ty, m);
            },
            Member::Other(t) => {
                push_tv_frag(v, t);
            },
        }
        build_members_out(v, ty, ms, i + 1);
        assert(tv(v@) =~= tv(old(v)@) + members_out(ty@, members_v(ms@), i as int));
    } else {
        assert(tv(v@) =~= tv(old(v)@) + members_out(ty@, members_v(ms@), i as int));
    }
}

/// Appends the ladders of the members from `i` on.
pub fn build_ladders_out(v: &mut Vec<Tok>, g: &Generics, ty: &String, ms: &Vec<Member>, i: usize)
    requires
        i <= ms@.len(),
    ensures
        tv(final(v)@) == tv(old(v)@) + ladders_out(g@, ty@, members_v(ms@), i as int),
    decreases ms@.len() - i,
{
    if i < ms.len() {
        proof {
            assert(members_v(ms@)[i as int] == ms@[i as int]@);
        }
        match &ms[i] {
            Member::Method(m) => {
                build_ladder(v, g, ty, m);
            },
            Member::Other(_) => {
            },
        }
        build_ladders_out(v, g, ty, ms, i + 1);
        assert(tv(v@) =~= tv(old(v)@) + ladders_out(g@, ty@, members_v(ms@), i as int));
    } else {
        assert(tv(v@) =~= tv(old(v)@) + ladders_out(g@, ty@, members_v(ms@), i as int));
    }
}

/// The synthesizer and emission stages: turns a parsed block into the
/// exact token sequence the transformation substitutes for it.
pub fn functionate_impl(b: &ImplBlock) -> (out: Vec<Tok>)
    ensures
        tv(out@) == emit_spec(b@),
{
    let mut v: Vec<Tok> = Vec::new();
    push_tv_frag(&mut v, &b.attrs);
    push_id(&mut v, "impl");
    push_angle(&mut v, &b.generics.decl);
    push_name(&mut v, &b.ty_name);
    push_angle(&mut v, &b.generics.use_args);
    push_tv_frag(&mut v, &b.generics.where_toks);
    push_open(&mut v, Delim::Brace);
    build_members_out(&mut v, &b.ty_name, &b.members, 0);
    push_close(&mut v, Delim::Brace);
    assert(tv(v@) =~= block_out(b@));
    build_ladders_out(&mut v, &b.generics, &b.ty_name, &b.members, 0);
    assert(tv(v@) =~= emit_spec(b@));
    v
}

/// The whole transformation: parses the token form of the annotated item
/// and either returns the exact tokens to substitute for it, or the
/// diagnostic that the input deserves.
pub fn functionate(item: &Vec<Tok>) -> (r: Result<Vec<Tok>, Error>)
    ensures
        match r {
            Ok(out) => parse_spec(item@) matches Ok(b) && tv(out@) == emit_spec(b),
            Err(e) => parse_spec(item@) == Err::<BlockV, Error>(e),
        },
{
    match parse_impl_block(item) {
        Err(e) => Err(e),
        Ok(b) => Ok(functionate_impl(&b)),
    }
}

} // verus!
