use functionate::ast::{Error, Member, Receiver};
use functionate::emit::functionate;
use functionate::parse::parse_impl_block;
use functionate::token::{Delim, Tok};

fn id(s: &str) -> Tok {
    Tok::Ident(s.to_string())
}

fn pa(c: char) -> Tok {
    Tok::Punct(c, false)
}

fn pj(c: char) -> Tok {
    Tok::Punct(c, true)
}

fn ob() -> Tok {
    Tok::Open(Delim::Brace)
}

fn cb() -> Tok {
    Tok::Close(Delim::Brace)
}

fn op() -> Tok {
    Tok::Open(Delim::Paren)
}

fn cp() -> Tok {
    Tok::Close(Delim::Paren)
}

fn obk() -> Tok {
    Tok::Open(Delim::Bracket)
}

fn cbk() -> Tok {
    Tok::Close(Delim::Bracket)
}

/// `::`
fn c2(v: &mut Vec<Tok>) {
    v.push(pj(':'));
    v.push(pa(':'));
}

/// `->`
fn ar(v: &mut Vec<Tok>) {
    v.push(pj('-'));
    v.push(pa('>'));
}

/// `< Self as <h> >`
fn qual(v: &mut Vec<Tok>, h: &str) {
    v.push(pa('<'));
    v.push(id("Self"));
    v.push(id("as"));
    v.push(id(h));
    v.push(pa('>'));
}

/// `< Self as <h> > :: RetTy`
fn helper_ret(v: &mut Vec<Tok>, h: &str) {
    qual(v, h);
    c2(v);
    v.push(id("RetTy"));
}

/// `:: std :: ops :: <tr>`
fn std_ops(v: &mut Vec<Tok>, tr: &str) {
    c2(v);
    v.push(id("std"));
    c2(v);
    v.push(id("ops"));
    c2(v);
    v.push(id(tr));
}

/// Does `hay` contain `needle` as a contiguous run?
fn contains_run(hay: &[Tok], needle: &[Tok]) -> bool {
    if needle.is_empty() {
        return true;
    }
    if hay.len() < needle.len() {
        return false;
    }
    for s in 0..=(hay.len() - needle.len()) {
        if &hay[s..s + needle.len()] == needle {
            return true;
        }
    }
    false
}

fn count_runs(hay: &[Tok], needle: &[Tok]) -> usize {
    let mut n = 0;
    if hay.len() < needle.len() || needle.is_empty() {
        return 0;
    }
    for s in 0..=(hay.len() - needle.len()) {
        if &hay[s..s + needle.len()] == needle {
            n += 1;
        }
    }
    n
}

fn count_tok(hay: &[Tok], t: &Tok) -> usize {
    hay.iter().filter(|x| *x == t).count()
}

/// `impl T0 { fn go ( self ) { } }`
fn owned_input() -> Vec<Tok> {
    vec![
        id("impl"),
        id("T0"),
        ob(),
        id("fn"),
        id("go"),
        op(),
        id("self"),
        cp(),
        ob(),
        cb(),
        cb(),
    ]
}

#[test]
fn owned_method_exact_output() {
    let out = functionate(&owned_input()).unwrap();
    let h = "_T0Functionate_go";
    let mut e: Vec<Tok> = Vec::new();
    // the re-emitted block, with the method turned into a delegating stub
    e.push(id("impl"));
    e.push(id("T0"));
    e.push(ob());
    e.push(id("fn"));
    e.push(id("go"));
    e.push(op());
    e.push(id("self"));
    e.push(cp());
    ar(&mut e);
    helper_ret(&mut e, h);
    e.push(ob());
    qual(&mut e, h);
    c2(&mut e);
    e.push(id("go"));
    e.push(op());
    e.push(id("self"));
    e.push(cp());
    e.push(cb());
    e.push(cb());
    // the helper contract
    e.push(pa('#'));
    e.push(obk());
    e.push(id("allow"));
    e.push(op());
    e.push(id("non_camel_case_types"));
    e.push(cp());
    e.push(cbk());
    e.push(id("trait"));
    e.push(id(h));
    e.push(pa(':'));
    e.push(id("Sized"));
    e.push(ob());
    e.push(id("type"));
    e.push(id("RetTy"));
    e.push(pa(';'));
    e.push(id("fn"));
    e.push(id("go"));
    e.push(op());
    e.push(id("self"));
    e.push(cp());
    ar(&mut e);
    e.push(id("Self"));
    c2(&mut e);
    e.push(id("RetTy"));
    e.push(pa(';'));
    e.push(cb());
    // the helper implementation, result type defaulted to unit
    e.push(id("impl"));
    e.push(id(h));
    e.push(id("for"));
    e.push(id("T0"));
    e.push(ob());
    e.push(id("type"));
    e.push(id("RetTy"));
    e.push(pa('='));
    e.push(op());
    e.push(cp());
    e.push(pa(';'));
    e.push(id("fn"));
    e.push(id("go"));
    e.push(op());
    e.push(id("self"));
    e.push(cp());
    ar(&mut e);
    helper_ret(&mut e, h);
    e.push(ob());
    e.push(cb());
    e.push(cb());
    // the single consuming implementation of the ladder
    e.push(id("impl"));
    std_ops(&mut e, "FnOnce");
    e.push(pa('<'));
    e.push(op());
    e.push(cp());
    e.push(pa('>'));
    e.push(id("for"));
    e.push(id("T0"));
    e.push(ob());
    e.push(id("type"));
    e.push(id("Output"));
    e.push(pa('='));
    helper_ret(&mut e, h);
    e.push(pa(';'));
    e.push(Tok::Abi);
    e.push(id("fn"));
    e.push(id("call_once"));
    e.push(op());
    e.push(id("mut"));
    e.push(id("self"));
    e.push(pa(','));
    e.push(id("_"));
    e.push(pa(':'));
    e.push(op());
    e.push(cp());
    e.push(cp());
    ar(&mut e);
    e.push(pa('<'));
    e.push(id("Self"));
    e.push(id("as"));
    std_ops(&mut e, "FnOnce");
    e.push(pa('<'));
    e.push(op());
    e.push(cp());
    e.push(pa('>'));
    e.push(pa('>'));
    c2(&mut e);
    e.push(id("Output"));
    e.push(ob());
    qual(&mut e, h);
    c2(&mut e);
    e.push(id("go"));
    e.push(op());
    e.push(id("self"));
    e.push(cp());
    e.push(cb());
    e.push(cb());
    assert_eq!(out, e);
}

/// `impl Demo { fn get ( & self , x : u32 ) -> u32 { x } }`
fn ref_input() -> Vec<Tok> {
    vec![
        id("impl"),
        id("Demo"),
        ob(),
        id("fn"),
        id("get"),
        op(),
        pa('&'),
        id("self"),
        pa(','),
        id("x"),
        pa(':'),
        id("u32"),
        cp(),
        pj('-'),
        pa('>'),
        id("u32"),
        ob(),
        id("x"),
        cb(),
        cb(),
    ]
}

#[test]
fn ref_method_full_ladder() {
    let out = functionate(&ref_input()).unwrap();
    // a shared receiver earns all three call-protocol levels
    assert_eq!(count_tok(&out, &Tok::Abi), 3);
    let once = out.iter().position(|t| *t == id("call_once")).unwrap();
    let muta = out.iter().position(|t| *t == id("call_mut")).unwrap();
    let imm = out.iter().position(|t| *t == id("call")).unwrap();
    assert!(once < muta && muta < imm);
    assert!(contains_run(&out, &[id("FnOnce")]));
    assert!(contains_run(&out, &[id("FnMut")]));
    assert!(contains_run(&out, &[id("Fn")]));
    // every forwarding body hands the arguments over unchanged
    let mut fwd: Vec<Tok> = Vec::new();
    qual(&mut fwd, "_DemoFunctionate_get");
    c2(&mut fwd);
    fwd.push(id("get"));
    fwd.push(op());
    fwd.push(pa('&'));
    fwd.push(id("self"));
    fwd.push(pa(','));
    fwd.push(id("x"));
    fwd.push(cp());
    // the consuming level re-creates the shared borrow
    assert_eq!(count_runs(&out, &fwd), 1);
}

#[test]
fn ref_method_classified() {
    let b = parse_impl_block(&ref_input()).unwrap();
    assert_eq!(b.ty_name, "Demo".to_string());
    assert_eq!(b.members.len(), 1);
    match &b.members[0] {
        Member::Method(m) => {
            assert_eq!(m.name, "get".to_string());
            assert_eq!(m.receiver, Receiver::Ref);
            assert_eq!(m.params.len(), 1);
            assert_eq!(m.params[0].pat, vec![id("x")]);
            assert_eq!(m.params[0].ty, vec![id("u32")]);
            assert!(m.explicit_ret);
            assert_eq!(m.ret, vec![id("u32")]);
            assert_eq!(m.body, vec![id("x")]);
        },
        _ => panic!("expected a method"),
    }
}

/// `impl Counter { fn bump ( & mut self ) -> u32 { self . n } }`
fn mutref_input() -> Vec<Tok> {
    vec![
        id("impl"),
        id("Counter"),
        ob(),
        id("fn"),
        id("bump"),
        op(),
        pa('&'),
        id("mut"),
        id("self"),
        cp(),
        pj('-'),
        pa('>'),
        id("u32"),
        ob(),
        id("self"),
        pa('.'),
        id("n"),
        cb(),
        cb(),
    ]
}

#[test]
fn mutref_method_two_levels() {
    let out = functionate(&mutref_input()).unwrap();
    assert_eq!(count_tok(&out, &Tok::Abi), 2);
    assert!(contains_run(&out, &[id("call_once")]));
    assert!(contains_run(&out, &[id("call_mut")]));
    assert_eq!(count_tok(&out, &id("call")), 0);
    let b = parse_impl_block(&mutref_input()).unwrap();
    match &b.members[0] {
        Member::Method(m) => assert_eq!(m.receiver, Receiver::MutRef),
        _ => panic!("expected a method"),
    }
}

#[test]
fn owned_mut_receiver_is_owned() {
    // `impl W { fn take ( mut self ) { } }`
    let input = vec![
        id("impl"),
        id("W"),
        ob(),
        id("fn"),
        id("take"),
        op(),
        id("mut"),
        id("self"),
        cp(),
        ob(),
        cb(),
        cb(),
    ];
    let b = parse_impl_block(&input).unwrap();
    match &b.members[0] {
        Member::Method(m) => assert_eq!(m.receiver, Receiver::Owned),
        _ => panic!("expected a method"),
    }
    let out = functionate(&input).unwrap();
    assert_eq!(count_tok(&out, &Tok::Abi), 1);
}

#[test]
fn lifetime_receiver_is_ref() {
    // `impl < 'a > H { fn peek ( & 'a self ) -> u32 { self . n } }`
    let input = vec![
        id("impl"),
        pa('<'),
        pj('\''),
        id("a"),
        pa('>'),
        id("H"),
        ob(),
        id("fn"),
        id("peek"),
        op(),
        pa('&'),
        pj('\''),
        id("a"),
        id("self"),
        cp(),
        pj('-'),
        pa('>'),
        id("u32"),
        ob(),
        id("self"),
        pa('.'),
        id("n"),
        cb(),
        cb(),
    ];
    let b = parse_impl_block(&input).unwrap();
    assert_eq!(b.generics.decl, vec![pj('\''), id("a")]);
    assert_eq!(b.generics.use_args, vec![pj('\''), id("a")]);
    match &b.members[0] {
        Member::Method(m) => assert_eq!(m.receiver, Receiver::Ref),
        _ => panic!("expected a method"),
    }
}

/// `impl P { fn put ( & self , x : u32 , y : String ) { } }`
fn two_param_input() -> Vec<Tok> {
    vec![
        id("impl"),
        id("P"),
        ob(),
        id("fn"),
        id("put"),
        op(),
        pa('&'),
        id("self"),
        pa(','),
        id("x"),
        pa(':'),
        id("u32"),
        pa(','),
        id("y"),
        pa(':'),
        id("String"),
        cp(),
        ob(),
        cb(),
        cb(),
    ]
}

#[test]
fn arity_two_params_tuple() {
    let out = functionate(&two_param_input()).unwrap();
    // the argument tuple lists both declared types, in order
    let tuple = vec![op(), id("u32"), pa(','), id("String"), pa(','), cp()];
    // once per ladder level, twice inside the consuming level (binder
    // type and written return type), once more in each other level's
    // return type: FnOnce 3, FnMut 2, Fn 2 appearances of the tuple,
    // plus one in each level's trait path: in all, 3 levels * 2 + 1 = at
    // least 3; just require it appears and the binder is right.
    assert!(count_runs(&out, &tuple) >= 3);
    let binder = vec![op(), id("x"), pa(','), id("y"), pa(','), cp(), pa(':')];
    assert!(contains_run(&out, &binder));
    // forwarded in order after the receiver
    let fwd_tail = vec![pa(','), id("x"), pa(','), id("y"), cp()];
    assert!(contains_run(&out, &fwd_tail));
}

#[test]
fn nested_generic_param_types() {
    // `impl M { fn set ( & mut self , m : Map < u32 , u32 > ) { } }` —
    // the comma inside the angle brackets does not split the parameter
    let input = vec![
        id("impl"),
        id("M"),
        ob(),
        id("fn"),
        id("set"),
        op(),
        pa('&'),
        id("mut"),
        id("self"),
        pa(','),
        id("m"),
        pa(':'),
        id("Dict"),
        pa('<'),
        id("u32"),
        pa(','),
        id("u32"),
        pa('>'),
        cp(),
        ob(),
        cb(),
        cb(),
    ];
    let b = parse_impl_block(&input).unwrap();
    match &b.members[0] {
        Member::Method(m) => {
            assert_eq!(m.params.len(), 1);
            assert_eq!(
                m.params[0].ty,
                vec![id("Dict"), pa('<'), id("u32"), pa(','), id("u32"), pa('>')]
            );
        },
        _ => panic!("expected a method"),
    }
}

#[test]
fn return_default_is_unit() {
    let b = parse_impl_block(&owned_input()).unwrap();
    match &b.members[0] {
        Member::Method(m) => {
            assert!(!m.explicit_ret);
            assert_eq!(m.ret, vec![op(), cp()]);
        },
        _ => panic!("expected a method"),
    }
    // the helper implementation binds the declared result type to unit
    let out = functionate(&owned_input()).unwrap();
    let decl = vec![id("type"), id("RetTy"), pa('='), op(), cp(), pa(';')];
    assert!(contains_run(&out, &decl));
}

#[test]
fn non_method_passthrough() {
    // `impl K { const LIMIT : u32 = 5 ; fn get ( & self ) -> u32 { LIMIT } }`
    let input = vec![
        id("impl"),
        id("K"),
        ob(),
        id("const"),
        id("LIMIT"),
        pa(':'),
        id("u32"),
        pa('='),
        Tok::Lit("5".to_string()),
        pa(';'),
        id("fn"),
        id("get"),
        op(),
        pa('&'),
        id("self"),
        cp(),
        pj('-'),
        pa('>'),
        id("u32"),
        ob(),
        id("LIMIT"),
        cb(),
        cb(),
    ];
    let b = parse_impl_block(&input).unwrap();
    assert_eq!(b.members.len(), 2);
    let konst = vec![
        id("const"),
        id("LIMIT"),
        pa(':'),
        id("u32"),
        pa('='),
        Tok::Lit("5".to_string()),
        pa(';'),
    ];
    match &b.members[0] {
        Member::Other(t) => assert_eq!(t, &konst),
        _ => panic!("expected passthrough"),
    }
    let out = functionate(&input).unwrap();
    // the constant appears exactly once, unchanged, and before the ladders
    assert_eq!(count_runs(&out, &konst), 1);
    let at = out
        .windows(konst.len())
        .position(|w| w == konst.as_slice())
        .unwrap();
    let first_trait = out.iter().position(|t| *t == id("trait")).unwrap();
    assert!(at < first_trait);
}

#[test]
fn reject_trait_qualified_block() {
    // `impl Marker for Demo { }`
    let input = vec![id("impl"), id("Marker"), id("for"), id("Demo"), ob(), cb()];
    assert_eq!(functionate(&input), Err(Error::ExpectedBareImpl));
}

#[test]
fn reject_complex_type_path() {
    // `impl < T > Vec < T > { }`
    let input = vec![
        id("impl"),
        pa('<'),
        id("T"),
        pa('>'),
        id("Vec"),
        pa('<'),
        id("T"),
        pa('>'),
        ob(),
        cb(),
    ];
    assert_eq!(functionate(&input), Err(Error::BadType));
}

#[test]
fn reject_trait_for_complex_type() {
    // the type check comes first: `impl Marker for Vec < T > { }`
    let input = vec![
        id("impl"),
        id("Marker"),
        id("for"),
        id("Vec"),
        pa('<'),
        id("T"),
        pa('>'),
        ob(),
        cb(),
    ];
    assert_eq!(functionate(&input), Err(Error::BadType));
}

#[test]
fn reject_typed_first_param() {
    // `impl D { fn f ( x : u32 ) { } }`
    let input = vec![
        id("impl"),
        id("D"),
        ob(),
        id("fn"),
        id("f"),
        op(),
        id("x"),
        pa(':'),
        id("u32"),
        cp(),
        ob(),
        cb(),
        cb(),
    ];
    assert_eq!(functionate(&input), Err(Error::ExpectedMethod));
}

#[test]
fn reject_no_receiver() {
    // `impl D { fn f ( ) { } }`
    let input = vec![
        id("impl"),
        id("D"),
        ob(),
        id("fn"),
        id("f"),
        op(),
        cp(),
        ob(),
        cb(),
        cb(),
    ];
    assert_eq!(functionate(&input), Err(Error::ExpectedMethod));
}

#[test]
fn reject_typed_self() {
    // `impl D { fn f ( self : Wrap < Self > ) { } }`
    let input = vec![
        id("impl"),
        id("D"),
        ob(),
        id("fn"),
        id("f"),
        op(),
        id("self"),
        pa(':'),
        id("Wrap"),
        pa('<'),
        id("Self"),
        pa('>'),
        cp(),
        ob(),
        cb(),
        cb(),
    ];
    assert_eq!(functionate(&input), Err(Error::ExpectedMethod));
}

#[test]
fn reject_not_an_impl() {
    let input = vec![id("fn"), id("f"), op(), cp(), ob(), cb()];
    assert_eq!(functionate(&input), Err(Error::Malformed));
}

#[test]
fn empty_block_emits_block_only() {
    let input = vec![id("impl"), id("Empty"), ob(), cb()];
    let out = functionate(&input).unwrap();
    assert_eq!(out, vec![id("impl"), id("Empty"), ob(), cb()]);
}

#[test]
fn generics_carried_verbatim() {
    // `impl < T : Clone , const N : usize > Holder < T , N > ...` is
    // rejected, so the stricter form writes the generics only on `impl`:
    // `impl < T : Clone , const N : usize > Holder where T : Default
    //  { fn peek ( & self ) -> T { self . t } }`
    let decl = vec![
        id("T"),
        pa(':'),
        id("Clone"),
        pa(','),
        id("const"),
        id("N"),
        pa(':'),
        id("usize"),
    ];
    let mut input = vec![id("impl"), pa('<')];
    input.extend(decl.iter().cloned());
    input.push(pa('>'));
    input.push(id("Holder"));
    input.push(id("where"));
    input.push(id("T"));
    input.push(pa(':'));
    input.push(id("Default"));
    input.push(ob());
    input.extend(vec![
        id("fn"),
        id("peek"),
        op(),
        pa('&'),
        id("self"),
        cp(),
        pj('-'),
        pa('>'),
        id("T"),
        ob(),
        id("self"),
        pa('.'),
        id("t"),
        cb(),
    ]);
    input.push(cb());
    let b = parse_impl_block(&input).unwrap();
    assert_eq!(b.generics.decl, decl);
    assert_eq!(b.generics.use_args, vec![id("T"), pa(','), id("N")]);
    assert_eq!(
        b.generics.where_toks,
        vec![id("where"), id("T"), pa(':'), id("Default")]
    );
    let out = functionate(&input).unwrap();
    // block header, helper impl and the three ladder levels all carry the
    // declaration-site generics verbatim: five occurrences
    let mut decl_wrapped = vec![pa('<')];
    decl_wrapped.extend(decl.iter().cloned());
    decl_wrapped.push(pa('>'));
    assert_eq!(count_runs(&out, &decl_wrapped), 5);
    // and the use-site arguments likewise
    let use_wrapped = vec![pa('<'), id("T"), pa(','), id("N"), pa('>')];
    assert_eq!(count_runs(&out, &use_wrapped), 5);
    // and the where-clause
    let wc = vec![id("where"), id("T"), pa(':'), id("Default")];
    assert_eq!(count_runs(&out, &wc), 5);
}


#[test]
fn method_attrs_and_vis_kept_on_stub() {
    // `impl A { # [ inline ] pub fn go ( self ) { } }`
    let input = vec![
        id("impl"),
        id("A"),
        ob(),
        pa('#'),
        obk(),
        id("inline"),
        cbk(),
        id("pub"),
        id("fn"),
        id("go"),
        op(),
        id("self"),
        cp(),
        ob(),
        cb(),
        cb(),
    ];
    let b = parse_impl_block(&input).unwrap();
    match &b.members[0] {
        Member::Method(m) => {
            assert_eq!(m.attrs, vec![pa('#'), obk(), id("inline"), cbk()]);
            assert_eq!(m.vis, vec![id("pub")]);
        },
        _ => panic!("expected a method"),
    }
    let out = functionate(&input).unwrap();
    let stub_head = vec![
        pa('#'),
        obk(),
        id("inline"),
        cbk(),
        id("pub"),
        id("fn"),
        id("go"),
    ];
    assert_eq!(count_runs(&out, &stub_head), 1);
}

#[test]
fn destructuring_pattern_forwarded_verbatim() {
    // `impl D2 { fn pair ( & self , ( a , b ) : ( u32 , u32 ) ) -> u32 { a } }`
    let input = vec![
        id("impl"),
        id("D2"),
        ob(),
        id("fn"),
        id("pair"),
        op(),
        pa('&'),
        id("self"),
        pa(','),
        op(),
        id("a"),
        pa(','),
        id("b"),
        cp(),
        pa(':'),
        op(),
        id("u32"),
        pa(','),
        id("u32"),
        cp(),
        cp(),
        pj('-'),
        pa('>'),
        id("u32"),
        ob(),
        id("a"),
        cb(),
        cb(),
    ];
    let b = parse_impl_block(&input).unwrap();
    match &b.members[0] {
        Member::Method(m) => {
            assert_eq!(m.params.len(), 1);
            assert_eq!(m.params[0].pat, vec![op(), id("a"), pa(','), id("b"), cp()]);
            assert_eq!(
                m.params[0].ty,
                vec![op(), id("u32"), pa(','), id("u32"), cp()]
            );
        }
        _ => panic!("expected a method"),
    }
    let out = functionate(&input).unwrap();
    // the textual pattern is the synthesized call's bound pattern
    let binder = vec![
        op(),
        op(),
        id("a"),
        pa(','),
        id("b"),
        cp(),
        pa(','),
        cp(),
        pa(':'),
    ];
    assert!(contains_run(&out, &binder));
}

#[test]
fn arrow_inside_generics_kept_whole() {
    // `impl < F : Fn ( ) -> u32 > C2 { fn run ( & self ) -> u32 { 1 } }`
    let decl = vec![
        id("F"),
        pa(':'),
        id("Fn"),
        op(),
        cp(),
        pj('-'),
        pa('>'),
        id("u32"),
    ];
    let mut input = vec![id("impl"), pa('<')];
    input.extend(decl.iter().cloned());
    input.push(pa('>'));
    input.push(id("C2"));
    input.push(ob());
    input.extend(vec![
        id("fn"),
        id("run"),
        op(),
        pa('&'),
        id("self"),
        cp(),
        pj('-'),
        pa('>'),
        id("u32"),
        ob(),
        Tok::Lit("1".to_string()),
        cb(),
    ]);
    input.push(cb());
    let b = parse_impl_block(&input).unwrap();
    assert_eq!(b.generics.decl, decl);
    assert_eq!(b.generics.use_args, vec![id("F")]);
}

#[test]
fn block_attributes_re_emitted() {
    // `# [ doc = "d" ] impl A2 { }`
    let attrs = vec![
        pa('#'),
        obk(),
        id("doc"),
        pa('='),
        Tok::Lit("\"d\"".to_string()),
        cbk(),
    ];
    let mut input = attrs.clone();
    input.extend(vec![id("impl"), id("A2"), ob(), cb()]);
    let out = functionate(&input).unwrap();
    let mut expected = attrs.clone();
    expected.extend(vec![id("impl"), id("A2"), ob(), cb()]);
    assert_eq!(out, expected);
}

#[test]
fn joint_colon_still_separates() {
    // `impl J { fn set ( & mut self , x :& u8 ) { } }` — the colon is
    // joined to the following `&`, yet still separates pattern and type
    let input = vec![
        id("impl"),
        id("J"),
        ob(),
        id("fn"),
        id("set"),
        op(),
        pa('&'),
        id("mut"),
        id("self"),
        pa(','),
        id("x"),
        pj(':'),
        pa('&'),
        id("u8"),
        cp(),
        ob(),
        cb(),
        cb(),
    ];
    let b = parse_impl_block(&input).unwrap();
    match &b.members[0] {
        Member::Method(m) => {
            assert_eq!(m.params[0].pat, vec![id("x")]);
            assert_eq!(m.params[0].ty, vec![pa('&'), id("u8")]);
        }
        _ => panic!("expected a method"),
    }
}

#[test]
fn qualified_types_keep_their_paths() {
    // `impl Q { fn put ( & self , v : std :: vec :: Vec < u8 > ) { } }`
    let input = vec![
        id("impl"),
        id("Q"),
        ob(),
        id("fn"),
        id("put"),
        op(),
        pa('&'),
        id("self"),
        pa(','),
        id("v"),
        pa(':'),
        id("std"),
        pj(':'),
        pa(':'),
        id("vec"),
        pj(':'),
        pa(':'),
        id("Vec"),
        pa('<'),
        id("u8"),
        pa('>'),
        cp(),
        ob(),
        cb(),
        cb(),
    ];
    let b = parse_impl_block(&input).unwrap();
    match &b.members[0] {
        Member::Method(m) => {
            assert_eq!(m.params[0].pat, vec![id("v")]);
            assert_eq!(
                m.params[0].ty,
                vec![
                    id("std"),
                    pj(':'),
                    pa(':'),
                    id("vec"),
                    pj(':'),
                    pa(':'),
                    id("Vec"),
                    pa('<'),
                    id("u8"),
                    pa('>'),
                ]
            );
        }
        _ => panic!("expected a method"),
    }
}

#[test]
fn method_generics_skipped_like_signature_rebuild() {
    // `impl G { fn f < T > ( self , x : T ) { } }` — the method's own
    // generic list is not re-stated on the synthesized signatures
    let input = vec![
        id("impl"),
        id("G"),
        ob(),
        id("fn"),
        id("f"),
        pa('<'),
        id("T"),
        pa('>'),
        op(),
        id("self"),
        pa(','),
        id("x"),
        pa(':'),
        id("T"),
        cp(),
        ob(),
        cb(),
        cb(),
    ];
    let b = parse_impl_block(&input).unwrap();
    match &b.members[0] {
        Member::Method(m) => {
            assert_eq!(m.name, "f".to_string());
            assert_eq!(m.receiver, Receiver::Owned);
            assert_eq!(m.params.len(), 1);
            assert_eq!(m.params[0].ty, vec![id("T")]);
        }
        _ => panic!("expected a method"),
    }
}

#[test]
fn where_clause_without_generics() {
    // `impl Empty where u32 : Copy { }`
    let input = vec![
        id("impl"),
        id("Empty"),
        id("where"),
        id("u32"),
        pa(':'),
        id("Copy"),
        ob(),
        cb(),
    ];
    let b = parse_impl_block(&input).unwrap();
    assert_eq!(b.generics.decl, Vec::<Tok>::new());
    assert_eq!(
        b.generics.where_toks,
        vec![id("where"), id("u32"), pa(':'), id("Copy")]
    );
    let out = functionate(&input).unwrap();
    assert_eq!(out, input);
}
