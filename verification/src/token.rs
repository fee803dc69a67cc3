use vstd::prelude::*;

verus! {

/// A bracketing delimiter of the host language.
#[derive(Clone, Copy, PartialEq, Eq, Structural, Debug)]
pub enum Delim {
    Paren,
    Bracket,
    Brace,
}

/// One token, in the flat form the library works on: a delimited group
/// appears as an `Open`/`Close` pair around its contents.
#[derive(Clone, PartialEq, Eq, Debug)]
pub enum Tok {
    /// An identifier or keyword.
    Ident(String),
    /// One punctuation character; the flag says whether the following
    /// token joins it into a multi-character operator.
    Punct(char, bool),
    /// A literal, carried verbatim as its source text.
    Lit(String),
    Open(Delim),
    Close(Delim),
    /// The calling-convention qualifier that call-operator methods must
    /// carry; the embedder renders it as the host keyword followed by the
    /// `"rust-call"` ABI string.
    Abi,
}

/// The mathematical value of one token: identifier and literal text as
/// character sequences.
pub enum TokV {
    Ident(Seq<char>),
    Punct(char, bool),
    Lit(Seq<char>),
    Open(Delim),
    Close(Delim),
    Abi,
}

impl View for Tok {
    type V = TokV;

    open spec fn view(&self) -> TokV {
        match self {
            Tok::Ident(s) => TokV::Ident(s@),
            Tok::Punct(c, j) => TokV::Punct(*c, *j),
            Tok::Lit(s) => TokV::Lit(s@),
            Tok::Open(d) => TokV::Open(*d),
            Tok::Close(d) => TokV::Close(*d),
            Tok::Abi => TokV::Abi,
        }
    }
}

/// The value, token by token, of a token sequence.
pub open spec fn tv(ts: Seq<Tok>) -> Seq<TokV> {
    Seq::new(ts.len(), |i: int| ts[i]@)
}

pub broadcast proof fn tv_push(ts: Seq<Tok>, t: Tok)
    ensures
        #[trigger] tv(ts.push(t)) == tv(ts).push(t@),
{
    assert(tv(ts.push(t)) =~= tv(ts).push(t@));
}

pub broadcast proof fn tv_concat(a: Seq<Tok>, b: Seq<Tok>)
    ensures
        #[trigger] tv(a + b) == tv(a) + tv(b),
{
    assert(tv(a + b) =~= tv(a) + tv(b));
}

pub broadcast proof fn tv_subrange(ts: Seq<Tok>, i: int, j: int)
    requires
        0 <= i <= j <= ts.len(),
    ensures
        #[trigger] tv(ts.subrange(i, j)) == tv(ts).subrange(i, j),
{
    assert(tv(ts.subrange(i, j)) =~= tv(ts).subrange(i, j));
}

pub broadcast group tv_laws {
    tv_push,
    tv_concat,
    tv_subrange,
}

/// Does the token read as the identifier `w`?
pub open spec fn is_id(t: Tok, w: Seq<char>) -> bool {
    t@ == TokV::Ident(w)
}

/// Does the token read as the punctuation character `c` (either spacing)?
pub open spec fn is_punct(t: Tok, c: char) -> bool {
    t@ matches TokV::Punct(d, _) && d == c
}

/// Does the token read as `c` joined to the token after it?
pub open spec fn is_joint(t: Tok, c: char) -> bool {
    t@ == TokV::Punct(c, true)
}

impl Tok {
    /// An exact copy of the token.
    pub fn dup(&self) -> (t: Tok)
        ensures
            t == *self,
    {
        match self {
            Tok::Ident(s) => Tok::Ident(s.clone()),
            Tok::Punct(c, j) => Tok::Punct(*c, *j),
            Tok::Lit(s) => Tok::Lit(s.clone()),
            Tok::Open(d) => Tok::Open(*d),
            Tok::Close(d) => Tok::Close(*d),
            Tok::Abi => Tok::Abi,
        }
    }

    /// Does the token read as the identifier `w`?
    pub fn reads_ident(&self, w: &str) -> (b: bool)
        ensures
            b == is_id(*self, w@),
    {
        match self {
            Tok::Ident(s) => *s == w.to_owned(),
            _ => false,
        }
    }

    /// Does the token read as the punctuation character `c`?
    pub fn reads_punct(&self, c: char) -> (b: bool)
        ensures
            b == is_punct(*self, c),
    {
        match self {
            Tok::Punct(d, _) => *d == c,
            _ => false,
        }
    }

    /// Does the token read as `c` joined to its successor?
    pub fn reads_joint(&self, c: char) -> (b: bool)
        ensures
            b == is_joint(*self, c),
    {
        match self {
            Tok::Punct(d, j) => *d == c && *j,
            _ => false,
        }
    }

    /// Is the token `Open(d)`?
    pub fn reads_open(&self, d: Delim) -> (b: bool)
        ensures
            b == (self@ == TokV::Open(d)),
    {
        match self {
            Tok::Open(e) => *e == d,
            _ => false,
        }
    }
}

/// Is the token any identifier?
pub fn is_ident_tok(t: &Tok) -> (b: bool)
    ensures
        b == (t@ matches TokV::Ident(_)),
{
    match t {
        Tok::Ident(_) => true,
        _ => false,
    }
}

/// Appends an exact copy of the fragment `f` to `out`.
pub fn append_frag(out: &mut Vec<Tok>, f: &Vec<Tok>)
    ensures
        final(out)@ == old(out)@ + f@,
{
    let mut i: usize = 0;
    while i < f.len()
        invariant
            i <= f.len(),
            out@ == old(out)@ + f@.subrange(0, i as int),
        decreases f.len() - i,
    {
        out.push(f[i].dup());
        assert(out@ =~= old(out)@ + f@.subrange(0, i + 1 as int));
        i += 1;
    }
    assert(out@ =~= old(out)@ + f@);
}

/// Copies the subrange `[i, j)` of `ts` into a fresh vector.
pub fn copy_range(ts: &Vec<Tok>, i: usize, j: usize) -> (r: Vec<Tok>)
    requires
        i <= j <= ts@.len(),
    ensures
        r@ == ts@.subrange(i as int, j as int),
{
    let mut r: Vec<Tok> = Vec::new();
    let mut k: usize = i;
    while k < j
        invariant
            i <= k <= j <= ts@.len(),
            r@ == ts@.subrange(i as int, k as int),
        decreases j - k,
    {
        r.push(ts[k].dup());
        assert(r@ =~= ts@.subrange(i as int, k + 1 as int));
        k += 1;
    }
    r
}

} // verus!
