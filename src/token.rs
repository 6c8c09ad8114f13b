//! The JSON writer's call stream, its mathematical view, and the
//! `Serialize` capability that every encodable type implements.
use vstd::prelude::*;

verus! {

/// A JSON number, carried as the bit pattern of an IEEE-754 double.
///
/// The encoder never computes with numbers: it only places them in the
/// output, so it keeps them as their exact bits.
#[derive(Clone, Copy, Debug, PartialEq, Eq)]
pub struct Number {
    pub bits: u64,
}

impl Number {
    pub fn from_bits(bits: u64) -> (r: Number)
        ensures
            r.bits == bits,
    {
        Number { bits }
    }

    pub fn to_bits(&self) -> (r: u64)
        ensures
            r == self.bits,
    {
        self.bits
    }
}

/// One call on a streaming JSON writer.
#[derive(Clone, Debug, PartialEq)]
pub enum Token {
    BeginArray,
    EndArray,
    BeginObject,
    EndObject,
    Key(String),
    Str(String),
    Number(Number),
    Integer(u64),
    Bool(bool),
}

/// The mathematical view of a `Token`.
pub enum Tok {
    BeginArray,
    EndArray,
    BeginObject,
    EndObject,
    Key(Seq<char>),
    Str(Seq<char>),
    Number(u64),
    Integer(u64),
    Bool(bool),
}

impl View for Token {
    type V = Tok;

    open spec fn view(&self) -> Tok {
        match self {
            Token::BeginArray => Tok::BeginArray,
            Token::EndArray => Tok::EndArray,
            Token::BeginObject => Tok::BeginObject,
            Token::EndObject => Tok::EndObject,
            Token::Key(k) => Tok::Key(k@),
            Token::Str(s) => Tok::Str(s@),
            Token::Number(n) => Tok::Number(n.bits),
            Token::Integer(i) => Tok::Integer(*i),
            Token::Bool(b) => Tok::Bool(*b),
        }
    }
}

/// The view of a token stream.
pub open spec fn toks(s: Seq<Token>) -> Seq<Tok> {
    s.map_values(|t: Token| t@)
}

/// Appends one token to the stream.
pub fn emit(out: &mut Vec<Token>, t: Token)
    ensures
        toks(final(out)@) == toks(old(out)@).push(t@),
{
    out.push(t);
    assert(toks(out@) =~= toks(old(out)@).push(t@));
}

/// A value that knows the exact writer calls it is encoded as.
pub trait Serialize {
    /// The calls this value is encoded as.
    spec fn tokens(&self) -> Seq<Tok>;

    /// Appends the encoding of this value to `out`.
    fn serialize(&self, out: &mut Vec<Token>)
        ensures
            toks(final(out)@) == toks(old(out)@) + self.tokens(),
    ;
}

impl Serialize for String {
    open spec fn tokens(&self) -> Seq<Tok> {
        seq![Tok::Str(self@)]
    }

    fn serialize(&self, out: &mut Vec<Token>) {
        emit(out, Token::Str(self.clone()));
    }
}

impl Serialize for bool {
    open spec fn tokens(&self) -> Seq<Tok> {
        seq![Tok::Bool(*self)]
    }

    fn serialize(&self, out: &mut Vec<Token>) {
        emit(out, Token::Bool(*self));
    }
}

impl Serialize for u8 {
    open spec fn tokens(&self) -> Seq<Tok> {
        seq![Tok::Integer(*self as u64)]
    }

    fn serialize(&self, out: &mut Vec<Token>) {
        emit(out, Token::Integer(*self as u64));
    }
}

impl Serialize for Number {
    open spec fn tokens(&self) -> Seq<Tok> {
        seq![Tok::Number(self.bits)]
    }

    fn serialize(&self, out: &mut Vec<Token>) {
        emit(out, Token::Number(*self));
    }
}

/// The encodings of the items of `s`, one after the other.
pub open spec fn concat<T: Serialize>(s: Seq<T>) -> Seq<Tok>
    decreases s.len(),
{
    if s.len() == 0 {
        seq![]
    } else {
        concat(s.drop_last()) + s.last().tokens()
    }
}

/// Encodes each item of `items` in order, with nothing around them.
pub fn serialize_all<T: Serialize>(items: &Vec<T>, out: &mut Vec<Token>)
    ensures
        toks(final(out)@) == toks(old(out)@) + concat(items@),
{
    let n = items.len();
    for i in 0..n
        invariant
            n == items@.len(),
            toks(out@) == toks(old(out)@) + concat(items@.subrange(0, i as int)),
    {
        items[i].serialize(out);
        assert(items@.subrange(0, i + 1).drop_last() =~= items@.subrange(0, i as int));
    }
    assert(items@.subrange(0, n as int) =~= items@);
}

/// A list encodes as a JSON array of its items, in order.
impl<T: Serialize> Serialize for Vec<T> {
    open spec fn tokens(&self) -> Seq<Tok> {
        seq![Tok::BeginArray] + concat(self@) + seq![Tok::EndArray]
    }

    fn serialize(&self, out: &mut Vec<Token>) {
        emit(out, Token::BeginArray);
        serialize_all(self, out);
        emit(out, Token::EndArray);
    }
}

/// The calls for an object member named `k` holding `v`: none when `v` is
/// absent.
pub open spec fn field<T: Serialize>(k: Seq<char>, v: Option<T>) -> Seq<Tok> {
    match v {
        Some(x) => seq![Tok::Key(k)] + x.tokens(),
        None => seq![],
    }
}

/// Writes the member `k` when `v` is present, and nothing otherwise.
pub fn serialize_field<T: Serialize>(out: &mut Vec<Token>, k: &'static str, v: &Option<T>)
    ensures
        toks(final(out)@) == toks(old(out)@) + field(k@, *v),
{
    match v {
        Some(x) => {
            emit(out, Token::Key(k.to_string()));
            x.serialize(out);
        },
        None => {
            assert(toks(out@) =~= toks(old(out)@) + field(k@, *v));
        },
    }
}

} // verus!
