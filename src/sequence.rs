//! Property values that are either constant or sampled over time, and the
//! value types they hold.
use vstd::prelude::*;
use crate::token::{emit, toks, Number, Serialize, Tok, Token};

verus! {

/// The number tokens for a list of components.
pub open spec fn numbers(c: Seq<Number>) -> Seq<Tok> {
    c.map_values(|n: Number| Tok::Number(n.bits))
}

/// A value type: a fixed number of components in a fixed order.
pub trait Sequenceable {
    /// How many components every value of this type has.
    spec fn arity() -> nat;

    /// The components, in their order.
    spec fn components(&self) -> Seq<Number>;

    proof fn lemma_arity(&self)
        ensures
            self.components().len() == Self::arity(),
    ;

    /// Appends the components to `out` as numbers.
    fn seq(&self, out: &mut Vec<Token>)
        ensures
            toks(final(out)@) == toks(old(out)@) + numbers(self.components()),
    ;
}

/// Appends `c` to `out` as numbers.
fn emit_numbers(out: &mut Vec<Token>, c: &Vec<Number>)
    ensures
        toks(final(out)@) == toks(old(out)@) + numbers(c@),
{
    let n = c.len();
    for i in 0..n
        invariant
            n == c@.len(),
            toks(out@) == toks(old(out)@) + numbers(c@.subrange(0, i as int)),
    {
        emit(out, Token::Number(c[i]));
        assert(numbers(c@.subrange(0, i + 1)) =~= numbers(c@.subrange(0, i as int)).push(
            Tok::Number(c@[i as int].bits),
        ));
        assert(toks(out@) =~= toks(old(out)@) + numbers(c@.subrange(0, i + 1)));
    }
    assert(c@.subrange(0, n as int) =~= c@);
}

/// A point or offset in Cartesian space.
#[derive(Clone, Copy, Debug, PartialEq, Eq)]
pub struct Cartesian3Value {
    pub x: Number,
    pub y: Number,
    pub z: Number,
}

impl Sequenceable for Cartesian3Value {
    open spec fn arity() -> nat {
        3
    }

    open spec fn components(&self) -> Seq<Number> {
        seq![self.x, self.y, self.z]
    }

    proof fn lemma_arity(&self) {
    }

    fn seq(&self, out: &mut Vec<Token>) {
        emit_numbers(out, &vec![self.x, self.y, self.z]);
    }
}

/// A position given as longitude and latitude in radians and height in
/// meters.
#[derive(Clone, Copy, Debug, PartialEq, Eq)]
pub struct CartographicValue {
    pub longitude: Number,
    pub latitude: Number,
    pub height: Number,
}

impl Sequenceable for CartographicValue {
    open spec fn arity() -> nat {
        3
    }

    open spec fn components(&self) -> Seq<Number> {
        seq![self.longitude, self.latitude, self.height]
    }

    proof fn lemma_arity(&self) {
    }

    fn seq(&self, out: &mut Vec<Token>) {
        emit_numbers(out, &vec![self.longitude, self.latitude, self.height]);
    }
}

/// A rotation as a unit quaternion.
#[derive(Clone, Copy, Debug, PartialEq, Eq)]
pub struct UnitQuaternionValue {
    pub x: Number,
    pub y: Number,
    pub z: Number,
    pub w: Number,
}

impl Sequenceable for UnitQuaternionValue {
    open spec fn arity() -> nat {
        4
    }

    open spec fn components(&self) -> Seq<Number> {
        seq![self.x, self.y, self.z, self.w]
    }

    proof fn lemma_arity(&self) {
    }

    fn seq(&self, out: &mut Vec<Token>) {
        emit_numbers(out, &vec![self.x, self.y, self.z, self.w]);
    }
}

/// A planar offset.
#[derive(Clone, Copy, Debug, PartialEq, Eq)]
pub struct Cartesian2Value {
    pub x: Number,
    pub y: Number,
}

impl Sequenceable for Cartesian2Value {
    open spec fn arity() -> nat {
        2
    }

    open spec fn components(&self) -> Seq<Number> {
        seq![self.x, self.y]
    }

    proof fn lemma_arity(&self) {
    }

    fn seq(&self, out: &mut Vec<Token>) {
        emit_numbers(out, &vec![self.x, self.y]);
    }
}

/// A value tagged with a time offset, in seconds from an epoch set
/// elsewhere.
#[derive(Clone, Copy, Debug, PartialEq, Eq)]
pub struct TimeTaggedValue<T> {
    pub time: Number,
    pub value: T,
}

/// A property value: one constant value, or samples in playback order.
#[derive(Clone, Debug, PartialEq)]
pub enum Sequence<T> {
    Single(T),
    Array(Vec<TimeTaggedValue<T>>),
}

/// The flat numbers for a list of samples: for each sample in order, its
/// time and then its components.
pub open spec fn flat_samples<T: Sequenceable>(s: Seq<TimeTaggedValue<T>>) -> Seq<Tok>
    decreases s.len(),
{
    if s.len() == 0 {
        seq![]
    } else {
        flat_samples(s.drop_last()) + seq![Tok::Number(s.last().time.bits)] + numbers(
            s.last().value.components(),
        )
    }
}

impl<T: Sequenceable> Sequence<T> {
    /// The numbers inside the array this value encodes as.
    pub open spec fn flat(&self) -> Seq<Tok> {
        match self {
            Sequence::Single(v) => numbers(v.components()),
            Sequence::Array(s) => flat_samples(s@),
        }
    }
}

/// A property value always encodes as one flat array of numbers.
impl<T: Sequenceable> Serialize for Sequence<T> {
    open spec fn tokens(&self) -> Seq<Tok> {
        seq![Tok::BeginArray] + self.flat() + seq![Tok::EndArray]
    }

    fn serialize(&self, out: &mut Vec<Token>) {
        emit(out, Token::BeginArray);
        match self {
            Sequence::Single(v) => {
                v.seq(out);
            },
            Sequence::Array(values) => {
                let n = values.len();
                let ghost mid = toks(out@);
                for i in 0..n
                    invariant
                        n == values@.len(),
                        toks(out@) == mid + flat_samples(values@.subrange(0, i as int)),
                {
                    let s = &values[i];
                    emit(out, Token::Number(s.time));
                    s.value.seq(out);
                    assert(values@.subrange(0, i + 1).drop_last() =~= values@.subrange(
                        0,
                        i as int,
                    ));
                    assert(toks(out@) =~= mid + flat_samples(values@.subrange(0, i + 1)));
                }
                assert(values@.subrange(0, n as int) =~= values@);
            },
        }
        emit(out, Token::EndArray);
    }
}

/// A constant encodes as exactly its value's components, in order, with no
/// time before them: as many numbers as the value type has components.
pub proof fn lemma_constant_shape<T: Sequenceable>(v: T)
    ensures
        Sequence::Single(v).tokens() == seq![Tok::BeginArray] + numbers(v.components()) + seq![
            Tok::EndArray,
        ],
        Sequence::Single(v).flat().len() == T::arity(),
        forall|j: int|
            0 <= j < T::arity() ==> #[trigger] Sequence::Single(v).flat()[j] == Tok::Number(
                v.components()[j].bits,
            ),
{
    v.lemma_arity();
}

/// Samples of a value type with `k` components flatten into `(1 + k) * n`
/// numbers: sample `i` starts at `(1 + k) * i` with its time, followed by
/// its components.
pub proof fn lemma_sample_flattening<T: Sequenceable>(s: Seq<TimeTaggedValue<T>>)
    ensures
        flat_samples(s).len() == (1 + T::arity()) * s.len(),
        forall|i: int|
            0 <= i < s.len() ==> #[trigger] flat_samples(s)[(1 + T::arity()) * i] == Tok::Number(
                s[i].time.bits,
            ),
        forall|i: int, j: int|
            0 <= i < s.len() && 0 <= j < T::arity() ==> #[trigger] flat_samples(s)[(1
                + T::arity()) * i + 1 + j] == Tok::Number(#[trigger] s[i].value.components()[j].bits),
    decreases s.len(),
{
    if s.len() > 0 {
        let p = s.drop_last();
        let k = T::arity() as int;
        let n = s.len() as int;
        s.last().value.lemma_arity();
        lemma_sample_flattening(p);
        let f = flat_samples(s);
        let fp = flat_samples(p);
        assert((1 + k) * (n - 1) + (1 + k) == (1 + k) * n) by (nonlinear_arith);
        assert forall|i: int| 0 <= i < s.len() implies #[trigger] f[(1 + k) * i] == Tok::Number(
            s[i].time.bits,
        ) by {
            if i < n - 1 {
                assert((1 + k) * i + (1 + k) <= (1 + k) * (n - 1)) by (nonlinear_arith)
                    requires
                        0 <= i < n - 1,
                        k >= 0,
                ;
                assert(p[i] == s[i]);
            }
        }
        assert forall|i: int, j: int| 0 <= i < s.len() && 0 <= j < T::arity() implies #[trigger] f[(1
            + k) * i + 1 + j] == Tok::Number(#[trigger] s[i].value.components()[j].bits) by {
            if i < n - 1 {
                assert((1 + k) * i + (1 + k) <= (1 + k) * (n - 1)) by (nonlinear_arith)
                    requires
                        0 <= i < n - 1,
                        k >= 0,
                ;
                assert(p[i] == s[i]);
                assert(f[(1 + k) * i + 1 + j] == fp[(1 + k) * i + 1 + j]);
            } else {
                assert(f[(1 + k) * i + 1 + j] == numbers(s.last().value.components())[j]);
            }
        }
    }
}

/// Two samples of a three-component value flatten into eight numbers: the
/// first time and its components, then the second time and its components.
pub proof fn lemma_two_samples(a: TimeTaggedValue<Cartesian3Value>, b: TimeTaggedValue<Cartesian3Value>)
    ensures
        flat_samples(seq![a, b]) == seq![
            Tok::Number(a.time.bits),
            Tok::Number(a.value.x.bits),
            Tok::Number(a.value.y.bits),
            Tok::Number(a.value.z.bits),
            Tok::Number(b.time.bits),
            Tok::Number(b.value.x.bits),
            Tok::Number(b.value.y.bits),
            Tok::Number(b.value.z.bits),
        ],
{
    let s = seq![a, b];
    assert(s.drop_last() =~= seq![a]);
    assert(seq![a].drop_last() =~= Seq::<TimeTaggedValue<Cartesian3Value>>::empty());
    assert(flat_samples(seq![a].drop_last()) == Seq::<Tok>::empty());
    assert(numbers(a.value.components()) =~= seq![
        Tok::Number(a.value.x.bits),
        Tok::Number(a.value.y.bits),
        Tok::Number(a.value.z.bits),
    ]);
    assert(numbers(b.value.components()) =~= seq![
        Tok::Number(b.value.x.bits),
        Tok::Number(b.value.y.bits),
        Tok::Number(b.value.z.bits),
    ]);
    assert(flat_samples(seq![a]) =~= seq![Tok::Number(a.time.bits)] + numbers(
        a.value.components(),
    ));
    assert(flat_samples(s) =~= seq![
        Tok::Number(a.time.bits),
        Tok::Number(a.value.x.bits),
        Tok::Number(a.value.y.bits),
        Tok::Number(a.value.z.bits),
        Tok::Number(b.time.bits),
        Tok::Number(b.value.x.bits),
        Tok::Number(b.value.y.bits),
        Tok::Number(b.value.z.bits),
    ]);
}

/// A sample list with no samples encodes as an empty array.
pub proof fn lemma_empty_samples<T: Sequenceable>(s: Sequence<T>)
    requires
        s matches Sequence::Array(v) && v@.len() == 0,
    ensures
        s.tokens() == seq![Tok::BeginArray, Tok::EndArray],
{
    assert(s.tokens() =~= seq![Tok::BeginArray, Tok::EndArray]);
}

} // verus!
