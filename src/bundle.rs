//! The interpolation settings that several properties share, written as
//! members of the property that holds them.
use vstd::prelude::*;
use crate::token::{emit, field, serialize_field, toks, Number, Serialize, Tok, Token};

verus! {

/// The bits of the double 1.0.
pub const ONE_BITS: u64 = 0x3ff0_0000_0000_0000;

/// How a sampled property is interpolated and extrapolated. Every
/// setting is optional and is left out of the output when absent.
#[derive(Clone, Debug, PartialEq)]
pub struct InterpolatableProperty {
    pub epoch: Option<String>,
    pub interpolation_algorithm: Option<String>,
    pub interpolation_degree: Option<Number>,
    pub forward_extrapolation_type: Option<String>,
    pub forward_extrapolation_duration: Option<Number>,
    pub backward_extrapolation_type: Option<String>,
    pub backward_extrapolation_duration: Option<Number>,
}

impl Serialize for InterpolatableProperty {
    open spec fn tokens(&self) -> Seq<Tok> {
        seq![Tok::BeginObject] + self.members() + seq![Tok::EndObject]
    }

    fn serialize(&self, out: &mut Vec<Token>) {
        emit(out, Token::BeginObject);
        self.serialize_members(out);
        emit(out, Token::EndObject);
        assert(toks(out@) =~= toks(old(out)@) + self.tokens());
    }
}

impl InterpolatableProperty {
    /// The members written for the fields that are present, in field order.
    pub open spec fn members(&self) -> Seq<Tok> {
        field("epoch"@, self.epoch)
            + field("interpolationAlgorithm"@, self.interpolation_algorithm)
            + field("interpolationDegree"@, self.interpolation_degree)
            + field("forwardExtrapolationType"@, self.forward_extrapolation_type)
            + field("forwardExtrapolationDuration"@, self.forward_extrapolation_duration)
            + field("backwardExtrapolationType"@, self.backward_extrapolation_type)
            + field("backwardExtrapolationDuration"@, self.backward_extrapolation_duration)
    }

    pub fn serialize_members(&self, out: &mut Vec<Token>)
        ensures
            toks(final(out)@) == toks(old(out)@) + self.members(),
    {
        let ghost start = toks(out@);
        serialize_field(out, "epoch", &self.epoch);
        serialize_field(out, "interpolationAlgorithm", &self.interpolation_algorithm);
        serialize_field(out, "interpolationDegree", &self.interpolation_degree);
        serialize_field(out, "forwardExtrapolationType", &self.forward_extrapolation_type);
        serialize_field(out, "forwardExtrapolationDuration", &self.forward_extrapolation_duration);
        serialize_field(out, "backwardExtrapolationType", &self.backward_extrapolation_type);
        serialize_field(out, "backwardExtrapolationDuration", &self.backward_extrapolation_duration);
        assert(toks(out@) =~= start + self.members());
    }
}

/// The members an optional bundle adds to the object that holds it: its
/// present settings, or nothing when it is absent.
pub open spec fn bundle(b: Option<InterpolatableProperty>) -> Seq<Tok> {
    match b {
        Some(p) => p.members(),
        None => seq![],
    }
}

/// Writes the present settings of `b` into the object being written.
pub fn serialize_bundle(out: &mut Vec<Token>, b: &Option<InterpolatableProperty>)
    ensures
        toks(final(out)@) == toks(old(out)@) + bundle(*b),
{
    match b {
        Some(p) => p.serialize_members(out),
        None => {
            assert(toks(out@) =~= toks(old(out)@) + bundle(*b));
        },
    }
}

impl InterpolatableProperty {
    /// The default settings: linear interpolation of degree one, no
    /// extrapolation either way with a duration of one, and no epoch.
    pub open spec fn is_default(&self) -> bool {
        &&& self.epoch is None
        &&& self.interpolation_algorithm matches Some(s) && s@ == "LINEAR"@
        &&& self.interpolation_degree == Some(Number { bits: ONE_BITS })
        &&& self.forward_extrapolation_type matches Some(s) && s@ == "NONE"@
        &&& self.forward_extrapolation_duration == Some(Number { bits: ONE_BITS })
        &&& self.backward_extrapolation_type matches Some(s) && s@ == "NONE"@
        &&& self.backward_extrapolation_duration == Some(Number { bits: ONE_BITS })
    }
}

impl Default for InterpolatableProperty {
    fn default() -> (r: InterpolatableProperty)
        ensures
            r.is_default(),
    {
        InterpolatableProperty {
            epoch: None,
            interpolation_algorithm: Some("LINEAR".to_string()),
            interpolation_degree: Some(Number::from_bits(ONE_BITS)),
            forward_extrapolation_type: Some("NONE".to_string()),
            forward_extrapolation_duration: Some(Number::from_bits(ONE_BITS)),
            backward_extrapolation_type: Some("NONE".to_string()),
            backward_extrapolation_duration: Some(Number::from_bits(ONE_BITS)),
        }
    }
}

} // verus!
