//! Packets, the entity updates a document is made of, and the document
//! itself.
use vstd::prelude::*;
use crate::clock::Clock;
use crate::graphics::{Billboard, Orientation, Polyline, Position, ViewFrom};
use crate::time::TimeInterval;
use crate::token::{concat, emit, field, serialize_field, toks, Serialize, Tok, Token};

verus! {

/// A string given either as a literal value or as a reference to a property
/// of another packet; never both.
#[derive(Clone, Debug, PartialEq)]
pub enum CzmlString {
    StringValue { string: String },
    ReferenceValue { reference: String },
}

/// Written as an object with one member: `string` for a literal, `reference`
/// for a reference.
impl Serialize for CzmlString {
    open spec fn tokens(&self) -> Seq<Tok> {
        match self {
            CzmlString::StringValue { string } => seq![
                Tok::BeginObject,
                Tok::Key("string"@),
                Tok::Str(string@),
                Tok::EndObject,
            ],
            CzmlString::ReferenceValue { reference } => seq![
                Tok::BeginObject,
                Tok::Key("reference"@),
                Tok::Str(reference@),
                Tok::EndObject,
            ],
        }
    }

    fn serialize(&self, out: &mut Vec<Token>) {
        emit(out, Token::BeginObject);
        match self {
            CzmlString::StringValue { string } => {
                emit(out, Token::Key("string".to_string()));
                emit(out, Token::Str(string.clone()));
            },
            CzmlString::ReferenceValue { reference } => {
                emit(out, Token::Key("reference".to_string()));
                emit(out, Token::Str(reference.clone()));
            },
        }
        emit(out, Token::EndObject);
        assert(toks(out@) =~= toks(old(out)@) + self.tokens());
    }
}

/// The members for free-form properties, one per entry, in list order.
pub open spec fn property_members(s: Seq<(String, String)>) -> Seq<Tok>
    decreases s.len(),
{
    if s.len() == 0 {
        seq![]
    } else {
        property_members(s.drop_last()) + seq![Tok::Key(s.last().0@), Tok::Str(s.last().1@)]
    }
}

/// The member for the free-form properties, when they are present.
pub open spec fn properties_field(v: Option<Vec<(String, String)>>) -> Seq<Tok> {
    match v {
        Some(s) => seq![Tok::Key("properties"@), Tok::BeginObject] + property_members(s@) + seq![
            Tok::EndObject,
        ],
        None => seq![],
    }
}

fn serialize_properties(out: &mut Vec<Token>, v: &Option<Vec<(String, String)>>)
    ensures
        toks(final(out)@) == toks(old(out)@) + properties_field(*v),
{
    match v {
        Some(entries) => {
            emit(out, Token::Key("properties".to_string()));
            emit(out, Token::BeginObject);
            let ghost mid = toks(out@);
            let n = entries.len();
            for i in 0..n
                invariant
                    n == entries@.len(),
                    toks(out@) == mid + property_members(entries@.subrange(0, i as int)),
            {
                let (k, x) = &entries[i];
                emit(out, Token::Key(k.clone()));
                emit(out, Token::Str(x.clone()));
                assert(entries@.subrange(0, i + 1).drop_last() =~= entries@.subrange(0, i as int));
                assert(toks(out@) =~= mid + property_members(entries@.subrange(0, i + 1)));
            }
            assert(entries@.subrange(0, n as int) =~= entries@);
            emit(out, Token::EndObject);
            assert(toks(out@) =~= toks(old(out)@) + properties_field(*v));
        },
        None => {
            assert(toks(out@) =~= toks(old(out)@) + properties_field(*v));
        },
    }
}

/// An update of one entity. Every field is optional, and an absent field
/// is left out of the output.
#[derive(Clone, Debug, PartialEq, Default)]
pub struct Packet {
    pub id: Option<String>,
    pub delete: Option<bool>,
    pub name: Option<String>,
    pub parent: Option<String>,
    pub description: Option<CzmlString>,
    pub clock: Option<Clock>,
    pub version: Option<String>,
    pub availability: Option<Vec<TimeInterval>>,
    /// Free-form properties, written in list order. Keys are expected to be
    /// distinct.
    pub properties: Option<Vec<(String, String)>>,
    pub position: Option<Position>,
    pub orientation: Option<Orientation>,
    pub view_from: Option<ViewFrom>,
    pub billboard: Option<Billboard>,
    pub polyline: Option<Polyline>,
}

impl Packet {
    /// The members written for the fields that are present, in field order.
    pub open spec fn members(&self) -> Seq<Tok> {
        self.entity_members() + self.graphics_members()
    }

    /// The members for the identity, description, clock and custom fields.
    #[verifier::opaque]
    pub open spec fn entity_members(&self) -> Seq<Tok> {
        field("id"@, self.id) + field("delete"@, self.delete) + field("name"@, self.name) + field(
            "parent"@,
            self.parent,
        ) + field("description"@, self.description) + field("clock"@, self.clock) + field(
            "version"@,
            self.version,
        ) + field("availability"@, self.availability) + properties_field(self.properties)
    }

    /// The members for the spatial and graphical properties.
    #[verifier::opaque]
    pub open spec fn graphics_members(&self) -> Seq<Tok> {
        field("position"@, self.position) + field("orientation"@, self.orientation) + field(
            "viewFrom"@,
            self.view_from,
        ) + field("billboard"@, self.billboard) + field("polyline"@, self.polyline)
    }

    fn serialize_entity_members(&self, out: &mut Vec<Token>)
        ensures
            toks(final(out)@) == toks(old(out)@) + self.entity_members(),
    {
        let ghost start = toks(out@);
        serialize_field(out, "id", &self.id);
        serialize_field(out, "delete", &self.delete);
        serialize_field(out, "name", &self.name);
        serialize_field(out, "parent", &self.parent);
        serialize_field(out, "description", &self.description);
        serialize_field(out, "clock", &self.clock);
        serialize_field(out, "version", &self.version);
        serialize_field(out, "availability", &self.availability);
        serialize_properties(out, &self.properties);
        proof {
            reveal(Packet::entity_members);
        }
        assert(toks(out@) =~= start + self.entity_members());
    }

    fn serialize_graphics_members(&self, out: &mut Vec<Token>)
        ensures
            toks(final(out)@) == toks(old(out)@) + self.graphics_members(),
    {
        let ghost start = toks(out@);
        serialize_field(out, "position", &self.position);
        serialize_field(out, "orientation", &self.orientation);
        serialize_field(out, "viewFrom", &self.view_from);
        serialize_field(out, "billboard", &self.billboard);
        serialize_field(out, "polyline", &self.polyline);
        proof {
            reveal(Packet::graphics_members);
        }
        assert(toks(out@) =~= start + self.graphics_members());
    }
}

/// A packet is written as one object.
impl Serialize for Packet {
    open spec fn tokens(&self) -> Seq<Tok> {
        seq![Tok::BeginObject] + self.members() + seq![Tok::EndObject]
    }

    fn serialize(&self, out: &mut Vec<Token>) {
        emit(out, Token::BeginObject);
        self.serialize_entity_members(out);
        self.serialize_graphics_members(out);
        emit(out, Token::EndObject);
        assert(toks(out@) =~= toks(old(out)@) + self.tokens());
    }
}

/// A document: packets in the order they were added.
#[derive(Clone, Debug, PartialEq)]
pub struct Czml {
    pub packets: Vec<Packet>,
}

impl Czml {
    /// An empty document.
    pub fn new() -> (r: Czml)
        ensures
            r.packets@ == Seq::<Packet>::empty(),
    {
        Czml { packets: Vec::new() }
    }

    /// Adds `packet` after the packets already in the document.
    pub fn push(&mut self, packet: Packet)
        ensures
            final(self).packets@ == old(self).packets@.push(packet),
    {
        self.packets.push(packet);
    }

    /// The writer calls for the whole document.
    pub fn to_tokens(&self) -> (r: Vec<Token>)
        ensures
            toks(r@) == self.tokens(),
    {
        let mut out: Vec<Token> = Vec::new();
        self.serialize(&mut out);
        assert(toks(out@) =~= toks(Seq::<Token>::empty()) + self.tokens());
        out
    }
}

/// A document is written as an array of its packets, in order, with nothing
/// merged or left out.
impl Serialize for Czml {
    open spec fn tokens(&self) -> Seq<Tok> {
        self.packets.tokens()
    }

    fn serialize(&self, out: &mut Vec<Token>) {
        self.packets.serialize(out);
    }
}

/// A packet with nothing but an identifier is written as an object with the
/// single member `id`.
pub proof fn lemma_id_only(p: Packet, id: String)
    requires
        p.id == Some(id),
        p.delete is None,
        p.name is None,
        p.parent is None,
        p.description is None,
        p.clock is None,
        p.version is None,
        p.availability is None,
        p.properties is None,
        p.position is None,
        p.orientation is None,
        p.view_from is None,
        p.billboard is None,
        p.polyline is None,
    ensures
        p.tokens() == seq![Tok::BeginObject, Tok::Key("id"@), Tok::Str(id@), Tok::EndObject],
{
    reveal(Packet::entity_members);
    reveal(Packet::graphics_members);
    assert(p.members() =~= seq![Tok::Key("id"@), Tok::Str(id@)]);
    assert(p.tokens() =~= seq![Tok::BeginObject, Tok::Key("id"@), Tok::Str(id@), Tok::EndObject]);
}

/// A literal string is never written with a `reference` member, and a
/// reference never with a `string` member.
pub proof fn lemma_description_exclusive(d: CzmlString)
    ensures
        d is StringValue ==> !d.tokens().contains(Tok::Key("reference"@)),
        d is ReferenceValue ==> !d.tokens().contains(Tok::Key("string"@)),
        d.tokens().len() == 4,
{
    reveal_strlit("string");
    reveal_strlit("reference");
    assert("string"@.len() != "reference"@.len());
    let t = d.tokens();
    assert forall|i: int| 0 <= i < t.len() implies t[i] != Tok::Key("reference"@) || !(
    d is StringValue) by {
        if d is StringValue {
            if i == 1 {
                assert(t[1] == Tok::Key("string"@));
            }
        }
    }
    assert forall|i: int| 0 <= i < t.len() implies t[i] != Tok::Key("string"@) || !(
    d is ReferenceValue) by {
        if d is ReferenceValue {
            if i == 1 {
                assert(t[1] == Tok::Key("reference"@));
            }
        }
    }
}

/// Adding a packet to a document writes it after every packet already
/// there, leaving those as they were.
pub proof fn lemma_push_appends(before: Czml, p: Packet, after: Czml)
    requires
        after.packets@ == before.packets@.push(p),
    ensures
        after.tokens() == seq![Tok::BeginArray] + concat(before.packets@) + p.tokens() + seq![
            Tok::EndArray,
        ],
{
    assert(after.packets@.drop_last() =~= before.packets@);
}

/// Three packets added in turn are written in that order, even when two of
/// them share an identifier.
pub proof fn lemma_document_order(d: Czml, a: Packet, b: Packet, c: Packet)
    requires
        d.packets@ == seq![a, b, c],
    ensures
        d.tokens() == seq![Tok::BeginArray] + a.tokens() + b.tokens() + c.tokens() + seq![
            Tok::EndArray,
        ],
{
    let s = seq![a, b, c];
    assert(s.drop_last() =~= seq![a, b]);
    assert(seq![a, b].drop_last() =~= seq![a]);
    assert(seq![a].drop_last() =~= Seq::<Packet>::empty());
    assert(concat(Seq::<Packet>::empty()) == Seq::<Tok>::empty());
    assert(concat(seq![a]) =~= a.tokens());
    assert(concat(seq![a, b]) =~= a.tokens() + b.tokens());
    assert(concat(s) =~= a.tokens() + b.tokens() + c.tokens());
    assert(d.tokens() =~= seq![Tok::BeginArray] + a.tokens() + b.tokens() + c.tokens() + seq![
        Tok::EndArray,
    ]);
}

} // verus!
