//! The describable aspects of an entity: where it is, how it is turned,
//! and how it is drawn.
use vstd::prelude::*;
use crate::bundle::{bundle, serialize_bundle, InterpolatableProperty};
use crate::sequence::{
    Cartesian2Value, Cartesian3Value, CartographicValue, Sequence, UnitQuaternionValue,
};
use crate::time::TimeInterval;
use crate::token::{emit, field, serialize_field, toks, Number, Serialize, Tok, Token};

verus! {

/// Where an entity is, in Cartesian or cartographic coordinates.
#[derive(Clone, Debug, PartialEq)]
pub struct Position {
    /// Interpolation settings, written beside the other members.
    pub interpolatable_property: Option<InterpolatableProperty>,
    pub reference_frame: Option<String>,
    pub cartesian: Option<Sequence<Cartesian3Value>>,
    pub cartographic_radians: Option<Sequence<CartographicValue>>,
}

impl Serialize for Position {
    open spec fn tokens(&self) -> Seq<Tok> {
        seq![Tok::BeginObject] + self.members() + seq![Tok::EndObject]
    }

    fn serialize(&self, out: &mut Vec<Token>) {
        emit(out, Token::BeginObject);
        self.serialize_members(out);
        emit(out, Token::EndObject);
        assert(toks(out@) =~= toks(old(out)@) + self.tokens());
    }
}

impl Position {
    /// The members written for the fields that are present, in field order.
    pub open spec fn members(&self) -> Seq<Tok> {
        bundle(self.interpolatable_property)
            + field("referenceFrame"@, self.reference_frame)
            + field("cartesian"@, self.cartesian)
            + field("cartographicRadians"@, self.cartographic_radians)
    }

    fn serialize_members(&self, out: &mut Vec<Token>)
        ensures
            toks(final(out)@) == toks(old(out)@) + self.members(),
    {
        let ghost start = toks(out@);
        serialize_bundle(out, &self.interpolatable_property);
        serialize_field(out, "referenceFrame", &self.reference_frame);
        serialize_field(out, "cartesian", &self.cartesian);
        serialize_field(out, "cartographicRadians", &self.cartographic_radians);
        assert(toks(out@) =~= start + self.members());
    }
}

/// The default position: default interpolation settings in the fixed
/// reference frame, with no coordinates.
impl Default for Position {
    fn default() -> (r: Position)
        ensures
            r.interpolatable_property matches Some(b) && b.is_default(),
            r.reference_frame matches Some(s) && s@ == "FIXED"@,
            r.cartesian is None,
            r.cartographic_radians is None,
    {
        Position {
            interpolatable_property: Some(InterpolatableProperty::default()),
            reference_frame: Some("FIXED".to_string()),
            cartesian: None,
            cartographic_radians: None,
        }
    }
}

/// How an entity is turned, as a unit quaternion.
#[derive(Clone, Debug, PartialEq)]
pub struct Orientation {
    /// Interpolation settings, written beside the other members.
    pub interpolatable_property: Option<InterpolatableProperty>,
    pub unit_quaternion: Option<Sequence<UnitQuaternionValue>>,
    pub reference: Option<String>,
    pub velocity_reference: Option<String>,
}

impl Serialize for Orientation {
    open spec fn tokens(&self) -> Seq<Tok> {
        seq![Tok::BeginObject] + self.members() + seq![Tok::EndObject]
    }

    fn serialize(&self, out: &mut Vec<Token>) {
        emit(out, Token::BeginObject);
        self.serialize_members(out);
        emit(out, Token::EndObject);
        assert(toks(out@) =~= toks(old(out)@) + self.tokens());
    }
}

impl Orientation {
    /// The members written for the fields that are present, in field order.
    pub open spec fn members(&self) -> Seq<Tok> {
        bundle(self.interpolatable_property)
            + field("unitQuaternion"@, self.unit_quaternion)
            + field("reference"@, self.reference)
            + field("velocityReference"@, self.velocity_reference)
    }

    fn serialize_members(&self, out: &mut Vec<Token>)
        ensures
            toks(final(out)@) == toks(old(out)@) + self.members(),
    {
        let ghost start = toks(out@);
        serialize_bundle(out, &self.interpolatable_property);
        serialize_field(out, "unitQuaternion", &self.unit_quaternion);
        serialize_field(out, "reference", &self.reference);
        serialize_field(out, "velocityReference", &self.velocity_reference);
        assert(toks(out@) =~= start + self.members());
    }
}

/// The offset from which a camera views an entity by default.
#[derive(Clone, Debug, PartialEq)]
pub struct ViewFrom {
    pub cartesian: Option<Sequence<Cartesian3Value>>,
    pub reference: Option<String>,
}

impl Serialize for ViewFrom {
    open spec fn tokens(&self) -> Seq<Tok> {
        seq![Tok::BeginObject] + self.members() + seq![Tok::EndObject]
    }

    fn serialize(&self, out: &mut Vec<Token>) {
        emit(out, Token::BeginObject);
        self.serialize_members(out);
        emit(out, Token::EndObject);
        assert(toks(out@) =~= toks(old(out)@) + self.tokens());
    }
}

impl ViewFrom {
    /// The members written for the fields that are present, in field order.
    pub open spec fn members(&self) -> Seq<Tok> {
        field("cartesian"@, self.cartesian)
            + field("reference"@, self.reference)
    }

    fn serialize_members(&self, out: &mut Vec<Token>)
        ensures
            toks(final(out)@) == toks(old(out)@) + self.members(),
    {
        let ghost start = toks(out@);
        serialize_field(out, "cartesian", &self.cartesian);
        serialize_field(out, "reference", &self.reference);
        assert(toks(out@) =~= start + self.members());
    }
}

/// A screen-aligned image drawn at an entity's position.
#[derive(Clone, Debug, PartialEq)]
pub struct Billboard {
    pub show: Option<bool>,
    pub image: Option<Vec<Uri>>,
    pub scale: Option<Number>,
    pub pixel_offset: Option<PixelOffset>,
    pub eye_offset: Option<EyeOffset>,
    pub horizontal_origin: Option<HorizontalOrigin>,
    pub vertical_origin: Option<VerticalOrigin>,
}

impl Serialize for Billboard {
    open spec fn tokens(&self) -> Seq<Tok> {
        seq![Tok::BeginObject] + self.members() + seq![Tok::EndObject]
    }

    fn serialize(&self, out: &mut Vec<Token>) {
        emit(out, Token::BeginObject);
        self.serialize_members(out);
        emit(out, Token::EndObject);
        assert(toks(out@) =~= toks(old(out)@) + self.tokens());
    }
}

impl Billboard {
    /// The members written for the fields that are present, in field order.
    pub open spec fn members(&self) -> Seq<Tok> {
        field("show"@, self.show)
            + field("image"@, self.image)
            + field("scale"@, self.scale)
            + field("pixelOffset"@, self.pixel_offset)
            + field("eyeOffset"@, self.eye_offset)
            + field("horizontalOrigin"@, self.horizontal_origin)
            + field("verticalOrigin"@, self.vertical_origin)
    }

    fn serialize_members(&self, out: &mut Vec<Token>)
        ensures
            toks(final(out)@) == toks(old(out)@) + self.members(),
    {
        let ghost start = toks(out@);
        serialize_field(out, "show", &self.show);
        serialize_field(out, "image", &self.image);
        serialize_field(out, "scale", &self.scale);
        serialize_field(out, "pixelOffset", &self.pixel_offset);
        serialize_field(out, "eyeOffset", &self.eye_offset);
        serialize_field(out, "horizontalOrigin", &self.horizontal_origin);
        serialize_field(out, "verticalOrigin", &self.vertical_origin);
        assert(toks(out@) =~= start + self.members());
    }
}

/// An image source, possibly limited to an interval.
#[derive(Clone, Debug, PartialEq, Default)]
pub struct Uri {
    pub interval: Option<TimeInterval>,
    pub uri: Option<String>,
    pub reference: Option<String>,
}

impl Serialize for Uri {
    open spec fn tokens(&self) -> Seq<Tok> {
        seq![Tok::BeginObject] + self.members() + seq![Tok::EndObject]
    }

    fn serialize(&self, out: &mut Vec<Token>) {
        emit(out, Token::BeginObject);
        self.serialize_members(out);
        emit(out, Token::EndObject);
        assert(toks(out@) =~= toks(old(out)@) + self.tokens());
    }
}

impl Uri {
    /// The members written for the fields that are present, in field order.
    pub open spec fn members(&self) -> Seq<Tok> {
        field("interval"@, self.interval)
            + field("uri"@, self.uri)
            + field("reference"@, self.reference)
    }

    fn serialize_members(&self, out: &mut Vec<Token>)
        ensures
            toks(final(out)@) == toks(old(out)@) + self.members(),
    {
        let ghost start = toks(out@);
        serialize_field(out, "interval", &self.interval);
        serialize_field(out, "uri", &self.uri);
        serialize_field(out, "reference", &self.reference);
        assert(toks(out@) =~= start + self.members());
    }
}

/// A billboard's offset on screen, in pixels.
#[derive(Clone, Debug, PartialEq)]
pub struct PixelOffset {
    /// Interpolation settings, written beside the other members.
    pub interpolatable_property: Option<InterpolatableProperty>,
    pub cartesian2: Option<Sequence<Cartesian2Value>>,
    pub reference: Option<String>,
}

impl Serialize for PixelOffset {
    open spec fn tokens(&self) -> Seq<Tok> {
        seq![Tok::BeginObject] + self.members() + seq![Tok::EndObject]
    }

    fn serialize(&self, out: &mut Vec<Token>) {
        emit(out, Token::BeginObject);
        self.serialize_members(out);
        emit(out, Token::EndObject);
        assert(toks(out@) =~= toks(old(out)@) + self.tokens());
    }
}

impl PixelOffset {
    /// The members written for the fields that are present, in field order.
    pub open spec fn members(&self) -> Seq<Tok> {
        bundle(self.interpolatable_property)
            + field("cartesian2"@, self.cartesian2)
            + field("reference"@, self.reference)
    }

    fn serialize_members(&self, out: &mut Vec<Token>)
        ensures
            toks(final(out)@) == toks(old(out)@) + self.members(),
    {
        let ghost start = toks(out@);
        serialize_bundle(out, &self.interpolatable_property);
        serialize_field(out, "cartesian2", &self.cartesian2);
        serialize_field(out, "reference", &self.reference);
        assert(toks(out@) =~= start + self.members());
    }
}

/// A billboard's offset in eye coordinates.
#[derive(Clone, Debug, PartialEq)]
pub struct EyeOffset {
    /// Interpolation settings, written beside the other members.
    pub interpolatable_property: Option<InterpolatableProperty>,
    pub cartesian: Option<Sequence<Cartesian3Value>>,
    pub reference: Option<String>,
}

impl Serialize for EyeOffset {
    open spec fn tokens(&self) -> Seq<Tok> {
        seq![Tok::BeginObject] + self.members() + seq![Tok::EndObject]
    }

    fn serialize(&self, out: &mut Vec<Token>) {
        emit(out, Token::BeginObject);
        self.serialize_members(out);
        emit(out, Token::EndObject);
        assert(toks(out@) =~= toks(old(out)@) + self.tokens());
    }
}

impl EyeOffset {
    /// The members written for the fields that are present, in field order.
    pub open spec fn members(&self) -> Seq<Tok> {
        bundle(self.interpolatable_property)
            + field("cartesian"@, self.cartesian)
            + field("reference"@, self.reference)
    }

    fn serialize_members(&self, out: &mut Vec<Token>)
        ensures
            toks(final(out)@) == toks(old(out)@) + self.members(),
    {
        let ghost start = toks(out@);
        serialize_bundle(out, &self.interpolatable_property);
        serialize_field(out, "cartesian", &self.cartesian);
        serialize_field(out, "reference", &self.reference);
        assert(toks(out@) =~= start + self.members());
    }
}

/// Which side of a billboard sits at its position horizontally.
#[derive(Clone, Debug, PartialEq)]
pub struct HorizontalOrigin {
    pub horizontal_origin: Option<String>,
    pub reference: Option<String>,
}

impl Serialize for HorizontalOrigin {
    open spec fn tokens(&self) -> Seq<Tok> {
        seq![Tok::BeginObject] + self.members() + seq![Tok::EndObject]
    }

    fn serialize(&self, out: &mut Vec<Token>) {
        emit(out, Token::BeginObject);
        self.serialize_members(out);
        emit(out, Token::EndObject);
        assert(toks(out@) =~= toks(old(out)@) + self.tokens());
    }
}

impl HorizontalOrigin {
    /// The members written for the fields that are present, in field order.
    pub open spec fn members(&self) -> Seq<Tok> {
        field("horizontalOrigin"@, self.horizontal_origin)
            + field("reference"@, self.reference)
    }

    fn serialize_members(&self, out: &mut Vec<Token>)
        ensures
            toks(final(out)@) == toks(old(out)@) + self.members(),
    {
        let ghost start = toks(out@);
        serialize_field(out, "horizontalOrigin", &self.horizontal_origin);
        serialize_field(out, "reference", &self.reference);
        assert(toks(out@) =~= start + self.members());
    }
}

/// Which side of a billboard sits at its position vertically.
#[derive(Clone, Debug, PartialEq)]
pub struct VerticalOrigin {
    pub vertical_origin: Option<String>,
    pub reference: Option<String>,
}

impl Serialize for VerticalOrigin {
    open spec fn tokens(&self) -> Seq<Tok> {
        seq![Tok::BeginObject] + self.members() + seq![Tok::EndObject]
    }

    fn serialize(&self, out: &mut Vec<Token>) {
        emit(out, Token::BeginObject);
        self.serialize_members(out);
        emit(out, Token::EndObject);
        assert(toks(out@) =~= toks(old(out)@) + self.tokens());
    }
}

impl VerticalOrigin {
    /// The members written for the fields that are present, in field order.
    pub open spec fn members(&self) -> Seq<Tok> {
        field("verticalOrigin"@, self.vertical_origin)
            + field("reference"@, self.reference)
    }

    fn serialize_members(&self, out: &mut Vec<Token>)
        ensures
            toks(final(out)@) == toks(old(out)@) + self.members(),
    {
        let ghost start = toks(out@);
        serialize_field(out, "verticalOrigin", &self.vertical_origin);
        serialize_field(out, "reference", &self.reference);
        assert(toks(out@) =~= start + self.members());
    }
}

/// A line through a list of positions.
#[derive(Clone, Debug, PartialEq, Default)]
pub struct Polyline {
    pub show: Option<bool>,
    pub positions: Option<PositionList>,
    pub width: Option<Number>,
    pub granularity: Option<Number>,
    pub material: Option<PolylineMaterial>,
    pub follow_surface: Option<bool>,
    pub shadows: Option<ShadowMode>,
    pub depth_fail_material: Option<PolylineMaterial>,
    pub distance_display_condition: Option<DistanceDisplayCondition>,
}

impl Serialize for Polyline {
    open spec fn tokens(&self) -> Seq<Tok> {
        seq![Tok::BeginObject] + self.members() + seq![Tok::EndObject]
    }

    fn serialize(&self, out: &mut Vec<Token>) {
        emit(out, Token::BeginObject);
        self.serialize_members(out);
        emit(out, Token::EndObject);
        assert(toks(out@) =~= toks(old(out)@) + self.tokens());
    }
}

impl Polyline {
    /// The members written for the fields that are present, in field order.
    pub open spec fn members(&self) -> Seq<Tok> {
        field("show"@, self.show)
            + field("positions"@, self.positions)
            + field("width"@, self.width)
            + field("granularity"@, self.granularity)
            + field("material"@, self.material)
            + field("followSurface"@, self.follow_surface)
            + field("shadows"@, self.shadows)
            + field("depthFailMaterial"@, self.depth_fail_material)
            + field("distanceDisplayCondition"@, self.distance_display_condition)
    }

    fn serialize_members(&self, out: &mut Vec<Token>)
        ensures
            toks(final(out)@) == toks(old(out)@) + self.members(),
    {
        let ghost start = toks(out@);
        serialize_field(out, "show", &self.show);
        serialize_field(out, "positions", &self.positions);
        serialize_field(out, "width", &self.width);
        serialize_field(out, "granularity", &self.granularity);
        serialize_field(out, "material", &self.material);
        serialize_field(out, "followSurface", &self.follow_surface);
        serialize_field(out, "shadows", &self.shadows);
        serialize_field(out, "depthFailMaterial", &self.depth_fail_material);
        serialize_field(out, "distanceDisplayCondition", &self.distance_display_condition);
        assert(toks(out@) =~= start + self.members());
    }
}

/// The positions a polyline passes through, by reference.
#[derive(Clone, Debug, PartialEq)]
pub struct PositionList {
    pub reference_frame: Option<String>,
    pub references: Option<Vec<String>>,
}

impl Serialize for PositionList {
    open spec fn tokens(&self) -> Seq<Tok> {
        seq![Tok::BeginObject] + self.members() + seq![Tok::EndObject]
    }

    fn serialize(&self, out: &mut Vec<Token>) {
        emit(out, Token::BeginObject);
        self.serialize_members(out);
        emit(out, Token::EndObject);
        assert(toks(out@) =~= toks(old(out)@) + self.tokens());
    }
}

impl PositionList {
    /// The members written for the fields that are present, in field order.
    pub open spec fn members(&self) -> Seq<Tok> {
        field("referenceFrame"@, self.reference_frame)
            + field("references"@, self.references)
    }

    fn serialize_members(&self, out: &mut Vec<Token>)
        ensures
            toks(final(out)@) == toks(old(out)@) + self.members(),
    {
        let ghost start = toks(out@);
        serialize_field(out, "referenceFrame", &self.reference_frame);
        serialize_field(out, "references", &self.references);
        assert(toks(out@) =~= start + self.members());
    }
}

/// How a polyline is painted.
#[derive(Clone, Debug, PartialEq, Default)]
pub struct PolylineMaterial {
    pub solid_color: Option<SolidColorMaterial>,
}

impl Serialize for PolylineMaterial {
    open spec fn tokens(&self) -> Seq<Tok> {
        seq![Tok::BeginObject] + self.members() + seq![Tok::EndObject]
    }

    fn serialize(&self, out: &mut Vec<Token>) {
        emit(out, Token::BeginObject);
        self.serialize_members(out);
        emit(out, Token::EndObject);
        assert(toks(out@) =~= toks(old(out)@) + self.tokens());
    }
}

impl PolylineMaterial {
    /// The members written for the fields that are present, in field order.
    pub open spec fn members(&self) -> Seq<Tok> {
        field("solidColor"@, self.solid_color)
    }

    fn serialize_members(&self, out: &mut Vec<Token>)
        ensures
            toks(final(out)@) == toks(old(out)@) + self.members(),
    {
        let ghost start = toks(out@);
        serialize_field(out, "solidColor", &self.solid_color);
        assert(toks(out@) =~= start + self.members());
    }
}

/// A paint of one color.
#[derive(Clone, Debug, PartialEq, Default)]
pub struct SolidColorMaterial {
    pub color: Option<Color>,
}

impl Serialize for SolidColorMaterial {
    open spec fn tokens(&self) -> Seq<Tok> {
        seq![Tok::BeginObject] + self.members() + seq![Tok::EndObject]
    }

    fn serialize(&self, out: &mut Vec<Token>) {
        emit(out, Token::BeginObject);
        self.serialize_members(out);
        emit(out, Token::EndObject);
        assert(toks(out@) =~= toks(old(out)@) + self.tokens());
    }
}

impl SolidColorMaterial {
    /// The members written for the fields that are present, in field order.
    pub open spec fn members(&self) -> Seq<Tok> {
        field("color"@, self.color)
    }

    fn serialize_members(&self, out: &mut Vec<Token>)
        ensures
            toks(final(out)@) == toks(old(out)@) + self.members(),
    {
        let ghost start = toks(out@);
        serialize_field(out, "color", &self.color);
        assert(toks(out@) =~= start + self.members());
    }
}

/// Whether a shape casts or receives shadows.
#[derive(Clone, Debug, PartialEq, Default)]
pub struct ShadowMode {
    pub shadow_mode: Option<ShadowModeValue>,
    pub reference: Option<String>,
}

impl Serialize for ShadowMode {
    open spec fn tokens(&self) -> Seq<Tok> {
        seq![Tok::BeginObject] + self.members() + seq![Tok::EndObject]
    }

    fn serialize(&self, out: &mut Vec<Token>) {
        emit(out, Token::BeginObject);
        self.serialize_members(out);
        emit(out, Token::EndObject);
        assert(toks(out@) =~= toks(old(out)@) + self.tokens());
    }
}

impl ShadowMode {
    /// The members written for the fields that are present, in field order.
    pub open spec fn members(&self) -> Seq<Tok> {
        field("shadowMode"@, self.shadow_mode)
            + field("reference"@, self.reference)
    }

    fn serialize_members(&self, out: &mut Vec<Token>)
        ensures
            toks(final(out)@) == toks(old(out)@) + self.members(),
    {
        let ghost start = toks(out@);
        serialize_field(out, "shadowMode", &self.shadow_mode);
        serialize_field(out, "reference", &self.reference);
        assert(toks(out@) =~= start + self.members());
    }
}

/// The ways a shape takes part in shadows.
#[derive(Clone, Copy, Debug, PartialEq, Eq)]
pub enum ShadowModeValue {
    Disabled,
    Enabled,
    CastOnly,
    ReceiveOnly,
}

impl ShadowModeValue {
    /// The literal this member is written as.
    pub open spec fn text(&self) -> Seq<char> {
        match self {
            ShadowModeValue::Disabled => "DISABLED"@,
            ShadowModeValue::Enabled => "ENABLED"@,
            ShadowModeValue::CastOnly => "CAST_ONLY"@,
            ShadowModeValue::ReceiveOnly => "RECEIVE_ONLY"@,
        }
    }

    pub fn as_str(&self) -> (r: &'static str)
        ensures
            r@ == self.text(),
    {
        match self {
            ShadowModeValue::Disabled => "DISABLED",
            ShadowModeValue::Enabled => "ENABLED",
            ShadowModeValue::CastOnly => "CAST_ONLY",
            ShadowModeValue::ReceiveOnly => "RECEIVE_ONLY",
        }
    }
}

/// A member is written as its literal, a plain string.
impl Serialize for ShadowModeValue {
    open spec fn tokens(&self) -> Seq<Tok> {
        seq![Tok::Str(self.text())]
    }

    fn serialize(&self, out: &mut Vec<Token>) {
        emit(out, Token::Str(self.as_str().to_string()));
    }
}

/// Each member of `ShadowModeValue` is written as its own literal, so two
/// members are written alike only when they are the same member.
pub proof fn lemma_shadow_mode_value_literals(a: ShadowModeValue, b: ShadowModeValue)
    ensures
        ShadowModeValue::Disabled.tokens() == seq![Tok::Str("DISABLED"@)],
        ShadowModeValue::Enabled.tokens() == seq![Tok::Str("ENABLED"@)],
        ShadowModeValue::CastOnly.tokens() == seq![Tok::Str("CAST_ONLY"@)],
        ShadowModeValue::ReceiveOnly.tokens() == seq![Tok::Str("RECEIVE_ONLY"@)],
        a.tokens() == b.tokens() ==> a == b,
{
    reveal_strlit("DISABLED");
    reveal_strlit("ENABLED");
    reveal_strlit("CAST_ONLY");
    reveal_strlit("RECEIVE_ONLY");
    if a.tokens() == b.tokens() {
        assert(a.text() == b.tokens()[0]->Str_0);
        if a != b {
            assert(a.text().len() != b.text().len() || a.text()[0] != b.text()[0]);
        }
    }
}

/// A color as red, green, blue and alpha bytes.
#[derive(Clone, Debug, PartialEq, Default)]
pub struct Color {
    /// Interpolation settings, written beside the other members.
    pub interpolatable_property: Option<InterpolatableProperty>,
    pub rgba: Option<Vec<u8>>,
}

impl Serialize for Color {
    open spec fn tokens(&self) -> Seq<Tok> {
        seq![Tok::BeginObject] + self.members() + seq![Tok::EndObject]
    }

    fn serialize(&self, out: &mut Vec<Token>) {
        emit(out, Token::BeginObject);
        self.serialize_members(out);
        emit(out, Token::EndObject);
        assert(toks(out@) =~= toks(old(out)@) + self.tokens());
    }
}

impl Color {
    /// The members written for the fields that are present, in field order.
    pub open spec fn members(&self) -> Seq<Tok> {
        bundle(self.interpolatable_property)
            + field("rgba"@, self.rgba)
    }

    fn serialize_members(&self, out: &mut Vec<Token>)
        ensures
            toks(final(out)@) == toks(old(out)@) + self.members(),
    {
        let ghost start = toks(out@);
        serialize_bundle(out, &self.interpolatable_property);
        serialize_field(out, "rgba", &self.rgba);
        assert(toks(out@) =~= start + self.members());
    }
}

/// The distances from the camera at which a shape is shown.
#[derive(Clone, Debug, PartialEq, Default)]
pub struct DistanceDisplayCondition {
    /// Interpolation settings, written beside the other members.
    pub interpolatable_property: Option<InterpolatableProperty>,
}

impl Serialize for DistanceDisplayCondition {
    open spec fn tokens(&self) -> Seq<Tok> {
        seq![Tok::BeginObject] + self.members() + seq![Tok::EndObject]
    }

    fn serialize(&self, out: &mut Vec<Token>) {
        emit(out, Token::BeginObject);
        self.serialize_members(out);
        emit(out, Token::EndObject);
        assert(toks(out@) =~= toks(old(out)@) + self.tokens());
    }
}

impl DistanceDisplayCondition {
    /// The members written for the fields that are present, in field order.
    pub open spec fn members(&self) -> Seq<Tok> {
        bundle(self.interpolatable_property)
    }

    fn serialize_members(&self, out: &mut Vec<Token>)
        ensures
            toks(final(out)@) == toks(old(out)@) + self.members(),
    {
        let ghost start = toks(out@);
        serialize_bundle(out, &self.interpolatable_property);
        assert(toks(out@) =~= start + self.members());
    }
}

/// Interpolation settings are written as members of the position that
/// holds them, in the same object: the position with settings `b` is written
/// as `q`, the same position without settings, with the members of `b`
/// placed first. Taking the settings away removes exactly those members.
pub proof fn lemma_position_bundle_flattening(p: Position, q: Position, b: InterpolatableProperty)
    requires
        p.interpolatable_property == Some(b),
        q.interpolatable_property is None,
        q.reference_frame == p.reference_frame,
        q.cartesian == p.cartesian,
        q.cartographic_radians == p.cartographic_radians,
    ensures
        p.tokens() == seq![Tok::BeginObject] + b.members() + q.members() + seq![Tok::EndObject],
        q.tokens() == seq![Tok::BeginObject] + q.members() + seq![Tok::EndObject],
        p.members() == b.members() + q.members(),
{
    assert(p.members() =~= b.members() + q.members());
    assert(p.tokens() =~= seq![Tok::BeginObject] + b.members() + q.members() + seq![
        Tok::EndObject,
    ]);
}

} // verus!
