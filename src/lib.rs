//! Encoder for CZML documents: ordered packets of time-dynamic scene
//! properties, written out as the stream of calls a JSON writer receives.
use vstd::prelude::*;

pub mod bundle;
pub mod clock;
pub mod graphics;
pub mod packet;
pub mod sequence;
pub mod time;
pub mod token;

pub use bundle::InterpolatableProperty;
pub use clock::{Clock, ClockRange, ClockStep};
pub use graphics::{
    Billboard, Color, DistanceDisplayCondition, EyeOffset, HorizontalOrigin, Orientation, PixelOffset,
    Polyline, PolylineMaterial, Position, PositionList, ShadowMode, ShadowModeValue,
    SolidColorMaterial, Uri, VerticalOrigin, ViewFrom,
};
pub use packet::{Czml, CzmlString, Packet};
pub use sequence::{
    Cartesian2Value, Cartesian3Value, CartographicValue, Sequence, Sequenceable, TimeTaggedValue,
    UnitQuaternionValue,
};
pub use time::{Time, TimeInterval};
pub use token::{Number, Serialize, Tok, Token};
