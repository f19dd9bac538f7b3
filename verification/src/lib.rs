//! In-place conversions between types of the same size and alignment.
//!
//! A value of one type may be reinterpreted as a value of another type that
//! occupies identical memory: same size, same alignment and, for sequence
//! views, the same two-word pointer representation.  Two tiers are offered:
//! an unchecked tier ([`Coerce`]), whose caller must guarantee that the bit
//! pattern at hand is a valid value of the target type, and a safe tier
//! ([`As`]), available only for pairs where every bit pattern of the source
//! is a valid value of the target.
//!
//! The declarative registry of layout-compatible primitive families lives in
//! [`table`]; the structural rules that lift a relation across sequences,
//! heap-owned values and uninitialized-memory containers live in
//! [`composite`], [`text`] and [`ptr`].

pub mod as_;
pub mod coerce;
pub mod composite;
pub mod layout;
pub mod maybe;
pub mod nonzero;
pub mod ptr;
pub mod table;
pub mod text;

pub use as_::As;
pub use coerce::Coerce;
