//! Generates the source text of per-field "setter" methods for a described
//! record: a record-level configuration directive selects one of three method
//! shapes and a visibility, a whitelist decides which field annotations follow
//! the field onto its setter, and one setter per field is synthesized in
//! declaration order into a single method collection scoped to the record.

pub mod filter;
pub mod model;
pub mod resolve;
pub mod render;
pub mod synth;

pub use filter::filter_annotations;
pub use filter::keep;
pub use model::Annotation;
pub use model::ConfigError;
pub use model::Field;
pub use model::GenError;
pub use model::GeneratedUnit;
pub use model::GenericParam;
pub use model::Options;
pub use model::Pattern;
pub use model::RecordDescription;
pub use model::Setter;
pub use model::Visibility;
pub use render::generate_source;
pub use render::render_setter;
pub use render::render_unit;
pub use resolve::resolve;
pub use synth::generate;
pub use synth::synthesize;
