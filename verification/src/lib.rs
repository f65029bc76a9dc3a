//! Core logic of an instanced tube renderer: many animated strands, each a
//! chain of straight segments extruded into tubes around a shared polygonal
//! cross-section.
//!
//! This crate holds the parts of that pipeline that are pure data logic and
//! proves them correct:
//!
//! - validation of the fixed topology (strand count, segments per strand,
//!   cross-section side count, compute dispatch grid) and the buffer sizes
//!   derived from it;
//! - the word-exact memory layout of the vertex, instance and uniform blocks
//!   that the generation and render stages share;
//! - the parameter grids behind the cross-section ring and the per-segment
//!   instance records, including the continuity of consecutive segments;
//! - the per-frame state machines: the resize guard for the presentation
//!   target, the classification of per-frame surface errors, and the order in
//!   which a frame's passes must be encoded into one submission.
//!
//! Scalar fields that the GPU reads as 32-bit floats are carried here as their
//! `u32` bit patterns: the layout and grid logic never interprets them, so the
//! proofs are about exactly what reaches the GPU. Evaluating the float-valued
//! curve and camera functions, and all device, surface and window handling,
//! belong to the unverified shell around this crate.

mod config;
mod section;
mod strands;
mod layout;
mod target;
mod frame;

pub use config::ConfigError;
pub use config::TubeConfig;
pub use config::INSTANCE_STRIDE_BYTES;
pub use config::UNIFORM_BLOCK_BYTES;
pub use config::VERTEX_STRIDE_BYTES;
pub use section::SectionSlot;
pub use section::cross_section_slots;
pub use section::lemma_section_strip_closes;
pub use section::section_slot_spec;
pub use strands::SegmentParam;
pub use strands::lemma_strand_continuity;
pub use strands::segment_param_spec;
pub use strands::segment_params;
pub use layout::TubeInstance;
pub use layout::Uniforms;
pub use layout::Vec3Words;
pub use layout::Vertex;
pub use layout::build_instance_block;
pub use layout::build_vertex_block;
pub use layout::lemma_instance_block_fills_buffer;
pub use layout::lemma_uniform_pack_deterministic;
pub use layout::pack_instance;
pub use layout::pack_uniforms;
pub use layout::pack_vertex;
pub use layout::spec_pack_instance;
pub use layout::spec_pack_uniforms;
pub use layout::spec_pack_vertex;
pub use target::TargetState;
pub use frame::FrameAction;
pub use frame::FrameEncoding;
pub use frame::FrameStep;
pub use frame::SurfaceIssue;
pub use frame::canonical_frame;
pub use frame::frame_error_action;
pub use frame::lemma_generation_precedes_draw;
pub use frame::spec_issue_action;
