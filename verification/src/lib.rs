//! Verified core of the AuRaw RAW editor: GPU error signalling, compute
//! workgroup shapes, preview density policy, caches, presence and AI-mask
//! bookkeeping, written as plain-value state machines and pure functions.

pub mod gpu_errors;
pub mod platform;
pub mod text;
pub mod workgroup;
pub mod render_graph;
pub mod preview_quality;
pub mod ui_state;
pub mod raw_cache;
pub mod discord_presence;
pub mod ai_masks;
pub mod pipeline_updates;
pub mod lens;
pub mod library_refresh;
pub mod onnx_runtime;
pub mod pickers;
pub mod documents;
pub mod inpaint;
pub mod library_export;
pub mod display_profile;
pub mod mask_interaction;
pub mod mask_gesture;
pub mod thumbnail_cache;
pub mod loading_thumbnail;
pub mod retired_textures;
pub mod gpu_uploads;
pub mod pipeline_plan;
pub mod pass_plan;
pub mod camera_profiles;
pub mod adjustment_paste;
