//! The camera-metadata configuration consumed by the decoder's
//! configuration compiler: one table per camera, with optional per-mode
//! overrides. The pipeline itself neither produces nor consumes these; they
//! are the static lookup data the external decoder is linked against.

use vstd::prelude::*;

verus! {

/// The root of a camera-metadata document.
#[derive(Debug)]
pub struct Config {
    pub cameras: Vec<Camera>,
}

/// One camera's table.
#[derive(Debug, Clone)]
pub struct Camera {
    pub make: String,
    pub model: String,
    pub clean_make: String,
    pub clean_model: String,
    pub color_matrix: Vec<i64>,
    pub color_pattern: String,
    pub blackpoint: Option<i64>,
    pub whitepoint: Option<i64>,
    pub crops: Option<Vec<i64>>,
    pub model_aliases: Vec<Vec<String>>,
    pub blackareav: Option<Vec<i64>>,
    pub blackareah: Option<Vec<i64>>,
    pub wb_offset: Option<i64>,
    pub hints: Option<Vec<String>>,
    pub filesize: Option<i64>,
    pub raw_width: Option<i64>,
    pub raw_height: Option<i64>,
    pub bps: Option<i64>,
    pub modes: Vec<Mode>,
}

/// One mode's overrides within a camera's table.
#[derive(Debug, Clone)]
pub struct Mode {
    pub mode: String,
    pub blackpoint: Option<i64>,
    pub whitepoint: Option<i64>,
    pub color_pattern: Option<String>,
    pub crops: Option<Vec<i64>>,
    pub highres_width: Option<i64>,
}

} // verus!
