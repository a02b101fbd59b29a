//! The value types a job is described with: the output format, a
//! discovered model, and the options of the next job.

use vstd::prelude::*;
use crate::paths;

verus! {

/// The format the upscaled image is written in.
#[derive(Debug, Clone, Copy, PartialEq, Eq, Structural)]
pub enum OutputExt {
    WebP,
    PNG,
    JPG,
}

/// The file extension of an output format, without the dot.
pub open spec fn ext_chars(e: OutputExt) -> Seq<char> {
    match e {
        OutputExt::WebP => "webp"@,
        OutputExt::PNG => "png"@,
        OutputExt::JPG => "jpg"@,
    }
}

/// The label of an output format, as shown in a selector.
pub open spec fn label_chars(e: OutputExt) -> Seq<char> {
    match e {
        OutputExt::WebP => "WebP"@,
        OutputExt::PNG => "PNG"@,
        OutputExt::JPG => "JPG"@,
    }
}

impl OutputExt {
    /// The file extension of this format, without the dot.
    pub fn ext(&self) -> (r: String)
        ensures
            r@ == ext_chars(*self),
    {
        match self {
            OutputExt::WebP => "webp".to_owned(),
            OutputExt::PNG => "png".to_owned(),
            OutputExt::JPG => "jpg".to_owned(),
        }
    }

    /// The label of this format, as shown in a selector.
    pub fn label(&self) -> (r: String)
        ensures
            r@ == label_chars(*self),
    {
        match self {
            OutputExt::WebP => "WebP".to_owned(),
            OutputExt::PNG => "PNG".to_owned(),
            OutputExt::JPG => "JPG".to_owned(),
        }
    }

    /// Every output format, in the order a selector offers them.
    pub fn all() -> (r: Vec<OutputExt>)
        ensures
            r@ == seq![OutputExt::WebP, OutputExt::PNG, OutputExt::JPG],
    {
        let mut v: Vec<OutputExt> = Vec::new();
        v.push(OutputExt::WebP);
        v.push(OutputExt::PNG);
        v.push(OutputExt::JPG);
        proof {
            assert(v@ =~= seq![OutputExt::WebP, OutputExt::PNG, OutputExt::JPG]);
        }
        v
    }
}

/// One discovered model: the weight file, the directory it was found
/// in, and the name the external tool knows it by.
#[derive(Debug, Clone, PartialEq)]
pub struct Model {
    pub path: String,
    pub folder: String,
    pub name: String,
}

impl Model {
    /// A model as discovery builds it: found in `folder`, named after
    /// the stem of its weight file, and not marked as a video model.
    pub open spec fn wf(&self) -> bool {
        &&& self.name@ == paths::file_stem_of(paths::file_name_of(self.path@))
        &&& !paths::spec_contains(self.name@, "video"@)
    }
}

/// How the next job runs: scale factor, compression level, the chosen
/// model, the output format, and an optional explicit output folder.
#[derive(Debug, Clone)]
pub struct UpscaleOptions {
    pub scale: i32,
    pub compression: i32,
    pub model: Option<Model>,
    pub output_ext: OutputExt,
    pub output: Option<String>,
}

impl UpscaleOptions {
    /// The state `default` and `reset_options` put the options in.
    pub open spec fn is_default(&self) -> bool {
        &&& self.scale == 4
        &&& self.compression == 0
        &&& self.model is None
        &&& self.output_ext == OutputExt::PNG
        &&& self.output is None
    }

    /// The bounds the sliders hold scale and compression to.
    pub open spec fn in_bounds(&self) -> bool {
        &&& 1 <= self.scale <= 16
        &&& 0 <= self.compression <= 100
    }
}

impl Default for UpscaleOptions {
    fn default() -> (r: Self)
        ensures
            r.is_default(),
    {
        UpscaleOptions {
            scale: 4,
            compression: 0,
            model: None,
            output_ext: OutputExt::PNG,
            output: None,
        }
    }
}

} // verus!
