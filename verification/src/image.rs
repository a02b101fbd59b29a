//! The input image: its path and pixel dimensions, and the name of the
//! file a job writes next to it.

use vstd::prelude::*;
use crate::decimal::dec_str;
use crate::decimal::u64_to_string;
use crate::error::Error;
use crate::options::OutputExt;
use crate::options::UpscaleOptions;
use crate::options::ext_chars;
use crate::paths;

verus! {

/// An image picked for upscaling: where it lies and how large it is.
#[derive(Debug, Clone)]
pub struct Image {
    pub path: String,
    pub width: usize,
    pub height: usize,
}

/// What `str::to_lowercase` returns for these characters.
pub uninterp spec fn lower_case_of(s: Seq<char>) -> Seq<char>;

/// Relies on `str::to_lowercase`: the result depends on the characters
/// alone.
#[verifier::external_body]
fn lowercase(s: &str) -> (r: String)
    ensures
        r@ == lower_case_of(s@),
{
    s.to_lowercase()
}

/// Relies on `imagesize::size`: reads the header of the file on disk
/// and returns its pixel dimensions, or the error's text.
#[verifier::external_body]
fn probe_image_size(path: &str) -> Result<(usize, usize), String> {
    match imagesize::size(path) {
        Ok(size) => Ok((size.width, size.height)),
        Err(why) => Err(why.to_string()),
    }
}

/// The extension of the file name of `p`.
pub open spec fn path_ext(p: Seq<char>) -> Option<Seq<char>> {
    paths::extension_of(paths::file_name_of(p))
}

/// An extension (already lower-cased) that counts as a supported image
/// format: anything containing one of the four known names.
pub open spec fn spec_ext_allowed(e: Seq<char>) -> bool {
    ||| paths::spec_contains(e, "png"@)
    ||| paths::spec_contains(e, "jpeg"@)
    ||| paths::spec_contains(e, "jpg"@)
    ||| paths::spec_contains(e, "webp"@)
}

/// Whether a lower-cased extension counts as a supported image format.
pub fn extension_allowed(e: &str) -> (r: bool)
    ensures
        r == spec_ext_allowed(e@),
{
    paths::contains_sub(e, "png") || paths::contains_sub(e, "jpeg") || paths::contains_sub(
        e,
        "jpg",
    ) || paths::contains_sub(e, "webp")
}

/// The file name a job writes its result under:
/// `{stem}_{model}_x{scale}.{ext}`.
pub open spec fn output_name_of(
    path: Seq<char>,
    model_name: Seq<char>,
    scale: int,
    ext: OutputExt,
) -> Seq<char> {
    paths::file_stem_of(paths::file_name_of(path)) + "_"@ + model_name + "_x"@ + dec_str(
        scale as nat,
    ) + "."@ + ext_chars(ext)
}

impl Image {
    /// Takes an image path: checks that its extension names a supported
    /// format, then reads the pixel dimensions from disk.
    pub fn from_path(path: String) -> (r: Result<Image, Error>)
        ensures
            match path_ext(path@) {
                None => r matches Err(Error::ImageFormatNotSupported(d, f)) && d is None
                    && f@.len() == 0,
                Some(e) => {
                    &&& spec_ext_allowed(lower_case_of(e)) ==> match r {
                        Ok(img) => img.path@ == path@,
                        Err(err) => err matches Error::FailedToInitImage(_, p, reason) && p@
                            == path@ && reason@ == "Failed to get image size."@,
                    }
                    &&& !spec_ext_allowed(lower_case_of(e)) ==> (r matches Err(
                        Error::ImageFormatNotSupported(d, f),
                    ) && d is None && f@ == lower_case_of(e))
                },
            },
    {
        let name = paths::file_name(path.as_str());
        match paths::extension(name.as_str()) {
            None => Err(Error::ImageFormatNotSupported(None, String::new())),
            Some(ext) => {
                let lower = lowercase(ext.as_str());
                if extension_allowed(lower.as_str()) {
                    match probe_image_size(path.as_str()) {
                        Ok(size) => Ok(Image { path, width: size.0, height: size.1 }),
                        Err(why) => Err(
                            Error::FailedToInitImage(
                                Some(why),
                                path,
                                "Failed to get image size.".to_owned(),
                            ),
                        ),
                    }
                } else {
                    Err(Error::ImageFormatNotSupported(None, lower))
                }
            },
        }
    }

    /// The bare file name the job writes its result under.
    pub fn output_file_name(&self, options: &UpscaleOptions) -> (r: String)
        requires
            options.model is Some,
            options.in_bounds(),
        ensures
            r@ == output_name_of(
                self.path@,
                options.model->Some_0.name@,
                options.scale as int,
                options.output_ext,
            ),
    {
        let model_name = match &options.model {
            Some(m) => m.name.as_str(),
            None => "",
        };
        let name = paths::file_name(self.path.as_str());
        let mut s = paths::file_stem(name.as_str());
        s.append("_");
        s.append(model_name);
        s.append("_x");
        let scale_str = u64_to_string(options.scale as u64);
        s.append(scale_str.as_str());
        s.append(".");
        let ext = options.output_ext.ext();
        s.append(ext.as_str());
        proof {
            assert(s@ =~= output_name_of(
                self.path@,
                options.model->Some_0.name@,
                options.scale as int,
                options.output_ext,
            ));
        }
        s
    }

    /// The full output path the job would write, next to this image:
    /// the image's own directory part followed by the output file
    /// name.
    pub fn create_output(&self, options: &UpscaleOptions) -> (r: String)
        requires
            options.model is Some,
            options.in_bounds(),
        ensures
            r@ == paths::dir_prefix_of(self.path@) + output_name_of(
                self.path@,
                options.model->Some_0.name@,
                options.scale as int,
                options.output_ext,
            ),
    {
        let name = self.output_file_name(options);
        let mut s = paths::dir_prefix(self.path.as_str());
        s.append(name.as_str());
        s
    }
}

} // verus!
