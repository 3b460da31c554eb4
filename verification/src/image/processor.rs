//! The production post-processor's share that is pure: where it stores the
//! variants of an image. Decoding, resizing and encoding are done by its
//! driver.

use crate::error::Error;
use crate::image::fresh_id;
use crate::image::is_uuid_text;
use crate::image::name_variants;
use crate::image::variant_paths;
use crate::image::ProcessedImages;
use vstd::prelude::*;
use vstd::string::StringExecFns;

verus! {

/// The side length of both stored variants, in pixels.
pub const VARIANT_SIZE: u32 = 800;

/// The post-processor's output directory.
#[derive(Debug)]
pub struct ImageProcessor {
    output_dir: String,
}

impl ImageProcessor {
    /// The directory that receives the variants.
    pub closed spec fn output_dir(&self) -> Seq<char> {
        self.output_dir@
    }

    /// A processor that stores its variants in the directory.
    pub fn new(output_dir: &str) -> (r: Result<Self, Error>)
        ensures
            r matches Ok(p) && p.output_dir() == output_dir@,
    {
        Ok(Self { output_dir: String::from_str(output_dir) })
    }

    /// The directory that receives the variants.
    pub fn directory(&self) -> (r: &str)
        ensures
            r@ == self.output_dir(),
    {
        self.output_dir.as_str()
    }

    /// Where the two variants of the next image go: in the output
    /// directory, named by the base name and a fresh identifier.
    pub fn plan_outputs(&self, base_name: &str) -> (r: ProcessedImages)
        ensures
            exists|id: Seq<char>|
                is_uuid_text(id) && r@ == #[trigger] variant_paths(
                    self.output_dir(),
                    base_name@,
                    id,
                ),
    {
        let id = fresh_id();
        let images = name_variants(self.output_dir.as_str(), base_name, id.as_str());
        assert(images@ == variant_paths(self.output_dir(), base_name@, id@));
        images
    }
}

} // verus!
