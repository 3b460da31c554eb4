//! A post-processor that stores nothing and only names the variants.

use crate::ai::mock::counted;
use crate::error::Error;
use crate::error::ErrorModel;
use crate::image::fresh_id;
use crate::image::is_uuid_text;
use crate::image::name_variants;
use crate::image::variant_paths;
use crate::image::ImageService;
use crate::image::ProcessedImages;
use vstd::prelude::*;
use vstd::string::StringExecFns;

verus! {

/// A post-processor for tests: it names the two variants under its base
/// path with a fresh identifier, or fails when told to.
#[derive(Debug)]
pub struct MockImageProcessor {
    process_count: usize,
    base_path: String,
    should_fail: bool,
}

impl MockImageProcessor {
    /// Images processed so far.
    pub closed spec fn process_count(&self) -> usize {
        self.process_count
    }

    /// The directory of the named variants.
    pub closed spec fn base_path(&self) -> Seq<char> {
        self.base_path@
    }

    /// Whether every call fails.
    pub closed spec fn should_fail(&self) -> bool {
        self.should_fail
    }

    /// A processor that names its variants under `/tmp` and does not fail.
    pub fn new() -> (r: Self)
        ensures
            r.process_count() == 0,
            r.base_path() == "/tmp"@,
            !r.should_fail(),
    {
        Self { process_count: 0, base_path: String::from_str("/tmp"), should_fail: false }
    }

    /// The same processor, naming its variants under another directory.
    pub fn with_base_path(self, path: String) -> (r: Self)
        ensures
            r.process_count() == self.process_count(),
            r.base_path() == path@,
            r.should_fail() == self.should_fail(),
    {
        let mut r = self;
        r.base_path = path;
        r
    }

    /// The same processor, failing every call or none.
    pub fn with_failure(self, should_fail: bool) -> (r: Self)
        ensures
            r.process_count() == self.process_count(),
            r.base_path() == self.base_path(),
            r.should_fail() == should_fail,
    {
        let mut r = self;
        r.should_fail = should_fail;
        r
    }

    /// Images processed so far; failed calls are not counted.
    pub fn get_process_count(&self) -> (r: usize)
        ensures
            r == self.process_count(),
    {
        self.process_count
    }
}

impl Default for MockImageProcessor {
    fn default() -> (r: Self)
        ensures
            r.process_count() == 0,
            r.base_path() == "/tmp"@,
            !r.should_fail(),
    {
        Self::new()
    }
}

impl ImageService for MockImageProcessor {
    /// Names the two variants with a fresh identifier, or fails with an
    /// image error when the processor was told to fail.
    fn process_image(&mut self, image_data: &[u8], base_name: &str) -> (r: Result<
        ProcessedImages,
        Error,
    >)
        ensures
            final(self).base_path() == old(self).base_path(),
            final(self).should_fail() == old(self).should_fail(),
            match r {
                Ok(images) => !old(self).should_fail() && final(self).process_count() == counted(
                    old(self).process_count(),
                ) && exists|id: Seq<char>|
                    is_uuid_text(id) && images@ == #[trigger] variant_paths(
                        old(self).base_path(),
                        base_name@,
                        id,
                    ),
                Err(e) => old(self).should_fail() && final(self).process_count() == old(
                    self,
                ).process_count() && e@ == ErrorModel::Image("Mock failure"@),
            },
    {
        if self.should_fail {
            return Err(Error::Image(String::from_str("Mock failure")));
        }
        self.process_count = if self.process_count < usize::MAX {
            self.process_count + 1
        } else {
            self.process_count
        };
        let id = fresh_id();
        let images = name_variants(self.base_path.as_str(), base_name, id.as_str());
        assert(images@ == variant_paths(old(self).base_path(), base_name@, id@));
        Ok(images)
    }
}

} // verus!
