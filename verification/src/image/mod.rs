//! Post-processing of generated images: where the two re-encoded variants
//! of an image are stored and how they are named.

pub mod mock;
pub mod processor;

pub use mock::MockImageProcessor;
pub use processor::ImageProcessor;

use crate::error::Error;
use crate::text::concat;
use crate::text::from_chars;
use crate::text::to_chars;
use vstd::prelude::*;

verus! {

/// Where the two re-encoded variants of one generated image were stored.
#[derive(Debug, PartialEq, Eq)]
pub struct ProcessedImages {
    pub jpeg_path: String,
    pub webp_path: String,
}

/// Mathematical value of [`ProcessedImages`].
pub struct ProcessedImagesModel {
    pub jpeg_path: Seq<char>,
    pub webp_path: Seq<char>,
}

impl View for ProcessedImages {
    type V = ProcessedImagesModel;

    open spec fn view(&self) -> ProcessedImagesModel {
        ProcessedImagesModel { jpeg_path: self.jpeg_path@, webp_path: self.webp_path@ }
    }
}

impl Clone for ProcessedImages {
    fn clone(&self) -> (r: Self)
        ensures
            r@ == self@,
    {
        ProcessedImages { jpeg_path: self.jpeg_path.clone(), webp_path: self.webp_path.clone() }
    }
}

/// The post-processor as the pipeline consumes it: it stores two
/// re-encoded variants of the image and tells where. A call may fail with a
/// processing error; nothing else is known of an implementation.
pub trait ImageService {
    fn process_image(&mut self, image_data: &[u8], base_name: &str) -> Result<
        ProcessedImages,
        Error,
    >;
}

/// A character of a hyphenated lower-case UUID.
pub open spec fn is_uuid_char(c: char) -> bool {
    c == '-' || ('0' <= c && c <= '9') || ('a' <= c && c <= 'f')
}

/// The text has the form of a hyphenated lower-case UUID as far as its
/// length and its characters go.
pub open spec fn is_uuid_text(text: Seq<char>) -> bool {
    text.len() == 36 && forall|i: int| 0 <= i < text.len() ==> is_uuid_char(#[trigger] text[i])
}

/// `Uuid::new_v4` draws a random identifier, and its `Display` text is the
/// hyphenated lower-case form: 36 characters, each a hexadecimal digit or
/// a hyphen. Which identifier comes out is left open. The call panics when
/// the system cannot provide random bytes.
#[verifier::external_body]
pub(crate) fn fresh_id() -> (r: String)
    ensures
        is_uuid_text(r@),
{
    uuid::Uuid::new_v4().to_string()
}

/// The paths of the two variants of an image: in the directory, named by
/// the base name, an underscore and the identifier, with the extensions
/// `.jpg` and `.webp`.
pub open spec fn variant_paths(directory: Seq<char>, base_name: Seq<char>, id: Seq<char>)
    -> ProcessedImagesModel {
    ProcessedImagesModel {
        jpeg_path: directory + "/"@ + base_name + "_"@ + id + ".jpg"@,
        webp_path: directory + "/"@ + base_name + "_"@ + id + ".webp"@,
    }
}

/// Names the two variants of an image.
pub fn name_variants(directory: &str, base_name: &str, id: &str) -> (r: ProcessedImages)
    ensures
        r@ == variant_paths(directory@, base_name@, id@),
{
    let stem = concat(directory, "/");
    let stem = concat(stem.as_str(), base_name);
    let stem = concat(stem.as_str(), "_");
    let stem = concat(stem.as_str(), id);
    ProcessedImages {
        jpeg_path: concat(stem.as_str(), ".jpg"),
        webp_path: concat(stem.as_str(), ".webp"),
    }
}

/// The text after the last `/` of a path: the whole path when it holds no
/// `/`, nothing when it ends in one.
pub open spec fn last_segment(path: Seq<char>) -> Seq<char>
    decreases path.len(),
{
    if path.len() == 0 || path.last() == '/' {
        Seq::empty()
    } else {
        last_segment(path.drop_last()).push(path.last())
    }
}

/// The path up to the end of its last component: without the `/` and the
/// `.` components that it ends in.
pub open spec fn trimmed(path: Seq<char>) -> Seq<char>
    decreases path.len(),
{
    if path.len() == 0 {
        path
    } else if path.last() == '/' {
        trimmed(path.drop_last())
    } else if path.len() >= 2 && path.last() == '.' && path[path.len() - 2] == '/' {
        trimmed(path.drop_last())
    } else {
        path
    }
}

/// The file name of a `/`-separated path, as `Path::file_name` of std
/// gives it for such paths: the last component, where a `/` and a `.`
/// component at the end are passed over. There is none, which the empty
/// text stands for, when the path is empty or the root, when it is `.`,
/// and when it ends in `..`.
pub open spec fn file_name_of(path: Seq<char>) -> Seq<char> {
    let segment = last_segment(trimmed(path));
    if segment == seq!['.'] || segment == seq!['.', '.'] {
        Seq::empty()
    } else {
        segment
    }
}

/// The last segment is a suffix of the path, holds no `/`, and is preceded
/// by a `/` unless it is the whole path.
pub proof fn lemma_last_segment_is_suffix(path: Seq<char>)
    ensures
        last_segment(path).len() <= path.len(),
        last_segment(path) == path.subrange(
            path.len() - last_segment(path).len(),
            path.len() as int,
        ),
        has_no_slash(last_segment(path)),
        last_segment(path).len() < path.len() ==> path[path.len() - last_segment(path).len() - 1]
            == '/',
    decreases path.len(),
{
    if path.len() == 0 || path.last() == '/' {
        assert(path.subrange(path.len() as int, path.len() as int) =~= Seq::<char>::empty());
    } else {
        let front = path.drop_last();
        lemma_last_segment_is_suffix(front);
        let name = last_segment(front);
        assert(front.subrange(front.len() - name.len(), front.len() as int).push(path.last())
            =~= path.subrange(path.len() - name.len() - 1, path.len() as int));
        if name.len() < front.len() {
            assert(front[front.len() - name.len() - 1] == path[path.len() - name.len() - 2]);
        }
    }
}

/// The trimmed path is the path without an end that holds only `/` and
/// `.`; it does not end in `/`.
pub proof fn lemma_trimmed_is_prefix(path: Seq<char>)
    ensures
        trimmed(path).len() <= path.len(),
        trimmed(path) == path.subrange(0, trimmed(path).len() as int),
        forall|i: int|
            trimmed(path).len() <= i < path.len() ==> #[trigger] path[i] == '/' || path[i] == '.',
        trimmed(path).len() > 0 ==> trimmed(path).last() != '/',
        trimmed(trimmed(path)) == trimmed(path),
    decreases path.len(),
{
    if path.len() == 0 {
        assert(path.subrange(0, 0) =~= path);
    } else if path.last() == '/' || (path.len() >= 2 && path.last() == '.' && path[path.len() - 2]
        == '/') {
        let front = path.drop_last();
        lemma_trimmed_is_prefix(front);
        assert(front.subrange(0, trimmed(front).len() as int) =~= path.subrange(
            0,
            trimmed(front).len() as int,
        ));
        assert forall|i: int| trimmed(path).len() <= i < path.len() implies #[trigger] path[i]
            == '/' || path[i] == '.' by {
            if i < front.len() {
                assert(front[i] == path[i]);
            }
        }
    } else {
        assert(path.subrange(0, path.len() as int) =~= path);
    }
}

/// The file name of a path holds no `/`, and is neither `.` nor `..`.
pub proof fn lemma_file_name_is_a_component(path: Seq<char>)
    ensures
        has_no_slash(file_name_of(path)),
        file_name_of(path) != seq!['.'],
        file_name_of(path) != seq!['.', '.'],
        file_name_of(path).len() <= path.len(),
{
    lemma_trimmed_is_prefix(path);
    lemma_last_segment_is_suffix(trimmed(path));
    assert(seq!['.'].len() == 1);
    assert(seq!['.', '.'].len() == 2);
}

/// The text holds no `/`.
pub open spec fn has_no_slash(text: Seq<char>) -> bool {
    forall|i: int| 0 <= i < text.len() ==> #[trigger] text[i] != '/'
}

/// The text can be the name of a file: it is not empty, holds no `/`, and
/// is neither `.` nor `..`.
pub open spec fn is_plain_name(name: Seq<char>) -> bool {
    name.len() > 0 && has_no_slash(name) && name != seq!['.'] && name != seq!['.', '.']
}

/// A text without `/` that is joined to a directory by a `/` is the last
/// segment of the joined path.
pub proof fn lemma_last_segment_of_joined(directory: Seq<char>, name: Seq<char>)
    requires
        has_no_slash(name),
    ensures
        last_segment(directory + "/"@ + name) == name,
    decreases name.len(),
{
    reveal_strlit("/");
    let path = directory + "/"@ + name;
    if name.len() == 0 {
        assert(path.last() == '/');
        assert(name =~= Seq::<char>::empty());
    } else {
        let front = name.drop_last();
        assert(path.last() == name.last());
        assert(path.drop_last() =~= directory + "/"@ + front);
        assert forall|i: int| 0 <= i < front.len() implies #[trigger] front[i] != '/' by {
            assert(front[i] == name[i]);
        }
        lemma_last_segment_of_joined(directory, front);
        assert(front.push(name.last()) =~= name);
    }
}

/// A plain name that is joined to a directory by a `/` is the file name
/// of the joined path.
pub proof fn lemma_file_name_of_joined(directory: Seq<char>, name: Seq<char>)
    requires
        is_plain_name(name),
    ensures
        file_name_of(directory + "/"@ + name) == name,
{
    reveal_strlit("/");
    let path = directory + "/"@ + name;
    assert(path.last() == name.last());
    assert(name.last() == name[name.len() - 1]);
    if path.last() == '.' && path[path.len() - 2] == '/' {
        if name.len() >= 2 {
            assert(path[path.len() - 2] == name[name.len() - 2]);
        } else {
            assert(name =~= seq!['.']);
        }
    }
    assert(trimmed(path) == path);
    lemma_last_segment_of_joined(directory, name);
}

/// The file names of the variants of an image are made of the base name
/// and the identifier alone, whatever the directory: a base name without
/// `/` and an identifier in UUID form give the names `<base>_<id>.jpg` and
/// `<base>_<id>.webp`.
pub proof fn lemma_variant_file_names(directory: Seq<char>, base_name: Seq<char>, id: Seq<char>)
    requires
        has_no_slash(base_name),
        is_uuid_text(id),
    ensures
        file_name_of(variant_paths(directory, base_name, id).jpeg_path) == base_name + "_"@ + id
            + ".jpg"@,
        file_name_of(variant_paths(directory, base_name, id).webp_path) == base_name + "_"@ + id
            + ".webp"@,
{
    reveal_strlit("_");
    reveal_strlit(".jpg");
    reveal_strlit(".webp");
    let jpeg = base_name + "_"@ + id + ".jpg"@;
    let webp = base_name + "_"@ + id + ".webp"@;
    assert forall|i: int| 0 <= i < jpeg.len() implies #[trigger] jpeg[i] != '/' by {
        if i < base_name.len() {
            assert(jpeg[i] == base_name[i]);
        } else if i < base_name.len() + 1 {
        } else if i < base_name.len() + 1 + id.len() {
            assert(jpeg[i] == id[i - base_name.len() - 1]);
            assert(is_uuid_char(id[i - base_name.len() - 1]));
        } else {
            assert(jpeg[i] == ".jpg"@[i - base_name.len() - 1 - id.len()]);
        }
    }
    assert forall|i: int| 0 <= i < webp.len() implies #[trigger] webp[i] != '/' by {
        if i < base_name.len() {
            assert(webp[i] == base_name[i]);
        } else if i < base_name.len() + 1 {
        } else if i < base_name.len() + 1 + id.len() {
            assert(webp[i] == id[i - base_name.len() - 1]);
            assert(is_uuid_char(id[i - base_name.len() - 1]));
        } else {
            assert(webp[i] == ".webp"@[i - base_name.len() - 1 - id.len()]);
        }
    }
    assert(jpeg.len() > 2);
    assert(webp.len() > 2);
    assert(seq!['.'].len() == 1);
    assert(seq!['.', '.'].len() == 2);
    lemma_file_name_of_joined(directory, jpeg);
    lemma_file_name_of_joined(directory, webp);
    assert(variant_paths(directory, base_name, id).jpeg_path =~= directory + "/"@ + jpeg);
    assert(variant_paths(directory, base_name, id).webp_path =~= directory + "/"@ + webp);
}

fn ends_component(chars: &Vec<char>, end: usize) -> (r: bool)
    requires
        end <= chars@.len(),
    ensures
        r == (trimmed(chars@.subrange(0, end as int)) != chars@.subrange(0, end as int)),
        r ==> end > 0 && trimmed(chars@.subrange(0, end as int)) == trimmed(
            chars@.subrange(0, end - 1),
        ),
{
    let ghost prefix = chars@.subrange(0, end as int);
    if end == 0 {
        return false;
    }
    proof {
        assert(prefix.last() == chars@[end - 1]);
        assert(prefix.drop_last() =~= chars@.subrange(0, end - 1));
        lemma_trimmed_is_prefix(prefix.drop_last());
        if end >= 2 {
            assert(prefix[prefix.len() - 2] == chars@[end - 2]);
        }
    }
    if chars[end - 1] == '/' {
        true
    } else if end >= 2 && chars[end - 1] == '.' && chars[end - 2] == '/' {
        true
    } else {
        false
    }
}

/// The file name of a `/`-separated path: its last component, where a `/`
/// and a `.` component at the end are passed over. There is none when the
/// path is empty or the root, when it is `.`, and when it ends in `..`.
pub fn file_name(path: &str) -> (r: Option<String>)
    ensures
        r is Some <==> file_name_of(path@).len() > 0,
        r matches Some(name) ==> name@ == file_name_of(path@),
{
    let chars = to_chars(path);
    let mut end: usize = chars.len();
    assert(chars@.subrange(0, end as int) =~= chars@);
    while ends_component(&chars, end)
        invariant
            end <= chars.len(),
            chars@ == path@,
            trimmed(chars@.subrange(0, end as int)) == trimmed(path@),
        decreases end,
    {
        end -= 1;
    }
    let mut name: Vec<char> = Vec::new();
    let mut i: usize = 0;
    assert(chars@.subrange(0, 0) =~= Seq::<char>::empty());
    while i < end
        invariant
            i <= end,
            end <= chars.len(),
            name@ == last_segment(chars@.subrange(0, i as int)),
        decreases end - i,
    {
        assert(chars@.subrange(0, i + 1).drop_last() =~= chars@.subrange(0, i as int));
        if chars[i] == '/' {
            name = Vec::new();
        } else {
            name.push(chars[i]);
        }
        i += 1;
    }
    assert(name@ == last_segment(trimmed(path@)));
    if name.len() == 0 {
        None
    } else if name.len() == 1 && name[0] == '.' {
        assert(name@ =~= seq!['.']);
        None
    } else if name.len() == 2 && name[0] == '.' && name[1] == '.' {
        assert(name@ =~= seq!['.', '.']);
        None
    } else {
        proof {
            if name@ == seq!['.'] {
                assert(name@.len() == 1 && name@[0] == '.');
            }
            if name@ == seq!['.', '.'] {
                assert(name@.len() == 2 && name@[0] == '.' && name@[1] == '.');
            }
        }
        Some(from_chars(&name))
    }
}

} // verus!
