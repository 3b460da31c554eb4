//! The per-challenge build as a state machine: prompt, image, text check
//! with bounded regeneration, post-processing, upload.
//!
//! The machine decides; its driver performs each [`BuildAction`] against
//! the collaborators and reports the outcome as the next [`BuildEvent`].

use crate::error::Error;
use crate::error::ErrorModel;
use crate::image::file_name;
use crate::image::file_name_of;
use crate::image::ProcessedImages;
use crate::image::ProcessedImagesModel;
use crate::models::clone_bytes;
use crate::models::clone_words;
use crate::models::words_model;
use crate::models::Challenge;
use crate::models::ChallengeModel;
use crate::models::Word;
use crate::models::WordModel;
use crate::text::concat;
use vstd::prelude::*;
use vstd::string::StringExecFns;

verus! {

/// How many images are generated for one challenge at most.
pub const MAX_IMAGE_ATTEMPTS: u32 = 3;

/// The pause before an image is generated again, in seconds.
pub const IMAGE_RETRY_DELAY_SECS: u64 = 1;

/// Where a challenge build stands.
#[derive(Debug, PartialEq, Eq)]
pub enum BuildState {
    /// Waiting for the prompt.
    GeneratingPrompt,
    /// Waiting for image number `attempt`.
    GeneratingImage { prompt: String, attempt: u32 },
    /// Waiting for the text check of image number `attempt`.
    CheckingText { prompt: String, image: Vec<u8>, attempt: u32 },
    /// Image number `attempt` held text; waiting for the pause to pass.
    RetryingImage { prompt: String, attempt: u32 },
    /// An image without text was found; waiting for its post-processing.
    Accepted { prompt: String, attempts: u32 },
    /// The last permitted image still held text and is used all the same;
    /// waiting for its post-processing.
    AcceptedWithWarning { prompt: String, attempts: u32 },
    /// Waiting for the bytes of the two stored variants.
    ReadingVariants { prompt: String, images: ProcessedImages },
    /// Waiting for the URL of the uploaded JPEG variant.
    UploadingJpeg { prompt: String, jpeg_key: String, webp_key: String, webp_data: Vec<u8> },
    /// Waiting for the URL of the uploaded WebP variant.
    UploadingWebp { prompt: String, jpeg_key: String, jpeg_url: String },
    /// The challenge was handed out.
    Finished,
    /// The build failed.
    Failed,
}

/// Mathematical value of a [`BuildState`].
pub enum BuildStateModel {
    GeneratingPrompt,
    GeneratingImage { prompt: Seq<char>, attempt: u32 },
    CheckingText { prompt: Seq<char>, image: Seq<u8>, attempt: u32 },
    RetryingImage { prompt: Seq<char>, attempt: u32 },
    Accepted { prompt: Seq<char>, attempts: u32 },
    AcceptedWithWarning { prompt: Seq<char>, attempts: u32 },
    ReadingVariants { prompt: Seq<char>, images: ProcessedImagesModel },
    UploadingJpeg {
        prompt: Seq<char>,
        jpeg_key: Seq<char>,
        webp_key: Seq<char>,
        webp_data: Seq<u8>,
    },
    UploadingWebp { prompt: Seq<char>, jpeg_key: Seq<char>, jpeg_url: Seq<char> },
    Finished,
    Failed,
}

impl View for BuildState {
    type V = BuildStateModel;

    open spec fn view(&self) -> BuildStateModel {
        match self {
            BuildState::GeneratingPrompt => BuildStateModel::GeneratingPrompt,
            BuildState::GeneratingImage { prompt, attempt } => BuildStateModel::GeneratingImage {
                prompt: prompt@,
                attempt: *attempt,
            },
            BuildState::CheckingText { prompt, image, attempt } => BuildStateModel::CheckingText {
                prompt: prompt@,
                image: image@,
                attempt: *attempt,
            },
            BuildState::RetryingImage { prompt, attempt } => BuildStateModel::RetryingImage {
                prompt: prompt@,
                attempt: *attempt,
            },
            BuildState::Accepted { prompt, attempts } => BuildStateModel::Accepted {
                prompt: prompt@,
                attempts: *attempts,
            },
            BuildState::AcceptedWithWarning {
                prompt,
                attempts,
            } => BuildStateModel::AcceptedWithWarning { prompt: prompt@, attempts: *attempts },
            BuildState::ReadingVariants { prompt, images } => BuildStateModel::ReadingVariants {
                prompt: prompt@,
                images: images@,
            },
            BuildState::UploadingJpeg {
                prompt,
                jpeg_key,
                webp_key,
                webp_data,
            } => BuildStateModel::UploadingJpeg {
                prompt: prompt@,
                jpeg_key: jpeg_key@,
                webp_key: webp_key@,
                webp_data: webp_data@,
            },
            BuildState::UploadingWebp { prompt, jpeg_key, jpeg_url } => BuildStateModel::UploadingWebp {
                prompt: prompt@,
                jpeg_key: jpeg_key@,
                jpeg_url: jpeg_url@,
            },
            BuildState::Finished => BuildStateModel::Finished,
            BuildState::Failed => BuildStateModel::Failed,
        }
    }
}

/// What a collaborator reported back.
#[derive(Debug, PartialEq, Eq)]
pub enum BuildEvent {
    /// The prompt generator returned this text.
    PromptGenerated(String),
    /// The image generator returned these bytes.
    ImageGenerated(Vec<u8>),
    /// The text detector answered whether the image holds text.
    TextChecked(bool),
    /// The pause before the next image has passed.
    BackoffElapsed,
    /// The post-processor stored the two variants.
    ImageProcessed(ProcessedImages),
    /// The bytes of the two stored variants.
    VariantsRead { jpeg: Vec<u8>, webp: Vec<u8> },
    /// The store accepted an upload and serves it under this URL.
    Uploaded(String),
    /// The action that was asked for failed.
    Failed(Error),
}

/// Mathematical value of a [`BuildEvent`].
pub enum BuildEventModel {
    PromptGenerated(Seq<char>),
    ImageGenerated(Seq<u8>),
    TextChecked(bool),
    BackoffElapsed,
    ImageProcessed(ProcessedImagesModel),
    VariantsRead { jpeg: Seq<u8>, webp: Seq<u8> },
    Uploaded(Seq<char>),
    Failed(ErrorModel),
}

impl View for BuildEvent {
    type V = BuildEventModel;

    open spec fn view(&self) -> BuildEventModel {
        match self {
            BuildEvent::PromptGenerated(p) => BuildEventModel::PromptGenerated(p@),
            BuildEvent::ImageGenerated(b) => BuildEventModel::ImageGenerated(b@),
            BuildEvent::TextChecked(t) => BuildEventModel::TextChecked(*t),
            BuildEvent::BackoffElapsed => BuildEventModel::BackoffElapsed,
            BuildEvent::ImageProcessed(i) => BuildEventModel::ImageProcessed(i@),
            BuildEvent::VariantsRead { jpeg, webp } => BuildEventModel::VariantsRead {
                jpeg: jpeg@,
                webp: webp@,
            },
            BuildEvent::Uploaded(u) => BuildEventModel::Uploaded(u@),
            BuildEvent::Failed(e) => BuildEventModel::Failed(e@),
        }
    }
}

/// What the driver has to do next.
#[derive(Debug, PartialEq, Eq)]
pub enum BuildAction {
    /// Ask the prompt generator for a scene with these words.
    GeneratePrompt { words: Vec<Word> },
    /// Ask the image generator for an image of the prompt and the words.
    GenerateImage { prompt: String, words: Vec<Word> },
    /// Ask the text detector whether the image holds text.
    DetectText { image: Vec<u8> },
    /// Pause for this many seconds.
    Wait { seconds: u64 },
    /// Ask the post-processor to store the two variants of the image.
    ProcessImage { image: Vec<u8>, label: String },
    /// Read the two stored variants.
    ReadVariants { jpeg_path: String, webp_path: String },
    /// Upload the bytes under the key with the content type.
    Upload { key: String, data: Vec<u8>, content_type: String },
    /// The build is done: this is the challenge.
    Finish(Challenge),
    /// The build failed with this error.
    Fail(Error),
}

/// Mathematical value of a [`BuildAction`].
pub enum BuildActionModel {
    GeneratePrompt { words: Seq<WordModel> },
    GenerateImage { prompt: Seq<char>, words: Seq<WordModel> },
    DetectText { image: Seq<u8> },
    Wait { seconds: u64 },
    ProcessImage { image: Seq<u8>, label: Seq<char> },
    ReadVariants { jpeg_path: Seq<char>, webp_path: Seq<char> },
    Upload { key: Seq<char>, data: Seq<u8>, content_type: Seq<char> },
    Finish(ChallengeModel),
    Fail(ErrorModel),
}

impl View for BuildAction {
    type V = BuildActionModel;

    open spec fn view(&self) -> BuildActionModel {
        match self {
            BuildAction::GeneratePrompt { words } => BuildActionModel::GeneratePrompt {
                words: words_model(words@),
            },
            BuildAction::GenerateImage { prompt, words } => BuildActionModel::GenerateImage {
                prompt: prompt@,
                words: words_model(words@),
            },
            BuildAction::DetectText { image } => BuildActionModel::DetectText { image: image@ },
            BuildAction::Wait { seconds } => BuildActionModel::Wait { seconds: *seconds },
            BuildAction::ProcessImage { image, label } => BuildActionModel::ProcessImage {
                image: image@,
                label: label@,
            },
            BuildAction::ReadVariants { jpeg_path, webp_path } => BuildActionModel::ReadVariants {
                jpeg_path: jpeg_path@,
                webp_path: webp_path@,
            },
            BuildAction::Upload { key, data, content_type } => BuildActionModel::Upload {
                key: key@,
                data: data@,
                content_type: content_type@,
            },
            BuildAction::Finish(c) => BuildActionModel::Finish(c@),
            BuildAction::Fail(e) => BuildActionModel::Fail(e@),
        }
    }
}

/// The storage key of a stored variant: `images/` and its file name.
pub open spec fn image_key(file_name: Seq<char>) -> Seq<char> {
    "images/"@ + file_name
}

/// The answer to an event that the state does not wait for.
pub open spec fn protocol_violation() -> (BuildStateModel, BuildActionModel) {
    (
        BuildStateModel::Failed,
        BuildActionModel::Fail(ErrorModel::Invariant("unexpected event for the build state"@)),
    )
}

/// What follows the text check of image number `attempt`: a clean image is
/// accepted; one with text is generated again after a pause while fewer
/// than [`MAX_IMAGE_ATTEMPTS`] images were made, and is accepted with a
/// warning once that many were.
pub open spec fn after_text_check(
    label: Seq<char>,
    prompt: Seq<char>,
    image: Seq<u8>,
    attempt: u32,
    has_text: bool,
) -> (BuildStateModel, BuildActionModel) {
    if !has_text {
        (
            BuildStateModel::Accepted { prompt, attempts: attempt },
            BuildActionModel::ProcessImage { image, label },
        )
    } else if attempt >= MAX_IMAGE_ATTEMPTS {
        (
            BuildStateModel::AcceptedWithWarning { prompt, attempts: attempt },
            BuildActionModel::ProcessImage { image, label },
        )
    } else {
        (
            BuildStateModel::RetryingImage { prompt, attempt },
            BuildActionModel::Wait { seconds: IMAGE_RETRY_DELAY_SECS },
        )
    }
}

/// What follows the reading of the two variants: the keys are derived from
/// the file names of the stored paths, and the JPEG variant is uploaded
/// first. A path without a file name fails the build.
pub open spec fn after_variants_read(
    prompt: Seq<char>,
    images: ProcessedImagesModel,
    jpeg: Seq<u8>,
    webp: Seq<u8>,
) -> (BuildStateModel, BuildActionModel) {
    if file_name_of(images.jpeg_path).len() == 0 {
        (
            BuildStateModel::Failed,
            BuildActionModel::Fail(
                ErrorModel::Invariant("Invalid JPEG output path: "@ + images.jpeg_path),
            ),
        )
    } else if file_name_of(images.webp_path).len() == 0 {
        (
            BuildStateModel::Failed,
            BuildActionModel::Fail(
                ErrorModel::Invariant("Invalid WebP output path: "@ + images.webp_path),
            ),
        )
    } else {
        (
            BuildStateModel::UploadingJpeg {
                prompt,
                jpeg_key: image_key(file_name_of(images.jpeg_path)),
                webp_key: image_key(file_name_of(images.webp_path)),
                webp_data: webp,
            },
            BuildActionModel::Upload {
                key: image_key(file_name_of(images.jpeg_path)),
                data: jpeg,
                content_type: "image/jpeg"@,
            },
        )
    }
}

/// The transition function of the build: the state and the action that
/// follow when `event` arrives in `state`.
///
/// A failure reported in a state that waits for an answer ends the build
/// with that error. An event that the state does not wait for, and any
/// event after the end, ends it with an invariant error.
pub open spec fn next(
    words: Seq<WordModel>,
    label: Seq<char>,
    state: BuildStateModel,
    event: BuildEventModel,
) -> (BuildStateModel, BuildActionModel) {
    match state {
        BuildStateModel::Finished | BuildStateModel::Failed => protocol_violation(),
        _ => match event {
            BuildEventModel::Failed(error) => (
                BuildStateModel::Failed,
                BuildActionModel::Fail(error),
            ),
            _ => match (state, event) {
                (BuildStateModel::GeneratingPrompt, BuildEventModel::PromptGenerated(prompt)) => (
                    BuildStateModel::GeneratingImage { prompt, attempt: 1 },
                    BuildActionModel::GenerateImage { prompt, words },
                ),
                (
                    BuildStateModel::GeneratingImage { prompt, attempt },
                    BuildEventModel::ImageGenerated(image),
                ) => (
                    BuildStateModel::CheckingText { prompt, image, attempt },
                    BuildActionModel::DetectText { image },
                ),
                (
                    BuildStateModel::CheckingText { prompt, image, attempt },
                    BuildEventModel::TextChecked(has_text),
                ) => after_text_check(label, prompt, image, attempt, has_text),
                (
                    BuildStateModel::RetryingImage { prompt, attempt },
                    BuildEventModel::BackoffElapsed,
                ) => if attempt < MAX_IMAGE_ATTEMPTS {
                    (
                        BuildStateModel::GeneratingImage { prompt, attempt: (attempt + 1) as u32 },
                        BuildActionModel::GenerateImage { prompt, words },
                    )
                } else {
                    protocol_violation()
                },
                (
                    BuildStateModel::Accepted { prompt, attempts },
                    BuildEventModel::ImageProcessed(images),
                ) => (
                    BuildStateModel::ReadingVariants { prompt, images },
                    BuildActionModel::ReadVariants {
                        jpeg_path: images.jpeg_path,
                        webp_path: images.webp_path,
                    },
                ),
                (
                    BuildStateModel::AcceptedWithWarning { prompt, attempts },
                    BuildEventModel::ImageProcessed(images),
                ) => (
                    BuildStateModel::ReadingVariants { prompt, images },
                    BuildActionModel::ReadVariants {
                        jpeg_path: images.jpeg_path,
                        webp_path: images.webp_path,
                    },
                ),
                (
                    BuildStateModel::ReadingVariants { prompt, images },
                    BuildEventModel::VariantsRead { jpeg, webp },
                ) => after_variants_read(prompt, images, jpeg, webp),
                (
                    BuildStateModel::UploadingJpeg { prompt, jpeg_key, webp_key, webp_data },
                    BuildEventModel::Uploaded(url),
                ) => (
                    BuildStateModel::UploadingWebp { prompt, jpeg_key, jpeg_url: url },
                    BuildActionModel::Upload {
                        key: webp_key,
                        data: webp_data,
                        content_type: "image/webp"@,
                    },
                ),
                (
                    BuildStateModel::UploadingWebp { prompt, jpeg_key, jpeg_url },
                    BuildEventModel::Uploaded(url),
                ) => (
                    BuildStateModel::Finished,
                    BuildActionModel::Finish(
                        ChallengeModel {
                            words,
                            image_path: jpeg_key,
                            image_url_jpg: jpeg_url,
                            image_url_webp: url,
                            prompt,
                        },
                    ),
                ),
                _ => protocol_violation(),
            },
        },
    }
}

/// The number of images asked for so far in a state.
pub open spec fn images_requested(state: BuildStateModel) -> Option<u32> {
    match state {
        BuildStateModel::GeneratingPrompt => Some(0u32),
        BuildStateModel::GeneratingImage { attempt, .. } => Some(attempt),
        BuildStateModel::CheckingText { attempt, .. } => Some(attempt),
        BuildStateModel::RetryingImage { attempt, .. } => Some(attempt),
        BuildStateModel::Accepted { attempts, .. } => Some(attempts),
        BuildStateModel::AcceptedWithWarning { attempts, .. } => Some(attempts),
        _ => None,
    }
}

/// The state respects the attempt limit: between one and
/// [`MAX_IMAGE_ATTEMPTS`] images were asked for once the prompt is there,
/// a pause is only taken while another image may follow, and a warning is
/// only given for the last permitted image.
pub open spec fn within_limit(state: BuildStateModel) -> bool {
    match state {
        BuildStateModel::GeneratingImage { attempt, .. } => 1 <= attempt <= MAX_IMAGE_ATTEMPTS,
        BuildStateModel::CheckingText { attempt, .. } => 1 <= attempt <= MAX_IMAGE_ATTEMPTS,
        BuildStateModel::RetryingImage { attempt, .. } => 1 <= attempt < MAX_IMAGE_ATTEMPTS,
        BuildStateModel::Accepted { attempts, .. } => 1 <= attempts <= MAX_IMAGE_ATTEMPTS,
        BuildStateModel::AcceptedWithWarning { attempts, .. } => attempts == MAX_IMAGE_ATTEMPTS,
        _ => true,
    }
}

/// The largest number of events that a build can still take in a state
/// that respects the attempt limit.
pub open spec fn steps_left(state: BuildStateModel) -> nat {
    match state {
        BuildStateModel::GeneratingPrompt => 13,
        BuildStateModel::GeneratingImage { attempt, .. } => (6 + 3 * attempts_left(attempt)) as nat,
        BuildStateModel::CheckingText { attempt, .. } => (5 + 3 * attempts_left(attempt)) as nat,
        BuildStateModel::RetryingImage { attempt, .. } => (4 + 3 * attempts_left(attempt)) as nat,
        BuildStateModel::Accepted { .. } => 4,
        BuildStateModel::AcceptedWithWarning { .. } => 4,
        BuildStateModel::ReadingVariants { .. } => 3,
        BuildStateModel::UploadingJpeg { .. } => 2,
        BuildStateModel::UploadingWebp { .. } => 1,
        BuildStateModel::Finished => 0,
        BuildStateModel::Failed => 0,
    }
}

/// How many more images may be asked for after image number `attempt`.
pub open spec fn attempts_left(attempt: u32) -> int {
    if attempt <= MAX_IMAGE_ATTEMPTS {
        MAX_IMAGE_ATTEMPTS - attempt
    } else {
        0
    }
}

/// The build has ended.
pub open spec fn is_over(state: BuildStateModel) -> bool {
    state is Finished || state is Failed
}

/// The storage keys held in the state lie under `images/`.
pub open spec fn keys_under_images(state: BuildStateModel) -> bool {
    match state {
        BuildStateModel::UploadingJpeg { jpeg_key, webp_key, .. } => "images/"@.is_prefix_of(
            jpeg_key,
        ) && "images/"@.is_prefix_of(webp_key),
        BuildStateModel::UploadingWebp { jpeg_key, .. } => "images/"@.is_prefix_of(jpeg_key),
        _ => true,
    }
}

/// Every build ends. Whatever the collaborators answer, each event in a
/// state that respects the attempt limit leads to a state that respects
/// it and has fewer events left; so a build takes at most thirteen events
/// and asks for at most [`MAX_IMAGE_ATTEMPTS`] images.
pub proof fn lemma_build_ends(
    words: Seq<WordModel>,
    label: Seq<char>,
    state: BuildStateModel,
    event: BuildEventModel,
)
    requires
        within_limit(state),
    ensures
        within_limit(next(words, label, state, event).0),
        !is_over(state) ==> steps_left(next(words, label, state, event).0) < steps_left(state),
        steps_left(state) <= 13,
        images_requested(next(words, label, state, event).0) matches Some(n) ==> n
            <= MAX_IMAGE_ATTEMPTS,
{
}

/// The answer tells whether the build has ended: the challenge is handed
/// out exactly on entering `Finished`, and an error exactly on entering
/// `Failed`.
pub proof fn lemma_last_action_ends_build(
    words: Seq<WordModel>,
    label: Seq<char>,
    state: BuildStateModel,
    event: BuildEventModel,
)
    ensures
        next(words, label, state, event).1 is Finish <==> next(words, label, state, event).0
            is Finished,
        next(words, label, state, event).1 is Fail <==> next(words, label, state, event).0
            is Failed,
        next(words, label, state, event).1 matches BuildActionModel::Finish(challenge)
            ==> challenge.words == words && (keys_under_images(state) ==> "images/"@.is_prefix_of(
            challenge.image_path,
        )),
        keys_under_images(state) ==> keys_under_images(next(words, label, state, event).0),
{
    let after = next(words, label, state, event);
    match after.0 {
        BuildStateModel::UploadingJpeg { jpeg_key, webp_key, .. } => {
            match state {
                BuildStateModel::ReadingVariants { images, .. } => {
                    assert("images/"@.is_prefix_of(image_key(file_name_of(images.jpeg_path))));
                    assert("images/"@.is_prefix_of(image_key(file_name_of(images.webp_path))));
                },
                _ => {},
            }
        },
        _ => {},
    }
}

/// Text in an image never fails a build. The answer to a text check is
/// never an error: a clean image is accepted, an image with text is made
/// again while the limit permits, and the last permitted image is accepted
/// with a warning.
pub proof fn lemma_text_never_fails_build(
    words: Seq<WordModel>,
    label: Seq<char>,
    prompt: Seq<char>,
    image: Seq<u8>,
    attempt: u32,
    has_text: bool,
)
    ensures
        ({
            let after = next(
                words,
                label,
                BuildStateModel::CheckingText { prompt, image, attempt },
                BuildEventModel::TextChecked(has_text),
            );
            &&& !(after.1 is Fail)
            &&& !(after.0 is Failed)
            &&& !has_text ==> after.0 == (BuildStateModel::Accepted { prompt, attempts: attempt })
                && after.1 == (BuildActionModel::ProcessImage { image, label })
            &&& has_text && attempt >= MAX_IMAGE_ATTEMPTS ==> after.0
                == (BuildStateModel::AcceptedWithWarning { prompt, attempts: attempt })
                && after.1 == (BuildActionModel::ProcessImage { image, label })
            &&& has_text && attempt < MAX_IMAGE_ATTEMPTS ==> after.0
                == (BuildStateModel::RetryingImage { prompt, attempt }) && after.1
                == (BuildActionModel::Wait { seconds: IMAGE_RETRY_DELAY_SECS })
        }),
{
}

/// The state that a build is in after the events, and the actions that
/// it answered them with, the first action of the build left aside.
pub open spec fn trace(words: Seq<WordModel>, label: Seq<char>, events: Seq<BuildEventModel>) -> (
    BuildStateModel,
    Seq<BuildActionModel>,
)
    decreases events.len(),
{
    if events.len() == 0 {
        (BuildStateModel::GeneratingPrompt, Seq::empty())
    } else {
        let before = trace(words, label, events.drop_last());
        let step = next(words, label, before.0, events.last());
        (step.0, before.1.push(step.1))
    }
}

/// How many of the actions ask for an image.
pub open spec fn image_requests(actions: Seq<BuildActionModel>) -> nat
    decreases actions.len(),
{
    if actions.len() == 0 {
        0
    } else {
        image_requests(actions.drop_last()) + if actions.last() is GenerateImage {
            1nat
        } else {
            0nat
        }
    }
}

/// How many of the actions ask for a text check.
pub open spec fn text_checks(actions: Seq<BuildActionModel>) -> nat
    decreases actions.len(),
{
    if actions.len() == 0 {
        0
    } else {
        text_checks(actions.drop_last()) + if actions.last() is DetectText {
            1nat
        } else {
            0nat
        }
    }
}

/// The calls made so far agree with the state: image number `attempt` is
/// the `attempt`-th image asked for, and every image but one that is still
/// awaited was checked for text once.
pub open spec fn calls_agree(state: BuildStateModel, actions: Seq<BuildActionModel>) -> bool {
    match state {
        BuildStateModel::GeneratingPrompt => image_requests(actions) == 0 && text_checks(actions)
            == 0,
        BuildStateModel::GeneratingImage { attempt, .. } => image_requests(actions) == attempt
            && text_checks(actions) + 1 == attempt,
        BuildStateModel::CheckingText { attempt, .. } => image_requests(actions) == attempt
            && text_checks(actions) == attempt,
        BuildStateModel::RetryingImage { attempt, .. } => image_requests(actions) == attempt
            && text_checks(actions) == attempt,
        BuildStateModel::Accepted { attempts, .. } => image_requests(actions) == attempts
            && text_checks(actions) == attempts,
        BuildStateModel::AcceptedWithWarning { attempts, .. } => image_requests(actions)
            == attempts && text_checks(actions) == attempts,
        _ => text_checks(actions) <= image_requests(actions) <= MAX_IMAGE_ATTEMPTS,
    }
}

/// The retry bound of a build. Whatever events arrive, a build asks for
/// at most [`MAX_IMAGE_ATTEMPTS`] images and checks none of them twice.
/// When it accepts an image as number `n`, it has asked for exactly `n`
/// images and exactly `n` text checks; with a warning, `n` is the limit.
pub proof fn lemma_calls_are_bounded(
    words: Seq<WordModel>,
    label: Seq<char>,
    events: Seq<BuildEventModel>,
)
    ensures
        within_limit(trace(words, label, events).0),
        calls_agree(trace(words, label, events).0, trace(words, label, events).1),
        text_checks(trace(words, label, events).1) <= image_requests(
            trace(words, label, events).1,
        ) <= MAX_IMAGE_ATTEMPTS,
        trace(words, label, events).0 matches BuildStateModel::Accepted { attempts, .. }
            ==> image_requests(trace(words, label, events).1) == attempts && text_checks(
            trace(words, label, events).1,
        ) == attempts,
        trace(words, label, events).0 matches BuildStateModel::AcceptedWithWarning { attempts, .. }
            ==> attempts == MAX_IMAGE_ATTEMPTS && image_requests(trace(words, label, events).1)
            == MAX_IMAGE_ATTEMPTS && text_checks(trace(words, label, events).1)
            == MAX_IMAGE_ATTEMPTS,
    decreases events.len(),
{
    if events.len() > 0 {
        lemma_calls_are_bounded(words, label, events.drop_last());
        let before = trace(words, label, events.drop_last());
        let step = next(words, label, before.0, events.last());
        let actions = before.1.push(step.1);
        assert(actions.drop_last() =~= before.1);
        assert(actions.last() == step.1);
    }
}

fn violation() -> (r: (BuildState, BuildAction))
    ensures
        (r.0@, r.1@) == protocol_violation(),
{
    (
        BuildState::Failed,
        BuildAction::Fail(Error::Invariant(String::from_str("unexpected event for the build state"))),
    )
}

/// One challenge under construction.
#[derive(Debug)]
pub struct ChallengeBuilder {
    words: Vec<Word>,
    difficulty: String,
    state: BuildState,
}

impl ChallengeBuilder {
    /// The words of the challenge.
    pub closed spec fn words(&self) -> Seq<WordModel> {
        words_model(self.words@)
    }

    /// The label of the difficulty.
    pub closed spec fn difficulty(&self) -> Seq<char> {
        self.difficulty@
    }

    /// Where the build stands.
    pub closed spec fn state(&self) -> BuildStateModel {
        self.state@
    }

    /// A build that waits for its prompt.
    pub fn new(words: Vec<Word>, difficulty: String) -> (r: Self)
        ensures
            r.words() == words_model(words@),
            r.difficulty() == difficulty@,
            r.state() == BuildStateModel::GeneratingPrompt,
    {
        ChallengeBuilder { words, difficulty, state: BuildState::GeneratingPrompt }
    }

    /// The first action of every build: generate the prompt.
    pub fn start(&self) -> (r: BuildAction)
        ensures
            r@ == (BuildActionModel::GeneratePrompt { words: self.words() }),
    {
        BuildAction::GeneratePrompt { words: clone_words(&self.words) }
    }

    /// Where the build stands.
    pub fn current_state(&self) -> (r: &BuildState)
        ensures
            r@ == self.state(),
    {
        &self.state
    }

    /// Whether the build has ended, with a challenge or with a failure.
    pub fn is_done(&self) -> (r: bool)
        ensures
            r == (self.state() is Finished || self.state() is Failed),
    {
        match &self.state {
            BuildState::Finished => true,
            BuildState::Failed => true,
            _ => false,
        }
    }

    /// Takes the outcome of the last action and answers with the next one.
    pub fn step(self, event: BuildEvent) -> (r: (Self, BuildAction))
        ensures
            r.0.words() == self.words(),
            r.0.difficulty() == self.difficulty(),
            (r.0.state(), r.1@) == next(self.words(), self.difficulty(), self.state(), event@),
            within_limit(self.state()) ==> within_limit(r.0.state()),
            within_limit(self.state()) && !is_over(self.state()) ==> steps_left(r.0.state())
                < steps_left(self.state()),
    {
        proof {
            if within_limit(self.state()) {
                lemma_build_ends(self.words(), self.difficulty(), self.state(), event@);
            }
        }
        let words = self.words;
        let difficulty = self.difficulty;
        let (state, action) = match self.state {
            BuildState::Finished => violation(),
            BuildState::Failed => violation(),
            state => match event {
                BuildEvent::Failed(error) => (BuildState::Failed, BuildAction::Fail(error)),
                event => match (state, event) {
                    (BuildState::GeneratingPrompt, BuildEvent::PromptGenerated(prompt)) => {
                        let action = BuildAction::GenerateImage {
                            prompt: prompt.clone(),
                            words: clone_words(&words),
                        };
                        (BuildState::GeneratingImage { prompt, attempt: 1 }, action)
                    },
                    (
                        BuildState::GeneratingImage { prompt, attempt },
                        BuildEvent::ImageGenerated(image),
                    ) => {
                        let action = BuildAction::DetectText { image: clone_bytes(&image) };
                        (BuildState::CheckingText { prompt, image, attempt }, action)
                    },
                    (
                        BuildState::CheckingText { prompt, image, attempt },
                        BuildEvent::TextChecked(has_text),
                    ) => {
                        if !has_text {
                            (
                                BuildState::Accepted { prompt, attempts: attempt },
                                BuildAction::ProcessImage { image, label: difficulty.clone() },
                            )
                        } else if attempt >= MAX_IMAGE_ATTEMPTS {
                            (
                                BuildState::AcceptedWithWarning { prompt, attempts: attempt },
                                BuildAction::ProcessImage { image, label: difficulty.clone() },
                            )
                        } else {
                            (
                                BuildState::RetryingImage { prompt, attempt },
                                BuildAction::Wait { seconds: IMAGE_RETRY_DELAY_SECS },
                            )
                        }
                    },
                    (BuildState::RetryingImage { prompt, attempt }, BuildEvent::BackoffElapsed) => {
                        if attempt < MAX_IMAGE_ATTEMPTS {
                            let action = BuildAction::GenerateImage {
                                prompt: prompt.clone(),
                                words: clone_words(&words),
                            };
                            (BuildState::GeneratingImage { prompt, attempt: attempt + 1 }, action)
                        } else {
                            violation()
                        }
                    },
                    (BuildState::Accepted { prompt, attempts }, BuildEvent::ImageProcessed(images)) => {
                        let action = BuildAction::ReadVariants {
                            jpeg_path: images.jpeg_path.clone(),
                            webp_path: images.webp_path.clone(),
                        };
                        (BuildState::ReadingVariants { prompt, images }, action)
                    },
                    (
                        BuildState::AcceptedWithWarning { prompt, attempts },
                        BuildEvent::ImageProcessed(images),
                    ) => {
                        let action = BuildAction::ReadVariants {
                            jpeg_path: images.jpeg_path.clone(),
                            webp_path: images.webp_path.clone(),
                        };
                        (BuildState::ReadingVariants { prompt, images }, action)
                    },
                    (
                        BuildState::ReadingVariants { prompt, images },
                        BuildEvent::VariantsRead { jpeg, webp },
                    ) => {
                        match file_name(images.jpeg_path.as_str()) {
                            None => (
                                BuildState::Failed,
                                BuildAction::Fail(
                                    Error::Invariant(
                                        concat(
                                            "Invalid JPEG output path: ",
                                            images.jpeg_path.as_str(),
                                        ),
                                    ),
                                ),
                            ),
                            Some(jpeg_name) => match file_name(images.webp_path.as_str()) {
                                None => (
                                    BuildState::Failed,
                                    BuildAction::Fail(
                                        Error::Invariant(
                                            concat(
                                                "Invalid WebP output path: ",
                                                images.webp_path.as_str(),
                                            ),
                                        ),
                                    ),
                                ),
                                Some(webp_name) => {
                                    let jpeg_key = concat("images/", jpeg_name.as_str());
                                    let webp_key = concat("images/", webp_name.as_str());
                                    let action = BuildAction::Upload {
                                        key: jpeg_key.clone(),
                                        data: jpeg,
                                        content_type: String::from_str("image/jpeg"),
                                    };
                                    (
                                        BuildState::UploadingJpeg {
                                            prompt,
                                            jpeg_key,
                                            webp_key,
                                            webp_data: webp,
                                        },
                                        action,
                                    )
                                },
                            },
                        }
                    },
                    (
                        BuildState::UploadingJpeg { prompt, jpeg_key, webp_key, webp_data },
                        BuildEvent::Uploaded(url),
                    ) => (
                        BuildState::UploadingWebp { prompt, jpeg_key, jpeg_url: url },
                        BuildAction::Upload {
                            key: webp_key,
                            data: webp_data,
                            content_type: String::from_str("image/webp"),
                        },
                    ),
                    (
                        BuildState::UploadingWebp { prompt, jpeg_key, jpeg_url },
                        BuildEvent::Uploaded(url),
                    ) => (
                        BuildState::Finished,
                        BuildAction::Finish(
                            Challenge::new(clone_words(&words), jpeg_key, jpeg_url, url, prompt),
                        ),
                    ),
                    _ => violation(),
                },
            },
        };
        (ChallengeBuilder { words, difficulty, state }, action)
    }
}

} // verus!
