//! The run of one day against its collaborators: the challenge builds with
//! their retries, the assembly of the day, and its publication.
//!
//! The collaborators are called one after the other. Every decision on the
//! way is taken by the state machines and rules of the other modules.

use crate::ai::AiService;
use crate::cdn::CdnService;
use crate::challenge::keys_under_images;
use crate::challenge::lemma_last_action_ends_build;
use crate::challenge::steps_left;
use crate::challenge::within_limit;
use crate::challenge::trace;
use crate::challenge::BuildAction;
use crate::challenge::BuildActionModel;
use crate::challenge::BuildEventModel;
use crate::challenge::BuildEvent;
use crate::challenge::ChallengeBuilder;
use crate::error::Error;
use crate::error::ErrorModel;
use crate::image::ImageService;
use crate::models::clone_words;
use crate::models::words_model;
use crate::models::Challenge;
use crate::models::ChallengeModel;
use crate::models::WordModel;
use crate::models::Day;
use crate::models::DayModel;
use crate::models::Days;
use crate::models::Word;
use crate::pipeline::assemble_day;
use crate::pipeline::assembled;
use crate::pipeline::outcome_model;
use crate::pipeline::label_of;
use crate::pipeline::Difficulty;
use crate::reconcile::INDEX_KEY;
use crate::retry::RetryOutcome;
use crate::retry::RetryPolicy;
use crate::retry::RetryWrapper;
use crate::run::run_steps_left;
use crate::run::run_trace;
use crate::run::RunActionModel;
use crate::run::RunEventModel;
use crate::run::RunAction;
use crate::run::RunEvent;
use crate::run::RunMachine;
use crate::words::WordSelector;
use crate::words::WordSets;
use vstd::prelude::*;
use vstd::string::StringExecFns;

verus! {

/// The surroundings of a run: the clock, pauses, local files, and the JSON
/// form of the published records. Nothing is known of an implementation.
pub trait Host {
    /// The current local date, as `YYYY-MM-DD`.
    fn today(&mut self) -> String;

    /// Pauses for the given number of seconds.
    fn sleep(&mut self, seconds: u64);

    /// Reads a local file.
    fn read_file(&mut self, path: &str) -> Result<Vec<u8>, Error>;

    /// Writes a local file.
    fn write_file(&mut self, path: &str, contents: &str) -> Result<(), Error>;

    /// The JSON text of a day.
    fn encode_day(&mut self, day: &Day) -> Result<String, Error>;

    /// The JSON text of the day index.
    fn encode_index(&mut self, index: &Days) -> Result<String, Error>;

    /// The day index that a JSON text holds.
    fn decode_index(&mut self, json: &str) -> Result<Days, Error>;
}

/// The collaborators that a run is made with.
pub struct AppServices<A, C, I, H> {
    pub ai: A,
    pub cdn: C,
    pub image: I,
    pub host: H,
    pub word_selector: WordSelector,
}

/// Coordinates AI generation, image processing, and publishing for a day.
pub struct App<A, C, I, H> {
    pub ai: A,
    pub cdn: C,
    pub image: I,
    pub host: H,
    pub word_selector: WordSelector,
    pub output_dir: String,
    pub dry_run: bool,
}

/// The challenge is what a build for the words under the label hands out
/// at its end, for some sequence of answers of the collaborators.
pub open spec fn built_by_machine(
    words: Seq<WordModel>,
    label: Seq<char>,
    challenge: ChallengeModel,
) -> bool {
    exists|events: Seq<BuildEventModel>|
        {
            let end = #[trigger] trace(words, label, events);
            end.0 is Finished && end.1.len() > 0 && end.1.last() == BuildActionModel::Finish(
                challenge,
            )
        }
}

/// The error is what a build for the words under the label fails with,
/// for some sequence of answers of the collaborators.
pub open spec fn failed_by_machine(words: Seq<WordModel>, label: Seq<char>, error: ErrorModel)
    -> bool {
    exists|events: Seq<BuildEventModel>|
        {
            let end = #[trigger] trace(words, label, events);
            end.0 is Failed && end.1.len() > 0 && end.1.last() == BuildActionModel::Fail(error)
        }
}

/// The outcome is what the retried build of the words under the label
/// ends with: a challenge of the words, stored under `images/`, that a
/// build handed out; or the error that a build failed with, tagged with
/// the label.
pub open spec fn retried_outcome(
    words: Seq<WordModel>,
    label: Seq<char>,
    outcome: Result<ChallengeModel, ErrorModel>,
) -> bool {
    match outcome {
        Ok(challenge) => challenge.words == words && "images/"@.is_prefix_of(challenge.image_path)
            && built_by_machine(words, label, challenge),
        Err(error) => error matches ErrorModel::Challenge { difficulty, cause } && difficulty
            == label && failed_by_machine(words, label, *cause),
    }
}

/// Mathematical value of the outcome of generating a day.
pub open spec fn day_outcome(outcome: Result<Day, Error>) -> Result<DayModel, ErrorModel> {
    match outcome {
        Ok(day) => Ok(day@),
        Err(e) => Err(e@),
    }
}

/// The outcome is what the four retried builds of one valid selection from
/// the catalog make: the day of the four challenges when all four builds
/// succeeded, and else the error of the first failed build in the order
/// easy, medium, hard, dreaming.
pub open spec fn day_of_selection(
    selector: WordSelector,
    date: Seq<char>,
    id: u32,
    outcome: Result<DayModel, ErrorModel>,
) -> bool {
    exists|
        sets: WordSets,
        easy: Result<ChallengeModel, ErrorModel>,
        medium: Result<ChallengeModel, ErrorModel>,
        hard: Result<ChallengeModel, ErrorModel>,
        dreaming: Result<ChallengeModel, ErrorModel>,
    |
        #![trigger selector.drawn_from_catalog(&sets), assembled(date, id, easy, medium, hard, dreaming)]
        {
            &&& selector.drawn_from_catalog(&sets)
            &&& sets.has_shape()
            &&& sets.is_unique()
            &&& retried_outcome(words_model(sets.easy@), label_of(Difficulty::Easy), easy)
            &&& retried_outcome(words_model(sets.medium@), label_of(Difficulty::Medium), medium)
            &&& retried_outcome(words_model(sets.hard@), label_of(Difficulty::Hard), hard)
            &&& retried_outcome(
                words_model(sets.dreaming@),
                label_of(Difficulty::Dreaming),
                dreaming,
            )
            &&& outcome == assembled(date, id, easy, medium, hard, dreaming)
        }
}

/// The label is one of the four difficulty labels.
pub open spec fn is_difficulty_label(label: Seq<char>) -> bool {
    label == label_of(Difficulty::Easy) || label == label_of(Difficulty::Medium) || label
        == label_of(Difficulty::Hard) || label == label_of(Difficulty::Dreaming)
}

/// The value of an optional target date.
pub open spec fn target_model(target_date: Option<&str>) -> Option<Seq<char>> {
    match target_date {
        Some(date) => Some(date@),
        None => None,
    }
}

impl<A: AiService, C: CdnService, I: ImageService, H: Host> App<A, C, I, H> {
    /// Build an app from its collaborators. A dry run starts from an empty
    /// day index instead of the published one.
    pub fn with_services(services: AppServices<A, C, I, H>, output_dir: String, dry_run: bool) -> (r:
        Self)
        ensures
            r.ai == services.ai,
            r.cdn == services.cdn,
            r.image == services.image,
            r.host == services.host,
            r.word_selector == services.word_selector,
            r.output_dir == output_dir,
            r.dry_run == dry_run,
    {
        Self {
            ai: services.ai,
            cdn: services.cdn,
            image: services.image,
            host: services.host,
            word_selector: services.word_selector,
            output_dir,
            dry_run,
        }
    }

    /// Run generation for a target date, or for today when none is given:
    /// drives the run state machine to its end, performing each action
    /// against the collaborators.
    ///
    /// The day index is loaded first; when it cannot be loaded the run goes
    /// on with an empty one. The date keeps the id that it has in the index
    /// or gets the next free one. The day is generated and uploaded under
    /// its key, and a local copy is written, whose failure is ignored. The
    /// index is uploaded only when the date was new to it, and the pointer
    /// to the current day only when the date is today's at that moment.
    /// Any other failure ends the run with its error.
    pub fn run(&mut self, target_date: Option<&str>) -> (r: Result<(), Error>)
        ensures
            final(self).word_selector == old(self).word_selector,
            final(self).output_dir == old(self).output_dir,
            final(self).dry_run == old(self).dry_run,
            exists|events: Seq<RunEventModel>|
                {
                    let end = #[trigger] run_trace(
                        old(self).output_dir@,
                        old(self).dry_run,
                        target_model(target_date),
                        events,
                    );
                    match r {
                        Ok(()) => end.0 is Finished && end.1.last() == RunActionModel::Finish,
                        Err(e) => end.0 is Failed && end.1.last() == RunActionModel::Fail(e@),
                    }
                },
    {
        let target: Option<String> = match target_date {
            Some(d) => Some(String::from_str(d)),
            None => None,
        };
        let ghost mut events: Seq<RunEventModel> = Seq::empty();
        let (first_machine, first_action) = RunMachine::begin(
            target,
            self.output_dir.clone(),
            self.dry_run,
        );
        let mut machine = first_machine;
        let mut action = first_action;
        loop
            invariant
                self.word_selector == old(self).word_selector,
                self.output_dir == old(self).output_dir,
                self.dry_run == old(self).dry_run,
                action@ is Finish <==> machine.state() is Finished,
                action@ is Fail <==> machine.state() is Failed,
                machine.output_dir() == old(self).output_dir@,
                machine.dry_run() == old(self).dry_run,
                run_trace(
                    old(self).output_dir@,
                    old(self).dry_run,
                    target_model(target_date),
                    events,
                ).0 == machine.state(),
                run_trace(
                    old(self).output_dir@,
                    old(self).dry_run,
                    target_model(target_date),
                    events,
                ).1.last() == action@,
            decreases run_steps_left(machine.state()),
        {
            let event = match action {
                RunAction::Finish => {
                    return Ok(());
                },
                RunAction::Fail(error) => {
                    return Err(error);
                },
                other => self.perform_run_action(other),
            };
            proof {
                let longer = events.push(event@);
                assert(longer.drop_last() =~= events);
                assert(longer.last() == event@);
                events = longer;
            }
            let (next_machine, next_action) = machine.step(event);
            machine = next_machine;
            action = next_action;
        }
    }

    /// Performs one action of a run against the collaborators and reports
    /// what came back. The two final actions ask for nothing; they are
    /// answered with a failure.
    fn perform_run_action(&mut self, action: RunAction) -> (r: RunEvent)
        ensures
            final(self).word_selector == old(self).word_selector,
            final(self).output_dir == old(self).output_dir,
            final(self).dry_run == old(self).dry_run,
            match action {
                RunAction::AskToday => r is Today,
                RunAction::LoadIndex => r is IndexLoaded || r is Failed,
                RunAction::GenerateDay { .. } => r is DayGenerated || r is Failed,
                RunAction::EncodeDay(_) => r is Encoded || r is Failed,
                RunAction::EncodeIndex(_) => r is Encoded || r is Failed,
                RunAction::Upload { .. } => r is Uploaded || r is Failed,
                RunAction::WriteLocalCopy { .. } => r is LocalCopyWritten || r is Failed,
                RunAction::Finish => r is Failed,
                RunAction::Fail(_) => r is Failed,
            },
    {
        match action {
            RunAction::AskToday => RunEvent::Today(self.host.today()),
            RunAction::LoadIndex => match self.fetch_days() {
                Ok(index) => RunEvent::IndexLoaded(index),
                Err(e) => RunEvent::Failed(e),
            },
            RunAction::GenerateDay { date, id } => match self.generate_day(date.as_str(), id) {
                Ok(day) => RunEvent::DayGenerated(day),
                Err(e) => RunEvent::Failed(e),
            },
            RunAction::EncodeDay(day) => match self.host.encode_day(&day) {
                Ok(json) => RunEvent::Encoded(json),
                Err(e) => RunEvent::Failed(e),
            },
            RunAction::EncodeIndex(index) => match self.host.encode_index(&index) {
                Ok(json) => RunEvent::Encoded(json),
                Err(e) => RunEvent::Failed(e),
            },
            RunAction::Upload { key, body, content_type } => match self.cdn.upload_file(
                key.as_str(),
                body.as_str().as_bytes(),
                content_type.as_str(),
            ) {
                Ok(_) => RunEvent::Uploaded,
                Err(e) => RunEvent::Failed(e),
            },
            RunAction::WriteLocalCopy { path, contents } => match self.host.write_file(
                path.as_str(),
                contents.as_str(),
            ) {
                Ok(()) => RunEvent::LocalCopyWritten,
                Err(e) => RunEvent::Failed(e),
            },
            RunAction::Finish => RunEvent::Failed(
                Error::Invariant(String::from_str("the run has ended")),
            ),
            RunAction::Fail(_) => RunEvent::Failed(
                Error::Invariant(String::from_str("the run has ended")),
            ),
        }
    }

    /// Loads the published day index.
    fn fetch_days(&mut self) -> (r: Result<Days, Error>)
        ensures
            final(self).word_selector == old(self).word_selector,
            final(self).output_dir == old(self).output_dir,
            final(self).dry_run == old(self).dry_run,
    {
        match self.cdn.read_json(INDEX_KEY) {
            Ok(json) => self.host.decode_index(json.as_str()),
            Err(e) => Err(e),
        }
    }

    /// Generates the day: one selection of words, the four challenges, and
    /// the day made of them.
    ///
    /// The day fails exactly when the selection fails or one of the four
    /// builds fails for good; no partial day is made. A failed selection
    /// fails the day before any collaborator is called. The day that is
    /// returned holds a valid selection.
    pub fn generate_day(&mut self, date: &str, id: u32) -> (r: Result<Day, Error>)
        ensures
            final(self).word_selector == old(self).word_selector,
            final(self).output_dir == old(self).output_dir,
            final(self).dry_run == old(self).dry_run,
            match old(self).word_selector.shortfall() {
                Some(t) => r matches Err(e) && e@ == ErrorModel::InsufficientWords(t),
                None => (r matches Err(e) && e@ == ErrorModel::SelectionExhausted)
                    || day_of_selection(old(self).word_selector, date@, id, day_outcome(r)),
            },
            r matches Err(e) ==> match e@ {
                ErrorModel::InsufficientWords(t) => old(self).word_selector.shortfall() == Some(t),
                ErrorModel::SelectionExhausted => old(self).word_selector.shortfall() is None,
                ErrorModel::Challenge { difficulty, cause } => old(self).word_selector.shortfall()
                    is None && is_difficulty_label(difficulty) && day_of_selection(
                    old(self).word_selector,
                    date@,
                    id,
                    day_outcome(r),
                ),
                _ => false,
            },
            (r matches Err(e) && (e@ is InsufficientWords || e@ is SelectionExhausted)) ==> {
                &&& final(self).ai == old(self).ai
                &&& final(self).cdn == old(self).cdn
                &&& final(self).image == old(self).image
                &&& final(self).host == old(self).host
            },
            r matches Ok(day) ==> {
                &&& day.date@ == date@
                &&& day.id == id
                &&& old(self).word_selector.shortfall() is None
                &&& day_of_selection(old(self).word_selector, date@, id, day_outcome(r))
            },
    {
        let sets = match self.word_selector.select_words() {
            Ok(sets) => sets,
            Err(e) => {
                return Err(e);
            },
        };
        let easy = self.create_challenge_with_retry(
            clone_words(&sets.easy),
            Difficulty::Easy.label(),
        );
        let medium = self.create_challenge_with_retry(
            clone_words(&sets.medium),
            Difficulty::Medium.label(),
        );
        let hard = self.create_challenge_with_retry(
            clone_words(&sets.hard),
            Difficulty::Hard.label(),
        );
        let dreaming = self.create_challenge_with_retry(
            clone_words(&sets.dreaming),
            Difficulty::Dreaming.label(),
        );
        let ghost easy_outcome = outcome_model(easy);
        let ghost medium_outcome = outcome_model(medium);
        let ghost hard_outcome = outcome_model(hard);
        let ghost dreaming_outcome = outcome_model(dreaming);
        proof {
            assert(retried_outcome(
                words_model(sets.easy@),
                label_of(Difficulty::Easy),
                easy_outcome,
            ));
            assert(retried_outcome(
                words_model(sets.medium@),
                label_of(Difficulty::Medium),
                medium_outcome,
            ));
            assert(retried_outcome(
                words_model(sets.hard@),
                label_of(Difficulty::Hard),
                hard_outcome,
            ));
            assert(retried_outcome(
                words_model(sets.dreaming@),
                label_of(Difficulty::Dreaming),
                dreaming_outcome,
            ));
        }
        let day = assemble_day(date, id, easy, medium, hard, dreaming);
        proof {
            assert(day_outcome(day) == assembled(
                date@,
                id,
                easy_outcome,
                medium_outcome,
                hard_outcome,
                dreaming_outcome,
            ));
            assert(self.word_selector.drawn_from_catalog(&sets));
            assert(day_of_selection(old(self).word_selector, date@, id, day_outcome(day)));
        }
        day
    }

    /// Builds one challenge, starting over from the prompt after a failed
    /// build, up to the attempts that the challenge policy permits. The
    /// error of the last attempt comes back tagged with the difficulty.
    pub fn create_challenge_with_retry(&mut self, words: Vec<Word>, difficulty: &str) -> (r: Result<
        Challenge,
        Error,
    >)
        ensures
            final(self).word_selector == old(self).word_selector,
            final(self).output_dir == old(self).output_dir,
            final(self).dry_run == old(self).dry_run,
            match r {
                Ok(challenge) => challenge@.words == words_model(words@) && "images/"@.is_prefix_of(
                    challenge@.image_path,
                ) && built_by_machine(words_model(words@), difficulty@, challenge@),
                Err(e) => e@ matches ErrorModel::Challenge { difficulty: label, cause } && label
                    == difficulty@ && failed_by_machine(words_model(words@), difficulty@, *cause),
            },
    {
        let policy = RetryPolicy::for_challenges();
        let mut wrapper = RetryWrapper::new(policy, String::from_str(difficulty));
        loop
            invariant
                self.word_selector == old(self).word_selector,
                self.output_dir == old(self).output_dir,
                self.dry_run == old(self).dry_run,
                wrapper.policy() == policy,
                wrapper.label() == difficulty@,
                wrapper.failures() < policy.max_attempts,
                policy.max_attempts == crate::retry::MAX_BUILD_ATTEMPTS,
            decreases policy.max_attempts - wrapper.failures(),
        {
            let result = self.create_challenge(words.as_slice(), difficulty);
            match wrapper.on_result(result) {
                RetryOutcome::Done(challenge) => {
                    return Ok(challenge);
                },
                RetryOutcome::RetryAfter { seconds } => {
                    self.host.sleep(seconds);
                },
                RetryOutcome::Failed(error) => {
                    return Err(error);
                },
            }
        }
    }

    /// Builds one challenge: drives the build state machine to its end,
    /// performing each action against the collaborators. At most three
    /// images are generated; text in the last one does not fail the build.
    pub fn create_challenge(&mut self, words: &[Word], difficulty: &str) -> (r: Result<
        Challenge,
        Error,
    >)
        ensures
            final(self).word_selector == old(self).word_selector,
            final(self).output_dir == old(self).output_dir,
            final(self).dry_run == old(self).dry_run,
            r matches Ok(challenge) ==> challenge@.words == words_model(words@)
                && "images/"@.is_prefix_of(challenge@.image_path),
            match r {
                Ok(challenge) => built_by_machine(words_model(words@), difficulty@, challenge@),
                Err(e) => failed_by_machine(words_model(words@), difficulty@, e@),
            },
    {
        let mut builder = ChallengeBuilder::new(slice_words(words), String::from_str(difficulty));
        let mut action = builder.start();
        let ghost mut events: Seq<BuildEventModel> = Seq::empty();
        loop
            invariant
                self.word_selector == old(self).word_selector,
                self.output_dir == old(self).output_dir,
                self.dry_run == old(self).dry_run,
                builder.words() == words_model(words@),
                within_limit(builder.state()),
                keys_under_images(builder.state()),
                action@ is Finish <==> builder.state() is Finished,
                action@ is Fail <==> builder.state() is Failed,
                action@ matches BuildActionModel::Finish(c) ==> c.words == words_model(words@)
                    && "images/"@.is_prefix_of(c.image_path),
                builder.difficulty() == difficulty@,
                trace(words_model(words@), difficulty@, events).0 == builder.state(),
                events.len() == 0 ==> action@ is GeneratePrompt,
                events.len() > 0 ==> trace(words_model(words@), difficulty@, events).1.len() > 0
                    && trace(words_model(words@), difficulty@, events).1.last() == action@,
            decreases steps_left(builder.state()),
        {
            let event = match action {
                BuildAction::Finish(challenge) => {
                    return Ok(challenge);
                },
                BuildAction::Fail(error) => {
                    return Err(error);
                },
                other => self.perform(other),
            };
            proof {
                lemma_last_action_ends_build(
                    builder.words(),
                    builder.difficulty(),
                    builder.state(),
                    event@,
                );
                let longer = events.push(event@);
                assert(longer.drop_last() =~= events);
                assert(longer.last() == event@);
                events = longer;
            }
            let (next_builder, next_action) = builder.step(event);
            builder = next_builder;
            action = next_action;
        }
    }

    /// Performs one action of a build against the collaborators and
    /// reports what came back. The two final actions ask for nothing; they
    /// are answered with a failure.
    fn perform(&mut self, action: BuildAction) -> (r: BuildEvent)
        ensures
            final(self).word_selector == old(self).word_selector,
            final(self).output_dir == old(self).output_dir,
            final(self).dry_run == old(self).dry_run,
            match action {
                BuildAction::GeneratePrompt { .. } => r is PromptGenerated || r is Failed,
                BuildAction::GenerateImage { .. } => r is ImageGenerated || r is Failed,
                BuildAction::DetectText { .. } => r is TextChecked || r is Failed,
                BuildAction::Wait { .. } => r is BackoffElapsed,
                BuildAction::ProcessImage { .. } => r is ImageProcessed || r is Failed,
                BuildAction::ReadVariants { .. } => r is VariantsRead || r is Failed,
                BuildAction::Upload { .. } => r is Uploaded || r is Failed,
                BuildAction::Finish(_) => r is Failed,
                BuildAction::Fail(_) => r is Failed,
            },
    {
        match action {
            BuildAction::GeneratePrompt { words } => match self.ai.generate_prompt(
                words.as_slice(),
            ) {
                Ok(prompt) => BuildEvent::PromptGenerated(prompt),
                Err(e) => BuildEvent::Failed(e),
            },
            BuildAction::GenerateImage { prompt, words } => match self.ai.generate_image(
                prompt.as_str(),
                words.as_slice(),
            ) {
                Ok(image) => BuildEvent::ImageGenerated(image),
                Err(e) => BuildEvent::Failed(e),
            },
            BuildAction::DetectText { image } => match self.ai.detect_text(image.as_slice()) {
                Ok(has_text) => BuildEvent::TextChecked(has_text),
                Err(e) => BuildEvent::Failed(e),
            },
            BuildAction::Wait { seconds } => {
                self.host.sleep(seconds);
                BuildEvent::BackoffElapsed
            },
            BuildAction::ProcessImage { image, label } => match self.image.process_image(
                image.as_slice(),
                label.as_str(),
            ) {
                Ok(images) => BuildEvent::ImageProcessed(images),
                Err(e) => BuildEvent::Failed(e),
            },
            BuildAction::ReadVariants { jpeg_path, webp_path } => {
                match self.host.read_file(jpeg_path.as_str()) {
                    Ok(jpeg) => match self.host.read_file(webp_path.as_str()) {
                        Ok(webp) => BuildEvent::VariantsRead { jpeg, webp },
                        Err(e) => BuildEvent::Failed(e),
                    },
                    Err(e) => BuildEvent::Failed(e),
                }
            },
            BuildAction::Upload { key, data, content_type } => match self.cdn.upload_file(
                key.as_str(),
                data.as_slice(),
                content_type.as_str(),
            ) {
                Ok(url) => BuildEvent::Uploaded(url),
                Err(e) => BuildEvent::Failed(e),
            },
            BuildAction::Finish(_) => BuildEvent::Failed(
                Error::Invariant(String::from_str("the build has ended")),
            ),
            BuildAction::Fail(_) => BuildEvent::Failed(
                Error::Invariant(String::from_str("the build has ended")),
            ),
        }
    }
}

fn slice_words(words: &[Word]) -> (r: Vec<Word>)
    ensures
        words_model(r@) == words_model(words@),
{
    let mut out: Vec<Word> = Vec::new();
    let mut i: usize = 0;
    while i < words.len()
        invariant
            i <= words.len(),
            out.len() == i,
            forall|j: int| 0 <= j < i ==> out[j]@ == words[j]@,
        decreases words.len() - i,
    {
        out.push(words[i].clone());
        i += 1;
    }
    assert(words_model(out@) =~= words_model(words@));
    out
}

} // verus!
