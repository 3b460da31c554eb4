//! The fan-out over the four difficulties and the assembly of the day.

use crate::error::Error;
use crate::error::ErrorModel;
use crate::models::Challenge;
use crate::models::ChallengeModel;
use crate::models::Challenges;
use crate::models::ChallengesModel;
use crate::models::Day;
use crate::models::DayModel;
use crate::models::Word;
use crate::models::words_model;
use crate::words::WordSets;
use vstd::prelude::*;
use vstd::string::StringExecFns;

verus! {

/// One of the four fixed tiers of a day.
#[derive(Debug, Clone, Copy, PartialEq, Eq, Structural)]
pub enum Difficulty {
    Easy,
    Medium,
    Hard,
    Dreaming,
}

/// The label of a difficulty.
pub open spec fn label_of(difficulty: Difficulty) -> Seq<char> {
    match difficulty {
        Difficulty::Easy => "easy"@,
        Difficulty::Medium => "medium"@,
        Difficulty::Hard => "hard"@,
        Difficulty::Dreaming => "dreaming"@,
    }
}

impl Difficulty {
    /// The label under which the difficulty is built and published.
    pub fn label(&self) -> (r: &'static str)
        ensures
            r@ == label_of(*self),
    {
        match self {
            Difficulty::Easy => "easy",
            Difficulty::Medium => "medium",
            Difficulty::Hard => "hard",
            Difficulty::Dreaming => "dreaming",
        }
    }
}

/// The work of one day: for each difficulty its label and its words.
#[derive(Debug)]
pub struct BuildPlan {
    pub easy: Vec<Word>,
    pub medium: Vec<Word>,
    pub hard: Vec<Word>,
    pub dreaming: Vec<Word>,
}

impl BuildPlan {
    /// The four builds of a day, one per group of the selection.
    pub fn from_selection(sets: WordSets) -> (r: Self)
        ensures
            words_model(r.easy@) == words_model(sets.easy@),
            words_model(r.medium@) == words_model(sets.medium@),
            words_model(r.hard@) == words_model(sets.hard@),
            words_model(r.dreaming@) == words_model(sets.dreaming@),
    {
        BuildPlan {
            easy: sets.easy,
            medium: sets.medium,
            hard: sets.hard,
            dreaming: sets.dreaming,
        }
    }

    /// The words of one difficulty.
    pub fn words(&self, difficulty: Difficulty) -> (r: &Vec<Word>)
        ensures
            *r == match difficulty {
                Difficulty::Easy => self.easy,
                Difficulty::Medium => self.medium,
                Difficulty::Hard => self.hard,
                Difficulty::Dreaming => self.dreaming,
            },
    {
        match difficulty {
            Difficulty::Easy => &self.easy,
            Difficulty::Medium => &self.medium,
            Difficulty::Hard => &self.hard,
            Difficulty::Dreaming => &self.dreaming,
        }
    }
}

/// Mathematical value of the outcome of one build.
pub open spec fn outcome_model(outcome: Result<Challenge, Error>) -> Result<
    ChallengeModel,
    ErrorModel,
> {
    match outcome {
        Ok(c) => Ok(c@),
        Err(e) => Err(e@),
    }
}

/// The day that four build outcomes make: the day with the four
/// challenges when all builds succeeded, and else the error of the first
/// failed build in the order easy, medium, hard, dreaming.
pub open spec fn assembled(
    date: Seq<char>,
    id: u32,
    easy: Result<ChallengeModel, ErrorModel>,
    medium: Result<ChallengeModel, ErrorModel>,
    hard: Result<ChallengeModel, ErrorModel>,
    dreaming: Result<ChallengeModel, ErrorModel>,
) -> Result<DayModel, ErrorModel> {
    match (easy, medium, hard, dreaming) {
        (Ok(e), Ok(m), Ok(h), Ok(d)) => Ok(
            DayModel {
                date,
                id,
                challenges: ChallengesModel { easy: e, medium: m, hard: h, dreaming: d },
            },
        ),
        (Err(error), _, _, _) => Err(error),
        (_, Err(error), _, _) => Err(error),
        (_, _, Err(error), _) => Err(error),
        (_, _, _, Err(error)) => Err(error),
    }
}

/// Joins the outcomes of the four builds into the day. No partial day is
/// made: one failed build fails the day.
pub fn assemble_day(
    date: &str,
    id: u32,
    easy: Result<Challenge, Error>,
    medium: Result<Challenge, Error>,
    hard: Result<Challenge, Error>,
    dreaming: Result<Challenge, Error>,
) -> (r: Result<Day, Error>)
    ensures
        match r {
            Ok(day) => Ok::<DayModel, ErrorModel>(day@),
            Err(e) => Err::<DayModel, ErrorModel>(e@),
        } == assembled(
            date@,
            id,
            outcome_model(easy),
            outcome_model(medium),
            outcome_model(hard),
            outcome_model(dreaming),
        ),
{
    let easy = match easy {
        Ok(c) => c,
        Err(e) => {
            return Err(e);
        },
    };
    let medium = match medium {
        Ok(c) => c,
        Err(e) => {
            return Err(e);
        },
    };
    let hard = match hard {
        Ok(c) => c,
        Err(e) => {
            return Err(e);
        },
    };
    let dreaming = match dreaming {
        Ok(c) => c,
        Err(e) => {
            return Err(e);
        },
    };
    Ok(Day { date: String::from_str(date), id, challenges: Challenges { easy, medium, hard, dreaming } })
}

} // verus!
