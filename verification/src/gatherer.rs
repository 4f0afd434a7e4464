//! Gathering the records of all files under a directory: which entries are
//! read, in which way, and what becomes of the outcomes.

use vstd::prelude::*;
use vstd::string::StringExecFns;

use crate::audio::{Audio, AudioView};
use crate::parser::error::{AudioParserError, AudioParserResult};
use crate::parser::resilient_audio_parser::{
    lemma_complete_attempt_ends_the_work, lemma_failed_reader_is_skipped, plan, resolve,
    ParseSession, ParseStep, ParserKind, Plan, ResilientAudioParser,
};
use crate::parser::{assemble, assemble_spec, record_view, AudioEntry, ParsedAudioTry};

verus! {

/// A place that audio records can be gathered from.
pub trait AudioGathererRepository {
    /// Why nothing could be gathered at all.
    type Error;

    /// All the records of the place, in no particular order.
    fn gather(&self) -> Result<Vec<Audio>, Self::Error>;
}

/// The way in which each file is read.
#[derive(Debug, Clone, Copy, PartialEq, Eq, Structural, Hash)]
pub enum ParsingStrategy {
    /// The embedded tags alone.
    Audiotags,
    /// The probing tool alone.
    Ffmpeg,
    /// The embedded tags, and the probing tool for what they leave open.
    Resilient,
}

/// The files under one directory, each read in the same way.
#[derive(Debug, PartialEq, Eq)]
pub struct FilesystemAudioGathererRepository {
    /// The directory at the root of the tree.
    pub path: String,
    /// How each file is read.
    pub strategy: ParsingStrategy,
}

/// Why nothing could be gathered from a tree.
#[derive(Debug, PartialEq, Eq)]
pub enum FilesystemAudioGathererRepositoryError {
    /// The directory at the root could not be read; this is what the walk
    /// reported.
    IO(String),
    /// A file could not be read.
    AudioParser(AudioParserError),
}

impl FilesystemAudioGathererRepositoryError {
    /// The error in words.
    pub open spec fn message_spec(self) -> Seq<char> {
        match self {
            FilesystemAudioGathererRepositoryError::IO(report) => "Failed to read directory: "@
                + report@,
            FilesystemAudioGathererRepositoryError::AudioParser(error) => "Failed to parse audio: "@
                + error.message_spec(),
        }
    }

    /// The error in words.
    pub fn message(&self) -> (result: String)
        ensures
            result@ == self.message_spec(),
    {
        match self {
            FilesystemAudioGathererRepositoryError::IO(report) => {
                let mut text = "Failed to read directory: ".to_owned();
                text.append(report.as_str());
                text
            },
            FilesystemAudioGathererRepositoryError::AudioParser(error) => {
                let mut text = "Failed to parse audio: ".to_owned();
                let cause = error.message();
                text.append(cause.as_str());
                text
            },
        }
    }
}

/// An entry that the walk through the tree could not reach.
#[derive(Debug, PartialEq, Eq)]
pub struct WalkError {
    /// How far below the root the entry lies; the root itself is at depth 0.
    pub depth: usize,
    /// What the walk reported.
    pub report: String,
}

/// What came of a run over a tree: the records of the files that could be
/// read, and for each file that could not, the reason.
#[derive(Debug)]
pub struct Gathered {
    pub audios: Vec<Audio>,
    pub failures: Vec<AudioParserError>,
}

/// The first failure of the walk at the root itself, if there is one.
pub open spec fn root_failure(walked: Seq<Result<AudioEntry, WalkError>>) -> Option<WalkError>
    decreases walked.len(),
{
    if walked.len() == 0 {
        None
    } else {
        match walked[0] {
            Err(error) if error.depth == 0 => Some(error),
            _ => root_failure(walked.skip(1)),
        }
    }
}

/// The entries that the walk reached and that are files, in their order.
pub open spec fn files_of(walked: Seq<Result<AudioEntry, WalkError>>) -> Seq<AudioEntry>
    decreases walked.len(),
{
    if walked.len() == 0 {
        Seq::empty()
    } else {
        match walked[0] {
            Ok(entry) if entry.is_file => seq![entry] + files_of(walked.skip(1)),
            _ => files_of(walked.skip(1)),
        }
    }
}

/// What a walk gives to read: nothing at all where the root itself could not
/// be read; else the files it reached, whatever it failed on further down.
pub open spec fn select_spec(walked: Seq<Result<AudioEntry, WalkError>>) -> Result<
    Seq<AudioEntry>,
    FilesystemAudioGathererRepositoryError,
> {
    match root_failure(walked) {
        Some(error) => Err(FilesystemAudioGathererRepositoryError::IO(error.report)),
        None => Ok(files_of(walked)),
    }
}

/// The records among the outcomes, in their order.
pub open spec fn records_of(outcomes: Seq<Result<Audio, AudioParserError>>) -> Seq<Audio>
    decreases outcomes.len(),
{
    if outcomes.len() == 0 {
        Seq::empty()
    } else {
        match outcomes.last() {
            Ok(audio) => records_of(outcomes.drop_last()).push(audio),
            Err(_) => records_of(outcomes.drop_last()),
        }
    }
}

/// The errors among the outcomes, in their order.
pub open spec fn failures_of(outcomes: Seq<Result<Audio, AudioParserError>>) -> Seq<
    AudioParserError,
>
    decreases outcomes.len(),
{
    if outcomes.len() == 0 {
        Seq::empty()
    } else {
        match outcomes.last() {
            Ok(_) => failures_of(outcomes.drop_last()),
            Err(error) => failures_of(outcomes.drop_last()).push(error),
        }
    }
}

/// Every outcome is kept on one side or the other: there are as many records
/// as files that were read, and as many errors as files that were not.
pub proof fn lemma_every_outcome_counts(outcomes: Seq<Result<Audio, AudioParserError>>)
    ensures
        records_of(outcomes).len() == outcomes.filter(
            |outcome: Result<Audio, AudioParserError>| outcome is Ok,
        ).len(),
        failures_of(outcomes).len() == outcomes.filter(
            |outcome: Result<Audio, AudioParserError>| outcome is Err,
        ).len(),
        records_of(outcomes).len() + failures_of(outcomes).len() == outcomes.len(),
    decreases outcomes.len(),
{
    let read = |outcome: Result<Audio, AudioParserError>| outcome is Ok;
    let unread = |outcome: Result<Audio, AudioParserError>| outcome is Err;
    reveal(Seq::filter);
    if outcomes.len() > 0 {
        lemma_every_outcome_counts(outcomes.drop_last());
    }
}

impl FilesystemAudioGathererRepository {
    /// The files under `path`, each read as `strategy` says.
    pub fn new(path: &str, strategy: ParsingStrategy) -> (result: Self)
        ensures
            result.path@ == path@,
            result.strategy == strategy,
    {
        FilesystemAudioGathererRepository { path: path.to_owned(), strategy }
    }

    /// Whether an entry of the tree is read: files are, directories and
    /// whatever else the tree holds are not.
    pub fn wants(&self, entry: &AudioEntry) -> (result: bool)
        ensures
            result == entry.is_file,
    {
        entry.is_file
    }

    /// The entries of the tree that are read, out of all that the walk came
    /// upon.
    pub fn select(&self, walked: Vec<Result<AudioEntry, WalkError>>) -> (result: Result<
        Vec<AudioEntry>,
        FilesystemAudioGathererRepositoryError,
    >)
        ensures
            match select_spec(walked@) {
                Ok(files) => result matches Ok(selected) && selected@ == files,
                Err(error) => result == Err::<
                    Vec<AudioEntry>,
                    FilesystemAudioGathererRepositoryError,
                >(error),
            },
    {
        let mut files: Vec<AudioEntry> = Vec::new();
        let ghost all = walked@;
        proof {
            assert(all.skip(0) =~= all);
            assert(Seq::<AudioEntry>::empty() + files_of(all) =~= files_of(all));
        }
        for found in iter: walked
            invariant
                iter.seq() == all,
                root_failure(all) == root_failure(all.skip(iter.index() as int)),
                files_of(all) == files@ + files_of(all.skip(iter.index() as int)),
        {
            proof {
                let rest = all.skip(iter.index() as int);
                assert(rest[0] == found);
                assert(rest.skip(1) =~= all.skip(iter.index() + 1));
            }
            let ghost before = files@;
            match found {
                Ok(entry) => {
                    if self.wants(&entry) {
                        files.push(entry);
                        assert(before.push(entry) + files_of(all.skip(iter.index() + 1)) =~= before
                            + (seq![entry] + files_of(all.skip(iter.index() + 1))));
                    }
                },
                Err(error) => {
                    if error.depth == 0 {
                        return Err(FilesystemAudioGathererRepositoryError::IO(error.report));
                    }
                },
            }
        }
        assert(all.skip(all.len() as int) =~= Seq::empty());
        assert(files@ + Seq::<AudioEntry>::empty() =~= files@);
        Ok(files)
    }

    /// Sorts the outcomes of the files that were read: the records are kept,
    /// and a file that could not be read leaves its error and nothing else.
    pub fn collect(&self, outcomes: Vec<Result<Audio, AudioParserError>>) -> (result: Gathered)
        ensures
            result.audios@ == records_of(outcomes@),
            result.failures@ == failures_of(outcomes@),
    {
        let mut audios: Vec<Audio> = Vec::new();
        let mut failures: Vec<AudioParserError> = Vec::new();
        let ghost all = outcomes@;
        for outcome in iter: outcomes
            invariant
                iter.seq() == all,
                audios@ == records_of(all.take(iter.index() as int)),
                failures@ == failures_of(all.take(iter.index() as int)),
        {
            proof {
                let upto = all.take(iter.index() + 1);
                assert(upto.drop_last() =~= all.take(iter.index() as int));
                assert(upto.last() == outcome);
            }
            match outcome {
                Ok(audio) => {
                    audios.push(audio);
                },
                Err(error) => {
                    failures.push(error);
                },
            }
        }
        assert(all.take(all.len() as int) =~= all);
        Gathered { audios, failures }
    }
}

/// The readers that a strategy draws on, in the order in which it asks them.
pub open spec fn readers_of(strategy: ParsingStrategy) -> Seq<ParserKind> {
    match strategy {
        ParsingStrategy::Audiotags => seq![ParserKind::Audiotags],
        ParsingStrategy::Ffmpeg => seq![ParserKind::Ffmpeg],
        ParsingStrategy::Resilient => seq![ParserKind::Audiotags, ParserKind::Ffmpeg],
    }
}

/// The record that a reader's outcome gives; none where it could not read the
/// file at all.
pub open spec fn record_of(outcome: AudioParserResult<ParsedAudioTry>) -> Result<
    AudioView,
    AudioParserError,
> {
    match outcome {
        Ok(attempt) => Ok(assemble_spec(attempt@)),
        Err(error) => Err(error),
    }
}

/// What happens next with a file.
pub enum FilePlan {
    /// The reader `parser` is asked.
    Invoke { parser: ParserKind },
    /// The file is done, with this record or this error.
    Finish(Result<AudioView, AudioParserError>),
}

/// What happens next with a file that is read as `strategy` says, after the
/// readers asked so far have answered with `outcomes`. A strategy of one
/// reader asks that reader and takes its outcome as it is. The resilient
/// strategy follows the composer. Either way the record is put together from
/// the attempt that comes of it.
pub open spec fn file_plan(
    strategy: ParsingStrategy,
    outcomes: Seq<AudioParserResult<ParsedAudioTry>>,
) -> FilePlan {
    match strategy {
        ParsingStrategy::Resilient => match plan(readers_of(strategy), outcomes) {
            Plan::Invoke { parser } => FilePlan::Invoke { parser },
            Plan::Finish(outcome) => FilePlan::Finish(record_of(outcome)),
        },
        _ => if outcomes.len() == 0 {
            FilePlan::Invoke { parser: readers_of(strategy)[0] }
        } else {
            FilePlan::Finish(record_of(outcomes[0]))
        },
    }
}

/// The work on one file while a reader is being asked.
pub struct FileSession {
    strategy: ParsingStrategy,
    composer: Option<ParseSession>,
}

/// What is to happen next with a file.
pub enum FileStep {
    /// The reader `parser` is to be run on the file, and its outcome handed to
    /// `session`.
    Invoke { session: FileSession, parser: ParserKind },
    /// The file is done, with this record or this error.
    Finish(Result<Audio, AudioParserError>),
}

impl FileSession {
    /// The composer is at work for the resilient strategy and for no other,
    /// on the readers of that strategy.
    #[verifier::type_invariant]
    spec fn composer_fits(self) -> bool {
        match self.composer {
            Some(composer) => self.strategy == ParsingStrategy::Resilient && composer.parsers()
                == readers_of(self.strategy),
            None => self.strategy != ParsingStrategy::Resilient,
        }
    }

    /// The strategy by which the file is read.
    pub closed spec fn strategy(self) -> ParsingStrategy {
        self.strategy
    }

    /// The outcomes of the readers asked so far, in their order.
    pub closed spec fn outcomes(self) -> Seq<AudioParserResult<ParsedAudioTry>> {
        match self.composer {
            Some(composer) => composer.outcomes(),
            None => Seq::empty(),
        }
    }

    /// Takes the outcome of the reader that was asked, and says what is next.
    pub fn resume(self, outcome: AudioParserResult<ParsedAudioTry>) -> (step: FileStep)
        ensures
            step.follows(self.strategy(), self.outcomes().push(outcome)),
    {
        proof {
            use_type_invariant(&self);
        }
        let ghost outcomes = self.outcomes().push(outcome);
        match self.composer {
            Some(composer) => FileStep::of_composer(composer.resume(outcome), Ghost(outcomes)),
            None => {
                assert(outcomes[0] == outcome);
                FileStep::finish(outcome)
            },
        }
    }
}

impl FileStep {
    /// Whether this step is what the plan asks for after `outcomes`, with the
    /// session, where there is one, holding just this strategy and these
    /// outcomes.
    pub open spec fn follows(
        self,
        strategy: ParsingStrategy,
        outcomes: Seq<AudioParserResult<ParsedAudioTry>>,
    ) -> bool {
        match self {
            FileStep::Invoke { session, parser } => {
                &&& file_plan(strategy, outcomes) == (FilePlan::Invoke { parser })
                &&& session.strategy() == strategy
                &&& session.outcomes() == outcomes
            },
            FileStep::Finish(result) => file_plan(strategy, outcomes) == FilePlan::Finish(
                record_view(result),
            ),
        }
    }

    /// The end of the work on a file, with the record of `outcome`.
    fn finish(outcome: AudioParserResult<ParsedAudioTry>) -> (step: FileStep)
        ensures
            step matches FileStep::Finish(result) && record_view(result) == record_of(outcome),
    {
        match outcome {
            Ok(attempt) => FileStep::Finish(assemble(attempt)),
            Err(error) => FileStep::Finish(Err(error)),
        }
    }

    /// The step of a file that the composer's step amounts to.
    fn of_composer(
        step: ParseStep,
        Ghost(outcomes): Ghost<Seq<AudioParserResult<ParsedAudioTry>>>,
    ) -> (result: FileStep)
        requires
            step.follows(readers_of(ParsingStrategy::Resilient), outcomes),
        ensures
            result.follows(ParsingStrategy::Resilient, outcomes),
    {
        match step {
            ParseStep::Invoke { session, parser } => FileStep::Invoke {
                session: FileSession {
                    strategy: ParsingStrategy::Resilient,
                    composer: Some(session),
                },
                parser,
            },
            ParseStep::Finish(outcome) => Self::finish(outcome),
        }
    }
}

impl FilesystemAudioGathererRepository {
    /// Starts the work on one file.
    pub fn begin(&self) -> (step: FileStep)
        ensures
            step.follows(self.strategy, Seq::empty()),
    {
        match self.strategy {
            ParsingStrategy::Audiotags => FileStep::Invoke {
                session: FileSession { strategy: ParsingStrategy::Audiotags, composer: None },
                parser: ParserKind::Audiotags,
            },
            ParsingStrategy::Ffmpeg => FileStep::Invoke {
                session: FileSession { strategy: ParsingStrategy::Ffmpeg, composer: None },
                parser: ParserKind::Ffmpeg,
            },
            ParsingStrategy::Resilient => FileStep::of_composer(
                ResilientAudioParser::begin(ResilientAudioParser::parsers()),
                Ghost(Seq::empty()),
            ),
        }
    }
}

/// A first reader that reads every field ends the work on the file, whatever
/// the strategy: no other reader is asked, and the record holds just what it
/// read.
pub proof fn lemma_complete_attempt_ends_the_file(strategy: ParsingStrategy, attempt: ParsedAudioTry)
    requires
        attempt.is_complete(),
    ensures
        file_plan(strategy, seq![Ok(attempt)]) == FilePlan::Finish(Ok(assemble_spec(attempt@))),
{
    let outcomes = seq![Ok::<ParsedAudioTry, AudioParserError>(attempt)];
    assert(outcomes[0] == Ok::<ParsedAudioTry, AudioParserError>(attempt));
    lemma_complete_attempt_ends_the_work(readers_of(strategy), Seq::empty(), attempt);
}

/// A file that the first reader of the resilient strategy cannot read at all,
/// and of which the second reads every field, gets the record of what the
/// second read.
pub proof fn lemma_second_reader_alone_gives_the_record(
    error: AudioParserError,
    attempt: ParsedAudioTry,
)
    requires
        attempt.is_complete(),
    ensures
        file_plan(ParsingStrategy::Resilient, seq![Err(error)]) == (FilePlan::Invoke {
            parser: ParserKind::Ffmpeg,
        }),
        file_plan(ParsingStrategy::Resilient, seq![Err(error), Ok(attempt)]) == FilePlan::Finish(
            Ok(assemble_spec(attempt@)),
        ),
{
    let first = seq![Err::<ParsedAudioTry, AudioParserError>(error)];
    let later = seq![Ok::<ParsedAudioTry, AudioParserError>(attempt)];
    let both = seq![Err::<ParsedAudioTry, AudioParserError>(error), Ok(attempt)];
    assert(first.last() == Err::<ParsedAudioTry, AudioParserError>(error));
    assert(both =~= first + later);
    lemma_failed_reader_is_skipped(error, later);
    lemma_complete_attempt_ends_the_work(
        readers_of(ParsingStrategy::Resilient),
        Seq::empty(),
        attempt,
    );
    assert(plan(readers_of(ParsingStrategy::Resilient), later) == Plan::Finish(Ok(attempt)));
    assert(resolve(later) == Ok::<ParsedAudioTry, AudioParserError>(attempt));
}

/// Reading a file is repeatable: two runs in which the readers answer alike
/// take the same steps, and end with records that are the same field for
/// field, the bytes of the cover included.
pub proof fn lemma_file_step_is_repeatable(
    strategy: ParsingStrategy,
    outcomes: Seq<AudioParserResult<ParsedAudioTry>>,
    one: FileStep,
    other: FileStep,
)
    requires
        one.follows(strategy, outcomes),
        other.follows(strategy, outcomes),
    ensures
        one matches FileStep::Invoke { parser, .. } ==> other matches FileStep::Invoke {
            parser: again,
            ..
        } && again == parser,
        one matches FileStep::Finish(result) ==> other matches FileStep::Finish(again)
            && record_view(again) == record_view(result),
{
}

} // verus!
