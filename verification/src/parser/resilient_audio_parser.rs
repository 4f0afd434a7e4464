//! The composer: several readers in a fixed order, each asked only where the
//! ones before it left a field open.

use vstd::prelude::*;

use crate::parser::error::{
    AudioParserError, AudioParserResult, InnerError, ResilientAudioParserError,
};
use crate::parser::{
    attempt_view, AudioEntry, Field, ParsedAudioTry, ParsedAudioTryView, TryableAudioParser,
};

verus! {

/// The readers that the composer can draw on.
#[derive(Debug, Clone, Copy, PartialEq, Eq, Structural, Hash)]
pub enum ParserKind {
    /// The reader of embedded tags.
    Audiotags,
    /// The reader that runs a probing tool.
    Ffmpeg,
}

/// Composes the outcomes of several readers into one attempt.
#[derive(Debug, Clone, Copy, Default)]
pub struct ResilientAudioParser;

/// The error of a composer that has no reader left to ask.
pub open spec fn no_parser_left() -> AudioParserError {
    AudioParserError::Inner(InnerError::Resilient(ResilientAudioParserError::NoParserLeft))
}

/// The error of a field that the readers further down the list did not read
/// either, where `error` is what the next of them reported.
pub open spec fn next_parser(error: AudioParserError) -> AudioParserError {
    AudioParserError::Inner(
        InnerError::Resilient(ResilientAudioParserError::NextParser(Box::new(error))),
    )
}

/// One field of a composed attempt: the value that the current reader found;
/// where it found none, the value that the readers after it found; where they
/// found none either, their error, marked as theirs.
pub open spec fn resilient_getter<T>(
    current: AudioParserResult<T>,
    next: AudioParserResult<T>,
) -> AudioParserResult<T> {
    match current {
        Ok(value) => Ok(value),
        Err(_) => match next {
            Ok(value) => Ok(value),
            Err(error) => Err(next_parser(error)),
        },
    }
}

/// What the readers after the current one give for a field: their outcome for
/// it, or the error that kept them from reading the file at all.
pub open spec fn field_of<T>(
    next: AudioParserResult<ParsedAudioTry>,
    field: spec_fn(ParsedAudioTry) -> AudioParserResult<T>,
) -> AudioParserResult<T> {
    match next {
        Ok(attempt) => field(attempt),
        Err(error) => Err(error),
    }
}

/// The attempt of the current reader with each open field filled from `next`,
/// the composed outcome of the readers after it.
pub open spec fn merge(current: ParsedAudioTry, next: AudioParserResult<ParsedAudioTry>)
    -> ParsedAudioTry {
    ParsedAudioTry {
        title: resilient_getter(current.title, field_of(next, |a: ParsedAudioTry| a.title)),
        artist: resilient_getter(current.artist, field_of(next, |a: ParsedAudioTry| a.artist)),
        year: resilient_getter(current.year, field_of(next, |a: ParsedAudioTry| a.year)),
        album_title: resilient_getter(
            current.album_title,
            field_of(next, |a: ParsedAudioTry| a.album_title),
        ),
        album_artist: resilient_getter(
            current.album_artist,
            field_of(next, |a: ParsedAudioTry| a.album_artist),
        ),
        album_cover: resilient_getter(
            current.album_cover,
            field_of(next, |a: ParsedAudioTry| a.album_cover),
        ),
        genre: resilient_getter(current.genre, field_of(next, |a: ParsedAudioTry| a.genre)),
    }
}

/// One reader's outcome composed with that of the readers after it: where the
/// reader could not read the file at all, theirs; else its attempt, filled
/// from theirs.
pub open spec fn parse_inner_spec(
    current: AudioParserResult<ParsedAudioTry>,
    next: AudioParserResult<ParsedAudioTry>,
) -> AudioParserResult<ParsedAudioTry> {
    match current {
        Err(_) => next,
        Ok(attempt) => Ok(merge(attempt, next)),
    }
}

/// The outcomes of readers in their order, composed onto `last`, which stands
/// for what comes after them.
pub open spec fn resolve_onto(
    outcomes: Seq<AudioParserResult<ParsedAudioTry>>,
    last: AudioParserResult<ParsedAudioTry>,
) -> AudioParserResult<ParsedAudioTry>
    decreases outcomes.len(),
{
    if outcomes.len() == 0 {
        last
    } else {
        parse_inner_spec(outcomes[0], resolve_onto(outcomes.skip(1), last))
    }
}

/// The composed outcome of a list of readers, given the outcome of each: with
/// no reader there is no parser left.
pub open spec fn resolve(outcomes: Seq<AudioParserResult<ParsedAudioTry>>) -> AudioParserResult<
    ParsedAudioTry,
> {
    resolve_onto(outcomes, Err(no_parser_left()))
}

/// Whether an outcome leaves something for the next reader to do: the file
/// could not be read at all, or a field is open.
pub open spec fn needs_fallback(outcome: AudioParserResult<ParsedAudioTry>) -> bool {
    match outcome {
        Err(_) => true,
        Ok(attempt) => !attempt.is_complete(),
    }
}

/// Composing onto more readers is composing onto what they compose to.
pub proof fn lemma_resolve_onto_push(
    outcomes: Seq<AudioParserResult<ParsedAudioTry>>,
    outcome: AudioParserResult<ParsedAudioTry>,
    last: AudioParserResult<ParsedAudioTry>,
)
    ensures
        resolve_onto(outcomes.push(outcome), last) == resolve_onto(
            outcomes,
            parse_inner_spec(outcome, last),
        ),
    decreases outcomes.len(),
{
    let longer = outcomes.push(outcome);
    if outcomes.len() == 0 {
        assert(longer.skip(1) =~= outcomes);
        assert(resolve_onto(longer.skip(1), last) == last);
        assert(longer[0] == outcome);
    } else {
        assert(longer.skip(1) =~= outcomes.skip(1).push(outcome));
        assert(longer[0] == outcomes[0]);
        lemma_resolve_onto_push(outcomes.skip(1), outcome, last);
    }
}

/// A complete attempt takes nothing from the readers after it.
pub proof fn lemma_merge_complete(
    current: ParsedAudioTry,
    next: AudioParserResult<ParsedAudioTry>,
)
    requires
        current.is_complete(),
    ensures
        merge(current, next) == current,
{
    assert(current.succeeded(Field::Title));
    assert(current.succeeded(Field::Artist));
    assert(current.succeeded(Field::Year));
    assert(current.succeeded(Field::AlbumTitle));
    assert(current.succeeded(Field::AlbumArtist));
    assert(current.succeeded(Field::AlbumCover));
    assert(current.succeeded(Field::Genre));
}

impl ResilientAudioParser {
    /// The readers in the order in which they are asked: the fast one first.
    pub fn parsers() -> (result: Vec<ParserKind>)
        ensures
            result@ == seq![ParserKind::Audiotags, ParserKind::Ffmpeg],
    {
        let mut result: Vec<ParserKind> = Vec::new();
        result.push(ParserKind::Audiotags);
        result.push(ParserKind::Ffmpeg);
        assert(result@ =~= seq![ParserKind::Audiotags, ParserKind::Ffmpeg]);
        result
    }

    /// One field, filled from the next readers' outcome for it.
    fn getter<T>(current: AudioParserResult<T>, next: AudioParserResult<T>) -> (result:
        AudioParserResult<T>)
        ensures
            result == resilient_getter(current, next),
    {
        match current {
            Ok(value) => Ok(value),
            Err(_) => match next {
                Ok(value) => Ok(value),
                Err(error) => Err(
                    AudioParserError::Inner(
                        InnerError::Resilient(
                            ResilientAudioParserError::NextParser(Box::new(error)),
                        ),
                    ),
                ),
            },
        }
    }

    /// One field, where the next readers could not read the file at all.
    fn getter_of_failure<T>(current: AudioParserResult<T>, error: &AudioParserError) -> (result:
        AudioParserResult<T>)
        ensures
            result == resilient_getter(current, Err(*error)),
    {
        match current {
            Ok(value) => Ok(value),
            Err(_) => Err(
                AudioParserError::Inner(
                    InnerError::Resilient(
                        ResilientAudioParserError::NextParser(Box::new(error.duplicate())),
                    ),
                ),
            ),
        }
    }

    /// Composes the outcome of one reader with `next`, the composed outcome of
    /// the readers after it.
    pub fn parse_inner(
        current: AudioParserResult<ParsedAudioTry>,
        next: AudioParserResult<ParsedAudioTry>,
    ) -> (result: AudioParserResult<ParsedAudioTry>)
        ensures
            result == parse_inner_spec(current, next),
    {
        let attempt = match current {
            Ok(attempt) => attempt,
            Err(_) => {
                return next;
            },
        };
        let merged = match next {
            Ok(later) => ParsedAudioTry {
                title: Self::getter(attempt.title, later.title),
                artist: Self::getter(attempt.artist, later.artist),
                year: Self::getter(attempt.year, later.year),
                album_title: Self::getter(attempt.album_title, later.album_title),
                album_artist: Self::getter(attempt.album_artist, later.album_artist),
                album_cover: Self::getter(attempt.album_cover, later.album_cover),
                genre: Self::getter(attempt.genre, later.genre),
            },
            Err(error) => ParsedAudioTry {
                title: Self::getter_of_failure(attempt.title, &error),
                artist: Self::getter_of_failure(attempt.artist, &error),
                year: Self::getter_of_failure(attempt.year, &error),
                album_title: Self::getter_of_failure(attempt.album_title, &error),
                album_artist: Self::getter_of_failure(attempt.album_artist, &error),
                album_cover: Self::getter_of_failure(attempt.album_cover, &error),
                genre: Self::getter_of_failure(attempt.genre, &error),
            },
        };
        Ok(merged)
    }

    /// Whether `outcome` leaves something for the next reader to do.
    pub fn wants_next(outcome: &AudioParserResult<ParsedAudioTry>) -> (result: bool)
        ensures
            result == needs_fallback(*outcome),
    {
        match outcome {
            Err(_) => true,
            Ok(attempt) => !attempt.complete(),
        }
    }

    /// Composes the outcomes of the readers that were asked, in their order.
    pub fn compose(outcomes: Vec<AudioParserResult<ParsedAudioTry>>) -> (result: AudioParserResult<
        ParsedAudioTry,
    >)
        ensures
            result == resolve(outcomes@),
    {
        let mut outcomes = outcomes;
        let ghost all = outcomes@;
        let mut composed: AudioParserResult<ParsedAudioTry> = Err(
            AudioParserError::Inner(InnerError::Resilient(ResilientAudioParserError::NoParserLeft)),
        );
        while outcomes.len() > 0
            invariant
                resolve_onto(outcomes@, composed) == resolve(all),
            decreases outcomes.len(),
        {
            let ghost before = outcomes@;
            let ghost onto = composed;
            let current = outcomes.pop().unwrap();
            proof {
                assert(before =~= outcomes@.push(current));
                lemma_resolve_onto_push(outcomes@, current, onto);
            }
            composed = Self::parse_inner(current, composed);
        }
        composed
    }
}

/// What the composer does next, given the readers `parsers` in their order
/// and the outcomes of those asked so far.
pub enum Plan {
    /// The reader `parser` is asked.
    Invoke { parser: ParserKind },
    /// No more reader is asked, and this is the composed outcome.
    Finish(AudioParserResult<ParsedAudioTry>),
}

/// The composer asks the first reader, and after each outcome the next one if
/// that outcome leaves something to do and a reader is left. Else it finishes
/// with what the outcomes compose to.
pub open spec fn plan(
    parsers: Seq<ParserKind>,
    outcomes: Seq<AudioParserResult<ParsedAudioTry>>,
) -> Plan {
    if outcomes.len() >= parsers.len() || (outcomes.len() > 0 && !needs_fallback(outcomes.last())) {
        Plan::Finish(resolve(outcomes))
    } else {
        Plan::Invoke { parser: parsers[outcomes.len() as int] }
    }
}

/// The work on one file while a reader is being asked: the readers in their
/// order, and the outcomes of those already asked.
pub struct ParseSession {
    parsers: Vec<ParserKind>,
    outcomes: Vec<AudioParserResult<ParsedAudioTry>>,
}

/// What is to happen next with a file.
pub enum ParseStep {
    /// The reader `parser` is to be run on the file, and its outcome handed to
    /// `session`.
    Invoke { session: ParseSession, parser: ParserKind },
    /// The file is done, with this outcome.
    Finish(AudioParserResult<ParsedAudioTry>),
}

impl ParseSession {
    /// A session waits for a reader's outcome, so one reader is not asked yet.
    #[verifier::type_invariant]
    spec fn awaits_a_reader(self) -> bool {
        self.outcomes@.len() < self.parsers@.len()
    }

    /// The readers of the session, in their order.
    pub closed spec fn parsers(self) -> Seq<ParserKind> {
        self.parsers@
    }

    /// The outcomes of the readers asked so far, in their order.
    pub closed spec fn outcomes(self) -> Seq<AudioParserResult<ParsedAudioTry>> {
        self.outcomes@
    }

    /// Takes the outcome of the reader that was asked, and says what is next.
    pub fn resume(self, outcome: AudioParserResult<ParsedAudioTry>) -> (step: ParseStep)
        ensures
            step.follows(self.parsers(), self.outcomes().push(outcome)),
    {
        proof {
            use_type_invariant(&self);
        }
        let ParseSession { parsers, outcomes } = self;
        let mut outcomes = outcomes;
        let more = ResilientAudioParser::wants_next(&outcome);
        outcomes.push(outcome);
        if more && outcomes.len() < parsers.len() {
            let parser = parsers[outcomes.len()];
            ParseStep::Invoke { session: ParseSession { parsers, outcomes }, parser }
        } else {
            ParseStep::Finish(ResilientAudioParser::compose(outcomes))
        }
    }
}

impl ParseStep {
    /// Whether this step is what the plan asks for after `outcomes`, with the
    /// session, where there is one, holding just these readers and outcomes.
    pub open spec fn follows(
        self,
        parsers: Seq<ParserKind>,
        outcomes: Seq<AudioParserResult<ParsedAudioTry>>,
    ) -> bool {
        match self {
            ParseStep::Invoke { session, parser } => {
                &&& plan(parsers, outcomes) == (Plan::Invoke { parser })
                &&& session.parsers() == parsers
                &&& session.outcomes() == outcomes
            },
            ParseStep::Finish(outcome) => plan(parsers, outcomes) == Plan::Finish(outcome),
        }
    }
}

impl ResilientAudioParser {
    /// Starts the work on a file with the readers `parsers`.
    pub fn begin(parsers: Vec<ParserKind>) -> (step: ParseStep)
        ensures
            step.follows(parsers@, Seq::empty()),
    {
        if parsers.len() == 0 {
            ParseStep::Finish(Self::compose(Vec::new()))
        } else {
            let parser = parsers[0];
            ParseStep::Invoke { session: ParseSession { parsers, outcomes: Vec::new() }, parser }
        }
    }
}

/// How many readers are asked on a file where the readers, in their order,
/// would answer with `answers`: all up to the first that leaves nothing to
/// do.
pub open spec fn asked(answers: Seq<AudioParserResult<ParsedAudioTry>>) -> nat
    decreases answers.len(),
{
    if answers.len() == 0 {
        0
    } else if needs_fallback(answers[0]) {
        1 + asked(answers.skip(1))
    } else {
        1
    }
}

/// The readers that are asked are the first ones: each of them but the last
/// leaves something to do, and the last leaves nothing to do unless it is the
/// last of all.
pub proof fn lemma_asked(answers: Seq<AudioParserResult<ParsedAudioTry>>)
    ensures
        asked(answers) <= answers.len(),
        answers.len() > 0 ==> asked(answers) > 0,
        forall|k: int| 0 <= k < asked(answers) - 1 ==> needs_fallback(#[trigger] answers[k]),
        0 < asked(answers) < answers.len() ==> !needs_fallback(answers[asked(answers) - 1]),
    decreases answers.len(),
{
    if answers.len() > 0 && needs_fallback(answers[0]) {
        let rest = answers.skip(1);
        lemma_asked(rest);
        assert forall|k: int| 0 <= k < asked(answers) - 1 implies needs_fallback(
            #[trigger] answers[k],
        ) by {
            if k > 0 {
                assert(answers[k] == rest[k - 1]);
            }
        }
        if 0 < asked(rest) < rest.len() {
            assert(answers[asked(answers) - 1] == rest[asked(rest) - 1]);
        }
    }
}

/// A whole run of the composer. Where the readers `parsers` would answer with
/// `answers`, one each, the plan asks them in their order as far as `asked`
/// counts and no further, and then finishes with what all the answers compose
/// to: the readers that are never asked would have changed nothing.
pub proof fn lemma_run(
    parsers: Seq<ParserKind>,
    answers: Seq<AudioParserResult<ParsedAudioTry>>,
)
    requires
        answers.len() == parsers.len(),
    ensures
        asked(answers) <= answers.len(),
        forall|n: int|
            0 <= n < asked(answers) ==> #[trigger] plan(parsers, answers.take(n)) == (Plan::Invoke {
                parser: parsers[n],
            }),
        plan(parsers, answers.take(asked(answers) as int)) == Plan::Finish(resolve(answers)),
{
    lemma_asked(answers);
    let count = asked(answers) as int;
    assert forall|n: int| 0 <= n < count implies #[trigger] plan(parsers, answers.take(n)) == (
    Plan::Invoke { parser: parsers[n] }) by {
        let so_far = answers.take(n);
        if n > 0 {
            assert(so_far.last() == answers[n - 1]);
        }
    }
    let all_asked = answers.take(count);
    if count == answers.len() {
        assert(all_asked =~= answers);
    } else {
        assert(all_asked.last() == answers[count - 1]);
        lemma_resolve_stops_at_complete(answers, count);
    }
}

/// A reader that reads every field ends the work: no reader after it is
/// asked, whatever the list holds, and what it read is the result where no
/// reader before it read anything.
pub proof fn lemma_complete_attempt_ends_the_work(
    parsers: Seq<ParserKind>,
    before: Seq<AudioParserResult<ParsedAudioTry>>,
    attempt: ParsedAudioTry,
)
    requires
        attempt.is_complete(),
    ensures
        plan(parsers, before.push(Ok(attempt))) is Finish,
        plan(parsers, seq![Ok(attempt)]) == Plan::Finish(Ok(attempt)),
{
    let one = seq![Ok::<ParsedAudioTry, AudioParserError>(attempt)];
    assert(one.last() == Ok::<ParsedAudioTry, AudioParserError>(attempt));
    assert(before.push(Ok(attempt)).last() == Ok::<ParsedAudioTry, AudioParserError>(attempt));
    lemma_merge_complete(attempt, Err(no_parser_left()));
    assert(one[0] == Ok::<ParsedAudioTry, AudioParserError>(attempt));
    assert(one.skip(1) =~= Seq::empty());
    assert(resolve_onto(one.skip(1), Err(no_parser_left())) == Err::<
        ParsedAudioTry,
        AudioParserError,
    >(no_parser_left()));
}

/// The readers that are never asked do not matter: where the outcome at
/// position `asked - 1` leaves nothing to do, the outcomes up to it compose to
/// what all of them compose to.
pub proof fn lemma_resolve_stops_at_complete(
    outcomes: Seq<AudioParserResult<ParsedAudioTry>>,
    asked: int,
)
    requires
        0 < asked <= outcomes.len(),
        !needs_fallback(outcomes[asked - 1]),
    ensures
        resolve(outcomes.take(asked)) == resolve(outcomes),
    decreases asked,
{
    let front = outcomes.take(asked);
    assert(front[0] == outcomes[0]);
    if asked == 1 {
        let attempt = outcomes[0]->Ok_0;
        lemma_merge_complete(attempt, resolve(outcomes.skip(1)));
        lemma_merge_complete(attempt, resolve(front.skip(1)));
    } else {
        assert(front.skip(1) =~= outcomes.skip(1).take(asked - 1));
        lemma_resolve_stops_at_complete(outcomes.skip(1), asked - 1);
    }
}

/// Each field by itself comes from the earliest reader that read it: where
/// the reader at position `at` read `field`, and no reader before it did, the
/// composed attempt holds for `field` what that reader holds.
pub proof fn lemma_earliest_success_wins(
    outcomes: Seq<AudioParserResult<ParsedAudioTry>>,
    at: int,
    field: Field,
)
    requires
        0 <= at < outcomes.len(),
        outcomes[at] is Ok,
        outcomes[at]->Ok_0.succeeded(field),
        forall|k: int|
            0 <= k < at && (#[trigger] outcomes[k]) is Ok ==> !outcomes[k]->Ok_0.succeeded(field),
    ensures
        resolve(outcomes) is Ok,
        resolve(outcomes)->Ok_0.agrees(outcomes[at]->Ok_0, field),
    decreases at,
{
    let rest = outcomes.skip(1);
    if at > 0 {
        assert(rest[at - 1] == outcomes[at]);
        assert forall|k: int| 0 <= k < at - 1 && (#[trigger] rest[k]) is Ok implies !rest[k]->Ok_0
            .succeeded(field) by {
            assert(rest[k] == outcomes[k + 1]);
        }
        lemma_earliest_success_wins(rest, at - 1, field);
    }
}

/// Where the first reader leaves a field open and the second reads it, the
/// composed attempt holds for that field what the second reader holds,
/// whatever either made of the other fields and whatever readers follow.
pub proof fn lemma_second_reader_fills_in(
    first: ParsedAudioTry,
    second: ParsedAudioTry,
    later: Seq<AudioParserResult<ParsedAudioTry>>,
    field: Field,
)
    requires
        !first.succeeded(field),
        second.succeeded(field),
    ensures
        resolve(seq![Ok(first), Ok(second)] + later) is Ok,
        resolve(seq![Ok(first), Ok(second)] + later)->Ok_0.agrees(second, field),
{
    let outcomes = seq![Ok::<ParsedAudioTry, AudioParserError>(first), Ok(second)] + later;
    assert(outcomes[0] == Ok::<ParsedAudioTry, AudioParserError>(first));
    assert(outcomes[1] == Ok::<ParsedAudioTry, AudioParserError>(second));
    lemma_earliest_success_wins(outcomes, 1, field);
}

/// A field that no reader read stays open: the composer puts no value in its
/// place.
pub proof fn lemma_unread_field_stays_open(
    outcomes: Seq<AudioParserResult<ParsedAudioTry>>,
    field: Field,
)
    requires
        forall|k: int|
            0 <= k < outcomes.len() && (#[trigger] outcomes[k]) is Ok ==> !outcomes[k]->Ok_0
                .succeeded(field),
    ensures
        resolve(outcomes) matches Ok(composed) ==> !composed.succeeded(field),
    decreases outcomes.len(),
{
    if outcomes.len() > 0 {
        let rest = outcomes.skip(1);
        assert forall|k: int| 0 <= k < rest.len() && (#[trigger] rest[k]) is Ok implies !rest[k]->Ok_0
            .succeeded(field) by {
            assert(rest[k] == outcomes[k + 1]);
        }
        lemma_unread_field_stays_open(rest, field);
    }
}

/// A reader that could not read the file at all counts for nothing: the
/// readers after it decide alone.
pub proof fn lemma_failed_reader_is_skipped(
    error: AudioParserError,
    later: Seq<AudioParserResult<ParsedAudioTry>>,
)
    ensures
        resolve(seq![Err(error)] + later) == resolve(later),
{
    let outcomes = seq![Err::<ParsedAudioTry, AudioParserError>(error)] + later;
    assert(outcomes.skip(1) =~= later);
    assert(outcomes[0] == Err::<ParsedAudioTry, AudioParserError>(error));
}

/// The composer fails only where every reader failed on the whole file, and
/// then with the error that no parser is left.
pub proof fn lemma_fails_only_without_parsers(
    outcomes: Seq<AudioParserResult<ParsedAudioTry>>,
)
    ensures
        resolve(outcomes) is Err <==> forall|k: int|
            0 <= k < outcomes.len() ==> (#[trigger] outcomes[k]) is Err,
        resolve(outcomes) is Err ==> resolve(outcomes) == Err::<ParsedAudioTry, AudioParserError>(
            no_parser_left(),
        ),
    decreases outcomes.len(),
{
    if outcomes.len() > 0 {
        let rest = outcomes.skip(1);
        lemma_fails_only_without_parsers(rest);
        if outcomes[0] is Err {
            if resolve(rest) is Err {
                assert forall|k: int| 0 <= k < outcomes.len() implies (#[trigger] outcomes[k])
                    is Err by {
                    if k > 0 {
                        assert(rest[k - 1] == outcomes[k]);
                    }
                }
            } else {
                let k = choose|k: int| 0 <= k < rest.len() && !((#[trigger] rest[k]) is Err);
                assert(outcomes[k + 1] == rest[k]);
            }
        }
    }
}

impl TryableAudioParser for ResilientAudioParser {
    /// The outcomes of the readers that were asked, in their order.
    type Source = Vec<AudioParserResult<ParsedAudioTry>>;

    /// The composed outcome of the readers.
    open spec fn attempt(
        &self,
        _entry: AudioEntry,
        source: Vec<AudioParserResult<ParsedAudioTry>>,
    ) -> Result<ParsedAudioTryView, AudioParserError> {
        attempt_view(resolve(source@))
    }

    fn try_parse(
        &self,
        _entry: &AudioEntry,
        source: Vec<AudioParserResult<ParsedAudioTry>>,
    ) -> (result: AudioParserResult<ParsedAudioTry>)
        ensures
            result == resolve(source@),
    {
        Self::compose(source)
    }
}

} // verus!
