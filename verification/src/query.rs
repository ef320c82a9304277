//! The two queries. Each is one exchange with a sandbox: take a scratch
//! region, copy the text in, run the detector, read the answer, give the
//! region back. The contracts say which steps an exchange is made of and
//! which answer each outcome of those steps gives.

use crate::fingerprint::{
    decode_fingerprint, fingerprint, lemma_fingerprint_bounded, sqli_scratch_size, FINGERPRINT_SLOT,
};
use crate::sandbox::{
    contents, is_neutral, is_release_of, is_round_trip, lemma_round_trip_settles,
    lemma_round_trips_settle, outstanding, went_well, Sandbox, Step,
};
use vstd::prelude::*;
use vstd::string::StringSliceAdditionalSpecFns;

verus! {

/// Why a query gave no answer.
#[derive(Clone, Copy, Debug, PartialEq, Eq, Structural)]
pub enum QueryError {
    /// The text, with what the query reserves behind it, does not fit the
    /// sandbox's 32-bit addresses. Nothing was asked of the sandbox.
    InputTooLong,
    /// The guest's allocator failed.
    AllocateFailed,
    /// The region that the allocator named does not lie inside the guest
    /// memory. It was neither written beyond nor read.
    OutOfBounds,
    /// The detector failed.
    DetectFailed,
    /// The detector answered, and the guest's allocator failed to take the
    /// region back.
    ReleaseFailed,
}

/// The answer to an SQL-injection query in the terms of the contracts.
pub type SqliAnswer = Result<(bool, Seq<char>), QueryError>;

/// The answer to a cross-site-scripting query in the terms of the contracts.
pub type XssAnswer = Result<bool, QueryError>;

/// What `is_sqli` returned, with the fingerprint as its characters.
pub open spec fn sqli_answer(out: Result<(bool, String), QueryError>) -> SqliAnswer {
    match out {
        Ok((matched, token)) => Ok((matched, token@)),
        Err(e) => Err(e),
    }
}

/// `steps` is the one step that hands `pointer` back.
pub open spec fn only_releases(steps: Seq<Step>, pointer: u32) -> bool {
    steps.len() == 1 && is_release_of(steps[0], pointer)
}

/// `steps` is an exchange for an SQL-injection query on `text` that ends in
/// `answer`.
///
/// A text that is too long is refused before anything is asked. Otherwise
/// the exchange opens with an allocation of the text's length and the
/// fingerprint slot. Where that is granted, the text is copied to the start
/// of the region, the detector runs on exactly those bytes with the slot
/// right behind them, the slot is read, and the region is released: the
/// release is the last step on every path, and the first step that fails
/// decides the error.
pub open spec fn sqli_exchange(text: Seq<u8>, steps: Seq<Step>, answer: SqliAnswer) -> bool {
    if text.len() + FINGERPRINT_SLOT > u32::MAX {
        steps.len() == 0 && answer == Err::<(bool, Seq<char>), QueryError>(
            QueryError::InputTooLong,
        )
    } else {
        steps.len() >= 1 && match steps[0] {
            Step::Allocate { size, granted: None } => {
                &&& size == text.len() + FINGERPRINT_SLOT
                &&& steps.len() == 1
                &&& answer == Err::<(bool, Seq<char>), QueryError>(QueryError::AllocateFailed)
            },
            Step::Allocate { size, granted: Some(pointer) } => {
                &&& size == text.len() + FINGERPRINT_SLOT
                &&& sqli_served(text, pointer, steps.skip(1), answer)
            },
            _ => false,
        }
    }
}

/// `steps` is what follows the allocation of `pointer` in an exchange for an
/// SQL-injection query on `text` that ends in `answer`.
pub open spec fn sqli_served(
    text: Seq<u8>,
    pointer: u32,
    steps: Seq<Step>,
    answer: SqliAnswer,
) -> bool {
    if pointer + text.len() > u32::MAX {
        &&& only_releases(steps, pointer)
        &&& answer == Err::<(bool, Seq<char>), QueryError>(QueryError::OutOfBounds)
    } else {
        steps.len() >= 2 && match steps[0] {
            Step::Write { pointer: to, bytes, stored } => {
                &&& to == pointer
                &&& bytes == text
                &&& if stored {
                    sqli_detected(text, pointer, steps.skip(1), answer)
                } else {
                    &&& only_releases(steps.skip(1), pointer)
                    &&& answer == Err::<(bool, Seq<char>), QueryError>(QueryError::OutOfBounds)
                }
            },
            _ => false,
        }
    }
}

/// `steps` is what follows the copy of `text` to `pointer`: the detector's
/// run and what comes after it.
pub open spec fn sqli_detected(
    text: Seq<u8>,
    pointer: u32,
    steps: Seq<Step>,
    answer: SqliAnswer,
) -> bool {
    steps.len() >= 2 && match steps[0] {
        Step::DetectSqli { pointer: at, length, slot, memory, verdict } => {
            &&& at == pointer
            &&& length == text.len()
            &&& slot == pointer + text.len()
            &&& pointer + text.len() <= memory.len()
            &&& memory.subrange(pointer as int, pointer + text.len()) == text
            &&& match verdict {
                None => {
                    &&& only_releases(steps.skip(1), pointer)
                    &&& answer == Err::<(bool, Seq<char>), QueryError>(QueryError::DetectFailed)
                },
                Some(v) => {
                    &&& steps.len() == 3
                    &&& match (steps[1], steps[2]) {
                        (
                            Step::Read { pointer: from, length: n, seen },
                            Step::Release { pointer: back, done },
                        ) => {
                            &&& from == slot
                            &&& n == FINGERPRINT_SLOT
                            &&& seen is Some ==> seen->Some_0.len() == FINGERPRINT_SLOT
                            &&& back == pointer
                            &&& answer == sqli_verdict(v, seen, done)
                        },
                        _ => false,
                    }
                },
            }
        },
        _ => false,
    }
}

/// The answer of an exchange in which the detector returned `verdict`, the
/// read of the slot brought `seen`, and the release went as `done` says.
pub open spec fn sqli_verdict(verdict: u32, seen: Option<Seq<u8>>, done: bool) -> SqliAnswer {
    match seen {
        None => Err(QueryError::OutOfBounds),
        Some(slot) => if done {
            Ok((verdict != 0, fingerprint(slot)))
        } else {
            Err(QueryError::ReleaseFailed)
        },
    }
}

/// `steps` is an exchange for a cross-site-scripting query on `text` that
/// ends in `answer`: as for the other query, without slot and read.
pub open spec fn xss_exchange(text: Seq<u8>, steps: Seq<Step>, answer: XssAnswer) -> bool {
    if text.len() > u32::MAX {
        steps.len() == 0 && answer == Err::<bool, QueryError>(QueryError::InputTooLong)
    } else {
        steps.len() >= 1 && match steps[0] {
            Step::Allocate { size, granted: None } => {
                &&& size == text.len()
                &&& steps.len() == 1
                &&& answer == Err::<bool, QueryError>(QueryError::AllocateFailed)
            },
            Step::Allocate { size, granted: Some(pointer) } => {
                &&& size == text.len()
                &&& xss_served(text, pointer, steps.skip(1), answer)
            },
            _ => false,
        }
    }
}

/// `steps` is what follows the allocation of `pointer` in an exchange for a
/// cross-site-scripting query on `text` that ends in `answer`.
pub open spec fn xss_served(text: Seq<u8>, pointer: u32, steps: Seq<Step>, answer: XssAnswer) -> bool {
    steps.len() >= 2 && match steps[0] {
        Step::Write { pointer: to, bytes, stored } => {
            &&& to == pointer
            &&& bytes == text
            &&& if stored {
                &&& steps.len() == 3
                &&& match (steps[1], steps[2]) {
                    (
                        Step::DetectXss { pointer: at, length, memory, verdict },
                        Step::Release { pointer: back, done },
                    ) => {
                        &&& at == pointer
                        &&& length == text.len()
                        &&& pointer + text.len() <= memory.len()
                        &&& memory.subrange(pointer as int, pointer + text.len()) == text
                        &&& back == pointer
                        &&& answer == xss_verdict(verdict, done)
                    },
                    _ => false,
                }
            } else {
                &&& only_releases(steps.skip(1), pointer)
                &&& answer == Err::<bool, QueryError>(QueryError::OutOfBounds)
            }
        },
        _ => false,
    }
}

/// The answer of an exchange in which the detector's run gave `verdict` and
/// the release went as `done` says.
pub open spec fn xss_verdict(verdict: Option<u32>, done: bool) -> XssAnswer {
    match verdict {
        None => Err(QueryError::DetectFailed),
        Some(v) => if done {
            Ok(v != 0)
        } else {
            Err(QueryError::ReleaseFailed)
        },
    }
}

/// An exchange for an SQL-injection query takes at most one allocation and
/// returns it, on every path.
pub proof fn lemma_sqli_exchange_is_round_trip(text: Seq<u8>, steps: Seq<Step>, answer: SqliAnswer)
    requires
        sqli_exchange(text, steps, answer),
    ensures
        is_round_trip(steps),
{
    if text.len() + FINGERPRINT_SLOT <= u32::MAX {
        match steps[0] {
            Step::Allocate { granted: Some(pointer), .. } => {
                let served = steps.skip(1);
                assert(served.len() >= 1);
                assert(is_release_of(served.last(), pointer)) by {
                    if pointer + text.len() <= u32::MAX {
                        let detected = served.skip(1);
                        assert(detected.last() == served.last());
                        let rest = detected.skip(1);
                        if rest.len() >= 1 {
                            assert(rest.last() == detected.last());
                        }
                    }
                }
                assert(steps.last() == served.last());
                assert forall|i: int| 1 <= i < steps.len() - 1 implies is_neutral(
                    #[trigger] steps[i],
                ) by {
                    assert(steps[i] == served[i - 1]);
                    if i >= 2 {
                        assert(steps[i] == served.skip(1)[i - 2]);
                    }
                }
            },
            _ => {},
        }
    }
}

/// An exchange for a cross-site-scripting query takes at most one allocation
/// and returns it, on every path.
pub proof fn lemma_xss_exchange_is_round_trip(text: Seq<u8>, steps: Seq<Step>, answer: XssAnswer)
    requires
        xss_exchange(text, steps, answer),
    ensures
        is_round_trip(steps),
{
    if text.len() <= u32::MAX {
        match steps[0] {
            Step::Allocate { granted: Some(pointer), .. } => {
                let served = steps.skip(1);
                assert(is_release_of(served.last(), pointer)) by {
                    let rest = served.skip(1);
                    assert(rest.last() == served.last());
                }
                assert(steps.last() == served.last());
                assert forall|i: int| 1 <= i < steps.len() - 1 implies is_neutral(
                    #[trigger] steps[i],
                ) by {
                    assert(steps[i] == served[i - 1]);
                }
            },
            _ => {},
        }
    }
}

/// The host adds nothing of its own to an answer: one text and one course
/// of the exchange give one answer to an SQL-injection query.
pub proof fn lemma_sqli_answer_determined(
    text: Seq<u8>,
    steps: Seq<Step>,
    first: SqliAnswer,
    second: SqliAnswer,
)
    requires
        sqli_exchange(text, steps, first),
        sqli_exchange(text, steps, second),
    ensures
        first == second,
{
}

/// The host adds nothing of its own to an answer: one text and one course
/// of the exchange give one answer to a cross-site-scripting query.
pub proof fn lemma_xss_answer_determined(
    text: Seq<u8>,
    steps: Seq<Step>,
    first: XssAnswer,
    second: XssAnswer,
)
    requires
        xss_exchange(text, steps, first),
        xss_exchange(text, steps, second),
    ensures
        first == second,
{
}

/// What the SQL-injection detector said in an exchange that ran its full
/// course: whether its verdict was a match, and the token in the slot.
pub open spec fn sqli_said(steps: Seq<Step>) -> (bool, Seq<char>) {
    match (steps[2], steps[3]) {
        (Step::DetectSqli { verdict: Some(v), .. }, Step::Read { seen: Some(slot), .. }) => (
            v != 0,
            fingerprint(slot),
        ),
        _ => (false, Seq::empty()),
    }
}

/// What the cross-site-scripting detector said in an exchange that ran its
/// full course: whether its verdict was a match.
pub open spec fn xss_said(steps: Seq<Step>) -> bool {
    match steps[2] {
        Step::DetectXss { verdict: Some(v), .. } => v != 0,
        _ => false,
    }
}

/// An answer to an SQL-injection query is what the detector said, and
/// nothing else: not where the allocator put the text, not what the sandbox
/// was asked before, not which sandbox it is.
pub proof fn lemma_sqli_answer_is_the_detectors(
    text: Seq<u8>,
    steps: Seq<Step>,
    answer: SqliAnswer,
)
    requires
        sqli_exchange(text, steps, answer),
        answer is Ok,
    ensures
        answer->Ok_0 == sqli_said(steps),
{
    match steps[0] {
        Step::Allocate { granted: Some(pointer), .. } => {
            let detected = steps.skip(1).skip(1);
            assert(steps[2] == detected[0]);
            assert(steps[3] == detected[1]);
        },
        _ => {},
    }
}

/// An answer to a cross-site-scripting query is what the detector said, and
/// nothing else.
pub proof fn lemma_xss_answer_is_the_detectors(text: Seq<u8>, steps: Seq<Step>, answer: XssAnswer)
    requires
        xss_exchange(text, steps, answer),
        answer is Ok,
    ensures
        answer->Ok_0 == xss_said(steps),
{
    match steps[0] {
        Step::Allocate { granted: Some(pointer), .. } => {
            let served = steps.skip(1);
            assert(steps[2] == served[1]);
        },
        _ => {},
    }
}

/// Two SQL-injection queries in which the detector says the same have the
/// same answer, whatever else differs between them: the calls before, the
/// sandbox and so the thread, the place of the text in memory.
pub proof fn lemma_sqli_answers_agree(
    text: Seq<u8>,
    first_steps: Seq<Step>,
    first: SqliAnswer,
    second_steps: Seq<Step>,
    second: SqliAnswer,
)
    requires
        sqli_exchange(text, first_steps, first),
        sqli_exchange(text, second_steps, second),
        first is Ok,
        second is Ok,
        sqli_said(first_steps) == sqli_said(second_steps),
    ensures
        first == second,
{
    lemma_sqli_answer_is_the_detectors(text, first_steps, first);
    lemma_sqli_answer_is_the_detectors(text, second_steps, second);
}

/// Two cross-site-scripting queries in which the detector says the same
/// have the same answer, whatever else differs between them.
pub proof fn lemma_xss_answers_agree(
    text: Seq<u8>,
    first_steps: Seq<Step>,
    first: XssAnswer,
    second_steps: Seq<Step>,
    second: XssAnswer,
)
    requires
        xss_exchange(text, first_steps, first),
        xss_exchange(text, second_steps, second),
        first is Ok,
        second is Ok,
        xss_said(first_steps) == xss_said(second_steps),
    ensures
        first == second,
{
    lemma_xss_answer_is_the_detectors(text, first_steps, first);
    lemma_xss_answer_is_the_detectors(text, second_steps, second);
}

/// An SQL-injection query has an answer exactly when the exchange ran its
/// full course and the sandbox did all that was asked of it.
pub proof fn lemma_sqli_answered_iff(text: Seq<u8>, steps: Seq<Step>, answer: SqliAnswer)
    requires
        sqli_exchange(text, steps, answer),
    ensures
        answer is Ok <==> steps.len() == 5 && forall|i: int|
            0 <= i < steps.len() ==> went_well(#[trigger] steps[i]),
{
    if text.len() + FINGERPRINT_SLOT <= u32::MAX {
        match steps[0] {
            Step::Allocate { granted: Some(pointer), .. } => {
                let served = steps.skip(1);
                if pointer + text.len() <= u32::MAX {
                    let detected = served.skip(1);
                    assert(steps[1] == served[0]);
                    assert(steps[2] == detected[0]);
                    if steps.len() == 5 {
                        assert(steps[3] == detected[1]);
                        assert(steps[4] == detected[2]);
                    } else if detected.len() >= 2 {
                        assert(steps[3] == detected.skip(1)[0]);
                    }
                } else {
                    assert(steps[1] == served[0]);
                }
            },
            _ => {},
        }
    }
}

/// A cross-site-scripting query has an answer exactly when the exchange ran
/// its full course and the sandbox did all that was asked of it.
pub proof fn lemma_xss_answered_iff(text: Seq<u8>, steps: Seq<Step>, answer: XssAnswer)
    requires
        xss_exchange(text, steps, answer),
    ensures
        answer is Ok <==> steps.len() == 4 && forall|i: int|
            0 <= i < steps.len() ==> went_well(#[trigger] steps[i]),
{
    if text.len() <= u32::MAX {
        match steps[0] {
            Step::Allocate { granted: Some(pointer), .. } => {
                let served = steps.skip(1);
                assert(steps[1] == served[0]);
                if steps.len() == 4 {
                    assert(steps[2] == served[1]);
                    assert(steps[3] == served[2]);
                } else {
                    assert(steps[2] == served.skip(1)[0]);
                }
            },
            _ => {},
        }
    }
}

/// `steps` is the exchange of some query on some text.
pub open spec fn is_query(steps: Seq<Step>) -> bool {
    ||| exists|text: Seq<u8>, answer: SqliAnswer| sqli_exchange(text, steps, answer)
    ||| exists|text: Seq<u8>, answer: XssAnswer| xss_exchange(text, steps, answer)
}

/// Allocate/release pairing over any number of queries: when a history is
/// followed by the exchanges of queries, however many and of either kind,
/// the sandbox is owed the same releases afterwards as before.
pub proof fn lemma_queries_settle(history: Seq<Step>, rounds: Seq<Seq<Step>>)
    requires
        forall|i: int| 0 <= i < rounds.len() ==> is_query(#[trigger] rounds[i]),
    ensures
        outstanding(history + rounds.flatten()) == outstanding(history),
{
    assert forall|i: int| 0 <= i < rounds.len() implies is_round_trip(#[trigger] rounds[i]) by {
        let steps = rounds[i];
        assert(is_query(steps));
        if exists|text: Seq<u8>, answer: SqliAnswer| sqli_exchange(text, steps, answer) {
            let (text, answer) = choose|text: Seq<u8>, answer: SqliAnswer|
                sqli_exchange(text, steps, answer);
            lemma_sqli_exchange_is_round_trip(text, steps, answer);
        } else {
            let (text, answer) = choose|text: Seq<u8>, answer: XssAnswer|
                xss_exchange(text, steps, answer);
            lemma_xss_exchange_is_round_trip(text, steps, answer);
        }
    }
    lemma_round_trips_settle(history, rounds);
}

/// The fingerprint of an answer fits the slot and holds no NUL character.
pub proof fn lemma_sqli_fingerprint_bounded(text: Seq<u8>, steps: Seq<Step>, answer: SqliAnswer)
    requires
        sqli_exchange(text, steps, answer),
        answer is Ok,
    ensures
        answer->Ok_0.1.len() <= FINGERPRINT_SLOT,
        forall|i: int| 0 <= i < answer->Ok_0.1.len() ==> answer->Ok_0.1[i] != '\0',
{
    match steps[0] {
        Step::Allocate { granted: Some(pointer), .. } => {
            let detected = steps.skip(1).skip(1);
            match detected[1] {
                Step::Read { seen: Some(slot), .. } => {
                    lemma_fingerprint_bounded(slot);
                },
                _ => {},
            }
        },
        _ => {},
    }
}

/// The empty text is not refused: an SQL-injection query on it asks the
/// allocator for the fingerprint slot alone, and a cross-site-scripting
/// query for a region of no bytes.
pub proof fn lemma_empty_text_is_served(
    sqli_steps: Seq<Step>,
    sqli: SqliAnswer,
    xss_steps: Seq<Step>,
    xss: XssAnswer,
)
    requires
        sqli_exchange(Seq::empty(), sqli_steps, sqli),
        xss_exchange(Seq::empty(), xss_steps, xss),
    ensures
        sqli != Err::<(bool, Seq<char>), QueryError>(QueryError::InputTooLong),
        sqli_steps.len() >= 1 && sqli_steps[0] is Allocate && sqli_steps[0]->size
            == FINGERPRINT_SLOT,
        xss != Err::<bool, QueryError>(QueryError::InputTooLong),
        xss_steps.len() >= 1 && xss_steps[0] is Allocate && xss_steps[0]->size == 0,
{
}

/// The answer to an SQL-injection query whose detector returned `verdict`,
/// whose slot was read as `seen`, and whose release went as `done` says: a
/// match is any verdict but zero, and the fingerprint is decoded whatever the
/// verdict.
pub fn sqli_outcome(verdict: u32, seen: Option<Vec<u8>>, done: bool) -> (out: Result<
    (bool, String),
    QueryError,
>)
    ensures
        sqli_answer(out) == sqli_verdict(verdict, contents(seen), done),
{
    match seen {
        None => Err(QueryError::OutOfBounds),
        Some(slot) => {
            if done {
                Ok((verdict != 0, decode_fingerprint(slot.as_slice())))
            } else {
                Err(QueryError::ReleaseFailed)
            }
        },
    }
}

/// The answer to a cross-site-scripting query whose detector's run gave
/// `verdict` and whose release went as `done` says.
pub fn xss_outcome(verdict: Option<u32>, done: bool) -> (out: Result<bool, QueryError>)
    ensures
        out == xss_verdict(verdict, done),
{
    match verdict {
        None => Err(QueryError::DetectFailed),
        Some(v) => {
            if done {
                Ok(v != 0)
            } else {
                Err(QueryError::ReleaseFailed)
            }
        },
    }
}

/// Asks the sandbox whether `input` is an SQL injection. The answer is the
/// verdict and the fingerprint that the detector left; the fingerprint means
/// something only where the verdict is a match.
///
/// The sandbox's history grows by one exchange for the bytes of `input`, the
/// answer is the one that this exchange gives, and the sandbox is owed no
/// more releases after the call than before it.
pub fn is_sqli(sandbox: &mut Sandbox, input: &str) -> (out: Result<(bool, String), QueryError>)
    requires
        old(sandbox).wf(),
    ensures
        final(sandbox).wf(),
        final(sandbox).is_still(*old(sandbox)),
        old(sandbox).history().is_prefix_of(final(sandbox).history()),
        sqli_exchange(
            input.spec_bytes(),
            final(sandbox).history().skip(old(sandbox).history().len() as int),
            sqli_answer(out),
        ),
        out == Err::<(bool, String), QueryError>(QueryError::InputTooLong)
            <==> input.spec_bytes().len() + FINGERPRINT_SLOT > u32::MAX,
        out is Ok ==> out->Ok_0.1@.len() <= FINGERPRINT_SLOT,
        final(sandbox).outstanding() == old(sandbox).outstanding(),
{
    let text = input.as_bytes();
    let ghost before = sandbox.history();
    let size = match sqli_scratch_size(text.len()) {
        Some(size) => size,
        None => {
            proof {
                assert(sandbox.history() =~= before + Seq::<Step>::empty());
                lemma_sqli_exchanged(before, text@, Seq::empty(), Err(QueryError::InputTooLong));
            }
            return Err(QueryError::InputTooLong);
        },
    };
    let length: u32 = size - FINGERPRINT_SLOT;
    let granted = sandbox.allocate(size);
    let ghost a = Step::Allocate { size, granted };
    let pointer = match granted {
        Some(pointer) => pointer,
        None => {
            proof {
                assert(sandbox.history() =~= before + seq![a]);
                lemma_sqli_exchanged(before, text@, seq![a], Err(QueryError::AllocateFailed));
            }
            return Err(QueryError::AllocateFailed);
        },
    };
    let slot = match pointer.checked_add(length) {
        Some(slot) => slot,
        None => {
            let done = sandbox.release(pointer);
            proof {
                let r = Step::Release { pointer, done };
                assert(seq![a, r].skip(1) =~= seq![r]);
                assert(sandbox.history() =~= before + seq![a, r]);
                lemma_sqli_exchanged(before, text@, seq![a, r], Err(QueryError::OutOfBounds));
            }
            return Err(QueryError::OutOfBounds);
        },
    };
    let stored = sandbox.write(pointer, text);
    let ghost w = Step::Write { pointer, bytes: text@, stored };
    if !stored {
        let done = sandbox.release(pointer);
        proof {
            let r = Step::Release { pointer, done };
            assert(seq![a, w, r].skip(1) =~= seq![w, r]);
            assert(seq![w, r].skip(1) =~= seq![r]);
            assert(sandbox.history() =~= before + seq![a, w, r]);
            lemma_sqli_exchanged(before, text@, seq![a, w, r], Err(QueryError::OutOfBounds));
        }
        return Err(QueryError::OutOfBounds);
    }
    let ghost memory = sandbox.memory();
    let run = sandbox.detect_sqli(pointer, length, slot);
    let ghost d = Step::DetectSqli { pointer, length, slot, memory, verdict: run };
    let verdict = match run {
        Some(verdict) => verdict,
        None => {
            let done = sandbox.release(pointer);
            proof {
                let r = Step::Release { pointer, done };
                assert(seq![a, w, d, r].skip(1) =~= seq![w, d, r]);
                assert(seq![w, d, r].skip(1) =~= seq![d, r]);
                assert(seq![d, r].skip(1) =~= seq![r]);
                assert(sandbox.history() =~= before + seq![a, w, d, r]);
                lemma_sqli_exchanged(
                    before,
                    text@,
                    seq![a, w, d, r],
                    Err(QueryError::DetectFailed),
                );
            }
            return Err(QueryError::DetectFailed);
        },
    };
    let seen = sandbox.read(slot, FINGERPRINT_SLOT);
    let done = sandbox.release(pointer);
    let out = sqli_outcome(verdict, seen, done);
    proof {
        let f = Step::Read { pointer: slot, length: FINGERPRINT_SLOT, seen: contents(seen) };
        let r = Step::Release { pointer, done };
        assert(seq![a, w, d, f, r].skip(1) =~= seq![w, d, f, r]);
        assert(seq![w, d, f, r].skip(1) =~= seq![d, f, r]);
        assert(sandbox.history() =~= before + seq![a, w, d, f, r]);
        lemma_sqli_exchanged(before, text@, seq![a, w, d, f, r], sqli_answer(out));
        if out is Ok {
            lemma_sqli_fingerprint_bounded(text@, seq![a, w, d, f, r], sqli_answer(out));
        }
    }
    out
}

/// What a query that has just made the exchange `steps` owes its caller.
proof fn lemma_sqli_exchanged(before: Seq<Step>, text: Seq<u8>, steps: Seq<Step>, answer: SqliAnswer)
    requires
        sqli_exchange(text, steps, answer),
    ensures
        before.is_prefix_of(before + steps),
        (before + steps).skip(before.len() as int) == steps,
        outstanding(before + steps) == outstanding(before),
{
    assert((before + steps).skip(before.len() as int) =~= steps);
    lemma_sqli_exchange_is_round_trip(text, steps, answer);
    lemma_round_trip_settles(before, steps);
}

/// Asks the sandbox whether `input` is a cross-site-scripting attack.
///
/// The sandbox's history grows by one exchange for the bytes of `input`, the
/// answer is the one that this exchange gives, and the sandbox is owed no
/// more releases after the call than before it.
pub fn is_xss(sandbox: &mut Sandbox, input: &str) -> (out: Result<bool, QueryError>)
    requires
        old(sandbox).wf(),
    ensures
        final(sandbox).wf(),
        final(sandbox).is_still(*old(sandbox)),
        old(sandbox).history().is_prefix_of(final(sandbox).history()),
        xss_exchange(
            input.spec_bytes(),
            final(sandbox).history().skip(old(sandbox).history().len() as int),
            out,
        ),
        out == Err::<bool, QueryError>(QueryError::InputTooLong) <==> input.spec_bytes().len()
            > u32::MAX,
        final(sandbox).outstanding() == old(sandbox).outstanding(),
{
    let text = input.as_bytes();
    let ghost before = sandbox.history();
    if text.len() > u32::MAX as usize {
        proof {
            assert(sandbox.history() =~= before + Seq::<Step>::empty());
            lemma_xss_exchanged(before, text@, Seq::empty(), Err(QueryError::InputTooLong));
        }
        return Err(QueryError::InputTooLong);
    }
    let length: u32 = text.len() as u32;
    let granted = sandbox.allocate(length);
    let ghost a = Step::Allocate { size: length, granted };
    let pointer = match granted {
        Some(pointer) => pointer,
        None => {
            proof {
                assert(sandbox.history() =~= before + seq![a]);
                lemma_xss_exchanged(before, text@, seq![a], Err(QueryError::AllocateFailed));
            }
            return Err(QueryError::AllocateFailed);
        },
    };
    let stored = sandbox.write(pointer, text);
    let ghost w = Step::Write { pointer, bytes: text@, stored };
    if !stored {
        let done = sandbox.release(pointer);
        proof {
            let r = Step::Release { pointer, done };
            assert(seq![a, w, r].skip(1) =~= seq![w, r]);
            assert(seq![w, r].skip(1) =~= seq![r]);
            assert(sandbox.history() =~= before + seq![a, w, r]);
            lemma_xss_exchanged(before, text@, seq![a, w, r], Err(QueryError::OutOfBounds));
        }
        return Err(QueryError::OutOfBounds);
    }
    let ghost memory = sandbox.memory();
    let verdict = sandbox.detect_xss(pointer, length);
    let done = sandbox.release(pointer);
    let out = xss_outcome(verdict, done);
    proof {
        let d = Step::DetectXss { pointer, length, memory, verdict };
        let r = Step::Release { pointer, done };
        assert(seq![a, w, d, r].skip(1) =~= seq![w, d, r]);
        assert(sandbox.history() =~= before + seq![a, w, d, r]);
        lemma_xss_exchanged(before, text@, seq![a, w, d, r], out);
    }
    out
}

/// What a query that has just made the exchange `steps` owes its caller.
proof fn lemma_xss_exchanged(before: Seq<Step>, text: Seq<u8>, steps: Seq<Step>, answer: XssAnswer)
    requires
        xss_exchange(text, steps, answer),
    ensures
        before.is_prefix_of(before + steps),
        (before + steps).skip(before.len() as int) == steps,
        outstanding(before + steps) == outstanding(before),
{
    assert((before + steps).skip(before.len() as int) =~= steps);
    lemma_xss_exchange_is_round_trip(text, steps, answer);
    lemma_round_trip_settles(before, steps);
}

} // verus!
