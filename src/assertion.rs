//! Checks on captured output, with failure messages that quote both what was
//! expected and what was captured.
use vstd::prelude::*;
use crate::text::{contains_text, occurs_in, trim_text, trimmed};

verus! {

/// Which captured stream a check looked at.
#[derive(Clone, Copy, Debug, PartialEq, Eq, Structural)]
pub enum Stream {
    Stdout,
    Stderr,
}

pub open spec fn stream_label(s: Stream) -> Seq<char> {
    match s {
        Stream::Stdout => "STDOUT"@,
        Stream::Stderr => "STDERR"@,
    }
}

/// The texts of a list of strings.
pub open spec fn texts(v: Seq<String>) -> Seq<Seq<char>> {
    v.map_values(|s: String| s@)
}

/// The expected substrings, in their order, that do not occur in `text`.
pub open spec fn missing_from(expected: Seq<Seq<char>>, text: Seq<char>) -> Seq<Seq<char>>
    decreases expected.len(),
{
    if expected.len() == 0 {
        Seq::empty()
    } else {
        let rest = missing_from(expected.drop_last(), text);
        if occurs_in(expected.last(), text) {
            rest
        } else {
            rest.push(expected.last())
        }
    }
}

/// Why a check on captured output failed.
#[derive(Debug)]
pub enum AssertionFailure {
    /// Expected substrings that the stream lacked, and the stream's text.
    Missing { stream: Stream, missing: Vec<String>, actual: String },
    /// A substring that the stream held although it must not.
    Unexpected { stream: Stream, unexpected: String, actual: String },
    /// Two texts that differ after trimming; both are kept trimmed.
    NotEqual { expected: String, actual: String },
    /// A stream that should have been empty.
    NotEmpty { stream: Stream, actual: String },
}

/// One line of a missing-substring report.
pub open spec fn missing_line(label: Seq<char>, e: Seq<char>) -> Seq<char> {
    label + " did not contain '"@ + e + "'\n"@
}

/// The lines reporting each missing substring, in order.
pub open spec fn missing_lines(label: Seq<char>, missing: Seq<Seq<char>>) -> Seq<char>
    decreases missing.len(),
{
    if missing.len() == 0 {
        Seq::empty()
    } else {
        missing_lines(label, missing.drop_last()) + missing_line(label, missing.last())
    }
}

/// The text of the failure report.
pub open spec fn failure_message(f: AssertionFailure) -> Seq<char> {
    match f {
        AssertionFailure::Missing { stream, missing, actual } => missing_lines(
            stream_label(stream),
            texts(missing@),
        ) + stream_label(stream) + " was:\n"@ + actual@,
        AssertionFailure::Unexpected { stream, unexpected, actual } => stream_label(stream)
            + " unexpectedly contained '"@ + unexpected@ + "':\n"@ + actual@,
        AssertionFailure::NotEqual { expected, actual } => "expected '"@ + expected@
            + "' but found '"@ + actual@ + "'"@,
        AssertionFailure::NotEmpty { stream, actual } => "expected nothing on "@ + stream_label(
            stream,
        ) + ", found:\n"@ + actual@,
    }
}

/// The report quotes every expected text of the failure and the captured text.
pub open spec fn quotes_expected_and_actual(f: AssertionFailure, msg: Seq<char>) -> bool {
    match f {
        AssertionFailure::Missing { missing, actual, .. } => occurs_in(actual@, msg) && forall|
            k: int,
        |
            0 <= k < missing@.len() ==> occurs_in(#[trigger] missing@[k]@, msg),
        AssertionFailure::Unexpected { unexpected, actual, .. } => occurs_in(unexpected@, msg)
            && occurs_in(actual@, msg),
        AssertionFailure::NotEqual { expected, actual } => occurs_in(expected@, msg) && occurs_in(
            actual@,
            msg,
        ),
        AssertionFailure::NotEmpty { actual, .. } => occurs_in(actual@, msg),
    }
}

/// Text that occurs in a part occurs in any text built around that part.
pub proof fn lemma_occurs_within(x: Seq<char>, pre: Seq<char>, mid: Seq<char>, post: Seq<char>)
    requires
        occurs_in(x, mid),
    ensures
        occurs_in(x, pre + mid + post),
{
    let i = choose|i: int|
        0 <= i && i + x.len() <= mid.len() && #[trigger] mid.subrange(i, i + x.len()) == x;
    let whole = pre + mid + post;
    let j = pre.len() + i;
    assert(whole.subrange(j, j + x.len()) =~= mid.subrange(i, i + x.len()));
}

/// Every text occurs in itself.
pub proof fn lemma_occurs_self(x: Seq<char>)
    ensures
        occurs_in(x, x),
{
    let i: int = 0;
    assert(x.subrange(i, i + x.len()) =~= x);
}

/// Each reported substring occurs in the report's lines.
pub proof fn lemma_missing_lines_quote(label: Seq<char>, missing: Seq<Seq<char>>, k: int)
    requires
        0 <= k < missing.len(),
    ensures
        occurs_in(missing[k], missing_lines(label, missing)),
    decreases missing.len(),
{
    let front = missing_lines(label, missing.drop_last());
    if k == missing.len() - 1 {
        lemma_occurs_self(missing[k]);
        lemma_occurs_within(missing[k], label + " did not contain '"@, missing[k], "'\n"@);
        lemma_occurs_within(missing[k], front, missing_line(label, missing[k]), Seq::empty());
        assert(front + missing_line(label, missing[k]) + Seq::<char>::empty() =~= missing_lines(
            label,
            missing,
        ));
    } else {
        lemma_missing_lines_quote(label, missing.drop_last(), k);
        lemma_occurs_within(
            missing[k],
            Seq::empty(),
            front,
            missing_line(label, missing.last()),
        );
        assert(Seq::<char>::empty() + front + missing_line(label, missing.last())
            =~= missing_lines(label, missing));
    }
}

/// A failure report quotes the expected text and the captured text verbatim.
pub proof fn lemma_failure_message_quotes(f: AssertionFailure)
    ensures
        quotes_expected_and_actual(f, failure_message(f)),
{
    let msg = failure_message(f);
    match f {
        AssertionFailure::Missing { stream, missing, actual } => {
            let label = stream_label(stream);
            let lines = missing_lines(label, texts(missing@));
            lemma_occurs_self(actual@);
            lemma_occurs_within(actual@, lines + label + " was:\n"@, actual@, Seq::empty());
            assert(lines + label + " was:\n"@ + actual@ + Seq::<char>::empty() =~= msg);
            assert forall|k: int| 0 <= k < missing@.len() implies occurs_in(
                #[trigger] missing@[k]@,
                msg,
            ) by {
                lemma_missing_lines_quote(label, texts(missing@), k);
                lemma_occurs_within(
                    missing@[k]@,
                    Seq::empty(),
                    lines,
                    label + " was:\n"@ + actual@,
                );
                assert(Seq::<char>::empty() + lines + (label + " was:\n"@ + actual@) =~= msg);
            }
        },
        AssertionFailure::Unexpected { stream, unexpected, actual } => {
            let label = stream_label(stream);
            lemma_occurs_self(unexpected@);
            lemma_occurs_within(
                unexpected@,
                label + " unexpectedly contained '"@,
                unexpected@,
                "':\n"@ + actual@,
            );
            assert(label + " unexpectedly contained '"@ + unexpected@ + ("':\n"@ + actual@)
                =~= msg);
            lemma_occurs_self(actual@);
            lemma_occurs_within(
                actual@,
                label + " unexpectedly contained '"@ + unexpected@ + "':\n"@,
                actual@,
                Seq::empty(),
            );
            assert(label + " unexpectedly contained '"@ + unexpected@ + "':\n"@ + actual@
                + Seq::<char>::empty() =~= msg);
        },
        AssertionFailure::NotEqual { expected, actual } => {
            lemma_occurs_self(expected@);
            lemma_occurs_within(
                expected@,
                "expected '"@,
                expected@,
                "' but found '"@ + actual@ + "'"@,
            );
            assert("expected '"@ + expected@ + ("' but found '"@ + actual@ + "'"@) =~= msg);
            lemma_occurs_self(actual@);
            lemma_occurs_within(
                actual@,
                "expected '"@ + expected@ + "' but found '"@,
                actual@,
                "'"@,
            );
        },
        AssertionFailure::NotEmpty { stream, actual } => {
            lemma_occurs_self(actual@);
            lemma_occurs_within(
                actual@,
                "expected nothing on "@ + stream_label(stream) + ", found:\n"@,
                actual@,
                Seq::empty(),
            );
            assert("expected nothing on "@ + stream_label(stream) + ", found:\n"@ + actual@
                + Seq::<char>::empty() =~= msg);
        },
    }
}

impl Stream {
    /// The stream's name as it appears in reports.
    pub fn label(&self) -> (r: &'static str)
        ensures
            r@ == stream_label(*self),
    {
        match self {
            Stream::Stdout => "STDOUT",
            Stream::Stderr => "STDERR",
        }
    }
}

impl AssertionFailure {
    /// The human-readable report of this failure; it quotes both what was
    /// expected and what was captured.
    pub fn message(&self) -> (r: String)
        ensures
            r@ == failure_message(*self),
            quotes_expected_and_actual(*self, r@),
    {
        proof {
            lemma_failure_message_quotes(*self);
        }
        match self {
            AssertionFailure::Missing { stream, missing, actual } => {
                let label = stream.label();
                let mut out = String::new();
                let mut i: usize = 0;
                while i < missing.len()
                    invariant
                        i <= missing@.len(),
                        label@ == stream_label(*stream),
                        out@ == missing_lines(label@, texts(missing@).take(i as int)),
                    decreases missing@.len() - i,
                {
                    out.append(label);
                    out.append(" did not contain '");
                    out.append(missing[i].as_str());
                    out.append("'\n");
                    proof {
                        let t = texts(missing@);
                        assert(t.take(i + 1).drop_last() =~= t.take(i as int));
                    }
                    i = i + 1;
                }
                assert(texts(missing@).take(i as int) =~= texts(missing@));
                out.append(label);
                out.append(" was:\n");
                out.append(actual.as_str());
                out
            },
            AssertionFailure::Unexpected { stream, unexpected, actual } => {
                let mut out = String::new();
                out.append(stream.label());
                out.append(" unexpectedly contained '");
                out.append(unexpected.as_str());
                out.append("':\n");
                out.append(actual.as_str());
                out
            },
            AssertionFailure::NotEqual { expected, actual } => {
                let mut out = String::new();
                out.append("expected '");
                out.append(expected.as_str());
                out.append("' but found '");
                out.append(actual.as_str());
                out.append("'");
                out
            },
            AssertionFailure::NotEmpty { stream, actual } => {
                let mut out = String::new();
                out.append("expected nothing on ");
                out.append(stream.label());
                out.append(", found:\n");
                out.append(actual.as_str());
                out
            },
        }
    }
}

/// Checks that every expected substring occurs in `text` (case-sensitive,
/// unanchored, in any order). On failure all missing substrings are listed, in
/// the order given, with the full text.
pub fn assert_contains(stream: Stream, text: &str, expected: &Vec<String>) -> (r: Result<
    (),
    AssertionFailure,
>)
    ensures
        r is Ok <==> forall|k: int|
            0 <= k < expected@.len() ==> occurs_in(#[trigger] expected@[k]@, text@),
        r matches Err(f) ==> f matches AssertionFailure::Missing { stream: s, missing, actual } && s
            == stream && texts(missing@) == missing_from(texts(expected@), text@) && actual@
            == text@,
{
    let mut missing: Vec<String> = Vec::new();
    let mut i: usize = 0;
    while i < expected.len()
        invariant
            i <= expected@.len(),
            texts(missing@) == missing_from(texts(expected@).take(i as int), text@),
            missing@.len() == 0 <==> forall|k: int|
                0 <= k < i ==> occurs_in(#[trigger] expected@[k]@, text@),
        decreases expected@.len() - i,
    {
        let t = Ghost(texts(expected@));
        assert(t@.take(i + 1).drop_last() =~= t@.take(i as int));
        assert(t@.take(i + 1).last() == expected@[i as int]@);
        if !contains_text(text, expected[i].as_str()) {
            let e = expected[i].clone();
            missing.push(e);
            assert(texts(missing@) =~= missing_from(t@.take(i as int), text@).push(
                expected@[i as int]@,
            ));
        } else {
            assert(forall|k: int| 0 <= k < i + 1 ==> occurs_in(#[trigger] expected@[k]@, text@)
                <== (forall|k: int| 0 <= k < i ==> occurs_in(#[trigger] expected@[k]@, text@)));
        }
        i = i + 1;
    }
    assert(texts(expected@).take(i as int) =~= texts(expected@));
    if missing.len() == 0 {
        Ok(())
    } else {
        Err(AssertionFailure::Missing { stream, missing, actual: text.to_owned() })
    }
}

/// Checks that `unexpected` does not occur in `text`.
pub fn assert_not_contains(stream: Stream, text: &str, unexpected: &str) -> (r: Result<
    (),
    AssertionFailure,
>)
    ensures
        r is Ok <==> !occurs_in(unexpected@, text@),
        r matches Err(f) ==> f matches AssertionFailure::Unexpected { stream: s, unexpected: u, actual } && s
            == stream && u@ == unexpected@ && actual@ == text@,
{
    if contains_text(text, unexpected) {
        Err(
            AssertionFailure::Unexpected {
                stream,
                unexpected: unexpected.to_owned(),
                actual: text.to_owned(),
            },
        )
    } else {
        Ok(())
    }
}

/// Checks that two texts are equal once leading and trailing white space is
/// removed; inner white space counts.
pub fn assert_trimmed_equals(expected: &str, actual: &str) -> (r: Result<(), AssertionFailure>)
    ensures
        r is Ok <==> trimmed(expected@) == trimmed(actual@),
        r matches Err(f) ==> f matches AssertionFailure::NotEqual { expected: e, actual: a } && e@
            == trimmed(expected@) && a@ == trimmed(actual@),
{
    let e = trim_text(expected);
    let a = trim_text(actual);
    if e == a {
        Ok(())
    } else {
        Err(AssertionFailure::NotEqual { expected: e, actual: a })
    }
}

/// Checks that a captured stream is empty.
pub fn assert_empty(stream: Stream, text: &str) -> (r: Result<(), AssertionFailure>)
    ensures
        r is Ok <==> text@.len() == 0,
        r matches Err(f) ==> f matches AssertionFailure::NotEmpty { stream: s, actual } && s
            == stream && actual@ == text@,
{
    if text.is_empty() {
        Ok(())
    } else {
        Err(AssertionFailure::NotEmpty { stream, actual: text.to_owned() })
    }
}

} // verus!
