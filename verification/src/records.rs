//! Decoder for newline-delimited structured records.
//!
//! Events and build/pull progress arrive as JSON values, one per line.
//! The line splitting is verified byte logic ([`crate::lines`]); the
//! JSON parse of each line is the JSON library's, behind a trusted
//! wrapper. A decode failure on one line is fail-fast: the session
//! fails at once and emits nothing further, since a malformed record
//! most often means a corrupted connection rather than one bad line.

use vstd::prelude::*;

use crate::error::ProtocolError;
use crate::lines::{byte_views, join_lines, lemma_lines_round_trip, split_lines, terminator_free, LineDecoder};

verus! {

#[verifier::external_type_specification]
#[verifier::external_body]
pub struct ExValue(serde_json::Value);

#[verifier::external_type_specification]
#[verifier::external_body]
pub struct ExJsonError(serde_json::Error);

/// Whether a byte sequence parses as one JSON value. The parse is a
/// pure function of the bytes, so the outcome has a name that the
/// decoder's contracts can speak of.
pub uninterp spec fn json_ok(line: Seq<u8>) -> bool;

/// Relies on serde_json::from_slice::<serde_json::Value>: parsing
/// succeeds or fails depending on the input bytes alone.
#[verifier::external_body]
fn parse_json(line: &[u8]) -> (r: Result<serde_json::Value, serde_json::Error>)
    ensures
        r is Ok <==> json_ok(line@),
{
    serde_json::from_slice(line)
}

/// Every line parses as a JSON value.
pub open spec fn all_ok(ls: Seq<Seq<u8>>) -> bool {
    forall|i: int| 0 <= i < ls.len() ==> json_ok(#[trigger] ls[i])
}

/// The lines before the first one that fails to parse: exactly the
/// lines a fail-fast decoder turns into records.
pub open spec fn ok_prefix(ls: Seq<Seq<u8>>) -> Seq<Seq<u8>>
    decreases ls.len(),
{
    if ls.len() == 0 {
        seq![]
    } else if json_ok(ls[0]) {
        seq![ls[0]] + ok_prefix(ls.skip(1))
    } else {
        seq![]
    }
}

/// When every line parses, the fail-fast prefix is the whole sequence.
pub proof fn lemma_ok_prefix_all(ls: Seq<Seq<u8>>)
    requires
        all_ok(ls),
    ensures
        ok_prefix(ls) == ls,
    decreases ls.len(),
{
    if ls.len() > 0 {
        assert(forall|i: int| 0 <= i < ls.skip(1).len() ==> ls.skip(1)[i] == ls[i + 1]);
        lemma_ok_prefix_all(ls.skip(1));
        assert(ok_prefix(ls) =~= ls);
    }
}

/// The fail-fast prefix stops exactly at the first malformed line.
pub proof fn lemma_ok_prefix_stops(ls: Seq<Seq<u8>>, j: int)
    requires
        0 <= j < ls.len(),
        forall|i: int| 0 <= i < j ==> json_ok(#[trigger] ls[i]),
        !json_ok(ls[j]),
    ensures
        ok_prefix(ls) == ls.take(j),
    decreases j,
{
    if j == 0 {
        assert(ok_prefix(ls) =~= ls.take(0));
    } else {
        assert(forall|i: int| 0 <= i < ls.skip(1).len() ==> ls.skip(1)[i] == ls[i + 1]);
        lemma_ok_prefix_stops(ls.skip(1), j - 1);
        assert(ok_prefix(ls) =~= ls.take(j));
    }
}

/// Fail-fast: once a malformed line stands at position `j`, no record
/// at or past `j` is ever emitted, whatever follows. In particular a
/// stream whose first line is malformed emits zero records.
pub proof fn lemma_fail_fast(ls: Seq<Seq<u8>>, j: int)
    requires
        0 <= j < ls.len(),
        !json_ok(ls[j]),
    ensures
        !all_ok(ls),
        ok_prefix(ls).len() <= j,
    decreases j,
{
    if j == 0 {
    } else if !json_ok(ls[0]) {
    } else {
        assert(forall|i: int| 0 <= i < ls.skip(1).len() ==> ls.skip(1)[i] == ls[i + 1]);
        lemma_fail_fast(ls.skip(1), j - 1);
    }
}

/// A prefix of parsing lines passes the fail-fast cut through to what
/// follows it.
proof fn lemma_ok_prefix_append(a: Seq<Seq<u8>>, b: Seq<Seq<u8>>)
    requires
        all_ok(a),
    ensures
        ok_prefix(a + b) == a + ok_prefix(b),
    decreases a.len(),
{
    if a.len() == 0 {
        assert(a + b =~= b);
        assert(a + ok_prefix(b) =~= ok_prefix(b));
    } else {
        assert((a + b)[0] == a[0]);
        assert((a + b).skip(1) =~= a.skip(1) + b);
        assert(forall|i: int| 0 <= i < a.skip(1).len() ==> a.skip(1)[i] == a[i + 1]);
        lemma_ok_prefix_append(a.skip(1), b);
        assert(ok_prefix(a + b) =~= a + ok_prefix(b));
    }
}

/// Round trip of the record framing: any terminator-free record texts
/// that each parse as a JSON value, serialized as newline-joined lines,
/// come back from the decoder as exactly those texts, in order, with no
/// failure — and, by [`RecordDecoder::push_chunk`]'s contract, this
/// holds whatever the chunk boundaries of the re-split bytes. That each
/// emitted record equals the value its text was serialized from is the
/// JSON library's round trip, exercised by the tests.
pub proof fn lemma_record_round_trip(ls: Seq<Seq<u8>>)
    requires
        forall|i: int| 0 <= i < ls.len() ==> terminator_free(#[trigger] ls[i]),
        forall|i: int| 0 <= i < ls.len() ==> json_ok(#[trigger] ls[i]),
    ensures
        split_lines(join_lines(ls)).lines == ls,
        split_lines(join_lines(ls)).rest == Seq::<u8>::empty(),
        all_ok(split_lines(join_lines(ls)).lines),
        ok_prefix(split_lines(join_lines(ls)).lines) == ls,
{
    lemma_lines_round_trip(ls);
    lemma_ok_prefix_all(ls);
}

/// Decoder for one streaming session: turns arbitrarily chunked bytes
/// into ordered structured records, one per line, failing fast on the
/// first line that does not parse.
pub struct RecordDecoder {
    lines: LineDecoder,
    failed: bool,
    emitted_lines: Ghost<Seq<Seq<u8>>>,
}

impl RecordDecoder {
    /// Every byte consumed so far, in arrival order.
    pub closed spec fn history(self) -> Seq<u8> {
        self.lines.history()
    }

    /// The lines whose records have been emitted, in emission order.
    pub closed spec fn emitted_lines(self) -> Seq<Seq<u8>> {
        self.emitted_lines@
    }

    /// Whether the session has terminally failed on a malformed line.
    pub closed spec fn failed(self) -> bool {
        self.failed
    }

    /// The decoder's invariant: the records emitted come from exactly
    /// the fail-fast prefix of the terminated lines of the consumed
    /// bytes, and the session has failed exactly when some terminated
    /// line does not parse.
    pub closed spec fn wf(self) -> bool {
        &&& self.lines.wf()
        &&& self.emitted_lines@ == ok_prefix(split_lines(self.lines.history()).lines)
        &&& self.failed == !all_ok(split_lines(self.lines.history()).lines)
    }

    /// Open a decode session.
    pub fn new() -> (d: RecordDecoder)
        ensures
            d.wf(),
            d.history() == Seq::<u8>::empty(),
            d.emitted_lines() == Seq::<Seq<u8>>::empty(),
            !d.failed(),
    {
        let lines = LineDecoder::new();
        proof {
            assert(split_lines(Seq::<u8>::empty()).lines =~= Seq::<Seq<u8>>::empty());
            assert(ok_prefix(Seq::<Seq<u8>>::empty()) =~= Seq::<Seq<u8>>::empty());
        }
        RecordDecoder { lines, failed: false, emitted_lines: Ghost(Seq::empty()) }
    }

    /// Consume one transport chunk and return the records of the lines
    /// it completes, in arrival order — or, at the first line that does
    /// not parse, the malformed-record error that terminally fails the
    /// session. Records of lines before the malformed one were emitted
    /// by earlier calls and stay valid; none after it are ever emitted.
    #[verifier::loop_isolation(false)]
    pub fn push_chunk(&mut self, chunk: &[u8]) -> (r: (
        Vec<serde_json::Value>,
        Option<ProtocolError>,
    ))
        requires
            old(self).wf(),
            !old(self).failed(),
        ensures
            final(self).wf(),
            final(self).history() == old(self).history() + chunk@,
            final(self).emitted_lines() == ok_prefix(split_lines(final(self).history()).lines),
            r.1 is None <==> all_ok(split_lines(final(self).history()).lines),
            r.1 is None <==> !final(self).failed(),
            old(self).emitted_lines().len() + r.0@.len() == final(self).emitted_lines().len(),
            r.1 matches Some(e) ==> e == ProtocolError::MalformedRecord,
    {
        let ghost old_lines = split_lines(old(self).history()).lines;
        let new_lines = self.lines.push_chunk(chunk);
        let ghost nv = byte_views(new_lines@);
        let ghost total = split_lines(self.lines.history()).lines;
        proof {
            assert(total == old_lines + nv);
            lemma_ok_prefix_all(old_lines);
        }
        let ghost snap = *self;
        let mut vals: Vec<serde_json::Value> = Vec::new();
        let mut k: usize = 0;
        while k < new_lines.len()
            invariant
                k <= new_lines.len(),
                vals@.len() == k,
                forall|i: int| 0 <= i < k ==> json_ok(#[trigger] nv[i]),
                *self == snap,
            decreases new_lines.len() - k,
        {
            match parse_json(new_lines[k].as_slice()) {
                Ok(v) => {
                    vals.push(v);
                },
                Err(_) => {
                    proof {
                        let j = old_lines.len() + k;
                        assert(total[j as int] == nv[k as int]);
                        assert(forall|i: int|
                            0 <= i < j ==> json_ok(#[trigger] total[i]) && (i < old_lines.len()
                                ==> total[i] == old_lines[i]) && (i >= old_lines.len() ==> total[i]
                                == nv[i - old_lines.len()]));
                        lemma_ok_prefix_stops(total, j as int);
                        lemma_fail_fast(total, j as int);
                        lemma_ok_prefix_append(old_lines, nv.take(k as int));
                        assert(total.take(j as int) =~= old_lines + nv.take(k as int));
                        self.emitted_lines@ = ok_prefix(total);
                    }
                    self.failed = true;
                    return (vals, Some(ProtocolError::MalformedRecord));
                },
            }
            k = k + 1;
        }
        proof {
            assert(all_ok(total)) by {
                assert(forall|i: int|
                    0 <= i < total.len() ==> (i < old_lines.len() ==> #[trigger] total[i]
                        == old_lines[i]) && (i >= old_lines.len() ==> total[i] == nv[i
                        - old_lines.len()]));
            }
            lemma_ok_prefix_all(total);
            self.emitted_lines@ = ok_prefix(total);
        }
        (vals, None)
    }

    /// Close the session at end of stream. A trailing unterminated
    /// line that parses on its own is emitted as the final record —
    /// some servers omit the terminator on the last line; one that does
    /// not parse is discarded; an empty carry-over is a normal
    /// completion.
    pub fn finish(&self) -> (r: Option<serde_json::Value>)
        requires
            self.wf(),
            !self.failed(),
        ensures
            r is Some <==> split_lines(self.history()).rest.len() > 0 && json_ok(
                split_lines(self.history()).rest,
            ),
    {
        match self.lines.finish() {
            None => None,
            Some(tail) => {
                match parse_json(tail.as_slice()) {
                    Ok(v) => Some(v),
                    Err(_) => None,
                }
            },
        }
    }
}

} // verus!
