//! What the external client's captured output means: the result envelope of
//! the listing operations, and the text of a streamed generation.
use vstd::prelude::*;
use vstd::utf8::{decode_utf8, valid_utf8};
use crate::request::opt_text;
use crate::text::{lines_of, lossy_decode, lossy_text, split_lines, strings_view, utf8_decode, utf8_error_text};

verus! {

/// What one run of the external client produced.
pub struct RawOutput {
    pub stdout: Vec<u8>,
    pub stderr: Vec<u8>,
    /// Whether the client exited with a success status.
    pub success: bool,
}

pub struct RawOutputView {
    pub stdout: Seq<u8>,
    pub stderr: Seq<u8>,
    pub success: bool,
}

impl View for RawOutput {
    type V = RawOutputView;

    open spec fn view(&self) -> RawOutputView {
        RawOutputView { stdout: self.stdout@, stderr: self.stderr@, success: self.success }
    }
}

/// The normalized outcome of an operation: `data` on success, `error` on failure.
pub struct OperationResult {
    pub success: bool,
    pub data: Option<String>,
    pub error: Option<String>,
}

pub struct OperationResultView {
    pub success: bool,
    pub data: Option<Seq<char>>,
    pub error: Option<Seq<char>>,
}

impl View for OperationResult {
    type V = OperationResultView;

    open spec fn view(&self) -> OperationResultView {
        OperationResultView {
            success: self.success,
            data: opt_text(self.data),
            error: opt_text(self.error),
        }
    }
}

impl OperationResultView {
    /// Exactly one of `data` and `error` is present, as `success` says.
    pub open spec fn wf(self) -> bool {
        if self.success {
            self.data is Some && self.error is None
        } else {
            self.data is None && self.error is Some
        }
    }
}

pub open spec fn success_view(data: Seq<char>) -> OperationResultView {
    OperationResultView { success: true, data: Some(data), error: None }
}

pub open spec fn failure_view(error: Seq<char>) -> OperationResultView {
    OperationResultView { success: false, data: None, error: Some(error) }
}

impl OperationResult {
    pub fn succeeded(data: String) -> (r: OperationResult)
        ensures
            r@ == success_view(data@),
    {
        OperationResult { success: true, data: Some(data), error: None }
    }

    pub fn failed(error: String) -> (r: OperationResult)
        ensures
            r@ == failure_view(error@),
    {
        OperationResult { success: false, data: None, error: Some(error) }
    }
}

/// One decoded line of a streamed generation.
pub struct StreamFragment {
    pub response: String,
    pub done: Option<bool>,
}

pub struct StreamFragmentView {
    pub response: Seq<char>,
    pub done: Option<bool>,
}

impl View for StreamFragment {
    type V = StreamFragmentView;

    open spec fn view(&self) -> StreamFragmentView {
        StreamFragmentView { response: self.response@, done: self.done }
    }
}

/// Each line's fragment, or `None` for a line that did not decode.
pub open spec fn fragments_view(v: Seq<Option<StreamFragment>>) -> Seq<Option<StreamFragmentView>> {
    v.map_values(
        |f: Option<StreamFragment>|
            match f {
                Some(x) => Some(x@),
                None => None,
            },
    )
}

pub const EXIT_FAILURE_PREFIX: &'static str = "Command executed with failing error code: ";

pub const PARSE_FAILURE_PREFIX: &'static str = "Failed to parse output: ";

/// The error of a run that exited with a failure status: it quotes the
/// captured standard error, and nothing of the standard output.
pub open spec fn exit_failure_text(stderr: Seq<u8>) -> Seq<char> {
    EXIT_FAILURE_PREFIX@ + lossy_text(stderr)
}

/// The error of a run whose standard output is not valid UTF-8.
pub open spec fn parse_failure_text(stdout: Seq<u8>) -> Seq<char> {
    PARSE_FAILURE_PREFIX@ + utf8_error_text(stdout)
}

/// The outcome of a run whose output is taken whole: its text, or why not.
pub open spec fn output_text(raw: RawOutputView) -> Result<Seq<char>, Seq<char>> {
    if !raw.success {
        Err(exit_failure_text(raw.stderr))
    } else if valid_utf8(raw.stdout) {
        Ok(decode_utf8(raw.stdout))
    } else {
        Err(parse_failure_text(raw.stdout))
    }
}

/// The outcome of a run in the envelope shape.
pub open spec fn envelope_of(raw: RawOutputView) -> OperationResultView {
    match output_text(raw) {
        Ok(t) => success_view(t),
        Err(e) => failure_view(e),
    }
}

fn exit_failure_message(stderr: &Vec<u8>) -> (r: String)
    ensures
        r@ == exit_failure_text(stderr@),
{
    let mut r = String::from_str(EXIT_FAILURE_PREFIX);
    let captured = lossy_decode(stderr);
    r.append(captured.as_str());
    r
}

/// The standard output as text, or the error that the run amounts to.
pub fn take_output_text(raw: RawOutput) -> (r: Result<String, String>)
    ensures
        match (r, output_text(raw@)) {
            (Ok(s), Ok(t)) => s@ == t,
            (Err(e), Err(t)) => e@ == t,
            _ => false,
        },
{
    if !raw.success {
        return Err(exit_failure_message(&raw.stderr));
    }
    match utf8_decode(raw.stdout) {
        Ok(s) => Ok(s),
        Err(e) => {
            let mut r = String::from_str(PARSE_FAILURE_PREFIX);
            r.append(e.as_str());
            Err(r)
        },
    }
}

/// Single-envelope decoding: the standard output's text, unvalidated, as
/// the data of a success; a failed exit or undecodable output as a failure.
pub fn decode_envelope(raw: RawOutput) -> (r: OperationResult)
    ensures
        r@ == envelope_of(raw@),
        r@.wf(),
{
    match take_output_text(raw) {
        Ok(s) => OperationResult::succeeded(s),
        Err(e) => OperationResult::failed(e),
    }
}

/// The lines of a streamed generation that remain to be decoded one by one,
/// or the error that the run amounts to.
pub open spec fn stream_lines_of(raw: RawOutputView) -> Result<Seq<Seq<char>>, Seq<char>> {
    match output_text(raw) {
        Ok(t) => Ok(lines_of(t)),
        Err(e) => Err(e),
    }
}

/// Streaming decoding, first half: the output's lines, or the error.
pub fn stream_lines(raw: RawOutput) -> (r: Result<Vec<String>, String>)
    ensures
        match (r, stream_lines_of(raw@)) {
            (Ok(v), Ok(ls)) => strings_view(v@) == ls,
            (Err(e), Err(t)) => e@ == t,
            _ => false,
        },
{
    match take_output_text(raw) {
        Ok(s) => Ok(split_lines(s.as_str())),
        Err(e) => Err(e),
    }
}

/// The ordered concatenation of the `response` of every decoded line;
/// lines that did not decode add nothing, and `done` changes nothing.
pub open spec fn aggregate_of(frags: Seq<Option<StreamFragmentView>>) -> Seq<char>
    decreases frags.len(),
{
    if frags.len() == 0 {
        Seq::<char>::empty()
    } else {
        aggregate_of(frags.drop_last()) + match frags.last() {
            Some(f) => f.response,
            None => Seq::<char>::empty(),
        }
    }
}

/// Streaming decoding, second half: the generated text.
pub fn aggregate_fragments(frags: &Vec<Option<StreamFragment>>) -> (r: String)
    ensures
        r@ == aggregate_of(fragments_view(frags@)),
{
    let mut r = String::new();
    let mut i: usize = 0;
    while i < frags.len()
        invariant
            i <= frags@.len(),
            r@ == aggregate_of(fragments_view(frags@).take(i as int)),
        decreases frags@.len() - i,
    {
        let ghost fv = fragments_view(frags@);
        assert(fv.take(i as int + 1).drop_last() =~= fv.take(i as int));
        match &frags[i] {
            Some(f) => {
                r.append(f.response.as_str());
            },
            None => {},
        }
        i = i + 1;
    }
    proof {
        assert(fragments_view(frags@).take(frags@.len() as int) =~= fragments_view(frags@));
    }
    r
}

/// Concatenation of the responses of lines that all decoded.
pub open spec fn responses_concat(frags: Seq<StreamFragmentView>) -> Seq<char>
    decreases frags.len(),
{
    if frags.len() == 0 {
        Seq::<char>::empty()
    } else {
        responses_concat(frags.drop_last()) + frags.last().response
    }
}

/// When every line decodes, the generated text is the ordered concatenation
/// of the lines' `response` values, whatever their `done` flags say.
pub proof fn lemma_all_decoded_concatenate(frags: Seq<StreamFragmentView>)
    ensures
        aggregate_of(frags.map_values(|f: StreamFragmentView| Some(f))) == responses_concat(frags),
    decreases frags.len(),
{
    if frags.len() > 0 {
        lemma_all_decoded_concatenate(frags.drop_last());
        assert(frags.map_values(|f: StreamFragmentView| Some(f)).drop_last()
            =~= frags.drop_last().map_values(|f: StreamFragmentView| Some(f)));
    }
}

/// The `done` flags have no effect: lines with the same responses give the
/// same text, whatever their flags, even a `done` before the last line.
pub proof fn lemma_done_is_ignored(a: Seq<Option<StreamFragmentView>>, b: Seq<Option<StreamFragmentView>>)
    requires
        a.len() == b.len(),
        forall|i: int|
            0 <= i < a.len() ==> (#[trigger] a[i] is Some <==> b[i] is Some) && (a[i] is Some
                ==> a[i]->0.response == b[i]->0.response),
    ensures
        aggregate_of(a) == aggregate_of(b),
    decreases a.len(),
{
    if a.len() > 0 {
        lemma_done_is_ignored(a.drop_last(), b.drop_last());
        assert(a[a.len() - 1] is Some <==> b[b.len() - 1] is Some);
    }
}

/// A line that does not decode adds nothing and stops nothing: the lines
/// after it still count.
pub proof fn lemma_undecoded_line_skipped(
    before: Seq<Option<StreamFragmentView>>,
    after: Seq<Option<StreamFragmentView>>,
)
    ensures
        aggregate_of(before + seq![None] + after) == aggregate_of(before) + aggregate_of(after),
    decreases after.len(),
{
    if after.len() == 0 {
        assert((before + seq![None] + after).drop_last() =~= before);
        assert(before + seq![None] + after =~= before.push(None));
    } else {
        lemma_undecoded_line_skipped(before, after.drop_last());
        assert((before + seq![None] + after).drop_last() =~= before + seq![None] + after.drop_last());
    }
}

/// A run that exited with a failure status fails with an error that quotes
/// its standard error; its standard output does not matter.
pub proof fn lemma_exit_failure_reports_stderr(a: RawOutputView, b: RawOutputView)
    requires
        !a.success,
        !b.success,
        a.stderr == b.stderr,
    ensures
        envelope_of(a) == envelope_of(b),
        stream_lines_of(a) == stream_lines_of(b),
        envelope_of(a) == failure_view(EXIT_FAILURE_PREFIX@ + lossy_text(a.stderr)),
        stream_lines_of(a) == Err::<Seq<Seq<char>>, Seq<char>>(EXIT_FAILURE_PREFIX@ + lossy_text(a.stderr)),
        envelope_of(a).error->0.subrange(
            EXIT_FAILURE_PREFIX@.len() as int,
            envelope_of(a).error->0.len() as int,
        ) == lossy_text(a.stderr),
{
    assert((EXIT_FAILURE_PREFIX@ + lossy_text(a.stderr)).subrange(
        EXIT_FAILURE_PREFIX@.len() as int,
        (EXIT_FAILURE_PREFIX@ + lossy_text(a.stderr)).len() as int,
    ) =~= lossy_text(a.stderr));
}

} // verus!
