//! The loop driver on a whole session: given the lines an input stream
//! yields and the way it ends, what the program writes.

use vstd::prelude::*;
use crate::repl::{prompt, echo_of, line_content, error_report, prompt_text, respond, error_text};

verus! {

/// The full text the loop writes to the output stream for a session whose
/// reads yield exactly `contents` (already stripped of terminators): a prompt
/// before every read, and an echo after every successful one.  The final
/// prompt is the one after which the stream ends.
pub open spec fn transcript(contents: Seq<Seq<char>>) -> Seq<char>
    decreases contents.len(),
{
    if contents.len() == 0 {
        prompt()
    } else {
        transcript(contents.drop_last()) + echo_of(contents.last()) + prompt()
    }
}

/// The echo each iteration writes, one per line of the stream.
pub open spec fn echoes_of(contents: Seq<Seq<char>>) -> Seq<Seq<char>> {
    contents.map_values(|content: Seq<char>| echo_of(content))
}

/// The contents of the raw lines a stream yields, terminators stripped.
pub open spec fn contents_of(raw_lines: Seq<String>) -> Seq<Seq<char>> {
    raw_lines.map_values(|raw: String| line_content(raw@))
}

/// The transcript always ends with the prompt: whatever was read so far, the
/// last thing on the output stream is the prompt for the next read.
pub proof fn lemma_transcript_ends_with_prompt(contents: Seq<Seq<char>>)
    ensures
        transcript(contents).len() >= prompt().len(),
        prompt().is_suffix_of(transcript(contents)),
{
    if contents.len() == 0 {
        assert(prompt() =~= prompt().subrange(0, prompt().len() as int));
    } else {
        let t = transcript(contents);
        assert(prompt() =~= t.subrange(t.len() - prompt().len(), t.len() as int));
    }
}

/// The prompt is observable before every read blocks: when the loop is about
/// to perform its read number `k` (counting from zero), the text written so
/// far is the transcript of the first `k` lines, which is a prefix of the
/// session's full transcript and ends with the prompt.
pub proof fn lemma_prompt_before_read(contents: Seq<Seq<char>>, k: int)
    requires
        0 <= k <= contents.len(),
    ensures
        transcript(contents.take(k)).is_prefix_of(transcript(contents)),
        prompt().is_suffix_of(transcript(contents.take(k))),
    decreases contents.len() - k,
{
    lemma_transcript_ends_with_prompt(contents.take(k));
    if k == contents.len() {
        assert(contents.take(k) =~= contents);
        let t = transcript(contents);
        assert(t =~= t.subrange(0, t.len() as int));
    } else {
        assert(contents.take(k + 1).drop_last() =~= contents.take(k));
        let t1 = transcript(contents.take(k));
        let t2 = transcript(contents.take(k + 1));
        assert(t2 == t1 + echo_of(contents[k]) + prompt());
        lemma_prompt_before_read(contents, k + 1);
        let t = transcript(contents);
        assert(t1 =~= t.subrange(0, t1.len() as int)) by {
            assert(t2 =~= t.subrange(0, t2.len() as int));
            assert(forall|i: int| 0 <= i < t1.len() ==> t1[i] == t2[i]);
        }
    }
}

/// No cross-iteration leakage: the echo of iteration `k` is determined by
/// line `k` alone.  Two streams that agree on their line number `k` produce
/// the same echo there, however much the rest of their lines differ.
pub proof fn lemma_no_cross_iteration_leakage(a: Seq<Seq<char>>, b: Seq<Seq<char>>, k: int)
    requires
        0 <= k < a.len(),
        0 <= k < b.len(),
        a[k] == b[k],
    ensures
        echoes_of(a)[k] == echoes_of(b)[k],
{
}

/// How the input stream ends after its last full line.
#[derive(Debug, PartialEq, Eq)]
pub enum StreamEnd {
    /// Clean closure: a read returned no data.
    Closed,
    /// A read reported a failure; the payload is its description.
    Failed(String),
}

/// Everything a session writes: the output stream's text, the echo each
/// iteration produced, and the error-stream report if the stream failed.
/// The process exits successfully in either case.
#[derive(Debug, PartialEq, Eq)]
pub struct SessionLog {
    pub out: String,
    pub echoes: Vec<String>,
    pub report: Option<String>,
}

/// The loop driver, run on a stream that yields `raw_lines` in order and
/// then ends as `end` says.  Each iteration prompts, reads one line, echoes
/// its content, and carries nothing over to the next; the final prompt is
/// answered by the end of the stream.
pub fn run(raw_lines: &Vec<String>, end: &StreamEnd) -> (log: SessionLog)
    ensures
        log.out@ == transcript(contents_of(raw_lines@)),
        log.echoes@.map_values(|e: String| e@) == echoes_of(contents_of(raw_lines@)),
        log.echoes@.len() == raw_lines@.len(),
        forall|i: int|
            0 <= i < raw_lines@.len() ==> (#[trigger] log.echoes@[i])@ == echo_of(
                line_content(raw_lines@[i]@),
            ),
        end == StreamEnd::Closed ==> log.report is None,
        end matches StreamEnd::Failed(d) ==> log.report matches Some(r) && r@ == error_report(d@),
{
    let ghost contents = contents_of(raw_lines@);
    let mut out = prompt_text();
    let mut echoes: Vec<String> = Vec::new();
    let mut i: usize = 0;
    proof {
        assert(contents.take(0) =~= Seq::<Seq<char>>::empty());
    }
    while i < raw_lines.len()
        invariant
            i <= raw_lines@.len(),
            contents == contents_of(raw_lines@),
            out@ == transcript(contents.take(i as int)),
            echoes@.len() == i,
            forall|j: int|
                0 <= j < i ==> (#[trigger] echoes@[j])@ == echo_of(line_content(raw_lines@[j]@)),
        decreases raw_lines@.len() - i,
    {
        let echo = respond(raw_lines[i].as_str());
        out.append(echo.as_str());
        let p = prompt_text();
        out.append(p.as_str());
        echoes.push(echo);
        proof {
            assert(contents.take(i + 1).drop_last() =~= contents.take(i as int));
            assert(contents.take(i + 1).last() == line_content(raw_lines@[i as int]@));
        }
        i = i + 1;
    }
    proof {
        assert(contents.take(raw_lines@.len() as int) =~= contents);
        assert(echoes@.map_values(|e: String| e@) =~= echoes_of(contents));
    }
    let report = match end {
        StreamEnd::Closed => None,
        StreamEnd::Failed(description) => Some(error_text(description.as_str())),
    };
    SessionLog { out, echoes, report }
}

} // verus!
