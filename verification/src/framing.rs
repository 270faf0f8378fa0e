//! Wire framing for the worker's line protocol.
//!
//! A request is one line: the arguments joined by a tab character and
//! terminated by a newline.  A response is any number of lines followed by a
//! line that, once trimmed, equals a reserved sentinel token; the response
//! body is everything before the sentinel, trimmed.

use vstd::prelude::*;
use vstd::string::StrSliceExecFns;
use vstd::string::StringExecFns;

verus! {

/// Why reading a response off the worker's streams failed.
#[derive(PartialEq, Eq, Debug)]
pub enum ChannelError {
    /// The worker's output stream closed before the sentinel was seen.
    TerminatedUnexpectedly,
    /// Some read or write on the worker's streams failed; the message says
    /// why.
    Io(String),
}

/// The characters counted as whitespace when a line or a response body is
/// trimmed.
pub open spec fn is_space(c: char) -> bool {
    c == ' ' || c == '\t' || c == '\n' || c == '\r'
}

fn is_space_char(c: char) -> (b: bool)
    ensures
        b == is_space(c),
{
    c == ' ' || c == '\t' || c == '\n' || c == '\r'
}

/// `s` with its leading whitespace removed.
pub open spec fn trim_front(s: Seq<char>) -> Seq<char>
    decreases s.len(),
{
    if s.len() > 0 && is_space(s[0]) {
        trim_front(s.drop_first())
    } else {
        s
    }
}

/// `s` with its trailing whitespace removed.
pub open spec fn trim_back(s: Seq<char>) -> Seq<char>
    decreases s.len(),
{
    if s.len() > 0 && is_space(s.last()) {
        trim_back(s.drop_last())
    } else {
        s
    }
}

/// The trimmed form of a piece of text: whitespace removed from both ends.
pub open spec fn spec_trim(s: Seq<char>) -> Seq<char> {
    trim_back(trim_front(s))
}

proof fn lemma_trim_front_skip(s: Seq<char>, i: int)
    requires
        0 <= i <= s.len(),
        forall|k: int| 0 <= k < i ==> is_space(s[k]),
    ensures
        trim_front(s) == trim_front(s.subrange(i, s.len() as int)),
    decreases i,
{
    if i > 0 {
        assert(s.drop_first() =~= s.subrange(1, s.len() as int));
        lemma_trim_front_skip(s.drop_first(), i - 1);
        assert(s.drop_first().subrange(i - 1, s.drop_first().len() as int) =~= s.subrange(
            i,
            s.len() as int,
        ));
    } else {
        assert(s.subrange(0, s.len() as int) =~= s);
    }
}

proof fn lemma_trim_back_skip(s: Seq<char>, j: int)
    requires
        0 <= j <= s.len(),
        forall|k: int| j <= k < s.len() ==> is_space(s[k]),
    ensures
        trim_back(s) == trim_back(s.subrange(0, j)),
    decreases s.len() - j,
{
    if j < s.len() {
        assert(is_space(s.last()));
        assert(s.drop_last() =~= s.subrange(0, s.len() - 1));
        lemma_trim_back_skip(s.drop_last(), j);
        assert(s.drop_last().subrange(0, j) =~= s.subrange(0, j));
    } else {
        assert(s.subrange(0, s.len() as int) =~= s);
    }
}

/// The trimmed form of `s`, as `spec_trim` describes it.
pub fn trim_str(s: &str) -> (r: String)
    ensures
        r@ == spec_trim(s@),
{
    let n = s.unicode_len();
    let mut i: usize = 0;
    while i < n && is_space_char(s.get_char(i))
        invariant
            0 <= i <= n,
            n == s@.len(),
            forall|k: int| 0 <= k < i ==> is_space(s@[k]),
        decreases n - i,
    {
        i = i + 1;
    }
    let mut j: usize = n;
    while j > i && is_space_char(s.get_char(j - 1))
        invariant
            i <= j <= n,
            n == s@.len(),
            forall|k: int| j <= k < n ==> is_space(s@[k]),
        decreases j,
    {
        j = j - 1;
    }
    let piece = s.substring_char(i, j);
    let r = String::from_str(piece);
    proof {
        lemma_trim_front_skip(s@, i as int);
        let mid = s@.subrange(i as int, n as int);
        assert(trim_front(s@) == trim_front(mid));
        if i < n {
            assert(!is_space(mid[0]));
        }
        assert(trim_front(mid) == mid);
        lemma_trim_back_skip(mid, j - i);
        assert(mid.subrange(0, j - i) =~= s@.subrange(i as int, j as int));
        if j > i {
            assert(!is_space(s@.subrange(i as int, j as int).last()));
        }
        assert(trim_back(s@.subrange(i as int, j as int)) == s@.subrange(i as int, j as int));
        assert(r@ == spec_trim(s@));
    }
    r
}

/// The reserved token whose own line ends one response.
pub open spec fn spec_sentinel() -> Seq<char> {
    "<<<END_RESPONSE>>>"@
}

/// The sentinel token as text.
pub fn sentinel_text() -> (s: &'static str)
    ensures
        s@ == spec_sentinel(),
{
    "<<<END_RESPONSE>>>"
}

/// The arguments of one request, joined by the tab delimiter.
pub open spec fn spec_join(args: Seq<Seq<char>>) -> Seq<char>
    decreases args.len(),
{
    if args.len() == 0 {
        Seq::empty()
    } else if args.len() == 1 {
        args[0]
    } else {
        args[0] + seq!['\t'] + spec_join(args.drop_first())
    }
}

/// One encoded request: the joined arguments, newline-terminated.
pub open spec fn spec_request_line(args: Seq<Seq<char>>) -> Seq<char> {
    spec_join(args) + seq!['\n']
}

proof fn lemma_join_push(args: Seq<Seq<char>>, x: Seq<char>)
    ensures
        spec_join(args.push(x)) == if args.len() == 0 {
            x
        } else {
            spec_join(args) + seq!['\t'] + x
        },
    decreases args.len(),
{
    if args.len() == 0 {
        assert(args.push(x)[0] == x);
    } else if args.len() == 1 {
        assert(args.push(x).drop_first() =~= seq![x]);
        assert(spec_join(seq![x]) == x);
    } else {
        lemma_join_push(args.drop_first(), x);
        assert(args.push(x).drop_first() =~= args.drop_first().push(x));
        assert(args.push(x)[0] == args[0]);
        assert((args[0] + seq!['\t'] + (spec_join(args.drop_first()) + seq!['\t'] + x)) =~= ((
        args[0] + seq!['\t'] + spec_join(args.drop_first())) + seq!['\t'] + x));
    }
}

/// Encodes one request: the arguments joined by tabs, one newline at the
/// end.  The delimiter is not escaped; an argument holding a tab or a
/// newline cannot be told apart from two arguments on the wire, which is a
/// known weakness of this protocol.
pub fn encode_request(args: &Vec<String>) -> (line: String)
    ensures
        line@ == spec_request_line(args.deep_view()),
{
    let ghost dv = args.deep_view();
    let mut out = String::new();
    let mut idx: usize = 0;
    proof {
        assert(dv.take(0) =~= Seq::<Seq<char>>::empty());
    }
    while idx < args.len()
        invariant
            0 <= idx <= args.len(),
            dv == args.deep_view(),
            dv.len() == args@.len(),
            out@ == spec_join(dv.take(idx as int)),
        decreases args.len() - idx,
    {
        proof {
            reveal_strlit("\t");
            lemma_join_push(dv.take(idx as int), dv[idx as int]);
            assert(dv.take(idx as int).push(dv[idx as int]) =~= dv.take(idx as int + 1));
            assert("\t"@ =~= seq!['\t']);
        }
        if idx > 0 {
            out.append("\t");
        }
        out.append(args[idx].as_str());
        idx = idx + 1;
    }
    proof {
        reveal_strlit("\n");
        assert("\n"@ =~= seq!['\n']);
        assert(dv.take(args@.len() as int) =~= dv);
    }
    out.append("\n");
    out
}

/// The length of the first line of `s`, its newline included; the whole of
/// `s` when no newline remains.
pub open spec fn line_len(s: Seq<char>) -> int
    decreases s.len(),
{
    if s.len() == 0 {
        0
    } else if s[0] == '\n' {
        1
    } else {
        1 + line_len(s.drop_first())
    }
}

proof fn lemma_line_len_bounds(s: Seq<char>)
    ensures
        s.len() > 0 ==> 1 <= line_len(s) <= s.len(),
    decreases s.len(),
{
    if s.len() > 0 && s[0] != '\n' {
        lemma_line_len_bounds(s.drop_first());
        if s.drop_first().len() == 0 {
            assert(line_len(s.drop_first()) == 0);
        }
    }
}

proof fn lemma_line_len_at(s: Seq<char>, k: int)
    requires
        0 <= k <= s.len(),
        forall|m: int| 0 <= m < k ==> s[m] != '\n',
        k < s.len() ==> s[k] == '\n',
    ensures
        line_len(s) == if k < s.len() {
            k + 1
        } else {
            s.len() as int
        },
    decreases k,
{
    if s.len() > 0 && s[0] != '\n' {
        lemma_line_len_at(s.drop_first(), k - 1);
    }
}

/// The body of the first sentinel-terminated frame of `s`: the lines before
/// the first line that trims to the sentinel, concatenated; `None` when the
/// stream ends before such a line.
pub open spec fn spec_frame(s: Seq<char>) -> Option<Seq<char>>
    decreases s.len(),
    via spec_frame_decreases
{
    if s.len() == 0 {
        None
    } else {
        let n = line_len(s);
        let line = s.subrange(0, n);
        let rest = s.subrange(n, s.len() as int);
        if spec_trim(line) == spec_sentinel() {
            Some(Seq::empty())
        } else {
            match spec_frame(rest) {
                Some(b) => Some(line + b),
                None => None,
            }
        }
    }
}

#[via_fn]
proof fn spec_frame_decreases(s: Seq<char>) {
    lemma_line_len_bounds(s);
}

/// Accumulates the lines of one response until the sentinel line arrives.
pub struct FrameReader {
    /// The lines accumulated so far, concatenated, newlines included.
    pub buf: String,
    /// Whether the sentinel line has been seen.
    pub complete: bool,
}

impl FrameReader {
    /// An empty reader, ready for the first line.
    pub fn new() -> (r: FrameReader)
        ensures
            r.buf@ == Seq::<char>::empty(),
            !r.complete,
    {
        FrameReader { buf: String::new(), complete: false }
    }

    /// Takes the next line read off the worker's output stream, newline
    /// included.  Returns true when the line is the sentinel: the response
    /// is then complete and the sentinel line itself is discarded;
    /// otherwise the line joins the accumulated body.
    pub fn feed_line(&mut self, line: &str) -> (done: bool)
        requires
            !old(self).complete,
        ensures
            done == (spec_trim(line@) == spec_sentinel()),
            final(self).complete == done,
            done ==> final(self).buf == old(self).buf,
            !done ==> final(self).buf@ == old(self).buf@ + line@,
    {
        let t = trim_str(line);
        let sentinel = String::from_str(sentinel_text());
        if t == sentinel {
            self.complete = true;
            true
        } else {
            self.buf.append(line);
            false
        }
    }

    /// The finished response body: everything accumulated, trimmed.
    pub fn finish(self) -> (r: String)
        requires
            self.complete,
        ensures
            r@ == spec_trim(self.buf@),
    {
        trim_str(self.buf.as_str())
    }
}

/// Reads one framed response out of a complete stream, as the blocking
/// reader does line by line: the lines up to the first sentinel line form
/// the body, trimmed; a stream that ends without a sentinel line means the
/// worker terminated before finishing its response.
pub fn decode_frame(stream: &str) -> (r: Result<String, ChannelError>)
    ensures
        spec_frame(stream@) matches Some(body) ==> (r matches Ok(t) && t@ == spec_trim(body)),
        spec_frame(stream@) is None ==> r == Err::<String, ChannelError>(
            ChannelError::TerminatedUnexpectedly,
        ),
{
    let n = stream.unicode_len();
    let mut reader = FrameReader::new();
    let mut pos: usize = 0;
    proof {
        assert(stream@.subrange(0, n as int) =~= stream@);
        if spec_frame(stream@) is Some {
            assert(Seq::<char>::empty() + spec_frame(stream@)->0 =~= spec_frame(stream@)->0);
        }
    }
    while pos < n
        invariant
            0 <= pos <= n,
            n == stream@.len(),
            !reader.complete,
            spec_frame(stream@) == match spec_frame(stream@.subrange(pos as int, n as int)) {
                Some(b) => Some(reader.buf@ + b),
                None => None::<Seq<char>>,
            },
        decreases n - pos,
    {
        let ghost suffix = stream@.subrange(pos as int, n as int);
        let mut e: usize = pos;
        while e < n && stream.get_char(e) != '\n'
            invariant
                pos <= e <= n,
                n == stream@.len(),
                forall|k: int| pos <= k < e ==> stream@[k] != '\n',
            decreases n - e,
        {
            e = e + 1;
        }
        let end: usize = if e < n {
            e + 1
        } else {
            n
        };
        proof {
            lemma_line_len_at(suffix, e - pos);
            assert(line_len(suffix) == end - pos);
            assert(suffix.subrange(0, end - pos) =~= stream@.subrange(pos as int, end as int));
            assert(suffix.subrange(end - pos, suffix.len() as int) =~= stream@.subrange(
                end as int,
                n as int,
            ));
        }
        let line = stream.substring_char(pos, end);
        let ghost buf_before = reader.buf@;
        let done = reader.feed_line(line);
        if done {
            proof {
                assert(spec_frame(suffix) == Some(Seq::<char>::empty()));
                assert(buf_before + Seq::<char>::empty() =~= buf_before);
            }
            let body = reader.finish();
            return Ok(body);
        }
        proof {
            let rest = stream@.subrange(end as int, n as int);
            if spec_frame(rest) is Some {
                let b = spec_frame(rest)->0;
                assert(spec_frame(suffix) == Some(line@ + b));
                assert(buf_before + (line@ + b) =~= (buf_before + line@) + b);
            } else {
                assert(spec_frame(suffix) is None);
            }
        }
        pos = end;
    }
    proof {
        assert(stream@.subrange(pos as int, n as int) =~= Seq::<char>::empty());
    }
    Err(ChannelError::TerminatedUnexpectedly)
}

} // verus!
