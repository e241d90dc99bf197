//! Server-sent-event framing of provider streams: bytes are buffered with
//! line endings normalised to `\n`, events end at a blank line, and the
//! data of an event is the text of its `data:` lines.

use vstd::prelude::*;
use crate::text::{
    is_prefix, join_lines, join_with_newlines, lemma_lead_ws_unique, lemma_next_newline_bounds,
    next_newline, split_lines, starts_with, str_lines, to_owned, trim_start, trim_start_str, views,
    concat,
};

verus! {

/// The text from position `i` on, each `\r\n` replaced by `\n`, matches
/// taken from the left.
pub open spec fn crlf_from(s: Seq<char>, i: int) -> Seq<char>
    decreases s.len() - i,
{
    if i < 0 || i >= s.len() {
        Seq::empty()
    } else if i + 1 < s.len() && s[i] == '\r' && s[i + 1] == '\n' {
        seq!['\n'] + crlf_from(s, i + 2)
    } else {
        seq![s[i]] + crlf_from(s, i + 1)
    }
}

/// `str::replace("\r\n", "\n")`.
pub open spec fn replace_crlf(s: Seq<char>) -> Seq<char> {
    crlf_from(s, 0)
}

/// `s.replace("\r\n", "\n")`.
pub fn replace_crlf_str(s: &str) -> (r: String)
    ensures
        r@ == replace_crlf(s@),
{
    let n = s.unicode_len();
    let mut out = String::new();
    let mut start: usize = 0;
    let mut i: usize = 0;
    while i < n
        invariant
            n == s@.len(),
            start <= i <= n,
            out@ + s@.subrange(start as int, i as int) + crlf_from(s@, i as int) == crlf_from(s@, 0),
        decreases n - i,
    {
        if i + 1 < n && s.get_char(i) == '\r' && s.get_char(i + 1) == '\n' {
            let part = s.substring_char(start, i);
            let ghost before = out@;
            out.append(part);
            out.append("\n");
            proof {
                reveal_strlit("\n");
                assert(crlf_from(s@, i as int) == seq!['\n'] + crlf_from(s@, i + 2));
                assert(out@ + s@.subrange((i + 2) as int, (i + 2) as int) + crlf_from(s@, i + 2)
                    =~= before + s@.subrange(start as int, i as int) + crlf_from(s@, i as int));
            }
            i = i + 2;
            start = i;
        } else {
            proof {
                assert(crlf_from(s@, i as int) == seq![s@[i as int]] + crlf_from(s@, i + 1));
                assert(out@ + s@.subrange(start as int, i + 1) + crlf_from(s@, i + 1) =~= out@
                    + s@.subrange(start as int, i as int) + crlf_from(s@, i as int));
            }
            i = i + 1;
        }
    }
    let tail = s.substring_char(start, n);
    out.append(tail);
    assert(crlf_from(s@, n as int) =~= Seq::<char>::empty());
    assert(out@ =~= crlf_from(s@, 0));
    out
}

/// The position of the first blank line separator `\n\n` from `i` on.
pub open spec fn blank_from(s: Seq<char>, i: int) -> Option<int>
    decreases s.len() - i,
{
    if i < 0 || i + 1 >= s.len() {
        None
    } else if s[i] == '\n' && s[i + 1] == '\n' {
        Some(i)
    } else {
        blank_from(s, i + 1)
    }
}

proof fn lemma_blank_bounds(s: Seq<char>, i: int)
    requires
        0 <= i,
    ensures
        match blank_from(s, i) {
            Some(k) => i <= k && k + 1 < s.len() && s[k] == '\n' && s[k + 1] == '\n',
            None => true,
        },
    decreases s.len() - i,
{
    if i + 1 < s.len() && !(s[i] == '\n' && s[i + 1] == '\n') {
        lemma_blank_bounds(s, i + 1);
    }
}

/// What `String::from_utf8_lossy` gives for bytes: their UTF-8 text, each
/// invalid sequence replaced by U+FFFD.
pub uninterp spec fn utf8_lossy(bytes: Seq<u8>) -> Seq<char>;

/// `String::from_utf8_lossy`.
#[verifier::external_body]
fn decode_utf8_lossy(bytes: &[u8]) -> (r: String)
    ensures
        r@ == utf8_lossy(bytes@),
{
    String::from_utf8_lossy(bytes).to_string()
}

/// The text received from a stream and not yet split into events.
pub struct SseBuffer {
    buffer: String,
}

impl SseBuffer {
    /// The buffered text.
    pub closed spec fn text(&self) -> Seq<char> {
        self.buffer@
    }

    /// An empty buffer.
    pub fn new() -> (r: Self)
        ensures
            r.text() == Seq::<char>::empty(),
    {
        SseBuffer { buffer: String::new() }
    }

    /// Appends received text, normalising `\r\n` to `\n`.
    pub fn push_text(&mut self, chunk: &str)
        ensures
            final(self).text() == replace_crlf(old(self).text() + chunk@),
    {
        let mut joined = self.buffer.clone();
        joined.append(chunk);
        self.buffer = replace_crlf_str(joined.as_str());
    }

    /// Appends received bytes, decoded as UTF-8 with invalid sequences
    /// replaced.
    pub fn push_bytes(&mut self, bytes: &[u8])
        ensures
            final(self).text() == replace_crlf(old(self).text() + utf8_lossy(bytes@)),
    {
        let chunk = decode_utf8_lossy(bytes);
        self.push_text(chunk.as_str());
    }

    /// Takes the next complete event: the text before the first blank
    /// line, which is removed with it; `None` while no event is complete.
    pub fn next_event(&mut self) -> (r: Option<String>)
        ensures
            match blank_from(old(self).text(), 0) {
                Some(k) => r matches Some(e) && e@ == old(self).text().subrange(0, k)
                    && final(self).text() == old(self).text().subrange(k + 2, old(self).text().len() as int),
                None => r is None && final(self).text() == old(self).text(),
            },
    {
        let n = self.buffer.as_str().unicode_len();
        let ghost s = self.buffer@;
        let mut i: usize = 0;
        while n > 0 && i < n - 1
            invariant
                n == s.len(),
                s == self.buffer@,
                s == old(self).buffer@,
                blank_from(s, 0) == blank_from(s, i as int),
            decreases n - i,
        {
            if self.buffer.as_str().get_char(i) == '\n' && self.buffer.as_str().get_char(i + 1) == '\n' {
                let event = to_owned(self.buffer.as_str().substring_char(0, i));
                let rest = to_owned(self.buffer.as_str().substring_char(i + 2, n));
                self.buffer = rest;
                return Some(event);
            }
            i = i + 1;
        }
        None
    }
}

/// The data lines of an event's lines: the text after `data:`, leading
/// whitespace removed.
pub open spec fn data_lines(ls: Seq<Seq<char>>) -> Seq<Seq<char>>
    decreases ls.len(),
{
    if ls.len() == 0 {
        Seq::empty()
    } else {
        let rest = data_lines(ls.drop_last());
        let l = ls.last();
        if is_prefix("data:"@, l) {
            rest.push(trim_start(l.subrange(5, l.len() as int)))
        } else {
            rest
        }
    }
}

/// The data of an event: its data lines joined by `\n`, or `None` when it
/// has none.
pub open spec fn spec_event_data(event: Seq<char>) -> Option<Seq<char>> {
    let d = data_lines(str_lines(event));
    if d.len() == 0 {
        None
    } else {
        Some(join_lines(d))
    }
}

/// The data an event carries.
pub fn event_data(event: &str) -> (r: Option<String>)
    ensures
        match spec_event_data(event@) {
            Some(d) => r matches Some(s) && s@ == d,
            None => r is None,
        },
{
    proof {
        reveal_strlit("data:");
    }
    let lines = split_lines(event);
    let mut data: Vec<String> = Vec::new();
    let mut i: usize = 0;
    while i < lines.len()
        invariant
            i <= lines@.len(),
            views(lines@) == str_lines(event@),
            views(data@) == data_lines(views(lines@).subrange(0, i as int)),
        decreases lines@.len() - i,
    {
        let ghost pre = views(lines@).subrange(0, i as int);
        assert(views(lines@).subrange(0, i + 1).drop_last() =~= pre);
        assert(views(lines@).subrange(0, i + 1).last() == lines@[i as int]@);
        let line = lines[i].as_str();
        proof {
            reveal_strlit("data:");
        }
        if starts_with(line, "data:") {
            let rest = line.substring_char(5, line.unicode_len());
            let t = trim_start_str(rest);
            let ghost before = views(data@);
            data.push(to_owned(t));
            assert(views(data@) =~= before.push(t@));
        }
        i = i + 1;
    }
    assert(views(lines@).subrange(0, lines@.len() as int) =~= views(lines@));
    if data.len() == 0 {
        None
    } else {
        Some(join_with_newlines(data.as_slice()))
    }
}

/// `data: <payload>` and a blank line: one event.
pub open spec fn spec_frame(payload: Seq<char>) -> Seq<char> {
    "data: "@ + payload + "\n\n"@
}

/// The event that carries `payload`.
pub fn sse_frame(payload: &str) -> (r: String)
    ensures
        r@ == spec_frame(payload@),
{
    let head = concat("data: ", payload);
    concat(head.as_str(), "\n\n")
}

proof fn lemma_crlf_identity(s: Seq<char>, i: int)
    requires
        0 <= i <= s.len(),
        !s.contains('\r'),
    ensures
        crlf_from(s, i) == s.subrange(i, s.len() as int),
    decreases s.len() - i,
{
    if i < s.len() {
        assert(s[i] != '\r');
        lemma_crlf_identity(s, i + 1);
        assert(s.subrange(i, s.len() as int) =~= seq![s[i]] + s.subrange(i + 1, s.len() as int));
    } else {
        assert(s.subrange(i, s.len() as int) =~= Seq::<char>::empty());
    }
}

proof fn lemma_blank_skip(s: Seq<char>, i: int, k: int)
    requires
        0 <= i <= k,
        forall|j: int| i <= j < k ==> s[j] != '\n',
    ensures
        blank_from(s, i) == blank_from(s, k),
    decreases k - i,
{
    if i < k {
        lemma_blank_skip(s, i + 1, k);
    }
}

/// An event the gateway frames for its caller reads back, through a fresh
/// buffer, as the payload it carries: the frame is already normalised, its
/// event ends at its blank line, and the data of that event is the payload
/// (for a payload without line breaks that does not start with
/// whitespace).
pub proof fn law_frame_reads_back(p: Seq<char>)
    requires
        !p.contains('\n'),
        !p.contains('\r'),
        p.len() == 0 || !crate::text::is_ws(p[0]),
    ensures
        replace_crlf(Seq::<char>::empty() + spec_frame(p)) == spec_frame(p),
        blank_from(spec_frame(p), 0) == Some(6 + p.len() as int),
        spec_event_data(spec_frame(p).subrange(0, 6 + p.len() as int)) == Some(p),
{
    reveal_strlit("data: ");
    reveal_strlit("\n\n");
    reveal_strlit("data:");
    let f = spec_frame(p);
    let head = seq!['d', 'a', 't', 'a', ':', ' '];
    assert("data: "@ =~= head);
    assert(f =~= head + p + seq!['\n', '\n']);
    assert(Seq::<char>::empty() + f =~= f);
    assert(!f.contains('\r')) by {
        if f.contains('\r') {
            let j = choose|j: int| 0 <= j < f.len() && f[j] == '\r';
            if j >= 6 && j < 6 + p.len() {
                assert(p[j - 6] == '\r');
            }
        }
    }
    lemma_crlf_identity(f, 0);
    assert(f.subrange(0, f.len() as int) =~= f);
    assert forall|j: int| 0 <= j < 6 + p.len() implies f[j] != '\n' by {
        if j >= 6 {
            assert(f[j] == p[j - 6]);
        }
    }
    lemma_blank_skip(f, 0, 6 + p.len() as int);
    assert(f[6 + p.len() as int] == '\n' && f[7 + p.len() as int] == '\n');
    let e = f.subrange(0, 6 + p.len() as int);
    assert(e =~= head + p);
    lemma_next_newline_bounds(e, 0);
    assert(next_newline(e, 0) is None) by {
        match next_newline(e, 0) {
            Some(k) => {
                assert(e[k] == f[k]);
            },
            None => {},
        }
    }
    assert(str_lines(e) == seq![e]);
    assert(is_prefix("data:"@, e)) by {
        assert(e.subrange(0, 5) =~= "data:"@);
    }
    let rest = e.subrange(5, e.len() as int);
    assert(rest =~= seq![' '] + p);
    assert forall|i: int| 0 <= i < 1 implies crate::text::is_ws(#[trigger] rest[i]) by {}
    if p.len() > 0 {
        assert(rest[1] == p[0]);
    }
    lemma_lead_ws_unique(rest, 1);
    assert(trim_start(rest) =~= p);
    assert(seq![e].drop_last() =~= Seq::<Seq<char>>::empty());
    assert(seq![e].last() == e);
    assert(data_lines(Seq::<Seq<char>>::empty()) == Seq::<Seq<char>>::empty());
    assert(data_lines(seq![e]) == Seq::<Seq<char>>::empty().push(trim_start(rest)));
    assert(data_lines(seq![e]) =~= seq![p]);
    assert(join_lines(seq![p]) == p);
}

} // verus!
