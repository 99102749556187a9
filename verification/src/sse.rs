//! Server-Sent Events framing: an incremental decoder that yields complete
//! events as they cross blank-line boundaries, and the frame writer.
use vstd::prelude::*;
use vstd::slice::{slice_subrange, slice_to_vec};
use vstd::utf8::{decode_utf8, encode_utf8, valid_utf8};
use crate::errors::GatewayError;
use crate::ir::StreamEvent;
use crate::text::{is_whitespace, is_ws, string_of, chars_of, trim_start_seq};

verus! {

broadcast use vstd::string::group_string_axioms;

/// One decoded Server-Sent Event. `data` is the concatenation of all `data:`
/// lines in the block (joined by `\n`), with the leading space stripped.
#[derive(Debug, PartialEq, Eq)]
pub struct SseEvent {
    pub event: Option<String>,
    pub data: String,
}

pub struct SseEventV {
    pub event: Option<Seq<char>>,
    pub data: Seq<char>,
}

impl View for SseEvent {
    type V = SseEventV;

    open spec fn view(&self) -> SseEventV {
        SseEventV {
            event: match self.event {
                Some(e) => Some(e@),
                None => None,
            },
            data: self.data@,
        }
    }
}

pub open spec fn sse_events_view(v: Seq<SseEvent>) -> Seq<SseEventV> {
    v.map_values(|e: SseEvent| e@)
}

// ---- block boundaries ------------------------------------------------------

pub open spec fn lf_at(b: Seq<u8>, i: int) -> bool {
    0 <= i && i + 1 < b.len() && b[i] == 10u8 && b[i + 1] == 10u8
}

pub open spec fn crlf_at(b: Seq<u8>, i: int) -> bool {
    0 <= i && i + 3 < b.len() && b[i] == 13u8 && b[i + 1] == 10u8 && b[i + 2] == 13u8 && b[i
        + 3] == 10u8
}

/// A blank line ends a block here: `\n\n` or `\r\n\r\n` starts at `i`.
pub open spec fn boundary_at(b: Seq<u8>, i: int) -> bool {
    lf_at(b, i) || crlf_at(b, i)
}

/// The first position at or after `i` where a block ends.
pub open spec fn scan_boundary(b: Seq<u8>, i: nat) -> Option<nat>
    decreases b.len() - i,
{
    if i >= b.len() {
        None
    } else if boundary_at(b, i as int) {
        Some(i)
    } else {
        scan_boundary(b, i + 1)
    }
}

/// The first block boundary of `b`: where the block ends, and where the
/// bytes after its terminator start.
pub open spec fn block_end(b: Seq<u8>) -> Option<(nat, nat)> {
    match scan_boundary(b, 0) {
        Some(e) => Some((e, if lf_at(b, e as int) { e + 2 } else { e + 4 })),
        None => None,
    }
}

pub proof fn lemma_scan(b: Seq<u8>, i: nat)
    ensures
        match scan_boundary(b, i) {
            Some(e) => i <= e && boundary_at(b, e as int) && forall|j: int|
                i <= j < e ==> !#[trigger] boundary_at(b, j),
            None => forall|j: int| i <= j < b.len() ==> !#[trigger] boundary_at(b, j),
        },
    decreases b.len() - i,
{
    if i < b.len() && !boundary_at(b, i as int) {
        lemma_scan(b, i + 1);
    }
}

/// `scan_boundary` finds the earliest boundary at or after `i`.
pub proof fn lemma_scan_is(b: Seq<u8>, i: nat, e: nat)
    requires
        i <= e,
        boundary_at(b, e as int),
        forall|j: int| i <= j < e ==> !#[trigger] boundary_at(b, j),
    ensures
        scan_boundary(b, i) == Some(e),
    decreases e - i,
{
    if i < e {
        lemma_scan_is(b, i + 1, e);
    }
}

pub proof fn lemma_block_end(b: Seq<u8>)
    ensures
        match block_end(b) {
            Some((e, c)) => e < c <= b.len() && c >= 2 && boundary_at(b, e as int),
            None => true,
        },
{
    lemma_scan(b, 0);
}

// ---- lines and fields of one block ------------------------------------------

/// `s` cut at every `\n` (k newlines give k + 1 pieces).
pub open spec fn split_nl(s: Seq<char>) -> Seq<Seq<char>>
    decreases s.len(),
{
    if s.len() == 0 {
        seq![Seq::empty()]
    } else {
        let p = split_nl(s.drop_last());
        if s.last() == '\n' {
            p.push(Seq::empty())
        } else {
            p.update(p.len() - 1, p.last().push(s.last()))
        }
    }
}

pub proof fn lemma_split_nl_len(s: Seq<char>)
    ensures
        split_nl(s).len() >= 1,
    decreases s.len(),
{
    if s.len() > 0 {
        lemma_split_nl_len(s.drop_last());
    }
}

pub open spec fn strip_cr(l: Seq<char>) -> Seq<char> {
    if l.len() > 0 && l.last() == '\r' {
        l.drop_last()
    } else {
        l
    }
}

/// The lines of a block as `str::lines` yields them: cut at `\n`, a `\r`
/// before a `\n` dropped. (A final empty piece, which `lines` omits, is kept
/// here; blank lines carry no field either way.)
pub open spec fn block_lines(s: Seq<char>) -> Seq<Seq<char>> {
    let p = split_nl(s);
    Seq::new(
        p.len(),
        |i: int|
            if i + 1 < p.len() {
                strip_cr(p[i])
            } else {
                p[i]
            },
    )
}

pub open spec fn event_prefix() -> Seq<char> {
    seq!['e', 'v', 'e', 'n', 't', ':']
}

pub open spec fn data_prefix() -> Seq<char> {
    seq!['d', 'a', 't', 'a', ':']
}

/// What one line contributes: an `event:` line sets the event name, a
/// `data:` line adds a data line; blank lines, `:` comments and other
/// fields change nothing.
pub open spec fn step_line(acc: (Option<Seq<char>>, Seq<Seq<char>>), line: Seq<char>) -> (
    Option<Seq<char>>,
    Seq<Seq<char>>,
) {
    if line.len() == 0 || line[0] == ':' {
        acc
    } else if line.len() >= 6 && line.take(6) == event_prefix() {
        (Some(trim_start_seq(line.skip(6))), acc.1)
    } else if line.len() >= 5 && line.take(5) == data_prefix() {
        let rest = line.skip(5);
        (
            acc.0,
            acc.1.push(
                if rest.len() > 0 && rest[0] == ' ' {
                    rest.skip(1)
                } else {
                    rest
                },
            ),
        )
    } else {
        acc
    }
}

pub open spec fn fold_lines(ls: Seq<Seq<char>>) -> (Option<Seq<char>>, Seq<Seq<char>>)
    decreases ls.len(),
{
    if ls.len() == 0 {
        (None, Seq::empty())
    } else {
        step_line(fold_lines(ls.drop_last()), ls.last())
    }
}

/// Lines joined with `\n` between them.
pub open spec fn join_nl(ls: Seq<Seq<char>>) -> Seq<char>
    decreases ls.len(),
{
    if ls.len() == 0 {
        Seq::empty()
    } else if ls.len() == 1 {
        ls[0]
    } else {
        join_nl(ls.drop_last()) + seq!['\n'] + ls.last()
    }
}

/// The event a block spells, or `None` for a block with neither an event
/// name nor data.
pub open spec fn parse_block_spec(s: Seq<char>) -> Option<SseEventV> {
    let acc = fold_lines(block_lines(s));
    if acc.0 is None && acc.1.len() == 0 {
        None
    } else {
        Some(SseEventV { event: acc.0, data: join_nl(acc.1) })
    }
}

// ---- the decoder -----------------------------------------------------------

/// The text that `String::from_utf8_lossy` makes of `bytes`.
pub uninterp spec fn utf8_lossy(bytes: Seq<u8>) -> Seq<char>;

/// Calls `String::from_utf8_lossy`, which std documents as decoding valid
/// UTF-8 unchanged.
#[verifier::external_body]
fn decode_lossy(bytes: &[u8]) -> (r: String)
    ensures
        r@ == utf8_lossy(bytes@),
        valid_utf8(bytes@) ==> r@ == decode_utf8(bytes@),
{
    String::from_utf8_lossy(bytes).into_owned()
}

/// The text of a block's bytes, as the decoder reads it: valid UTF-8 as it
/// decodes, anything else as `String::from_utf8_lossy` makes it.
pub open spec fn block_text(bytes: Seq<u8>) -> Seq<char> {
    if valid_utf8(bytes) {
        decode_utf8(bytes)
    } else {
        utf8_lossy(bytes)
    }
}

/// The events that the complete blocks of `b` spell, in order.
pub open spec fn decode_events(b: Seq<u8>) -> Seq<SseEventV>
    decreases b.len(),
{
    match block_end(b) {
        Some((e, c)) => {
            proof {
                lemma_block_end(b);
            }
            let rest = decode_events(b.subrange(c as int, b.len() as int));
            match parse_block_spec(block_text(b.take(e as int))) {
                Some(ev) => seq![ev] + rest,
                None => rest,
            }
        },
        None => Seq::empty(),
    }
}

/// The bytes of `b` after its last complete block.
pub open spec fn decode_rest(b: Seq<u8>) -> Seq<u8>
    decreases b.len(),
{
    match block_end(b) {
        Some((e, c)) => {
            proof {
                lemma_block_end(b);
            }
            decode_rest(b.subrange(c as int, b.len() as int))
        },
        None => b,
    }
}

pub proof fn lemma_decode_rest_no_block(b: Seq<u8>)
    ensures
        block_end(decode_rest(b)) is None,
    decreases b.len(),
{
    lemma_block_end(b);
    if let Some((e, c)) = block_end(b) {
        lemma_decode_rest_no_block(b.subrange(c as int, b.len() as int));
    }
}

/// Incremental SSE decoder. It buffers raw bytes, not decoded text, so a
/// multi-byte character split across chunks is decoded whole.
pub struct SseDecoder {
    buf: Vec<u8>,
}

impl View for SseDecoder {
    type V = Seq<u8>;

    closed spec fn view(&self) -> Seq<u8> {
        self.buf@
    }
}

/// First block boundary of `buf`.
fn next_boundary(buf: &[u8]) -> (r: Option<(usize, usize)>)
    ensures
        match r {
            Some((e, c)) => block_end(buf@) == Some((e as nat, c as nat)),
            None => block_end(buf@) is None,
        },
{
    let n = buf.len();
    let mut i: usize = 0;
    while i < n
        invariant
            n == buf@.len(),
            i <= n,
            scan_boundary(buf@, 0) == scan_boundary(buf@, i as nat),
        decreases n - i,
    {
        let lf = n - i > 1 && buf[i] == 10u8 && buf[i + 1] == 10u8;
        let crlf = n - i > 3 && buf[i] == 13u8 && buf[i + 1] == 10u8 && buf[i + 2] == 13u8
            && buf[i + 3] == 10u8;
        if lf {
            return Some((i, i + 2));
        }
        if crlf {
            return Some((i, i + 4));
        }
        i = i + 1;
    }
    None
}

/// Splits the characters of a block into its pieces at `\n`.
fn split_pieces(cs: &Vec<char>) -> (r: (Vec<Vec<char>>, Vec<char>))
    ensures
        r.0@.map_values(|v: Vec<char>| v@) + seq![r.1@] == split_nl(cs@),
{
    let mut done: Vec<Vec<char>> = Vec::new();
    let mut cur: Vec<char> = Vec::new();
    let mut k: usize = 0;
    while k < cs.len()
        invariant
            k <= cs.len(),
            done@.map_values(|v: Vec<char>| v@) + seq![cur@] == split_nl(cs@.take(k as int)),
        decreases cs.len() - k,
    {
        let c = cs[k];
        let ghost before = done@.map_values(|v: Vec<char>| v@) + seq![cur@];
        assert(cs@.take(k + 1).drop_last() == cs@.take(k as int));
        if c == '\n' {
            let finished = cur;
            done.push(finished);
            cur = Vec::new();
            assert(done@.map_values(|v: Vec<char>| v@) + seq![cur@] =~= before.push(
                Seq::empty(),
            ));
        } else {
            cur.push(c);
            assert(done@.map_values(|v: Vec<char>| v@) + seq![cur@] =~= before.update(
                before.len() - 1,
                before.last().push(c),
            ));
        }
        k = k + 1;
    }
    assert(cs@.take(cs.len() as int) == cs@);
    (done, cur)
}

/// The characters of `cs` from `from` on, without leading whitespace.
fn trim_start_from(cs: &Vec<char>, from: usize) -> (r: String)
    requires
        from <= cs.len(),
    ensures
        r@ == trim_start_seq(cs@.skip(from as int)),
{
    let mut i = from;
    while i < cs.len() && is_whitespace(cs[i])
        invariant
            from <= i <= cs.len(),
            trim_start_seq(cs@.skip(from as int)) == trim_start_seq(cs@.skip(i as int)),
        decreases cs.len() - i,
    {
        assert(cs@.skip(i as int).drop_first() == cs@.skip(i + 1));
        i = i + 1;
    }
    let sub = slice_subrange(cs.as_slice(), i, cs.len());
    assert(sub@ == cs@.skip(i as int));
    string_of(sub)
}

/// Applies one line to the block being read.
fn step(event: &mut Option<String>, data: &mut Vec<String>, line: &Vec<char>)
    ensures
        ({
            let after = step_line(
                (
                    match *old(event) {
                        Some(e) => Some(e@),
                        None => None,
                    },
                    old(data)@.map_values(|s: String| s@),
                ),
                line@,
            );
            &&& after.0 == match *final(event) {
                Some(e) => Some(e@),
                None => None,
            }
            &&& after.1 == final(data)@.map_values(|s: String| s@)
        }),
{
    let n = line.len();
    if n == 0 || line[0] == ':' {
        return;
    }
    if n >= 6 && line[0] == 'e' && line[1] == 'v' && line[2] == 'e' && line[3] == 'n' && line[4]
        == 't' && line[5] == ':' {
        assert(line@.take(6) =~= event_prefix());
        *event = Some(trim_start_from(line, 6));
        return;
    }
    assert(!(n >= 6 && line@.take(6) == event_prefix())) by {
        if n >= 6 && line@.take(6) == event_prefix() {
            assert(line@.take(6)[0] == 'e');
            assert(line@.take(6)[5] == ':');
            assert(line@.take(6)[1] == 'v');
            assert(line@.take(6)[2] == 'e');
            assert(line@.take(6)[3] == 'n');
            assert(line@.take(6)[4] == 't');
        }
    }
    if n >= 5 && line[0] == 'd' && line[1] == 'a' && line[2] == 't' && line[3] == 'a' && line[4]
        == ':' {
        assert(line@.take(5) =~= data_prefix());
        let from: usize = if n > 5 && line[5] == ' ' {
            6
        } else {
            5
        };
        let sub = slice_subrange(line.as_slice(), from, n);
        let piece = string_of(sub);
        let ghost old_data = data@;
        data.push(piece);
        assert(data@.map_values(|s: String| s@) =~= old_data.map_values(|s: String| s@).push(
            piece@,
        ));
        if from == 6 {
            assert(line@.skip(5).skip(1) =~= line@.skip(6));
        }
        assert(sub@ =~= line@.skip(from as int));
        return;
    }
    assert(!(n >= 5 && line@.take(5) == data_prefix())) by {
        if n >= 5 && line@.take(5) == data_prefix() {
            assert(line@.take(5)[0] == 'd');
            assert(line@.take(5)[1] == 'a');
            assert(line@.take(5)[2] == 't');
            assert(line@.take(5)[3] == 'a');
            assert(line@.take(5)[4] == ':');
        }
    }
}

/// Reads the event a block spells.
fn parse_block(block: &str) -> (r: Option<SseEvent>)
    ensures
        match r {
            Some(ev) => parse_block_spec(block@) == Some(ev@),
            None => parse_block_spec(block@) is None,
        },
{
    let cs = chars_of(block);
    let (done, cur) = split_pieces(&cs);
    let ghost pieces = split_nl(block@);
    let ghost lines = block_lines(block@);
    proof {
        lemma_split_nl_len(block@);
        assert(pieces.len() == done.len() + 1);
    }
    let mut event: Option<String> = None;
    let mut data: Vec<String> = Vec::new();
    let mut i: usize = 0;
    while i < done.len()
        invariant
            i <= done.len(),
            pieces == done@.map_values(|v: Vec<char>| v@) + seq![cur@],
            pieces == split_nl(block@),
            lines == block_lines(block@),
            pieces.len() == done.len() + 1,
            fold_lines(lines.take(i as int)) == (
                match event {
                    Some(e) => Some(e@),
                    None => None,
                },
                data@.map_values(|s: String| s@),
            ),
        decreases done.len() - i,
    {
        let piece = &done[i];
        let mut line: Vec<char> = Vec::new();
        let m: usize = if piece.len() > 0 && piece[piece.len() - 1] == '\r' {
            piece.len() - 1
        } else {
            piece.len()
        };
        let mut k: usize = 0;
        while k < m
            invariant
                k <= m <= piece.len(),
                line@ == piece@.take(k as int),
            decreases m - k,
        {
            line.push(piece[k]);
            k = k + 1;
            assert(line@ =~= piece@.take(k as int));
        }
        assert(pieces[i as int] == piece@);
        assert(line@ =~= lines[i as int]);
        step(&mut event, &mut data, &line);
        assert(lines.take(i + 1).drop_last() =~= lines.take(i as int));
        i = i + 1;
    }
    assert(pieces[done.len() as int] == cur@);
    assert(cur@ =~= lines[done.len() as int]);
    step(&mut event, &mut data, &cur);
    assert(lines.take(done.len() + 1).drop_last() =~= lines.take(done.len() as int));
    assert(lines.take(done.len() + 1) =~= lines);
    if event.is_none() && data.len() == 0 {
        return None;
    }
    let ghost ls = data@.map_values(|s: String| s@);
    let mut joined = String::new();
    let mut j: usize = 0;
    while j < data.len()
        invariant
            j <= data.len(),
            ls == data@.map_values(|s: String| s@),
            joined@ == join_nl(ls.take(j as int)),
        decreases data.len() - j,
    {
        assert(ls.take(j + 1).drop_last() =~= ls.take(j as int));
        if j > 0 {
            joined.push('\n');
        }
        joined.append(data[j].as_str());
        j = j + 1;
        assert(ls.take(j as int).last() == data@[j - 1]@);
        assert(joined@ =~= join_nl(ls.take(j as int)));
    }
    assert(ls.take(data.len() as int) =~= ls);
    Some(SseEvent { event, data: joined })
}

impl SseDecoder {
    pub fn new() -> (r: SseDecoder)
        ensures
            r@ == Seq::<u8>::empty(),
    {
        SseDecoder { buf: Vec::new() }
    }

    /// Feeds raw bytes; returns the events whose blocks are now complete and
    /// keeps the bytes of the unfinished block.
    pub fn push(&mut self, chunk: &[u8]) -> (r: Vec<SseEvent>)
        ensures
            sse_events_view(r@) == decode_events(old(self)@ + chunk@),
            final(self)@ == decode_rest(old(self)@ + chunk@),
            block_end(final(self)@) is None,
    {
        let mut i: usize = 0;
        let ghost total0 = self.buf@;
        while i < chunk.len()
            invariant
                i <= chunk.len(),
                total0 == old(self)@,
                self.buf@ == total0 + chunk@.take(i as int),
            decreases chunk.len() - i,
        {
            self.buf.push(chunk[i]);
            i = i + 1;
            assert(self.buf@ =~= total0 + chunk@.take(i as int));
        }
        assert(chunk@.take(chunk.len() as int) == chunk@);
        let ghost total = self.buf@;
        let mut events: Vec<SseEvent> = Vec::new();
        let mut start: usize = 0;
        assert(total.subrange(0, total.len() as int) =~= total);
        assert(sse_events_view(events@) + decode_events(total) =~= decode_events(total));
        loop
            invariant
                start <= self.buf@.len(),
                self.buf@ == total,
                total == old(self)@ + chunk@,
                decode_events(total) == sse_events_view(events@) + decode_events(
                    total.subrange(start as int, total.len() as int),
                ),
                decode_rest(total) == decode_rest(total.subrange(start as int, total.len() as int)),
            decreases self.buf@.len() - start,
        {
            let view_len = self.buf.len();
            let tail = slice_subrange(self.buf.as_slice(), start, view_len);
            let ghost t = tail@;
            match next_boundary(tail) {
                Some((end, consumed)) => {
                    proof {
                        lemma_block_end(t);
                    }
                    let block = decode_lossy(slice_subrange(tail, 0, end));
                    let ghost old_events = events@;
                    assert(t.subrange(0, end as int) == t.take(end as int));
                    assert(t.subrange(consumed as int, t.len() as int) =~= total.subrange(
                        start + consumed,
                        total.len() as int,
                    ));
                    match parse_block(block.as_str()) {
                        Some(ev) => {
                            events.push(ev);
                            assert(sse_events_view(events@) =~= sse_events_view(old_events).push(
                                ev@,
                            ));
                            assert(sse_events_view(events@) + decode_events(
                                total.subrange(start + consumed, total.len() as int),
                            ) =~= sse_events_view(old_events) + decode_events(t));
                        },
                        None => {},
                    }
                    start = start + consumed;
                },
                None => {
                    proof {
                        lemma_decode_rest_no_block(total);
                    }
                    assert(decode_events(t) =~= Seq::<SseEventV>::empty());
                    assert(decode_rest(t) == t);
                    assert(sse_events_view(events@) =~= sse_events_view(events@) + Seq::<
                        SseEventV,
                    >::empty());
                    let rest = self.buf.split_off(start);
                    self.buf = rest;
                    return events;
                },
            }
        }
    }
}

/// A boundary that lies wholly inside `x` is still the first one once more
/// bytes follow.
proof fn lemma_block_end_extend(x: Seq<u8>, y: Seq<u8>)
    requires
        block_end(x) is Some,
    ensures
        block_end(x + y) == block_end(x),
{
    lemma_scan(x, 0);
    lemma_block_end(x);
    let (e, c) = block_end(x).unwrap();
    let xy = x + y;
    assert(lf_at(xy, e as int) == lf_at(x, e as int));
    assert(crlf_at(xy, e as int) == crlf_at(x, e as int));
    assert forall|j: int| 0 <= j < e implies !#[trigger] boundary_at(xy, j) by {
        assert(!boundary_at(x, j));
        if lf_at(xy, j) {
            assert(lf_at(x, j));
        }
        if crlf_at(xy, j) {
            if j + 3 < x.len() {
                assert(crlf_at(x, j));
            } else {
                assert(xy[j + 2] == x[j + 2]);
            }
        }
    }
    lemma_scan_is(xy, 0, e);
}

/// Decoding `x + y` is decoding `x`, then decoding what `x` left unfinished
/// followed by `y`.
proof fn lemma_decode_append(x: Seq<u8>, y: Seq<u8>)
    ensures
        decode_events(x + y) == decode_events(x) + decode_events(decode_rest(x) + y),
        decode_rest(x + y) == decode_rest(decode_rest(x) + y),
    decreases x.len(),
{
    lemma_block_end(x);
    match block_end(x) {
        Some((e, c)) => {
            lemma_block_end_extend(x, y);
            let xy = x + y;
            let x2 = x.subrange(c as int, x.len() as int);
            assert(xy.take(e as int) =~= x.take(e as int));
            assert(xy.subrange(c as int, xy.len() as int) =~= x2 + y);
            lemma_decode_append(x2, y);
            match parse_block_spec(block_text(x.take(e as int))) {
                Some(ev) => {
                    assert(seq![ev] + decode_events(x2 + y) =~= seq![ev] + decode_events(x2)
                        + decode_events(decode_rest(x2) + y));
                },
                None => {},
            }
        },
        None => {
            assert(decode_events(x) + decode_events(decode_rest(x) + y) =~= decode_events(x + y));
        },
    }
}

/// Chunking is invisible: feeding the decoder `a` and then `b` yields the same
/// events, and leaves the same unfinished bytes, as feeding `a` followed by
/// `b` in one chunk.
pub proof fn law_chunk_split_is_invisible(buffered: Seq<u8>, a: Seq<u8>, b: Seq<u8>)
    ensures
        decode_events(buffered + (a + b)) == decode_events(buffered + a) + decode_events(
            decode_rest(buffered + a) + b,
        ),
        decode_rest(buffered + (a + b)) == decode_rest(decode_rest(buffered + a) + b),
{
    assert(buffered + (a + b) =~= (buffered + a) + b);
    lemma_decode_append(buffered + a, b);
}

/// One SSE frame: an optional `event:` line, then the `data:` line and the
/// blank line that ends the frame.
pub open spec fn frame_text(event: Option<Seq<char>>, data: Seq<char>) -> Seq<char> {
    let head = match event {
        Some(name) => seq!['e', 'v', 'e', 'n', 't', ':', ' '] + name + seq!['\n'],
        None => Seq::empty(),
    };
    head + seq!['d', 'a', 't', 'a', ':', ' '] + data + seq!['\n', '\n']
}

/// The UTF-8 bytes of one SSE frame with an optional event name.
pub fn sse_frame(event: Option<&str>, data: &str) -> (r: Vec<u8>)
    ensures
        r@ == encode_utf8(
            frame_text(
                match event {
                    Some(e) => Some(e@),
                    None => None,
                },
                data@,
            ),
        ),
{
    let mut out = String::new();
    if let Some(name) = event {
        out.push('e');
        out.push('v');
        out.push('e');
        out.push('n');
        out.push('t');
        out.push(':');
        out.push(' ');
        out.append(name);
        out.push('\n');
    }
    out.push('d');
    out.push('a');
    out.push('t');
    out.push('a');
    out.push(':');
    out.push(' ');
    out.append(data);
    out.push('\n');
    out.push('\n');
    assert(out@ =~= frame_text(
        match event {
            Some(e) => Some(e@),
            None => None,
        },
        data@,
    ));
    let bytes = out.as_str().as_bytes();
    slice_to_vec(bytes)
}

/// Turns a provider's SSE stream into canonical stream events. Stateful: an
/// implementation carries what it learnt from earlier events (block indices,
/// usage, tool-call ids).
pub trait StreamParser {
    fn parse_event(&mut self, event: &SseEvent) -> Result<Vec<StreamEvent>, GatewayError>;

    /// Called once after the upstream stream ends; emits any trailing events.
    fn finish(&mut self) -> Vec<StreamEvent> {
        Vec::new()
    }
}

/// Turns canonical stream events into the client protocol's SSE bytes.
pub trait StreamRenderer {
    fn render_event(&mut self, event: &StreamEvent) -> Vec<u8>;

    /// Called once after all events; emits trailing frames.
    fn finish(&mut self) -> Vec<u8> {
        Vec::new()
    }
}

} // verus!
