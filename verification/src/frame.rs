//! Framing of a server-sent-event text stream: frames end at a blank line,
//! and a frame's payload is made of its `data:` lines.

use vstd::prelude::*;

verus! {

/// A frame delimiter (two line feeds in a row) starts at position `i`.
pub open spec fn delimiter_at(s: Seq<char>, i: int) -> bool {
    0 <= i && i + 1 < s.len() && s[i] == '\n' && s[i + 1] == '\n'
}

/// `i` is where the first frame delimiter of `s` starts.
pub open spec fn first_delimiter(s: Seq<char>, i: int) -> bool {
    delimiter_at(s, i) && forall|j: int| 0 <= j < i ==> !delimiter_at(s, j)
}

/// `s` holds at least one complete frame.
pub open spec fn has_frame(s: Seq<char>) -> bool {
    exists|i: int| first_delimiter(s, i)
}

/// Length of the first frame of `s`, its delimiter not counted.
pub open spec fn frame_len(s: Seq<char>) -> int {
    choose|i: int| first_delimiter(s, i)
}

/// The first frame of `s`.
pub open spec fn first_frame(s: Seq<char>) -> Seq<char> {
    s.subrange(0, frame_len(s))
}

/// What follows the first frame of `s` and its delimiter.
pub open spec fn after_first_frame(s: Seq<char>) -> Seq<char> {
    s.subrange(frame_len(s) + 2, s.len() as int)
}

/// `i` is the position of the last line feed of `s`.
pub open spec fn last_newline(s: Seq<char>, i: int) -> bool {
    0 <= i < s.len() && s[i] == '\n' && forall|j: int| i < j < s.len() ==> s[j] != '\n'
}

/// `s` holds a line feed.
pub open spec fn has_newline(s: Seq<char>) -> bool {
    exists|i: int| last_newline(s, i)
}

/// The lines of `s`: the pieces between its line feeds, in order. A text
/// without a line feed is one line.
pub open spec fn split_lines(s: Seq<char>) -> Seq<Seq<char>>
    decreases s.len(),
{
    if has_newline(s) {
        let i = choose|i: int| last_newline(s, i);
        split_lines(s.subrange(0, i)).push(s.subrange(i + 1, s.len() as int))
    } else {
        seq![s]
    }
}

/// A line without the one carriage return it may end with.
pub open spec fn strip_cr(line: Seq<char>) -> Seq<char> {
    if line.len() > 0 && line.last() == '\r' {
        line.drop_last()
    } else {
        line
    }
}

/// The field name that marks a data line, with its colon.
pub open spec fn data_prefix() -> Seq<char> {
    seq!['d', 'a', 't', 'a', ':']
}

/// The line starts with the data prefix.
pub open spec fn is_data_line(line: Seq<char>) -> bool {
    line.len() >= 5 && line.subrange(0, 5) == data_prefix()
}

/// The value of a data line: what follows the prefix, less one leading space.
pub open spec fn data_value(line: Seq<char>) -> Seq<char> {
    let rest = line.subrange(5, line.len() as int);
    if rest.len() > 0 && rest[0] == ' ' {
        rest.subrange(1, rest.len() as int)
    } else {
        rest
    }
}

/// The values of the data lines among `lines`, in order.
pub open spec fn data_values(lines: Seq<Seq<char>>) -> Seq<Seq<char>>
    decreases lines.len(),
{
    if lines.len() == 0 {
        seq![]
    } else {
        let before = data_values(lines.drop_last());
        let line = strip_cr(lines.last());
        if is_data_line(line) {
            before.push(data_value(line))
        } else {
            before
        }
    }
}

/// `parts` joined by single line feeds.
pub open spec fn join_lines(parts: Seq<Seq<char>>) -> Seq<char>
    decreases parts.len(),
{
    if parts.len() == 0 {
        seq![]
    } else if parts.len() == 1 {
        parts[0]
    } else {
        join_lines(parts.drop_last()) + seq!['\n'] + parts.last()
    }
}

/// The payload of a frame: the values of its data lines joined by line feeds.
/// It is empty for a frame without data lines.
pub open spec fn frame_payload(frame: Seq<char>) -> Seq<char> {
    join_lines(data_values(split_lines(frame)))
}

/// The frame that carries `payload` on one data line: the data prefix, a
/// space, and the payload.
pub open spec fn data_frame(payload: Seq<char>) -> Seq<char> {
    data_prefix() + seq![' '] + payload
}

/// A payload of one line comes out of its frame as it went in. The payload
/// must hold no line feed and must not end in a carriage return.
pub proof fn lemma_data_frame(payload: Seq<char>)
    requires
        forall|i: int| 0 <= i < payload.len() ==> payload[i] != '\n',
        payload.len() == 0 || payload.last() != '\r',
    ensures
        frame_payload(data_frame(payload)) == payload,
{
    let frame = data_frame(payload);
    assert(!has_newline(frame)) by {
        if has_newline(frame) {
            let i = choose|i: int| last_newline(frame, i);
            assert(last_newline(frame, i));
            assert(i >= 6 ==> frame[i] == payload[i - 6]);
        }
    }
    let lines = split_lines(frame);
    assert(lines == seq![frame]);
    assert(lines.drop_last() =~= Seq::<Seq<char>>::empty());
    assert(frame.last() != '\r') by {
        if payload.len() > 0 {
            assert(frame.last() == payload.last());
        }
    }
    assert(frame.subrange(0, 5) =~= data_prefix());
    assert(data_value(frame) =~= payload);
    assert(data_values(lines) =~= seq![payload]) by {
        assert(data_values(lines.drop_last()) =~= Seq::<Seq<char>>::empty());
    }
}

/// The first delimiter of a text is unique, so `frame_len` is that position.
pub proof fn lemma_frame_len(s: Seq<char>, i: int)
    requires
        first_delimiter(s, i),
    ensures
        has_frame(s),
        frame_len(s) == i,
{
    assert(first_delimiter(s, frame_len(s)));
}

/// The first frame of a text stays its first frame when more text arrives.
pub proof fn lemma_frame_stable(s: Seq<char>, more: Seq<char>)
    requires
        has_frame(s),
    ensures
        has_frame(s + more),
        frame_len(s + more) == frame_len(s),
        first_frame(s + more) == first_frame(s),
        after_first_frame(s + more) == after_first_frame(s) + more,
{
    let i = frame_len(s);
    let t = s + more;
    assert forall|j: int| 0 <= j < i implies !delimiter_at(t, j) by {
        assert(!delimiter_at(s, j));
    }
    lemma_frame_len(t, i);
}

/// The lines that end before position `p` of `s`, where `p` is 0 or follows
/// a line feed.
pub open spec fn lines_before(s: Seq<char>, p: int) -> Seq<Seq<char>> {
    if p <= 0 {
        seq![]
    } else {
        split_lines(s.subrange(0, p - 1))
    }
}

/// A line that starts at `p` and ends at `q` is the next line after those
/// that end before `p`.
proof fn lemma_next_line(s: Seq<char>, p: int, q: int)
    requires
        0 <= p <= q <= s.len(),
        p == 0 || s[p - 1] == '\n',
        forall|j: int| p <= j < q ==> s[j] != '\n',
    ensures
        split_lines(s.subrange(0, q)) == lines_before(s, p).push(s.subrange(p, q)),
{
    let g = s.subrange(0, q);
    if p > 0 {
        assert(last_newline(g, p - 1));
        let i = choose|i: int| last_newline(g, i);
        assert(g.subrange(0, i) =~= s.subrange(0, p - 1));
        assert(g.subrange(i + 1, g.len() as int) =~= s.subrange(p, q));
    }
}

/// Joining one more part puts a line feed before it, unless it is the first.
proof fn lemma_join_push(parts: Seq<Seq<char>>, part: Seq<char>)
    ensures
        join_lines(parts.push(part)) == if parts.len() == 0 {
            part
        } else {
            join_lines(parts) + seq!['\n'] + part
        },
{
    let all = parts.push(part);
    assert(all.drop_last() =~= parts);
}

/// Where the first frame delimiter at or after `start` begins, if there is one.
pub(crate) fn find_delimiter(buf: &Vec<char>, start: usize) -> (found: Option<usize>)
    requires
        start <= buf.len(),
    ensures
        match found {
            Some(i) => start <= i && first_delimiter(
                buf@.subrange(start as int, buf.len() as int),
                i - start,
            ),
            None => !has_frame(buf@.subrange(start as int, buf.len() as int)),
        },
{
    let ghost rest = buf@.subrange(start as int, buf.len() as int);
    let n = buf.len();
    let mut i: usize = start;
    while i < n
        invariant
            start <= i <= n,
            n == buf.len(),
            rest == buf@.subrange(start as int, n as int),
            forall|j: int| 0 <= j < i - start ==> !delimiter_at(rest, j),
        decreases n - i,
    {
        if buf[i] == '\n' && i + 1 < n && buf[i + 1] == '\n' {
            return Some(i);
        }
        i += 1;
    }
    None
}

/// Appends to `payload` the value of the line `buf[p..q]` if it is a data
/// line, after a line feed unless it is the first value.
fn push_data_value(buf: &Vec<char>, p: usize, q: usize, payload: &mut Vec<char>, any: &mut bool)
    requires
        p <= q <= buf.len(),
    ensures
        ({
            let line = strip_cr(buf@.subrange(p as int, q as int));
            if is_data_line(line) {
                &&& *final(any)
                &&& final(payload)@ == if *old(any) {
                    old(payload)@ + seq!['\n'] + data_value(line)
                } else {
                    old(payload)@ + data_value(line)
                }
            } else {
                *final(any) == *old(any) && final(payload)@ == old(payload)@
            }
        }),
{
    let ghost raw = buf@.subrange(p as int, q as int);
    let ghost line = strip_cr(raw);
    let end: usize = if q > p && buf[q - 1] == '\r' {
        q - 1
    } else {
        q
    };
    let is_data = end - p >= 5 && buf[p] == 'd' && buf[p + 1] == 'a' && buf[p + 2] == 't' && buf[p
        + 3] == 'a' && buf[p + 4] == ':';
    assert(is_data == is_data_line(line)) by {
        if line.len() >= 5 {
            let head = line.subrange(0, 5);
            if is_data {
                assert(head =~= data_prefix());
            }
        }
    }
    if !is_data {
        return ;
    }
    let from: usize = if p + 5 < end && buf[p + 5] == ' ' {
        p + 6
    } else {
        p + 5
    };
    if *any {
        payload.push('\n');
    }
    *any = true;
    let ghost base = payload@;
    let mut k: usize = from;
    while k < end
        invariant
            from <= k <= end <= buf.len(),
            payload@ == base + buf@.subrange(from as int, k as int),
        decreases end - k,
    {
        payload.push(buf[k]);
        k += 1;
    }
}

/// The payload of the frame `buf[start..end]`.
pub(crate) fn payload_of(buf: &Vec<char>, start: usize, end: usize) -> (payload: Vec<char>)
    requires
        start <= end <= buf.len(),
    ensures
        payload@ == frame_payload(buf@.subrange(start as int, end as int)),
{
    let ghost frame = buf@.subrange(start as int, end as int);
    let mut payload: Vec<char> = Vec::new();
    let mut any = false;
    let mut p: usize = start;
    let mut done = false;
    while !done
        invariant
            start <= p <= end <= buf.len(),
            frame == buf@.subrange(start as int, end as int),
            p == start || buf@[p - 1] == '\n',
            !done ==> payload@ == join_lines(data_values(lines_before(frame, p - start))),
            !done ==> any == (data_values(lines_before(frame, p - start)).len() > 0),
            done ==> payload@ == frame_payload(frame),
        decreases end - p + if done { 0int } else { 1int },
    {
        let mut q: usize = p;
        while q < end && buf[q] != '\n'
            invariant
                p <= q <= end <= buf.len(),
                forall|j: int| p <= j < q ==> buf@[j] != '\n',
            decreases end - q,
        {
            q += 1;
        }
        let ghost before = lines_before(frame, p - start);
        let ghost raw = frame.subrange(p - start, q - start);
        proof {
            assert(raw =~= buf@.subrange(p as int, q as int));
            lemma_next_line(frame, p - start, q - start);
            let lines = before.push(raw);
            assert(lines.drop_last() =~= before);
            if is_data_line(strip_cr(raw)) {
                lemma_join_push(data_values(before), data_value(strip_cr(raw)));
            }
        }
        push_data_value(buf, p, q, &mut payload, &mut any);
        if q == end {
            assert(frame.subrange(0, q - start) =~= frame);
            done = true;
        } else {
            p = q + 1;
        }
    }
    payload
}

} // verus!
