use vstd::prelude::*;

verus! {

/// What the standard library's `str::trim` returns: the text without leading
/// and trailing whitespace.
pub uninterp spec fn trimmed(s: Seq<char>) -> Seq<char>;

/// Relies on str::trim: it strips leading and trailing whitespace and
/// depends on the characters alone.
#[verifier::external_body]
fn trim_text(s: &str) -> (r: &str)
    ensures
        r@ == trimmed(s@),
{
    s.trim()
}

/// One timestamped span of recognised text, with offsets in centiseconds.
pub struct Segment {
    pub start_centiseconds: u64,
    pub end_centiseconds: u64,
    pub text: String,
}

pub open spec fn digit_char(d: nat) -> char {
    if d == 0 { '0' } else if d == 1 { '1' } else if d == 2 { '2' } else if d == 3 { '3' }
    else if d == 4 { '4' } else if d == 5 { '5' } else if d == 6 { '6' } else if d == 7 { '7' }
    else if d == 8 { '8' } else { '9' }
}

/// Decimal digits of `n`, most significant first, without leading zeros.
pub open spec fn decimal(n: nat) -> Seq<char>
    decreases n,
{
    if n < 10 {
        seq![digit_char(n)]
    } else {
        decimal(n / 10).push(digit_char(n % 10))
    }
}

/// Decimal digits of `n`, zero-padded to a width of at least two.
pub open spec fn two_digits(n: nat) -> Seq<char> {
    if n < 10 {
        seq!['0', digit_char(n)]
    } else {
        decimal(n)
    }
}

/// `MM:SS` for an offset in centiseconds, truncated to whole seconds.
pub open spec fn clock(centiseconds: nat) -> Seq<char> {
    let secs = centiseconds / 100;
    two_digits(secs / 60) + seq![':'] + two_digits(secs % 60)
}

/// `[MM:SS - MM:SS]`.
pub open spec fn time_label(start: nat, end: nat) -> Seq<char> {
    seq!['['] + clock(start) + seq![' ', '-', ' '] + clock(end) + seq![']']
}

/// One transcript line: the label, a space, the trimmed text and a newline.
pub open spec fn segment_line(start: nat, end: nat, text: Seq<char>) -> Seq<char> {
    time_label(start, end) + seq![' '] + trimmed(text) + seq!['\n']
}

/// The lines of all segments, in order.
pub open spec fn transcript_of(segs: Seq<Segment>) -> Seq<char>
    decreases segs.len(),
{
    if segs.len() == 0 {
        Seq::empty()
    } else {
        let last = segs.last();
        transcript_of(segs.drop_last()) + segment_line(
            last.start_centiseconds as nat,
            last.end_centiseconds as nat,
            last.text@,
        )
    }
}

fn digit_str(d: u64) -> (r: &'static str)
    requires
        d < 10,
    ensures
        r@ == seq![digit_char(d as nat)],
{
    proof {
        reveal_strlit("0");
        reveal_strlit("1");
        reveal_strlit("2");
        reveal_strlit("3");
        reveal_strlit("4");
        reveal_strlit("5");
        reveal_strlit("6");
        reveal_strlit("7");
        reveal_strlit("8");
        reveal_strlit("9");
    }
    if d == 0 { "0" } else if d == 1 { "1" } else if d == 2 { "2" } else if d == 3 { "3" }
    else if d == 4 { "4" } else if d == 5 { "5" } else if d == 6 { "6" } else if d == 7 { "7" }
    else if d == 8 { "8" } else { "9" }
}

fn push_decimal(out: &mut String, n: u64)
    ensures
        final(out)@ == old(out)@ + decimal(n as nat),
    decreases n,
{
    if n >= 10 {
        push_decimal(out, n / 10);
    }
    out.append(digit_str(n % 10));
    assert(final(out)@ =~= old(out)@ + decimal(n as nat));
}

/// Appends `n` in decimal, zero-padded to two digits.
pub fn push_two_digits(out: &mut String, n: u64)
    ensures
        final(out)@ == old(out)@ + two_digits(n as nat),
{
    proof {
        reveal_strlit("0");
    }
    if n < 10 {
        out.append("0");
    }
    push_decimal(out, n);
    assert(final(out)@ =~= old(out)@ + two_digits(n as nat));
}

fn push_clock(out: &mut String, centiseconds: u64)
    ensures
        final(out)@ == old(out)@ + clock(centiseconds as nat),
{
    proof {
        reveal_strlit(":");
    }
    let secs = centiseconds / 100;
    push_two_digits(out, secs / 60);
    out.append(":");
    push_two_digits(out, secs % 60);
    assert(final(out)@ =~= old(out)@ + clock(centiseconds as nat));
}

/// The `[MM:SS - MM:SS]` label of a segment's offsets.
pub fn format_time_label(start_centiseconds: u64, end_centiseconds: u64) -> (r: String)
    ensures
        r@ == time_label(start_centiseconds as nat, end_centiseconds as nat),
{
    proof {
        reveal_strlit("[");
        reveal_strlit(" - ");
        reveal_strlit("]");
    }
    let mut out = String::new();
    out.append("[");
    push_clock(&mut out, start_centiseconds);
    out.append(" - ");
    push_clock(&mut out, end_centiseconds);
    out.append("]");
    assert(out@ =~= time_label(start_centiseconds as nat, end_centiseconds as nat));
    out
}

fn push_segment_line(out: &mut String, seg: &Segment)
    ensures
        final(out)@ == old(out)@ + segment_line(
            seg.start_centiseconds as nat,
            seg.end_centiseconds as nat,
            seg.text@,
        ),
{
    proof {
        reveal_strlit(" ");
        reveal_strlit("\n");
    }
    let label = format_time_label(seg.start_centiseconds, seg.end_centiseconds);
    out.append(label.as_str());
    out.append(" ");
    out.append(trim_text(seg.text.as_str()));
    out.append("\n");
    assert(final(out)@ =~= old(out)@ + segment_line(
        seg.start_centiseconds as nat,
        seg.end_centiseconds as nat,
        seg.text@,
    ));
}

/// One line per segment, in the order the segments were produced.
pub fn format_segment_line(seg: &Segment) -> (r: String)
    ensures
        r@ == segment_line(seg.start_centiseconds as nat, seg.end_centiseconds as nat, seg.text@),
{
    let mut out = String::new();
    push_segment_line(&mut out, seg);
    assert(out@ =~= segment_line(
        seg.start_centiseconds as nat,
        seg.end_centiseconds as nat,
        seg.text@,
    ));
    out
}

/// The whole transcript: every segment's line, concatenated in order.
pub fn format_transcript(segs: &Vec<Segment>) -> (r: String)
    ensures
        r@ == transcript_of(segs@),
{
    let mut out = String::new();
    let mut i: usize = 0;
    while i < segs.len()
        invariant
            i <= segs@.len(),
            out@ == transcript_of(segs@.subrange(0, i as int)),
        decreases segs@.len() - i,
    {
        push_segment_line(&mut out, &segs[i]);
        proof {
            let next = segs@.subrange(0, i + 1);
            assert(next.drop_last() =~= segs@.subrange(0, i as int));
            assert(next.last() == segs@[i as int]);
        }
        i = i + 1;
    }
    assert(segs@.subrange(0, segs@.len() as int) =~= segs@);
    out
}

} // verus!
