use vstd::prelude::*;
use vstd::string::StrSliceExecFns;
use vstd::string::StringExecFns;

verus! {

/// The characters that trimming removes from the ends of an input: the
/// Unicode White_Space set, as str::trim has it.
pub open spec fn is_space(c: char) -> bool {
    c == ' ' || c == '\t' || c == '\n' || c == '\u{000B}' || c == '\u{000C}' || c == '\r'
        || c == '\u{0085}' || c == '\u{00A0}' || c == '\u{1680}'
        || ('\u{2000}' <= c && c <= '\u{200A}')
        || c == '\u{2028}' || c == '\u{2029}' || c == '\u{202F}' || c == '\u{205F}'
        || c == '\u{3000}'
}

pub fn char_is_space(c: char) -> (r: bool)
    ensures
        r == is_space(c),
{
    c == ' ' || c == '\t' || c == '\n' || c == '\u{000B}' || c == '\u{000C}' || c == '\r'
        || c == '\u{0085}' || c == '\u{00A0}' || c == '\u{1680}'
        || ('\u{2000}' <= c && c <= '\u{200A}')
        || c == '\u{2028}' || c == '\u{2029}' || c == '\u{202F}' || c == '\u{205F}'
        || c == '\u{3000}'
}

/// The sequence with its leading whitespace removed.
pub open spec fn trim_left(s: Seq<char>) -> Seq<char>
    decreases s.len(),
{
    if s.len() > 0 && is_space(s[0]) {
        trim_left(s.drop_first())
    } else {
        s
    }
}

/// The sequence with its trailing whitespace removed.
pub open spec fn trim_right(s: Seq<char>) -> Seq<char>
    decreases s.len(),
{
    if s.len() > 0 && is_space(s.last()) {
        trim_right(s.drop_last())
    } else {
        s
    }
}

/// The sequence with whitespace removed from both ends.
pub open spec fn trimmed(s: Seq<char>) -> Seq<char> {
    trim_right(trim_left(s))
}

/// Removes leading and trailing whitespace from a string.
pub fn trim(s: &str) -> (r: String)
    ensures
        r@ == trimmed(s@),
{
    let n = s.unicode_len();
    let mut a: usize = 0;
    proof {
        assert(s@.skip(0) =~= s@);
    }
    while a < n && char_is_space(s.get_char(a))
        invariant
            a <= n,
            n == s@.len(),
            trim_left(s@) == trim_left(s@.skip(a as int)),
        decreases n - a,
    {
        proof {
            assert(s@.skip(a as int)[0] == s@[a as int]);
            assert(s@.skip(a as int).drop_first() =~= s@.skip(a as int + 1));
        }
        a = a + 1;
    }
    proof {
        if a == n {
            assert(s@.skip(a as int) =~= Seq::<char>::empty());
        }
        assert(trim_left(s@) == s@.skip(a as int));
    }
    let mut b: usize = n;
    while b > a && char_is_space(s.get_char(b - 1))
        invariant
            a <= b <= n,
            n == s@.len(),
            trim_left(s@) == s@.skip(a as int),
            trim_right(s@.skip(a as int)) == trim_right(s@.subrange(a as int, b as int)),
        decreases b,
    {
        proof {
            let t = s@.subrange(a as int, b as int);
            assert(t.last() == s@[b - 1]);
            assert(t.drop_last() =~= s@.subrange(a as int, b as int - 1));
        }
        b = b - 1;
    }
    proof {
        assert(s@.skip(a as int) =~= s@.subrange(a as int, n as int));
        let t = s@.subrange(a as int, b as int);
        if b == a {
            assert(t =~= Seq::<char>::empty());
        }
        assert(trim_right(t) == t);
    }
    String::from_str(s.substring_char(a, b))
}

/// The pieces of the sequence between its commas, in order; a sequence with
/// no comma is one piece, and the result always holds at least one piece.
pub open spec fn split_commas(s: Seq<char>) -> Seq<Seq<char>>
    decreases s.len(),
{
    if s.len() == 0 {
        seq![Seq::<char>::empty()]
    } else if s[0] == ',' {
        seq![Seq::<char>::empty()] + split_commas(s.drop_first())
    } else {
        let rest = split_commas(s.drop_first());
        seq![seq![s[0]] + rest[0]] + rest.drop_first()
    }
}

pub proof fn lemma_split_commas_len(s: Seq<char>)
    ensures
        split_commas(s).len() >= 1,
    decreases s.len(),
{
    if s.len() > 0 {
        lemma_split_commas_len(s.drop_first());
    }
}

/// Splitting a sequence whose first comma stands at `k` yields the prefix
/// before `k` as the first piece, followed by the pieces of what is after
/// `k`; a sequence with no comma is one piece.
pub proof fn lemma_split_commas_head(s: Seq<char>, k: int)
    requires
        0 <= k <= s.len(),
        forall|i: int| 0 <= i < k ==> s[i] != ',',
        k < s.len() ==> s[k] == ',',
    ensures
        k < s.len() ==> split_commas(s) == seq![s.subrange(0, k)] + split_commas(
            s.subrange(k + 1, s.len() as int),
        ),
        k == s.len() ==> split_commas(s) == seq![s],
    decreases s.len(),
{
    lemma_split_commas_len(s);
    if s.len() == 0 {
        assert(s =~= Seq::<char>::empty());
        assert(split_commas(s) =~= seq![s]);
    } else if k == 0 {
        if k < s.len() {
            assert(s.subrange(0, 0) =~= Seq::<char>::empty());
            assert(s.drop_first() =~= s.subrange(1, s.len() as int));
            assert(split_commas(s) =~= seq![s.subrange(0, 0)] + split_commas(
                s.subrange(1, s.len() as int),
            ));
        }
    } else {
        let d = s.drop_first();
        lemma_split_commas_len(d);
        assert(forall|i: int| 0 <= i < k - 1 ==> d[i] != ',');
        lemma_split_commas_head(d, k - 1);
        let rest = split_commas(d);
        if k < s.len() {
            assert(d.subrange(0, k - 1) =~= s.subrange(1, k));
            assert(d.subrange(k, d.len() as int) =~= s.subrange(k + 1, s.len() as int));
            assert(rest == seq![s.subrange(1, k)] + split_commas(
                s.subrange(k + 1, s.len() as int),
            ));
            assert(seq![s[0]] + rest[0] =~= s.subrange(0, k));
            assert(rest.drop_first() =~= split_commas(s.subrange(k + 1, s.len() as int)));
            assert(split_commas(s) =~= seq![s.subrange(0, k)] + split_commas(
                s.subrange(k + 1, s.len() as int),
            ));
        } else {
            assert(rest == seq![d]);
            assert(seq![s[0]] + d =~= s);
            assert(rest.drop_first() =~= Seq::<Seq<char>>::empty());
            assert(split_commas(s) =~= seq![s]);
        }
    }
}

/// The tags kept from a sequence of raw pieces: each piece trimmed, in
/// order, with the pieces that trim to nothing dropped.
pub open spec fn kept_tags(pieces: Seq<Seq<char>>) -> Seq<Seq<char>>
    decreases pieces.len(),
{
    if pieces.len() == 0 {
        Seq::<Seq<char>>::empty()
    } else if trimmed(pieces.last()).len() > 0 {
        kept_tags(pieces.drop_last()).push(trimmed(pieces.last()))
    } else {
        kept_tags(pieces.drop_last())
    }
}

/// The tag list read from a raw submission: the text is split at commas,
/// each piece is trimmed, and empty pieces are dropped; duplicates are kept
/// and the submitted order is preserved.
pub open spec fn parse_tags(s: Seq<char>) -> Seq<Seq<char>> {
    kept_tags(split_commas(s))
}

/// Splits a raw submission into its tag list.
pub fn parse_tag_list(s: &str) -> (r: Vec<String>)
    ensures
        r.deep_view() == parse_tags(s@),
{
    let n = s.unicode_len();
    let mut out: Vec<String> = Vec::new();
    let mut start: usize = 0;
    let ghost mut done: Seq<Seq<char>> = Seq::<Seq<char>>::empty();
    let mut i: usize = 0;
    proof {
        assert(s@.subrange(0, n as int) =~= s@);
        assert(done + split_commas(s@) =~= split_commas(s@));
    }
    while i < n
        invariant
            start <= i <= n,
            n == s@.len(),
            forall|j: int| start <= j < i ==> s@[j] != ',',
            split_commas(s@) == done + split_commas(s@.subrange(start as int, n as int)),
            out.deep_view() == kept_tags(done),
        decreases n - i,
    {
        let c = s.get_char(i);
        if c == ',' {
            let piece = s.substring_char(start, i);
            let t = trim(piece);
            let ghost raw = s@.subrange(start as int, i as int);
            proof {
                let tail = s@.subrange(start as int, n as int);
                assert(forall|j: int|
                    0 <= j < i - start ==> tail[j] == s@[start + j] && tail[j] != ',');
                assert(tail[i - start] == s@[i as int]);
                lemma_split_commas_head(tail, i - start);
                assert(tail.subrange(0, i - start) =~= raw);
                assert(tail.subrange(i - start + 1, tail.len() as int) =~= s@.subrange(
                    i as int + 1,
                    n as int,
                ));
                assert(split_commas(s@) =~= (done + seq![raw]) + split_commas(
                    s@.subrange(i as int + 1, n as int),
                ));
            }
            if !t.as_str().is_empty() {
                out.push(t);
            }
            proof {
                let done2 = done + seq![raw];
                assert(done2.drop_last() =~= done);
                assert(done2.last() == raw);
                done = done2;
                assert(out.deep_view() =~= kept_tags(done));
            }
            start = i + 1;
        }
        i = i + 1;
    }
    let piece = s.substring_char(start, n);
    let t = trim(piece);
    let ghost raw = s@.subrange(start as int, n as int);
    proof {
        let tail = s@.subrange(start as int, n as int);
        assert(forall|j: int| 0 <= j < tail.len() ==> tail[j] == s@[start + j] && tail[j] != ',');
        lemma_split_commas_head(tail, tail.len() as int);
        assert(split_commas(s@) =~= done + seq![raw]);
    }
    if !t.as_str().is_empty() {
        out.push(t);
    }
    proof {
        let done2 = done + seq![raw];
        assert(done2.drop_last() =~= done);
        assert(done2.last() == raw);
        assert(out.deep_view() =~= kept_tags(done2));
        assert(split_commas(s@) == done2);
    }
    out
}

/// The pieces joined with a comma and a space between each pair, in order.
pub open spec fn joined(ts: Seq<Seq<char>>) -> Seq<char>
    decreases ts.len(),
{
    if ts.len() == 0 {
        Seq::<char>::empty()
    } else if ts.len() == 1 {
        ts[0]
    } else {
        joined(ts.drop_last()) + ", "@ + ts.last()
    }
}

/// Joins the tags with a comma and a space between each pair.
pub fn join_tags(ts: &Vec<String>) -> (r: String)
    ensures
        r@ == joined(ts.deep_view()),
{
    let mut r = String::new();
    let mut i: usize = 0;
    proof {
        assert(ts.deep_view().take(0) =~= Seq::<Seq<char>>::empty());
    }
    while i < ts.len()
        invariant
            i <= ts.len(),
            ts.deep_view().len() == ts.len(),
            r@ == joined(ts.deep_view().take(i as int)),
        decreases ts.len() - i,
    {
        if i > 0 {
            r.append(", ");
        }
        r.append(ts[i].as_str());
        proof {
            let d = ts.deep_view();
            assert(d[i as int] == ts[i as int].deep_view());
            assert(d.take(i as int + 1).drop_last() =~= d.take(i as int));
            assert(d.take(i as int + 1).last() == d[i as int]);
            if i == 0 {
                assert(r@ =~= joined(d.take(1)));
            }
        }
        i = i + 1;
    }
    proof {
        assert(ts.deep_view().take(ts.len() as int) =~= ts.deep_view());
    }
    r
}

/// The decimal digit character for a value below ten.
pub open spec fn digit_char(d: int) -> char {
    if d == 0 {
        '0'
    } else if d == 1 {
        '1'
    } else if d == 2 {
        '2'
    } else if d == 3 {
        '3'
    } else if d == 4 {
        '4'
    } else if d == 5 {
        '5'
    } else if d == 6 {
        '6'
    } else if d == 7 {
        '7'
    } else if d == 8 {
        '8'
    } else {
        '9'
    }
}

/// The decimal digit sequence of a number, most significant digit first,
/// with no leading zeros except for zero itself.
pub open spec fn dec_rep(n: nat) -> Seq<char>
    decreases n,
{
    if n < 10 {
        seq![digit_char(n as int)]
    } else {
        dec_rep(n / 10) + seq![digit_char((n % 10) as int)]
    }
}

fn append_digit(r: &mut String, d: u32)
    requires
        d < 10,
    ensures
        final(r)@ == old(r)@ + seq![digit_char(d as int)],
{
    if d == 0 {
        proof {
            reveal_strlit("0");
        }
        r.append("0");
    } else if d == 1 {
        proof {
            reveal_strlit("1");
        }
        r.append("1");
    } else if d == 2 {
        proof {
            reveal_strlit("2");
        }
        r.append("2");
    } else if d == 3 {
        proof {
            reveal_strlit("3");
        }
        r.append("3");
    } else if d == 4 {
        proof {
            reveal_strlit("4");
        }
        r.append("4");
    } else if d == 5 {
        proof {
            reveal_strlit("5");
        }
        r.append("5");
    } else if d == 6 {
        proof {
            reveal_strlit("6");
        }
        r.append("6");
    } else if d == 7 {
        proof {
            reveal_strlit("7");
        }
        r.append("7");
    } else if d == 8 {
        proof {
            reveal_strlit("8");
        }
        r.append("8");
    } else {
        proof {
            reveal_strlit("9");
        }
        r.append("9");
    }
}

/// Writes a number in decimal.
pub fn dec_string_u32(n: u32) -> (r: String)
    ensures
        r@ == dec_rep(n as nat),
    decreases n,
{
    if n < 10 {
        let mut r = String::new();
        append_digit(&mut r, n);
        proof {
            assert(r@ =~= seq![digit_char(n as int)]);
        }
        r
    } else {
        let mut r = dec_string_u32(n / 10);
        append_digit(&mut r, n % 10);
        r
    }
}

} // verus!
