use vstd::prelude::*;

verus! {

/// Whether `needle` occurs in `haystack` as a contiguous run of characters.
pub open spec fn has_infix(haystack: Seq<char>, needle: Seq<char>) -> bool {
    exists|i: int|
        0 <= i && i + needle.len() <= haystack.len() && #[trigger] haystack.subrange(
            i,
            i + needle.len(),
        ) == needle
}

/// `s` without the run of `c` at its end.
pub open spec fn trim_end(s: Seq<char>, c: char) -> Seq<char>
    decreases s.len(),
{
    if s.len() > 0 && s.last() == c {
        trim_end(s.drop_last(), c)
    } else {
        s
    }
}

pub open spec fn digit_char(d: nat) -> char {
    if d == 0 {
        '0'
    } else if d == 1 {
        '1'
    } else if d == 2 {
        '2'
    } else if d == 3 {
        '3'
    } else if d == 4 {
        '4'
    } else if d == 5 {
        '5'
    } else if d == 6 {
        '6'
    } else if d == 7 {
        '7'
    } else if d == 8 {
        '8'
    } else {
        '9'
    }
}

/// The decimal digits of `n`, most significant first, without leading zeros.
pub open spec fn decimal_of(n: nat) -> Seq<char>
    decreases n,
{
    if n < 10 {
        seq![digit_char(n)]
    } else {
        decimal_of(n / 10) + seq![digit_char(n % 10)]
    }
}

/// The characters of `s`, one per element.
pub fn chars_of(s: &str) -> (v: Vec<char>)
    ensures
        v@ == s@,
{
    let n = s.unicode_len();
    let mut v: Vec<char> = Vec::new();
    let mut i: usize = 0;
    while i < n
        invariant
            n == s@.len(),
            i <= n,
            v@ == s@.subrange(0, i as int),
        decreases n - i,
    {
        v.push(s.get_char(i));
        i = i + 1;
    }
    assert(v@ == s@);
    v
}

/// Whether `needle` occurs in `haystack`.
pub fn contains(haystack: &str, needle: &str) -> (r: bool)
    ensures
        r == has_infix(haystack@, needle@),
{
    let h = chars_of(haystack);
    let p = chars_of(needle);
    if p.len() == 0 {
        assert(haystack@.subrange(0, 0int + needle@.len()) == needle@);
        return true;
    }
    if p.len() > h.len() {
        return false;
    }
    let last = h.len() - p.len();
    let mut i: usize = 0;
    while i <= last
        invariant
            h@ == haystack@,
            p@ == needle@,
            last == h.len() - p.len(),
            p.len() > 0,
            i <= last + 1,
            forall|k: int| 0 <= k < i ==> #[trigger] h@.subrange(k, k + p.len()) != p@,
        decreases last + 1 - i,
    {
        let mut j: usize = 0;
        let mut same = true;
        while j < p.len() && same
            invariant
                h@ == haystack@,
                p@ == needle@,
                i <= last,
                last == h.len() - p.len(),
                j <= p.len(),
                same ==> forall|t: int| 0 <= t < j ==> h@[i + t] == p@[t],
                !same ==> h@.subrange(i as int, i + p.len()) != p@,
            decreases p.len() - j + (if same { 1int } else { 0int }),
        {
            if h[i + j] != p[j] {
                same = false;
                assert(h@.subrange(i as int, i + p.len())[j as int] != p@[j as int]);
            } else {
                j = j + 1;
            }
        }
        if same {
            assert(h@.subrange(i as int, i + p.len()) == p@);
            return true;
        }
        i = i + 1;
    }
    assert forall|k: int| 0 <= k && k + needle@.len() <= haystack@.len() implies #[trigger]
        haystack@.subrange(k, k + needle@.len()) != needle@ by {
        assert(k < i);
    }
    false
}

/// Whether `record` names the zone apex, `@`.
pub fn is_apex(record: &str) -> (r: bool)
    ensures
        r == (record@ == "@"@),
{
    proof {
        reveal_strlit("@");
        assert("@"@ =~= seq!['@']);
    }
    if record.unicode_len() == 1 {
        let c = record.get_char(0);
        assert(c == '@' ==> record@ == seq!['@']);
        c == '@'
    } else {
        false
    }
}

/// `s` with every `/` at its end removed.
pub fn trim_trailing_slashes(s: &str) -> (r: String)
    ensures
        r@ == trim_end(s@, '/'),
{
    let mut end = s.unicode_len();
    assert(s@.subrange(0, end as int) == s@);
    while end > 0 && s.get_char(end - 1) == '/'
        invariant
            end <= s@.len(),
            trim_end(s@.subrange(0, end as int), '/') == trim_end(s@, '/'),
        decreases end,
    {
        assert(s@.subrange(0, end as int).drop_last() == s@.subrange(0, end - 1));
        end = end - 1;
    }
    let kept = s.substring_char(0, end);
    String::from_str(kept)
}

fn digit_text(d: usize) -> (r: &'static str)
    requires
        d < 10,
    ensures
        r@ == seq![digit_char(d as nat)],
{
    proof {
        reveal_strlit("0");
        reveal_strlit("1");
        reveal_strlit("2");
        reveal_strlit("3");
        reveal_strlit("4");
        reveal_strlit("5");
        reveal_strlit("6");
        reveal_strlit("7");
        reveal_strlit("8");
        reveal_strlit("9");
    }
    match d {
        0 => "0",
        1 => "1",
        2 => "2",
        3 => "3",
        4 => "4",
        5 => "5",
        6 => "6",
        7 => "7",
        8 => "8",
        _ => "9",
    }
}

/// `n` written in decimal.
pub fn decimal(n: usize) -> (r: String)
    ensures
        r@ == decimal_of(n as nat),
    decreases n,
{
    if n < 10 {
        String::from_str(digit_text(n))
    } else {
        let head = decimal(n / 10);
        head.concat(digit_text(n % 10))
    }
}

} // verus!
