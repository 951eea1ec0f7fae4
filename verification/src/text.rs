//! Text building blocks: decimal rendering of integers, bracketed list
//! rendering, whitespace trimming, percent-encoding of spaces, and locating
//! the separator of a manifest line.

use vstd::prelude::*;
use vstd::string::*;

verus! {

/// ASCII whitespace, as trimmed from the ends of a checksum field.
pub open spec fn is_space(c: char) -> bool {
    c == ' ' || c == '\t' || c == '\n' || c == '\r' || c == '\u{b}' || c == '\u{c}'
}

pub fn is_space_char(c: char) -> (r: bool)
    ensures
        r == is_space(c),
{
    c == ' ' || c == '\t' || c == '\n' || c == '\r' || c == '\u{b}' || c == '\u{c}'
}

/// The decimal digit character for a value below ten.
pub open spec fn digit_char(d: int) -> char {
    if d == 0 {
        '0'
    } else if d == 1 {
        '1'
    } else if d == 2 {
        '2'
    } else if d == 3 {
        '3'
    } else if d == 4 {
        '4'
    } else if d == 5 {
        '5'
    } else if d == 6 {
        '6'
    } else if d == 7 {
        '7'
    } else if d == 8 {
        '8'
    } else {
        '9'
    }
}

/// The decimal rendering of a non-negative integer, most significant digit
/// first, with no leading zeros (a lone zero renders as "0").
pub open spec fn spec_digits(n: int) -> Seq<char>
    decreases n,
{
    if n < 10 {
        seq![digit_char(n)]
    } else {
        spec_digits(n / 10).push(digit_char(n % 10))
    }
}

fn digit_str(d: u64) -> (r: &'static str)
    requires
        d < 10,
    ensures
        r@ == seq![digit_char(d as int)],
{
    if d == 0 {
        let s = "0";
        proof {
            reveal_strlit("0");
            assert(s@ =~= seq![digit_char(d as int)]);
        }
        s
    } else if d == 1 {
        let s = "1";
        proof {
            reveal_strlit("1");
            assert(s@ =~= seq![digit_char(d as int)]);
        }
        s
    } else if d == 2 {
        let s = "2";
        proof {
            reveal_strlit("2");
            assert(s@ =~= seq![digit_char(d as int)]);
        }
        s
    } else if d == 3 {
        let s = "3";
        proof {
            reveal_strlit("3");
            assert(s@ =~= seq![digit_char(d as int)]);
        }
        s
    } else if d == 4 {
        let s = "4";
        proof {
            reveal_strlit("4");
            assert(s@ =~= seq![digit_char(d as int)]);
        }
        s
    } else if d == 5 {
        let s = "5";
        proof {
            reveal_strlit("5");
            assert(s@ =~= seq![digit_char(d as int)]);
        }
        s
    } else if d == 6 {
        let s = "6";
        proof {
            reveal_strlit("6");
            assert(s@ =~= seq![digit_char(d as int)]);
        }
        s
    } else if d == 7 {
        let s = "7";
        proof {
            reveal_strlit("7");
            assert(s@ =~= seq![digit_char(d as int)]);
        }
        s
    } else if d == 8 {
        let s = "8";
        proof {
            reveal_strlit("8");
            assert(s@ =~= seq![digit_char(d as int)]);
        }
        s
    } else {
        let s = "9";
        proof {
            reveal_strlit("9");
            assert(s@ =~= seq![digit_char(d as int)]);
        }
        s
    }
}

/// Renders an unsigned integer in decimal, exactly as `spec_digits` states.
pub fn u64_to_string(n: u64) -> (r: String)
    ensures
        r@ == spec_digits(n as int),
    decreases n,
{
    if n < 10 {
        digit_str(n).to_owned()
    } else {
        let mut s = u64_to_string(n / 10);
        let d = digit_str(n % 10);
        s.append(d);
        proof {
            assert(s@ =~= spec_digits(n as int));
        }
        s
    }
}

/// The comma-separated rendering of the values, without brackets.
pub open spec fn spec_join_u64(v: Seq<u64>) -> Seq<char>
    decreases v.len(),
{
    if v.len() == 0 {
        Seq::empty()
    } else if v.len() == 1 {
        spec_digits(v[0] as int)
    } else {
        spec_digits(v[0] as int) + ", "@ + spec_join_u64(v.drop_first())
    }
}

/// The rendering of a list of unsigned integers: "[", the values separated
/// by ", ", "]".
pub open spec fn spec_u64_list(v: Seq<u64>) -> Seq<char> {
    "["@ + spec_join_u64(v) + "]"@
}

proof fn lemma_join_u64_skip(v: Seq<u64>, i: int)
    requires
        0 <= i < v.len(),
    ensures
        spec_join_u64(v.skip(i)) == spec_digits(v[i] as int) + (if i + 1 == v.len() {
            Seq::<char>::empty()
        } else {
            ", "@ + spec_join_u64(v.skip(i + 1))
        }),
{
    assert(v.skip(i)[0] == v[i]);
    if i + 1 == v.len() {
        assert(spec_join_u64(v.skip(i)) == spec_digits(v[i] as int));
        assert(spec_digits(v[i] as int) + Seq::<char>::empty() =~= spec_digits(v[i] as int));
    } else {
        assert(v.skip(i).drop_first() =~= v.skip(i + 1));
        assert(spec_join_u64(v.skip(i)) == spec_digits(v[i] as int) + ", "@ + spec_join_u64(
            v.skip(i + 1),
        ));
        assert(spec_digits(v[i] as int) + ", "@ + spec_join_u64(v.skip(i + 1)) =~= spec_digits(
            v[i] as int,
        ) + (", "@ + spec_join_u64(v.skip(i + 1))));
    }
}

/// Renders a list of unsigned integers, exactly as `spec_u64_list` states.
pub fn render_u64_list(v: &Vec<u64>) -> (r: String)
    ensures
        r@ == spec_u64_list(v@),
{
    let mut out = "[".to_owned();
    if v.len() > 0 {
        let first = u64_to_string(v[0]);
        out.append(first.as_str());
        proof {
            lemma_join_u64_skip(v@, 0);
            assert(v@.skip(0) =~= v@);
            if v@.len() == 1 {
                assert("["@ + spec_join_u64(v@) =~= out@);
            } else {
                assert("["@ + spec_join_u64(v@) =~= out@ + (", "@ + spec_join_u64(v@.skip(1))));
            }
        }
        let mut i: usize = 1;
        while i < v.len()
            invariant
                1 <= i <= v@.len(),
                "["@ + spec_join_u64(v@) == out@ + (if i == v@.len() {
                    Seq::<char>::empty()
                } else {
                    ", "@ + spec_join_u64(v@.skip(i as int))
                }),
            decreases v@.len() - i,
        {
            out.append(", ");
            let di = u64_to_string(v[i]);
            out.append(di.as_str());
            proof {
                lemma_join_u64_skip(v@, i as int);
                if i + 1 == v@.len() {
                    assert("["@ + spec_join_u64(v@) =~= out@);
                } else {
                    assert("["@ + spec_join_u64(v@) =~= out@ + (", "@ + spec_join_u64(
                        v@.skip(i as int + 1),
                    )));
                }
            }
            i += 1;
        }
        out.append("]");
        proof {
            assert(out@ =~= spec_u64_list(v@));
        }
        out
    } else {
        out.append("]");
        proof {
            assert(spec_join_u64(v@) == Seq::<char>::empty());
            assert(out@ =~= spec_u64_list(v@));
        }
        out
    }
}

/// The rendering of one black-area rectangle: "(", the four values
/// separated by ", ", ")".
pub open spec fn spec_area(t: (u64, u64, u64, u64)) -> Seq<char> {
    "("@ + spec_digits(t.0 as int) + ", "@ + spec_digits(t.1 as int) + ", "@ + spec_digits(
        t.2 as int,
    ) + ", "@ + spec_digits(t.3 as int) + ")"@
}

/// Renders one black-area rectangle, exactly as `spec_area` states.
pub fn render_area(t: &(u64, u64, u64, u64)) -> (r: String)
    ensures
        r@ == spec_area(*t),
{
    let mut out = "(".to_owned();
    let d0 = u64_to_string(t.0);
    out.append(d0.as_str());
    out.append(", ");
    let d1 = u64_to_string(t.1);
    out.append(d1.as_str());
    out.append(", ");
    let d2 = u64_to_string(t.2);
    out.append(d2.as_str());
    out.append(", ");
    let d3 = u64_to_string(t.3);
    out.append(d3.as_str());
    out.append(")");
    proof {
        assert(out@ =~= spec_area(*t));
    }
    out
}

/// The comma-separated rendering of the rectangles, without brackets.
pub open spec fn spec_join_areas(v: Seq<(u64, u64, u64, u64)>) -> Seq<char>
    decreases v.len(),
{
    if v.len() == 0 {
        Seq::empty()
    } else if v.len() == 1 {
        spec_area(v[0])
    } else {
        spec_area(v[0]) + ", "@ + spec_join_areas(v.drop_first())
    }
}

/// The rendering of a list of black-area rectangles: "[", the rectangles
/// separated by ", ", "]".
pub open spec fn spec_area_list(v: Seq<(u64, u64, u64, u64)>) -> Seq<char> {
    "["@ + spec_join_areas(v) + "]"@
}

proof fn lemma_join_areas_skip(v: Seq<(u64, u64, u64, u64)>, i: int)
    requires
        0 <= i < v.len(),
    ensures
        spec_join_areas(v.skip(i)) == spec_area(v[i]) + (if i + 1 == v.len() {
            Seq::<char>::empty()
        } else {
            ", "@ + spec_join_areas(v.skip(i + 1))
        }),
{
    assert(v.skip(i)[0] == v[i]);
    if i + 1 == v.len() {
        assert(spec_join_areas(v.skip(i)) == spec_area(v[i]));
        assert(spec_area(v[i]) + Seq::<char>::empty() =~= spec_area(v[i]));
    } else {
        assert(v.skip(i).drop_first() =~= v.skip(i + 1));
        assert(spec_join_areas(v.skip(i)) == spec_area(v[i]) + ", "@ + spec_join_areas(
            v.skip(i + 1),
        ));
        assert(spec_area(v[i]) + ", "@ + spec_join_areas(v.skip(i + 1)) =~= spec_area(v[i]) + (", "@
            + spec_join_areas(v.skip(i + 1))));
    }
}

/// Renders a list of black-area rectangles, exactly as `spec_area_list`
/// states.
pub fn render_area_list(v: &Vec<(u64, u64, u64, u64)>) -> (r: String)
    ensures
        r@ == spec_area_list(v@),
{
    let mut out = "[".to_owned();
    if v.len() > 0 {
        let first = render_area(&v[0]);
        out.append(first.as_str());
        proof {
            lemma_join_areas_skip(v@, 0);
            assert(v@.skip(0) =~= v@);
            if v@.len() == 1 {
                assert("["@ + spec_join_areas(v@) =~= out@);
            } else {
                assert("["@ + spec_join_areas(v@) =~= out@ + (", "@ + spec_join_areas(v@.skip(1))));
            }
        }
        let mut i: usize = 1;
        while i < v.len()
            invariant
                1 <= i <= v@.len(),
                "["@ + spec_join_areas(v@) == out@ + (if i == v@.len() {
                    Seq::<char>::empty()
                } else {
                    ", "@ + spec_join_areas(v@.skip(i as int))
                }),
            decreases v@.len() - i,
        {
            out.append(", ");
            let ai = render_area(&v[i]);
            out.append(ai.as_str());
            proof {
                lemma_join_areas_skip(v@, i as int);
                if i + 1 == v@.len() {
                    assert("["@ + spec_join_areas(v@) =~= out@);
                } else {
                    assert("["@ + spec_join_areas(v@) =~= out@ + (", "@ + spec_join_areas(
                        v@.skip(i as int + 1),
                    )));
                }
            }
            i += 1;
        }
        out.append("]");
        proof {
            assert(out@ =~= spec_area_list(v@));
        }
        out
    } else {
        out.append("]");
        proof {
            assert(spec_join_areas(v@) == Seq::<char>::empty());
            assert(out@ =~= spec_area_list(v@));
        }
        out
    }
}

/// A character's percent-encoding: a space becomes "%20", anything else
/// stands as it is.
pub open spec fn enc_char(c: char) -> Seq<char> {
    if c == ' ' {
        "%20"@
    } else {
        seq![c]
    }
}

/// The text with every space percent-encoded.
pub open spec fn percent_encode_spaces(s: Seq<char>) -> Seq<char>
    decreases s.len(),
{
    if s.len() == 0 {
        Seq::empty()
    } else {
        enc_char(s[0]) + percent_encode_spaces(s.drop_first())
    }
}

proof fn lemma_encode_skip(s: Seq<char>, i: int)
    requires
        0 <= i < s.len(),
    ensures
        percent_encode_spaces(s.skip(i)) == enc_char(s[i]) + percent_encode_spaces(s.skip(i + 1)),
{
    assert(s.skip(i)[0] == s[i]);
    assert(s.skip(i).drop_first() =~= s.skip(i + 1));
}

/// Percent-encodes the spaces of a remote name, exactly as
/// `percent_encode_spaces` states.
pub fn encode_spaces(s: &str) -> (r: String)
    ensures
        r@ == percent_encode_spaces(s@),
{
    let n = s.unicode_len();
    let mut out = String::new();
    let mut i: usize = 0;
    proof {
        assert(s@.skip(0) =~= s@);
        assert(out@ + percent_encode_spaces(s@) =~= percent_encode_spaces(s@));
    }
    while i < n
        invariant
            0 <= i <= n,
            n == s@.len(),
            percent_encode_spaces(s@) == out@ + percent_encode_spaces(s@.skip(i as int)),
        decreases n - i,
    {
        proof {
            lemma_encode_skip(s@, i as int);
        }
        let c = s.get_char(i);
        if c == ' ' {
            out.append("%20");
        } else {
            let piece = s.substring_char(i, i + 1);
            proof {
                assert(piece@ =~= seq![s@[i as int]]);
            }
            out.append(piece);
        }
        proof {
            assert(percent_encode_spaces(s@) =~= out@ + percent_encode_spaces(
                s@.skip(i as int + 1),
            ));
        }
        i += 1;
    }
    proof {
        assert(s@.skip(n as int) =~= Seq::<char>::empty());
        assert(out@ =~= percent_encode_spaces(s@));
    }
    out
}

/// The text with leading whitespace removed.
pub open spec fn trim_front(s: Seq<char>) -> Seq<char>
    decreases s.len(),
{
    if s.len() > 0 && is_space(s[0]) {
        trim_front(s.drop_first())
    } else {
        s
    }
}

/// The text with trailing whitespace removed.
pub open spec fn trim_back(s: Seq<char>) -> Seq<char>
    decreases s.len(),
{
    if s.len() > 0 && is_space(s[s.len() - 1]) {
        trim_back(s.drop_last())
    } else {
        s
    }
}

/// The text with surrounding whitespace removed.
pub open spec fn spec_trim(s: Seq<char>) -> Seq<char> {
    trim_back(trim_front(s))
}

/// Trims surrounding whitespace, exactly as `spec_trim` states.
pub fn trim_str(s: &str) -> (r: String)
    ensures
        r@ == spec_trim(s@),
{
    let n = s.unicode_len();
    let mut a: usize = 0;
    proof {
        assert(s@.skip(0) =~= s@);
    }
    while a < n && is_space_char(s.get_char(a))
        invariant
            0 <= a <= n,
            n == s@.len(),
            trim_front(s@) == trim_front(s@.skip(a as int)),
        decreases n - a,
    {
        proof {
            assert(s@.skip(a as int)[0] == s@[a as int]);
            assert(s@.skip(a as int).drop_first() =~= s@.skip(a as int + 1));
        }
        a += 1;
    }
    let ghost t = s@.skip(a as int);
    proof {
        if a < n {
            assert(t[0] == s@[a as int]);
            assert(trim_front(s@) == t);
        } else {
            assert(t =~= Seq::<char>::empty());
            assert(trim_front(s@) == t);
        }
        assert(t.take(n - a as int) =~= t);
    }
    let mut b: usize = n;
    while b > a && is_space_char(s.get_char(b - 1))
        invariant
            a <= b <= n,
            n == s@.len(),
            t == s@.skip(a as int),
            trim_front(s@) == t,
            trim_back(t) == trim_back(t.take(b - a as int)),
        decreases b,
    {
        proof {
            let u = t.take(b - a as int);
            assert(u.len() == b - a);
            assert(u[u.len() - 1] == s@[b as int - 1]);
            assert(u.drop_last() =~= t.take(b - 1 - a as int));
        }
        b -= 1;
    }
    proof {
        let u = t.take(b - a as int);
        if b > a {
            assert(u[u.len() - 1] == s@[b as int - 1]);
            assert(trim_back(u) == u);
        } else {
            assert(u =~= Seq::<char>::empty());
            assert(trim_back(u) == u);
        }
    }
    let r = s.substring_char(a, b);
    proof {
        assert(r@ =~= t.take(b - a as int));
        assert(r@ =~= spec_trim(s@));
    }
    r.to_owned()
}

/// The index of the first '*' of the line, or -1 where the line has none.
pub open spec fn star_index(s: Seq<char>) -> int
    decreases s.len(),
{
    if s.len() == 0 {
        -1
    } else if s[0] == '*' {
        0
    } else if star_index(s.drop_first()) < 0 {
        -1
    } else {
        1 + star_index(s.drop_first())
    }
}

/// What `star_index` finds: a non-negative result is the first '*', and a
/// negative one means the line holds none.
pub proof fn lemma_star_index_spec(s: Seq<char>)
    ensures
        star_index(s) >= 0 ==> star_index(s) < s.len() && s[star_index(s)] == '*' && (forall|
            j: int,
        |
            0 <= j < star_index(s) ==> s[j] != '*'),
        star_index(s) < 0 ==> star_index(s) == -1 && (forall|j: int|
            0 <= j < s.len() ==> s[j] != '*'),
    decreases s.len(),
{
    if s.len() == 0 {
    } else if s[0] == '*' {
    } else {
        lemma_star_index_spec(s.drop_first());
        assert(forall|j: int| 1 <= j < s.len() ==> s[j] == s.drop_first()[j - 1]);
    }
}

/// Finds the first '*' of the line, exactly as `star_index` states.
pub fn find_star(s: &str) -> (r: Option<usize>)
    ensures
        match r {
            Some(i) => star_index(s@) == i && i < s@.len(),
            None => star_index(s@) == -1,
        },
{
    let n = s.unicode_len();
    let mut i: usize = 0;
    while i < n
        invariant
            0 <= i <= n,
            n == s@.len(),
            forall|j: int| 0 <= j < i ==> s@[j] != '*',
        decreases n - i,
    {
        let c = s.get_char(i);
        if c == '*' {
            proof {
                lemma_star_index_spec(s@);
                assert(star_index(s@) >= 0);
                assert(star_index(s@) == i);
            }
            return Some(i);
        }
        i += 1;
    }
    proof {
        lemma_star_index_spec(s@);
        if star_index(s@) >= 0 {
            assert(s@[star_index(s@)] != '*');
            assert(false);
        }
    }
    None
}

} // verus!
