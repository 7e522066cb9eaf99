use vstd::prelude::*;
use vstd::string::StrSliceExecFns;

verus! {

// Character-level text helpers shared by the parsing and synthesis steps.
// Executable code works on `Vec<char>`, whose view is the `Seq<char>` the
// specifications speak about; `chars_of` and `string_of` move between the
// two representations.

/// ASCII whitespace, the delimiter set of the bridge tool's tabular output.
pub open spec fn is_space(c: char) -> bool {
    c == ' ' || c == '\t' || c == '\r' || c == '\n'
}

/// `s` without its leading whitespace.
pub open spec fn spec_trim_front(s: Seq<char>) -> Seq<char>
    decreases s.len(),
{
    if s.len() > 0 && is_space(s[0]) {
        spec_trim_front(s.drop_first())
    } else {
        s
    }
}

/// `s` without its trailing whitespace.
pub open spec fn spec_trim_back(s: Seq<char>) -> Seq<char>
    decreases s.len(),
{
    if s.len() > 0 && is_space(s.last()) {
        spec_trim_back(s.drop_last())
    } else {
        s
    }
}

/// `s` without leading and trailing whitespace.
pub open spec fn spec_trim(s: Seq<char>) -> Seq<char> {
    spec_trim_back(spec_trim_front(s))
}

/// The longest whitespace-free prefix of `s`.
pub open spec fn spec_first_token(s: Seq<char>) -> Seq<char>
    decreases s.len(),
{
    if s.len() > 0 && !is_space(s[0]) {
        seq![s[0]] + spec_first_token(s.drop_first())
    } else {
        Seq::empty()
    }
}

/// The length of the first line of `s`: the number of characters before
/// the first newline, or all of `s` when it has none.
pub open spec fn spec_line_len(s: Seq<char>) -> nat
    decreases s.len(),
{
    if s.len() == 0 {
        0
    } else if s[0] == '\n' {
        0
    } else {
        (1 + spec_line_len(s.drop_first())) as nat
    }
}

/// `s` split at newlines.  A trailing newline closes the last line rather
/// than opening an empty one, so an empty text has no lines at all.
pub open spec fn spec_split_lines(s: Seq<char>) -> Seq<Seq<char>>
    decreases s.len(),
{
    if s.len() == 0 {
        Seq::empty()
    } else {
        let n = spec_line_len(s) as int;
        let rest = if n < s.len() {
            s.skip(n + 1)
        } else {
            Seq::empty()
        };
        seq![s.take(n)] + spec_split_lines(rest)
    }
}

/// `s` with every `-` replaced by `_`.
pub open spec fn spec_dashes(s: Seq<char>) -> Seq<char> {
    s.map_values(|c: char| if c == '-' { '_' } else { c })
}

/// The decimal digit `d` as a character.
pub open spec fn digit_char(d: int) -> char {
    if d == 0 { '0' }
    else if d == 1 { '1' }
    else if d == 2 { '2' }
    else if d == 3 { '3' }
    else if d == 4 { '4' }
    else if d == 5 { '5' }
    else if d == 6 { '6' }
    else if d == 7 { '7' }
    else if d == 8 { '8' }
    else { '9' }
}

/// The decimal rendering of `n`, most significant digit first.
pub open spec fn spec_decimal(n: nat) -> Seq<char>
    decreases n,
{
    if n < 10 {
        seq![digit_char(n as int)]
    } else {
        spec_decimal(n / 10).push(digit_char((n % 10) as int))
    }
}

/// The characters of `s`, as a vector.
pub fn chars_of(s: &str) -> (r: Vec<char>)
    ensures
        r@ == s@,
{
    let n = s.unicode_len();
    let mut r: Vec<char> = Vec::new();
    let mut i: usize = 0;
    while i < n
        invariant
            i <= n,
            n == s@.len(),
            r@ == s@.take(i as int),
        decreases n - i,
    {
        r.push(s.get_char(i));
        proof {
            assert(r@ =~= s@.take(i + 1));
        }
        i = i + 1;
    }
    proof {
        assert(s@.take(n as int) =~= s@);
    }
    r
}

/// The characters of `chars`, as a `String`.
///
/// Relies on `String`'s `FromIterator` implementation: collecting a
/// sequence of characters yields the string of exactly those characters.
#[verifier::external_body]
fn string_of_impl(chars: &Vec<char>) -> (r: String)
    ensures
        r@ == chars@,
{
    chars.iter().collect()
}

/// The characters of `chars`, as a `String`.
pub fn string_of(chars: &Vec<char>) -> (r: String)
    ensures
        r@ == chars@,
{
    string_of_impl(chars)
}

/// The characters of `v` from `from` (inclusive) to `to` (exclusive).
pub fn subchars(v: &Vec<char>, from: usize, to: usize) -> (r: Vec<char>)
    requires
        from <= to <= v@.len(),
    ensures
        r@ == v@.subrange(from as int, to as int),
{
    let mut r: Vec<char> = Vec::new();
    let mut i: usize = from;
    while i < to
        invariant
            from <= i <= to <= v@.len(),
            r@ == v@.subrange(from as int, i as int),
        decreases to - i,
    {
        r.push(v[i]);
        proof {
            assert(r@ =~= v@.subrange(from as int, i + 1));
        }
        i = i + 1;
    }
    r
}

/// Dropping `i` leading whitespace characters does not change the
/// whitespace-trimmed front of a sequence.
proof fn lemma_trim_front_skip(s: Seq<char>, i: int)
    requires
        0 <= i <= s.len(),
        forall|j: int| 0 <= j < i ==> is_space(s[j]),
    ensures
        spec_trim_front(s) == spec_trim_front(s.skip(i)),
    decreases i,
{
    if i > 0 {
        assert(s.len() > 0 && is_space(s[0]));
        assert(s.drop_first() =~= s.skip(1));
        lemma_trim_front_skip(s.skip(1), i - 1);
        assert(s.skip(1).skip(i - 1) =~= s.skip(i));
    } else {
        assert(s.skip(0) =~= s);
    }
}

/// Dropping `i` trailing whitespace characters does not change the
/// whitespace-trimmed back of a sequence.
proof fn lemma_trim_back_take(s: Seq<char>, i: int)
    requires
        0 <= i <= s.len(),
        forall|j: int| i <= j < s.len() ==> is_space(s[j]),
    ensures
        spec_trim_back(s) == spec_trim_back(s.take(i)),
    decreases s.len() - i,
{
    if i < s.len() {
        assert(s.len() > 0 && is_space(s.last()));
        assert(s.drop_last() =~= s.take(s.len() - 1));
        lemma_trim_back_take(s.take(s.len() - 1), i);
        assert(s.take(s.len() - 1).take(i) =~= s.take(i));
    } else {
        assert(s.take(i) =~= s);
    }
}

/// A prefix of non-whitespace characters closed by whitespace or the end
/// of the sequence is exactly the first token.
proof fn lemma_first_token_prefix(s: Seq<char>, j: int)
    requires
        0 <= j <= s.len(),
        forall|k: int| 0 <= k < j ==> !is_space(s[k]),
        j == s.len() || is_space(s[j]),
    ensures
        spec_first_token(s) == s.take(j),
    decreases j,
{
    if j == 0 {
        assert(s.take(0) =~= Seq::<char>::empty());
    } else {
        assert(!is_space(s[0]));
        assert(s.drop_first() =~= s.skip(1));
        lemma_first_token_prefix(s.skip(1), j - 1);
        assert(seq![s[0]] + s.skip(1).take(j - 1) =~= s.take(j));
    }
}

/// A scan that found no newline before position `k`, and a newline or the
/// end at `k`, has found the first line's length.
proof fn lemma_line_len(s: Seq<char>, k: int)
    requires
        0 <= k <= s.len(),
        forall|j: int| 0 <= j < k ==> s[j] != '\n',
        k == s.len() || s[k] == '\n',
    ensures
        spec_line_len(s) == k,
    decreases k,
{
    if k > 0 {
        assert(s.drop_first() =~= s.skip(1));
        lemma_line_len(s.skip(1), k - 1);
    }
}

/// `v` without leading whitespace.
pub fn trim_front(v: &Vec<char>) -> (r: Vec<char>)
    ensures
        r@ == spec_trim_front(v@),
{
    let n = v.len();
    let mut i: usize = 0;
    while i < n && (v[i] == ' ' || v[i] == '\t' || v[i] == '\r' || v[i] == '\n')
        invariant
            i <= n,
            n == v@.len(),
            forall|j: int| 0 <= j < i ==> is_space(v@[j]),
        decreases n - i,
    {
        i = i + 1;
    }
    proof {
        lemma_trim_front_skip(v@, i as int);
        assert(v@.subrange(i as int, n as int) =~= v@.skip(i as int));
    }
    subchars(v, i, n)
}

/// `v` without leading and trailing whitespace.
pub fn trim(v: &Vec<char>) -> (r: Vec<char>)
    ensures
        r@ == spec_trim(v@),
{
    let front = trim_front(v);
    let n = front.len();
    let mut e: usize = n;
    while e > 0 && (front[e - 1] == ' ' || front[e - 1] == '\t' || front[e - 1] == '\r'
        || front[e - 1] == '\n')
        invariant
            e <= n,
            n == front@.len(),
            forall|j: int| e <= j < n ==> is_space(front@[j]),
        decreases e,
    {
        e = e - 1;
    }
    proof {
        lemma_trim_back_take(front@, e as int);
        assert(front@.subrange(0, e as int) =~= front@.take(e as int));
    }
    subchars(&front, 0, e)
}

/// The longest whitespace-free prefix of `v`.
pub fn first_token(v: &Vec<char>) -> (r: Vec<char>)
    ensures
        r@ == spec_first_token(v@),
{
    let n = v.len();
    let mut j: usize = 0;
    while j < n && !(v[j] == ' ' || v[j] == '\t' || v[j] == '\r' || v[j] == '\n')
        invariant
            j <= n,
            n == v@.len(),
            forall|k: int| 0 <= k < j ==> !is_space(v@[k]),
        decreases n - j,
    {
        j = j + 1;
    }
    proof {
        lemma_first_token_prefix(v@, j as int);
        assert(v@.subrange(0, j as int) =~= v@.take(j as int));
    }
    subchars(v, 0, j)
}

/// `v` split at newlines, as `spec_split_lines` describes.
pub fn split_lines(v: &Vec<char>) -> (r: Vec<Vec<char>>)
    ensures
        r.deep_view() == spec_split_lines(v@),
{
    let n = v.len();
    let mut r: Vec<Vec<char>> = Vec::new();
    let mut pos: usize = 0;
    proof {
        assert(v@.skip(0) =~= v@);
        assert(r.deep_view() + spec_split_lines(v@) =~~= spec_split_lines(v@));
    }
    while pos < n
        invariant
            pos <= n,
            n == v@.len(),
            r.deep_view() + spec_split_lines(v@.skip(pos as int)) == spec_split_lines(v@),
        decreases n - pos,
    {
        let ghost prev = r.deep_view();
        let ghost p0 = pos as int;
        let ghost rest = v@.skip(pos as int);
        let mut k: usize = pos;
        while k < n && v[k] != '\n'
            invariant
                pos <= k <= n,
                n == v@.len(),
                forall|j: int| pos <= j < k ==> v@[j] != '\n',
            decreases n - k,
        {
            k = k + 1;
        }
        proof {
            assert(forall|j: int| 0 <= j < k - p0 ==> rest[j] != '\n');
            assert(k < n ==> rest[k - p0] == v@[k as int]);
            lemma_line_len(rest, k - p0);
        }
        let line = subchars(v, pos, k);
        r.push(line);
        proof {
            assert(line@ =~= rest.take(k - p0));
            assert(r.deep_view() =~~= prev.push(rest.take(k - p0)));
        }
        if k < n {
            pos = k + 1;
            proof {
                assert(v@.skip(pos as int) =~= rest.skip(k - p0 + 1));
                assert(r.deep_view() + spec_split_lines(v@.skip(pos as int)) =~~= prev + (seq![
                    rest.take(k - p0),
                ] + spec_split_lines(rest.skip(k - p0 + 1))));
            }
        } else {
            pos = n;
            proof {
                assert(v@.skip(pos as int) =~= Seq::<char>::empty());
                assert(r.deep_view() + spec_split_lines(v@.skip(pos as int)) =~~= prev + (seq![
                    rest.take(k - p0),
                ] + spec_split_lines(Seq::<char>::empty())));
            }
        }
    }
    proof {
        assert(v@.skip(n as int) =~= Seq::<char>::empty());
        assert(r.deep_view() =~~= r.deep_view() + spec_split_lines(Seq::<char>::empty()));
    }
    r
}

/// `v` with every `-` replaced by `_`.
pub fn dash_to_underscore(v: &Vec<char>) -> (r: Vec<char>)
    ensures
        r@ == spec_dashes(v@),
{
    let n = v.len();
    let mut r: Vec<char> = Vec::new();
    let mut i: usize = 0;
    while i < n
        invariant
            i <= n,
            n == v@.len(),
            r@ == spec_dashes(v@.take(i as int)),
        decreases n - i,
    {
        if v[i] == '-' {
            r.push('_');
        } else {
            r.push(v[i]);
        }
        proof {
            assert(r@ =~= spec_dashes(v@.take(i + 1)));
        }
        i = i + 1;
    }
    proof {
        assert(v@.take(n as int) =~= v@);
    }
    r
}

/// The decimal digit `d` as a character.
fn digit(d: u32) -> (r: char)
    requires
        d < 10,
    ensures
        r == digit_char(d as int),
{
    match d {
        0 => '0',
        1 => '1',
        2 => '2',
        3 => '3',
        4 => '4',
        5 => '5',
        6 => '6',
        7 => '7',
        8 => '8',
        _ => '9',
    }
}

/// Appends the decimal rendering of `n` to `out`.
pub fn push_decimal(out: &mut Vec<char>, n: u32)
    ensures
        final(out)@ == old(out)@ + spec_decimal(n as nat),
    decreases n,
{
    if n < 10 {
        out.push(digit(n));
        proof {
            assert(out@ =~= old(out)@ + spec_decimal(n as nat));
        }
    } else {
        push_decimal(out, n / 10);
        out.push(digit(n % 10));
        proof {
            assert(out@ =~= old(out)@ + spec_decimal(n as nat));
        }
    }
}

/// The decimal rendering of `n`, as characters.
pub fn decimal_chars(n: u32) -> (r: Vec<char>)
    ensures
        r@ == spec_decimal(n as nat),
{
    let mut r: Vec<char> = Vec::new();
    push_decimal(&mut r, n);
    proof {
        assert(r@ =~= spec_decimal(n as nat));
    }
    r
}

} // verus!
