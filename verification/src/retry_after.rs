//! The retry-after grammar: a rate-limit message names the wait as
//! "try again in <number> <unit>", case-insensitively, where the unit is
//! seconds ("s", "sec", "seconds", anything starting with "s") or
//! milliseconds ("ms"). The parser finds the leftmost such phrase and
//! returns the delay in milliseconds, saturating at `u64::MAX`.

use vstd::prelude::*;

verus! {

/// Ten to the `n`.
pub open spec fn pow10(n: nat) -> nat
    decreases n,
{
    if n == 0 {
        1
    } else {
        10 * pow10((n - 1) as nat)
    }
}

/// Whether a character is an ASCII decimal digit.
pub open spec fn spec_is_digit(c: char) -> bool {
    48 <= c as u32 <= 57
}

/// The value of an ASCII decimal digit.
pub open spec fn spec_digit_val(c: char) -> nat {
    (c as u32 - 48) as nat
}

/// Whether a character is ASCII whitespace, as the grammar skips it
/// between the phrase, the number, and the unit.
pub open spec fn spec_is_space(c: char) -> bool {
    c == ' ' || c == '\t' || c == '\n' || c == '\r' || c as u32 == 11 || c as u32 == 12
}

/// Case-insensitive match of a character against a lowercase pattern
/// character.
pub open spec fn spec_eq_ci(c: char, p: char) -> bool {
    c == p || (97 <= p as u32 <= 122 && c as u32 + 32 == p as u32)
}

/// The number denoted by a digit string read left to right, continuing
/// from the accumulator `v`.
pub open spec fn spec_digits_acc(v: nat, s: Seq<char>) -> nat
    decreases s.len(),
{
    if s.len() == 0 {
        v
    } else {
        spec_digits_acc(v * 10 + spec_digit_val(s.first()), s.drop_first())
    }
}

/// The number denoted by a digit string.
pub open spec fn spec_digits_nat(s: Seq<char>) -> nat {
    spec_digits_acc(0, s)
}

/// Reading one more digit multiplies by ten and adds it.
proof fn lemma_digits_acc_push(v: nat, s: Seq<char>, c: char)
    ensures
        spec_digits_acc(v, s.push(c)) == spec_digits_acc(v, s) * 10 + spec_digit_val(c),
    decreases s.len(),
{
    if s.len() == 0 {
        assert(s.push(c).first() == c);
        assert(s.push(c).drop_first() =~= Seq::<char>::empty());
        assert(spec_digits_acc(v, s) == v);
        assert(spec_digits_acc(
            v * 10 + spec_digit_val(c),
            Seq::<char>::empty(),
        ) == v * 10 + spec_digit_val(c));
    } else {
        assert(s.push(c).first() == s.first());
        assert(s.push(c).drop_first() =~= s.drop_first().push(c));
        lemma_digits_acc_push(v * 10 + spec_digit_val(s.first()), s.drop_first(), c);
    }
}

/// The accumulator contributes its value shifted by the string's length.
proof fn lemma_digits_acc_linear(v: nat, s: Seq<char>)
    ensures
        spec_digits_acc(v, s) == v * pow10(s.len()) + spec_digits_nat(s),
    decreases s.len(),
{
    if s.len() == 0 {
        assert(v * pow10(0) == v) by (nonlinear_arith);
    } else {
        let d = spec_digit_val(s.first());
        let rest = s.drop_first();
        lemma_digits_acc_linear(v * 10 + d, rest);
        lemma_digits_acc_linear(d, rest);
        assert((v * 10 + d) * pow10(rest.len()) == v * (10 * pow10(rest.len())) + d * pow10(
            rest.len(),
        )) by (nonlinear_arith);
    }
}

/// A digit string of length `n` denotes less than ten to the `n`.
proof fn lemma_digits_upper(s: Seq<char>)
    requires
        forall|j: int| 0 <= j < s.len() ==> spec_is_digit(s[j]),
    ensures
        spec_digits_nat(s) < pow10(s.len()),
    decreases s.len(),
{
    if s.len() > 0 {
        let d = spec_digit_val(s.first());
        let rest = s.drop_first();
        lemma_digits_acc_linear(d, rest);
        lemma_digits_upper(rest);
        assert(d * pow10(rest.len()) + pow10(rest.len()) <= 10 * pow10(rest.len()))
            by (nonlinear_arith)
            requires
                d <= 9,
        ;
    }
}

/// A digit string without a leading zero denotes at least ten to one
/// less than its length.
proof fn lemma_digits_lower(s: Seq<char>)
    requires
        s.len() > 0,
        spec_digit_val(s.first()) >= 1,
    ensures
        spec_digits_nat(s) >= pow10((s.len() - 1) as nat),
{
    let d = spec_digit_val(s.first());
    let rest = s.drop_first();
    lemma_digits_acc_linear(d, rest);
    assert(d * pow10(rest.len()) >= pow10(rest.len())) by (nonlinear_arith)
        requires
            d >= 1,
    ;
}

/// Leading zeros do not change the denoted number.
proof fn lemma_digits_drop_zero(s: Seq<char>)
    requires
        s.len() > 0,
        spec_digit_val(s.first()) == 0,
    ensures
        spec_digits_nat(s) == spec_digits_nat(s.drop_first()),
{
}

/// The first index at or after `q` whose character is not whitespace, or
/// the length if all are.
pub open spec fn spec_ws_end(msg: Seq<char>, q: int) -> int
    decreases msg.len() - q,
{
    if q < 0 || q >= msg.len() {
        q
    } else if spec_is_space(msg[q]) {
        spec_ws_end(msg, q + 1)
    } else {
        q
    }
}

/// The first index at or after `q` whose character is not a digit, or the
/// length if all are.
pub open spec fn spec_digits_end(msg: Seq<char>, q: int) -> int
    decreases msg.len() - q,
{
    if q < 0 || q >= msg.len() {
        q
    } else if spec_is_digit(msg[q]) {
        spec_digits_end(msg, q + 1)
    } else {
        q
    }
}

/// Whether the pattern matches the message at `p`, ignoring case.
pub open spec fn spec_prefix_ci(msg: Seq<char>, p: int, pat: Seq<char>) -> bool {
    &&& 0 <= p
    &&& p + pat.len() <= msg.len()
    &&& forall|j: int| 0 <= j < pat.len() ==> spec_eq_ci(msg[p + j], pat[j])
}

/// The milliseconds denoted by up to three fraction digits; deeper digits
/// are below the millisecond and are dropped.
pub open spec fn spec_frac_millis(fd: Seq<char>) -> nat {
    (if fd.len() > 0 {
        spec_digit_val(fd[0]) * 100
    } else {
        0
    }) + (if fd.len() > 1 {
        spec_digit_val(fd[1]) * 10
    } else {
        0
    }) + (if fd.len() > 2 {
        spec_digit_val(fd[2])
    } else {
        0
    })
}

/// The phrase the grammar looks for.
pub open spec fn spec_retry_pattern() -> Seq<char> {
    "try again in"@
}

/// The delay in milliseconds denoted by a match of the grammar at
/// position `p`, or nothing if the grammar does not match there: the
/// phrase, optional whitespace, digits with an optional fraction,
/// optional whitespace, and a unit beginning with "s" (seconds) or equal
/// to "ms" (milliseconds).
pub open spec fn spec_match_at(msg: Seq<char>, p: int) -> Option<nat> {
    if !spec_prefix_ci(msg, p, spec_retry_pattern()) {
        None
    } else {
        let w = spec_ws_end(msg, p + spec_retry_pattern().len());
        let d = spec_digits_end(msg, w);
        if d == w {
            None
        } else {
            let whole = spec_digits_nat(msg.subrange(w, d));
            let has_frac = d < msg.len() && msg[d] == '.' && d + 1 < msg.len() && spec_is_digit(
                msg[d + 1],
            );
            let numend = if has_frac {
                spec_digits_end(msg, d + 1)
            } else {
                d
            };
            let frac = if has_frac {
                spec_frac_millis(msg.subrange(d + 1, spec_digits_end(msg, d + 1)))
            } else {
                0
            };
            let u = spec_ws_end(msg, numend);
            if u < msg.len() && spec_eq_ci(msg[u], 's') {
                Some(whole * 1000 + frac)
            } else if u + 1 < msg.len() && spec_eq_ci(msg[u], 'm') && spec_eq_ci(msg[u + 1], 's') {
                Some(whole)
            } else {
                None
            }
        }
    }
}

/// The leftmost match of the grammar at or after position `p`.
pub open spec fn spec_first_match(msg: Seq<char>, p: int) -> Option<nat>
    decreases msg.len() - p,
{
    if p < 0 || p >= msg.len() {
        None
    } else {
        match spec_match_at(msg, p) {
            Some(v) => Some(v),
            None => spec_first_match(msg, p + 1),
        }
    }
}

/// The delay a message denotes, clamped to what a `u64` can carry.
pub open spec fn spec_retry_after_millis(msg: Seq<char>) -> Option<u64> {
    match spec_first_match(msg, 0) {
        Some(n) => Some(
            if n > u64::MAX {
                u64::MAX
            } else {
                n as u64
            },
        ),
        None => None,
    }
}

/// The characters of a string, as an indexable list.
pub fn str_chars(s: &str) -> (v: Vec<char>)
    ensures
        v@ == s@,
{
    let n = s.unicode_len();
    let mut v: Vec<char> = Vec::new();
    let mut i: usize = 0;
    while i < n
        invariant
            n == s@.len(),
            i <= n,
            v@ == s@.take(i as int),
        decreases n - i,
    {
        v.push(s.get_char(i));
        proof {
            assert(s@.take(i + 1 as int) =~= s@.take(i as int).push(s@[i as int]));
        }
        i = i + 1;
    }
    proof {
        assert(s@.take(n as int) =~= s@);
    }
    v
}

/// Whether a character is an ASCII decimal digit.
fn is_digit_char(c: char) -> (r: bool)
    ensures
        r == spec_is_digit(c),
{
    let u = c as u32;
    48 <= u && u <= 57
}

/// Whether a character is ASCII whitespace.
fn is_space_char(c: char) -> (r: bool)
    ensures
        r == spec_is_space(c),
{
    let u = c as u32;
    u == 32 || u == 9 || u == 10 || u == 13 || u == 11 || u == 12
}

/// Case-insensitive comparison against a lowercase pattern character.
fn eq_ci_char(c: char, p: char) -> (r: bool)
    ensures
        r == spec_eq_ci(c, p),
{
    let cu = c as u32;
    let pu = p as u32;
    cu == pu || (97 <= pu && pu <= 122 && cu + 32 == pu)
}

/// Scans past whitespace.
fn ws_end(msg: &Vec<char>, q: usize) -> (r: usize)
    requires
        q <= msg@.len(),
    ensures
        r == spec_ws_end(msg@, q as int),
        q <= r <= msg@.len(),
{
    let mut i = q;
    while i < msg.len() && is_space_char(msg[i])
        invariant
            q <= i <= msg@.len(),
            spec_ws_end(msg@, q as int) == spec_ws_end(msg@, i as int),
        decreases msg@.len() - i,
    {
        i = i + 1;
    }
    i
}

/// Scans past digits.
fn digits_end(msg: &Vec<char>, q: usize) -> (r: usize)
    requires
        q <= msg@.len(),
    ensures
        r == spec_digits_end(msg@, q as int),
        q <= r <= msg@.len(),
        forall|j: int| q <= j < r ==> spec_is_digit(msg@[j]),
        r < msg@.len() ==> !spec_is_digit(msg@[r as int]),
{
    let mut i = q;
    while i < msg.len() && is_digit_char(msg[i])
        invariant
            q <= i <= msg@.len(),
            spec_digits_end(msg@, q as int) == spec_digits_end(msg@, i as int),
            forall|j: int| q <= j < i ==> spec_is_digit(msg@[j]),
        decreases msg@.len() - i,
    {
        i = i + 1;
    }
    i
}

/// Reads the number denoted by `msg[from..to]`, exactly when it fits and
/// clamped to `u64::MAX` when it does not.
#[verifier::loop_isolation(false)]
fn read_number_clamped(msg: &Vec<char>, from: usize, to: usize) -> (r: u128)
    requires
        from <= to <= msg@.len(),
        forall|j: int| from <= j < to ==> spec_is_digit(msg@[j]),
    ensures
        spec_digits_nat(msg@.subrange(from as int, to as int)) <= u64::MAX as nat ==> r
            == spec_digits_nat(msg@.subrange(from as int, to as int)),
        spec_digits_nat(msg@.subrange(from as int, to as int)) > u64::MAX as nat ==> r > u64::MAX,
        r <= pow10(21),
{
    // Leading zeros never change the number; skipping them bounds the
    // value by the count of the digits that remain.
    let mut z = from;
    while z < to && msg[z] as u32 == 48
        invariant
            from <= z <= to,
            spec_digits_nat(msg@.subrange(from as int, to as int)) == spec_digits_nat(
                msg@.subrange(z as int, to as int),
            ),
        decreases to - z,
    {
        proof {
            let s = msg@.subrange(z as int, to as int);
            if s.len() > 0 {
                lemma_digits_drop_zero(s);
                assert(s.drop_first() =~= msg@.subrange(z + 1 as int, to as int));
            }
        }
        z = z + 1;
    }
    let ghost digits = msg@.subrange(z as int, to as int);
    if to - z > 21 {
        proof {
            lemma_digits_lower(digits);
            lemma_pow10_values();
            lemma_pow10_increases((20) as nat, (digits.len() - 1) as nat);
        }
        return u64::MAX as u128 + 1;
    }
    let mut v: u128 = 0;
    let mut i = z;
    while i < to
        invariant
            z <= i <= to,
            v == spec_digits_nat(msg@.subrange(z as int, i as int)),
            v < pow10((i - z) as nat),
        decreases to - i,
    {
        proof {
            let s = msg@.subrange(z as int, i as int);
            lemma_digits_acc_push(0, s, msg@[i as int]);
            assert(s.push(msg@[i as int]) =~= msg@.subrange(z as int, i + 1 as int));
            assert(pow10((i - z) as nat) * 10 == pow10((i + 1 - z) as nat));
            assert(v * 10 + 9 < pow10((i - z) as nat) * 10) by (nonlinear_arith)
                requires
                    v < pow10((i - z) as nat),
            ;
            lemma_pow10_increases((i + 1 - z) as nat, 21);
            lemma_pow10_values();
        }
        let d = (msg[i] as u32 - 48) as u128;
        v = v * 10 + d;
        i = i + 1;
    }
    proof {
        lemma_pow10_values();
        lemma_pow10_increases((to - z) as nat, 21);
    }
    v
}

/// The concrete powers of ten the parser's bounds rest on.
proof fn lemma_pow10_values()
    ensures
        pow10(20) == 100000000000000000000,
        pow10(21) == 1000000000000000000000,
{
    reveal_with_fuel(pow10, 22);
}

/// Ten to the power grows with the exponent.
proof fn lemma_pow10_increases(a: nat, b: nat)
    requires
        a <= b,
    ensures
        pow10(a) <= pow10(b),
    decreases b,
{
    if a < b {
        lemma_pow10_increases(a, (b - 1) as nat);
        assert(pow10((b - 1) as nat) <= 10 * pow10((b - 1) as nat)) by (nonlinear_arith)
            requires
                pow10((b - 1) as nat) >= 0,
        ;
    }
}

/// Tries the grammar at one position, returning the delay clamped to
/// `u64::MAX`.
#[verifier::loop_isolation(false)]
fn match_at(msg: &Vec<char>, p: usize) -> (r: Option<u64>)
    requires
        p < msg@.len(),
    ensures
        r is Some <==> spec_match_at(msg@, p as int) is Some,
        r matches Some(ms) ==> {
            let n = spec_match_at(msg@, p as int)->Some_0;
            if n > u64::MAX {
                ms == u64::MAX
            } else {
                ms == n
            }
        },
{
    let pat = str_chars("try again in");
    proof {
        reveal_strlit("try again in");
    }
    if pat.len() > msg.len() - p {
        return None;
    }
    let mut j: usize = 0;
    while j < pat.len()
        invariant
            j <= pat@.len(),
            forall|k: int| 0 <= k < j ==> spec_eq_ci(msg@[p + k], pat@[k]),
        decreases pat@.len() - j,
    {
        if !eq_ci_char(msg[p + j], pat[j]) {
            return None;
        }
        j = j + 1;
    }
    let w = ws_end(msg, p + pat.len());
    let d = digits_end(msg, w);
    if d == w {
        return None;
    }
    let whole = read_number_clamped(msg, w, d);
    let has_frac = d < msg.len() && msg[d] == '.' && d + 1 < msg.len() && is_digit_char(
        msg[d + 1],
    );
    let mut frac: u128 = 0;
    let mut numend = d;
    if has_frac {
        let fend = digits_end(msg, d + 1);
        numend = fend;
        proof {
            assert(fend > d + 1);
        }
        let f0 = (msg[d + 1] as u32 - 48) as u128 * 100;
        let f1 = if d + 2 < fend {
            (msg[d + 2] as u32 - 48) as u128 * 10
        } else {
            0
        };
        let f2 = if fend - (d + 2) > 1 {
            (msg[d + 2 + 1] as u32 - 48) as u128
        } else {
            0
        };
        frac = f0 + f1 + f2;
        proof {
            let fd = msg@.subrange(d + 1 as int, fend as int);
            assert(fd[0] == msg@[d + 1 as int]);
            assert(fd.len() > 1 ==> fd[1] == msg@[d + 2 as int]);
            assert(fd.len() > 2 ==> fd[2] == msg@[d + 3 as int]);
            assert(frac == spec_frac_millis(fd));
        }
    }
    let u = ws_end(msg, numend);
    let ghost n = spec_match_at(msg@, p as int);
    if u < msg.len() && eq_ci_char(msg[u], 's') {
        proof {
            lemma_pow10_values();
            assert(whole * 1000 <= pow10(21) * 1000) by (nonlinear_arith)
                requires
                    whole <= pow10(21),
            ;
            let true_whole = spec_digits_nat(msg@.subrange(w as int, d as int));
            if true_whole > u64::MAX as nat {
                assert(whole > u64::MAX);
            } else {
                assert(whole == true_whole);
            }
        }
        let millis = whole * 1000 + frac;
        if millis > u64::MAX as u128 {
            Some(u64::MAX)
        } else {
            Some(millis as u64)
        }
    } else if msg.len() - u > 1 && eq_ci_char(msg[u], 'm') && eq_ci_char(msg[u + 1], 's') {
        proof {
            let true_whole = spec_digits_nat(msg@.subrange(w as int, d as int));
            if true_whole > u64::MAX as nat {
                assert(whole > u64::MAX);
            } else {
                assert(whole == true_whole);
            }
        }
        if whole > u64::MAX as u128 {
            Some(u64::MAX)
        } else {
            Some(whole as u64)
        }
    } else {
        None
    }
}

/// Finds the leftmost match of the retry-after grammar and returns the
/// delay in milliseconds, saturated at `u64::MAX`.
#[verifier::loop_isolation(false)]
pub fn parse_retry_after_millis(message: &str) -> (r: Option<u64>)
    ensures
        r == spec_retry_after_millis(message@),
{
    let chars = str_chars(message);
    let mut p: usize = 0;
    while p < chars.len()
        invariant
            p <= chars@.len(),
            spec_first_match(chars@, 0) == spec_first_match(chars@, p as int),
        decreases chars@.len() - p,
    {
        let m = match_at(&chars, p);
        if m.is_some() {
            return m;
        }
        p = p + 1;
    }
    None
}

} // verus!
