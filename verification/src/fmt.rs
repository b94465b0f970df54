//! Pure display formatting: decimal rendering, digit grouping, duration
//! fields, percentages and fixed-point decimals.

use vstd::prelude::*;
use vstd::string::StringExecFns;

verus! {

/// The decimal digit character for a value below ten.
pub open spec fn digit_char(d: nat) -> char {
    if d == 0 {
        '0'
    } else if d == 1 {
        '1'
    } else if d == 2 {
        '2'
    } else if d == 3 {
        '3'
    } else if d == 4 {
        '4'
    } else if d == 5 {
        '5'
    } else if d == 6 {
        '6'
    } else if d == 7 {
        '7'
    } else if d == 8 {
        '8'
    } else {
        '9'
    }
}

/// The decimal digit string of `n`, most significant digit first,
/// with no leading zeros (zero itself renders as "0").
pub open spec fn spec_decimal(n: nat) -> Seq<char>
    decreases n,
{
    if n < 10 {
        seq![digit_char(n)]
    } else {
        spec_decimal(n / 10).push(digit_char(n % 10))
    }
}

fn digit_str(d: u64) -> (r: &'static str)
    requires
        d < 10,
    ensures
        r@ == seq![digit_char(d as nat)],
{
    proof {
        reveal_strlit("0");
        reveal_strlit("1");
        reveal_strlit("2");
        reveal_strlit("3");
        reveal_strlit("4");
        reveal_strlit("5");
        reveal_strlit("6");
        reveal_strlit("7");
        reveal_strlit("8");
        reveal_strlit("9");
    }
    if d == 0 {
        "0"
    } else if d == 1 {
        "1"
    } else if d == 2 {
        "2"
    } else if d == 3 {
        "3"
    } else if d == 4 {
        "4"
    } else if d == 5 {
        "5"
    } else if d == 6 {
        "6"
    } else if d == 7 {
        "7"
    } else if d == 8 {
        "8"
    } else {
        "9"
    }
}

/// Renders `n` in decimal, most significant digit first.
pub fn u64_to_string(n: u64) -> (r: String)
    ensures
        r@ == spec_decimal(n as nat),
    decreases n,
{
    if n < 10 {
        let s = digit_str(n).to_owned();
        s
    } else {
        let mut s = u64_to_string(n / 10);
        s.append(digit_str(n % 10));
        proof {
            assert(spec_decimal((n / 10) as nat).push(digit_char((n % 10) as nat)) =~= spec_decimal(
                (n / 10) as nat,
            ) + seq![digit_char((n % 10) as nat)]);
        }
        s
    }
}

/// The three digit characters of a value below one thousand, zero-padded.
pub open spec fn spec_pad3(m: nat) -> Seq<char> {
    seq![digit_char(m / 100), digit_char((m / 10) % 10), digit_char(m % 10)]
}

/// The decimal rendering of `n` with a comma before each group of three
/// digits counted from the right.
pub open spec fn spec_grouped(n: nat) -> Seq<char>
    decreases n,
{
    if n < 1000 {
        spec_decimal(n)
    } else {
        spec_grouped(n / 1000) + seq![','] + spec_pad3(n % 1000)
    }
}

/// Grouping stated over the digit string itself: a comma before each group
/// of three characters counted from the right end.
pub open spec fn spec_grouped_digits(ds: Seq<char>) -> Seq<char>
    decreases ds.len(),
{
    if ds.len() <= 3 {
        ds
    } else {
        spec_grouped_digits(ds.take(ds.len() - 3)) + seq![','] + ds.skip(ds.len() - 3)
    }
}

/// How long the decimal rendering is, for small and large values.
proof fn lemma_decimal_len(n: nat)
    ensures
        spec_decimal(n).len() >= 1,
        n < 10 ==> spec_decimal(n).len() == 1,
        n < 100 ==> spec_decimal(n).len() <= 2,
        n < 1000 ==> spec_decimal(n).len() <= 3,
        n >= 10 ==> spec_decimal(n).len() >= 2,
        n >= 100 ==> spec_decimal(n).len() >= 3,
        n >= 1000 ==> spec_decimal(n).len() >= 4,
    decreases n,
{
    if n >= 10 {
        lemma_decimal_len(n / 10);
    }
}

/// The arithmetic grouping used by `format_number` is exactly the textual
/// rule: the digit string of `n` with a comma before each group of three
/// digits counted from the right.
pub proof fn lemma_grouped_by_threes(n: nat)
    ensures
        spec_grouped(n) == spec_grouped_digits(spec_decimal(n)),
    decreases n,
{
    lemma_decimal_len(n);
    if n >= 1000 {
        lemma_grouped_by_threes(n / 1000);
        lemma_decimal_breakdown(n);
        lemma_decimal_len(n / 1000);
        let ds = spec_decimal(n);
        let head = spec_decimal(n / 1000);
        let tail = spec_pad3(n % 1000);
        assert(ds.len() == head.len() + 3);
        assert(ds.take(ds.len() - 3) =~= head);
        assert(ds.skip(ds.len() - 3) =~= tail);
        assert(spec_grouped(n) =~= spec_grouped_digits(ds));
    }
}

/// The characters of `s` that are not the grouping separator.
pub open spec fn spec_strip_commas(s: Seq<char>) -> Seq<char> {
    s.filter(|c: char| c != ',')
}

/// Every character of the plain decimal rendering is a digit.
proof fn lemma_decimal_digits(n: nat)
    ensures
        forall|i: int|
            0 <= i < spec_decimal(n).len() ==> exists|d: nat|
                d < 10 && #[trigger] spec_decimal(n)[i] == digit_char(d),
    decreases n,
{
    if n < 10 {
        assert(spec_decimal(n)[0] == digit_char(n));
    } else {
        lemma_decimal_digits(n / 10);
        assert forall|i: int| 0 <= i < spec_decimal(n).len() implies exists|d: nat|
            d < 10 && #[trigger] spec_decimal(n)[i] == digit_char(d) by {
            if i < spec_decimal(n / 10).len() {
                assert(spec_decimal(n)[i] == spec_decimal(n / 10)[i]);
            } else {
                assert(spec_decimal(n)[i] == digit_char(n % 10));
            }
        }
    }
}

/// A digit character is never the separator.
proof fn lemma_digit_char_not_comma(d: nat)
    ensures
        digit_char(d) != ',',
{
}

/// Stripping the separator from a plain decimal rendering changes nothing.
proof fn lemma_strip_decimal(n: nat)
    ensures
        spec_strip_commas(spec_decimal(n)) == spec_decimal(n),
{
    lemma_decimal_digits(n);
    let s = spec_decimal(n);
    let pred = |c: char| c != ',';
    assert forall|i: int| 0 <= i < s.len() implies pred(s[i]) by {
        let d = choose|d: nat| d < 10 && s[i] == digit_char(d);
        lemma_digit_char_not_comma(d);
    }
    lemma_filter_all(s, pred);
}

/// Filtering with a predicate that every element meets is the identity.
proof fn lemma_filter_all<A>(s: Seq<A>, pred: spec_fn(A) -> bool)
    requires
        forall|i: int| 0 <= i < s.len() ==> pred(#[trigger] s[i]),
    ensures
        s.filter(pred) == s,
    decreases s.len(),
{
    reveal(Seq::filter);
    if s.len() != 0 {
        lemma_filter_all(s.drop_last(), pred);
        assert(s.filter(pred) =~= s);
    } else {
        assert(s.filter(pred) =~= s);
    }
}

/// For `n >= 1000` the decimal rendering splits into the rendering of
/// `n / 1000` followed by the three padded digits of `n % 1000`.
pub proof fn lemma_decimal_breakdown(n: nat)
    requires
        n >= 1000,
    ensures
        spec_decimal(n) == spec_decimal(n / 1000) + spec_pad3(n % 1000),
{
    let q: int = (n as int) / 1000;
    let r: int = (n as int) % 1000;
    vstd::arithmetic::div_mod::lemma_fundamental_div_mod(n as int, 1000);
    vstd::arithmetic::div_mod::lemma_mod_bound(n as int, 1000);
    vstd::arithmetic::div_mod::lemma_fundamental_div_mod(r, 100);
    vstd::arithmetic::div_mod::lemma_mod_bound(r, 100);
    vstd::arithmetic::div_mod::lemma_fundamental_div_mod(r % 100, 10);
    vstd::arithmetic::div_mod::lemma_mod_bound(r % 100, 10);
    // n = 100 * (10q + r/100) + r % 100, so division by 100 takes off q and
    // the top padded digit remains.
    assert(n == 100 * (10 * q + r / 100) + (r % 100)) by (nonlinear_arith)
        requires
            n == 1000 * q + r && r == 100 * (r / 100) + (r % 100),
    ;
    vstd::arithmetic::div_mod::lemma_fundamental_div_mod_converse(
        n as int,
        100,
        10 * q + r / 100,
        r % 100,
    );
    assert((n as int) / 100 == 10 * q + r / 100);
    assert(n == 10 * (100 * q + r / 10) + (r % 10)) by (nonlinear_arith)
        requires
            n == 1000 * q + r && r == 10 * (r / 10) + (r % 10),
    ;
    vstd::arithmetic::div_mod::lemma_fundamental_div_mod(r, 10);
    vstd::arithmetic::div_mod::lemma_mod_bound(r, 10);
    vstd::arithmetic::div_mod::lemma_fundamental_div_mod_converse(
        n as int,
        10,
        100 * q + r / 10,
        r % 10,
    );
    assert((n as int) / 10 == 100 * q + r / 10);
    assert((n as int) % 10 == r % 10);
    // The middle digit: (n/10) % 10 == (r/10) % 10.
    vstd::arithmetic::div_mod::lemma_fundamental_div_mod(r / 10, 10);
    vstd::arithmetic::div_mod::lemma_mod_bound(r / 10, 10);
    vstd::arithmetic::div_mod::lemma_fundamental_div_mod_converse(
        100 * q + r / 10,
        10,
        10 * q + (r / 10) / 10,
        (r / 10) % 10,
    );
    // The top digit: (n/100) % 10 == r / 100, since r / 100 < 10.
    vstd::arithmetic::div_mod::lemma_fundamental_div_mod_converse(
        10 * q + r / 100,
        10,
        q,
        r / 100,
    );
    // The quotient: (n/100) / 10 == q... obtained by dividing out 10 once more.
    vstd::arithmetic::div_mod::lemma_fundamental_div_mod_converse(
        (100 * q + r / 10),
        10,
        10 * q + (r / 10) / 10,
        (r / 10) % 10,
    );
    // Unfold spec_decimal three times.
    assert((n as int) / 10 >= 100);
    assert((n as int) / 100 >= 10);
    assert(((n as int) / 10) / 10 == (n as int) / 100) by {
        vstd::arithmetic::div_mod::lemma_fundamental_div_mod((n as int) / 10, 10);
        vstd::arithmetic::div_mod::lemma_mod_bound((n as int) / 10, 10);
        assert(n as int == 100 * (((n as int) / 10) / 10) + (10 * (((n as int) / 10) % 10) + (
        n as int) % 10)) by (nonlinear_arith)
            requires
                n as int == 10 * ((n as int) / 10) + (n as int) % 10,
                (n as int) / 10 == 10 * (((n as int) / 10) / 10) + ((n as int) / 10) % 10,
        ;
        vstd::arithmetic::div_mod::lemma_fundamental_div_mod_converse(
            n as int,
            100,
            ((n as int) / 10) / 10,
            10 * (((n as int) / 10) % 10) + (n as int) % 10,
        );
    }
    assert(((n as int) / 100) / 10 == q) by {
        vstd::arithmetic::div_mod::lemma_fundamental_div_mod_converse(
            (n as int) / 100,
            10,
            q,
            r / 100,
        );
    }
    assert(spec_decimal(n) == spec_decimal((n / 10) as nat).push(digit_char((n % 10) as nat)));
    assert(spec_decimal((n / 10) as nat) == spec_decimal((n / 100) as nat).push(
        digit_char(((n / 10) % 10) as nat),
    ));
    assert(spec_decimal((n / 100) as nat) == spec_decimal((n / 1000) as nat).push(
        digit_char(((n / 100) % 10) as nat),
    ));
    assert(((n / 100) % 10) as nat == (r / 100) as nat);
    assert(((n / 10) % 10) as nat == ((r / 10) % 10) as nat);
    assert((n % 10) as nat == (r % 10) as nat);
    assert(((r % 100) / 10) as nat == ((r / 10) % 10) as nat) by {
        vstd::arithmetic::div_mod::lemma_fundamental_div_mod_converse(
            r,
            10,
            10 * ((r / 10) / 10) + (r / 10) % 10,
            r % 10,
        );
        assert(r == 10 * (10 * ((r / 10) / 10) + (r / 10) % 10) + r % 10) by (nonlinear_arith)
            requires
                r == 10 * (r / 10) + r % 10,
                r / 10 == 10 * ((r / 10) / 10) + (r / 10) % 10,
        ;
        assert(r == 100 * ((r / 10) / 10) + (10 * ((r / 10) % 10) + r % 10)) by (nonlinear_arith)
            requires
                r == 10 * (r / 10) + r % 10,
                r / 10 == 10 * ((r / 10) / 10) + (r / 10) % 10,
        ;
        vstd::arithmetic::div_mod::lemma_fundamental_div_mod_converse(
            r,
            100,
            (r / 10) / 10,
            10 * ((r / 10) % 10) + r % 10,
        );
        vstd::arithmetic::div_mod::lemma_fundamental_div_mod_converse(
            r % 100,
            10,
            (r / 10) % 10,
            r % 10,
        );
        assert(r % 100 == 10 * ((r / 10) % 10) + r % 10) by (nonlinear_arith)
            requires
                r == 100 * ((r / 10) / 10) + (r % 100),
                r == 100 * ((r / 10) / 10) + (10 * ((r / 10) % 10) + r % 10),
        ;
    }
    assert(((n % 1000) / 100) as nat == (r / 100) as nat);
    assert((((n % 1000) / 10) % 10) as nat == ((r / 10) % 10) as nat) by {
        assert(((r / 10) % 10) as nat == ((r % 100) / 10) as nat);
        assert((r % 100) as nat == ((n % 1000) % 100) as nat);
        assert(((n % 1000) % 100) / 10 == ((n % 1000) / 10) % 10) by {
            vstd::arithmetic::div_mod::lemma_fundamental_div_mod(r, 10);
            vstd::arithmetic::div_mod::lemma_fundamental_div_mod(r / 10, 10);
        }
    }
    assert((n % 1000) % 10 == r % 10);
    assert(spec_decimal(n) =~= spec_decimal(n / 1000) + spec_pad3(n % 1000));
}

/// Stripping the grouping separators from the grouped rendering yields the
/// plain decimal rendering: re-rendering that digit content reproduces the
/// grouped form unchanged.
pub proof fn lemma_grouped_strip(n: nat)
    ensures
        spec_strip_commas(spec_grouped(n)) == spec_decimal(n),
    decreases n,
{
    let pred = |c: char| c != ',';
    if n < 1000 {
        lemma_strip_decimal(n);
    } else {
        lemma_grouped_strip(n / 1000);
        lemma_decimal_breakdown(n);
        let a = spec_grouped(n / 1000);
        let b = seq![','] + spec_pad3(n % 1000);
        Seq::filter_distributes_over_add(a, b, pred);
        Seq::filter_distributes_over_add(seq![','], spec_pad3(n % 1000), pred);
        assert(seq![','].filter(pred) =~= Seq::<char>::empty()) by {
            reveal_with_fuel(Seq::filter, 2);
            assert(seq![','].last() == ',');
            assert(seq![','].drop_last() =~= Seq::<char>::empty());
            assert(Seq::<char>::empty().filter(pred) =~= Seq::<char>::empty());
        }
        let p = spec_pad3(n % 1000);
        assert forall|i: int| 0 <= i < p.len() implies pred(p[i]) by {
            lemma_digit_char_not_comma((n % 1000) / 100);
            lemma_digit_char_not_comma(((n % 1000) / 10) % 10);
            lemma_digit_char_not_comma(n % 1000 % 10);
        }
        lemma_filter_all(p, pred);
        assert(spec_strip_commas(spec_grouped(n)) =~= spec_decimal(n));
    }
}

fn pad3(m: u64) -> (r: String)
    requires
        m < 1000,
    ensures
        r@ == spec_pad3(m as nat),
{
    let mut out = digit_str(m / 100).to_owned();
    out.append(digit_str((m / 10) % 10));
    out.append(digit_str(m % 10));
    proof {
        assert(out@ =~= spec_pad3(m as nat));
    }
    out
}

/// Renders `n` in decimal with a comma between each group of three digits,
/// counted from the right; values below one thousand render plain.
pub fn format_number(n: u64) -> (r: String)
    ensures
        r@ == spec_grouped(n as nat),
    decreases n,
{
    if n < 1000 {
        u64_to_string(n)
    } else {
        proof {
            reveal_strlit(",");
        }
        let mut out = format_number(n / 1000);
        out.append(",");
        out.append(pad3(n % 1000).as_str());
        proof {
            assert(out@ =~= spec_grouped(n as nat));
        }
        out
    }
}

/// The whole-percent rendering of a unit-scaled value held in
/// ten-thousandths: the value times one hundred, truncated toward zero
/// (negative values saturate at zero), with a trailing percent sign.
pub open spec fn spec_percent(v: int) -> Seq<char> {
    let p = if v <= 0 {
        0nat
    } else {
        (v / 100) as nat
    };
    spec_decimal(p) + seq!['%']
}

/// Renders a value held in ten-thousandths of a unit as a whole percentage,
/// truncated, with a trailing percent sign.
pub fn format_percent(v: i32) -> (r: String)
    ensures
        r@ == spec_percent(v as int),
{
    proof {
        reveal_strlit("%");
    }
    let p: u64 = if v <= 0 {
        0
    } else {
        (v as u64) / 100
    };
    let mut out = u64_to_string(p);
    out.append("%");
    proof {
        assert(out@ =~= spec_percent(v as int));
    }
    out
}

/// The digits of a non-negative hundredths count rendered with two digits
/// after the decimal point.
pub open spec fn spec_fixed2_mag(h: nat) -> Seq<char> {
    spec_decimal(h / 100) + seq!['.', digit_char((h / 10) % 10), digit_char(h % 10)]
}

/// The two-decimal rendering of a value held in ten-thousandths of a unit:
/// rounded half away from zero to hundredths, sign first for negative input.
pub open spec fn spec_fixed2(v: int) -> Seq<char> {
    if v >= 0 {
        spec_fixed2_mag(((v + 50) / 100) as nat)
    } else {
        seq!['-'] + spec_fixed2_mag((((-1 * v) + 50) / 100) as nat)
    }
}

/// Renders a value held in ten-thousandths of a unit with two digits after
/// the decimal point, standard rounding.
pub fn format_fixed2(v: i32) -> (r: String)
    ensures
        r@ == spec_fixed2(v as int),
{
    proof {
        reveal_strlit("-");
        reveal_strlit(".");
    }
    let w: i64 = v as i64;
    let mut out = String::new();
    let mag: u64;
    if w >= 0 {
        mag = ((w + 50) / 100) as u64;
    } else {
        out.append("-");
        mag = ((-w + 50) / 100) as u64;
    }
    out.append(u64_to_string(mag / 100).as_str());
    out.append(".");
    out.append(digit_str((mag / 10) % 10));
    out.append(digit_str(mag % 10));
    proof {
        assert(out@ =~= spec_fixed2(v as int));
    }
    out
}

/// The rendering of a non-negative duration of `s` seconds: hour, minute
/// and second fields, the hour field shown only when non-zero, the minute
/// field shown when the hour or the minute field is non-zero.
pub open spec fn spec_duration(s: nat) -> Seq<char> {
    let h = s / 3600;
    let m = (s % 3600) / 60;
    let sec = s % 60;
    if h > 0 {
        spec_decimal(h) + seq!['h', ' '] + spec_decimal(m) + seq!['m', ' '] + spec_decimal(sec)
            + seq!['s']
    } else if m > 0 {
        spec_decimal(m) + seq!['m', ' '] + spec_decimal(sec) + seq!['s']
    } else {
        spec_decimal(sec) + seq!['s']
    }
}

/// The three fields of `spec_duration` are the standard decomposition of the
/// second count: `s == h * 3600 + m * 60 + sec` with `m` and `sec` below 60.
pub proof fn lemma_duration_fields(s: nat)
    ensures
        (s / 3600) * 3600 + ((s % 3600) / 60) * 60 + s % 60 == s,
        (s % 3600) / 60 < 60,
        s % 60 < 60,
{
    let h: int = (s as int) / 3600;
    let r1: int = (s as int) % 3600;
    let m: int = r1 / 60;
    let sec: int = (s as int) % 60;
    vstd::arithmetic::div_mod::lemma_fundamental_div_mod(s as int, 3600);
    vstd::arithmetic::div_mod::lemma_mod_bound(s as int, 3600);
    vstd::arithmetic::div_mod::lemma_fundamental_div_mod(r1, 60);
    vstd::arithmetic::div_mod::lemma_mod_bound(r1, 60);
    vstd::arithmetic::div_mod::lemma_mod_bound(s as int, 60);
    assert(s == 60 * (60 * h) + r1) by (nonlinear_arith)
        requires
            s == 3600 * h + r1,
    ;
    vstd::arithmetic::div_mod::lemma_mod_multiples_vanish(60 * h, r1, 60);
    assert(sec == r1 % 60);
    assert(m < 60) by (nonlinear_arith)
        requires
            r1 < 3600 && m == r1 / 60,
    ;
    assert(h * 3600 + m * 60 + sec == s) by (nonlinear_arith)
        requires
            s == 3600 * h + r1 && r1 == 60 * m + sec,
    ;
}

/// Formats a second count as `"{h}h {m}m {s}s"`, omitting the hour field
/// when it is zero and the minute field when both are zero.
pub fn format_duration(seconds: u64) -> (r: String)
    ensures
        r@ == spec_duration(seconds as nat),
{
    proof {
        reveal_strlit("h ");
        reveal_strlit("m ");
        reveal_strlit("s");
    }
    let h = seconds / 3600;
    let m = (seconds % 3600) / 60;
    let s = seconds % 60;
    if h > 0 {
        let mut out = u64_to_string(h);
        out.append("h ");
        out.append(u64_to_string(m).as_str());
        out.append("m ");
        out.append(u64_to_string(s).as_str());
        out.append("s");
        proof {
            assert(out@ =~= spec_duration(seconds as nat));
        }
        out
    } else if m > 0 {
        let mut out = u64_to_string(m);
        out.append("m ");
        out.append(u64_to_string(s).as_str());
        out.append("s");
        proof {
            assert(out@ =~= spec_duration(seconds as nat));
        }
        out
    } else {
        let mut out = u64_to_string(s);
        out.append("s");
        proof {
            assert(out@ =~= spec_duration(seconds as nat));
        }
        out
    }
}

} // verus!
