use vstd::prelude::*;
use vstd::string::*;

verus! {

/// The decimal digit character for `d` (0..=9).
pub open spec fn digit_char(d: nat) -> char {
    if d == 0 { '0' }
    else if d == 1 { '1' }
    else if d == 2 { '2' }
    else if d == 3 { '3' }
    else if d == 4 { '4' }
    else if d == 5 { '5' }
    else if d == 6 { '6' }
    else if d == 7 { '7' }
    else if d == 8 { '8' }
    else { '9' }
}

/// Decimal notation of a natural number, without leading zeros.
pub open spec fn decimal(n: nat) -> Seq<char>
    decreases n,
{
    if n < 10 {
        seq![digit_char(n)]
    } else {
        decimal(n / 10) + seq![digit_char(n % 10)]
    }
}

/// Decimal notation of an integer, with a leading '-' when negative
/// (what `{}` prints for an integer).
pub open spec fn signed_decimal(n: int) -> Seq<char> {
    if n < 0 {
        seq!['-'] + decimal((-n) as nat)
    } else {
        decimal(n as nat)
    }
}

/// Whether `t` occurs in `s` starting at position `i`.
pub open spec fn occurs_at(s: Seq<char>, t: Seq<char>, i: int) -> bool {
    0 <= i && i + t.len() <= s.len() && s.subrange(i, i + t.len()) == t
}

/// Whether `t` occurs somewhere in `s`.
pub open spec fn contains_text(s: Seq<char>, t: Seq<char>) -> bool {
    exists|i: int| #[trigger] occurs_at(s, t, i)
}

/// A line of at least 16 characters that starts with `#` and holds no
/// other `#`, as every `#define` line does.
pub open spec fn hash_line(x: Seq<char>) -> bool {
    &&& x.len() > 15
    &&& x[0] == '#'
    &&& forall|m: int| 0 < m < x.len() ==> #[trigger] x[m] != '#'
}

/// Text placed between two pieces is found in the whole.
pub proof fn lemma_found(a: Seq<char>, t: Seq<char>, b: Seq<char>)
    ensures
        contains_text(a + t + b, t),
{
    assert((a + t + b).subrange(a.len() as int, (a.len() + t.len()) as int) =~= t);
    assert(occurs_at(a + t + b, t, a.len() as int));
}

/// A pattern starting with `#` that differs from the segment `seg` at
/// position `j` can only occur in `seg + rest` inside `rest`, when `seg`
/// holds no `#` but its first character.
pub proof fn lemma_skip_segment(seg: Seq<char>, rest: Seq<char>, pat: Seq<char>, j: int)
    requires
        seg.len() > 0,
        seg[0] == '#',
        forall|m: int| 0 < m < seg.len() ==> #[trigger] seg[m] != '#',
        0 <= j < seg.len(),
        j < pat.len(),
        seg[j] != pat[j],
        pat[0] == '#',
    ensures
        contains_text(seg + rest, pat) ==> contains_text(rest, pat),
{
    let t = seg + rest;
    if contains_text(t, pat) {
        let i = choose|i: int| #[trigger] occurs_at(t, pat, i);
        assert(occurs_at(t, pat, i));
        if i < seg.len() {
            assert(t.subrange(i, i + pat.len())[0] == t[i]);
            assert(t[i] == '#');
            assert(i == 0);
            assert(t.subrange(0, pat.len() as int)[j] == t[j]);
            assert(false);
        } else {
            let k = i - seg.len();
            assert(rest.subrange(k, k + pat.len()) =~= t.subrange(i, i + pat.len()));
            assert(occurs_at(rest, pat, k));
        }
    }
}

/// A `#define` line that is absent, or differs from the pattern at
/// position 15, does not let the pattern occur where it stands.
pub proof fn lemma_skip_line(x: Seq<char>, rest: Seq<char>, pat: Seq<char>)
    requires
        x.len() == 0 || (hash_line(x) && x[15] != pat[15]),
        pat.len() > 15,
        pat[0] == '#',
    ensures
        contains_text(x + rest, pat) ==> contains_text(rest, pat),
{
    if x.len() == 0 {
        assert(x + rest =~= rest);
    } else {
        lemma_skip_segment(x, rest, pat, 15);
    }
}

/// Decimal notation holds only digits.
pub proof fn lemma_decimal_digits(n: nat)
    ensures
        decimal(n).len() > 0,
        forall|m: int| 0 <= m < decimal(n).len() ==> '0' <= #[trigger] decimal(n)[m] <= '9',
    decreases n,
{
    if n >= 10 {
        lemma_decimal_digits(n / 10);
        assert forall|m: int| 0 <= m < decimal(n).len() implies '0' <= #[trigger] decimal(n)[m] <= '9' by {
            if m < decimal(n / 10).len() {
                assert(decimal(n)[m] == decimal(n / 10)[m]);
            }
        }
    }
}

/// The number a string of decimal digits denotes, read by character
/// code (`'0'` is 0, ..., `'9'` is 9), most significant digit first.
pub open spec fn digits_value(s: Seq<char>) -> int
    decreases s.len(),
{
    if s.len() == 0 {
        0
    } else {
        10 * digits_value(s.drop_last()) + (s.last() as int - '0' as int)
    }
}

proof fn lemma_digit_code(d: nat)
    requires
        d < 10,
    ensures
        digit_char(d) as int - '0' as int == d,
{
}

/// Decimal notation reads back as the number written: it is a nonempty
/// string of digits, with no leading zero unless the number is zero,
/// whose value is the number. A negative number is written as `-`
/// followed by the notation of its magnitude, a non-negative one
/// without a sign.
pub proof fn law_decimal_reads_back(n: nat, k: int)
    ensures
        digits_value(decimal(n)) == n,
        decimal(n).len() > 0,
        forall|m: int| 0 <= m < decimal(n).len() ==> '0' <= #[trigger] decimal(n)[m] <= '9',
        decimal(n)[0] == '0' ==> n == 0,
        k < 0 ==> signed_decimal(k) == seq!['-'] + decimal((-k) as nat),
        k >= 0 ==> signed_decimal(k) == decimal(k as nat) && signed_decimal(k)[0] != '-',
    decreases n,
{
    lemma_decimal_digits(n);
    if n >= 10 {
        law_decimal_reads_back(n / 10, 0);
        let front = decimal(n / 10);
        assert(decimal(n).drop_last() =~= front);
        assert(decimal(n)[0] == front[0]);
        lemma_digit_code((n % 10) as nat);
        assert(decimal(n).last() == digit_char((n % 10) as nat));
        vstd::arithmetic::div_mod::lemma_fundamental_div_mod(n as int, 10);
        assert(digits_value(decimal(n)) == 10 * digits_value(front) + (n % 10));
    } else {
        lemma_digit_code(n);
        assert(decimal(n).drop_last() =~= Seq::<char>::empty());
        assert(digits_value(Seq::<char>::empty()) == 0);
        assert(digits_value(decimal(n)) == 10 * digits_value(decimal(n).drop_last())
            + (decimal(n).last() as int - '0' as int));
    }
    if k >= 0 {
        lemma_decimal_digits(k as nat);
    }
}

fn digit_string(d: u64) -> (s: String)
    requires
        d < 10,
    ensures
        s@ == seq![digit_char(d as nat)],
{
    let lit = if d == 0 { "0" }
        else if d == 1 { "1" }
        else if d == 2 { "2" }
        else if d == 3 { "3" }
        else if d == 4 { "4" }
        else if d == 5 { "5" }
        else if d == 6 { "6" }
        else if d == 7 { "7" }
        else if d == 8 { "8" }
        else { "9" };
    proof {
        reveal_strlit("0");
        reveal_strlit("1");
        reveal_strlit("2");
        reveal_strlit("3");
        reveal_strlit("4");
        reveal_strlit("5");
        reveal_strlit("6");
        reveal_strlit("7");
        reveal_strlit("8");
        reveal_strlit("9");
    }
    let s = String::from_str(lit);
    assert(s@ =~= seq![digit_char(d as nat)]);
    s
}

/// Decimal notation of an unsigned number.
pub fn format_unsigned(n: u64) -> (s: String)
    ensures
        s@ == decimal(n as nat),
{
    let mut m = n;
    let mut res = String::new();
    while m >= 10
        invariant
            decimal(n as nat) == decimal(m as nat) + res@,
        decreases m,
    {
        let d = digit_string(m % 10);
        let ghost old_res = res@;
        res = d.concat(res.as_str());
        assert(decimal(m as nat) == decimal((m / 10) as nat) + seq![digit_char((m % 10) as nat)]);
        assert(decimal((m / 10) as nat) + res@ =~= decimal(m as nat) + old_res);
        m = m / 10;
    }
    let d = digit_string(m);
    let ghost old_res = res@;
    res = d.concat(res.as_str());
    assert(res@ =~= decimal(m as nat) + old_res);
    res
}

/// Decimal notation of a signed number, as `{}` prints it.
pub fn format_signed(n: i32) -> (s: String)
    ensures
        s@ == signed_decimal(n as int),
{
    if n < 0 {
        let magnitude: u64 = (-(n as i64)) as u64;
        let digits = format_unsigned(magnitude);
        proof {
            reveal_strlit("-");
        }
        let s = String::from_str("-").concat(digits.as_str());
        assert(s@ =~= seq!['-'] + decimal((-n) as nat));
        s
    } else {
        format_unsigned(n as u64)
    }
}

/// The version line every shader of the renderer starts with.
pub open spec fn version_pragma() -> Seq<char> {
    "#version 410 core\n"@
}

/// Whether a shader source starts with the version line.
pub open spec fn has_version_prefix(src: Seq<char>) -> bool {
    src.len() >= version_pragma().len() && src.subrange(0, version_pragma().len() as int)
        == version_pragma()
}

/// The source with `defines` and then `common` and a line break
/// inserted right after the version line, or at the very start when
/// there is no version line (a GLSL version line must come first).
pub open spec fn composed_source(src: Seq<char>, defines: Seq<char>, common: Seq<char>) -> Seq<char> {
    if has_version_prefix(src) {
        version_pragma() + defines + common + seq!['\n'] + src.subrange(
            version_pragma().len() as int,
            src.len() as int,
        )
    } else {
        defines + common + seq!['\n'] + src
    }
}

/// Whether `src` starts with the version line.
fn starts_with_version(src: &str) -> (b: bool)
    ensures
        b == has_version_prefix(src@),
{
    let version = "#version 410 core\n";
    proof {
        reveal_strlit("#version 410 core\n");
    }
    let vlen = version.unicode_len();
    let slen = src.unicode_len();
    if slen >= vlen {
        let head = String::from_str(src.substring_char(0, vlen));
        head == String::from_str(version)
    } else {
        false
    }
}

/// Inserts `defines` and the shared `common` code into a shader source
/// after its version line.
pub fn compose_shader_source(src: &str, defines: &str, common: &str) -> (out: String)
    ensures
        out@ == composed_source(src@, defines@, common@),
{
    let version = "#version 410 core\n";
    proof {
        reveal_strlit("#version 410 core\n");
        reveal_strlit("\n");
    }
    let vlen = version.unicode_len();
    let slen = src.unicode_len();
    if starts_with_version(src) {
        let rest = src.substring_char(vlen, slen);
        let out = String::from_str(version).concat(defines).concat(common).concat("\n").concat(rest);
        assert(out@ =~= composed_source(src@, defines@, common@));
        out
    } else {
        let out = String::from_str(defines).concat(common).concat("\n").concat(src);
        assert(out@ =~= composed_source(src@, defines@, common@));
        out
    }
}

/// The `#define DEBUG_MODE` line of a debug variant.
pub open spec fn debug_mode_line(mode: int) -> Seq<char> {
    "#define DEBUG_MODE "@ + signed_decimal(mode) + "\n"@
}

/// The source with the debug-mode line right after the version line,
/// or at the very start when there is no version line.
pub open spec fn with_debug_mode(src: Seq<char>, mode: int) -> Seq<char> {
    if has_version_prefix(src) {
        version_pragma() + debug_mode_line(mode) + src.subrange(
            version_pragma().len() as int,
            src.len() as int,
        )
    } else {
        debug_mode_line(mode) + src
    }
}

/// Inserts `#define DEBUG_MODE mode` into a fragment source after its
/// version line, for the fixed debug variants of the post-process pass.
pub fn debug_variant_source(src: &str, mode: i32) -> (out: String)
    ensures
        out@ == with_debug_mode(src@, mode as int),
{
    let version = "#version 410 core\n";
    proof {
        reveal_strlit("#version 410 core\n");
        reveal_strlit("#define DEBUG_MODE ");
        reveal_strlit("\n");
    }
    let digits = format_signed(mode);
    let line = String::from_str("#define DEBUG_MODE ").concat(digits.as_str()).concat("\n");
    assert(line@ =~= debug_mode_line(mode as int));
    if starts_with_version(src) {
        let vlen = version.unicode_len();
        let slen = src.unicode_len();
        let rest = src.substring_char(vlen, slen);
        let out = String::from_str(version).concat(line.as_str()).concat(rest);
        assert(out@ =~= with_debug_mode(src@, mode as int));
        out
    } else {
        let out = line.concat(src);
        assert(out@ =~= with_debug_mode(src@, mode as int));
        out
    }
}

/// A debug variant's source is the original with exactly one line
/// added: `#define DEBUG_MODE m` for its mode `m`, right after the
/// version line when the source has one (which stays first), else
/// first. Nothing of the original is lost or changed.
pub proof fn law_debug_variant_adds_one_line(src: Seq<char>, mode: int)
    ensures
        debug_mode_line(mode) == "#define DEBUG_MODE "@ + signed_decimal(mode) + "\n"@,
        with_debug_mode(src, mode).len() == src.len() + debug_mode_line(mode).len(),
        has_version_prefix(src) ==> {
            let out = with_debug_mode(src, mode);
            let v = version_pragma().len() as int;
            let l = debug_mode_line(mode).len() as int;
            &&& out.subrange(0, v) == version_pragma()
            &&& out.subrange(v, v + l) == debug_mode_line(mode)
            &&& out.subrange(v + l, out.len() as int) == src.subrange(v, src.len() as int)
        },
        !has_version_prefix(src) ==> {
            let out = with_debug_mode(src, mode);
            let l = debug_mode_line(mode).len() as int;
            &&& out.subrange(0, l) == debug_mode_line(mode)
            &&& out.subrange(l, out.len() as int) == src
        },
{
    let out = with_debug_mode(src, mode);
    let v = version_pragma().len() as int;
    let l = debug_mode_line(mode).len() as int;
    if has_version_prefix(src) {
        assert(out.subrange(0, v) =~= version_pragma());
        assert(out.subrange(v, v + l) =~= debug_mode_line(mode));
        assert(out.subrange(v + l, out.len() as int) =~= src.subrange(v, src.len() as int));
    } else {
        assert(out.subrange(0, l) =~= debug_mode_line(mode));
        assert(out.subrange(l, out.len() as int) =~= src);
    }
}

/// Inserts the shared `common` code into a shader source after its
/// version line.
pub fn inject_common(src: &str, common: &str) -> (out: String)
    ensures
        out@ == composed_source(src@, Seq::empty(), common@),
{
    proof {
        reveal_strlit("");
    }
    let out = compose_shader_source(src, "", common);
    assert(""@ =~= Seq::<char>::empty());
    out
}

/// Composing keeps the source intact: a source with a version line
/// still starts with it and ends with the rest of the original; a
/// source without one ends with the whole original; in both cases the
/// inserted text follows immediately, in the order defines, common code.
pub proof fn law_composition_preserves_source(src: Seq<char>, defines: Seq<char>, common: Seq<char>)
    ensures
        has_version_prefix(src) ==> {
            let out = composed_source(src, defines, common);
            let v = version_pragma().len() as int;
            let k = v + defines.len() + common.len() + 1;
            &&& out.subrange(0, v) == version_pragma()
            &&& out.subrange(v, v + defines.len()) == defines
            &&& out.subrange(v + defines.len(), v + defines.len() + common.len()) == common
            &&& out.subrange(k, out.len() as int) == src.subrange(v, src.len() as int)
            &&& out.len() == src.len() + defines.len() + common.len() + 1
        },
        !has_version_prefix(src) ==> {
            let out = composed_source(src, defines, common);
            let k = defines.len() + common.len() + 1;
            &&& out.subrange(0, defines.len() as int) == defines
            &&& out.subrange(k as int, out.len() as int) == src
            &&& out.len() == src.len() + k
        },
{
    let v = version_pragma().len() as int;
    let out = composed_source(src, defines, common);
    if has_version_prefix(src) {
        assert(out.subrange(0, v) =~= version_pragma());
        assert(out.subrange(v, v + defines.len()) =~= defines);
        assert(out.subrange(v + defines.len(), v + defines.len() + common.len()) =~= common);
        let k = v + defines.len() + common.len() + 1;
        assert(out.subrange(k, out.len() as int) =~= src.subrange(v, src.len() as int));
    } else {
        let k = defines.len() + common.len() + 1;
        assert(out.subrange(0, defines.len() as int) =~= defines);
        assert(out.subrange(k as int, out.len() as int) =~= src);
    }
}

} // verus!
