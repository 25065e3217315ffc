//! The size keywords of FITS header cards, read before a file is parsed.
//!
//! The parser sizes buffers by the axis counts `NAXIS` and `ZNAXIS`, and
//! adds the length of each data unit, a product of `NAXISn`, `BITPIX`,
//! `PCOUNT` and `GCOUNT`, to an offset without checking for overflow. A
//! negative or absurd axis count, a negative length, or sizes whose product
//! runs past an address make it allocate without bound or overflow. This
//! module reads those keywords as the parser reads them, states which files
//! keep them in range, and checks a file against that statement.
use vstd::prelude::*;
use vstd::slice::slice_subrange;

verus! {

/// The length of a header card.
pub const CARD_LEN: usize = 80;

/// The keyword `END`, padded to eight bytes.
pub open spec fn kw_end() -> Seq<u8> {
    seq![0x45u8, 0x4eu8, 0x44u8, 0x20u8, 0x20u8, 0x20u8, 0x20u8, 0x20u8]
}

/// The keyword `NAXIS`, padded to eight bytes.
pub open spec fn kw_naxis() -> Seq<u8> {
    seq![0x4eu8, 0x41u8, 0x58u8, 0x49u8, 0x53u8, 0x20u8, 0x20u8, 0x20u8]
}

/// The keyword `ZNAXIS`, padded to eight bytes.
pub open spec fn kw_znaxis() -> Seq<u8> {
    seq![0x5au8, 0x4eu8, 0x41u8, 0x58u8, 0x49u8, 0x53u8, 0x20u8, 0x20u8]
}

/// The keyword `BITPIX`, padded to eight bytes.
pub open spec fn kw_bitpix() -> Seq<u8> {
    seq![0x42u8, 0x49u8, 0x54u8, 0x50u8, 0x49u8, 0x58u8, 0x20u8, 0x20u8]
}

/// The keyword `PCOUNT`, padded to eight bytes.
pub open spec fn kw_pcount() -> Seq<u8> {
    seq![0x50u8, 0x43u8, 0x4fu8, 0x55u8, 0x4eu8, 0x54u8, 0x20u8, 0x20u8]
}

/// The keyword `GCOUNT`, padded to eight bytes.
pub open spec fn kw_gcount() -> Seq<u8> {
    seq![0x47u8, 0x43u8, 0x4fu8, 0x55u8, 0x4eu8, 0x54u8, 0x20u8, 0x20u8]
}

/// The keyword `GROUPS`, padded to eight bytes.
pub open spec fn kw_groups() -> Seq<u8> {
    seq![0x47u8, 0x52u8, 0x4fu8, 0x55u8, 0x50u8, 0x53u8, 0x20u8, 0x20u8]
}

/// Whether the first `n` bytes of card `c` are those of `kw`.
pub open spec fn starts_with(c: Seq<u8>, kw: Seq<u8>, n: int) -> bool {
    forall|j: int| 0 <= j < n ==> c[j] == kw[j]
}

/// Whether card `c` carries the eight-byte keyword `kw`.
pub open spec fn has_keyword(c: Seq<u8>, kw: Seq<u8>) -> bool {
    starts_with(c, kw, 8)
}

/// Whether byte `b` is an ASCII digit.
pub open spec fn is_digit(b: u8) -> bool {
    0x30 <= b <= 0x39
}

/// Whether card `c` carries the length of an axis: `NAXIS` followed by a
/// number from 1 to 999 written without leading zeros (`NAXIS1`, ...).
pub open spec fn is_axis_keyword(c: Seq<u8>) -> bool {
    &&& starts_with(c, kw_naxis(), 5)
    &&& 0x31 <= c[5] <= 0x39
    &&& ((c[6] == 0x20 && c[7] == 0x20) || (is_digit(c[6]) && (c[7] == 0x20 || is_digit(c[7]))))
}

/// Whether card `c` carries an axis count: `NAXIS` or `ZNAXIS`.
pub open spec fn is_count_keyword(c: Seq<u8>) -> bool {
    has_keyword(c, kw_naxis()) || has_keyword(c, kw_znaxis())
}

/// Whether card `c` carries `PCOUNT` or `GCOUNT`.
pub open spec fn is_group_keyword(c: Seq<u8>) -> bool {
    has_keyword(c, kw_pcount()) || has_keyword(c, kw_gcount())
}

/// Whether card `c` has a value indicator: `=` right after the keyword.
pub open spec fn is_valued(c: Seq<u8>) -> bool {
    c[8] == 0x3d
}

/// Whether three bytes encode, in UTF-8, one of the white space characters
/// above U+07FF: U+1680, U+2000 to U+200A, U+2028, U+2029, U+202F, U+205F
/// and U+3000.
pub open spec fn is_wide_space(a: u8, b: u8, c: u8) -> bool {
    ||| a == 0xe1 && b == 0x9a && c == 0x80
    ||| a == 0xe2 && b == 0x80 && ((0x80 <= c <= 0x8a) || c == 0xa8 || c == 0xa9 || c == 0xaf)
    ||| a == 0xe2 && b == 0x81 && c == 0x9f
    ||| a == 0xe3 && b == 0x80 && c == 0x80
}

/// The number of bytes of the white space character that starts at `i` in
/// `t`, in UTF-8, or 0 when none does. The white space characters are those
/// of Unicode's `White_Space` property: U+0009 to U+000D, U+0020, U+0085,
/// U+00A0 and the wide ones above.
pub open spec fn space_len(t: Seq<u8>, i: int) -> int {
    if 0 <= i < t.len() && (t[i] == 0x20 || (0x09 <= t[i] <= 0x0d)) {
        1
    } else if 0 <= i && i + 1 < t.len() && t[i] == 0xc2 && (t[i + 1] == 0x85 || t[i + 1] == 0xa0) {
        2
    } else if 0 <= i && i + 2 < t.len() && is_wide_space(t[i], t[i + 1], t[i + 2]) {
        3
    } else {
        0
    }
}

/// The first position at or after `i` that does not start a white space
/// character.
pub open spec fn skip_space(t: Seq<u8>, i: int) -> int
    decreases t.len() - i,
{
    if space_len(t, i) > 0 {
        skip_space(t, i + space_len(t, i))
    } else {
        i
    }
}

/// The first position at or after `i` that does not hold a digit.
pub open spec fn skip_digits(t: Seq<u8>, i: int) -> int
    decreases t.len() - i,
{
    if 0 <= i < t.len() && is_digit(t[i]) {
        skip_digits(t, i + 1)
    } else {
        i
    }
}

/// The first position at or after `i` that holds a `/`, or the end.
pub open spec fn find_slash(t: Seq<u8>, i: int) -> int
    decreases t.len() - i,
{
    if 0 <= i < t.len() && t[i] != 0x2f {
        find_slash(t, i + 1)
    } else {
        i
    }
}

/// The decimal number written by the digits `t[a..b]`.
pub open spec fn digits_value(t: Seq<u8>, a: int, b: int) -> int
    decreases b - a,
{
    if b <= a {
        0
    } else {
        digits_value(t, a, b - 1) * 10 + (t[b - 1] - 0x30)
    }
}

/// The text of the value of card `c`: what follows the `=`, up to the `/`
/// that opens a comment.
pub open spec fn value_text(c: Seq<u8>) -> Seq<u8> {
    let f = c.subrange(9, 80);
    f.take(find_slash(f, 0))
}

/// Where the text `t` starts once white space is skipped.
pub open spec fn text_start(t: Seq<u8>) -> int {
    skip_space(t, 0)
}

/// Whether the text `t` starts with a sign.
pub open spec fn text_signed(t: Seq<u8>) -> bool {
    text_start(t) < t.len() && (t[text_start(t)] == 0x2b || t[text_start(t)] == 0x2d)
}

/// Whether the text `t` starts with a minus sign.
pub open spec fn text_negative(t: Seq<u8>) -> bool {
    text_start(t) < t.len() && t[text_start(t)] == 0x2d
}

/// Where the digits of the text `t` start.
pub open spec fn text_digits_start(t: Seq<u8>) -> int {
    if text_signed(t) {
        text_start(t) + 1
    } else {
        text_start(t)
    }
}

/// Where the digits of the text `t` end.
pub open spec fn text_digits_end(t: Seq<u8>) -> int {
    skip_digits(t, text_digits_start(t))
}

/// The integer the text `t` holds, as the parser reads one: white space, an
/// optional sign, at least one digit, white space to the end, and a value
/// that fits in an `i64`. `None` when `t` holds no such integer.
pub open spec fn text_int(t: Seq<u8>) -> Option<int> {
    let a = text_digits_start(t);
    let b = text_digits_end(t);
    let m = digits_value(t, a, b);
    let v = if text_negative(t) {
        -m
    } else {
        m
    };
    if a < b && skip_space(t, b) == t.len() && i64::MIN <= v <= i64::MAX {
        Some(v)
    } else {
        None
    }
}

/// Whether the text `t` holds the logical value true: `T` between white
/// space.
pub open spec fn text_true(t: Seq<u8>) -> bool {
    text_start(t) < t.len() && t[text_start(t)] == 0x54 && skip_space(t, text_start(t) + 1)
        == t.len()
}

/// The integer card `c` holds, if it holds one.
pub open spec fn card_int(c: Seq<u8>) -> Option<int> {
    if is_valued(c) {
        text_int(value_text(c))
    } else {
        None
    }
}

/// Whether card `c` is `GROUPS` set to true.
pub open spec fn card_groups(c: Seq<u8>) -> bool {
    has_keyword(c, kw_groups()) && is_valued(c) && text_true(value_text(c))
}

/// Whether card `c` keeps its size keyword in range: an axis count from 0
/// to 999, an axis length not negative, and, where `PCOUNT` and `GCOUNT`
/// count (`groups`), those not negative. A card that holds no integer, or
/// carries another keyword, is in range.
pub open spec fn card_in_range(c: Seq<u8>, groups: bool) -> bool {
    match card_int(c) {
        None => true,
        Some(v) => {
            &&& is_count_keyword(c) ==> 0 <= v <= 999
            &&& is_axis_keyword(c) ==> v >= 0
            &&& (groups && is_group_keyword(c)) ==> v >= 0
        },
    }
}

/// What card `c` contributes to the size bound of its header, at least 1:
/// an axis length; `BITPIX` in bytes; `PCOUNT` and `GCOUNT` where they count
/// (`groups`).
pub open spec fn card_factor(c: Seq<u8>, groups: bool) -> int {
    match card_int(c) {
        None => 1,
        Some(v) => if is_axis_keyword(c) || (groups && is_group_keyword(c)) {
            if v > 1 {
                v
            } else {
                1
            }
        } else if has_keyword(c, kw_bitpix()) {
            let b = (if v < 0 {
                -v
            } else {
                v
            }) / 8;
            if b > 1 {
                b
            } else {
                1
            }
        } else {
            1
        },
    }
}

/// The `k`-th whole card of `bytes`.
pub open spec fn card_of(bytes: Seq<u8>, k: int) -> Seq<u8> {
    bytes.subrange(80 * k, 80 * k + 80)
}

/// Whether card `k` belongs to the primary header: no `END` card comes
/// before it.
pub open spec fn in_primary(bytes: Seq<u8>, k: int) -> bool
    decreases k,
{
    k <= 0 || (in_primary(bytes, k - 1) && !has_keyword(card_of(bytes, k - 1), kw_end()))
}

/// Whether the primary header sets `GROUPS` to true.
pub open spec fn primary_groups(bytes: Seq<u8>) -> bool {
    exists|k: int|
        0 <= k < bytes.len() / 80 && in_primary(bytes, k) && #[trigger] card_groups(
            card_of(bytes, k),
        )
}

/// Whether `PCOUNT` and `GCOUNT` count at card `k`: in an extension header,
/// or in a primary header of random groups.
pub open spec fn groups_count(bytes: Seq<u8>, k: int) -> bool {
    !in_primary(bytes, k) || primary_groups(bytes)
}

/// The product of the factors of the cards before card `k`, back to the
/// last `END` card before it.
pub open spec fn run_product(bytes: Seq<u8>, k: int) -> int
    decreases k,
{
    if k <= 0 {
        1
    } else if has_keyword(card_of(bytes, k - 1), kw_end()) {
        1
    } else {
        run_product(bytes, k - 1) * card_factor(card_of(bytes, k - 1), groups_count(bytes, k - 1))
    }
}

/// Whether every size keyword of `bytes` is in range: each card keeps its
/// own in range, and between two `END` cards the factors multiply to a size
/// that, doubled and added to the file's length and a block, still fits in
/// an address.
pub open spec fn fits_sizes_in_range(bytes: Seq<u8>) -> bool {
    &&& bytes.len() + 2880 <= usize::MAX
    &&& forall|k: int|
        0 <= k < bytes.len() / 80 ==> #[trigger] card_in_range(
            card_of(bytes, k),
            groups_count(bytes, k),
        )
    &&& forall|k: int|
        0 <= k <= bytes.len() / 80 ==> bytes.len() + 2 * #[trigger] run_product(bytes, k) + 2880
            <= usize::MAX
}

/// A card is refused only for what the parser cannot read safely: a
/// negative value, or an axis count above 999. An axis length of any size,
/// and any card that holds no integer, pass on their own.
pub proof fn lemma_card_refused_only_when_unsafe(c: Seq<u8>, groups: bool)
    ensures
        !card_in_range(c, groups) ==> (card_int(c) matches Some(v) && (v < 0 || (
            is_count_keyword(c) && v > 999))),
        card_int(c) is None ==> card_in_range(c, groups),
{
}

/// A non-negative axis length passes, however large, and it enters the size
/// bound as itself (or as 1 when it is 0).
pub proof fn lemma_axis_length_has_no_limit_of_its_own(c: Seq<u8>, groups: bool, v: int)
    requires
        is_axis_keyword(c),
        card_int(c) == Some(v),
        v >= 0,
    ensures
        card_in_range(c, groups),
        card_factor(c, groups) == if v == 0 {
            1
        } else {
            v
        },
{
}

/// `BITPIX` enters the size bound as the bytes of one value, and any other
/// card without a counted size, as 1.
pub proof fn lemma_bitpix_counts_bytes(c: Seq<u8>, groups: bool, v: int)
    requires
        has_keyword(c, kw_bitpix()),
        card_int(c) == Some(v),
    ensures
        card_in_range(c, groups),
        card_factor(c, groups) == if -16 < v < 16 {
            1
        } else if v < 0 {
            -v / 8
        } else {
            v / 8
        },
{
}

proof fn lemma_skip_space_bounds(t: Seq<u8>, i: int)
    requires
        0 <= i <= t.len(),
    ensures
        i <= skip_space(t, i) <= t.len(),
    decreases t.len() - i,
{
    if space_len(t, i) > 0 {
        lemma_skip_space_bounds(t, i + space_len(t, i));
    }
}

proof fn lemma_skip_space_shift(p: Seq<u8>, t: Seq<u8>, i: int)
    requires
        0 <= i <= t.len(),
    ensures
        skip_space(p + t, p.len() + i) == p.len() + skip_space(t, i),
    decreases t.len() - i,
{
    assert(space_len(p + t, p.len() + i) == space_len(t, i));
    if space_len(t, i) > 0 {
        lemma_skip_space_shift(p, t, i + space_len(t, i));
    }
}

proof fn lemma_skip_digits_shift(p: Seq<u8>, t: Seq<u8>, i: int)
    requires
        0 <= i <= t.len(),
    ensures
        skip_digits(p + t, p.len() + i) == p.len() + skip_digits(t, i),
    decreases t.len() - i,
{
    if i < t.len() {
        assert((p + t)[p.len() + i] == t[i]);
        if is_digit(t[i]) {
            lemma_skip_digits_shift(p, t, i + 1);
        }
    }
}

proof fn lemma_digits_value_shift(p: Seq<u8>, t: Seq<u8>, a: int, b: int)
    requires
        0 <= a <= b <= t.len(),
    ensures
        digits_value(p + t, p.len() + a, p.len() + b) == digits_value(t, a, b),
    decreases b - a,
{
    if a < b {
        assert((p + t)[p.len() + b - 1] == t[b - 1]);
        lemma_digits_value_shift(p, t, a, b - 1);
    }
}

proof fn lemma_skip_digits_bounds(t: Seq<u8>, i: int)
    requires
        0 <= i <= t.len(),
    ensures
        i <= skip_digits(t, i) <= t.len(),
    decreases t.len() - i,
{
    if i < t.len() && is_digit(t[i]) {
        lemma_skip_digits_bounds(t, i + 1);
    }
}

proof fn lemma_digit_run_ends(d: Seq<u8>, i: int)
    requires
        0 <= i <= d.len(),
        forall|j: int| 0 <= j < d.len() ==> is_digit(#[trigger] d[j]),
    ensures
        skip_digits(d, i) == d.len(),
    decreases d.len() - i,
{
    if i < d.len() {
        lemma_digit_run_ends(d, i + 1);
    }
}

/// White space before a value does not change the integer read from it:
/// one white space character `w` (a space, a tab, a no-break space, ...)
/// put in front of any text leaves its reading as it was.
pub proof fn lemma_leading_space_is_ignored(w: Seq<u8>, t: Seq<u8>)
    requires
        w.len() > 0,
        space_len(w, 0) == w.len(),
    ensures
        text_int(w + t) == text_int(t),
{
    let u = w + t;
    assert(space_len(u, 0) == w.len());
    lemma_skip_space_shift(w, t, 0);
    lemma_skip_space_bounds(t, 0);
    assert(text_start(u) == w.len() + text_start(t));
    let s = text_start(t);
    if s < t.len() {
        assert(u[w.len() + s] == t[s]);
    }
    let a = text_digits_start(t);
    assert(text_digits_start(u) == w.len() + a);
    lemma_skip_digits_shift(w, t, a);
    let b = text_digits_end(t);
    lemma_skip_digits_bounds(t, a);
    assert(text_digits_end(u) == w.len() + b);
    lemma_digits_value_shift(w, t, a, b);
    lemma_skip_space_shift(w, t, b);
}

proof fn lemma_skip_space_extend(t: Seq<u8>, w: Seq<u8>, i: int)
    requires
        0 <= i <= t.len(),
    ensures
        skip_space(t, i) < t.len() && space_len(t + w, skip_space(t, i)) == 0 ==> skip_space(
            t + w,
            i,
        ) == skip_space(t, i),
        skip_space(t, i) == t.len() ==> skip_space(t + w, i) == skip_space(t + w, t.len() as int),
    decreases t.len() - i,
{
    if i < t.len() && space_len(t, i) > 0 {
        assert(space_len(t + w, i) == space_len(t, i));
        lemma_skip_space_extend(t, w, i + space_len(t, i));
    }
}

/// White space after a value does not change the integer read from it:
/// one white space character `w` put after a text that holds an integer
/// leaves that integer.
pub proof fn lemma_trailing_space_is_ignored(t: Seq<u8>, w: Seq<u8>)
    requires
        w.len() > 0,
        space_len(w, 0) == w.len(),
        text_int(t) is Some,
    ensures
        text_int(t + w) == text_int(t),
{
    let u = t + w;
    let s = text_start(t);
    lemma_skip_space_bounds(t, 0);
    let a = text_digits_start(t);
    let b = text_digits_end(t);
    lemma_skip_digits_bounds(t, a);
    assert(a < b);
    assert(is_digit(t[a]));
    if text_signed(t) {
        assert(space_len(u, s) == 0);
    } else {
        assert(u[s] == t[s]);
        assert(space_len(u, s) == 0);
    }
    lemma_skip_space_extend(t, w, 0);
    assert(text_start(u) == s);
    if b < t.len() {
        assert(u[b] == t[b]);
        assert(skip_digits(u, b) == b);
    } else {
        assert(u[b] == w[0]);
        assert(skip_digits(u, b) == b);
    }
    assert forall|j: int| a <= j < b implies u[j] == t[j] by {}
    assert(skip_digits(u, a) == b) by {
        lemma_digits_prefix_agree(t, u, a, b);
    }
    assert(digits_value(u, a, b) == digits_value(t, a, b)) by {
        lemma_digits_value_agree(t, u, a, b);
    }
    lemma_skip_space_extend(t, w, b);
    lemma_skip_space_shift(t, w, 0);
    assert(space_len(w, w.len() as int) == 0);
    assert(skip_space(w, 0) == skip_space(w, w.len() as int));
}

proof fn lemma_digits_prefix_agree(t: Seq<u8>, u: Seq<u8>, a: int, b: int)
    requires
        0 <= a <= b <= t.len() <= u.len(),
        skip_digits(t, a) == b,
        skip_digits(u, b) == b,
        forall|j: int| 0 <= j < t.len() ==> u[j] == t[j],
    ensures
        skip_digits(u, a) == b,
    decreases b - a,
{
    if a < b {
        assert(is_digit(t[a]));
        lemma_digits_prefix_agree(t, u, a + 1, b);
    }
}

proof fn lemma_digits_value_agree(t: Seq<u8>, u: Seq<u8>, a: int, b: int)
    requires
        0 <= a <= b <= t.len() <= u.len(),
        forall|j: int| 0 <= j < t.len() ==> u[j] == t[j],
    ensures
        digits_value(u, a, b) == digits_value(t, a, b),
    decreases b - a,
{
    if a < b {
        lemma_digits_value_agree(t, u, a, b - 1);
    }
}

/// A run of digits reads as the number it writes, with or without a `+`
/// in front, and as its negation behind a `-`, as long as it fits in an
/// `i64`.
pub proof fn lemma_signed_digits_read_as_written(d: Seq<u8>)
    requires
        d.len() > 0,
        forall|j: int| 0 <= j < d.len() ==> is_digit(#[trigger] d[j]),
    ensures
        digits_value(d, 0, d.len() as int) <= i64::MAX ==> text_int(d) == Some(
            digits_value(d, 0, d.len() as int),
        ),
        digits_value(d, 0, d.len() as int) <= i64::MAX ==> text_int(seq![0x2bu8] + d) == Some(
            digits_value(d, 0, d.len() as int),
        ),
        digits_value(d, 0, d.len() as int) <= 0x8000_0000_0000_0000 ==> text_int(
            seq![0x2du8] + d,
        ) == Some(-digits_value(d, 0, d.len() as int)),
{
    let n = d.len() as int;
    lemma_digits_value_nonneg(d, 0, n);
    assert(space_len(d, 0) == 0);
    assert(text_start(d) == 0);
    lemma_digit_run_ends(d, 0);
    assert(skip_space(d, n) == n);
    let plus = seq![0x2bu8];
    let minus = seq![0x2du8];
    let up = plus + d;
    let um = minus + d;
    assert(space_len(up, 0) == 0);
    assert(space_len(um, 0) == 0);
    assert(text_start(up) == 0);
    assert(text_start(um) == 0);
    lemma_skip_digits_shift(plus, d, 0);
    lemma_skip_digits_shift(minus, d, 0);
    lemma_digits_value_shift(plus, d, 0, n);
    lemma_digits_value_shift(minus, d, 0, n);
    lemma_skip_space_shift(plus, d, n);
    lemma_skip_space_shift(minus, d, n);
}

/// `PCOUNT` and `GCOUNT` in a primary header that does not set `GROUPS`
/// are never refused and never enter the size bound, whatever they hold;
/// after the primary header, a negative one is refused.
pub proof fn lemma_group_counts_matter_only_where_read(bytes: Seq<u8>, k: int)
    requires
        0 <= k < bytes.len() / 80,
        is_group_keyword(card_of(bytes, k)),
    ensures
        in_primary(bytes, k) && !primary_groups(bytes) ==> card_in_range(
            card_of(bytes, k),
            groups_count(bytes, k),
        ) && card_factor(card_of(bytes, k), groups_count(bytes, k)) == 1,
        match card_int(card_of(bytes, k)) {
            Some(v) => (!in_primary(bytes, k) && v < 0) ==> !card_in_range(
                card_of(bytes, k),
                groups_count(bytes, k),
            ),
            None => true,
        },
{
    let c = card_of(bytes, k);
    assert(!is_count_keyword(c) && !is_axis_keyword(c) && !has_keyword(c, kw_bitpix())) by {
        if has_keyword(c, kw_pcount()) {
            assert(c[0] == kw_pcount()[0]);
        } else {
            assert(c[0] == kw_gcount()[0]);
        }
    }
}

/// The number a run of digits writes is not negative.
proof fn lemma_digits_value_nonneg(t: Seq<u8>, a: int, b: int)
    requires
        forall|j: int| a <= j < b ==> is_digit(#[trigger] t[j]),
    ensures
        digits_value(t, a, b) >= 0,
    decreases b - a,
{
    if b > a {
        lemma_digits_value_nonneg(t, a, b - 1);
    }
}

/// The number of bytes of the white space character at `i` in `t`.
fn space_at(t: &[u8], i: usize) -> (r: usize)
    requires
        i <= t@.len(),
    ensures
        r as int == space_len(t@, i as int),
        i + r <= t@.len(),
{
    let n = t.len();
    if i < n && (t[i] == 0x20 || (0x09 <= t[i] && t[i] <= 0x0d)) {
        1
    } else if i < n && n - i >= 2 && t[i] == 0xc2 && (t[i + 1] == 0x85 || t[i + 1] == 0xa0) {
        2
    } else if i < n && n - i >= 3 && ((t[i] == 0xe1 && t[i + 1] == 0x9a && t[i + 2] == 0x80) || (t[i]
        == 0xe2 && t[i + 1] == 0x80 && ((0x80 <= t[i + 2] && t[i + 2] <= 0x8a) || t[i + 2]
        == 0xa8 || t[i + 2] == 0xa9 || t[i + 2] == 0xaf)) || (t[i] == 0xe2 && t[i + 1] == 0x81
        && t[i + 2] == 0x9f) || (t[i] == 0xe3 && t[i + 1] == 0x80 && t[i + 2] == 0x80)) {
        3
    } else {
        0
    }
}

/// The first position at or after `i` in `t` that does not start a white
/// space character.
fn scan_space(t: &[u8], i: usize) -> (r: usize)
    requires
        i <= t@.len(),
    ensures
        r as int == skip_space(t@, i as int),
        i <= r <= t@.len(),
{
    let n = t.len();
    let mut j = i;
    loop
        invariant
            n == t@.len(),
            i <= j <= t@.len(),
            skip_space(t@, j as int) == skip_space(t@, i as int),
        decreases t@.len() - j,
    {
        let w = space_at(t, j);
        if w == 0 {
            return j;
        }
        j = j + w;
    }
}

/// The position of the first `/` in `t`, or its length.
fn slash_at(t: &[u8]) -> (r: usize)
    ensures
        r as int == find_slash(t@, 0),
        r <= t@.len(),
{
    let mut j: usize = 0;
    while j < t.len() && t[j] != 0x2f
        invariant
            j <= t@.len(),
            find_slash(t@, j as int) == find_slash(t@, 0),
        decreases t@.len() - j,
    {
        j = j + 1;
    }
    j
}

/// The integer the text `t` holds, as its sign and magnitude.
fn scan_int(t: &[u8]) -> (r: Option<(bool, u64)>)
    ensures
        r is None <==> text_int(t@) is None,
        r matches Some((neg, m)) ==> text_int(t@) == Some(
            if neg {
                -(m as int)
            } else {
                m as int
            },
        ),
{
    let s = scan_space(t, 0);
    let signed = s < t.len() && (t[s] == 0x2b || t[s] == 0x2d);
    let neg = s < t.len() && t[s] == 0x2d;
    let d0 = if signed {
        s + 1
    } else {
        s
    };
    assert(d0 as int == text_digits_start(t@));
    let mut j = d0;
    let mut m: u64 = 0;
    while j < t.len() && 0x30 <= t[j] && t[j] <= 0x39
        invariant
            d0 <= j <= t@.len(),
            d0 as int == text_digits_start(t@),
            skip_digits(t@, j as int) == skip_digits(t@, d0 as int),
            forall|k: int| d0 <= k < j ==> is_digit(#[trigger] t@[k]),
            m as int == if digits_value(t@, d0 as int, j as int) < u64::MAX {
                digits_value(t@, d0 as int, j as int)
            } else {
                u64::MAX as int
            },
        decreases t@.len() - j,
    {
        let d = (t[j] - 0x30) as u64;
        proof {
            lemma_digits_value_nonneg(t@, d0 as int, j as int);
        }
        let ghost v = digits_value(t@, d0 as int, j as int);
        assert(digits_value(t@, d0 as int, j + 1) == v * 10 + d);
        if m > (u64::MAX - d) / 10 {
            assert(v * 10 + d > u64::MAX);
            m = u64::MAX;
        } else {
            assert(v == m);
            m = m * 10 + d;
        }
        j = j + 1;
    }
    assert(j as int == text_digits_end(t@));
    proof {
        lemma_digits_value_nonneg(t@, d0 as int, j as int);
    }
    if d0 == j {
        return None;
    }
    let e = scan_space(t, j);
    if e != t.len() {
        return None;
    }
    if neg {
        if m <= 0x8000_0000_0000_0000 {
            Some((true, m))
        } else {
            None
        }
    } else {
        if m <= 0x7fff_ffff_ffff_ffff {
            Some((false, m))
        } else {
            None
        }
    }
}

/// Whether the text `t` holds the logical value true.
fn scan_true(t: &[u8]) -> (r: bool)
    ensures
        r == text_true(t@),
{
    let s = scan_space(t, 0);
    if s < t.len() && t[s] == 0x54 {
        scan_space(t, s + 1) == t.len()
    } else {
        false
    }
}

/// The text of the value of card `c`.
fn value_of(c: &[u8]) -> (t: &[u8])
    requires
        c@.len() == 80,
    ensures
        t@ == value_text(c@),
{
    let f = slice_subrange(c, 9, 80);
    let e = slash_at(f);
    let t = slice_subrange(f, 0, e);
    assert(t@ =~= value_text(c@));
    t
}

/// The integer card `c` holds, as its sign and magnitude.
fn int_of(c: &[u8]) -> (r: Option<(bool, u64)>)
    requires
        c@.len() == 80,
    ensures
        r is None <==> card_int(c@) is None,
        r matches Some((neg, m)) ==> card_int(c@) == Some(
            if neg {
                -(m as int)
            } else {
                m as int
            },
        ),
{
    if c[8] != 0x3d {
        return None;
    }
    scan_int(value_of(c))
}

/// Whether the first `n` bytes of card `c` are those of `kw`.
fn prefix_is(c: &[u8], kw: &[u8; 8], n: usize) -> (r: bool)
    requires
        n <= 8,
        n <= c@.len(),
    ensures
        r == starts_with(c@, kw@, n as int),
{
    let mut j: usize = 0;
    while j < n
        invariant
            j <= n,
            n <= 8,
            n <= c@.len(),
            forall|i: int| 0 <= i < j ==> c@[i] == kw@[i],
        decreases n - j,
    {
        if c[j] != kw[j] {
            return false;
        }
        j = j + 1;
    }
    true
}

/// `x`, or `usize::MAX` when it is larger.
fn saturate(x: u64) -> (r: usize)
    ensures
        r as int == if x < usize::MAX {
            x as int
        } else {
            usize::MAX as int
        },
{
    if x as u128 >= usize::MAX as u128 {
        usize::MAX
    } else {
        x as usize
    }
}

/// Whether card `c` is in range, and what it contributes to the size bound
/// of its header, capped at `usize::MAX`.
fn check_card(c: &[u8], groups: bool) -> (r: (bool, usize))
    requires
        c@.len() == 80,
    ensures
        r.0 == card_in_range(c@, groups),
        card_factor(c@, groups) >= 1,
        r.0 ==> r.1 as int == if card_factor(c@, groups) < usize::MAX {
            card_factor(c@, groups)
        } else {
            usize::MAX as int
        },
{
    let (neg, m) = match int_of(c) {
        None => return (true, 1),
        Some(v) => v,
    };
    let naxis: [u8; 8] = [0x4e, 0x41, 0x58, 0x49, 0x53, 0x20, 0x20, 0x20];
    let znaxis: [u8; 8] = [0x5a, 0x4e, 0x41, 0x58, 0x49, 0x53, 0x20, 0x20];
    let bitpix: [u8; 8] = [0x42, 0x49, 0x54, 0x50, 0x49, 0x58, 0x20, 0x20];
    let pcount: [u8; 8] = [0x50, 0x43, 0x4f, 0x55, 0x4e, 0x54, 0x20, 0x20];
    let gcount: [u8; 8] = [0x47, 0x43, 0x4f, 0x55, 0x4e, 0x54, 0x20, 0x20];
    assert(naxis@ == kw_naxis());
    assert(znaxis@ == kw_znaxis());
    assert(bitpix@ == kw_bitpix());
    assert(pcount@ == kw_pcount());
    assert(gcount@ == kw_gcount());
    let negative = neg && m > 0;
    let is_count = prefix_is(c, &naxis, 8) || prefix_is(c, &znaxis, 8);
    let is_axis = prefix_is(c, &naxis, 5) && 0x31 <= c[5] && c[5] <= 0x39 && ((c[6] == 0x20 && c[7]
        == 0x20) || (0x30 <= c[6] && c[6] <= 0x39 && (c[7] == 0x20 || (0x30 <= c[7] && c[7]
        <= 0x39))));
    let counted_group = groups && (prefix_is(c, &pcount, 8) || prefix_is(c, &gcount, 8));
    if is_count && (negative || m > 999) {
        return (false, 1);
    }
    if (is_axis || counted_group) && negative {
        return (false, 1);
    }
    if is_axis || counted_group {
        (true, saturate(if m > 1 { m } else { 1 }))
    } else if prefix_is(c, &bitpix, 8) {
        let b = m / 8;
        (true, saturate(if b > 1 { b } else { 1 }))
    } else {
        (true, 1)
    }
}

/// Whether card `c` is `GROUPS` set to true.
fn is_groups_card(c: &[u8]) -> (r: bool)
    requires
        c@.len() == 80,
    ensures
        r == card_groups(c@),
{
    let groups: [u8; 8] = [0x47, 0x52, 0x4f, 0x55, 0x50, 0x53, 0x20, 0x20];
    assert(groups@ == kw_groups());
    prefix_is(c, &groups, 8) && c[8] == 0x3d && scan_true(value_of(c))
}

/// A card after one outside the primary header is outside it too.
proof fn lemma_primary_prefix(bytes: Seq<u8>, j: int, k: int)
    requires
        j <= k,
        in_primary(bytes, k),
    ensures
        in_primary(bytes, j),
    decreases k - j,
{
    if j < k {
        lemma_primary_prefix(bytes, j, k - 1);
    }
}

/// Whether the primary header of `bytes` sets `GROUPS` to true.
fn primary_has_groups(bytes: &[u8]) -> (r: bool)
    ensures
        r == primary_groups(bytes@),
{
    let len = bytes.len();
    let n = len / CARD_LEN;
    let end: [u8; 8] = [0x45, 0x4e, 0x44, 0x20, 0x20, 0x20, 0x20, 0x20];
    assert(end@ == kw_end());
    let mut k: usize = 0;
    let mut in_prim = true;
    let mut found = false;
    while k < n && in_prim
        invariant
            len == bytes@.len(),
            k <= n,
            n == bytes@.len() / 80,
            end@ == kw_end(),
            in_prim == in_primary(bytes@, k as int),
            found == exists|j: int|
                0 <= j < k && in_primary(bytes@, j) && #[trigger] card_groups(card_of(bytes@, j)),
        decreases n - k,
    {
        assert(k * 80 + 80 <= bytes@.len());
        let base = k * CARD_LEN;
        let c = slice_subrange(bytes, base, base + CARD_LEN);
        assert(c@ == card_of(bytes@, k as int));
        if is_groups_card(c) {
            found = true;
        }
        in_prim = !prefix_is(c, &end, 8);
        k = k + 1;
    }
    proof {
        if !found && primary_groups(bytes@) {
            let j = choose|j: int|
                0 <= j < bytes@.len() / 80 && in_primary(bytes@, j) && #[trigger] card_groups(
                    card_of(bytes@, j),
                );
            if j >= k {
                lemma_primary_prefix(bytes@, k as int, j);
            }
        }
    }
    found
}

/// Whether every size keyword of `bytes` is in range (see
/// `fits_sizes_in_range`).
pub fn sizes_in_range(bytes: &[u8]) -> (r: bool)
    ensures
        r == fits_sizes_in_range(bytes@),
{
    if bytes.len() > usize::MAX - 2880 {
        return false;
    }
    let limit = (usize::MAX - 2880 - bytes.len()) / 2;
    assert(run_product(bytes@, 0) == 1);
    if limit == 0 {
        return false;
    }
    let n = bytes.len() / CARD_LEN;
    let groups = primary_has_groups(bytes);
    let end: [u8; 8] = [0x45, 0x4e, 0x44, 0x20, 0x20, 0x20, 0x20, 0x20];
    assert(end@ == kw_end());
    let mut in_prim = true;
    let mut p: usize = 1;
    let mut k: usize = 0;
    while k < n
        invariant
            k <= n,
            n == bytes@.len() / 80,
            bytes@.len() + 2880 <= usize::MAX,
            limit == (usize::MAX - 2880 - bytes@.len()) / 2,
            end@ == kw_end(),
            groups == primary_groups(bytes@),
            in_prim == in_primary(bytes@, k as int),
            1 <= p <= limit,
            p as int == run_product(bytes@, k as int),
            forall|j: int|
                0 <= j < k ==> #[trigger] card_in_range(
                    card_of(bytes@, j),
                    groups_count(bytes@, j),
                ),
            forall|j: int|
                0 <= j <= k ==> bytes@.len() + 2 * #[trigger] run_product(bytes@, j) + 2880
                    <= usize::MAX,
        decreases n - k,
    {
        let base = k * CARD_LEN;
        assert(base + 80 <= bytes@.len());
        let c = slice_subrange(bytes, base, base + CARD_LEN);
        assert(c@ == card_of(bytes@, k as int));
        let counts = !in_prim || groups;
        assert(counts == groups_count(bytes@, k as int));
        let (ok, f) = check_card(c, counts);
        if !ok {
            assert(!card_in_range(card_of(bytes@, k as int), groups_count(bytes@, k as int)));
            return false;
        }
        let ghost factor = card_factor(c@, counts);
        let is_end = prefix_is(c, &end, 8);
        if is_end {
            p = 1;
        } else {
            if f > limit / p {
                assert(p * f > limit) by (nonlinear_arith)
                    requires
                        f > limit / p,
                        p >= 1,
                ;
                assert(p * factor >= p * f) by (nonlinear_arith)
                    requires
                        factor >= f,
                        p >= 1,
                ;
                assert(run_product(bytes@, k + 1) == p * factor);
                return false;
            }
            assert(p * f <= limit) by (nonlinear_arith)
                requires
                    f <= limit / p,
                    p >= 1,
            ;
            assert(p * f >= 1) by (nonlinear_arith)
                requires
                    f >= 1,
                    p >= 1,
            ;
            p = p * f;
        }
        in_prim = in_prim && !is_end;
        k = k + 1;
    }
    true
}

} // verus!
