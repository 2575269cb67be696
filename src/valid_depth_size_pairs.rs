//! The supported (max_depth, max_buffer_size) tree configurations and the
//! account size each one needs.
use vstd::prelude::*;

use crate::error::BubblegumError;

verus! {

/// The supported configurations, in table order.
pub open spec fn valid_pairs() -> Seq<(u32, u32)> {
    seq![
        (3u32, 8u32), (5, 8),
        (6, 16), (7, 16), (8, 16), (9, 16),
        (10, 32), (11, 32), (12, 32), (13, 32),
        (14, 64), (15, 64), (16, 64), (17, 64), (18, 64), (19, 64), (20, 64), (24, 64),
        (14, 256), (20, 256), (24, 256),
        (24, 512), (26, 512), (30, 512),
        (14, 1024), (20, 1024), (24, 1024), (26, 1024), (30, 1024),
        (14, 2048), (20, 2048), (24, 2048), (26, 2048), (30, 2048),
    ]
}

/// A configuration is supported when it is one of the table's entries.
pub open spec fn is_supported(max_depth: u32, max_buffer_size: u32) -> bool {
    valid_pairs().contains((max_depth, max_buffer_size))
}

/// The supported configurations as a vector, in table order.
pub fn valid_depth_size_pairs() -> (r: Vec<(u32, u32)>)
    ensures
        r@ == valid_pairs(),
{
    let r = vec![
        (3u32, 8u32), (5, 8),
        (6, 16), (7, 16), (8, 16), (9, 16),
        (10, 32), (11, 32), (12, 32), (13, 32),
        (14, 64), (15, 64), (16, 64), (17, 64), (18, 64), (19, 64), (20, 64), (24, 64),
        (14, 256), (20, 256), (24, 256),
        (24, 512), (26, 512), (30, 512),
        (14, 1024), (20, 1024), (24, 1024), (26, 1024), (30, 1024),
        (14, 2048), (20, 2048), (24, 2048), (26, 2048), (30, 2048),
    ];
    assert(r@ =~= valid_pairs());
    r
}

/// Whether `(max_depth, max_buffer_size)` is a supported configuration.
pub fn is_valid_pair(max_depth: u32, max_buffer_size: u32) -> (r: bool)
    ensures
        r == is_supported(max_depth, max_buffer_size),
{
    let pairs = valid_depth_size_pairs();
    let mut i: usize = 0;
    while i < pairs.len()
        invariant
            pairs@ == valid_pairs(),
            0 <= i <= pairs@.len(),
            forall|j: int| 0 <= j < i ==> pairs@[j] != (max_depth, max_buffer_size),
        decreases pairs@.len() - i,
    {
        let (d, b) = pairs[i];
        if d == max_depth && b == max_buffer_size {
            assert(pairs@[i as int] == (max_depth, max_buffer_size));
            return true;
        }
        i = i + 1;
    }
    false
}

/// Bytes of the fixed header that precedes the tree in its account.
pub open spec fn header_size() -> int {
    56
}

/// Bytes of the concurrent Merkle tree laid out in C order: three `u64`
/// counters, `max_buffer_size` change logs and one rightmost path, where a change
/// log and a path each hold `max_depth + 1` 32-byte nodes and two `u32` words.
pub open spec fn tree_layout_size(max_depth: int, max_buffer_size: int) -> int {
    24 + (max_buffer_size + 1) * (32 * max_depth + 40)
}

/// Bytes that a tree account of the given configuration needs.
pub open spec fn account_size(max_depth: int, max_buffer_size: int) -> int {
    header_size() + tree_layout_size(max_depth, max_buffer_size)
}

/// What `required_account_size` returns for a configuration.
pub open spec fn account_size_result(max_depth: u32, max_buffer_size: u32) -> Result<u64, BubblegumError> {
    if is_supported(max_depth, max_buffer_size) {
        Ok(account_size(max_depth as int, max_buffer_size as int) as u64)
    } else {
        Err(BubblegumError::InvalidConfiguration { max_depth, max_buffer_size })
    }
}

/// Relies on spl_account_compression's `CONCURRENT_MERKLE_TREE_HEADER_SIZE_V1`,
/// the byte length of a version-1 tree account header (`2 + 54`).
#[verifier::external_body]
fn tree_header_size() -> (r: usize)
    ensures
        r == header_size(),
{
    spl_account_compression::state::CONCURRENT_MERKLE_TREE_HEADER_SIZE_V1
}

/// Every supported configuration has a depth of at most 30 and a buffer of at
/// most 2048 entries.
pub proof fn lemma_supported_bounds(max_depth: u32, max_buffer_size: u32)
    requires
        is_supported(max_depth, max_buffer_size),
    ensures
        3 <= max_depth <= 30,
        8 <= max_buffer_size <= 2048,
{
    let i = choose|i: int| 0 <= i < valid_pairs().len() && valid_pairs()[i] == (max_depth, max_buffer_size);
    assert(valid_pairs().len() == 34);
    assert(forall|j: int| 0 <= j < 34 ==> 3 <= #[trigger] valid_pairs()[j].0 <= 30 && 8 <= valid_pairs()[j].1 <= 2048);
}

/// The byte length of the account that holds a tree of the given
/// configuration, or `InvalidConfiguration` for an unsupported pair.
pub fn required_account_size(max_depth: u32, max_buffer_size: u32) -> (r: Result<u64, BubblegumError>)
    ensures
        r == account_size_result(max_depth, max_buffer_size),
        r matches Ok(n) ==> n == account_size(max_depth as int, max_buffer_size as int),
{
    if !is_valid_pair(max_depth, max_buffer_size) {
        return Err(BubblegumError::InvalidConfiguration { max_depth, max_buffer_size });
    }
    proof {
        lemma_supported_bounds(max_depth, max_buffer_size);
    }
    let header = tree_header_size() as u64;
    let d = max_depth as u64;
    let b = max_buffer_size as u64;
    assert((b + 1) * (32 * d + 40) <= 2049 * 1000) by (nonlinear_arith)
        requires
            b <= 2048,
            d <= 30,
    ;
    Ok(header + 24 + (b + 1) * (32 * d + 40))
}

/// `required_account_size` is a function of its arguments: equal
/// configurations get equal answers.
pub proof fn lemma_account_size_deterministic(d1: u32, b1: u32, d2: u32, b2: u32)
    requires
        d1 == d2,
        b1 == b2,
    ensures
        account_size_result(d1, b1) == account_size_result(d2, b2),
{
}

/// For a fixed depth, a larger buffer never needs a smaller account.
pub proof fn lemma_account_size_monotonic_in_buffer(max_depth: int, b1: int, b2: int)
    requires
        0 <= max_depth,
        0 <= b1 <= b2,
    ensures
        account_size(max_depth, b1) <= account_size(max_depth, b2),
{
    assert((b1 + 1) * (32 * max_depth + 40) <= (b2 + 1) * (32 * max_depth + 40)) by (nonlinear_arith)
        requires
            0 <= max_depth,
            0 <= b1 <= b2,
    ;
}

/// No supported configuration stays supported with its depth and buffer size
/// swapped.
pub proof fn lemma_swapped_pair_rejected(max_depth: u32, max_buffer_size: u32)
    requires
        is_supported(max_depth, max_buffer_size),
    ensures
        !is_supported(max_buffer_size, max_depth),
{
    if is_supported(max_buffer_size, max_depth) {
        lemma_supported_bounds(max_buffer_size, max_depth);
        let i = choose|i: int| 0 <= i < valid_pairs().len() && valid_pairs()[i] == (max_depth, max_buffer_size);
        assert(valid_pairs().len() == 34);
        assert(forall|j: int| 0 <= j < 34 && #[trigger] valid_pairs()[j].1 <= 30 ==> valid_pairs()[j].0 <= 9);
    }
}

/// The decimal digit character for `d < 10`.
pub open spec fn digit_char(d: nat) -> char {
    if d == 0 { '0' } else if d == 1 { '1' } else if d == 2 { '2' } else if d == 3 { '3' }
    else if d == 4 { '4' } else if d == 5 { '5' } else if d == 6 { '6' } else if d == 7 { '7' }
    else if d == 8 { '8' } else { '9' }
}

/// The decimal text of `n`, without leading zeros.
pub open spec fn decimal(n: nat) -> Seq<char>
    decreases n,
{
    if n < 10 {
        seq![digit_char(n)]
    } else {
        decimal(n / 10) + seq![digit_char(n % 10)]
    }
}

/// `(d, b)` for one configuration.
pub open spec fn pair_text(p: (u32, u32)) -> Seq<char> {
    seq!['('] + decimal(p.0 as nat) + seq![',', ' '] + decimal(p.1 as nat) + seq![')']
}

/// The configurations' texts, separated by `", "`.
pub open spec fn pairs_text(pairs: Seq<(u32, u32)>) -> Seq<char>
    decreases pairs.len(),
{
    if pairs.len() == 0 {
        Seq::empty()
    } else if pairs.len() == 1 {
        pair_text(pairs[0])
    } else {
        pairs_text(pairs.drop_last()) + seq![',', ' '] + pair_text(pairs.last())
    }
}

fn digit_str(d: u32) -> (r: &'static str)
    requires
        d < 10,
    ensures
        r@ == seq![digit_char(d as nat)],
{
    proof {
        reveal_strlit("0");
        reveal_strlit("1");
        reveal_strlit("2");
        reveal_strlit("3");
        reveal_strlit("4");
        reveal_strlit("5");
        reveal_strlit("6");
        reveal_strlit("7");
        reveal_strlit("8");
        reveal_strlit("9");
    }
    let r = if d == 0 { "0" } else if d == 1 { "1" } else if d == 2 { "2" } else if d == 3 { "3" }
    else if d == 4 { "4" } else if d == 5 { "5" } else if d == 6 { "6" } else if d == 7 { "7" }
    else if d == 8 { "8" } else { "9" };
    assert(r@ =~= seq![digit_char(d as nat)]);
    r
}

fn push_decimal(s: &mut String, n: u32)
    ensures
        final(s)@ == old(s)@ + decimal(n as nat),
    decreases n,
{
    if n >= 10 {
        push_decimal(s, n / 10);
    }
    s.append(digit_str(n % 10));
    assert(final(s)@ =~= old(s)@ + decimal(n as nat));
}

fn push_pair(s: &mut String, p: (u32, u32))
    ensures
        final(s)@ == old(s)@ + pair_text(p),
{
    proof {
        reveal_strlit("(");
        reveal_strlit(", ");
        reveal_strlit(")");
    }
    s.append("(");
    push_decimal(s, p.0);
    s.append(", ");
    push_decimal(s, p.1);
    s.append(")");
    assert(final(s)@ =~= old(s)@ + pair_text(p));
}

/// The supported configurations as text, `"(3, 8), (5, 8), ..."`, in table
/// order; meant for error messages.
pub fn get_valid_pairs_string() -> (r: String)
    ensures
        r@ == pairs_text(valid_pairs()),
{
    let pairs = valid_depth_size_pairs();
    let mut s = String::new();
    let mut i: usize = 0;
    while i < pairs.len()
        invariant
            pairs@ == valid_pairs(),
            0 <= i <= pairs@.len(),
            s@ == pairs_text(pairs@.subrange(0, i as int)),
        decreases pairs@.len() - i,
    {
        let ghost prefix = pairs@.subrange(0, i as int);
        let ghost next = pairs@.subrange(0, i + 1);
        proof {
            reveal_strlit(", ");
        }
        if i > 0 {
            s.append(", ");
        }
        push_pair(&mut s, pairs[i]);
        assert(next.drop_last() =~= prefix);
        assert(next.last() == pairs@[i as int]);
        if i == 0 {
            assert(next[0] == pairs@[0]);
            assert(s@ =~= pairs_text(next));
        } else {
            assert(s@ =~= pairs_text(prefix) + seq![',', ' '] + pair_text(next.last()));
            assert(s@ =~= pairs_text(next));
        }
        i = i + 1;
    }
    assert(pairs@.subrange(0, pairs@.len() as int) =~= pairs@);
    s
}

} // verus!
