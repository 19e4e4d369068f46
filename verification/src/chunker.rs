//! Reply chunker: splits an oversized answer into an ordered sequence of
//! chunks of at most `sub_len` characters each, never splitting a character,
//! so that concatenating the chunks reproduces the answer exactly.

use vstd::prelude::*;
use vstd::arithmetic::div_mod::lemma_fundamental_div_mod_converse_div;

verus! {

/// How many chunks a text of `len` characters yields at `n` characters per
/// chunk: the ceiling of `len / n`. The empty text yields no chunk.
pub open spec fn chunk_count(len: nat, n: nat) -> int
    recommends
        n > 0,
{
    (len + n - 1) / (n as int)
}

/// The `i`-th chunk of `s` at `n` characters per chunk: the characters from
/// `i * n` up to `(i + 1) * n`, capped at the end of `s`.
pub open spec fn spec_chunk(s: Seq<char>, n: nat, i: int) -> Seq<char> {
    s.subrange(
        i * n,
        if (i + 1) * n <= s.len() {
            (i + 1) * n
        } else {
            s.len() as int
        },
    )
}

/// Splits `string` into consecutive chunks of `sub_len` characters, the last
/// chunk possibly shorter. The chunk count is the ceiling of the character
/// count divided by `sub_len`; the empty string yields no chunk.
pub fn sub_strings(string: &str, sub_len: usize) -> (subs: Vec<String>)
    requires
        sub_len > 0,
    ensures
        subs@.len() == chunk_count(string@.len(), sub_len as nat),
        forall|i: int|
            0 <= i < subs@.len() ==> #[trigger] subs@[i]@ == spec_chunk(
                string@,
                sub_len as nat,
                i,
            ),
{
    let len = string.unicode_len();
    let mut subs: Vec<String> = Vec::new();
    let mut pos: usize = 0;
    proof {
        assert(subs@.len() * sub_len == 0) by (nonlinear_arith)
            requires
                subs@.len() == 0,
        ;
    }
    while pos < len
        invariant
            len == string@.len(),
            sub_len > 0,
            pos <= len,
            pos == if subs@.len() * sub_len <= len {
                subs@.len() * sub_len
            } else {
                len as int
            },
            subs@.len() > 0 ==> (subs@.len() - 1) * sub_len < len,
            forall|i: int|
                0 <= i < subs@.len() ==> #[trigger] subs@[i]@ == spec_chunk(
                    string@,
                    sub_len as nat,
                    i,
                ),
        decreases len - pos,
    {
        let ghost k = subs@.len() as int;
        proof {
            // pos < len rules out the capped case, so pos == k * sub_len.
            assert(pos == k * sub_len);
            assert((k + 1) * sub_len == k * sub_len + sub_len) by (nonlinear_arith);
        }
        let end = if len - pos < sub_len {
            len
        } else {
            pos + sub_len
        };
        let chunk = string.substring_char(pos, end);
        subs.push(chunk.to_owned());
        proof {
            assert(subs@[k]@ == spec_chunk(string@, sub_len as nat, k));
            assert(forall|i: int|
                0 <= i < k ==> #[trigger] subs@[i]@ == spec_chunk(string@, sub_len as nat, i));
        }
        pos = end;
    }
    proof {
        let k = subs@.len() as int;
        let n = sub_len as int;
        if len == 0 {
            assert(k == 0);
            assert(chunk_count(string@.len(), sub_len as nat) == (n - 1) / n);
            lemma_fundamental_div_mod_converse_div(n - 1, n, 0, n - 1);
        } else {
            // pos == len and the invariant give (k - 1) * n < len <= k * n,
            // which pins k as the ceiling of len / n.
            assert(k > 0);
            assert(len <= k * n);
            assert((k - 1) * n < len);
            let r = len + n - 1 - k * n;
            assert((k - 1) * n == k * n - n) by (nonlinear_arith);
            assert(0 <= r < n);
            lemma_fundamental_div_mod_converse_div(len + n - 1, n, k, r);
        }
    }
    subs
}

/// Concatenating the chunks of `s` reproduces `s` exactly, and no chunk holds
/// more than `n` characters or is empty. The chunks are given by their
/// pointwise description, as [`sub_strings`] ensures it.
pub proof fn lemma_chunks_concat(chunks: Seq<Seq<char>>, s: Seq<char>, n: nat)
    requires
        n > 0,
        chunks.len() == chunk_count(s.len(), n),
        forall|i: int| 0 <= i < chunks.len() ==> #[trigger] chunks[i] == spec_chunk(s, n, i),
    ensures
        chunks.flatten_alt() == s,
        forall|i: int| 0 <= i < chunks.len() ==> 0 < #[trigger] chunks[i].len() <= n,
    decreases chunks.len(),
{
    let k = chunks.len() as int;
    lemma_chunk_count_bounds(s.len(), n);
    assert forall|i: int| 0 <= i < k implies 0 < #[trigger] chunks[i].len() <= n by {
        lemma_chunk_len(s, n, i, k);
    }
    if k == 0 {
        assert(k * n == 0) by (nonlinear_arith)
            requires
                k == 0,
        ;
        assert(s.len() == 0);
        assert(chunks.flatten_alt() =~= s);
    } else {
        let head = s.take((k - 1) * n);
        lemma_chunk_len(s, n, k - 1, k);
        assert(0 <= (k - 1) * n <= s.len());
        let prefix = chunks.drop_last();
        assert(head.len() == (k - 1) * n);
        lemma_chunk_count_exact((k - 1) as nat, n);
        assert forall|i: int| 0 <= i < prefix.len() implies #[trigger] prefix[i] == spec_chunk(
            head,
            n,
            i,
        ) by {
            lemma_chunk_len(s, n, i, k);
            assert(chunks[i] == spec_chunk(s, n, i));
            assert((i + 1) * n <= (k - 1) * n) by (nonlinear_arith)
                requires
                    i + 1 <= k - 1,
                    n > 0,
            ;
            assert(i * n >= 0) by (nonlinear_arith)
                requires
                    i >= 0,
                    n > 0,
            ;
            assert(spec_chunk(head, n, i) =~= spec_chunk(s, n, i));
        }
        lemma_chunks_concat(prefix, head, n);
        assert(chunks.last() == spec_chunk(s, n, k - 1));
        assert(chunks.flatten_alt() == prefix.flatten_alt() + chunks.last());
        assert(chunks.flatten_alt() =~= s);
    }
}

/// The chunk count is zero exactly on the empty text, and otherwise brackets
/// the text's length: `(count - 1) * n < len <= count * n`.
pub proof fn lemma_chunk_count_bounds(len: nat, n: nat)
    requires
        n > 0,
    ensures
        chunk_count(len, n) >= 0,
        len == 0 ==> chunk_count(len, n) == 0,
        len > 0 ==> (chunk_count(len, n) - 1) * n < len <= chunk_count(len, n) * n,
{
    let k = chunk_count(len, n);
    let x = len + n - 1;
    vstd::arithmetic::div_mod::lemma_fundamental_div_mod(x as int, n as int);
    assert(x == n * k + x % (n as int));
    assert(0 <= x % (n as int) < n);
    assert(n * k == k * n) by (nonlinear_arith);
    if len == 0 {
        assert(k * n <= n - 1);
        if k > 0 {
            assert(k * n >= n) by (nonlinear_arith)
                requires
                    k > 0,
                    n > 0,
            ;
        }
        if k < 0 {
            assert(k * n <= 0 - n) by (nonlinear_arith)
                requires
                    k < 0,
                    n > 0,
            ;
        }
    } else {
        assert(len <= k * n);
        assert((k - 1) * n == k * n - n) by (nonlinear_arith);
        if k < 0 {
            assert(k * n <= 0 - n) by (nonlinear_arith)
                requires
                    k < 0,
                    n > 0,
            ;
        }
    }
}

/// A text of exactly `k * n` characters yields exactly `k` chunks.
proof fn lemma_chunk_count_exact(k: nat, n: nat)
    requires
        n > 0,
    ensures
        chunk_count((k * n) as nat, n) == k,
{
    assert(k * n >= 0) by (nonlinear_arith)
        requires
            k >= 0,
            n >= 0,
    ;
    lemma_fundamental_div_mod_converse_div(k * n + n - 1, n as int, k as int, n - 1);
}

/// Bounds on one chunk of `s`: it lies inside `s` and holds between 1 and `n`
/// characters.
proof fn lemma_chunk_len(s: Seq<char>, n: nat, i: int, k: int)
    requires
        n > 0,
        k == chunk_count(s.len(), n),
        0 <= i < k,
    ensures
        0 <= i * n < s.len(),
        i * n < (i + 1) * n,
        (i + 1) * n <= s.len() || (i * n < s.len() < (i + 1) * n),
        0 < spec_chunk(s, n, i).len() <= n,
{
    lemma_chunk_count_bounds(s.len(), n);
    assert((i + 1) * n == i * n + n) by (nonlinear_arith);
    assert(i * n >= 0) by (nonlinear_arith)
        requires
            i >= 0,
            n > 0,
    ;
    assert(i * n <= (k - 1) * n) by (nonlinear_arith)
        requires
            i <= k - 1,
            n > 0,
    ;
}

} // verus!

verus! {

/// Character budget of one outbound reply message, below the platform's
/// per-message limit with room for the reply prefix.
pub const REPLY_CHUNK_CHARS: usize = 1800;

/// The prefix of an outbound reply message.
pub open spec fn spec_reply_prefix() -> Seq<char> {
    "Answer: "@
}

/// Turns answer chunks into outbound messages. The canonical convention
/// prefixes only the first message with `Answer: `; setting
/// `prefix_every_chunk` chooses the variant that prefixes them all.
pub fn format_reply_chunks(chunks: &Vec<String>, prefix_every_chunk: bool) -> (msgs: Vec<String>)
    ensures
        msgs@.len() == chunks@.len(),
        forall|i: int|
            0 <= i < msgs@.len() ==> #[trigger] msgs@[i]@ == if i == 0 || prefix_every_chunk {
                spec_reply_prefix() + chunks@[i]@
            } else {
                chunks@[i]@
            },
{
    let mut msgs: Vec<String> = Vec::new();
    let mut i: usize = 0;
    while i < chunks.len()
        invariant
            0 <= i <= chunks.len(),
            msgs@.len() == i,
            forall|j: int|
                0 <= j < i ==> #[trigger] msgs@[j]@ == if j == 0 || prefix_every_chunk {
                    spec_reply_prefix() + chunks@[j]@
                } else {
                    chunks@[j]@
                },
        decreases chunks.len() - i,
    {
        if i == 0 || prefix_every_chunk {
            let mut m = String::from_str("Answer: ");
            m.append(chunks[i].as_str());
            msgs.push(m);
        } else {
            msgs.push(chunks[i].clone());
        }
        i = i + 1;
    }
    msgs
}

} // verus!
