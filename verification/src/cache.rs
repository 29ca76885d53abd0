//! The on-disk translation cache: keys and their hash, entry file names,
//! which entries eviction removes, and the totals the stats report. The
//! file operations are the caller's.

use vstd::prelude::*;
use vstd::utf8::encode_utf8;
use crate::json::lower_hex;
use crate::text::{push_char, str_eq};

verus! {

#[verifier::external_type_specification]
#[verifier::external_body]
pub struct ExPathBuf(std::path::PathBuf);

/// How many entries a cache keeps by default.
pub const CAP: usize = 1000;

/// What a cached translation is stored under.
pub struct Key<'a> {
    pub engine: &'a str,
    pub sl: &'a str,
    pub tl: &'a str,
    pub text: &'a str,
}

/// How many entries a cache holds and their total size.
pub struct Stats {
    pub entries: usize,
    pub bytes: u64,
}

/// A cache directory and how many entries it keeps.
pub struct Cache {
    dir: std::path::PathBuf,
    cap: usize,
}

impl Cache {
    /// The capacity a cache was made with.
    pub closed spec fn spec_cap(&self) -> usize {
        self.cap
    }

    /// The directory a cache was made with.
    pub closed spec fn spec_dir(&self) -> std::path::PathBuf {
        self.dir
    }

    pub fn new(dir: std::path::PathBuf) -> (c: Cache)
        ensures
            c.spec_cap() == CAP,
            c.spec_dir() == dir,
    {
        Cache { dir, cap: CAP }
    }

    pub fn with_cap(dir: std::path::PathBuf, cap: usize) -> (c: Cache)
        ensures
            c.spec_cap() == cap,
            c.spec_dir() == dir,
    {
        Cache { dir, cap }
    }

    pub fn dir(&self) -> (r: &std::path::PathBuf)
        ensures
            *r == self.spec_dir(),
    {
        &self.dir
    }

    pub fn cap(&self) -> (n: usize)
        ensures
            n == self.spec_cap(),
    {
        self.cap
    }
}

pub const FNV_OFFSET: u64 = 0xcbf2_9ce4_8422_2325;
pub const FNV_PRIME: u64 = 0x1000_0000_01b3;

/// One FNV-1a step.
pub open spec fn fnv_step(h: u64, b: u8) -> u64 {
    vstd::wrapping::u64_specs::wrapping_mul(h ^ (b as u64), FNV_PRIME)
}

/// FNV-1a over a byte string, from a starting value.
pub open spec fn fnv_bytes(h: u64, bs: Seq<u8>) -> u64
    decreases bs.len(),
{
    if bs.len() == 0 {
        h
    } else {
        fnv_step(fnv_bytes(h, bs.drop_last()), bs.last())
    }
}

/// A text's UTF-8 bytes followed by a zero byte.
pub open spec fn field_bytes(s: Seq<char>) -> Seq<u8> {
    encode_utf8(s) + seq![0u8]
}

/// The bytes a key is hashed over: each field, zero-terminated.
pub open spec fn key_bytes(engine: Seq<char>, sl: Seq<char>, tl: Seq<char>, text: Seq<char>) -> Seq<u8> {
    field_bytes(engine) + field_bytes(sl) + field_bytes(tl) + field_bytes(text)
}

/// The hash of a key.
pub open spec fn fnv1a_of(k: Key) -> u64 {
    fnv_bytes(FNV_OFFSET, key_bytes(k.engine@, k.sl@, k.tl@, k.text@))
}

proof fn lemma_fnv_append(h: u64, a: Seq<u8>, b: Seq<u8>)
    ensures
        fnv_bytes(h, a + b) == fnv_bytes(fnv_bytes(h, a), b),
    decreases b.len(),
{
    if b.len() == 0 {
        assert(a + b =~= a);
    } else {
        assert((a + b).drop_last() =~= a + b.drop_last());
        lemma_fnv_append(h, a, b.drop_last());
    }
}

fn fnv_field(h: u64, s: &str) -> (r: u64)
    ensures
        r == fnv_bytes(h, field_bytes(s@)),
{
    let bytes = s.as_bytes();
    let n = bytes.len();
    let mut hash = h;
    let mut i: usize = 0;
    while i < n
        invariant
            n == bytes@.len(),
            bytes@ == encode_utf8(s@),
            i <= n,
            hash == fnv_bytes(h, bytes@.take(i as int)),
        decreases n - i,
    {
        assert(bytes@.take(i + 1).drop_last() =~= bytes@.take(i as int));
        hash = (hash ^ (bytes[i] as u64)).wrapping_mul(FNV_PRIME);
        i = i + 1;
    }
    assert(bytes@.take(n as int) =~= bytes@);
    let r = (hash ^ 0u64).wrapping_mul(FNV_PRIME);
    proof {
        lemma_fnv_append(h, bytes@, seq![0u8]);
        assert(seq![0u8].drop_last() =~= Seq::<u8>::empty());
        assert(fnv_bytes(hash, Seq::<u8>::empty()) == hash);
        assert(fnv_bytes(hash, seq![0u8]) == fnv_step(hash, 0u8));
        assert((0u8 as u64) == 0u64);
    }
    r
}

/// FNV-1a over the key's fields, each followed by a zero byte.
pub fn fnv1a(key: &Key) -> (h: u64)
    ensures
        h == fnv1a_of(*key),
{
    let h1 = fnv_field(FNV_OFFSET, key.engine);
    let h2 = fnv_field(h1, key.sl);
    let h3 = fnv_field(h2, key.tl);
    let h4 = fnv_field(h3, key.text);
    proof {
        let a = field_bytes(key.engine@);
        let b = field_bytes(key.sl@);
        let c = field_bytes(key.tl@);
        let d = field_bytes(key.text@);
        lemma_fnv_append(FNV_OFFSET, a, b);
        lemma_fnv_append(FNV_OFFSET, a + b, c);
        lemma_fnv_append(FNV_OFFSET, a + b + c, d);
    }
    h4
}

/// The `n` lowest hex digits of `h`, most significant first.
pub open spec fn hex_of(h: u64, n: nat) -> Seq<char>
    decreases n,
{
    if n == 0 {
        Seq::empty()
    } else {
        hex_of(h / 16, (n - 1) as nat).push(lower_hex((h % 16) as u32))
    }
}

fn hex_digits(h: u64, n: usize) -> (r: String)
    ensures
        r@ == hex_of(h, n as nat),
    decreases n,
{
    if n == 0 {
        String::new()
    } else {
        let mut s = hex_digits(h / 16, n - 1);
        let d = (h % 16) as u32;
        let c: char = if d < 10 {
            ((48 + d) as u8) as char
        } else {
            ((87 + d) as u8) as char
        };
        push_char(&mut s, c);
        s
    }
}

/// The file an entry is stored in: the key's hash as sixteen hex digits.
pub open spec fn entry_name_of(k: Key) -> Seq<char> {
    hex_of(fnv1a_of(k), 16) + ".json"@
}

pub fn entry_name(key: &Key) -> (r: String)
    ensures
        r@ == entry_name_of(*key),
{
    let mut s = hex_digits(fnv1a(key), 16);
    s.append(".json");
    s
}

/// Whether a stored entry was written for this very key (different keys can
/// share a file name).
pub fn entry_matches(engine: &str, sl: &str, tl: &str, text: &str, key: &Key) -> (r: bool)
    ensures
        r == (engine@ == key.engine@ && sl@ == key.sl@ && tl@ == key.tl@ && text@ == key.text@),
{
    str_eq(engine, key.engine) && str_eq(sl, key.sl) && str_eq(tl, key.tl) && str_eq(text, key.text)
}

/// Whether entry `j` is older than entry `i`: by time, then by position.
pub open spec fn older(times: Seq<u128>, j: int, i: int) -> bool {
    times[j] < times[i] || (times[j] == times[i] && j < i)
}

/// How many of the first `m` entries are older than entry `i`.
pub open spec fn older_count(times: Seq<u128>, i: int, m: int) -> nat
    decreases m,
{
    if m <= 0 {
        0
    } else {
        older_count(times, i, m - 1) + if older(times, m - 1, i) {
            1nat
        } else {
            0nat
        }
    }
}

/// An entry's place when all are ordered oldest first.
pub open spec fn rank(times: Seq<u128>, i: int) -> nat {
    older_count(times, i, times.len() as int)
}

/// The entries that eviction removes: the oldest ones beyond the capacity.
pub open spec fn evicted(times: Seq<u128>, cap: nat, i: int) -> bool {
    times.len() > cap && rank(times, i) < times.len() - cap
}

/// The positions of the entries to delete, in increasing order.
pub fn evict_plan(times: &Vec<u128>, cap: usize) -> (r: Vec<usize>)
    ensures
        forall|k: int| 0 <= k < r@.len() ==> #[trigger] r@[k] < times@.len(),
        forall|a: int, b: int| 0 <= a < b < r@.len() ==> #[trigger] r@[a] < #[trigger] r@[b],
        forall|i: int| 0 <= i < times@.len() ==> (evicted(times@, cap as nat, i) <==> r@.contains(
            i as usize,
        )),
{
    let n = times.len();
    let mut out: Vec<usize> = Vec::new();
    if n <= cap {
        return out;
    }
    let keep_from = n - cap;
    let mut i: usize = 0;
    while i < n
        invariant
            n == times@.len(),
            n > cap,
            keep_from == n - cap,
            i <= n,
            forall|k: int| 0 <= k < out@.len() ==> #[trigger] out@[k] < i,
            forall|a: int, b: int| 0 <= a < b < out@.len() ==> #[trigger] out@[a] < #[trigger] out@[b],
            forall|x: int| 0 <= x < i ==> (evicted(times@, cap as nat, x) <==> out@.contains(
                x as usize,
            )),
        decreases n - i,
    {
        let mut count: usize = 0;
        let mut j: usize = 0;
        while j < n
            invariant
                n == times@.len(),
                i < n,
                j <= n,
                count == older_count(times@, i as int, j as int),
                count <= j,
            decreases n - j,
        {
            if times[j] < times[i] || (times[j] == times[i] && j < i) {
                count = count + 1;
            }
            j = j + 1;
        }
        let ghost before = out@;
        if count < keep_from {
            out.push(i);
        }
        assert forall|x: int| 0 <= x < i + 1 implies (evicted(times@, cap as nat, x)
            <==> out@.contains(x as usize)) by {
            if x < i {
                if out@.contains(x as usize) && !before.contains(x as usize) {
                    let k = choose|k: int| 0 <= k < out@.len() && out@[k] == x as usize;
                    assert(k == before.len());
                }
                if before.contains(x as usize) {
                    let k = choose|k: int| 0 <= k < before.len() && before[k] == x as usize;
                    assert(out@[k] == x as usize);
                }
            } else {
                if count < keep_from {
                    assert(out@[before.len() as int] == i);
                } else if out@.contains(x as usize) {
                    let k = choose|k: int| 0 <= k < out@.len() && out@[k] == x as usize;
                    assert(before[k] < i);
                }
            }
        }
        i = i + 1;
    }
    out
}

proof fn lemma_older_count_mono(times: Seq<u128>, i: int, j: int, m: int)
    requires
        0 <= i < times.len(),
        0 <= j < times.len(),
        older(times, i, j),
        m <= times.len(),
    ensures
        older_count(times, j, m) >= older_count(times, i, m) + if 0 <= i < m {
            1int
        } else {
            0int
        },
    decreases m,
{
    if m > 0 {
        lemma_older_count_mono(times, i, j, m - 1);
        let k = m - 1;
        if older(times, k, i) {
            assert(older(times, k, j));
        }
    }
}

/// Eviction removes the oldest entries: every removed entry is older (or,
/// at equal times, listed earlier) than every entry that stays; within the
/// capacity nothing is removed.
pub proof fn law_eviction_keeps_newest(times: Seq<u128>, cap: nat, i: int, j: int)
    requires
        0 <= i < times.len(),
        0 <= j < times.len(),
    ensures
        evicted(times, cap, i) && !evicted(times, cap, j) ==> older(times, i, j),
        times.len() <= cap ==> !evicted(times, cap, i),
{
    if evicted(times, cap, i) && !evicted(times, cap, j) && !older(times, i, j) {
        assert(i != j);
        assert(older(times, j, i));
        lemma_older_count_mono(times, j, i, times.len() as int);
    }
}

/// The sum of sizes.
pub open spec fn total(sizes: Seq<u64>) -> int
    decreases sizes.len(),
{
    if sizes.len() == 0 {
        0
    } else {
        total(sizes.drop_last()) + sizes.last()
    }
}

proof fn lemma_total_prefix(sizes: Seq<u64>, i: int)
    requires
        0 <= i <= sizes.len(),
    ensures
        0 <= total(sizes.take(i)) <= total(sizes),
    decreases sizes.len() - i,
{
    if i < sizes.len() {
        lemma_total_prefix(sizes, i + 1);
        assert(sizes.take(i + 1).drop_last() =~= sizes.take(i));
    } else {
        assert(sizes.take(i) =~= sizes);
    }
    lemma_total_nonneg(sizes.take(i));
}

proof fn lemma_total_nonneg(sizes: Seq<u64>)
    ensures
        total(sizes) >= 0,
    decreases sizes.len(),
{
    if sizes.len() > 0 {
        lemma_total_nonneg(sizes.drop_last());
    }
}

/// The count and total size of the entry files.
pub fn tally(sizes: &Vec<u64>) -> (s: Stats)
    requires
        total(sizes@) <= u64::MAX,
    ensures
        s.entries == sizes@.len(),
        s.bytes == total(sizes@),
{
    let n = sizes.len();
    let mut bytes: u64 = 0;
    let mut i: usize = 0;
    while i < n
        invariant
            n == sizes@.len(),
            i <= n,
            bytes == total(sizes@.take(i as int)),
            total(sizes@) <= u64::MAX,
        decreases n - i,
    {
        assert(sizes@.take(i + 1).drop_last() =~= sizes@.take(i as int));
        proof {
            lemma_total_prefix(sizes@, i + 1);
        }
        bytes = bytes + sizes[i];
        i = i + 1;
    }
    assert(sizes@.take(n as int) =~= sizes@);
    Stats { entries: n, bytes }
}

} // verus!
