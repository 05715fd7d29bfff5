use vstd::prelude::*;

use crate::frame::PacketData;

verus! {

/// Lexicographic order on texts from position `i` on, character by character; a proper
/// prefix comes first.
pub open spec fn less_from(a: Seq<char>, b: Seq<char>, i: int) -> bool
    decreases a.len() - i,
{
    if i < 0 || i >= a.len() {
        0 <= i < b.len()
    } else if i >= b.len() {
        false
    } else if a[i] != b[i] {
        a[i] < b[i]
    } else {
        less_from(a, b, i + 1)
    }
}

/// Lexicographic order on texts, the order of `str`'s comparison.
pub open spec fn text_less(a: Seq<char>, b: Seq<char>) -> bool {
    less_from(a, b, 0)
}

/// Keys strictly ascending, so each appears once.
pub open spec fn keys_sorted<V>(out: Seq<(String, V)>) -> bool {
    forall|i: int, j: int| 0 <= i < j < out.len() ==> text_less(#[trigger] out[i].0@, #[trigger] out[j].0@)
}

/// Number of times `a` occurs in `s`.
pub open spec fn occurrences(s: Seq<Seq<char>>, a: Seq<char>) -> nat
    decreases s.len(),
{
    if s.len() == 0 {
        0
    } else {
        occurrences(s.drop_last(), a) + if s.last() == a {
            1nat
        } else {
            0nat
        }
    }
}

/// `out` counts the keys of `keys`: one entry per distinct key, in ascending order, each with
/// the number of its occurrences.
pub open spec fn is_tally(out: Seq<(String, usize)>, keys: Seq<Seq<char>>) -> bool {
    &&& keys_sorted(out)
    &&& forall|i: int|
        0 <= i < out.len() ==> #[trigger] out[i].1 == occurrences(keys, out[i].0@) && out[i].1 > 0
    &&& forall|a: Seq<char>|
        #[trigger] occurrences(keys, a) > 0 ==> exists|i: int| 0 <= i < out.len() && out[i].0@ == a
}

proof fn lemma_less_irreflexive(a: Seq<char>, i: int)
    requires
        0 <= i,
    ensures
        !less_from(a, a, i),
    decreases a.len() - i,
{
    if i < a.len() {
        lemma_less_irreflexive(a, i + 1);
    }
}

proof fn lemma_less_transitive(a: Seq<char>, b: Seq<char>, c: Seq<char>, i: int)
    requires
        0 <= i,
        less_from(a, b, i),
        less_from(b, c, i),
    ensures
        less_from(a, c, i),
    decreases a.len() - i,
{
    if i < a.len() && i < b.len() && i < c.len() && a[i] == b[i] && b[i] == c[i] {
        lemma_less_transitive(a, b, c, i + 1);
    }
}

/// Lexicographic comparison: `Less`, `Equal` or `Greater` as -1, 0, 1.
fn compare_text(a: &str, b: &str) -> (r: i8)
    ensures
        r == 0 <==> a@ == b@,
        r < 0 <==> text_less(a@, b@),
        r > 0 <==> text_less(b@, a@),
{
    let la = a.unicode_len();
    let lb = b.unicode_len();
    let mut i: usize = 0;
    while i < la && i < lb
        invariant
            la == a@.len(),
            lb == b@.len(),
            i <= la,
            i <= lb,
            a@.subrange(0, i as int) =~= b@.subrange(0, i as int),
            text_less(a@, b@) == less_from(a@, b@, i as int),
            text_less(b@, a@) == less_from(b@, a@, i as int),
        decreases la - i,
    {
        let ca = a.get_char(i);
        let cb = b.get_char(i);
        if ca != cb {
            proof {
                assert(a@ != b@) by {
                    assert(a@[i as int] != b@[i as int]);
                }
            }
            if ca < cb {
                return -1;
            } else {
                return 1;
            }
        }
        proof {
            assert(a@.subrange(0, i + 1) =~= a@.subrange(0, i as int).push(ca));
            assert(b@.subrange(0, i + 1) =~= b@.subrange(0, i as int).push(cb));
        }
        i = i + 1;
    }
    if la < lb {
        -1
    } else if lb < la {
        1
    } else {
        proof {
            assert(a@ =~= a@.subrange(0, i as int));
            assert(b@ =~= b@.subrange(0, i as int));
        }
        0
    }
}

/// Position of `key` among sorted entries: `(p, true)` where entry `p` holds it, else
/// `(p, false)` with every entry before `p` below the key and every entry from `p` on above.
fn locate<V>(out: &Vec<(String, V)>, key: &str) -> (r: (usize, bool))
    requires
        keys_sorted(out@),
    ensures
        r.0 <= out@.len(),
        r.1 ==> r.0 < out@.len() && out@[r.0 as int].0@ == key@,
        !r.1 ==> forall|i: int| 0 <= i < r.0 ==> text_less(#[trigger] out@[i].0@, key@),
        !r.1 ==> forall|i: int| r.0 <= i < out@.len() ==> text_less(key@, #[trigger] out@[i].0@),
{
    let mut p: usize = 0;
    while p < out.len()
        invariant
            p <= out@.len(),
            keys_sorted(out@),
            forall|i: int| 0 <= i < p ==> text_less(#[trigger] out@[i].0@, key@),
        decreases out@.len() - p,
    {
        let c = compare_text(out[p].0.as_str(), key);
        if c == 0 {
            return (p, true);
        } else if c > 0 {
            proof {
                assert forall|i: int| p <= i < out@.len() implies text_less(key@, #[trigger] out@[i].0@) by {
                    if i > p {
                        lemma_less_transitive(key@, out@[p as int].0@, out@[i].0@, 0);
                    }
                }
            }
            return (p, false);
        }
        p = p + 1;
    }
    (p, false)
}

proof fn lemma_occurrences_bound(s: Seq<Seq<char>>, a: Seq<char>)
    ensures
        occurrences(s, a) <= s.len(),
    decreases s.len(),
{
    if s.len() > 0 {
        lemma_occurrences_bound(s.drop_last(), a);
    }
}

proof fn lemma_occurrences_push(s: Seq<Seq<char>>, k: Seq<char>, a: Seq<char>)
    ensures
        occurrences(s.push(k), a) == occurrences(s, a) + if k == a {
            1nat
        } else {
            0nat
        },
{
    assert(s.push(k).drop_last() =~= s);
}

/// Counts one more occurrence of `key`.
fn tally_add(out: &mut Vec<(String, usize)>, key: &String, Ghost(keys): Ghost<Seq<Seq<char>>>)
    requires
        is_tally(old(out)@, keys),
        keys.len() < usize::MAX,
    ensures
        is_tally(final(out)@, keys.push(key@)),
{
    let ghost old_out = out@;
    let ghost new_keys = keys.push(key@);
    proof {
        lemma_occurrences_push(keys, key@, key@);
        lemma_occurrences_bound(keys, key@);
    }
    let (p, found) = locate(out, key.as_str());
    if found {
        let n = out[p].1;
        out[p].1 = n + 1;
        proof {
            assert forall|i: int| 0 <= i < out@.len() implies #[trigger] out@[i].1 == occurrences(
                new_keys,
                out@[i].0@,
            ) && out@[i].1 > 0 by {
                lemma_occurrences_push(keys, key@, out@[i].0@);
                if i != p {
                    lemma_less_irreflexive(key@, 0);
                    if i < p {
                        assert(text_less(out@[i].0@, out@[p as int].0@));
                    } else {
                        assert(text_less(out@[p as int].0@, out@[i].0@));
                    }
                }
            }
            assert forall|a: Seq<char>| #[trigger] occurrences(new_keys, a) > 0 implies exists|i: int|
                0 <= i < out@.len() && out@[i].0@ == a by {
                lemma_occurrences_push(keys, key@, a);
                if a != key@ {
                    let i = choose|i: int| 0 <= i < old_out.len() && old_out[i].0@ == a;
                    assert(out@[i].0@ == a);
                } else {
                    assert(out@[p as int].0@ == a);
                }
            }
        }
    } else {
        proof {
            assert forall|i: int| 0 <= i < old_out.len() implies old_out[i].0@ != key@ by {
                lemma_less_irreflexive(key@, 0);
            }
            if occurrences(keys, key@) > 0 {
                let i = choose|i: int| 0 <= i < old_out.len() && old_out[i].0@ == key@;
                assert(false);
            }
        }
        out.insert(p, (key.clone(), 1));
        proof {
            assert forall|i: int, j: int| 0 <= i < j < out@.len() implies text_less(
                #[trigger] out@[i].0@,
                #[trigger] out@[j].0@,
            ) by {
                if j < p {
                } else if j == p {
                } else if i < p {
                    assert(out@[j].0@ == old_out[j - 1].0@);
                } else if i == p {
                    assert(out@[j].0@ == old_out[j - 1].0@);
                } else {
                    assert(out@[j].0@ == old_out[j - 1].0@);
                    assert(out@[i].0@ == old_out[i - 1].0@);
                }
            }
            assert forall|i: int| 0 <= i < out@.len() implies #[trigger] out@[i].1 == occurrences(
                new_keys,
                out@[i].0@,
            ) && out@[i].1 > 0 by {
                lemma_occurrences_push(keys, key@, out@[i].0@);
                if i < p {
                    assert(old_out[i].0@ != key@);
                } else if i > p {
                    assert(out@[i] == old_out[i - 1]);
                    assert(old_out[i - 1].0@ != key@);
                }
            }
            assert forall|a: Seq<char>| #[trigger] occurrences(new_keys, a) > 0 implies exists|i: int|
                0 <= i < out@.len() && out@[i].0@ == a by {
                lemma_occurrences_push(keys, key@, a);
                if a != key@ {
                    let i = choose|i: int| 0 <= i < old_out.len() && old_out[i].0@ == a;
                    if i < p {
                        assert(out@[i].0@ == a);
                    } else {
                        assert(out@[i + 1].0@ == a);
                    }
                } else {
                    assert(out@[p as int].0@ == a);
                }
            }
        }
    }
}

/// Distinct keys in ascending order, each with the number of its occurrences.
pub fn count_sorted(keys: &Vec<String>) -> (r: Vec<(String, usize)>)
    ensures
        is_tally(r@, keys@.map_values(|k: String| k@)),
{
    let ghost all = keys@.map_values(|k: String| k@);
    let mut out: Vec<(String, usize)> = Vec::new();
    let mut i: usize = 0;
    proof {
        assert(all.take(0) =~= Seq::<Seq<char>>::empty());
    }
    while i < keys.len()
        invariant
            i <= keys@.len(),
            all == keys@.map_values(|k: String| k@),
            is_tally(out@, all.take(i as int)),
        decreases keys@.len() - i,
    {
        proof {
            assert(all.take(i + 1) =~= all.take(i as int).push(keys@[i as int]@));
        }
        tally_add(&mut out, &keys[i], Ghost(all.take(i as int)));
        i = i + 1;
    }
    proof {
        assert(all.take(i as int) =~= all);
    }
    out
}

/// Traffic of one address: rows that name it as source, and as destination.
pub struct IpStats {
    pub source_count: usize,
    pub destination_count: usize,
}

/// Which field of a row a key is read from.
#[derive(Clone, Copy)]
pub enum RowKey {
    Source,
    Destination,
    Protocol,
    Bucket,
}

/// Key of a row.
pub open spec fn row_key(d: PacketData, k: RowKey) -> Seq<char> {
    match k {
        RowKey::Source => d.source@,
        RowKey::Destination => d.destination@,
        RowKey::Protocol => protocol_key(d),
        RowKey::Bucket => bucket_of(d.timestamp@),
    }
}

/// Keys of the rows, in order.
pub open spec fn keys_of(rows: Seq<PacketData>, k: RowKey) -> Seq<Seq<char>> {
    rows.map_values(|d: PacketData| row_key(d, k))
}

/// Source addresses of the rows, in order.
pub open spec fn sources(rows: Seq<PacketData>) -> Seq<Seq<char>> {
    keys_of(rows, RowKey::Source)
}

/// Destination addresses of the rows, in order.
pub open spec fn destinations(rows: Seq<PacketData>) -> Seq<Seq<char>> {
    keys_of(rows, RowKey::Destination)
}

/// The keys of the rows.
pub fn row_keys(rows: &Vec<PacketData>, k: RowKey) -> (r: Vec<String>)
    ensures
        r@.map_values(|s: String| s@) == keys_of(rows@, k),
{
    let mut keys: Vec<String> = Vec::new();
    let mut i: usize = 0;
    while i < rows.len()
        invariant
            i <= rows@.len(),
            keys@.len() == i,
            forall|j: int| 0 <= j < i ==> (#[trigger] keys@[j])@ == row_key(rows@[j], k),
        decreases rows@.len() - i,
    {
        let key = match k {
            RowKey::Source => rows[i].source.clone(),
            RowKey::Destination => rows[i].destination.clone(),
            RowKey::Protocol => match &rows[i].protocol {
                Some(p) => p.clone(),
                None => String::from_str("Unknown Protocol"),
            },
            RowKey::Bucket => time_bucket(rows[i].timestamp.as_str()),
        };
        keys.push(key);
        i = i + 1;
    }
    proof {
        assert(keys@.map_values(|s: String| s@) =~= keys_of(rows@, k));
    }
    keys
}

/// `out` holds one entry per address that occurs as source or destination, in ascending
/// order, with the number of times it occurs as each.
pub open spec fn is_ip_tally(
    out: Seq<(String, IpStats)>,
    srcs: Seq<Seq<char>>,
    dsts: Seq<Seq<char>>,
) -> bool {
    &&& keys_sorted(out)
    &&& forall|i: int|
        0 <= i < out.len() ==> {
            &&& (#[trigger] out[i]).1.source_count == occurrences(srcs, out[i].0@)
            &&& out[i].1.destination_count == occurrences(dsts, out[i].0@)
            &&& out[i].1.source_count + out[i].1.destination_count > 0
        }
    &&& forall|a: Seq<char>|
        #[trigger] occurrences(srcs, a) > 0 ==> exists|i: int| 0 <= i < out.len() && out[i].0@ == a
    &&& forall|a: Seq<char>|
        #[trigger] occurrences(dsts, a) > 0 ==> exists|i: int| 0 <= i < out.len() && out[i].0@ == a
}

proof fn lemma_occurrences_concat(s: Seq<Seq<char>>, t: Seq<Seq<char>>, a: Seq<char>)
    ensures
        occurrences(s + t, a) == occurrences(s, a) + occurrences(t, a),
    decreases t.len(),
{
    if t.len() > 0 {
        assert((s + t).drop_last() =~= s + t.drop_last());
        lemma_occurrences_concat(s, t.drop_last(), a);
    }
}

/// Number of occurrences of `key`, read from a tally.
fn count_in(tally: &Vec<(String, usize)>, key: &String, Ghost(keys): Ghost<Seq<Seq<char>>>) -> (r: usize)
    requires
        is_tally(tally@, keys),
    ensures
        r == occurrences(keys, key@),
{
    let (p, found) = locate(tally, key.as_str());
    if found {
        tally[p].1
    } else {
        proof {
            if occurrences(keys, key@) > 0 {
                let i = choose|i: int| 0 <= i < tally@.len() && tally@[i].0@ == key@;
                lemma_less_irreflexive(key@, 0);
            }
        }
        0
    }
}

/// Per-address traffic of the rows: for every address, how many rows name it as source
/// and how many as destination. An address seen only one way has 0 for the other.
pub fn ip_stats(rows: &Vec<PacketData>) -> (r: Vec<(String, IpStats)>)
    ensures
        is_ip_tally(r@, sources(rows@), destinations(rows@)),
{
    let ghost srcs = sources(rows@);
    let ghost dsts = destinations(rows@);
    let mut both = row_keys(rows, RowKey::Source);
    let mut to = row_keys(rows, RowKey::Destination);
    let from_tally = count_sorted(&both);
    let to_tally = count_sorted(&to);
    both.append(&mut to);
    let ghost all = both@.map_values(|s: String| s@);
    proof {
        assert(all =~= srcs + dsts);
    }
    let addrs = distinct_values(&both);
    let mut out: Vec<(String, IpStats)> = Vec::new();
    let mut i: usize = 0;
    while i < addrs.len()
        invariant
            i <= addrs@.len(),
            is_tally(from_tally@, srcs),
            is_tally(to_tally@, dsts),
            is_distinct_of(addrs@, srcs + dsts),
            out@.len() == i,
            forall|k: int|
                0 <= k < i ==> {
                    &&& (#[trigger] out@[k]).0@ == addrs@[k]@
                    &&& out@[k].1.source_count == occurrences(srcs, addrs@[k]@)
                    &&& out@[k].1.destination_count == occurrences(dsts, addrs@[k]@)
                },
        decreases addrs@.len() - i,
    {
        let stats = IpStats {
            source_count: count_in(&from_tally, &addrs[i], Ghost(srcs)),
            destination_count: count_in(&to_tally, &addrs[i], Ghost(dsts)),
        };
        out.push((addrs[i].clone(), stats));
        i = i + 1;
    }
    proof {
        assert forall|k: int, j: int| 0 <= k < j < out@.len() implies text_less(
            #[trigger] out@[k].0@,
            #[trigger] out@[j].0@,
        ) by {
            assert(text_less(addrs@[k]@, addrs@[j]@));
        }
        assert forall|k: int| 0 <= k < out@.len() implies {
            &&& (#[trigger] out@[k]).1.source_count == occurrences(srcs, out@[k].0@)
            &&& out@[k].1.destination_count == occurrences(dsts, out@[k].0@)
            &&& out@[k].1.source_count + out@[k].1.destination_count > 0
        } by {
            assert(occurrences(srcs + dsts, addrs@[k]@) > 0);
            lemma_occurrences_concat(srcs, dsts, addrs@[k]@);
        }
        assert forall|a: Seq<char>| #[trigger] occurrences(srcs, a) > 0 implies exists|k: int|
            0 <= k < out@.len() && out@[k].0@ == a by {
            lemma_occurrences_concat(srcs, dsts, a);
            assert(occurrences(srcs + dsts, a) > 0);
            let k = choose|k: int| 0 <= k < addrs@.len() && addrs@[k]@ == a;
            assert(out@[k].0@ == a);
        }
        assert forall|a: Seq<char>| #[trigger] occurrences(dsts, a) > 0 implies exists|k: int|
            0 <= k < out@.len() && out@[k].0@ == a by {
            lemma_occurrences_concat(srcs, dsts, a);
            assert(occurrences(srcs + dsts, a) > 0);
            let k = choose|k: int| 0 <= k < addrs@.len() && addrs@[k]@ == a;
            assert(out@[k].0@ == a);
        }
    }
    out
}

/// Position of the first `c` in `s` at or after `i`; the length of `s` where there is none.
pub open spec fn index_from(s: Seq<char>, c: char, i: int) -> int
    decreases s.len() - i,
{
    if i < 0 || i >= s.len() {
        s.len() as int
    } else if s[i] == c {
        i
    } else {
        index_from(s, c, i + 1)
    }
}

/// Position of the first `c` in `s`; the length of `s` where there is none.
pub open spec fn first_index(s: Seq<char>, c: char) -> int {
    index_from(s, c, 0)
}

/// Time-of-day part of an RFC 3339 timestamp: what lies between the first `T` and the next
/// one, or the whole text where it holds no `T`.
pub open spec fn time_of(ts: Seq<char>) -> Seq<char> {
    let t = first_index(ts, 'T');
    if t < ts.len() {
        let rest = ts.subrange(t + 1, ts.len() as int);
        rest.subrange(0, first_index(rest, 'T'))
    } else {
        ts
    }
}

/// A character that ends the `HH:MM:SS` part of a time of day: the start of the fraction
/// of a second or of the offset.
pub open spec fn ends_clock(c: char) -> bool {
    c == '.' || c == '+' || c == '-' || c == 'Z' || c == 'z'
}

/// Position of the first character at or after `i` that ends the clock part; the length of
/// `s` where there is none.
pub open spec fn clock_end_from(s: Seq<char>, i: int) -> int
    decreases s.len() - i,
{
    if i < 0 || i >= s.len() {
        s.len() as int
    } else if ends_clock(s[i]) {
        i
    } else {
        clock_end_from(s, i + 1)
    }
}

/// Per-second bucket of a timestamp: its time of day cut before the fraction of a second
/// and the offset, so `2024-05-01T10:00:00.900+00:00` and `2024-05-02T10:00:00Z` both fall
/// in `10:00:00`. The date takes no part.
pub open spec fn bucket_of(ts: Seq<char>) -> Seq<char> {
    let t = time_of(ts);
    t.subrange(0, clock_end_from(t, 0))
}

fn find_char(s: &str, c: char) -> (r: usize)
    ensures
        r == first_index(s@, c),
        r <= s@.len(),
{
    let n = s.unicode_len();
    let mut i: usize = 0;
    while i < n
        invariant
            n == s@.len(),
            i <= n,
            index_from(s@, c, i as int) == first_index(s@, c),
        decreases n - i,
    {
        if s.get_char(i) == c {
            return i;
        }
        i = i + 1;
    }
    i
}

fn find_clock_end(s: &str) -> (r: usize)
    ensures
        r == clock_end_from(s@, 0),
        r <= s@.len(),
{
    let n = s.unicode_len();
    let mut i: usize = 0;
    while i < n
        invariant
            n == s@.len(),
            i <= n,
            clock_end_from(s@, i as int) == clock_end_from(s@, 0),
        decreases n - i,
    {
        let c = s.get_char(i);
        if c == '.' || c == '+' || c == '-' || c == 'Z' || c == 'z' {
            return i;
        }
        i = i + 1;
    }
    i
}

/// Per-second bucket of a timestamp (see `bucket_of`).
pub fn time_bucket(ts: &str) -> (r: String)
    ensures
        r@ == bucket_of(ts@),
{
    let t = find_char(ts, 'T');
    let n = ts.unicode_len();
    let part: &str = if t < n {
        let rest = ts.substring_char(t + 1, n);
        let e = find_char(rest, 'T');
        rest.substring_char(0, e)
    } else {
        ts
    };
    let d = find_clock_end(part);
    String::from_str(part.substring_char(0, d))
}

proof fn lemma_index_from_is(s: Seq<char>, c: char, i: int, j: int)
    requires
        0 <= i <= j <= s.len(),
        forall|k: int| i <= k < j ==> s[k] != c,
        j < s.len() ==> s[j] == c,
    ensures
        index_from(s, c, i) == j,
    decreases j - i,
{
    if i < j {
        lemma_index_from_is(s, c, i + 1, j);
    }
}

proof fn lemma_clock_end_from_is(s: Seq<char>, i: int, j: int)
    requires
        0 <= i <= j <= s.len(),
        forall|k: int| i <= k < j ==> !ends_clock(s[k]),
        j < s.len() ==> ends_clock(s[j]),
    ensures
        clock_end_from(s, i) == j,
    decreases j - i,
{
    if i < j {
        lemma_clock_end_from_is(s, i + 1, j);
    }
}

/// The bucket of an RFC 3339 timestamp `date T clock rest` is its `HH:MM:SS` clock, whatever
/// the date and whether or not a fraction of a second or an offset follows.
pub proof fn lemma_bucket_is_clock(date: Seq<char>, clock: Seq<char>, rest: Seq<char>)
    requires
        forall|k: int| 0 <= k < date.len() ==> date[k] != 'T',
        forall|k: int| 0 <= k < clock.len() ==> ('0' <= #[trigger] clock[k] && clock[k] <= '9') || clock[k] == ':',
        forall|k: int| 0 <= k < rest.len() ==> rest[k] != 'T',
        rest.len() > 0 ==> ends_clock(rest[0]),
    ensures
        bucket_of(date + seq!['T'] + clock + rest) == clock,
{
    let ts = date + seq!['T'] + clock + rest;
    let d = date.len() as int;
    assert forall|k: int| 0 <= k < d implies ts[k] != 'T' by {
        assert(ts[k] == date[k]);
    }
    lemma_index_from_is(ts, 'T', 0, d);
    let after = ts.subrange(d + 1, ts.len() as int);
    assert(after =~= clock + rest);
    assert forall|k: int| 0 <= k < after.len() implies after[k] != 'T' by {
        if k < clock.len() {
            assert(after[k] == clock[k]);
        } else {
            assert(after[k] == rest[k - clock.len()]);
        }
    }
    lemma_index_from_is(after, 'T', 0, after.len() as int);
    assert(after.subrange(0, after.len() as int) =~= after);
    assert forall|k: int| 0 <= k < clock.len() implies !ends_clock(after[k]) by {
        assert(after[k] == clock[k]);
    }
    if rest.len() > 0 {
        assert(after[clock.len() as int] == rest[0]);
    }
    lemma_clock_end_from_is(after, 0, clock.len() as int);
    assert(after.subrange(0, clock.len() as int) =~= clock);
}

/// Per-second buckets of the rows' timestamps.
pub open spec fn buckets(rows: Seq<PacketData>) -> Seq<Seq<char>> {
    keys_of(rows, RowKey::Bucket)
}

/// Rows per second of time of day, ascending by `HH:MM:SS`.
pub fn packets_per_second(rows: &Vec<PacketData>) -> (r: Vec<(String, usize)>)
    ensures
        is_tally(r@, buckets(rows@)),
        total(r@) == rows@.len(),
{
    let r = count_sorted(&row_keys(rows, RowKey::Bucket));
    proof {
        lemma_tally_total(r@, buckets(rows@));
    }
    r
}

/// Label under which a row is counted: its protocol, "Unknown Protocol" where it has none.
pub open spec fn protocol_key(d: PacketData) -> Seq<char> {
    match d.protocol {
        Some(p) => p@,
        None => "Unknown Protocol"@,
    }
}

/// Protocol labels of the rows.
pub open spec fn protocol_keys(rows: Seq<PacketData>) -> Seq<Seq<char>> {
    keys_of(rows, RowKey::Protocol)
}

/// Rows per protocol label, ascending by label.
pub fn protocol_histogram(rows: &Vec<PacketData>) -> (r: Vec<(String, usize)>)
    ensures
        is_tally(r@, protocol_keys(rows@)),
        total(r@) == rows@.len(),
{
    let r = count_sorted(&row_keys(rows, RowKey::Protocol));
    proof {
        lemma_tally_total(r@, protocol_keys(rows@));
    }
    r
}

/// `out` lists each key of `keys` once, in ascending order.
pub open spec fn is_distinct_of(out: Seq<String>, keys: Seq<Seq<char>>) -> bool {
    &&& forall|i: int, j: int| 0 <= i < j < out.len() ==> text_less(#[trigger] out[i]@, #[trigger] out[j]@)
    &&& forall|i: int| 0 <= i < out.len() ==> occurrences(keys, (#[trigger] out[i])@) > 0
    &&& forall|a: Seq<char>|
        #[trigger] occurrences(keys, a) > 0 ==> exists|i: int| 0 <= i < out.len() && out[i]@ == a
}

/// The distinct keys, in ascending order.
pub fn distinct_values(keys: &Vec<String>) -> (r: Vec<String>)
    ensures
        is_distinct_of(r@, keys@.map_values(|k: String| k@)),
{
    let ghost all = keys@.map_values(|k: String| k@);
    let mut counted = count_sorted(keys);
    let ghost tally = counted@;
    let mut out: Vec<String> = Vec::new();
    let n = counted.len();
    let mut i: usize = 0;
    while i < n
        invariant
            n == counted@.len(),
            n == tally.len(),
            i <= n,
            is_tally(tally, all),
            forall|k: int| i <= k < n ==> (#[trigger] counted@[k]).0@ == tally[k].0@,
            out@.len() == i,
            forall|k: int| 0 <= k < i ==> (#[trigger] out@[k])@ == tally[k].0@,
        decreases n - i,
    {
        let mut key = String::new();
        std::mem::swap(&mut key, &mut counted[i].0);
        out.push(key);
        i = i + 1;
    }
    proof {
        assert forall|a: Seq<char>| #[trigger] occurrences(all, a) > 0 implies exists|i: int|
            0 <= i < out@.len() && out@[i]@ == a by {
            let i = choose|i: int| 0 <= i < tally.len() && tally[i].0@ == a;
            assert(out@[i]@ == a);
        }
        assert forall|i: int| 0 <= i < out@.len() implies occurrences(all, (#[trigger] out@[i])@) > 0 by {
            assert(tally[i].1 == occurrences(all, tally[i].0@));
        }
        assert forall|i: int, j: int| 0 <= i < j < out@.len() implies text_less(
            #[trigger] out@[i]@,
            #[trigger] out@[j]@,
        ) by {
            assert(text_less(tally[i].0@, tally[j].0@));
        }
    }
    out
}

/// Distinct source addresses of the rows, ascending.
pub fn distinct_sources(rows: &Vec<PacketData>) -> (r: Vec<String>)
    ensures
        is_distinct_of(r@, sources(rows@)),
{
    distinct_values(&row_keys(rows, RowKey::Source))
}

/// Distinct destination addresses of the rows, ascending.
pub fn distinct_destinations(rows: &Vec<PacketData>) -> (r: Vec<String>)
    ensures
        is_distinct_of(r@, destinations(rows@)),
{
    distinct_values(&row_keys(rows, RowKey::Destination))
}

/// Distinct protocol labels of the rows, ascending ("Unknown Protocol" for rows without one).
pub fn distinct_protocols(rows: &Vec<PacketData>) -> (r: Vec<String>)
    ensures
        is_distinct_of(r@, protocol_keys(rows@)),
{
    distinct_values(&row_keys(rows, RowKey::Protocol))
}

/// Sum of the counts of a tally.
pub open spec fn total(out: Seq<(String, usize)>) -> nat
    decreases out.len(),
{
    if out.len() == 0 {
        0
    } else {
        total(out.drop_last()) + out.last().1 as nat
    }
}

/// Sum, over the keys `ks`, of their occurrences in `s`.
spec fn occurrences_of_all(ks: Seq<Seq<char>>, s: Seq<Seq<char>>) -> nat
    decreases ks.len(),
{
    if ks.len() == 0 {
        0
    } else {
        occurrences_of_all(ks.drop_last(), s) + occurrences(s, ks.last())
    }
}

proof fn lemma_occurrences_of_all_push(ks: Seq<Seq<char>>, s: Seq<Seq<char>>, x: Seq<char>)
    ensures
        occurrences_of_all(ks, s.push(x)) == occurrences_of_all(ks, s) + occurrences(ks, x),
    decreases ks.len(),
{
    if ks.len() > 0 {
        lemma_occurrences_of_all_push(ks.drop_last(), s, x);
        lemma_occurrences_push(s, x, ks.last());
    }
}

proof fn lemma_distinct_occurs_once(ks: Seq<Seq<char>>, x: Seq<char>, i: int)
    requires
        forall|a: int, b: int| 0 <= a < b < ks.len() ==> ks[a] != ks[b],
        0 <= i < ks.len(),
        ks[i] == x,
    ensures
        occurrences(ks, x) == 1,
    decreases ks.len(),
{
    let rest = ks.drop_last();
    if i == ks.len() - 1 {
        assert forall|j: int| 0 <= j < rest.len() implies rest[j] != x by {
            assert(ks[j] != ks[i]);
        }
        lemma_absent_occurs_never(rest, x);
    } else {
        lemma_distinct_occurs_once(rest, x, i);
    }
}

proof fn lemma_absent_occurs_never(ks: Seq<Seq<char>>, x: Seq<char>)
    requires
        forall|j: int| 0 <= j < ks.len() ==> ks[j] != x,
    ensures
        occurrences(ks, x) == 0,
    decreases ks.len(),
{
    if ks.len() > 0 {
        lemma_absent_occurs_never(ks.drop_last(), x);
    }
}

proof fn lemma_cover_total(ks: Seq<Seq<char>>, s: Seq<Seq<char>>)
    requires
        forall|a: int, b: int| 0 <= a < b < ks.len() ==> ks[a] != ks[b],
        forall|a: Seq<char>| #[trigger] occurrences(s, a) > 0 ==> exists|i: int| 0 <= i < ks.len() && ks[i] == a,
    ensures
        occurrences_of_all(ks, s) == s.len(),
    decreases s.len(),
{
    if s.len() == 0 {
        lemma_occurrences_of_all_zero(ks, s);
    } else {
        let rest = s.drop_last();
        let x = s.last();
        assert(rest.push(x) =~= s);
        assert forall|a: Seq<char>| #[trigger] occurrences(rest, a) > 0 implies exists|i: int|
            0 <= i < ks.len() && ks[i] == a by {
            lemma_occurrences_push(rest, x, a);
        }
        lemma_cover_total(ks, rest);
        lemma_occurrences_of_all_push(ks, rest, x);
        lemma_occurrences_push(rest, x, x);
        let i = choose|i: int| 0 <= i < ks.len() && ks[i] == x;
        lemma_distinct_occurs_once(ks, x, i);
    }
}

proof fn lemma_occurrences_of_all_zero(ks: Seq<Seq<char>>, s: Seq<Seq<char>>)
    requires
        s.len() == 0,
    ensures
        occurrences_of_all(ks, s) == 0,
    decreases ks.len(),
{
    if ks.len() > 0 {
        lemma_occurrences_of_all_zero(ks.drop_last(), s);
    }
}

proof fn lemma_total_is_occurrences(out: Seq<(String, usize)>, keys: Seq<Seq<char>>)
    requires
        forall|i: int| 0 <= i < out.len() ==> #[trigger] out[i].1 == occurrences(keys, out[i].0@),
    ensures
        total(out) == occurrences_of_all(out.map_values(|e: (String, usize)| e.0@), keys),
    decreases out.len(),
{
    let ks = out.map_values(|e: (String, usize)| e.0@);
    if out.len() > 0 {
        let rest = out.drop_last();
        assert(rest.map_values(|e: (String, usize)| e.0@) =~= ks.drop_last());
        assert forall|i: int| 0 <= i < rest.len() implies #[trigger] rest[i].1 == occurrences(keys, rest[i].0@) by {
            assert(rest[i] == out[i]);
        }
        lemma_total_is_occurrences(rest, keys);
        assert(out[out.len() - 1].1 == occurrences(keys, out[out.len() - 1].0@));
    }
}

/// The counts of a tally add up to the number of keys counted: every row falls in exactly
/// one per-second bucket and under exactly one protocol label.
pub proof fn lemma_tally_total(out: Seq<(String, usize)>, keys: Seq<Seq<char>>)
    requires
        is_tally(out, keys),
    ensures
        total(out) == keys.len(),
{
    let ks = out.map_values(|e: (String, usize)| e.0@);
    assert forall|a: int, b: int| 0 <= a < b < ks.len() implies ks[a] != ks[b] by {
        assert(text_less(out[a].0@, out[b].0@));
        lemma_less_irreflexive(out[a].0@, 0);
    }
    assert forall|a: Seq<char>| #[trigger] occurrences(keys, a) > 0 implies exists|i: int|
        0 <= i < ks.len() && ks[i] == a by {
        let i = choose|i: int| 0 <= i < out.len() && out[i].0@ == a;
        assert(ks[i] == a);
    }
    lemma_cover_total(ks, keys);
    lemma_total_is_occurrences(out, keys);
}

} // verus!
