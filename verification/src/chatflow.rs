//! Chat "flows": streaks of messages in one room by one user where no gap
//! between consecutive messages exceeds five minutes, and the statistics
//! the dashboard shows of their lengths.

use vstd::prelude::*;

use crate::text::owned;

verus! {

/// Gap, in milliseconds, after which a new flow starts.
pub const FLOW_GAP_MS: i64 = 300_000;

/// The running state of the segmentation: the current user-and-room key,
/// the current flow's first and last times and message count, and the
/// flows closed so far as `(seconds, messages)`.
pub struct FlowScan {
    pub key: Seq<char>,
    pub start: Option<int>,
    pub last: Option<int>,
    pub count: int,
    pub flows: Seq<(int, int)>,
}

/// Whole seconds from `s` to `l` (milliseconds); never negative.
pub open spec fn flow_seconds(s: int, l: int) -> int {
    if l - s >= 0 {
        (l - s) / 1000
    } else {
        0
    }
}

/// The closed flows after closing the current one (if it has messages).
pub open spec fn closed(st: FlowScan) -> Seq<(int, int)> {
    if st.start is Some && st.last is Some && st.count > 0 {
        st.flows.push((flow_seconds(st.start->0, st.last->0), st.count))
    } else {
        st.flows
    }
}

/// The key of a message: its user, `|`, its room.
pub open spec fn flow_key(user: Seq<char>, room: Seq<char>) -> Seq<char> {
    user + "|"@ + room
}

/// One message: a new key, or a gap over five minutes, closes the current
/// flow and starts another; otherwise the message extends it.
pub open spec fn flow_step(st: FlowScan, key: Seq<char>, ts: int) -> FlowScan {
    if key != st.key {
        FlowScan { key, start: Some(ts), last: Some(ts), count: 1, flows: closed(st) }
    } else {
        let prev = match st.last {
            Some(p) => p,
            None => ts,
        };
        if ts - prev > FLOW_GAP_MS {
            FlowScan { key: st.key, start: Some(ts), last: Some(ts), count: 1, flows: closed(st) }
        } else {
            FlowScan { key: st.key, start: st.start, last: Some(ts), count: st.count + 1, flows: st.flows }
        }
    }
}

/// The state after the first `n` messages `(user, room, time in ms)`.
pub open spec fn flow_run(rows: Seq<(String, String, i64)>, n: int) -> FlowScan
    decreases n,
{
    if n <= 0 || n > rows.len() {
        FlowScan { key: Seq::empty(), start: None, last: None, count: 0, flows: Seq::empty() }
    } else {
        flow_step(
            flow_run(rows, n - 1),
            flow_key(rows[n - 1].0@, rows[n - 1].1@),
            rows[n - 1].2 as int,
        )
    }
}

/// The flows of messages ordered by user, room and time.
pub open spec fn flows_of(rows: Seq<(String, String, i64)>) -> Seq<(int, int)> {
    closed(flow_run(rows, rows.len() as int))
}

pub open spec fn flow_view(v: Seq<(i64, i64)>) -> Seq<(int, int)> {
    v.map_values(|f: (i64, i64)| (f.0 as int, f.1 as int))
}

/// Cuts messages `(user, room, time in ms)`, ordered by user, room and
/// time, into flows `(whole seconds from first to last message, messages)`.
pub fn chat_flows(rows: &Vec<(String, String, i64)>) -> (r: Vec<(i64, i64)>)
    requires
        rows@.len() <= i64::MAX,
    ensures
        flow_view(r@) == flows_of(rows@),
{
    let mut flows: Vec<(i64, i64)> = Vec::new();
    let mut key = String::new();
    let mut start: Option<i64> = None;
    let mut last: Option<i64> = None;
    let mut count: i64 = 0;
    let mut i: usize = 0;
    while i < rows.len()
        invariant
            i <= rows@.len(),
            ({
                let st = flow_run(rows@, i as int);
                &&& st.key == key@
                &&& st.start == (match start {
                    Some(s) => Some(s as int),
                    None => None::<int>,
                })
                &&& st.last == (match last {
                    Some(s) => Some(s as int),
                    None => None::<int>,
                })
                &&& st.count == count as int
                &&& st.flows == flow_view(flows@)
            }),
            rows@.len() <= i64::MAX,
            0 <= count <= i,
            start is Some <==> last is Some,
            start is None ==> key@.len() == 0,
            start is Some ==> count >= 1,
        decreases rows.len() - i,
    {
        let mut k = owned(rows[i].0.as_str());
        k.append("|");
        k.append(rows[i].1.as_str());
        let ts = rows[i].2;
        let ghost st = flow_run(rows@, i as int);
        proof {
            reveal_strlit("|");
        }
        assert(k@.len() >= 1);
        let same = crate::text::str_eq(k.as_str(), key.as_str());
        let long_gap = match last {
            Some(p) => (ts as i128) - (p as i128) > FLOW_GAP_MS as i128,
            None => false,
        };
        if !same || long_gap {
            match (start, last) {
                (Some(s), Some(l)) => {
                    if count > 0 {
                        let d: i128 = (l as i128) - (s as i128);
                        let secs: i64 = if d >= 0 {
                            (d / 1000) as i64
                        } else {
                            0
                        };
                        flows.push((secs, count));
                        assert(flow_view(flows@) =~= st.flows.push(
                            (flow_seconds(s as int, l as int), count as int),
                        ));
                    }
                },
                _ => {},
            }
            if !same {
                key = k;
            }
            start = Some(ts);
            last = Some(ts);
            count = 1;
        } else {
            last = Some(ts);
            count = count + 1;
        }
        i = i + 1;
    }
    let ghost st = flow_run(rows@, i as int);
    match (start, last) {
        (Some(s), Some(l)) => {
            if count > 0 {
                let d: i128 = (l as i128) - (s as i128);
                let secs: i64 = if d >= 0 {
                    (d / 1000) as i64
                } else {
                    0
                };
                flows.push((secs, count));
                assert(flow_view(flows@) =~= st.flows.push(
                    (flow_seconds(s as int, l as int), count as int),
                ));
            }
        },
        _ => {},
    }
    flows
}

// ---------------------------------------------------------------------------
// Statistics
// ---------------------------------------------------------------------------

/// Whether `s` is in ascending order.
pub open spec fn ascending(s: Seq<i64>) -> bool {
    forall|p: int, q: int| 0 <= p <= q < s.len() ==> s[p] <= s[q]
}

proof fn lemma_insert_multiset(s: Seq<i64>, pos: int, e: i64)
    requires
        0 <= pos <= s.len(),
    ensures
        s.insert(pos, e).to_multiset() =~= s.to_multiset().insert(e),
{
    broadcast use vstd::multiset::group_multiset_axioms;

    let a = s.subrange(0, pos);
    let b = s.subrange(pos, s.len() as int);
    assert(s =~= a + b);
    vstd::seq_lib::lemma_multiset_commutative(a, b);
    vstd::seq_lib::lemma_multiset_commutative(a.push(e), b);
    a.to_multiset_ensures();
    assert(s.insert(pos, e) =~= a.push(e) + b);
}

/// The numbers in ascending order (the same multiset).
pub fn sort_ascending(v: &Vec<i64>) -> (r: Vec<i64>)
    ensures
        r@.to_multiset() =~= v@.to_multiset(),
        ascending(r@),
{
    let mut out: Vec<i64> = Vec::new();
    let mut i: usize = 0;
    assert(out@ =~= v@.take(0));
    while i < v.len()
        invariant
            i <= v@.len(),
            out@.to_multiset() =~= v@.take(i as int).to_multiset(),
            ascending(out@),
        decreases v.len() - i,
    {
        let e = v[i];
        let mut pos: usize = 0;
        while pos < out.len() && out[pos] <= e
            invariant
                pos <= out@.len(),
                forall|q: int| 0 <= q < pos ==> out@[q] <= e,
            decreases out.len() - pos,
        {
            pos = pos + 1;
        }
        let ghost before = out@;
        out.insert(pos, e);
        proof {
            before.insert_ensures(pos as int, e);
            lemma_insert_multiset(before, pos as int, e);
            assert(v@.take(i + 1) =~= v@.take(i as int).push(e));
            v@.take(i as int).to_multiset_ensures();
            let now = out@;
            assert forall|p: int, q: int| 0 <= p <= q < now.len() implies now[p] <= now[q] by {
                if p < pos && q < pos {
                    assert(now[p] == before[p] && now[q] == before[q]);
                } else if p < pos && q == pos {
                    assert(now[p] == before[p]);
                } else if p < pos {
                    assert(now[p] == before[p] && now[q] == before[q - 1]);
                } else if p == pos && q > pos {
                    assert(now[q] == before[q - 1]);
                    assert(!(before[pos as int] <= e));
                    assert(before[pos as int] <= before[q - 1]);
                } else if p > pos {
                    assert(now[p] == before[p - 1] && now[q] == before[q - 1]);
                }
            }
        }
        i = i + 1;
    }
    assert(v@.take(i as int) =~= v@);
    out
}

/// The dashboard's statistics of flow lengths: how many flows, the median
/// (the element at half the length of the ascending lengths) and the 95th
/// percentile (the element at 95% of the length, rounded down, at most the
/// last); 0 for no flows.
pub open spec fn flow_stats_of(sorted: Seq<i64>) -> (int, int, int) {
    if sorted.len() == 0 {
        (0, 0, 0)
    } else {
        let n = sorted.len() as int;
        let k = if (95 * n) / 100 < n {
            (95 * n) / 100
        } else {
            n - 1
        };
        (n, sorted[n / 2] as int, sorted[k] as int)
    }
}

/// Flow statistics (see `flow_stats_of`), computed over the flow lengths in
/// ascending order.
pub fn flow_stats(flows: &Vec<(i64, i64)>) -> (r: (i64, i64, i64))
    requires
        flows@.len() <= i64::MAX,
    ensures
        exists|sorted: Seq<i64>|
            #![trigger ascending(sorted)]
            ascending(sorted) && sorted.to_multiset() =~= flows@.map_values(|f: (i64, i64)| f.0).to_multiset()
                && flow_stats_of(sorted) == (r.0 as int, r.1 as int, r.2 as int),
{
    let mut durs: Vec<i64> = Vec::new();
    let mut i: usize = 0;
    while i < flows.len()
        invariant
            i <= flows@.len(),
            durs@ =~= flows@.take(i as int).map_values(|f: (i64, i64)| f.0),
        decreases flows.len() - i,
    {
        durs.push(flows[i].0);
        i = i + 1;
    }
    assert(flows@.take(i as int) =~= flows@);
    let sorted = sort_ascending(&durs);
    proof {
        sorted@.to_multiset_ensures();
        durs@.to_multiset_ensures();
    }
    let n = sorted.len();
    if n == 0 {
        (0, 0, 0)
    } else {
        let k0: u128 = (95 * (n as u128)) / 100;
        let k: usize = if k0 < n as u128 {
            k0 as usize
        } else {
            n - 1
        };
        (n as i64, sorted[n / 2], sorted[k])
    }
}

} // verus!
