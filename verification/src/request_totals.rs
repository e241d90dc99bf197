//! How many request lines each provider batch of a virtual batch should
//! report: the lines of the input file mapped to its (provider,
//! deployment).

use vstd::prelude::*;
use crate::ids::DeploymentId;
use crate::records::{VirtualFile, VirtualFileLineMapEntry};
use crate::text::seq_eq;

verus! {

/// The number of input lines mapped to one (provider, deployment).
#[derive(Clone, Debug)]
pub struct ProviderRequestTotal {
    pub provider: String,
    pub deployment_id: DeploymentId,
    pub total: u64,
}

pub open spec fn entry_key(e: VirtualFileLineMapEntry) -> (Seq<char>, DeploymentId) {
    (e.provider@, e.deployment_id)
}

pub open spec fn total_key(t: ProviderRequestTotal) -> (Seq<char>, DeploymentId) {
    (t.provider@, t.deployment_id)
}

/// The number of line-map entries with key `k`.
pub open spec fn count_key(m: Seq<VirtualFileLineMapEntry>, k: (Seq<char>, DeploymentId)) -> nat
    decreases m.len(),
{
    if m.len() == 0 {
        0
    } else {
        count_key(m.drop_last(), k) + if entry_key(m.last()) == k {
            1nat
        } else {
            0nat
        }
    }
}

/// `r` holds, once per key that occurs in `m`, how many entries of `m` have
/// that key.
pub open spec fn is_totals_of(r: Seq<ProviderRequestTotal>, m: Seq<VirtualFileLineMapEntry>) -> bool {
    &&& forall|i: int, j: int|
        0 <= i < j < r.len() ==> total_key(#[trigger] r[i]) != total_key(#[trigger] r[j])
    &&& forall|i: int|
        0 <= i < r.len() ==> (#[trigger] r[i]).total == count_key(m, total_key(r[i]))
            && r[i].total > 0
    &&& forall|x: int|
        0 <= x < m.len() ==> exists|i: int|
            0 <= i < r.len() && total_key(#[trigger] r[i]) == entry_key(#[trigger] m[x])
}

pub open spec fn line_map_of(f: VirtualFile) -> Seq<VirtualFileLineMapEntry> {
    match f.line_map {
        Some(m) => m@,
        None => Seq::empty(),
    }
}

proof fn lemma_count_bound(m: Seq<VirtualFileLineMapEntry>, k: (Seq<char>, DeploymentId))
    ensures
        count_key(m, k) <= m.len(),
    decreases m.len(),
{
    if m.len() > 0 {
        lemma_count_bound(m.drop_last(), k);
    }
}

proof fn lemma_count_zero(m: Seq<VirtualFileLineMapEntry>, k: (Seq<char>, DeploymentId))
    requires
        forall|x: int| 0 <= x < m.len() ==> entry_key(#[trigger] m[x]) != k,
    ensures
        count_key(m, k) == 0,
    decreases m.len(),
{
    if m.len() > 0 {
        let init = m.drop_last();
        assert forall|x: int| 0 <= x < init.len() implies entry_key(#[trigger] init[x]) != k by {
            assert(init[x] == m[x]);
        }
        lemma_count_zero(init, k);
        assert(entry_key(m[m.len() - 1]) != k);
    }
}

fn find_key(keys: &Vec<(String, DeploymentId)>, provider: &String, deployment_id: DeploymentId) -> (r:
    Option<usize>)
    ensures
        match r {
            Some(g) => g < keys@.len() && (keys@[g as int].0@, keys@[g as int].1) == (
                provider@,
                deployment_id,
            ),
            None => forall|g: int|
                0 <= g < keys@.len() ==> (#[trigger] keys@[g].0@, keys@[g].1) != (
                    provider@,
                    deployment_id,
                ),
        },
{
    let mut g: usize = 0;
    while g < keys.len()
        invariant
            g <= keys@.len(),
            forall|h: int|
                0 <= h < g ==> (#[trigger] keys@[h].0@, keys@[h].1) != (provider@, deployment_id),
        decreases keys@.len() - g,
    {
        if keys[g].1 == deployment_id && seq_eq(keys[g].0.as_str(), provider.as_str()) {
            return Some(g);
        }
        g = g + 1;
    }
    None
}

/// How many lines of the input file each (provider, deployment) received,
/// keys in order of first appearance; none without a line map.
pub fn expected_provider_request_totals(input_file: &VirtualFile) -> (r: Vec<ProviderRequestTotal>)
    ensures
        is_totals_of(r@, line_map_of(*input_file)),
{
    let mut out: Vec<ProviderRequestTotal> = Vec::new();
    let line_map = match &input_file.line_map {
        Some(m) => m,
        None => {
            return out;
        },
    };
    let ghost m = line_map@;
    let mut keys: Vec<(String, DeploymentId)> = Vec::new();
    let mut totals: Vec<u64> = Vec::new();
    let mut i: usize = 0;
    while i < line_map.len()
        invariant
            m == line_map@,
            i <= m.len(),
            keys@.len() == totals@.len(),
            forall|a: int, b: int|
                0 <= a < b < keys@.len() ==> (#[trigger] keys@[a].0@, keys@[a].1) != (
                    #[trigger] keys@[b].0@,
                    keys@[b].1,
                ),
            forall|g: int|
                0 <= g < keys@.len() ==> #[trigger] totals@[g] == count_key(
                    m.subrange(0, i as int),
                    (keys@[g].0@, keys@[g].1),
                ) && totals@[g] > 0,
            forall|x: int|
                0 <= x < i ==> exists|g: int|
                    0 <= g < keys@.len() && (#[trigger] keys@[g].0@, keys@[g].1) == entry_key(
                        #[trigger] m[x],
                    ),
        decreases m.len() - i,
    {
        let e = &line_map[i];
        let ghost pre = m.subrange(0, i as int);
        let ghost post = m.subrange(0, i + 1);
        assert(post.drop_last() =~= pre);
        assert(post.last() == m[i as int]);
        proof {
            lemma_count_bound(pre, entry_key(m[i as int]));
        }
        match find_key(&keys, &e.provider, e.deployment_id) {
            Some(g) => {
                let t = totals[g];
                assert(t <= i);
                totals.set(g, t + 1);
                assert forall|h: int| 0 <= h < keys@.len() implies #[trigger] totals@[h] == count_key(
                    post,
                    (keys@[h].0@, keys@[h].1),
                ) && totals@[h] > 0 by {
                    if h != g {
                        assert((keys@[h].0@, keys@[h].1) != (keys@[g as int].0@, keys@[g as int].1));
                    }
                }
                assert forall|x: int| 0 <= x < i + 1 implies exists|h: int|
                    0 <= h < keys@.len() && (#[trigger] keys@[h].0@, keys@[h].1) == entry_key(
                        #[trigger] m[x],
                    ) by {
                    if x == i {
                        assert((keys@[g as int].0@, keys@[g as int].1) == entry_key(m[x]));
                    }
                }
            },
            None => {
                proof {
                    assert forall|x: int| 0 <= x < pre.len() implies entry_key(#[trigger] pre[x])
                        != entry_key(m[i as int]) by {
                        assert(pre[x] == m[x]);
                        let h = choose|h: int|
                            0 <= h < keys@.len() && (#[trigger] keys@[h].0@, keys@[h].1)
                                == entry_key(m[x]);
                    }
                    lemma_count_zero(pre, entry_key(m[i as int]));
                }
                let ghost old_keys = keys@;
                let ghost old_totals = totals@;
                keys.push((e.provider.clone(), e.deployment_id));
                totals.push(1);
                assert forall|h: int| 0 <= h < keys@.len() implies #[trigger] totals@[h] == count_key(
                    post,
                    (keys@[h].0@, keys@[h].1),
                ) && totals@[h] > 0 by {
                    if h < old_keys.len() {
                        assert(keys@[h] == old_keys[h]);
                        assert(totals@[h] == old_totals[h]);
                    }
                }
                assert forall|x: int| 0 <= x < i + 1 implies exists|h: int|
                    0 <= h < keys@.len() && (#[trigger] keys@[h].0@, keys@[h].1) == entry_key(
                        #[trigger] m[x],
                    ) by {
                    if x == i {
                        assert((keys@[old_keys.len() as int].0@, keys@[old_keys.len() as int].1)
                            == entry_key(m[x]));
                    } else {
                        let h = choose|h: int|
                            0 <= h < old_keys.len() && (#[trigger] old_keys[h].0@, old_keys[h].1)
                                == entry_key(m[x]);
                        assert(keys@[h] == old_keys[h]);
                    }
                }
            },
        }
        i = i + 1;
    }
    assert(m.subrange(0, m.len() as int) =~= m);
    let mut g: usize = 0;
    while g < keys.len()
        invariant
            g <= keys@.len(),
            keys@.len() == totals@.len(),
            out@.len() == g,
            forall|h: int|
                0 <= h < g ==> total_key(#[trigger] out@[h]) == (keys@[h].0@, keys@[h].1)
                    && out@[h].total == totals@[h],
        decreases keys@.len() - g,
    {
        out.push(
            ProviderRequestTotal {
                provider: keys[g].0.clone(),
                deployment_id: keys[g].1,
                total: totals[g],
            },
        );
        g = g + 1;
    }
    assert forall|x: int| 0 <= x < m.len() implies exists|h: int|
        0 <= h < out@.len() && total_key(#[trigger] out@[h]) == entry_key(#[trigger] m[x]) by {
        let h = choose|h: int|
            0 <= h < keys@.len() && (#[trigger] keys@[h].0@, keys@[h].1) == entry_key(m[x]);
        assert(total_key(out@[h]) == (keys@[h].0@, keys@[h].1));
    }
    assert forall|a: int, b: int| 0 <= a < b < out@.len() implies total_key(#[trigger] out@[a])
        != total_key(#[trigger] out@[b]) by {
        assert((keys@[a].0@, keys@[a].1) != (keys@[b].0@, keys@[b].1));
    }
    out
}

/// The total of the first entry with key `k`, if any.
pub open spec fn spec_total_for(r: Seq<ProviderRequestTotal>, k: (Seq<char>, DeploymentId)) -> Option<
    u64,
>
    decreases r.len(),
{
    if r.len() == 0 {
        None
    } else if total_key(r[0]) == k {
        Some(r[0].total)
    } else {
        spec_total_for(r.drop_first(), k)
    }
}

/// The expected total of the provider batch for `provider` and
/// `deployment_id`, if the input file mapped any line to it.
pub fn expected_total_for(totals: &[ProviderRequestTotal], provider: &str, deployment_id: DeploymentId) -> (r:
    Option<u64>)
    ensures
        r == spec_total_for(totals@, (provider@, deployment_id)),
{
    let mut i: usize = 0;
    assert(totals@.subrange(0, totals@.len() as int) =~= totals@);
    while i < totals.len()
        invariant
            i <= totals@.len(),
            spec_total_for(totals@, (provider@, deployment_id)) == spec_total_for(
                totals@.subrange(i as int, totals@.len() as int),
                (provider@, deployment_id),
            ),
        decreases totals@.len() - i,
    {
        let ghost rest = totals@.subrange(i as int, totals@.len() as int);
        assert(rest[0] == totals@[i as int]);
        assert(rest.drop_first() =~= totals@.subrange(i + 1, totals@.len() as int));
        if totals[i].deployment_id == deployment_id && seq_eq(totals[i].provider.as_str(), provider) {
            return Some(totals[i].total);
        }
        i = i + 1;
    }
    None
}

proof fn lemma_total_for_found(r: Seq<ProviderRequestTotal>, i: int, k: (Seq<char>, DeploymentId))
    requires
        0 <= i < r.len(),
        total_key(r[i]) == k,
        forall|a: int, b: int|
            0 <= a < b < r.len() ==> total_key(#[trigger] r[a]) != total_key(#[trigger] r[b]),
    ensures
        spec_total_for(r, k) == Some(r[i].total),
    decreases r.len(),
{
    if i > 0 {
        let rest = r.drop_first();
        assert(total_key(r[0]) != total_key(r[i]));
        assert(rest[i - 1] == r[i]);
        assert forall|a: int, b: int| 0 <= a < b < rest.len() implies total_key(#[trigger] rest[a])
            != total_key(#[trigger] rest[b]) by {
            assert(rest[a] == r[a + 1] && rest[b] == r[b + 1]);
        }
        lemma_total_for_found(rest, i - 1, k);
    }
}

proof fn lemma_total_for_absent(r: Seq<ProviderRequestTotal>, k: (Seq<char>, DeploymentId))
    requires
        forall|i: int| 0 <= i < r.len() ==> total_key(#[trigger] r[i]) != k,
    ensures
        spec_total_for(r, k) is None,
    decreases r.len(),
{
    if r.len() > 0 {
        let rest = r.drop_first();
        assert forall|i: int| 0 <= i < rest.len() implies total_key(#[trigger] rest[i]) != k by {
            assert(rest[i] == r[i + 1]);
        }
        lemma_total_for_absent(rest, k);
    }
}

/// The expected total of a provider batch is the number of input lines
/// mapped to its provider and deployment, and there is none when no line
/// was mapped there.
pub proof fn law_expected_total_counts_lines(
    r: Seq<ProviderRequestTotal>,
    m: Seq<VirtualFileLineMapEntry>,
    k: (Seq<char>, DeploymentId),
)
    requires
        is_totals_of(r, m),
    ensures
        spec_total_for(r, k) == if count_key(m, k) > 0 {
            Some(count_key(m, k) as u64)
        } else {
            None::<u64>
        },
{
    if exists|i: int| 0 <= i < r.len() && total_key(r[i]) == k {
        let i = choose|i: int| 0 <= i < r.len() && total_key(r[i]) == k;
        lemma_total_for_found(r, i, k);
        assert(r[i].total == count_key(m, k));
    } else {
        lemma_total_for_absent(r, k);
        assert forall|x: int| 0 <= x < m.len() implies entry_key(#[trigger] m[x]) != k by {
            let i = choose|i: int| 0 <= i < r.len() && total_key(#[trigger] r[i]) == entry_key(m[x]);
        }
        lemma_count_zero(m, k);
    }
}

} // verus!
