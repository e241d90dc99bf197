//! How a virtual batch file is split into one provider file per (provider,
//! deployment) group, how each line is mapped to its provider file and line,
//! and how the file is reconstructed in its original order.

use vstd::prelude::*;
use crate::errors::{LLMurError, bad_request};
use crate::ids::DeploymentId;
use crate::records::VirtualFileLineMapEntry;
use crate::text::{concat, decimal, seq_eq, to_owned, usize_to_decimal, views};

verus! {

/// The lines of a batch file that go to one provider deployment.
#[derive(Clone, Debug)]
pub struct ProviderFileGroup {
    pub provider: String,
    pub deployment_id: DeploymentId,
    pub lines: Vec<String>,
    pub line_indices: Vec<usize>,
}

pub open spec fn key_of(k: (String, DeploymentId)) -> (Seq<char>, DeploymentId) {
    (k.0@, k.1)
}

pub open spec fn group_key(g: ProviderFileGroup) -> (Seq<char>, DeploymentId) {
    (g.provider@, g.deployment_id)
}

/// `groups` partitions the lines by key: every group holds, in file order,
/// the lines of one key; keys differ between groups; every line is in one.
pub open spec fn is_grouping(
    keys: Seq<(String, DeploymentId)>,
    lines: Seq<String>,
    groups: Seq<ProviderFileGroup>,
) -> bool {
    &&& forall|g: int|
        0 <= g < groups.len() ==> #[trigger] groups[g].lines@.len()
            == groups[g].line_indices@.len() && groups[g].lines@.len() > 0
    &&& forall|g: int, j: int|
        0 <= g < groups.len() && 0 <= j < groups[g].line_indices@.len() ==> {
            let i = #[trigger] groups[g].line_indices@[j] as int;
            &&& i < keys.len()
            &&& i < lines.len()
            &&& key_of(keys[i]) == group_key(groups[g])
            &&& groups[g].lines@[j] == lines[i]
        }
    &&& forall|g: int, j1: int, j2: int|
        0 <= g < groups.len() && 0 <= j1 < j2 < groups[g].line_indices@.len()
            ==> #[trigger] groups[g].line_indices@[j1] < #[trigger] groups[g].line_indices@[j2]
    &&& forall|g1: int, g2: int|
        0 <= g1 < groups.len() && 0 <= g2 < groups.len() && g1 != g2 ==> group_key(
            #[trigger] groups[g1],
        ) != group_key(#[trigger] groups[g2])
    &&& forall|i: int| 0 <= i < keys.len() ==> #[trigger] line_covered(groups, i)
}

/// Line `i` is held by some group.
pub open spec fn line_covered(groups: Seq<ProviderFileGroup>, i: int) -> bool {
    exists|g: int, j: int|
        0 <= g < groups.len() && 0 <= j < groups[g].line_indices@.len()
            && #[trigger] groups[g].line_indices@[j] == i
}

fn find_group(groups: &Vec<ProviderFileGroup>, provider: &String, deployment_id: DeploymentId) -> (r:
    Option<usize>)
    ensures
        match r {
            Some(g) => g < groups@.len() && group_key(groups@[g as int]) == (
                provider@,
                deployment_id,
            ),
            None => forall|g: int|
                0 <= g < groups@.len() ==> group_key(#[trigger] groups@[g]) != (
                    provider@,
                    deployment_id,
                ),
        },
{
    let mut g: usize = 0;
    while g < groups.len()
        invariant
            g <= groups@.len(),
            forall|h: int|
                0 <= h < g ==> group_key(#[trigger] groups@[h]) != (provider@, deployment_id),
        decreases groups@.len() - g,
    {
        if groups[g].deployment_id == deployment_id && seq_eq(
            groups[g].provider.as_str(),
            provider.as_str(),
        ) {
            return Some(g);
        }
        g = g + 1;
    }
    None
}

/// Groups the lines of a batch file by the (provider, deployment) that each
/// line targets, groups ordered by first appearance.
pub fn group_batch_lines(keys: &[(String, DeploymentId)], lines: &[String]) -> (r: Vec<
    ProviderFileGroup,
>)
    requires
        keys@.len() == lines@.len(),
    ensures
        is_grouping(keys@, lines@, r@),
{
    let mut groups: Vec<ProviderFileGroup> = Vec::new();
    let mut i: usize = 0;
    while i < keys.len()
        invariant
            i <= keys@.len(),
            keys@.len() == lines@.len(),
            is_grouping(keys@.subrange(0, i as int), lines@.subrange(0, i as int), groups@),
        decreases keys@.len() - i,
    {
        let ghost ks = keys@.subrange(0, i as int);
        let ghost ls = lines@.subrange(0, i as int);
        let ghost ks1 = keys@.subrange(0, i + 1);
        let ghost ls1 = lines@.subrange(0, i + 1);
        let ghost old_groups = groups@;
        let (provider, deployment_id) = &keys[i];
        match find_group(&groups, provider, *deployment_id) {
            Some(g) => {
                let mut group = groups.remove(g);
                group.lines.push(lines[i].clone());
                group.line_indices.push(i);
                groups.insert(g, group);
                assert(groups@ =~= old_groups.update(g as int, group));
                assert forall|h: int, j: int|
                    0 <= h < groups@.len() && 0 <= j < groups@[h].line_indices@.len() implies {
                    let x = #[trigger] groups@[h].line_indices@[j] as int;
                    &&& x < ks1.len()
                    &&& x < ls1.len()
                    &&& key_of(ks1[x]) == group_key(groups@[h])
                    &&& groups@[h].lines@[j] == ls1[x]
                } by {
                    if h == g && j == groups@[h].line_indices@.len() - 1 {
                    } else if h == g {
                        assert(groups@[h].line_indices@[j] == old_groups[h].line_indices@[j]);
                        assert(groups@[h].lines@[j] == old_groups[h].lines@[j]);
                    } else {
                    }
                }
                assert forall|h: int, j1: int, j2: int|
                    0 <= h < groups@.len() && 0 <= j1 < j2 < groups@[h].line_indices@.len()
                        implies #[trigger] groups@[h].line_indices@[j1]
                    < #[trigger] groups@[h].line_indices@[j2] by {
                    if h == g {
                        assert(old_groups[h].line_indices@[j1] < i);
                        if j2 < old_groups[h].line_indices@.len() {
                            assert(groups@[h].line_indices@[j2] == old_groups[h].line_indices@[j2]);
                        }
                        assert(groups@[h].line_indices@[j1] == old_groups[h].line_indices@[j1]);
                    }
                }
                assert forall|x: int| 0 <= x < ks1.len() implies #[trigger] line_covered(groups@, x) by {
                    if x == i {
                        let j = groups@[g as int].line_indices@.len() - 1;
                        assert(groups@[g as int].line_indices@[j] == x);
                    } else {
                        assert(line_covered(old_groups, x));
                        let (h, j) = choose|h: int, j: int|
                            0 <= h < old_groups.len() && 0 <= j < old_groups[h].line_indices@.len()
                                && #[trigger] old_groups[h].line_indices@[j] == x;
                        assert(groups@[h].line_indices@[j] == x);
                    }
                }
            },
            None => {
                let mut new_lines: Vec<String> = Vec::new();
                new_lines.push(lines[i].clone());
                let mut new_indices: Vec<usize> = Vec::new();
                new_indices.push(i);
                groups.push(
                    ProviderFileGroup {
                        provider: provider.clone(),
                        deployment_id: *deployment_id,
                        lines: new_lines,
                        line_indices: new_indices,
                    },
                );
                assert forall|x: int| 0 <= x < ks1.len() implies #[trigger] line_covered(groups@, x) by {
                    if x == i {
                        assert(groups@[groups@.len() - 1].line_indices@[0] == x);
                    } else {
                        assert(line_covered(old_groups, x));
                        let (h, j) = choose|h: int, j: int|
                            0 <= h < old_groups.len() && 0 <= j < old_groups[h].line_indices@.len()
                                && #[trigger] old_groups[h].line_indices@[j] == x;
                        assert(groups@[h].line_indices@[j] == x);
                    }
                }
            },
        }
        i = i + 1;
    }
    assert(keys@.subrange(0, keys@.len() as int) =~= keys@);
    assert(lines@.subrange(0, lines@.len() as int) =~= lines@);
    groups
}


/// The fields of a line map entry, as plain values.
pub open spec fn entry_view(e: VirtualFileLineMapEntry) -> (i32, Seq<char>, DeploymentId, Seq<char>, i32) {
    (e.line_index, e.provider@, e.deployment_id, e.provider_file_id@, e.provider_line_index)
}

/// Position `j` of group `g` writes line `i`.
pub open spec fn writes_line(groups: Seq<ProviderFileGroup>, g: int, j: int, i: int) -> bool {
    0 <= g < groups.len() && 0 <= j < groups[g].line_indices@.len() && groups[g].line_indices@[j]
        == i
}

/// A copy of a line map entry.
pub fn clone_entry(e: &VirtualFileLineMapEntry) -> (r: VirtualFileLineMapEntry)
    ensures
        r == *e,
{
    VirtualFileLineMapEntry {
        line_index: e.line_index,
        provider: e.provider.clone(),
        deployment_id: e.deployment_id,
        provider_file_id: e.provider_file_id.clone(),
        provider_line_index: e.provider_line_index,
    }
}

/// Some group position writes line `i`.
pub open spec fn line_written(groups: Seq<ProviderFileGroup>, i: int) -> bool {
    exists|g: int, j: int| #[trigger] writes_line(groups, g, j, i)
}

/// Entry `e` is what some group position holding line `i` produces.
pub open spec fn entry_maps_line(
    groups: Seq<ProviderFileGroup>,
    provider_file_ids: Seq<String>,
    e: VirtualFileLineMapEntry,
    i: int,
) -> bool {
    exists|g: int, j: int|
        #[trigger] writes_line(groups, g, j, i) && entry_view(e) == entry_of(
            groups,
            provider_file_ids,
            g,
            j,
        )
}

/// The entry that position `j` of group `g` produces.
pub open spec fn entry_of(
    groups: Seq<ProviderFileGroup>,
    provider_file_ids: Seq<String>,
    g: int,
    j: int,
) -> (i32, Seq<char>, DeploymentId, Seq<char>, i32) {
    (
        groups[g].line_indices@[j] as i32,
        groups[g].provider@,
        groups[g].deployment_id,
        provider_file_ids[g]@,
        j as i32,
    )
}

pub open spec fn unmapped_line_message(i: int) -> Seq<char> {
    "Batch line "@ + decimal((i + 1) as nat) + " could not be mapped to a provider file."@
}

/// The line map of a batch file uploaded as one provider file per group:
/// line `i` maps to the group position that holds it.
pub fn build_line_map(
    groups: &[ProviderFileGroup],
    provider_file_ids: &[String],
    line_count: usize,
) -> (r: Result<Vec<VirtualFileLineMapEntry>, LLMurError>)
    requires
        groups@.len() == provider_file_ids@.len(),
        forall|g: int, j: int|
            0 <= g < groups@.len() && 0 <= j < groups@[g].line_indices@.len()
                ==> #[trigger] groups@[g].line_indices@[j] < line_count,
    ensures
        match r {
            Ok(m) => m@.len() == line_count && forall|i: int|
                0 <= i < line_count ==> #[trigger] entry_maps_line(groups@, provider_file_ids@, m@[i], i),
            Err(e) => e is BadRequest && exists|i: int|
                0 <= i < line_count && !#[trigger] line_written(groups@, i) && (forall|k: int|
                    0 <= k < i ==> #[trigger] line_written(groups@, k)) && bad_request(e)
                    == unmapped_line_message(i),
        },
{
    let mut slots: Vec<Option<VirtualFileLineMapEntry>> = Vec::new();
    let mut i: usize = 0;
    while i < line_count
        invariant
            i <= line_count,
            slots@.len() == i,
            forall|k: int| 0 <= k < i ==> slots@[k] is None,
        decreases line_count - i,
    {
        slots.push(None);
        i = i + 1;
    }
    let mut g: usize = 0;
    while g < groups.len()
        invariant
            g <= groups@.len(),
            groups@.len() == provider_file_ids@.len(),
            slots@.len() == line_count,
            forall|g: int, j: int|
                0 <= g < groups@.len() && 0 <= j < groups@[g].line_indices@.len()
                    ==> #[trigger] groups@[g].line_indices@[j] < line_count,
            forall|k: int|
                0 <= k < line_count ==> match #[trigger] slots@[k] {
                    Some(e) => exists|h: int, j: int|
                        #[trigger] writes_line(groups@, h, j, k) && h < g && entry_view(e)
                            == entry_of(groups@, provider_file_ids@, h, j),
                    None => forall|h: int, j: int| h < g ==> !#[trigger] writes_line(groups@, h, j, k),
                },
        decreases groups@.len() - g,
    {
        let group = &groups[g];
        let mut j: usize = 0;
        while j < group.line_indices.len()
            invariant
                g < groups@.len(),
                *group == groups@[g as int],
                groups@.len() == provider_file_ids@.len(),
                j <= group.line_indices@.len(),
                slots@.len() == line_count,
                forall|g: int, j: int|
                    0 <= g < groups@.len() && 0 <= j < groups@[g].line_indices@.len()
                        ==> #[trigger] groups@[g].line_indices@[j] < line_count,
                forall|k: int|
                    0 <= k < line_count ==> match #[trigger] slots@[k] {
                        Some(e) => exists|h: int, jj: int|
                            #[trigger] writes_line(groups@, h, jj, k) && (h < g || (h == g && jj < j))
                                && entry_view(e) == entry_of(groups@, provider_file_ids@, h, jj),
                        None => forall|h: int, jj: int|
                            (h < g || (h == g && jj < j)) ==> !#[trigger] writes_line(groups@, h, jj, k),
                    },
            decreases group.line_indices@.len() - j,
        {
            let idx = group.line_indices[j];
            let entry = VirtualFileLineMapEntry {
                line_index: idx as i32,
                provider: group.provider.clone(),
                deployment_id: group.deployment_id,
                provider_file_id: provider_file_ids[g].clone(),
                provider_line_index: j as i32,
            };
            assert(writes_line(groups@, g as int, j as int, idx as int));
            slots.set(idx, Some(entry));
            assert forall|k: int| 0 <= k < line_count implies match #[trigger] slots@[k] {
                Some(e) => exists|h: int, jj: int|
                    #[trigger] writes_line(groups@, h, jj, k) && (h < g || (h == g && jj < j + 1))
                        && entry_view(e) == entry_of(groups@, provider_file_ids@, h, jj),
                None => forall|h: int, jj: int|
                    (h < g || (h == g && jj < j + 1)) ==> !#[trigger] writes_line(groups@, h, jj, k),
            } by {
                if k == idx {
                    assert(writes_line(groups@, g as int, j as int, k));
                } else {
                    assert forall|h: int, jj: int| (h < g || (h == g && jj < j + 1)) && #[trigger] writes_line(groups@, h, jj, k)
                        implies (h < g || (h == g && jj < j)) by {
                        if h == g && jj == j {
                            assert(groups@[h].line_indices@[jj] == idx);
                        }
                    }
                }
            }
            j = j + 1;
        }
        assert forall|k: int| 0 <= k < line_count implies match #[trigger] slots@[k] {
            Some(e) => exists|h: int, jj: int|
                #[trigger] writes_line(groups@, h, jj, k) && h < g + 1 && entry_view(e)
                    == entry_of(groups@, provider_file_ids@, h, jj),
            None => forall|h: int, jj: int| h < g + 1 ==> !#[trigger] writes_line(groups@, h, jj, k),
        } by {
            match slots@[k] {
                Some(e) => {},
                None => {
                    assert forall|h: int, jj: int| h < g + 1 implies !#[trigger] writes_line(groups@, h, jj, k) by {
                        if h == g && writes_line(groups@, h, jj, k) {
                            assert(jj < group.line_indices@.len());
                        }
                    }
                },
            }
        }
        g = g + 1;
    }
    let mut out: Vec<VirtualFileLineMapEntry> = Vec::new();
    let mut k: usize = 0;
    while k < line_count
        invariant
            k <= line_count,
            slots@.len() == line_count,
            groups@.len() == provider_file_ids@.len(),
            out@.len() == k,
            forall|x: int|
                0 <= x < line_count ==> match #[trigger] slots@[x] {
                    Some(e) => exists|h: int, j: int|
                        #[trigger] writes_line(groups@, h, j, x) && entry_view(e) == entry_of(
                            groups@,
                            provider_file_ids@,
                            h,
                            j,
                        ),
                    None => forall|h: int, j: int| !#[trigger] writes_line(groups@, h, j, x),
                },
            forall|x: int| 0 <= x < k ==> #[trigger] slots@[x] is Some,
            forall|x: int| 0 <= x < k ==> Some(#[trigger] out@[x]) == slots@[x],
        decreases line_count - k,
    {
        match &slots[k] {
            Some(e) => {
                out.push(clone_entry(e));
            },
            None => {
                assert forall|x: int| 0 <= x < k implies #[trigger] line_written(groups@, x) by {
                    assert(slots@[x] is Some);
                }
                assert(!line_written(groups@, k as int));
                let n = usize_to_decimal(k + 1);
                let msg = concat(
                    concat("Batch line ", n.as_str()).as_str(),
                    " could not be mapped to a provider file.",
                );
                return Err(LLMurError::BadRequest(msg));
            },
        }
        k = k + 1;
    }
    assert forall|i: int| 0 <= i < line_count implies #[trigger] entry_maps_line(groups@, provider_file_ids@, out@[i], i) by {
        assert(slots@[i] is Some);
        assert(Some(out@[i]) == slots@[i]);
        let e = slots@[i].unwrap();
        let (h, j) = choose|h: int, j: int|
            #[trigger] writes_line(groups@, h, j, i) && entry_view(e) == entry_of(
                groups@,
                provider_file_ids@,
                h,
                j,
            );
        assert(writes_line(groups@, h, j, i));
    }
    Ok(out)
}


/// The lines of the provider file `id`, when its content was fetched (the
/// last fetch of that id counts).
pub open spec fn lookup_content(contents: Seq<(String, Vec<String>)>, id: Seq<char>) -> Option<Seq<Seq<char>>>
    decreases contents.len(),
{
    if contents.len() == 0 {
        None
    } else if contents.last().0@ == id {
        Some(views(contents.last().1@))
    } else {
        lookup_content(contents.drop_last(), id)
    }
}

/// Places the line an entry points at into its slot, or says why it cannot.
pub open spec fn place_line(
    slots: Seq<Option<Seq<char>>>,
    e: VirtualFileLineMapEntry,
    contents: Seq<(String, Vec<String>)>,
) -> Result<Seq<Option<Seq<char>>>, Seq<char>> {
    if e.line_index < 0 {
        Err("Invalid line index in virtual file mapping."@)
    } else if e.provider_line_index < 0 {
        Err("Invalid provider line index in virtual file mapping."@)
    } else {
        match lookup_content(contents, e.provider_file_id@) {
            None => Err("Provider file content missing for virtual file reconstruction."@),
            Some(lines) => if e.provider_line_index >= lines.len() {
                Err("Provider line index is out of range for virtual file."@)
            } else if e.line_index >= slots.len() {
                Err("Virtual file line index is out of range."@)
            } else {
                Ok(slots.update(e.line_index as int, Some(lines[e.provider_line_index as int])))
            },
        }
    }
}

/// Places the lines of all entries, in order; the first failure stops.
pub open spec fn place_all(
    m: Seq<VirtualFileLineMapEntry>,
    contents: Seq<(String, Vec<String>)>,
    init: Seq<Option<Seq<char>>>,
) -> Result<Seq<Option<Seq<char>>>, Seq<char>>
    decreases m.len(),
{
    if m.len() == 0 {
        Ok(init)
    } else {
        match place_all(m.drop_last(), contents, init) {
            Err(e) => Err(e),
            Ok(s) => place_line(s, m.last(), contents),
        }
    }
}

/// First empty slot at or after `i`.
pub open spec fn first_missing(s: Seq<Option<Seq<char>>>, i: int) -> Option<int>
    decreases s.len() - i,
{
    if i < 0 || i >= s.len() {
        None
    } else if s[i] is None {
        Some(i)
    } else {
        first_missing(s, i + 1)
    }
}

pub open spec fn line_count_of(line_count: Option<i32>, map_len: nat) -> nat {
    match line_count {
        Some(k) => if k < 0 {
            0
        } else {
            k as nat
        },
        None => map_len,
    }
}

pub open spec fn missing_line_message(k: int) -> Seq<char> {
    "Virtual file reconstruction missing line "@ + decimal((k + 1) as nat) + "."@
}

/// The lines of a virtual file rebuilt from its line map and the content of
/// its provider files, or why they cannot be.
pub open spec fn spec_reconstruct(
    m: Seq<VirtualFileLineMapEntry>,
    line_count: Option<i32>,
    contents: Seq<(String, Vec<String>)>,
) -> Result<Seq<Seq<char>>, Seq<char>> {
    let n = line_count_of(line_count, m.len());
    match place_all(m, contents, Seq::new(n, |i: int| None::<Seq<char>>)) {
        Err(e) => Err(e),
        Ok(s) => match first_missing(s, 0) {
            Some(k) => Err(missing_line_message(k)),
            None => Ok(s.map_values(|x: Option<Seq<char>>| x.unwrap())),
        },
    }
}

fn lookup_content_exec<'a>(contents: &'a [(String, Vec<String>)], id: &String) -> (r: Option<&'a Vec<String>>)
    ensures
        match r {
            Some(v) => lookup_content(contents@, id@) == Some(views(v@)),
            None => lookup_content(contents@, id@) is None,
        },
{
    let mut k: usize = contents.len();
    assert(contents@.subrange(0, k as int) =~= contents@);
    while k > 0
        invariant
            k <= contents@.len(),
            lookup_content(contents@, id@) == lookup_content(contents@.subrange(0, k as int), id@),
        decreases k,
    {
        let ghost pre = contents@.subrange(0, k as int);
        assert(pre.drop_last() =~= contents@.subrange(0, k - 1));
        if seq_eq(contents[k - 1].0.as_str(), id.as_str()) {
            return Some(&contents[k - 1].1);
        }
        k = k - 1;
    }
    None
}

fn clone_string_option(v: &Option<String>) -> (r: Option<String>)
    ensures
        r == *v,
{
    match v {
        Some(s) => Some(s.clone()),
        None => None,
    }
}

pub open spec fn slot_views(s: Seq<Option<String>>) -> Seq<Option<Seq<char>>> {
    s.map_values(
        |x: Option<String>|
            match x {
                Some(v) => Some(v@),
                None => None,
            },
    )
}

/// Rebuilds a mapped virtual file in its original line order.
pub fn reconstruct_mapped_lines(
    line_map: &[VirtualFileLineMapEntry],
    line_count: Option<i32>,
    provider_content: &[(String, Vec<String>)],
) -> (r: Result<Vec<String>, LLMurError>)
    ensures
        match r {
            Ok(lines) => spec_reconstruct(line_map@, line_count, provider_content@) == Ok::<
                Seq<Seq<char>>,
                Seq<char>,
            >(views(lines@)),
            Err(e) => e is BadRequest && spec_reconstruct(line_map@, line_count, provider_content@)
                == Err::<Seq<Seq<char>>, Seq<char>>(bad_request(e)),
        },
{
    let n: usize = match line_count {
        Some(c) => if c < 0 { 0 } else { c as usize },
        None => line_map.len(),
    };
    let mut output: Vec<Option<String>> = Vec::new();
    let mut i: usize = 0;
    while i < n
        invariant
            i <= n,
            output@.len() == i,
            forall|k: int| 0 <= k < i ==> output@[k] is None,
        decreases n - i,
    {
        output.push(None);
        i = i + 1;
    }
    let ghost init = Seq::new(n as nat, |i: int| None::<Seq<char>>);
    assert(slot_views(output@) =~= init);
    assert(line_map@.subrange(0, 0) =~= Seq::<VirtualFileLineMapEntry>::empty());
    let mut k: usize = 0;
    while k < line_map.len()
        invariant
            k <= line_map@.len(),
            output@.len() == n,
            n == line_count_of(line_count, line_map@.len()),
            init == Seq::new(n as nat, |i: int| None::<Seq<char>>),
            place_all(line_map@.subrange(0, k as int), provider_content@, init) == Ok::<
                Seq<Option<Seq<char>>>,
                Seq<char>,
            >(slot_views(output@)),
        decreases line_map@.len() - k,
    {
        let ghost before = slot_views(output@);
        assert(line_map@.subrange(0, k + 1).drop_last() =~= line_map@.subrange(0, k as int));
        let entry = &line_map[k];
        if entry.line_index < 0 {
            assert(place_all(line_map@.subrange(0, k + 1), provider_content@, init) is Err);
            assert(line_map@.subrange(0, k + 1).len() > 0);
            proof {
                lemma_place_all_err_sticky(line_map@, provider_content@, init, k + 1);
            }
            return Err(LLMurError::BadRequest(to_owned("Invalid line index in virtual file mapping.")));
        }
        if entry.provider_line_index < 0 {
            proof {
                lemma_place_all_err_sticky(line_map@, provider_content@, init, k + 1);
            }
            return Err(
                LLMurError::BadRequest(
                    to_owned("Invalid provider line index in virtual file mapping."),
                ),
            );
        }
        let lines = match lookup_content_exec(provider_content, &entry.provider_file_id) {
            Some(l) => l,
            None => {
                proof {
                    lemma_place_all_err_sticky(line_map@, provider_content@, init, k + 1);
                }
                return Err(
                    LLMurError::BadRequest(
                        to_owned("Provider file content missing for virtual file reconstruction."),
                    ),
                );
            },
        };
        let pli = entry.provider_line_index as usize;
        if pli >= lines.len() {
            proof {
                lemma_place_all_err_sticky(line_map@, provider_content@, init, k + 1);
            }
            return Err(
                LLMurError::BadRequest(
                    to_owned("Provider line index is out of range for virtual file."),
                ),
            );
        }
        let li = entry.line_index as usize;
        if li >= output.len() {
            proof {
                lemma_place_all_err_sticky(line_map@, provider_content@, init, k + 1);
            }
            return Err(
                LLMurError::BadRequest(to_owned("Virtual file line index is out of range.")),
            );
        }
        output.set(li, Some(lines[pli].clone()));
        assert(slot_views(output@) =~= before.update(li as int, Some(views(lines@)[pli as int])));
        k = k + 1;
    }
    assert(line_map@.subrange(0, line_map@.len() as int) =~= line_map@);
    let mut out: Vec<String> = Vec::new();
    let mut x: usize = 0;
    while x < n
        invariant
            x <= n,
            output@.len() == n,
            out@.len() == x,
            n == line_count_of(line_count, line_map@.len()),
            init == Seq::new(n as nat, |i: int| None::<Seq<char>>),
            place_all(line_map@, provider_content@, init) == Ok::<
                Seq<Option<Seq<char>>>,
                Seq<char>,
            >(slot_views(output@)),
            first_missing(slot_views(output@), 0) == first_missing(slot_views(output@), x as int),
            forall|y: int| 0 <= y < x ==> Some(#[trigger] out@[y]) == output@[y],
        decreases n - x,
    {
        match &output[x] {
            Some(line) => {
                assert(slot_views(output@)[x as int] is Some);
                out.push(line.clone());
            },
            None => {
                assert(slot_views(output@)[x as int] is None);
                let num = usize_to_decimal(x + 1);
                let msg = concat(
                    concat("Virtual file reconstruction missing line ", num.as_str()).as_str(),
                    ".",
                );
                return Err(LLMurError::BadRequest(msg));
            },
        }
        x = x + 1;
    }
    assert(views(out@) =~= slot_views(output@).map_values(|x: Option<Seq<char>>| x.unwrap()));
    Ok(out)
}

/// Once placing fails, placing more entries fails with the same message.
pub proof fn lemma_place_all_err_sticky(
    m: Seq<VirtualFileLineMapEntry>,
    contents: Seq<(String, Vec<String>)>,
    init: Seq<Option<Seq<char>>>,
    k: int,
)
    requires
        0 <= k <= m.len(),
        place_all(m.subrange(0, k), contents, init) is Err,
    ensures
        place_all(m, contents, init) == place_all(m.subrange(0, k), contents, init),
    decreases m.len() - k,
{
    if k < m.len() {
        assert(m.subrange(0, k + 1).drop_last() =~= m.subrange(0, k));
        lemma_place_all_err_sticky(m, contents, init, k + 1);
    } else {
        assert(m.subrange(0, k) =~= m);
    }
}


proof fn lemma_lookup_unique(contents: Seq<(String, Vec<String>)>, id: Seq<char>, g: int)
    requires
        0 <= g < contents.len(),
        contents[g].0@ == id,
        forall|h: int| 0 <= h < contents.len() && h != g ==> (#[trigger] contents[h]).0@ != id,
    ensures
        lookup_content(contents, id) == Some(views(contents[g].1@)),
    decreases contents.len(),
{
    if g != contents.len() - 1 {
        let c = contents.drop_last();
        assert forall|h: int| 0 <= h < c.len() && h != g implies (#[trigger] c[h]).0@ != id by {
            assert(c[h] == contents[h]);
        }
        lemma_lookup_unique(c, id, g);
    }
}

proof fn lemma_first_missing_none(s: Seq<Option<Seq<char>>>, i: int)
    requires
        0 <= i,
        forall|x: int| i <= x < s.len() ==> (#[trigger] s[x]) is Some,
    ensures
        first_missing(s, i) is None,
    decreases s.len() - i,
{
    if i < s.len() {
        lemma_first_missing_none(s, i + 1);
    }
}

/// Strictly increasing positions are at least their index.
proof fn lemma_index_bound(g: ProviderFileGroup, j: int)
    requires
        0 <= j < g.line_indices@.len(),
        forall|j1: int, j2: int|
            0 <= j1 < j2 < g.line_indices@.len() ==> #[trigger] g.line_indices@[j1]
                < #[trigger] g.line_indices@[j2],
    ensures
        j <= g.line_indices@[j],
    decreases j,
{
    if j > 0 {
        lemma_index_bound(g, j - 1);
        assert(g.line_indices@[j - 1] < g.line_indices@[j]);
    }
}

pub open spec fn filled_prefix(lines: Seq<String>, k: int) -> Seq<Option<Seq<char>>> {
    Seq::new(lines.len(), |x: int| if x < k { Some(lines[x]@) } else { None::<Seq<char>> })
}

pub open spec fn round_trip_inputs(
    keys: Seq<(String, DeploymentId)>,
    lines: Seq<String>,
    groups: Seq<ProviderFileGroup>,
    provider_file_ids: Seq<String>,
    m: Seq<VirtualFileLineMapEntry>,
    contents: Seq<(String, Vec<String>)>,
) -> bool {
    &&& keys.len() == lines.len()
    &&& lines.len() <= i32::MAX
    &&& is_grouping(keys, lines, groups)
    &&& provider_file_ids.len() == groups.len()
    &&& forall|g1: int, g2: int|
        0 <= g1 < groups.len() && 0 <= g2 < groups.len() && g1 != g2
            ==> (#[trigger] provider_file_ids[g1])@ != (#[trigger] provider_file_ids[g2])@
    &&& m.len() == lines.len()
    &&& forall|i: int| 0 <= i < m.len() ==> #[trigger] entry_maps_line(groups, provider_file_ids, m[i], i)
    &&& contents.len() == groups.len()
    &&& forall|g: int|
        0 <= g < groups.len() ==> (#[trigger] contents[g]).0@ == provider_file_ids[g]@
            && contents[g].1@ == groups[g].lines@
}

proof fn lemma_place_prefix(
    keys: Seq<(String, DeploymentId)>,
    lines: Seq<String>,
    groups: Seq<ProviderFileGroup>,
    provider_file_ids: Seq<String>,
    m: Seq<VirtualFileLineMapEntry>,
    contents: Seq<(String, Vec<String>)>,
    k: int,
)
    requires
        round_trip_inputs(keys, lines, groups, provider_file_ids, m, contents),
        0 <= k <= lines.len(),
    ensures
        place_all(m.subrange(0, k), contents, filled_prefix(lines, 0)) == Ok::<
            Seq<Option<Seq<char>>>,
            Seq<char>,
        >(filled_prefix(lines, k)),
    decreases k,
{
    if k == 0 {
        assert(m.subrange(0, 0) =~= Seq::<VirtualFileLineMapEntry>::empty());
    } else {
        let p = k - 1;
        lemma_place_prefix(keys, lines, groups, provider_file_ids, m, contents, p);
        assert(m.subrange(0, k).drop_last() =~= m.subrange(0, p));
        assert(m.subrange(0, k).last() == m[p]);
        assert(entry_maps_line(groups, provider_file_ids, m[p], p));
        let (g, j) = choose|g: int, j: int|
            #[trigger] writes_line(groups, g, j, p) && entry_view(m[p]) == entry_of(
                groups,
                provider_file_ids,
                g,
                j,
            );
        let grp = groups[g];
        assert(grp.lines@.len() == grp.line_indices@.len());
        lemma_index_bound(grp, j);
        assert(key_of(keys[p]) == group_key(grp));
        assert(grp.lines@[j] == lines[p]);
        assert(m[p].line_index == p);
        assert(m[p].provider_line_index == j);
        assert forall|h: int| 0 <= h < contents.len() && h != g implies (#[trigger] contents[h]).0@
            != provider_file_ids[g]@ by {
            assert(provider_file_ids[h]@ != provider_file_ids[g]@);
        }
        lemma_lookup_unique(contents, provider_file_ids[g]@, g);
        assert(lookup_content(contents, m[p].provider_file_id@) == Some(views(grp.lines@)));
        assert(views(grp.lines@)[j] == lines[p]@);
        assert(filled_prefix(lines, p).update(p, Some(views(grp.lines@)[j])) =~= filled_prefix(
            lines,
            k,
        ));
    }
}

/// Splitting a batch file into provider files and reading it back through
/// its line map gives the original lines, in the original order: when the
/// lines are grouped by provider deployment, each group is uploaded under its
/// own provider file id, the line map is one that `build_line_map` returns,
/// and each provider file is read back as the lines of its group.
pub proof fn law_batch_file_round_trip(
    keys: Seq<(String, DeploymentId)>,
    lines: Seq<String>,
    groups: Seq<ProviderFileGroup>,
    provider_file_ids: Seq<String>,
    m: Seq<VirtualFileLineMapEntry>,
    contents: Seq<(String, Vec<String>)>,
)
    requires
        round_trip_inputs(keys, lines, groups, provider_file_ids, m, contents),
    ensures
        spec_reconstruct(m, Some(lines.len() as i32), contents) == Ok::<Seq<Seq<char>>, Seq<char>>(
            views(lines),
        ),
{
    let n = lines.len();
    assert(line_count_of(Some(n as i32), m.len()) == n);
    assert(filled_prefix(lines, 0) =~= Seq::new(n as nat, |i: int| None::<Seq<char>>));
    lemma_place_prefix(keys, lines, groups, provider_file_ids, m, contents, n as int);
    assert(m.subrange(0, n as int) =~= m);
    lemma_first_missing_none(filled_prefix(lines, n as int), 0);
    assert(filled_prefix(lines, n as int).map_values(|x: Option<Seq<char>>| x.unwrap()) =~= views(
        lines,
    ));
}

} // verus!
