//! Barcode discovery: from the paths of the barcode directories found
//! under the dated holding directories to the mapping
//! barcode -> date directory, with last-seen-wins on duplicates.

use vstd::prelude::*;
use vstd::string::*;
use vstd::pervasive::VecAdditionalExecFns;
use crate::paths::{file_name, file_name_spec, parent_name, parent_name_spec, str_eq};

verus! {

/// One discovered unit of work: a barcode and the dated holding
/// subdirectory it was found under.
pub struct SourceEntry {
    pub barcode: String,
    pub source_subdir: String,
}

impl View for SourceEntry {
    type V = (Seq<char>, Seq<char>);

    open spec fn view(&self) -> (Seq<char>, Seq<char>) {
        (self.barcode@, self.source_subdir@)
    }
}

/// The mapping as a sequence of barcode/subdirectory pairs.
pub open spec fn entries_view(v: Seq<SourceEntry>) -> Seq<(Seq<char>, Seq<char>)> {
    v.map_values(|e: SourceEntry| e@)
}

/// No barcode occurs twice: the mapping is a proper mapping.
pub open spec fn unique_keys(m: Seq<(Seq<char>, Seq<char>)>) -> bool {
    forall|i: int, j: int| 0 <= i < j < m.len() ==> m[i].0 != m[j].0
}

/// Insert with last-seen-wins: a barcode already present keeps its place
/// but takes the new subdirectory; a new one goes to the end.
pub open spec fn dict_insert(
    m: Seq<(Seq<char>, Seq<char>)>,
    k: Seq<char>,
    v: Seq<char>,
) -> Seq<(Seq<char>, Seq<char>)>
    decreases m.len(),
{
    if m.len() == 0 {
        seq![(k, v)]
    } else if m[0].0 == k {
        seq![(k, v)] + m.drop_first()
    } else {
        seq![m[0]] + dict_insert(m.drop_first(), k, v)
    }
}

/// The discovery mapping of a list of barcode-directory paths. A path
/// whose name or parent name cannot be read contributes nothing.
pub open spec fn container_dict_spec(paths: Seq<Seq<char>>) -> Seq<(Seq<char>, Seq<char>)>
    decreases paths.len(),
{
    if paths.len() == 0 {
        Seq::empty()
    } else {
        let prev = container_dict_spec(paths.drop_last());
        let p = paths.last();
        match (file_name_spec(p), parent_name_spec(p)) {
            (Some(b), Some(d)) => dict_insert(prev, b, d),
            _ => prev,
        }
    }
}

proof fn lemma_dict_insert_found(m: Seq<(Seq<char>, Seq<char>)>, k: Seq<char>, v: Seq<char>, j: int)
    requires
        0 <= j < m.len(),
        m[j].0 == k,
        forall|l: int| 0 <= l < j ==> m[l].0 != k,
    ensures
        dict_insert(m, k, v) == m.update(j, (k, v)),
    decreases j,
{
    if j == 0 {
        assert(seq![(k, v)] + m.drop_first() =~= m.update(0, (k, v)));
    } else {
        assert(m[0].0 != k);
        assert(m.drop_first()[j - 1].0 == k);
        assert(forall|l: int| 0 <= l < j - 1 ==> m.drop_first()[l].0 != k);
        lemma_dict_insert_found(m.drop_first(), k, v, j - 1);
        assert(seq![m[0]] + m.drop_first().update(j - 1, (k, v)) =~= m.update(j, (k, v)));
    }
}

proof fn lemma_dict_insert_absent(m: Seq<(Seq<char>, Seq<char>)>, k: Seq<char>, v: Seq<char>)
    requires
        forall|l: int| 0 <= l < m.len() ==> m[l].0 != k,
    ensures
        dict_insert(m, k, v) == m.push((k, v)),
    decreases m.len(),
{
    if m.len() == 0 {
        assert(seq![(k, v)] =~= m.push((k, v)));
    } else {
        assert(forall|l: int| 0 <= l < m.drop_first().len() ==> m.drop_first()[l].0 != k);
        lemma_dict_insert_absent(m.drop_first(), k, v);
        assert(seq![m[0]] + m.drop_first().push((k, v)) =~= m.push((k, v)));
    }
}

/// Put one pair into the mapping, last-seen-wins.
fn dict_put(m: &mut Vec<SourceEntry>, barcode: String, subdir: String)
    requires
        unique_keys(entries_view(old(m)@)),
    ensures
        entries_view(final(m)@) == dict_insert(entries_view(old(m)@), barcode@, subdir@),
        unique_keys(entries_view(final(m)@)),
{
    let ghost m0 = entries_view(m@);
    let mut j: usize = 0;
    while j < m.len()
        invariant
            j <= m.len(),
            m@ == old(m)@,
            m0 == entries_view(m@),
            unique_keys(m0),
            forall|l: int| 0 <= l < j ==> entries_view(m@)[l].0 != barcode@,
        decreases m.len() - j,
    {
        if str_eq(m[j].barcode.as_str(), barcode.as_str()) {
            proof {
                lemma_dict_insert_found(m0, barcode@, subdir@, j as int);
            }
            m.set(j, SourceEntry { barcode, source_subdir: subdir });
            proof {
                assert(entries_view(m@) =~= m0.update(j as int, (barcode@, subdir@)));
                assert forall|a: int, b: int|
                    0 <= a < b < entries_view(m@).len() implies entries_view(m@)[a].0
                    != entries_view(m@)[b].0 by {
                    assert(entries_view(m@)[a].0 == m0[a].0);
                    assert(entries_view(m@)[b].0 == m0[b].0);
                }
            }
            return ;
        }
        j = j + 1;
    }
    proof {
        lemma_dict_insert_absent(m0, barcode@, subdir@);
    }
    m.push(SourceEntry { barcode, source_subdir: subdir });
    proof {
        assert(entries_view(m@) =~= m0.push((barcode@, subdir@)));
    }
}

/// Scan the discovered barcode-directory paths and build the mapping from
/// barcode to the date directory it lives under. Unreadable entries are
/// skipped, never fatal; an empty input gives an empty mapping.
pub fn discover_containers(barcode_dirs: &Vec<String>) -> (r: Vec<SourceEntry>)
    ensures
        entries_view(r@) == container_dict_spec(barcode_dirs.deep_view()),
        unique_keys(entries_view(r@)),
{
    let ghost all = barcode_dirs.deep_view();
    let mut r: Vec<SourceEntry> = Vec::new();
    let mut i: usize = 0;
    proof {
        assert(entries_view(r@) =~= container_dict_spec(all.take(0)));
    }
    while i < barcode_dirs.len()
        invariant
            i <= barcode_dirs.len(),
            all == barcode_dirs.deep_view(),
            entries_view(r@) == container_dict_spec(all.take(i as int)),
            unique_keys(entries_view(r@)),
        decreases barcode_dirs.len() - i,
    {
        let p = &barcode_dirs[i];
        proof {
            assert(all[i as int] == p@);
            assert(all.take(i + 1).drop_last() =~= all.take(i as int));
            assert(all.take(i + 1).last() == all[i as int]);
        }
        match (file_name(p.as_str()), parent_name(p.as_str())) {
            (Some(b), Some(d)) => {
                dict_put(&mut r, b, d);
            },
            _ => {},
        }
        i = i + 1;
    }
    proof {
        assert(all.take(i as int) =~= all);
    }
    r
}

} // verus!
