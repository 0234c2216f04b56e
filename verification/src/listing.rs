//! The listing operation's data transform.
//!
//! The storage service answers a listing request with one page of raw
//! object entries.  Each entry with a key becomes a [`FileInfo`]: a
//! missing size defaults to zero, a missing modified time to the literal
//! `"Unknown"`, and the public URL is computed from region, bucket and
//! key.  The records are then sorted in descending lexicographic order
//! of their last-modified string.

use vstd::prelude::*;
use vstd::seq_lib::group_to_multiset_ensures;
use crate::naming::{public_url, spec_public_url};
use crate::order::{lemma_lex_le_total, lemma_lex_le_trans, lex_le, str_le};

verus! {

/// One raw entry of a listing answer, as the service reported it:
/// every field may be absent.
#[derive(Debug)]
pub struct RawObject {
    pub key: Option<String>,
    pub size: Option<i64>,
    pub last_modified: Option<String>,
}

/// One listed file, as handed to the caller.
#[derive(Debug)]
pub struct FileInfo {
    pub key: String,
    pub size: i64,
    pub last_modified: String,
    pub url: String,
}

/// The mathematical value of a [`FileInfo`].
pub struct FileInfoV {
    pub key: Seq<char>,
    pub size: i64,
    pub last_modified: Seq<char>,
    pub url: Seq<char>,
}

/// The mathematical value of a [`RawObject`].
pub struct RawObjectV {
    pub key: Option<Seq<char>>,
    pub size: Option<i64>,
    pub last_modified: Option<Seq<char>>,
}

impl View for FileInfo {
    type V = FileInfoV;

    open spec fn view(&self) -> FileInfoV {
        FileInfoV {
            key: self.key@,
            size: self.size,
            last_modified: self.last_modified@,
            url: self.url@,
        }
    }
}

impl View for RawObject {
    type V = RawObjectV;

    open spec fn view(&self) -> RawObjectV {
        RawObjectV {
            key: match self.key {
                Some(k) => Some(k@),
                None => None,
            },
            size: self.size,
            last_modified: match self.last_modified {
                Some(m) => Some(m@),
                None => None,
            },
        }
    }
}

/// The values of a sequence of records.
pub open spec fn views_of(s: Seq<FileInfo>) -> Seq<FileInfoV> {
    s.map_values(|f: FileInfo| f@)
}

/// The values of a sequence of raw entries.
pub open spec fn raw_views_of(s: Seq<RawObject>) -> Seq<RawObjectV> {
    s.map_values(|o: RawObject| o@)
}

/// The record derived from one raw entry that has a key: missing size
/// becomes zero, missing modified time becomes `"Unknown"`, and the
/// URL is the object's public URL.
pub open spec fn spec_file_info(o: RawObjectV, region: Seq<char>, bucket: Seq<char>) -> FileInfoV
    recommends
        o.key is Some,
{
    FileInfoV {
        key: o.key->0,
        size: if o.size is Some {
            o.size->0
        } else {
            0
        },
        last_modified: if o.last_modified is Some {
            o.last_modified->0
        } else {
            "Unknown"@
        },
        url: spec_public_url(region, bucket, o.key->0),
    }
}

/// The records derived from a page of raw entries, in page order;
/// entries without a key are dropped.
pub open spec fn spec_records(objs: Seq<RawObjectV>, region: Seq<char>, bucket: Seq<char>) -> Seq<
    FileInfoV,
>
    decreases objs.len(),
{
    if objs.len() == 0 {
        Seq::empty()
    } else {
        spec_records(objs.drop_last(), region, bucket) + (if objs.last().key is Some {
            seq![spec_file_info(objs.last(), region, bucket)]
        } else {
            Seq::empty()
        })
    }
}

/// The records are in descending lexicographic order of their
/// last-modified string.
pub open spec fn sorted_desc(s: Seq<FileInfoV>) -> bool {
    forall|i: int, j: int|
        0 <= i <= j < s.len() ==> lex_le(#[trigger] s[j].last_modified, #[trigger] s[i].last_modified)
}

/// Derive the records from one page of raw entries, in page order.
fn collect_file_infos(objects: &Vec<RawObject>, region: &str, bucket: &str) -> (r: Vec<FileInfo>)
    ensures
        views_of(r@) == spec_records(raw_views_of(objects@), region@, bucket@),
{
    let ghost rv = raw_views_of(objects@);
    let mut r: Vec<FileInfo> = Vec::new();
    assert(rv.take(0) =~= Seq::<RawObjectV>::empty());
    assert(views_of(r@) =~= Seq::<FileInfoV>::empty());
    for i in 0..objects.len()
        invariant
            rv == raw_views_of(objects@),
            views_of(r@) == spec_records(rv.take(i as int), region@, bucket@),
    {
        let obj = &objects[i];
        proof {
            assert(rv.take(i + 1).drop_last() =~= rv.take(i as int));
            assert(rv.take(i + 1).last() == rv[i as int]);
            assert(rv[i as int] == objects@[i as int]@);
        }
        match &obj.key {
            Some(k) => {
                let size = match obj.size {
                    Some(s) => s,
                    None => 0,
                };
                let last_modified = match &obj.last_modified {
                    Some(m) => m.clone(),
                    None => "Unknown".to_owned(),
                };
                let url = public_url(region, bucket, k.as_str());
                let info = FileInfo { key: k.clone(), size, last_modified, url };
                proof {
                    assert(info@ == spec_file_info(rv[i as int], region@, bucket@));
                }
                r.push(info);
                proof {
                    assert(views_of(r@) =~= spec_records(rv.take(i as int), region@, bucket@)
                        + seq![spec_file_info(rv[i as int], region@, bucket@)]);
                }
            },
            None => {
                proof {
                    assert(spec_records(rv.take(i + 1), region@, bucket@) == spec_records(
                        rv.take(i as int),
                        region@,
                        bucket@,
                    ) + Seq::<FileInfoV>::empty());
                    assert(views_of(r@) =~= spec_records(rv.take(i as int), region@, bucket@)
                        + Seq::<FileInfoV>::empty());
                }
            },
        }
    }
    proof {
        assert(rv.take(objects@.len() as int) =~= rv);
    }
    r
}

/// Insert one record into a descending-sorted vector, keeping it sorted.
fn insert_sorted(v: &mut Vec<FileInfo>, x: FileInfo)
    requires
        sorted_desc(views_of(old(v)@)),
    ensures
        sorted_desc(views_of(final(v)@)),
        views_of(final(v)@).to_multiset() == views_of(old(v)@).to_multiset().insert(x@),
{
    broadcast use group_to_multiset_ensures;

    let ghost ov = views_of(old(v)@);
    let mut i: usize = 0;
    while i < v.len() && str_le(&x.last_modified, &v[i].last_modified)
        invariant
            v == old(v),
            i <= v.len(),
            ov == views_of(v@),
            forall|k: int| 0 <= k < i ==> lex_le(x@.last_modified, ov[k].last_modified),
        decreases v.len() - i,
    {
        assert(ov[i as int] == v@[i as int]@);
        i += 1;
    }
    proof {
        if i < v@.len() {
            assert(ov[i as int] == v@[i as int]@);
            assert(!lex_le(x@.last_modified, ov[i as int].last_modified));
            lemma_lex_le_total(x@.last_modified, ov[i as int].last_modified);
            assert(lex_le(ov[i as int].last_modified, x@.last_modified));
        }
    }
    v.insert(i, x);
    proof {
        let nv = views_of(v@);
        assert(nv =~= ov.insert(i as int, x@));
        assert forall|a: int, b: int| 0 <= a <= b < nv.len() implies lex_le(
            nv[b].last_modified,
            nv[a].last_modified,
        ) by {
            if b < i {
                assert(nv[a] == ov[a] && nv[b] == ov[b]);
                assert(lex_le(ov[b].last_modified, ov[a].last_modified));
            } else if a < i && b == i {
                assert(nv[a] == ov[a] && nv[b] == x@);
                assert(lex_le(x@.last_modified, ov[a].last_modified));
            } else if a < i && b > i {
                assert(nv[a] == ov[a] && nv[b] == ov[b - 1]);
                assert(lex_le(ov[b - 1].last_modified, ov[a].last_modified));
            } else if a == i && b == i {
                crate::order::lemma_lex_le_refl(x@.last_modified);
            } else if a == i && b > i {
                assert(nv[b] == ov[b - 1]);
                assert(lex_le(ov[b - 1].last_modified, ov[i as int].last_modified));
                lemma_lex_le_trans(
                    ov[b - 1].last_modified,
                    ov[i as int].last_modified,
                    x@.last_modified,
                );
            } else {
                assert(nv[a] == ov[a - 1] && nv[b] == ov[b - 1]);
                assert(lex_le(ov[b - 1].last_modified, ov[a - 1].last_modified));
            }
        }
        vstd::seq_lib::to_multiset_insert(ov, i as int, x@);
    }
}

/// Sort records in descending order of their last-modified string.
///
/// The result holds exactly the given records, reordered.
pub fn sort_files_desc(records: Vec<FileInfo>) -> (r: Vec<FileInfo>)
    ensures
        sorted_desc(views_of(r@)),
        views_of(r@).to_multiset() == views_of(records@).to_multiset(),
{
    broadcast use group_to_multiset_ensures;

    let ghost all = views_of(records@);
    let mut rest = records;
    let mut r: Vec<FileInfo> = Vec::new();
    assert(views_of(r@) =~= Seq::<FileInfoV>::empty());
    assert(views_of(r@).to_multiset().add(views_of(rest@).to_multiset()) =~= all.to_multiset());
    while rest.len() > 0
        invariant
            sorted_desc(views_of(r@)),
            views_of(r@).to_multiset().add(views_of(rest@).to_multiset()) == all.to_multiset(),
        decreases rest.len(),
    {
        let ghost before = views_of(rest@);
        let x = rest.pop().unwrap();
        proof {
            assert(before =~= views_of(rest@).push(x@));
            vstd::seq_lib::to_multiset_build(views_of(rest@), x@);
            assert(before.to_multiset() == views_of(rest@).to_multiset().insert(x@));
        }
        let ghost r_before = views_of(r@);
        insert_sorted(&mut r, x);
        proof {
            assert(views_of(r@).to_multiset() == r_before.to_multiset().insert(x@));
            assert(views_of(r@).to_multiset().add(views_of(rest@).to_multiset())
                =~= r_before.to_multiset().add(before.to_multiset()));
        }
    }
    r
}

/// Turn one page of raw listing entries into the caller's view: derive
/// a record for every entry with a key, then sort descending by
/// last-modified string.
pub fn process_listing(objects: &Vec<RawObject>, region: &str, bucket: &str) -> (r: Vec<FileInfo>)
    ensures
        sorted_desc(views_of(r@)),
        views_of(r@).to_multiset() == spec_records(
            raw_views_of(objects@),
            region@,
            bucket@,
        ).to_multiset(),
{
    let collected = collect_file_infos(objects, region, bucket);
    sort_files_desc(collected)
}

} // verus!
