use vstd::prelude::*;
use crate::models::shares::{NfsShare, SmbShare};
use crate::text::{decimal_with, int_decimal, string_of};

verus! {

/// Whether an optional list holds something.
pub open spec fn has_entries(o: Option<Vec<String>>) -> bool {
    match o {
        Some(v) => v@.len() > 0,
        None => false,
    }
}

/// Whether an SMB share has allowed or denied hosts to show.
pub fn host_lists_shown(allow: &Option<Vec<String>>, deny: &Option<Vec<String>>) -> (b: bool)
    ensures
        b == (has_entries(*allow) || has_entries(*deny)),
{
    let a = match allow {
        Some(v) => v.len() > 0,
        None => false,
    };
    let d = match deny {
        Some(v) => v.len() > 0,
        None => false,
    };
    a || d
}

/// The Time Machine quota: `<quota> GB`, or `No limit` when it is not positive.
pub fn quota_text(quota: i32) -> (s: String)
    ensures
        s@ == (if quota > 0 { int_decimal(quota as int) + " GB"@ } else { "No limit"@ }),
{
    if quota > 0 {
        decimal_with(quota as i64, " GB")
    } else {
        string_of("No limit")
    }
}

/// The status badge of a share on its own page: `Active` or `Disabled`, and its style class.
pub fn detail_status_badge(enabled: bool) -> (r: (&'static str, &'static str))
    ensures
        r.0@ == (if enabled { "Active"@ } else { "Disabled"@ }),
        r.1@ == (if enabled { "success"@ } else { "error"@ }),
{
    if enabled { ("Active", "success") } else { ("Disabled", "error") }
}

/// A yes/no badge and its style class.
pub fn bool_badge(value: bool) -> (r: (&'static str, &'static str))
    ensures
        r.0@ == (if value { "Yes"@ } else { "No"@ }),
        r.1@ == (if value { "success"@ } else { "dim-label"@ }),
{
    if value { ("Yes", "success") } else { ("No", "dim-label") }
}

pub open spec fn flag(o: Option<bool>) -> bool {
    o == Some(true)
}

/// The features of an SMB share, each shown on when set and off otherwise.
pub open spec fn smb_features(s: SmbShare) -> Seq<(Seq<char>, bool)> {
    seq![
        ("ACL Support"@, flag(s.acl)),
        ("Alternate Data Streams"@, flag(s.streams)),
        ("Durable Handles"@, flag(s.durablehandle)),
        ("Shadow Copies"@, flag(s.shadowcopy)),
        ("Recycle Bin"@, flag(s.recyclebin)),
        ("Home Share"@, flag(s.home)),
        ("Time Machine"@, flag(s.timemachine)),
        ("Apple Name Mangling"@, flag(s.aapl_name_mangling)),
        ("ABE"@, flag(s.abe)),
        ("FSRVP"@, flag(s.fsrvp)),
        ("AFP"@, flag(s.afp)),
    ]
}

/// The length and first two characters of each feature label.
proof fn lemma_feature_label_keys()
    ensures
        "ACL Support"@.len() == 11 && "ACL Support"@[0] == 'A' && "ACL Support"@[1] == 'C',
        "Alternate Data Streams"@.len() == 22 && "Alternate Data Streams"@[0] == 'A' && "Alternate Data Streams"@[1] == 'l',
        "Durable Handles"@.len() == 15 && "Durable Handles"@[0] == 'D' && "Durable Handles"@[1] == 'u',
        "Shadow Copies"@.len() == 13 && "Shadow Copies"@[0] == 'S' && "Shadow Copies"@[1] == 'h',
        "Recycle Bin"@.len() == 11 && "Recycle Bin"@[0] == 'R' && "Recycle Bin"@[1] == 'e',
        "Home Share"@.len() == 10 && "Home Share"@[0] == 'H' && "Home Share"@[1] == 'o',
        "Time Machine"@.len() == 12 && "Time Machine"@[0] == 'T' && "Time Machine"@[1] == 'i',
        "Apple Name Mangling"@.len() == 19 && "Apple Name Mangling"@[0] == 'A' && "Apple Name Mangling"@[1] == 'p',
        "ABE"@.len() == 3 && "ABE"@[0] == 'A' && "ABE"@[1] == 'B',
        "FSRVP"@.len() == 5 && "FSRVP"@[0] == 'F' && "FSRVP"@[1] == 'S',
        "AFP"@.len() == 3 && "AFP"@[0] == 'A' && "AFP"@[1] == 'F',
{
    reveal_strlit("ACL Support");
    reveal_strlit("Alternate Data Streams");
    reveal_strlit("Durable Handles");
    reveal_strlit("Shadow Copies");
    reveal_strlit("Recycle Bin");
    reveal_strlit("Home Share");
    reveal_strlit("Time Machine");
    reveal_strlit("Apple Name Mangling");
    reveal_strlit("ABE");
    reveal_strlit("FSRVP");
    reveal_strlit("AFP");
}

/// The feature rows of an SMB share: the eleven labels in the page's order,
/// each once, and each row on exactly when the share's own setting of that
/// name is `Some(true)`.
pub proof fn law_smb_feature_rows_follow_fields(s: SmbShare)
    ensures
        smb_features(s).len() == 11,
        smb_features(s).map_values(|row: (Seq<char>, bool)| row.0) == seq![
            "ACL Support"@,
            "Alternate Data Streams"@,
            "Durable Handles"@,
            "Shadow Copies"@,
            "Recycle Bin"@,
            "Home Share"@,
            "Time Machine"@,
            "Apple Name Mangling"@,
            "ABE"@,
            "FSRVP"@,
            "AFP"@,
        ],
        forall|i: int, j: int| 0 <= i < j < 11 ==> #[trigger] smb_features(s)[i].0 != #[trigger] smb_features(s)[j].0,
        forall|i: int| 0 <= i < 11 ==> {
            let row = #[trigger] smb_features(s)[i];
            &&& (row.0 == "ACL Support"@ ==> row.1 == (s.acl == Some(true)))
            &&& (row.0 == "Alternate Data Streams"@ ==> row.1 == (s.streams == Some(true)))
            &&& (row.0 == "Durable Handles"@ ==> row.1 == (s.durablehandle == Some(true)))
            &&& (row.0 == "Shadow Copies"@ ==> row.1 == (s.shadowcopy == Some(true)))
            &&& (row.0 == "Recycle Bin"@ ==> row.1 == (s.recyclebin == Some(true)))
            &&& (row.0 == "Home Share"@ ==> row.1 == (s.home == Some(true)))
            &&& (row.0 == "Time Machine"@ ==> row.1 == (s.timemachine == Some(true)))
            &&& (row.0 == "Apple Name Mangling"@ ==> row.1 == (s.aapl_name_mangling == Some(true)))
            &&& (row.0 == "ABE"@ ==> row.1 == (s.abe == Some(true)))
            &&& (row.0 == "FSRVP"@ ==> row.1 == (s.fsrvp == Some(true)))
            &&& (row.0 == "AFP"@ ==> row.1 == (s.afp == Some(true)))
        },
{
    lemma_feature_label_keys();
    let rows = smb_features(s);
    assert forall|i: int| 0 <= i < 11 implies {
        let row = #[trigger] rows[i];
        &&& (row.0 == "ACL Support"@ ==> row.1 == (s.acl == Some(true)))
        &&& (row.0 == "Alternate Data Streams"@ ==> row.1 == (s.streams == Some(true)))
        &&& (row.0 == "Durable Handles"@ ==> row.1 == (s.durablehandle == Some(true)))
        &&& (row.0 == "Shadow Copies"@ ==> row.1 == (s.shadowcopy == Some(true)))
        &&& (row.0 == "Recycle Bin"@ ==> row.1 == (s.recyclebin == Some(true)))
        &&& (row.0 == "Home Share"@ ==> row.1 == (s.home == Some(true)))
        &&& (row.0 == "Time Machine"@ ==> row.1 == (s.timemachine == Some(true)))
        &&& (row.0 == "Apple Name Mangling"@ ==> row.1 == (s.aapl_name_mangling == Some(true)))
        &&& (row.0 == "ABE"@ ==> row.1 == (s.abe == Some(true)))
        &&& (row.0 == "FSRVP"@ ==> row.1 == (s.fsrvp == Some(true)))
        &&& (row.0 == "AFP"@ ==> row.1 == (s.afp == Some(true)))
    } by {}
    assert(rows.map_values(|row: (Seq<char>, bool)| row.0) =~= seq![
        "ACL Support"@,
        "Alternate Data Streams"@,
        "Durable Handles"@,
        "Shadow Copies"@,
        "Recycle Bin"@,
        "Home Share"@,
        "Time Machine"@,
        "Apple Name Mangling"@,
        "ABE"@,
        "FSRVP"@,
        "AFP"@,
    ]);
    assert forall|i: int, j: int| 0 <= i < j < 11 implies #[trigger] rows[i].0 != #[trigger] rows[j].0 by {
        if rows[i].0 == rows[j].0 {
            assert(rows[i].0.len() == rows[j].0.len());
            assert(rows[i].0[0] == rows[j].0[0]);
            assert(rows[i].0[1] == rows[j].0[1]);
        }
    }
}

pub open spec fn label_views(v: Seq<(&'static str, bool)>) -> Seq<(Seq<char>, bool)> {
    v.map_values(|p: (&'static str, bool)| (p.0@, p.1))
}

fn flag_of(o: Option<bool>) -> (b: bool)
    ensures
        b == flag(o),
{
    match o {
        Some(v) => v,
        None => false,
    }
}

/// The features of an SMB share, in the order they are shown.
pub fn smb_feature_flags(s: &SmbShare) -> (r: Vec<(&'static str, bool)>)
    ensures
        label_views(r@) == smb_features(*s),
{
    let ghost want = smb_features(*s);
    let r: Vec<(&'static str, bool)> = vec![
        ("ACL Support", flag_of(s.acl)),
        ("Alternate Data Streams", flag_of(s.streams)),
        ("Durable Handles", flag_of(s.durablehandle)),
        ("Shadow Copies", flag_of(s.shadowcopy)),
        ("Recycle Bin", flag_of(s.recyclebin)),
        ("Home Share", flag_of(s.home)),
        ("Time Machine", flag_of(s.timemachine)),
        ("Apple Name Mangling", flag_of(s.aapl_name_mangling)),
        ("ABE", flag_of(s.abe)),
        ("FSRVP", flag_of(s.fsrvp)),
        ("AFP", flag_of(s.afp)),
    ];
    assert forall|k: int| 0 <= k < 11 implies #[trigger] label_views(r@)[k] == want[k] by {}
    assert(label_views(r@) =~= want);
    r
}

/// A mapping row, when the value is set and not empty.
pub open spec fn mapping_row(label: Seq<char>, value: Option<String>) -> Seq<(Seq<char>, Seq<char>)> {
    match value {
        Some(v) => if v@.len() > 0 { seq![(label, v@)] } else { Seq::empty() },
        None => Seq::empty(),
    }
}

/// The user mappings of an NFS share that are set, in the order they are shown.
pub open spec fn nfs_mappings(s: NfsShare) -> Seq<(Seq<char>, Seq<char>)> {
    mapping_row("Map Root User"@, s.maproot_user)
        + mapping_row("Map Root Group"@, s.maproot_group)
        + mapping_row("Map All User"@, s.mapall_user)
        + mapping_row("Map All Group"@, s.mapall_group)
}

/// The length and fifth and ninth characters of each mapping label.
proof fn lemma_mapping_label_keys()
    ensures
        "Map Root User"@.len() == 13 && "Map Root User"@[4] == 'R' && "Map Root User"@[8] == ' ',
        "Map Root Group"@.len() == 14 && "Map Root Group"@[4] == 'R' && "Map Root Group"@[8] == ' ',
        "Map All User"@.len() == 12 && "Map All User"@[4] == 'A' && "Map All User"@[8] == 'U',
        "Map All Group"@.len() == 13 && "Map All Group"@[4] == 'A' && "Map All Group"@[8] == 'G',
{
    reveal_strlit("Map Root User");
    reveal_strlit("Map Root Group");
    reveal_strlit("Map All User");
    reveal_strlit("Map All Group");
}

/// The user-mapping rows of an NFS share: a row for each mapping that is set
/// to a non-empty name, showing that name, and no other rows.
pub proof fn law_nfs_mapping_rows_follow_fields(s: NfsShare)
    ensures
        forall|i: int| 0 <= i < nfs_mappings(s).len() ==> {
            let row = #[trigger] nfs_mappings(s)[i];
            &&& (row.0 == "Map Root User"@ ==> (s.maproot_user matches Some(v) && v@ == row.1 && v@.len() > 0))
            &&& (row.0 == "Map Root Group"@ ==> (s.maproot_group matches Some(v) && v@ == row.1 && v@.len() > 0))
            &&& (row.0 == "Map All User"@ ==> (s.mapall_user matches Some(v) && v@ == row.1 && v@.len() > 0))
            &&& (row.0 == "Map All Group"@ ==> (s.mapall_group matches Some(v) && v@ == row.1 && v@.len() > 0))
            &&& (row.0 == "Map Root User"@ || row.0 == "Map Root Group"@ || row.0 == "Map All User"@ || row.0 == "Map All Group"@)
        },
        s.maproot_user matches Some(v) ==> (v@.len() > 0 ==> nfs_mappings(s).contains(("Map Root User"@, v@))),
        s.maproot_group matches Some(v) ==> (v@.len() > 0 ==> nfs_mappings(s).contains(("Map Root Group"@, v@))),
        s.mapall_user matches Some(v) ==> (v@.len() > 0 ==> nfs_mappings(s).contains(("Map All User"@, v@))),
        s.mapall_group matches Some(v) ==> (v@.len() > 0 ==> nfs_mappings(s).contains(("Map All Group"@, v@))),
{
    lemma_mapping_label_keys();
    let m = nfs_mappings(s);
    let r1 = mapping_row("Map Root User"@, s.maproot_user);
    let r2 = mapping_row("Map Root Group"@, s.maproot_group);
    let r3 = mapping_row("Map All User"@, s.mapall_user);
    let r4 = mapping_row("Map All Group"@, s.mapall_group);
    assert(m == r1 + r2 + r3 + r4);
    assert forall|i: int| 0 <= i < m.len() implies {
        let row = #[trigger] m[i];
        &&& (row.0 == "Map Root User"@ ==> (s.maproot_user matches Some(v) && v@ == row.1 && v@.len() > 0))
        &&& (row.0 == "Map Root Group"@ ==> (s.maproot_group matches Some(v) && v@ == row.1 && v@.len() > 0))
        &&& (row.0 == "Map All User"@ ==> (s.mapall_user matches Some(v) && v@ == row.1 && v@.len() > 0))
        &&& (row.0 == "Map All Group"@ ==> (s.mapall_group matches Some(v) && v@ == row.1 && v@.len() > 0))
        &&& (row.0 == "Map Root User"@ || row.0 == "Map Root Group"@ || row.0 == "Map All User"@ || row.0 == "Map All Group"@)
    } by {
        if i < r1.len() {
            assert(m[i] == r1[i]);
        } else if i < r1.len() + r2.len() {
            assert(m[i] == r2[i - r1.len()]);
        } else if i < r1.len() + r2.len() + r3.len() {
            assert(m[i] == r3[i - r1.len() - r2.len()]);
        } else {
            assert(m[i] == r4[i - r1.len() - r2.len() - r3.len()]);
        }
    }
    if r1.len() > 0 {
        assert(m[0] == r1[0]);
    }
    if r2.len() > 0 {
        assert(m[r1.len() as int] == r2[0]);
    }
    if r3.len() > 0 {
        assert(m[(r1.len() + r2.len()) as int] == r3[0]);
    }
    if r4.len() > 0 {
        assert(m[(r1.len() + r2.len() + r3.len()) as int] == r4[0]);
    }
}

pub open spec fn row_views(v: Seq<(&'static str, String)>) -> Seq<(Seq<char>, Seq<char>)> {
    v.map_values(|p: (&'static str, String)| (p.0@, p.1@))
}

fn push_mapping(rows: &mut Vec<(&'static str, String)>, label: &'static str, value: &Option<String>)
    ensures
        row_views(final(rows)@) == row_views(old(rows)@) + mapping_row(label@, *value),
{
    match value {
        Some(v) => {
            if v.unicode_len() > 0 {
                rows.push((label, v.clone()));
                assert(row_views(rows@) =~= row_views(old(rows)@) + mapping_row(label@, *value));
            } else {
                assert(row_views(rows@) =~= row_views(old(rows)@) + mapping_row(label@, *value));
            }
        },
        None => {
            assert(row_views(rows@) =~= row_views(old(rows)@) + mapping_row(label@, *value));
        },
    }
}

/// The user mappings of an NFS share to show.
pub fn nfs_mapping_rows(s: &NfsShare) -> (r: Vec<(&'static str, String)>)
    ensures
        row_views(r@) == nfs_mappings(*s),
{
    let mut rows: Vec<(&'static str, String)> = Vec::new();
    push_mapping(&mut rows, "Map Root User", &s.maproot_user);
    push_mapping(&mut rows, "Map Root Group", &s.maproot_group);
    push_mapping(&mut rows, "Map All User", &s.mapall_user);
    push_mapping(&mut rows, "Map All Group", &s.mapall_group);
    assert(row_views(Seq::<(&'static str, String)>::empty()) =~= Seq::empty());
    assert(row_views(rows@) =~= nfs_mappings(*s));
    rows
}

} // verus!
