//! The update statements that change only the fields a request sets.

use vstd::prelude::*;
use crate::text::{decimal, push_decimal, push_str};

verus! {

/// `column = $n` for each column, numbered from 1, separated by commas.
pub open spec fn assignments(cols: Seq<Seq<char>>) -> Seq<char>
    decreases cols.len(),
{
    if cols.len() == 0 {
        seq![]
    } else if cols.len() == 1 {
        cols[0] + " = $"@ + decimal(1)
    } else {
        assignments(cols.drop_last()) + ", "@ + cols.last() + " = $"@ + decimal(cols.len())
    }
}

/// The columns whose flag is set, in order.
pub open spec fn present(cols: Seq<Seq<char>>, set: Seq<bool>) -> Seq<Seq<char>>
    decreases cols.len(),
{
    if cols.len() == 0 || set.len() == 0 {
        seq![]
    } else if set.last() {
        present(cols.drop_last(), set.drop_last()).push(cols.last())
    } else {
        present(cols.drop_last(), set.drop_last())
    }
}

/// No column is set exactly when no flag is.
proof fn lemma_present_empty(cols: Seq<Seq<char>>, set: Seq<bool>)
    requires
        cols.len() == set.len(),
    ensures
        (present(cols, set).len() == 0) == (forall|i: int| 0 <= i < set.len() ==> !#[trigger] set[i]),
    decreases cols.len(),
{
    if cols.len() > 0 {
        lemma_present_empty(cols.drop_last(), set.drop_last());
        assert forall|i: int| 0 <= i < set.len() - 1 implies set.drop_last()[i] == #[trigger] set[i] by {}
    }
}

/// An update of `table` that sets the given columns (and `updated_at` when
/// `touch` holds), for the row whose `key` is the last parameter.
pub open spec fn update_sql(
    table: Seq<char>,
    cols: Seq<Seq<char>>,
    touch: bool,
    key: Seq<char>,
    returning: Seq<char>,
) -> Seq<char> {
    let all = if touch { cols.push("updated_at"@) } else { cols };
    "UPDATE "@ + table + " SET "@ + assignments(all) + " WHERE "@ + key + " = $"@ + decimal(all.len() + 1)
        + " RETURNING "@ + returning
}

pub open spec fn names_of(v: Seq<String>) -> Seq<Seq<char>> {
    v.map_values(|s: String| s@)
}

fn present_columns(cols: Vec<String>, set: &Vec<bool>) -> (r: Vec<String>)
    requires
        cols@.len() == set@.len(),
    ensures
        names_of(r@) == present(names_of(cols@), set@),
        r@.len() <= cols@.len(),
{
    let n = set.len();
    let mut r: Vec<String> = Vec::new();
    let mut i: usize = 0;
    let mut rest = cols;
    let ghost all = rest@;
    while rest.len() > 0
        invariant
            n == set@.len(),
            all.len() == n,
            i + rest@.len() == n,
            rest@ == all.subrange(i as int, n as int),
            names_of(r@) == present(names_of(all.subrange(0, i as int)), set@.subrange(0, i as int)),
            r@.len() <= i,
        decreases rest@.len(),
    {
        let c = rest.remove(0);
        assert(names_of(all.subrange(0, (i + 1) as int)).drop_last() =~= names_of(all.subrange(0, i as int)));
        assert(set@.subrange(0, (i + 1) as int).drop_last() =~= set@.subrange(0, i as int));
        assert(names_of(all.subrange(0, (i + 1) as int)).last() == c@);
        if set[i] {
            let ghost before = r@;
            r.push(c);
            assert(names_of(r@) =~= names_of(before).push(c@));
        }
        assert(rest@ =~= all.subrange(i + 1, n as int));
        i += 1;
    }
    assert(all.subrange(0, n as int) =~= all);
    assert(set@.subrange(0, n as int) =~= set@);
    r
}

fn build_update(table: &str, cols: &Vec<String>, touch: bool, key: &str, returning: &str) -> (s: String)
    requires
        cols@.len() < 1000,
    ensures
        s@ == update_sql(table@, names_of(cols@), touch, key@, returning@),
{
    let ghost all = if touch { names_of(cols@).push("updated_at"@) } else { names_of(cols@) };
    let mut s = "UPDATE ".to_owned();
    push_str(&mut s, table);
    push_str(&mut s, " SET ");
    let ghost head = s@;
    let n = cols.len();
    let mut i: usize = 0;
    while i < n
        invariant
            n == cols@.len(),
            n < 1000,
            i <= n,
            s@ == head + assignments(names_of(cols@).subrange(0, i as int)),
        decreases n - i,
    {
        let ghost prefix = names_of(cols@).subrange(0, (i + 1) as int);
        assert(prefix.drop_last() =~= names_of(cols@).subrange(0, i as int));
        assert(prefix.last() == cols@[i as int]@);
        if i > 0 {
            push_str(&mut s, ", ");
        }
        push_str(&mut s, cols[i].as_str());
        push_str(&mut s, " = $");
        push_decimal(&mut s, (i + 1) as u64);
        assert(s@ =~= head + assignments(prefix));
        i += 1;
    }
    assert(names_of(cols@).subrange(0, n as int) =~= names_of(cols@));
    let mut count: u64 = n as u64;
    if touch {
        if n > 0 {
            push_str(&mut s, ", ");
        }
        push_str(&mut s, "updated_at");
        push_str(&mut s, " = $");
        push_decimal(&mut s, (n + 1) as u64);
        assert(all.drop_last() =~= names_of(cols@));
        assert(s@ =~= head + assignments(all));
        count = (n + 1) as u64;
    }
    push_str(&mut s, " WHERE ");
    push_str(&mut s, key);
    push_str(&mut s, " = $");
    push_decimal(&mut s, count + 1);
    push_str(&mut s, " RETURNING ");
    push_str(&mut s, returning);
    assert(s@ =~= update_sql(table@, names_of(cols@), touch, key@, returning@));
    s
}

pub open spec fn channel_columns() -> Seq<char> {
    "id, space_id, parent_id, name, slug, kind, visibility, position, topic, created_by, archived_at, created_at, updated_at"@
}

pub open spec fn space_columns() -> Seq<char> {
    "id, name, slug, description, icon_object_id, created_by, visibility, settings, created_at, updated_at"@
}

pub open spec fn feature_flag_columns() -> Seq<char> {
    "id, channel_id, text_enabled, file_upload_enabled, voice_group_enabled, video_group_enabled, threads_enabled, reactions_enabled"@
}

/// The update of a channel that sets the given fields (and the time of the
/// update); nothing when no field is set.
pub fn channel_update_sql(name: bool, topic: bool, visibility: bool) -> (r: Option<String>)
    ensures
        ({
            let cols = present(seq!["name"@, "topic"@, "visibility"@], seq![name, topic, visibility]);
            &&& cols.len() == 0 ==> r is None
            &&& cols.len() > 0 ==> r is Some && r->0@ == update_sql("channels"@, cols, true, "id"@, channel_columns())
        }),
{
    let cols = vec!["name".to_owned(), "topic".to_owned(), "visibility".to_owned()];
    let set = vec![name, topic, visibility];
    assert(names_of(cols@) =~= seq!["name"@, "topic"@, "visibility"@]);
    assert(set@ =~= seq![name, topic, visibility]);
    let present_cols = present_columns(cols, &set);
    if present_cols.len() == 0 {
        return None;
    }
    Some(build_update("channels", &present_cols, true, "id", "id, space_id, parent_id, name, slug, kind, visibility, position, topic, created_by, archived_at, created_at, updated_at"))
}

/// The update of a space that sets the given fields (and the time of the
/// update); nothing when no field is set.
pub fn space_update_sql(name: bool, description: bool, visibility: bool) -> (r: Option<String>)
    ensures
        ({
            let cols = present(seq!["name"@, "description"@, "visibility"@], seq![name, description, visibility]);
            &&& cols.len() == 0 ==> r is None
            &&& cols.len() > 0 ==> r is Some && r->0@ == update_sql("spaces"@, cols, true, "id"@, space_columns())
        }),
{
    let cols = vec!["name".to_owned(), "description".to_owned(), "visibility".to_owned()];
    let set = vec![name, description, visibility];
    assert(names_of(cols@) =~= seq!["name"@, "description"@, "visibility"@]);
    assert(set@ =~= seq![name, description, visibility]);
    let present_cols = present_columns(cols, &set);
    if present_cols.len() == 0 {
        return None;
    }
    Some(build_update("spaces", &present_cols, true, "id", "id, name, slug, description, icon_object_id, created_by, visibility, settings, created_at, updated_at"))
}

/// The update of a channel's feature switches that sets the given ones;
/// nothing when none is set.
pub fn feature_flags_update_sql(
    text_enabled: bool,
    file_upload_enabled: bool,
    voice_group_enabled: bool,
    video_group_enabled: bool,
    threads_enabled: bool,
    reactions_enabled: bool,
) -> (r: Option<String>)
    ensures
        ({
            let cols = present(
                seq![
                    "text_enabled"@,
                    "file_upload_enabled"@,
                    "voice_group_enabled"@,
                    "video_group_enabled"@,
                    "threads_enabled"@,
                    "reactions_enabled"@,
                ],
                seq![
                    text_enabled,
                    file_upload_enabled,
                    voice_group_enabled,
                    video_group_enabled,
                    threads_enabled,
                    reactions_enabled,
                ],
            );
            &&& (r is None) == !(text_enabled || file_upload_enabled || voice_group_enabled || video_group_enabled
                || threads_enabled || reactions_enabled)
            &&& cols.len() == 0 ==> r is None
            &&& cols.len() > 0 ==> r is Some && r->0@ == update_sql(
                "channel_feature_flags"@,
                cols,
                false,
                "channel_id"@,
                feature_flag_columns(),
            )
        }),
{
    let cols = vec![
        "text_enabled".to_owned(),
        "file_upload_enabled".to_owned(),
        "voice_group_enabled".to_owned(),
        "video_group_enabled".to_owned(),
        "threads_enabled".to_owned(),
        "reactions_enabled".to_owned(),
    ];
    let set = vec![
        text_enabled,
        file_upload_enabled,
        voice_group_enabled,
        video_group_enabled,
        threads_enabled,
        reactions_enabled,
    ];
    assert(names_of(cols@) =~= seq![
        "text_enabled"@,
        "file_upload_enabled"@,
        "voice_group_enabled"@,
        "video_group_enabled"@,
        "threads_enabled"@,
        "reactions_enabled"@,
    ]);
    assert(set@ =~= seq![
        text_enabled,
        file_upload_enabled,
        voice_group_enabled,
        video_group_enabled,
        threads_enabled,
        reactions_enabled,
    ]);
    proof {
        let names = seq![
            "text_enabled"@,
            "file_upload_enabled"@,
            "voice_group_enabled"@,
            "video_group_enabled"@,
            "threads_enabled"@,
            "reactions_enabled"@,
        ];
        lemma_present_empty(names, set@);
        if text_enabled || file_upload_enabled || voice_group_enabled || video_group_enabled || threads_enabled
            || reactions_enabled {
            if text_enabled { assert(set@[0]); }
            if file_upload_enabled { assert(set@[1]); }
            if voice_group_enabled { assert(set@[2]); }
            if video_group_enabled { assert(set@[3]); }
            if threads_enabled { assert(set@[4]); }
            if reactions_enabled { assert(set@[5]); }
        }
    }
    let present_cols = present_columns(cols, &set);
    if present_cols.len() == 0 {
        return None;
    }
    Some(build_update(
        "channel_feature_flags",
        &present_cols,
        false,
        "channel_id",
        "id, channel_id, text_enabled, file_upload_enabled, voice_group_enabled, video_group_enabled, threads_enabled, reactions_enabled",
    ))
}

} // verus!
