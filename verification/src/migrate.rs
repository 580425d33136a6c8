//! Additive schema migration: inspecting the live `items` table's columns
//! and deciding which columns still have to be added. Running it against an
//! already migrated table decides nothing.

use vstd::prelude::*;

verus! {

/// Some column carries this name.
pub open spec fn has_column(cols: Seq<Seq<char>>, name: Seq<char>) -> bool {
    exists|i: int| 0 <= i < cols.len() && cols[i] == name
}

/// The column list after the additive migration ran: `collection` and
/// `genres` are appended where missing, nothing else changes.
pub open spec fn migrated_columns(cols: Seq<Seq<char>>) -> Seq<Seq<char>> {
    let with_collection = if has_column(cols, "collection"@) {
        cols
    } else {
        cols.push("collection"@)
    };
    if has_column(with_collection, "genres"@) {
        with_collection
    } else {
        with_collection.push("genres"@)
    }
}

/// Which columns the migration still has to add.
#[derive(Clone, Copy, Debug, PartialEq, Eq, Structural)]
pub struct MigrationPlan {
    pub add_collection: bool,
    pub add_genres: bool,
}

/// Decides the migration from the live column names: a column is added
/// exactly when it is missing.
pub fn plan_migration(cols: &Vec<String>) -> (r: MigrationPlan)
    ensures
        r.add_collection == !has_column(cols.deep_view(), "collection"@),
        r.add_genres == !has_column(cols.deep_view(), "genres"@),
{
    let collection_name = String::from_str("collection");
    let genres_name = String::from_str("genres");
    let mut found_collection = false;
    let mut found_genres = false;
    let n = cols.len();
    let mut i: usize = 0;
    while i < n
        invariant
            i <= n,
            n == cols.len(),
            collection_name@ == "collection"@,
            genres_name@ == "genres"@,
            found_collection == has_column(cols.deep_view().subrange(0, i as int), "collection"@),
            found_genres == has_column(cols.deep_view().subrange(0, i as int), "genres"@),
        decreases n - i,
    {
        proof {
            assert(cols.deep_view().subrange(0, i + 1)
                =~= cols.deep_view().subrange(0, i as int).push(cols.deep_view()[i as int]));
        }
        if cols[i] == collection_name {
            found_collection = true;
        }
        if cols[i] == genres_name {
            found_genres = true;
        }
        proof {
            let ghost pre = cols.deep_view().subrange(0, i as int);
            let ghost cur = cols.deep_view().subrange(0, i + 1);
            assert(cur[i as int] == cols.deep_view()[i as int]);
            if has_column(cur, "collection"@) && !has_column(pre, "collection"@) {
                let j = choose|j: int| 0 <= j < cur.len() && cur[j] == "collection"@;
                if j < i {
                    assert(pre[j] == cur[j]);
                }
            }
            if has_column(cur, "genres"@) && !has_column(pre, "genres"@) {
                let j = choose|j: int| 0 <= j < cur.len() && cur[j] == "genres"@;
                if j < i {
                    assert(pre[j] == cur[j]);
                }
            }
        }
        i = i + 1;
    }
    proof {
        assert(cols.deep_view().subrange(0, n as int) =~= cols.deep_view());
    }
    MigrationPlan { add_collection: !found_collection, add_genres: !found_genres }
}

/// The statement that adds the `collection` column, with its default.
pub fn add_collection_sql() -> (r: &'static str)
    ensures
        r@ == "ALTER TABLE items ADD COLUMN collection TEXT DEFAULT 'Default'"@,
{
    "ALTER TABLE items ADD COLUMN collection TEXT DEFAULT 'Default'"
}

/// The statement that adds the nullable `genres` column.
pub fn add_genres_sql() -> (r: &'static str)
    ensures
        r@ == "ALTER TABLE items ADD COLUMN genres TEXT"@,
{
    "ALTER TABLE items ADD COLUMN genres TEXT"
}

/// Running the migration on an already migrated column list changes
/// nothing: both columns are present after one run, so a second run adds
/// neither again.
pub proof fn lemma_migration_idempotent(cols: Seq<Seq<char>>)
    ensures
        migrated_columns(migrated_columns(cols)) == migrated_columns(cols),
{
    let with_collection = if has_column(cols, "collection"@) {
        cols
    } else {
        cols.push("collection"@)
    };
    let once = migrated_columns(cols);
    assert(has_column(with_collection, "collection"@)) by {
        if !has_column(cols, "collection"@) {
            assert(with_collection[cols.len() as int] == "collection"@);
        }
    }
    assert(has_column(once, "collection"@)) by {
        if !has_column(with_collection, "genres"@) {
            let j = choose|j: int|
                0 <= j < with_collection.len() && with_collection[j] == "collection"@;
            assert(once[j] == "collection"@);
        }
    }
    assert(has_column(once, "genres"@)) by {
        if !has_column(with_collection, "genres"@) {
            assert(once[with_collection.len() as int] == "genres"@);
        }
    }
}

} // verus!
