//! The dynamic update statement: its text holds a placeholder for exactly
//! the fields the partial payload names, and the bound values stand in the
//! same order as the placeholders. Values are always bound, never written
//! into the statement text.

use vstd::prelude::*;
use crate::codec::encode_genres;
use crate::codec::genres_json;
use crate::model::{UpdateItem, UpdateItemView};

verus! {

/// A value bound to a statement placeholder.
pub enum SqlValue {
    Int(i64),
    Text(String),
}

/// The mathematical image of a bound value.
#[verifier::ext_equal]
pub ghost enum SqlValueView {
    Int(int),
    Text(Seq<char>),
}

impl View for SqlValue {
    type V = SqlValueView;

    open spec fn view(&self) -> SqlValueView {
        match self {
            SqlValue::Int(v) => SqlValueView::Int(*v as int),
            SqlValue::Text(s) => SqlValueView::Text(s@),
        }
    }
}

impl DeepView for SqlValue {
    type V = SqlValueView;

    open spec fn deep_view(&self) -> SqlValueView {
        self.view()
    }
}

/// The text of the update statement a partial payload calls for.
pub open spec fn update_sql(u: UpdateItemView) -> Seq<char> {
    "UPDATE items SET updated_at = ?"@ + (if u.completed is Some {
        ", completed = ?"@
    } else {
        Seq::<char>::empty()
    }) + (if u.description is Some {
        ", description = ?"@
    } else {
        Seq::<char>::empty()
    }) + (if u.picture_url is Some {
        ", picture_url = ?"@
    } else {
        Seq::<char>::empty()
    }) + (if u.author is Some {
        ", author = ?"@
    } else {
        Seq::<char>::empty()
    }) + (if u.genres is Some {
        ", genres = ?"@
    } else {
        Seq::<char>::empty()
    }) + (if u.collection is Some {
        ", collection = ?"@
    } else {
        Seq::<char>::empty()
    }) + " WHERE id = ?"@
}

/// The values bound to that statement, in placeholder order: the fresh
/// timestamp first, then the named fields, the item id last. The completed
/// flag is bound as 1 or 0, the genre list as its JSON text.
pub open spec fn update_binds(u: UpdateItemView, id: Seq<char>, now: int) -> Seq<SqlValueView> {
    seq![SqlValueView::Int(now)] + (match u.completed {
        Some(c) => seq![SqlValueView::Int(if c { 1int } else { 0int })],
        None => Seq::<SqlValueView>::empty(),
    }) + (match u.description {
        Some(d) => seq![SqlValueView::Text(d)],
        None => Seq::<SqlValueView>::empty(),
    }) + (match u.picture_url {
        Some(p) => seq![SqlValueView::Text(p)],
        None => Seq::<SqlValueView>::empty(),
    }) + (match u.author {
        Some(a) => seq![SqlValueView::Text(a)],
        None => Seq::<SqlValueView>::empty(),
    }) + (match u.genres {
        Some(g) => seq![SqlValueView::Text(genres_json(g))],
        None => Seq::<SqlValueView>::empty(),
    }) + (match u.collection {
        Some(c) => seq![SqlValueView::Text(c)],
        None => Seq::<SqlValueView>::empty(),
    }) + seq![SqlValueView::Text(id)]
}

/// Builds the text of the update statement: a placeholder for exactly the
/// fields the payload names.
#[verifier::rlimit(30)]
fn update_sql_text(upd: &UpdateItem) -> (r: String)
    ensures
        r@ == update_sql(upd@),
{
    let mut sql = String::from_str("UPDATE items SET updated_at = ?");
    let ghost s1 = "UPDATE items SET updated_at = ?"@;
    if upd.completed.is_some() {
        sql.append(", completed = ?");
    }
    let ghost s2 = s1 + (if upd@.completed is Some { ", completed = ?"@ } else { Seq::<char>::empty() });
    proof {
        assert(sql@ =~= s2);
    }
    if upd.description.is_some() {
        sql.append(", description = ?");
    }
    let ghost s3 = s2 + (if upd@.description is Some { ", description = ?"@ } else { Seq::<char>::empty() });
    proof {
        assert(sql@ =~= s3);
    }
    if upd.picture_url.is_some() {
        sql.append(", picture_url = ?");
    }
    let ghost s4 = s3 + (if upd@.picture_url is Some { ", picture_url = ?"@ } else { Seq::<char>::empty() });
    proof {
        assert(sql@ =~= s4);
    }
    if upd.author.is_some() {
        sql.append(", author = ?");
    }
    let ghost s5 = s4 + (if upd@.author is Some { ", author = ?"@ } else { Seq::<char>::empty() });
    proof {
        assert(sql@ =~= s5);
    }
    if upd.genres.is_some() {
        sql.append(", genres = ?");
    }
    let ghost s6 = s5 + (if upd@.genres is Some { ", genres = ?"@ } else { Seq::<char>::empty() });
    proof {
        assert(sql@ =~= s6);
    }
    if upd.collection.is_some() {
        sql.append(", collection = ?");
    }
    let ghost s7 = s6 + (if upd@.collection is Some { ", collection = ?"@ } else { Seq::<char>::empty() });
    proof {
        assert(sql@ =~= s7);
    }
    sql.append(" WHERE id = ?");
    proof {
        assert(sql@ =~= s7 + " WHERE id = ?"@);
        assert(s7 + " WHERE id = ?"@ == update_sql(upd@));
    }
    sql
}

/// Builds the bound values of the update statement, in placeholder order.
#[verifier::rlimit(30)]
fn update_bind_values(upd: UpdateItem, id: &String, now: i64) -> (r: Vec<SqlValue>)
    ensures
        r.deep_view() == update_binds(upd@, id@, now as int),
{
    let mut binds: Vec<SqlValue> = Vec::new();
    binds.push(SqlValue::Int(now));
    let ghost b1 = seq![SqlValueView::Int(now as int)];
    proof {
        assert(binds.deep_view() =~= b1);
    }
    match upd.completed {
        Some(c) => {
            binds.push(SqlValue::Int(if c { 1 } else { 0 }));
        },
        None => {},
    }
    let ghost b2 = b1 + (match upd@.completed {
        Some(c) => seq![SqlValueView::Int(if c { 1int } else { 0int })],
        None => Seq::<SqlValueView>::empty(),
    });
    proof {
        assert(binds.deep_view() =~= b2);
    }
    match upd.description {
        Some(d) => {
            binds.push(SqlValue::Text(d));
        },
        None => {},
    }
    let ghost b3 = b2 + (match upd@.description {
        Some(d) => seq![SqlValueView::Text(d)],
        None => Seq::<SqlValueView>::empty(),
    });
    proof {
        assert(binds.deep_view() =~= b3);
    }
    match upd.picture_url {
        Some(p) => {
            binds.push(SqlValue::Text(p));
        },
        None => {},
    }
    let ghost b4 = b3 + (match upd@.picture_url {
        Some(p) => seq![SqlValueView::Text(p)],
        None => Seq::<SqlValueView>::empty(),
    });
    proof {
        assert(binds.deep_view() =~= b4);
    }
    match upd.author {
        Some(a) => {
            binds.push(SqlValue::Text(a));
        },
        None => {},
    }
    let ghost b5 = b4 + (match upd@.author {
        Some(a) => seq![SqlValueView::Text(a)],
        None => Seq::<SqlValueView>::empty(),
    });
    proof {
        assert(binds.deep_view() =~= b5);
    }
    match &upd.genres {
        Some(g) => {
            binds.push(SqlValue::Text(encode_genres(g)));
        },
        None => {},
    }
    let ghost b6 = b5 + (match upd@.genres {
        Some(g) => seq![SqlValueView::Text(genres_json(g))],
        None => Seq::<SqlValueView>::empty(),
    });
    proof {
        assert(binds.deep_view() =~= b6);
    }
    match upd.collection {
        Some(c) => {
            binds.push(SqlValue::Text(c));
        },
        None => {},
    }
    let ghost b7 = b6 + (match upd@.collection {
        Some(c) => seq![SqlValueView::Text(c)],
        None => Seq::<SqlValueView>::empty(),
    });
    proof {
        assert(binds.deep_view() =~= b7);
    }
    binds.push(SqlValue::Text(id.clone()));
    proof {
        assert(binds.deep_view() =~= b7 + seq![SqlValueView::Text(id@)]);
        assert(b7 + seq![SqlValueView::Text(id@)] == update_binds(upd@, id@, now as int));
    }
    binds
}

/// Builds the update statement and its bound values from the partial
/// payload: text and values correspond placeholder by placeholder.
pub fn update_statement(upd: UpdateItem, id: &String, now: i64) -> (r: (String, Vec<SqlValue>))
    ensures
        r.0@ == update_sql(upd@),
        r.1.deep_view() == update_binds(upd@, id@, now as int),
{
    let sql = update_sql_text(&upd);
    let binds = update_bind_values(upd, id, now);
    (sql, binds)
}

/// How often a character occurs in a sequence.
pub open spec fn count_char(s: Seq<char>, c: char) -> int
    decreases s.len(),
{
    if s.len() == 0 {
        0
    } else {
        count_char(s.drop_last(), c) + (if s.last() == c {
            1int
        } else {
            0int
        })
    }
}

proof fn lemma_count_char_add(a: Seq<char>, b: Seq<char>, c: char)
    ensures
        count_char(a + b, c) == count_char(a, c) + count_char(b, c),
    decreases b.len(),
{
    if b.len() == 0 {
        assert(a + b =~= a);
    } else {
        assert((a + b).drop_last() =~= a + b.drop_last());
        lemma_count_char_add(a, b.drop_last(), c);
    }
}

/// The statement text always holds exactly as many placeholders as values
/// are bound to it.
pub proof fn lemma_placeholders_match_binds(u: UpdateItemView, id: Seq<char>, now: int)
    ensures
        count_char(update_sql(u), '?') == update_binds(u, id, now).len(),
{
    reveal_strlit("UPDATE items SET updated_at = ?");
    reveal_strlit(", completed = ?");
    reveal_strlit(", description = ?");
    reveal_strlit(", picture_url = ?");
    reveal_strlit(", author = ?");
    reveal_strlit(", genres = ?");
    reveal_strlit(", collection = ?");
    reveal_strlit(" WHERE id = ?");
    reveal_with_fuel(count_char, 33);
    assert(count_char("UPDATE items SET updated_at = ?"@, '?') == 1);
    assert(count_char(", completed = ?"@, '?') == 1);
    assert(count_char(", description = ?"@, '?') == 1);
    assert(count_char(", picture_url = ?"@, '?') == 1);
    assert(count_char(", author = ?"@, '?') == 1);
    assert(count_char(", genres = ?"@, '?') == 1);
    assert(count_char(", collection = ?"@, '?') == 1);
    assert(count_char(" WHERE id = ?"@, '?') == 1);
    assert(count_char(Seq::<char>::empty(), '?') == 0);
    let s1 = "UPDATE items SET updated_at = ?"@;
    let c2 = if u.completed is Some { ", completed = ?"@ } else { Seq::<char>::empty() };
    let c3 = if u.description is Some { ", description = ?"@ } else { Seq::<char>::empty() };
    let c4 = if u.picture_url is Some { ", picture_url = ?"@ } else { Seq::<char>::empty() };
    let c5 = if u.author is Some { ", author = ?"@ } else { Seq::<char>::empty() };
    let c6 = if u.genres is Some { ", genres = ?"@ } else { Seq::<char>::empty() };
    let c7 = if u.collection is Some { ", collection = ?"@ } else { Seq::<char>::empty() };
    lemma_count_char_add(s1, c2, '?');
    lemma_count_char_add(s1 + c2, c3, '?');
    lemma_count_char_add(s1 + c2 + c3, c4, '?');
    lemma_count_char_add(s1 + c2 + c3 + c4, c5, '?');
    lemma_count_char_add(s1 + c2 + c3 + c4 + c5, c6, '?');
    lemma_count_char_add(s1 + c2 + c3 + c4 + c5 + c6, c7, '?');
    lemma_count_char_add(s1 + c2 + c3 + c4 + c5 + c6 + c7, " WHERE id = ?"@, '?');
}

} // verus!
