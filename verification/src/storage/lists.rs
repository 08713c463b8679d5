//! What the list of all items is after one of them was saved or deleted.
use vstd::prelude::*;

use super::repository::CipherRows;
use super::tables::{Database, Statement};
use crate::api::{CipherSync, SyncResponse};
use crate::text;

verus! {

/// No item lies in two folders.
pub open spec fn linked_once(db: Database) -> bool {
    forall|a: (Seq<char>, Seq<char>), b: (Seq<char>, Seq<char>)|
        #![trigger db.links.contains(a), db.links.contains(b)]
        db.links.contains(a) && db.links.contains(b) && a.0 == b.0 ==> a == b
}

/// Saving an item leaves each item in one folder at most, and so does every statement but the one
/// that puts an item into a folder.
pub proof fn items_stay_in_one_folder(
    db: Database,
    cipher: CipherSync,
    user_id: String,
    statement: Statement,
)
    requires
        linked_once(db),
    ensures
        super::tables::apply_all(
            db,
            super::repository::cipher_plan(cipher, user_id),
        ) matches Some(after) ==> linked_once(after),
        super::tables::apply(db, statement) matches Some(after) ==> linked_once(after)
            || statement is ReplaceLink,
{
    super::laws::saving_an_item(db, cipher, user_id);
}

proof fn lemma_items_linked_once(db: Database, ciphers: Seq<CipherSync>, user_id: String)
    requires
        linked_once(db),
    ensures
        super::laws::after_items(db, ciphers, user_id) matches Some(after) ==> linked_once(after),
    decreases ciphers.len(),
{
    if ciphers.len() > 0 {
        lemma_items_linked_once(db, ciphers.drop_last(), user_id);
    }
}

/// After a whole vault was saved, each item lies in one folder at most.
pub proof fn a_saved_vault_has_items_in_one_folder(db: Database, sync: SyncResponse)
    requires
        super::tables::sound(db),
    ensures
        super::tables::apply_all(db, super::repository::sync_plan(sync)) matches Some(after)
            ==> linked_once(after),
{
    super::laws::a_sync_replaces_the_cache(db, sync);
    lemma_items_linked_once(
        super::laws::before_items(sync, db.session),
        sync.ciphers@,
        sync.profile.id,
    );
}

/// `rows` are what the queries on the item tables give, with one row for each item.
pub open spec fn lists_each_item(rows: CipherRows, db: Database) -> bool {
    &&& super::laws::lists_items(rows, db)
    &&& forall|i: int, j: int|
        #![trigger rows.ciphers@[i], rows.ciphers@[j]]
        0 <= i < j < rows.ciphers@.len() ==> rows.ciphers@[i].id@ != rows.ciphers@[j].id@
}

/// Two items that say the same.
pub open spec fn same_cipher(a: CipherSync, b: CipherSync) -> bool {
    &&& b == (CipherSync {
        folder_id: b.folder_id,
        fields: b.fields,
        attachments: b.attachments,
        extra: b.extra,
        ..a
    })
    &&& text::option_view(a.folder_id) == text::option_view(b.folder_id)
    &&& super::repository::is_list(a.fields, super::repository::fields_of(b))
    &&& super::repository::is_list(b.fields, super::repository::fields_of(a))
    &&& super::repository::is_list(a.attachments, super::repository::attachments_of(b))
    &&& super::repository::is_list(b.attachments, super::repository::attachments_of(a))
    &&& a.extra@ == b.extra@
}

/// The item is on the list.
pub open spec fn is_on(cipher: CipherSync, list: Seq<CipherSync>) -> bool {
    exists|j: int| 0 <= j < list.len() && same_cipher(cipher, #[trigger] list[j])
}

/// Every item of the list `a` but the one with this id is on the list `b`.
pub open spec fn others_are_on(a: Seq<CipherSync>, b: Seq<CipherSync>, id: Seq<char>) -> bool {
    forall|i: int| 0 <= i < a.len() && (#[trigger] a[i]).id@ != id ==> is_on(a[i], b)
}

/// Two states of the tables hold the same under every id but one.
pub open spec fn same_others(a: Database, b: Database, id: Seq<char>) -> bool {
    forall|other: Seq<char>| other != id ==> #[trigger] super::laws::same_item(a, b, other)
}

proof fn lemma_own_row(rows: CipherRows, db: Database, i: int)
    requires
        lists_each_item(rows, db),
        0 <= i < rows.ciphers@.len(),
    ensures
        ({
            let row = rows.ciphers@[i];
            &&& db.ciphers.dom().contains(row.id@)
            &&& db.ciphers[row.id@] == row
        }),
{
    let row = rows.ciphers@[i];
    assert(super::repository::first_row(rows.ciphers@, row.id@) == Some(row)) by {
        lemma_first_of_distinct(rows.ciphers@, i);
    }
}

proof fn lemma_first_of_distinct(rows: Seq<super::tables::CipherRow>, i: int)
    requires
        0 <= i < rows.len(),
        forall|i: int, j: int|
            #![trigger rows[i], rows[j]]
            0 <= i < j < rows.len() ==> rows[i].id@ != rows[j].id@,
    ensures
        super::repository::first_row(rows, rows[i].id@) == Some(rows[i]),
    decreases rows.len(),
{
    if i > 0 {
        assert(rows[0].id@ != rows[i].id@);
        let rest = rows.drop_first();
        assert forall|a: int, b: int|
            #![trigger rest[a], rest[b]]
            0 <= a < b < rest.len() implies rest[a].id@ != rest[b].id@ by {
            assert(rows[a + 1].id@ != rows[b + 1].id@);
        }
        assert(rest[i - 1] == rows[i]);
        lemma_first_of_distinct(rest, i - 1);
    }
}

/// An item that two states of the tables hold alike is read alike from both.
proof fn lemma_read_alike(
    a: Database,
    a_rows: CipherRows,
    b: Database,
    b_rows: CipherRows,
    row: super::tables::CipherRow,
    x: CipherSync,
    y: CipherSync,
)
    requires
        linked_once(a),
        super::laws::lists_items(a_rows, a),
        super::laws::lists_items(b_rows, b),
        super::laws::same_item(a, b, row.id@),
        super::repository::is_assembled_from(x, row, a_rows),
        super::repository::is_assembled_from(y, row, b_rows),
    ensures
        same_cipher(x, y),
{
    let id = row.id@;
    let x_link = super::repository::last_owned(a_rows.links@, id);
    let y_link = super::repository::last_owned(b_rows.links@, id);
    assert(text::option_view(x.folder_id) == text::option_view(y.folder_id)) by {
        if let Some(link) = x_link {
            assert(a.links.contains((id, link.folder_id@)));
            assert(b.links.contains((id, link.folder_id@)));
            assert(y_link is Some);
        }
        if let Some(link) = y_link {
            assert(b.links.contains((id, link.folder_id@)));
            assert(a.links.contains((id, link.folder_id@)));
            assert(x_link is Some);
        }
    }
    assert(super::repository::all_owned(a_rows.fields@, id) == super::repository::all_owned(
        b_rows.fields@,
        id,
    ));
    assert(super::repository::all_owned(a_rows.attachments@, id) == super::repository::all_owned(
        b_rows.attachments@,
        id,
    ));
    assert(super::repository::last_owned(a_rows.logins@, id) == super::repository::last_owned(
        b_rows.logins@,
        id,
    ));
    assert(super::repository::last_owned(a_rows.ssh_keys@, id) == super::repository::last_owned(
        b_rows.ssh_keys@,
        id,
    ));
}

proof fn lemma_others_stay(
    a: Database,
    a_rows: CipherRows,
    a_list: Seq<CipherSync>,
    b: Database,
    b_rows: CipherRows,
    b_list: Seq<CipherSync>,
    id: Seq<char>,
)
    requires
        linked_once(a),
        lists_each_item(a_rows, a),
        lists_each_item(b_rows, b),
        super::repository::are_ciphers(a_list, a_rows),
        super::repository::are_ciphers(b_list, b_rows),
        same_others(a, b, id),
    ensures
        others_are_on(a_list, b_list, id),
{
    assert forall|i: int| 0 <= i < a_list.len() && (#[trigger] a_list[i]).id@ != id implies is_on(
        a_list[i],
        b_list,
    ) by {
        let row = a_rows.ciphers@[i];
        assert(super::repository::is_assembled_from(a_list[i], row, a_rows));
        lemma_own_row(a_rows, a, i);
        assert(super::laws::same_item(a, b, row.id@));
        assert(super::repository::first_row(b_rows.ciphers@, row.id@) == Some(row));
        super::laws::lemma_first_row(b_rows.ciphers@, row.id@);
        let j = choose|j: int|
            0 <= j < b_rows.ciphers@.len() && #[trigger] b_rows.ciphers@[j]
                == super::repository::first_row(b_rows.ciphers@, row.id@).unwrap();
        assert(super::repository::is_assembled_from(b_list[j], b_rows.ciphers@[j], b_rows));
        lemma_read_alike(a, a_rows, b, b_rows, row, a_list[i], b_list[j]);
        assert(same_cipher(a_list[i], b_list[j]));
    }
}

proof fn lemma_distinct_list(db: Database, rows: CipherRows, list: Seq<CipherSync>)
    requires
        lists_each_item(rows, db),
        super::repository::are_ciphers(list, rows),
    ensures
        super::laws::distinct_items(list),
{
    assert forall|i: int, j: int|
        #![trigger list[i], list[j]]
        0 <= i < j < list.len() implies list[i].id@ != list[j].id@ by {
        assert(super::repository::is_assembled_from(list[i], rows.ciphers@[i], rows));
        assert(super::repository::is_assembled_from(list[j], rows.ciphers@[j], rows));
    }
}

/// After an item was saved, the list holds it once, as what is left of it, and beside it exactly
/// the other items that were on the list before, unchanged.
pub proof fn saving_changes_one_item_of_the_list(
    db: Database,
    cipher: CipherSync,
    user_id: String,
    rows: CipherRows,
    list: Seq<CipherSync>,
    new_rows: CipherRows,
    new_list: Seq<CipherSync>,
)
    requires
        linked_once(db),
        lists_each_item(rows, db),
        super::repository::are_ciphers(list, rows),
        super::tables::apply_all(
            db,
            super::repository::cipher_plan(cipher, user_id),
        ) matches Some(after) && lists_each_item(new_rows, after),
        super::repository::are_ciphers(new_list, new_rows),
    ensures
        super::laws::distinct_items(new_list),
        exists|j: int| 0 <= j < new_list.len() && super::laws::survives(cipher, #[trigger] new_list[j]),
        others_are_on(list, new_list, cipher.id@),
        others_are_on(new_list, list, cipher.id@),
{
    let id = cipher.id@;
    super::laws::saving_an_item(db, cipher, user_id);
    let after = super::laws::after_save(db, cipher, user_id);
    assert forall|other: Seq<char>| other != id implies #[trigger] super::laws::same_item(
        db,
        after,
        other,
    ) by {
        super::laws::saving_keeps_the_rest(db, cipher, user_id, other);
    }
    assert forall|other: Seq<char>| other != id implies #[trigger] super::laws::same_item(
        after,
        db,
        other,
    ) by {
        assert(super::laws::same_item(db, after, other));
    }
    assert(linked_once(after));
    lemma_others_stay(db, rows, list, after, new_rows, new_list, id);
    lemma_others_stay(after, new_rows, new_list, db, rows, list, id);
    lemma_distinct_list(after, new_rows, new_list);
    assert(super::repository::first_row(new_rows.ciphers@, id) is Some);
    super::laws::lemma_first_row(new_rows.ciphers@, id);
    let j = choose|j: int|
        0 <= j < new_rows.ciphers@.len() && #[trigger] new_rows.ciphers@[j]
            == super::repository::first_row(new_rows.ciphers@, id).unwrap();
    assert(super::repository::is_assembled_from(new_list[j], new_rows.ciphers@[j], new_rows));
    super::laws::reading_gives_back_what_was_saved(
        db,
        cipher,
        user_id,
        new_rows,
        Some(new_list[j]),
    );
}

/// Deleting an item always succeeds. Afterwards nothing that belongs to it is left, the list holds
/// exactly the other items that were on it before, unchanged, everything beside the items is as
/// it was, and deleting the item again changes nothing.
pub proof fn deleting_takes_one_item_off_the_list(
    db: Database,
    id: String,
    rows: CipherRows,
    list: Seq<CipherSync>,
    new_rows: CipherRows,
    new_list: Seq<CipherSync>,
)
    requires
        linked_once(db),
        lists_each_item(rows, db),
        super::repository::are_ciphers(list, rows),
        super::tables::apply(db, Statement::DeleteCipher(id)) matches Some(after)
            ==> lists_each_item(new_rows, after),
        super::repository::are_ciphers(new_list, new_rows),
    ensures
        super::laws::distinct_items(new_list),
        forall|j: int| 0 <= j < new_list.len() ==> (#[trigger] new_list[j]).id@ != id@,
        others_are_on(list, new_list, id@),
        others_are_on(new_list, list, id@),
        super::tables::apply(db, Statement::DeleteCipher(id)) matches Some(after)
            && super::laws::item_absent(after, id@) && super::laws::same_rest(db, after)
            && super::tables::apply(after, Statement::DeleteCipher(id)) == Some(after),
{
    let after = super::tables::apply(db, Statement::DeleteCipher(id)).unwrap();
    assert forall|other: Seq<char>| other != id@ implies #[trigger] super::laws::same_item(
        db,
        after,
        other,
    ) by {
        super::laws::deleting_an_item(db, id, other);
    }
    assert forall|other: Seq<char>| other != id@ implies #[trigger] super::laws::same_item(
        after,
        db,
        other,
    ) by {
        assert(super::laws::same_item(db, after, other));
    }
    assert(linked_once(after));
    lemma_others_stay(db, rows, list, after, new_rows, new_list, id@);
    lemma_others_stay(after, new_rows, new_list, db, rows, list, id@);
    lemma_distinct_list(after, new_rows, new_list);
    assert forall|j: int| 0 <= j < new_list.len() implies (#[trigger] new_list[j]).id@ != id@ by {
        assert(super::repository::is_assembled_from(
            new_list[j],
            new_rows.ciphers@[j],
            new_rows,
        ));
        lemma_own_row(new_rows, after, j);
    }
    let again = super::tables::apply(after, Statement::DeleteCipher(id)).unwrap();
    assert(again =~= after);
}

} // verus!
