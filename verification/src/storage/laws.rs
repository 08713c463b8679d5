//! What the repository's operations do to the cache database as a whole.
use vstd::prelude::*;
use vstd::string::*;

use super::tables::{
    AttachmentRow, CipherRow, Database, FieldRow, FolderRow, LinkRow, OrganizationRow, Statement,
    UserRow,
};
use super::repository::{CipherRows, VaultRows};
use super::transaction::Action;
use crate::api::{
    AttachmentSync, CipherSync, FieldSync, FolderSync, OrganizationSync, SyncResponse,
};
use crate::config::{Config, Session};
use crate::primitives;
use crate::text;

verus! {

// ---------------------------------------------------------------------------
// Saving one item
// ---------------------------------------------------------------------------
/// A table with rows put behind those that the item `id` has.
pub open spec fn with_rows<R>(table: Map<Seq<char>, Seq<R>>, id: Seq<char>, rows: Seq<R>) -> Map<
    Seq<char>,
    Seq<R>,
> {
    if rows.len() == 0 {
        table
    } else {
        table.insert(id, super::tables::rows_of(table, id) + rows)
    }
}

/// The rows of fields.
pub open spec fn field_rows(id: String, fields: Seq<FieldSync>) -> Seq<FieldRow> {
    fields.map_values(|f: FieldSync| super::repository::field_row(id, f))
}

/// The rows of attachments.
pub open spec fn attachment_rows(id: String, attachments: Seq<AttachmentSync>) -> Seq<
    AttachmentRow,
> {
    attachments.map_values(|a: AttachmentSync| super::repository::attachment_row(id, a))
}

/// No two attachments share an id, and no item but `owner` has one of them.
pub open spec fn attachments_fit(
    db: Database,
    owner: Seq<char>,
    attachments: Seq<AttachmentSync>,
) -> bool {
    &&& forall|i: int, j: int|
        #![trigger attachments[i], attachments[j]]
        0 <= i < j < attachments.len() ==> attachments[i].id@ != attachments[j].id@
    &&& forall|i: int|
        #![trigger attachments[i]]
        0 <= i < attachments.len() ==> !super::tables::attachment_taken(
            Database { attachments: db.attachments.remove(owner), ..db },
            attachments[i].id@,
        )
}

/// The tables let an item be saved: its user, its organization and its folder are there, and
/// its attachments are its own.
pub open spec fn saveable(db: Database, cipher: CipherSync, user_id: String) -> bool {
    &&& db.users.dom().contains(user_id@)
    &&& cipher.organization_id matches Some(org) ==> db.organizations.dom().contains(org@)
    &&& attachments_fit(db, cipher.id@, super::repository::attachments_of(cipher))
    &&& cipher.folder_id matches Some(folder) ==> db.folders.dom().contains(folder@)
}

/// The tables with an item in place of whatever they held under its id.
pub open spec fn after_save(db: Database, cipher: CipherSync, user_id: String) -> Database {
    let id = cipher.id@;
    let unlinked = super::tables::links_without(db.links, |l: (Seq<char>, Seq<char>)| l.0 == id);
    Database {
        ciphers: db.ciphers.insert(id, super::repository::cipher_row(cipher, user_id)),
        logins: match cipher.login {
            Some(login) => db.logins.insert(id, super::repository::login_row(cipher.id, login)),
            None => db.logins.remove(id),
        },
        ssh_keys: match cipher.ssh_key {
            Some(key) => db.ssh_keys.insert(id, super::repository::ssh_key_row(cipher.id, key)),
            None => db.ssh_keys.remove(id),
        },
        fields: with_rows(
            db.fields.remove(id),
            id,
            field_rows(cipher.id, super::repository::fields_of(cipher)),
        ),
        attachments: with_rows(
            db.attachments.remove(id),
            id,
            attachment_rows(cipher.id, super::repository::attachments_of(cipher)),
        ),
        links: match cipher.folder_id {
            Some(folder) => unlinked.insert((id, folder@)),
            None => unlinked,
        },
        ..db
    }
}

proof fn lemma_push(db: Database, plan: Seq<Statement>, statement: Statement)
    ensures
        super::tables::apply_all(db, plan.push(statement)) == match super::tables::apply_all(
            db,
            plan,
        ) {
            Some(middle) => super::tables::apply(middle, statement),
            None => None,
        },
{
    assert(plan.push(statement).drop_last() =~= plan);
}

proof fn lemma_one(db: Database, statement: Statement)
    ensures
        super::tables::apply_all(db, seq![statement]) == super::tables::apply(db, statement),
{
    lemma_push(db, Seq::empty(), statement);
    assert(Seq::<Statement>::empty().push(statement) =~= seq![statement]);
}

/// The tables after the core row of an item was put in and what belonged to it taken out.
spec fn after_core(db: Database, cipher: CipherSync, user_id: String) -> Database {
    let id = cipher.id@;
    Database {
        ciphers: db.ciphers.insert(id, super::repository::cipher_row(cipher, user_id)),
        logins: db.logins.remove(id),
        ssh_keys: db.ssh_keys.remove(id),
        fields: db.fields.remove(id),
        attachments: db.attachments.remove(id),
        links: super::tables::links_without(db.links, |l: (Seq<char>, Seq<char>)| l.0 == id),
        ..db
    }
}

proof fn lemma_core(db: Database, cipher: CipherSync, user_id: String)
    ensures
        super::tables::apply_all(db, super::repository::core_plan(cipher, user_id)) == if (
        db.users.dom().contains(user_id@) && (cipher.organization_id matches Some(org)
            ==> db.organizations.dom().contains(org@))) {
            Some(after_core(db, cipher, user_id))
        } else {
            None
        },
{
    let id = cipher.id;
    let row = super::repository::cipher_row(cipher, user_id);
    let s0 = Seq::<Statement>::empty();
    let s1 = s0.push(Statement::ReplaceCipher(row));
    let s2 = s1.push(Statement::DeleteLogins(id));
    let s3 = s2.push(Statement::DeleteSshKeys(id));
    let s4 = s3.push(Statement::DeleteFields(id));
    let s5 = s4.push(Statement::DeleteAttachments(id));
    let s6 = s5.push(Statement::DeleteLinks(id));
    assert(s6 =~= super::repository::core_plan(cipher, user_id));
    lemma_push(db, s0, Statement::ReplaceCipher(row));
    lemma_push(db, s1, Statement::DeleteLogins(id));
    lemma_push(db, s2, Statement::DeleteSshKeys(id));
    lemma_push(db, s3, Statement::DeleteFields(id));
    lemma_push(db, s4, Statement::DeleteAttachments(id));
    lemma_push(db, s5, Statement::DeleteLinks(id));
    if super::tables::apply_all(db, s6) is Some {
        assert(super::tables::apply_all(db, s6).unwrap() =~= after_core(db, cipher, user_id));
    }
}

proof fn lemma_fields(db: Database, id: String, fields: Seq<FieldSync>)
    requires
        db.ciphers.dom().contains(id@),
    ensures
        super::tables::apply_all(db, super::repository::fields_plan(id, fields)) == Some(
            Database { fields: with_rows(db.fields, id@, field_rows(id, fields)), ..db },
        ),
    decreases fields.len(),
{
    let plan = super::repository::fields_plan(id, fields);
    if fields.len() > 0 {
        let shorter = fields.drop_last();
        lemma_fields(db, id, shorter);
        assert(plan.drop_last() =~= super::repository::fields_plan(id, shorter));
        let done = field_rows(id, shorter);
        let row = super::repository::field_row(id, fields.last());
        assert(field_rows(id, fields) =~= done.push(row));
        let after = super::tables::apply_all(db, plan).unwrap();
        let old_rows = super::tables::rows_of(db.fields, id@);
        assert((old_rows + done).push(row) =~= old_rows + done.push(row));
        assert(old_rows.push(row) =~= old_rows + seq![row]);
        assert(after.fields =~= with_rows(db.fields, id@, field_rows(id, fields)));
    }
}

proof fn lemma_taken(db: Database, id: Seq<char>, rows: Seq<AttachmentRow>, wanted: Seq<char>)
    ensures
        super::tables::attachment_taken(
            Database { attachments: with_rows(db.attachments, id, rows), ..db },
            wanted,
        ) == (super::tables::attachment_taken(db, wanted) || exists|k: int|
            0 <= k < rows.len() && (#[trigger] rows[k]).id@ == wanted),
{
    let after = Database { attachments: with_rows(db.attachments, id, rows), ..db };
    let old_rows = super::tables::rows_of(db.attachments, id);
    if super::tables::attachment_taken(after, wanted) {
        let (cipher, i) = choose|cipher: Seq<char>, i: int|
            #![trigger after.attachments[cipher][i]]
            {
                &&& after.attachments.dom().contains(cipher)
                &&& 0 <= i < after.attachments[cipher].len()
                &&& after.attachments[cipher][i].id@ == wanted
            };
        if rows.len() > 0 && cipher == id && i >= old_rows.len() {
            assert(rows[i - old_rows.len()].id@ == wanted);
        } else {
            assert(db.attachments.dom().contains(cipher));
            assert(db.attachments[cipher][i].id@ == wanted);
        }
    }
    if super::tables::attachment_taken(db, wanted) {
        let (cipher, i) = choose|cipher: Seq<char>, i: int|
            #![trigger db.attachments[cipher][i]]
            {
                &&& db.attachments.dom().contains(cipher)
                &&& 0 <= i < db.attachments[cipher].len()
                &&& db.attachments[cipher][i].id@ == wanted
            };
        assert(after.attachments[cipher][i].id@ == wanted);
    }
    if exists|k: int| 0 <= k < rows.len() && (#[trigger] rows[k]).id@ == wanted {
        let k = choose|k: int| 0 <= k < rows.len() && (#[trigger] rows[k]).id@ == wanted;
        assert(after.attachments[id][old_rows.len() + k].id@ == wanted);
    }
}

/// No two attachments share an id, and no item has one of them.
spec fn attachments_free(db: Database, attachments: Seq<AttachmentSync>) -> bool {
    &&& forall|i: int, j: int|
        #![trigger attachments[i], attachments[j]]
        0 <= i < j < attachments.len() ==> attachments[i].id@ != attachments[j].id@
    &&& forall|i: int|
        #![trigger attachments[i]]
        0 <= i < attachments.len() ==> !super::tables::attachment_taken(db, attachments[i].id@)
}

proof fn lemma_attachments(db: Database, id: String, attachments: Seq<AttachmentSync>)
    requires
        db.ciphers.dom().contains(id@),
    ensures
        super::tables::apply_all(db, super::repository::attachments_plan(id, attachments))
            == if attachments_free(db, attachments) {
            Some(
                Database {
                    attachments: with_rows(
                        db.attachments,
                        id@,
                        attachment_rows(id, attachments),
                    ),
                    ..db
                },
            )
        } else {
            None
        },
    decreases attachments.len(),
{
    let plan = super::repository::attachments_plan(id, attachments);
    if attachments.len() > 0 {
        let shorter = attachments.drop_last();
        let last = attachments.last();
        lemma_attachments(db, id, shorter);
        assert(plan.drop_last() =~= super::repository::attachments_plan(id, shorter));
        let done = attachment_rows(id, shorter);
        let row = super::repository::attachment_row(id, last);
        assert(attachment_rows(id, attachments) =~= done.push(row));
        lemma_taken(db, id@, done, last.id@);
        let n = shorter.len() as int;
        if attachments_free(db, attachments) {
            assert forall|i: int, j: int|
                #![trigger shorter[i], shorter[j]]
                0 <= i < j < shorter.len() implies shorter[i].id@ != shorter[j].id@ by {
                assert(attachments[i].id@ != attachments[j].id@);
            }
            assert forall|i: int|
                #![trigger shorter[i]]
                0 <= i < shorter.len() implies !super::tables::attachment_taken(
                db,
                shorter[i].id@,
            ) by {
                assert(!super::tables::attachment_taken(db, attachments[i].id@));
            }
            assert(attachments_free(db, shorter));
            assert(!super::tables::attachment_taken(db, attachments[n].id@));
            if exists|k: int| 0 <= k < done.len() && (#[trigger] done[k]).id@ == last.id@ {
                let k = choose|k: int| 0 <= k < done.len() && (#[trigger] done[k]).id@ == last.id@;
                assert(attachments[k].id@ != attachments[n].id@);
            }
            let after = super::tables::apply_all(db, plan).unwrap();
            let old_rows = super::tables::rows_of(db.attachments, id@);
            assert((old_rows + done).push(row) =~= old_rows + done.push(row));
            assert(old_rows.push(row) =~= old_rows + seq![row]);
            assert(after.attachments =~= with_rows(
                db.attachments,
                id@,
                attachment_rows(id, attachments),
            ));
        } else if attachments_free(db, shorter) {
            if !super::tables::attachment_taken(db, last.id@) {
                assert(exists|k: int| 0 <= k < done.len() && (#[trigger] done[k]).id@ == last.id@)
                    by {
                    assert forall|i: int|
                        #![trigger attachments[i]]
                        0 <= i < attachments.len() implies !super::tables::attachment_taken(
                        db,
                        attachments[i].id@,
                    ) by {
                        if i < n {
                            assert(!super::tables::attachment_taken(db, shorter[i].id@));
                        }
                    }
                    let (i, j) = choose|i: int, j: int|
                        #![trigger attachments[i], attachments[j]]
                        0 <= i < j < attachments.len() && attachments[i].id@
                            == attachments[j].id@;
                    if j < n {
                        assert(shorter[i].id@ != shorter[j].id@);
                    }
                    assert(done[i].id@ == last.id@);
                }
            }
        }
    }
}

/// Saving an item succeeds where the tables let it, and puts exactly that item in place of
/// whatever they held under its id; where they do not let it, the save is refused.
pub proof fn saving_an_item(db: Database, cipher: CipherSync, user_id: String)
    ensures
        super::tables::apply_all(db, super::repository::cipher_plan(cipher, user_id))
            == if saveable(db, cipher, user_id) {
            Some(after_save(db, cipher, user_id))
        } else {
            None
        },
{
    let id = cipher.id;
    let core = super::repository::core_plan(cipher, user_id);
    let login = super::repository::login_plan(cipher);
    let ssh_key = super::repository::ssh_key_plan(cipher);
    let fields = super::repository::fields_plan(id, super::repository::fields_of(cipher));
    let attachments = super::repository::attachments_plan(
        id,
        super::repository::attachments_of(cipher),
    );
    let link = super::repository::link_plan(cipher);
    super::tables::plans_compose(db, core, login);
    super::tables::plans_compose(db, core + login, ssh_key);
    super::tables::plans_compose(db, core + login + ssh_key, fields);
    super::tables::plans_compose(db, core + login + ssh_key + fields, attachments);
    super::tables::plans_compose(db, core + login + ssh_key + fields + attachments, link);
    lemma_core(db, cipher, user_id);
    if super::tables::apply_all(db, core) is Some {
        let d1 = after_core(db, cipher, user_id);
        if let Some(l) = cipher.login {
            lemma_one(d1, Statement::InsertLogin(super::repository::login_row(id, l)));
        }
        let d2 = super::tables::apply_all(d1, login).unwrap();
        if let Some(k) = cipher.ssh_key {
            lemma_one(d2, Statement::InsertSshKey(super::repository::ssh_key_row(id, k)));
        }
        let d3 = super::tables::apply_all(d2, ssh_key).unwrap();
        lemma_fields(d3, id, super::repository::fields_of(cipher));
        let d4 = super::tables::apply_all(d3, fields).unwrap();
        lemma_attachments(d4, id, super::repository::attachments_of(cipher));
        let list = super::repository::attachments_of(cipher);
        let bare = Database { attachments: db.attachments.remove(id@), ..db };
        assert forall|x: Seq<char>|
            super::tables::attachment_taken(d4, x) == super::tables::attachment_taken(bare, x) by {
            assert(d4.attachments == bare.attachments);
            if super::tables::attachment_taken(d4, x) {
                let (c, i) = choose|c: Seq<char>, i: int|
                    #![trigger d4.attachments[c][i]]
                    d4.attachments.dom().contains(c) && 0 <= i < d4.attachments[c].len()
                        && d4.attachments[c][i].id@ == x;
                assert(bare.attachments[c][i].id@ == x);
            }
            if super::tables::attachment_taken(bare, x) {
                let (c, i) = choose|c: Seq<char>, i: int|
                    #![trigger bare.attachments[c][i]]
                    bare.attachments.dom().contains(c) && 0 <= i < bare.attachments[c].len()
                        && bare.attachments[c][i].id@ == x;
                assert(d4.attachments[c][i].id@ == x);
            }
        }
        assert(attachments_free(d4, list) == attachments_fit(db, id@, list));
        if attachments_fit(db, id@, list) {
            let d5 = super::tables::apply_all(d4, attachments).unwrap();
            if let Some(folder_id) = cipher.folder_id {
                lemma_one(d5, Statement::ReplaceLink(LinkRow { cipher_id: id, folder_id }));
            }
            if saveable(db, cipher, user_id) {
                let d6 = super::tables::apply_all(d5, link).unwrap();
                assert(d6 =~= after_save(db, cipher, user_id));
            }
        }
    }
}

/// The tables hold nothing under the id of an item.
pub open spec fn item_absent(db: Database, id: Seq<char>) -> bool {
    &&& !db.ciphers.dom().contains(id)
    &&& !db.logins.dom().contains(id)
    &&& !db.ssh_keys.dom().contains(id)
    &&& !db.fields.dom().contains(id)
    &&& !db.attachments.dom().contains(id)
    &&& forall|l: (Seq<char>, Seq<char>)| #[trigger] db.links.contains(l) ==> l.0 != id
}

/// Two states of the tables hold the same under the id of an item.
pub open spec fn same_item(a: Database, b: Database, id: Seq<char>) -> bool {
    &&& a.ciphers.dom().contains(id) == b.ciphers.dom().contains(id)
    &&& a.ciphers.dom().contains(id) ==> a.ciphers[id] == b.ciphers[id]
    &&& a.logins.dom().contains(id) == b.logins.dom().contains(id)
    &&& a.logins.dom().contains(id) ==> a.logins[id] == b.logins[id]
    &&& a.ssh_keys.dom().contains(id) == b.ssh_keys.dom().contains(id)
    &&& a.ssh_keys.dom().contains(id) ==> a.ssh_keys[id] == b.ssh_keys[id]
    &&& super::tables::rows_of(a.fields, id) == super::tables::rows_of(b.fields, id)
    &&& super::tables::rows_of(a.attachments, id) == super::tables::rows_of(b.attachments, id)
    &&& forall|l: (Seq<char>, Seq<char>)|
        l.0 == id ==> #[trigger] a.links.contains(l) == b.links.contains(l)
}

/// Two states of the tables hold the same beside the items.
pub open spec fn same_rest(a: Database, b: Database) -> bool {
    &&& a.users == b.users
    &&& a.organizations == b.organizations
    &&& a.folders == b.folders
    &&& a.metadata == b.metadata
    &&& a.session == b.session
}

/// Saving an item touches no other item, and nothing beside the items.
pub proof fn saving_keeps_the_rest(
    db: Database,
    cipher: CipherSync,
    user_id: String,
    other: Seq<char>,
)
    requires
        saveable(db, cipher, user_id),
        other != cipher.id@,
    ensures
        super::tables::apply_all(db, super::repository::cipher_plan(cipher, user_id)) matches Some(
            after,
        ) && same_item(db, after, other) && same_rest(db, after),
{
    saving_an_item(db, cipher, user_id);
}

proof fn lemma_taken_bare(a: Database, b: Database, wanted: Seq<char>)
    requires
        a.attachments =~= b.attachments,
    ensures
        super::tables::attachment_taken(a, wanted) == super::tables::attachment_taken(b, wanted),
{
    assert(a.attachments == b.attachments);
    if super::tables::attachment_taken(a, wanted) {
        let (c, i) = choose|c: Seq<char>, i: int|
            #![trigger a.attachments[c][i]]
            a.attachments.dom().contains(c) && 0 <= i < a.attachments[c].len()
                && a.attachments[c][i].id@ == wanted;
        assert(b.attachments[c][i].id@ == wanted);
    }
    if super::tables::attachment_taken(b, wanted) {
        let (c, i) = choose|c: Seq<char>, i: int|
            #![trigger b.attachments[c][i]]
            b.attachments.dom().contains(c) && 0 <= i < b.attachments[c].len()
                && b.attachments[c][i].id@ == wanted;
        assert(a.attachments[c][i].id@ == wanted);
    }
}

/// Saving an item that was just saved changes nothing.
pub proof fn saving_twice_is_saving_once(db: Database, cipher: CipherSync, user_id: String)
    requires
        saveable(db, cipher, user_id),
    ensures
        ({
            let plan = super::repository::cipher_plan(cipher, user_id);
            super::tables::apply_all(db, plan) matches Some(once) && super::tables::apply_all(
                once,
                plan,
            ) == Some(once)
        }),
{
    saving_an_item(db, cipher, user_id);
    let once = after_save(db, cipher, user_id);
    saving_an_item(once, cipher, user_id);
    let id = cipher.id@;
    let list = super::repository::attachments_of(cipher);
    let bare = Database { attachments: db.attachments.remove(id), ..db };
    let bare_once = Database { attachments: once.attachments.remove(id), ..once };
    assert forall|i: int|
        #![trigger list[i]]
        0 <= i < list.len() implies !super::tables::attachment_taken(bare_once, list[i].id@) by {
        lemma_taken_bare(bare, bare_once, list[i].id@);
    }
    assert(saveable(once, cipher, user_id));
    assert(after_save(once, cipher, user_id) =~= once);
}

/// Deleting an item removes everything that belongs to it, and nothing else.
pub proof fn deleting_an_item(db: Database, id: String, other: Seq<char>)
    requires
        other != id@,
    ensures
        super::tables::apply(db, Statement::DeleteCipher(id)) matches Some(after) && item_absent(
            after,
            id@,
        ) && same_item(db, after, other) && same_rest(db, after),
{
}

/// An item that was not there before is gone without a trace after it was saved and deleted.
pub proof fn deleting_undoes_saving(db: Database, cipher: CipherSync, user_id: String)
    requires
        saveable(db, cipher, user_id),
        item_absent(db, cipher.id@),
    ensures
        super::tables::apply_all(
            db,
            super::repository::cipher_plan(cipher, user_id).push(
                Statement::DeleteCipher(cipher.id),
            ),
        ) == Some(db),
{
    let plan = super::repository::cipher_plan(cipher, user_id);
    saving_an_item(db, cipher, user_id);
    lemma_push(db, plan, Statement::DeleteCipher(cipher.id));
    let after = super::tables::apply(
        after_save(db, cipher, user_id),
        Statement::DeleteCipher(cipher.id),
    ).unwrap();
    assert(after.ciphers =~= db.ciphers);
    assert(after.logins =~= db.logins);
    assert(after.ssh_keys =~= db.ssh_keys);
    assert(after.fields =~= db.fields);
    assert(after.attachments =~= db.attachments);
    assert(after.links =~= db.links);
}

/// Deleting a folder keeps every item; those that lay in it lie in no folder any more.
pub proof fn deleting_a_folder_keeps_its_items(db: Database, id: String)
    ensures
        super::tables::apply(db, Statement::DeleteFolder(id)) matches Some(after) && after.ciphers
            == db.ciphers && after.logins == db.logins && after.ssh_keys == db.ssh_keys
            && after.fields == db.fields && after.attachments == db.attachments
            && !after.folders.dom().contains(id@) && (forall|l: (Seq<char>, Seq<char>)|
            #[trigger] after.links.contains(l) <==> db.links.contains(l) && l.1 != id@),
{
}

// ---------------------------------------------------------------------------
// Reading one item
// ---------------------------------------------------------------------------
/// `rows` are what the queries on the item tables give.
pub open spec fn lists_items(rows: CipherRows, db: Database) -> bool {
    &&& forall|id: Seq<char>|
        #![trigger super::repository::first_row(rows.ciphers@, id)]
        super::repository::first_row(rows.ciphers@, id) == if db.ciphers.dom().contains(id) {
            Some(db.ciphers[id])
        } else {
            None
        }
    &&& forall|id: Seq<char>|
        #![trigger super::repository::last_owned(rows.logins@, id)]
        super::repository::last_owned(rows.logins@, id) == if db.logins.dom().contains(id) {
            Some(db.logins[id])
        } else {
            None
        }
    &&& forall|id: Seq<char>|
        #![trigger super::repository::last_owned(rows.ssh_keys@, id)]
        super::repository::last_owned(rows.ssh_keys@, id) == if db.ssh_keys.dom().contains(id) {
            Some(db.ssh_keys[id])
        } else {
            None
        }
    &&& forall|id: Seq<char>|
        #![trigger super::repository::all_owned(rows.fields@, id)]
        super::repository::all_owned(rows.fields@, id) == super::tables::rows_of(db.fields, id)
    &&& forall|id: Seq<char>|
        #![trigger super::repository::all_owned(rows.attachments@, id)]
        super::repository::all_owned(rows.attachments@, id) == super::tables::rows_of(
            db.attachments,
            id,
        )
    &&& forall|id: Seq<char>|
        #![trigger super::repository::last_owned(rows.links@, id)]
        match super::repository::last_owned(rows.links@, id) {
            Some(link) => db.links.contains((id, link.folder_id@)),
            None => forall|l: (Seq<char>, Seq<char>)| #[trigger] db.links.contains(l) ==> l.0 != id,
        }
}

/// `read` is what is left of `cipher` after it was stored: everything but the card, identity,
/// note, collections, password history and permissions, with empty lists taken as none.
pub open spec fn survives(cipher: CipherSync, read: CipherSync) -> bool {
    &&& read.id == cipher.id
    &&& read.organization_id == cipher.organization_id
    &&& text::option_view(read.folder_id) == text::option_view(cipher.folder_id)
    &&& read.kind == cipher.kind
    &&& read.name == cipher.name
    &&& read.notes == cipher.notes
    &&& read.favorite == cipher.favorite
    &&& read.reprompt == cipher.reprompt
    &&& read.organization_use_totp == cipher.organization_use_totp
    &&& read.edit == cipher.edit
    &&& read.view_password == cipher.view_password
    &&& read.creation_date == cipher.creation_date
    &&& read.revision_date == cipher.revision_date
    &&& read.deleted_date == cipher.deleted_date
    &&& read.archived_date == cipher.archived_date
    &&& read.key == cipher.key
    &&& read.login == cipher.login
    &&& read.ssh_key == cipher.ssh_key
    &&& super::repository::is_list(read.fields, super::repository::fields_of(cipher))
    &&& super::repository::is_list(read.attachments, super::repository::attachments_of(cipher))
    &&& read.object == cipher.object
    &&& read.extra@ == super::repository::object_text(cipher.extra@)
    &&& read.card is None
    &&& read.identity is None
    &&& read.secure_note is None
    &&& read.collection_ids is None
    &&& read.password_history is None
    &&& read.permissions is None
}

/// The tables hold `cipher` for the user `user_id`.
pub open spec fn holds_item(db: Database, cipher: CipherSync, user_id: String) -> bool {
    same_item(after_save(db, cipher, user_id), db, cipher.id@)
}

/// An item that the tables hold is read as what was stored.
pub proof fn stored_items_are_read_back(
    db: Database,
    cipher: CipherSync,
    user_id: String,
    rows: CipherRows,
    read: CipherSync,
)
    requires
        holds_item(db, cipher, user_id),
        lists_items(rows, db),
        super::repository::is_assembled_from(
            read,
            super::repository::first_row(rows.ciphers@, cipher.id@).unwrap(),
            rows,
        ),
    ensures
        survives(cipher, read),
{
    let id = cipher.id@;
    let saved = after_save(db, cipher, user_id);
    let row = super::repository::first_row(rows.ciphers@, id).unwrap();
    assert(saved.ciphers.dom().contains(id));
    assert(row == super::repository::cipher_row(cipher, user_id));
    let fields = super::repository::fields_of(cipher);
    let frows = super::repository::all_owned(rows.fields@, row.id@);
    assert(frows =~= field_rows(cipher.id, fields)) by {
        assert(super::tables::rows_of(saved.fields, id) =~= field_rows(cipher.id, fields));
    }
    assert(super::repository::fields_of_rows(frows) =~= fields);
    let attachments = super::repository::attachments_of(cipher);
    let arows = super::repository::all_owned(rows.attachments@, row.id@);
    assert(arows =~= attachment_rows(cipher.id, attachments)) by {
        assert(super::tables::rows_of(saved.attachments, id) =~= attachment_rows(
            cipher.id,
            attachments,
        ));
    }
    assert(super::repository::attachments_of_rows(arows) =~= attachments);
    match cipher.folder_id {
        Some(folder) => {
            assert(saved.links.contains((id, folder@)));
            assert(db.links.contains((id, folder@)));
            let link = super::repository::last_owned(rows.links@, row.id@).unwrap();
            assert(db.links.contains((id, link.folder_id@)));
            assert(saved.links.contains((id, link.folder_id@)));
        },
        None => {
            if let Some(link) = super::repository::last_owned(rows.links@, row.id@) {
                assert(db.links.contains((id, link.folder_id@)));
                assert(saved.links.contains((id, link.folder_id@)));
            }
        },
    }
}

/// What is read of an item after it was saved is what was saved.
pub proof fn reading_gives_back_what_was_saved(
    db: Database,
    cipher: CipherSync,
    user_id: String,
    rows: CipherRows,
    read: Option<CipherSync>,
)
    requires
        saveable(db, cipher, user_id),
        super::tables::apply_all(
            db,
            super::repository::cipher_plan(cipher, user_id),
        ) matches Some(after) && lists_items(rows, after),
        match super::repository::first_row(rows.ciphers@, cipher.id@) {
            Some(row) => read matches Some(found) && super::repository::is_assembled_from(
                found,
                row,
                rows,
            ),
            None => read is None,
        },
    ensures
        read matches Some(found) && survives(cipher, found),
{
    saving_an_item(db, cipher, user_id);
    let after = after_save(db, cipher, user_id);
    lemma_holds_after_save(db, cipher, user_id);
    assert(super::repository::first_row(rows.ciphers@, cipher.id@) is Some);
    stored_items_are_read_back(after, cipher, user_id, rows, read.unwrap());
}

pub(crate) proof fn lemma_holds_after_save(db: Database, cipher: CipherSync, user_id: String)
    ensures
        holds_item(after_save(db, cipher, user_id), cipher, user_id),
{
    let after = after_save(db, cipher, user_id);
    assert(after_save(after, cipher, user_id) =~= after);
}

// ---------------------------------------------------------------------------
// Saving the whole vault
// ---------------------------------------------------------------------------
/// Tables that hold no vault.
pub open spec fn no_vault(session: Option<super::tables::SessionRow>) -> Database {
    Database {
        users: Map::empty(),
        organizations: Map::empty(),
        folders: Map::empty(),
        ciphers: Map::empty(),
        logins: Map::empty(),
        ssh_keys: Map::empty(),
        fields: Map::empty(),
        attachments: Map::empty(),
        links: Set::empty(),
        metadata: None,
        session,
    }
}

/// Emptying the vault leaves nothing of it, whatever the tables held.
pub proof fn wiping_leaves_nothing(db: Database)
    requires
        super::tables::sound(db),
    ensures
        super::tables::apply_all(db, super::repository::wipe_plan()) == Some(no_vault(db.session)),
{
    let s0 = Seq::<Statement>::empty();
    let s1 = s0.push(Statement::ClearUsers);
    let s2 = s1.push(Statement::ClearOrganizations);
    let s3 = s2.push(Statement::ClearFolders);
    let s4 = s3.push(Statement::ClearCiphers);
    let s5 = s4.push(Statement::ClearMetadata);
    assert(s5 =~= super::repository::wipe_plan());
    lemma_push(db, s0, Statement::ClearUsers);
    lemma_push(db, s1, Statement::ClearOrganizations);
    lemma_push(db, s2, Statement::ClearFolders);
    lemma_push(db, s3, Statement::ClearCiphers);
    lemma_push(db, s4, Statement::ClearMetadata);
    let d1 = super::tables::apply(db, Statement::ClearUsers).unwrap();
    assert(d1.ciphers =~= Map::<Seq<char>, CipherRow>::empty());
    assert(d1.folders =~= Map::<Seq<char>, FolderRow>::empty());
    assert(d1.logins =~= Map::<Seq<char>, super::tables::LoginRow>::empty());
    assert(d1.ssh_keys =~= Map::<Seq<char>, super::tables::SshKeyRow>::empty());
    assert(d1.fields =~= Map::<Seq<char>, Seq<FieldRow>>::empty());
    assert(d1.attachments =~= Map::<Seq<char>, Seq<AttachmentRow>>::empty());
    assert(d1.links =~= Set::<(Seq<char>, Seq<char>)>::empty());
    assert(super::tables::apply_all(db, s5).unwrap() =~= no_vault(db.session));
}

/// Logging out leaves nothing of the vault, of the tokens and of the keys, whatever the tables
/// held; the device and the server stay.
pub proof fn clearing_forgets_the_user(db: Database)
    requires
        super::tables::sound(db),
    ensures
        super::tables::apply_all(
            db,
            super::repository::wipe_plan().push(Statement::ForgetSession),
        ) matches Some(after) && after == no_vault(after.session) && match (
            db.session,
            after.session,
        ) {
            (Some(before), Some(row)) => {
                &&& row.email is None
                &&& row.access_token is None
                &&& row.refresh_token is None
                &&& row.last_sync_time is None
                &&& row.enc_key is None
                &&& row.mac_key is None
                &&& row.device_id == before.device_id
                &&& row.server_url == before.server_url
            },
            (None, None) => true,
            _ => false,
        },
{
    wiping_leaves_nothing(db);
    lemma_push(db, super::repository::wipe_plan(), Statement::ForgetSession);
}

/// The rows of organizations, by id.
pub open spec fn organization_table(orgs: Seq<OrganizationSync>) -> Map<Seq<char>, OrganizationRow>
    decreases orgs.len(),
{
    if orgs.len() == 0 {
        Map::empty()
    } else {
        organization_table(orgs.drop_last()).insert(
            orgs.last().id@,
            super::repository::organization_row(orgs.last()),
        )
    }
}

/// The rows of folders, by id.
pub open spec fn folder_table(folders: Seq<FolderSync>, user_id: String) -> Map<
    Seq<char>,
    FolderRow,
>
    decreases folders.len(),
{
    if folders.len() == 0 {
        Map::empty()
    } else {
        folder_table(folders.drop_last(), user_id).insert(
            folders.last().id@,
            super::repository::folder_row(folders.last(), user_id),
        )
    }
}

/// No two organizations share an id.
pub open spec fn distinct_organizations(orgs: Seq<OrganizationSync>) -> bool {
    forall|i: int, j: int|
        #![trigger orgs[i], orgs[j]]
        0 <= i < j < orgs.len() ==> orgs[i].id@ != orgs[j].id@
}

/// No two folders share an id.
pub open spec fn distinct_folders(folders: Seq<FolderSync>) -> bool {
    forall|i: int, j: int|
        #![trigger folders[i], folders[j]]
        0 <= i < j < folders.len() ==> folders[i].id@ != folders[j].id@
}

proof fn lemma_organization_table(orgs: Seq<OrganizationSync>, id: Seq<char>)
    ensures
        organization_table(orgs).dom().contains(id) <==> exists|i: int|
            0 <= i < orgs.len() && (#[trigger] orgs[i]).id@ == id,
    decreases orgs.len(),
{
    if orgs.len() > 0 {
        let shorter = orgs.drop_last();
        lemma_organization_table(shorter, id);
        if exists|i: int| 0 <= i < orgs.len() && (#[trigger] orgs[i]).id@ == id {
            let i = choose|i: int| 0 <= i < orgs.len() && (#[trigger] orgs[i]).id@ == id;
            if i < shorter.len() {
                assert(shorter[i].id@ == id);
            }
        }
        if organization_table(orgs).dom().contains(id) {
            if orgs.last().id@ == id {
                assert(orgs[orgs.len() - 1].id@ == id);
            } else {
                let i = choose|i: int| 0 <= i < shorter.len() && (#[trigger] shorter[i]).id@ == id;
                assert(orgs[i].id@ == id);
            }
        }
    }
}

proof fn lemma_organization_entry(orgs: Seq<OrganizationSync>, i: int)
    requires
        distinct_organizations(orgs),
        0 <= i < orgs.len(),
    ensures
        organization_table(orgs).dom().contains(orgs[i].id@),
        organization_table(orgs)[orgs[i].id@] == super::repository::organization_row(orgs[i]),
    decreases orgs.len(),
{
    let shorter = orgs.drop_last();
    if i < shorter.len() {
        assert forall|a: int, b: int|
            #![trigger shorter[a], shorter[b]]
            0 <= a < b < shorter.len() implies shorter[a].id@ != shorter[b].id@ by {
            assert(orgs[a].id@ != orgs[b].id@);
        }
        lemma_organization_entry(shorter, i);
        assert(orgs[i].id@ != orgs[orgs.len() - 1].id@);
    }
}

proof fn lemma_folder_table(folders: Seq<FolderSync>, user_id: String, id: Seq<char>)
    ensures
        folder_table(folders, user_id).dom().contains(id) <==> exists|i: int|
            0 <= i < folders.len() && (#[trigger] folders[i]).id@ == id,
    decreases folders.len(),
{
    if folders.len() > 0 {
        let shorter = folders.drop_last();
        lemma_folder_table(shorter, user_id, id);
        if exists|i: int| 0 <= i < folders.len() && (#[trigger] folders[i]).id@ == id {
            let i = choose|i: int| 0 <= i < folders.len() && (#[trigger] folders[i]).id@ == id;
            if i < shorter.len() {
                assert(shorter[i].id@ == id);
            }
        }
        if folder_table(folders, user_id).dom().contains(id) {
            if folders.last().id@ == id {
                assert(folders[folders.len() - 1].id@ == id);
            } else {
                let i = choose|i: int| 0 <= i < shorter.len() && (#[trigger] shorter[i]).id@ == id;
                assert(folders[i].id@ == id);
            }
        }
    }
}

proof fn lemma_folder_entry(folders: Seq<FolderSync>, user_id: String, i: int)
    requires
        distinct_folders(folders),
        0 <= i < folders.len(),
    ensures
        folder_table(folders, user_id).dom().contains(folders[i].id@),
        folder_table(folders, user_id)[folders[i].id@] == super::repository::folder_row(
            folders[i],
            user_id,
        ),
    decreases folders.len(),
{
    let shorter = folders.drop_last();
    if i < shorter.len() {
        assert forall|a: int, b: int|
            #![trigger shorter[a], shorter[b]]
            0 <= a < b < shorter.len() implies shorter[a].id@ != shorter[b].id@ by {
            assert(folders[a].id@ != folders[b].id@);
        }
        lemma_folder_entry(shorter, user_id, i);
        assert(folders[i].id@ != folders[folders.len() - 1].id@);
    }
}

proof fn lemma_organizations(db: Database, orgs: Seq<OrganizationSync>)
    requires
        db.organizations =~= Map::<Seq<char>, OrganizationRow>::empty(),
    ensures
        super::tables::apply_all(db, super::repository::organizations_plan(orgs)) == if (
        distinct_organizations(orgs)) {
            Some(Database { organizations: organization_table(orgs), ..db })
        } else {
            None
        },
    decreases orgs.len(),
{
    let plan = super::repository::organizations_plan(orgs);
    if orgs.len() > 0 {
        let shorter = orgs.drop_last();
        let n = shorter.len() as int;
        lemma_organizations(db, shorter);
        assert(plan.drop_last() =~= super::repository::organizations_plan(shorter));
        lemma_organization_table(shorter, orgs.last().id@);
        if distinct_organizations(orgs) {
            assert forall|a: int, b: int|
                #![trigger shorter[a], shorter[b]]
                0 <= a < b < shorter.len() implies shorter[a].id@ != shorter[b].id@ by {
                assert(orgs[a].id@ != orgs[b].id@);
            }
            if exists|i: int| 0 <= i < n && (#[trigger] shorter[i]).id@ == orgs.last().id@ {
                let i = choose|i: int| 0 <= i < n && (#[trigger] shorter[i]).id@ == orgs.last().id@;
                assert(orgs[i].id@ != orgs[n].id@);
            }
        } else if distinct_organizations(shorter) {
            let (i, j) = choose|i: int, j: int|
                #![trigger orgs[i], orgs[j]]
                0 <= i < j < orgs.len() && orgs[i].id@ == orgs[j].id@;
            if j < n {
                assert(shorter[i].id@ != shorter[j].id@);
            }
            assert(shorter[i].id@ == orgs.last().id@);
        }
    } else {
        assert(db.organizations =~= organization_table(orgs));
    }
}

proof fn lemma_folders(db: Database, folders: Seq<FolderSync>, user_id: String)
    requires
        db.folders =~= Map::<Seq<char>, FolderRow>::empty(),
        db.users.dom().contains(user_id@),
    ensures
        super::tables::apply_all(db, super::repository::folders_plan(folders, user_id)) == if (
        distinct_folders(folders)) {
            Some(Database { folders: folder_table(folders, user_id), ..db })
        } else {
            None
        },
    decreases folders.len(),
{
    let plan = super::repository::folders_plan(folders, user_id);
    if folders.len() > 0 {
        let shorter = folders.drop_last();
        let n = shorter.len() as int;
        lemma_folders(db, shorter, user_id);
        assert(plan.drop_last() =~= super::repository::folders_plan(shorter, user_id));
        lemma_folder_table(shorter, user_id, folders.last().id@);
        if distinct_folders(folders) {
            assert forall|a: int, b: int|
                #![trigger shorter[a], shorter[b]]
                0 <= a < b < shorter.len() implies shorter[a].id@ != shorter[b].id@ by {
                assert(folders[a].id@ != folders[b].id@);
            }
            if exists|i: int| 0 <= i < n && (#[trigger] shorter[i]).id@ == folders.last().id@ {
                let i = choose|i: int|
                    0 <= i < n && (#[trigger] shorter[i]).id@ == folders.last().id@;
                assert(folders[i].id@ != folders[n].id@);
            }
        } else if distinct_folders(shorter) {
            let (i, j) = choose|i: int, j: int|
                #![trigger folders[i], folders[j]]
                0 <= i < j < folders.len() && folders[i].id@ == folders[j].id@;
            if j < n {
                assert(shorter[i].id@ != shorter[j].id@);
            }
            assert(shorter[i].id@ == folders.last().id@);
        }
    } else {
        assert(db.folders =~= folder_table(folders, user_id));
    }
}

/// The tables after items were saved one behind the other.
pub open spec fn after_items(db: Database, ciphers: Seq<CipherSync>, user_id: String) -> Option<
    Database,
>
    decreases ciphers.len(),
{
    if ciphers.len() == 0 {
        Some(db)
    } else {
        match after_items(db, ciphers.drop_last(), user_id) {
            Some(middle) => if saveable(middle, ciphers.last(), user_id) {
                Some(after_save(middle, ciphers.last(), user_id))
            } else {
                None
            },
            None => None,
        }
    }
}

proof fn lemma_items(db: Database, ciphers: Seq<CipherSync>, user_id: String)
    ensures
        super::tables::apply_all(db, super::repository::ciphers_plan(ciphers, user_id))
            == after_items(db, ciphers, user_id),
    decreases ciphers.len(),
{
    if ciphers.len() > 0 {
        let shorter = ciphers.drop_last();
        lemma_items(db, shorter, user_id);
        super::tables::plans_compose(
            db,
            super::repository::ciphers_plan(shorter, user_id),
            super::repository::cipher_plan(ciphers.last(), user_id),
        );
        if let Some(middle) = after_items(db, shorter, user_id) {
            saving_an_item(middle, ciphers.last(), user_id);
        }
    }
}

/// The tables just before the items of a vault are saved.
pub open spec fn before_items(sync: SyncResponse, session: Option<super::tables::SessionRow>) -> Database {
    Database {
        users: Map::empty().insert(
            sync.profile.id@,
            super::repository::user_row(sync.profile),
        ),
        organizations: organization_table(super::repository::organizations_of(sync)),
        folders: folder_table(super::repository::folders_of(sync), sync.profile.id),
        metadata: Some(super::repository::metadata_row(sync)),
        ..no_vault(session)
    }
}

/// Saving a whole vault replaces whatever the tables held: what they hold afterwards depends on
/// the vault and the session alone, and the save is refused exactly where two organizations or
/// two folders share an id or an item cannot be saved.
pub proof fn a_sync_replaces_the_cache(db: Database, sync: SyncResponse)
    requires
        super::tables::sound(db),
    ensures
        super::tables::apply_all(db, super::repository::sync_plan(sync)) == if (
        distinct_organizations(super::repository::organizations_of(sync)) && distinct_folders(
            super::repository::folders_of(sync),
        )) {
            after_items(before_items(sync, db.session), sync.ciphers@, sync.profile.id)
        } else {
            None
        },
{
    let wipe = super::repository::wipe_plan();
    let user = seq![Statement::InsertUser(super::repository::user_row(sync.profile))];
    let orgs = super::repository::organizations_plan(super::repository::organizations_of(sync));
    let folders = super::repository::folders_plan(
        super::repository::folders_of(sync),
        sync.profile.id,
    );
    let metadata = seq![Statement::ReplaceMetadata(super::repository::metadata_row(sync))];
    let items = super::repository::ciphers_plan(sync.ciphers@, sync.profile.id);
    super::tables::plans_compose(db, wipe, user);
    super::tables::plans_compose(db, wipe + user, orgs);
    super::tables::plans_compose(db, wipe + user + orgs, folders);
    super::tables::plans_compose(db, wipe + user + orgs + folders, metadata);
    super::tables::plans_compose(db, wipe + user + orgs + folders + metadata, items);
    wiping_leaves_nothing(db);
    let d0 = no_vault(db.session);
    lemma_one(d0, Statement::InsertUser(super::repository::user_row(sync.profile)));
    let d1 = super::tables::apply_all(d0, user).unwrap();
    lemma_organizations(d1, super::repository::organizations_of(sync));
    if distinct_organizations(super::repository::organizations_of(sync)) {
        let d2 = super::tables::apply_all(d1, orgs).unwrap();
        lemma_folders(d2, super::repository::folders_of(sync), sync.profile.id);
        if distinct_folders(super::repository::folders_of(sync)) {
            let d3 = super::tables::apply_all(d2, folders).unwrap();
            lemma_one(d3, Statement::ReplaceMetadata(super::repository::metadata_row(sync)));
            let d4 = super::tables::apply_all(d3, metadata).unwrap();
            assert(d4 =~= before_items(sync, db.session));
            lemma_items(d4, sync.ciphers@, sync.profile.id);
        }
    }
}

/// No two items share an id.
pub open spec fn distinct_items(ciphers: Seq<CipherSync>) -> bool {
    forall|i: int, j: int|
        #![trigger ciphers[i], ciphers[j]]
        0 <= i < j < ciphers.len() ==> ciphers[i].id@ != ciphers[j].id@
}

proof fn lemma_holds_unless_same(
    db: Database,
    held: CipherSync,
    cipher: CipherSync,
    user_id: String,
)
    requires
        holds_item(db, held, user_id),
        held.id@ != cipher.id@,
    ensures
        holds_item(after_save(db, cipher, user_id), held, user_id),
{
    let after = after_save(db, cipher, user_id);
    let id = held.id@;
    let x = after_save(after, held, user_id);
    let y = after_save(db, held, user_id);
    assert(super::tables::rows_of(x.fields, id) =~= super::tables::rows_of(y.fields, id));
    assert(super::tables::rows_of(x.attachments, id) =~= super::tables::rows_of(y.attachments, id));
    assert forall|l: (Seq<char>, Seq<char>)| l.0 == id implies #[trigger] x.links.contains(l)
        == after.links.contains(l) by {
        assert(y.links.contains(l) == db.links.contains(l));
    }
}

/// Every item of a saved vault is held as it was, and nothing but those items.
pub proof fn saved_items_are_held(db: Database, ciphers: Seq<CipherSync>, user_id: String)
    requires
        distinct_items(ciphers),
        after_items(db, ciphers, user_id) is Some,
    ensures
        ({
            let after = after_items(db, ciphers, user_id).unwrap();
            &&& same_rest(db, after)
            &&& forall|i: int|
                0 <= i < ciphers.len() ==> holds_item(after, #[trigger] ciphers[i], user_id)
            &&& forall|id: Seq<char>| #[trigger]
                after.ciphers.dom().contains(id) ==> db.ciphers.dom().contains(id) || exists|i: int|
                    0 <= i < ciphers.len() && (#[trigger] ciphers[i]).id@ == id
        }),
    decreases ciphers.len(),
{
    if ciphers.len() > 0 {
        let shorter = ciphers.drop_last();
        let n = shorter.len() as int;
        assert forall|i: int, j: int|
            #![trigger shorter[i], shorter[j]]
            0 <= i < j < shorter.len() implies shorter[i].id@ != shorter[j].id@ by {
            assert(ciphers[i].id@ != ciphers[j].id@);
        }
        saved_items_are_held(db, shorter, user_id);
        let middle = after_items(db, shorter, user_id).unwrap();
        let after = after_items(db, ciphers, user_id).unwrap();
        assert forall|i: int| 0 <= i < ciphers.len() implies holds_item(
            after,
            #[trigger] ciphers[i],
            user_id,
        ) by {
            if i < n {
                assert(holds_item(middle, shorter[i], user_id));
                assert(ciphers[i].id@ != ciphers[n].id@);
                lemma_holds_unless_same(middle, ciphers[i], ciphers.last(), user_id);
            } else {
                lemma_holds_after_save(middle, ciphers.last(), user_id);
            }
        }
        assert forall|id: Seq<char>| #[trigger] after.ciphers.dom().contains(id) implies (
        db.ciphers.dom().contains(id) || exists|i: int|
            0 <= i < ciphers.len() && (#[trigger] ciphers[i]).id@ == id) by {
            if id == ciphers.last().id@ {
                assert(ciphers[n].id@ == id);
            } else {
                assert(middle.ciphers.dom().contains(id));
                if !db.ciphers.dom().contains(id) {
                    let i = choose|i: int|
                        0 <= i < shorter.len() && (#[trigger] shorter[i]).id@ == id;
                    assert(ciphers[i].id@ == id);
                }
            }
        }
    }
}

// ---------------------------------------------------------------------------
// A consistent vault can be saved
// ---------------------------------------------------------------------------
/// An attachment with this id belongs to one of the items.
pub open spec fn attachment_among(ciphers: Seq<CipherSync>, id: Seq<char>) -> bool {
    exists|i: int, k: int|
        #![trigger super::repository::attachments_of(ciphers[i])[k]]
        {
            &&& 0 <= i < ciphers.len()
            &&& 0 <= k < super::repository::attachments_of(ciphers[i]).len()
            &&& super::repository::attachments_of(ciphers[i])[k].id@ == id
        }
}

/// No attachment id occurs twice in an item.
pub open spec fn distinct_attachments(attachments: Seq<AttachmentSync>) -> bool {
    forall|i: int, j: int|
        #![trigger attachments[i], attachments[j]]
        0 <= i < j < attachments.len() ==> attachments[i].id@ != attachments[j].id@
}

/// A vault whose parts fit together: organizations and folders have ids of their own, every
/// item's organization and folder are among them, and no attachment belongs twice.
pub open spec fn consistent(sync: SyncResponse) -> bool {
    let ciphers = sync.ciphers@;
    &&& distinct_organizations(super::repository::organizations_of(sync))
    &&& distinct_folders(super::repository::folders_of(sync))
    &&& forall|i: int|
        #![trigger ciphers[i]]
        0 <= i < ciphers.len() ==> {
            &&& ciphers[i].organization_id matches Some(org) ==> exists|j: int|
                0 <= j < super::repository::organizations_of(sync).len() && (
                #[trigger] super::repository::organizations_of(sync)[j]).id@ == org@
            &&& ciphers[i].folder_id matches Some(folder) ==> exists|j: int|
                0 <= j < super::repository::folders_of(sync).len() && (
                #[trigger] super::repository::folders_of(sync)[j]).id@ == folder@
            &&& distinct_attachments(super::repository::attachments_of(ciphers[i]))
            &&& forall|k: int|
                #![trigger super::repository::attachments_of(ciphers[i])[k]]
                0 <= k < super::repository::attachments_of(ciphers[i]).len() ==> !attachment_among(
                    ciphers.take(i),
                    super::repository::attachments_of(ciphers[i])[k].id@,
                )
        }
}

proof fn lemma_taken_among(
    db: Database,
    ciphers: Seq<CipherSync>,
    user_id: String,
    wanted: Seq<char>,
)
    requires
        after_items(db, ciphers, user_id) matches Some(after) && super::tables::attachment_taken(
            after,
            wanted,
        ),
        db.attachments =~= Map::<Seq<char>, Seq<AttachmentRow>>::empty(),
    ensures
        attachment_among(ciphers, wanted),
    decreases ciphers.len(),
{
    if ciphers.len() > 0 {
        let shorter = ciphers.drop_last();
        let last = ciphers.last();
        let middle = after_items(db, shorter, user_id).unwrap();
        let bare = Database { attachments: middle.attachments.remove(last.id@), ..middle };
        let rows = attachment_rows(last.id, super::repository::attachments_of(last));
        lemma_taken(bare, last.id@, rows, wanted);
        let after = after_items(db, ciphers, user_id).unwrap();
        let full = Database {
            attachments: with_rows(bare.attachments, last.id@, rows),
            ..bare
        };
        lemma_taken_bare(after, full, wanted);
        if super::tables::attachment_taken(bare, wanted) {
            let (c, i) = choose|c: Seq<char>, i: int|
                #![trigger bare.attachments[c][i]]
                bare.attachments.dom().contains(c) && 0 <= i < bare.attachments[c].len()
                    && bare.attachments[c][i].id@ == wanted;
            assert(middle.attachments[c][i].id@ == wanted);
            assert(super::tables::attachment_taken(middle, wanted));
            lemma_taken_among(db, shorter, user_id, wanted);
            let (i, k) = choose|i: int, k: int|
                #![trigger super::repository::attachments_of(shorter[i])[k]]
                {
                    &&& 0 <= i < shorter.len()
                    &&& 0 <= k < super::repository::attachments_of(shorter[i]).len()
                    &&& super::repository::attachments_of(shorter[i])[k].id@ == wanted
                };
            assert(super::repository::attachments_of(ciphers[i])[k].id@ == wanted);
        } else {
            let k = choose|k: int| 0 <= k < rows.len() && (#[trigger] rows[k]).id@ == wanted;
            assert(super::repository::attachments_of(ciphers[ciphers.len() - 1])[k].id@ == wanted);
        }
    } else {
        let (c, i) = choose|c: Seq<char>, i: int|
            #![trigger db.attachments[c][i]]
            db.attachments.dom().contains(c) && 0 <= i < db.attachments[c].len()
                && db.attachments[c][i].id@ == wanted;
        assert(false);
    }
}

proof fn lemma_items_succeed(
    sync: SyncResponse,
    session: Option<super::tables::SessionRow>,
    n: int,
)
    requires
        consistent(sync),
        0 <= n <= sync.ciphers@.len(),
    ensures
        after_items(
            before_items(sync, session),
            sync.ciphers@.take(n),
            sync.profile.id,
        ) matches Some(after) && same_rest(before_items(sync, session), after),
    decreases n,
{
    let db = before_items(sync, session);
    let user_id = sync.profile.id;
    let ciphers = sync.ciphers@.take(n);
    if n > 0 {
        let shorter = sync.ciphers@.take(n - 1);
        assert(ciphers.drop_last() =~= shorter);
        lemma_items_succeed(sync, session, n - 1);
        let middle = after_items(db, shorter, user_id).unwrap();
        let last = ciphers.last();
        assert(last == sync.ciphers@[n - 1]);
        let list = super::repository::attachments_of(last);
        if let Some(org) = last.organization_id {
            lemma_organization_table(super::repository::organizations_of(sync), org@);
        }
        if let Some(folder) = last.folder_id {
            lemma_folder_table(super::repository::folders_of(sync), user_id, folder@);
        }
        let bare = Database { attachments: middle.attachments.remove(last.id@), ..middle };
        assert forall|k: int|
            #![trigger list[k]]
            0 <= k < list.len() implies !super::tables::attachment_taken(bare, list[k].id@) by {
            if super::tables::attachment_taken(bare, list[k].id@) {
                let (c, i) = choose|c: Seq<char>, i: int|
                    #![trigger bare.attachments[c][i]]
                    bare.attachments.dom().contains(c) && 0 <= i < bare.attachments[c].len()
                        && bare.attachments[c][i].id@ == list[k].id@;
                assert(middle.attachments[c][i].id@ == list[k].id@);
                assert(super::tables::attachment_taken(middle, list[k].id@));
                lemma_taken_among(db, shorter, user_id, list[k].id@);
                assert(!attachment_among(
                    sync.ciphers@.take(n - 1),
                    super::repository::attachments_of(sync.ciphers@[n - 1])[k].id@,
                ));
            }
        }
        assert(saveable(middle, last, user_id));
    } else {
        assert(ciphers =~= Seq::<CipherSync>::empty());
    }
}

/// A vault whose parts fit together can be saved, whatever the tables held.
pub proof fn a_consistent_vault_can_be_saved(db: Database, sync: SyncResponse)
    requires
        super::tables::sound(db),
        consistent(sync),
    ensures
        super::tables::apply_all(db, super::repository::sync_plan(sync)) is Some,
{
    a_sync_replaces_the_cache(db, sync);
    lemma_items_succeed(sync, db.session, sync.ciphers@.len() as int);
    assert(sync.ciphers@.take(sync.ciphers@.len() as int) =~= sync.ciphers@);
}

// ---------------------------------------------------------------------------
// Reading the whole vault
// ---------------------------------------------------------------------------
/// `rows` are what the queries on the vault tables give.
pub open spec fn lists_vault(rows: VaultRows, db: Database) -> bool {
    &&& rows.user matches Ok(user) ==> db.users.dom().contains(user.id@) && db.users[user.id@]
        == user
    &&& rows.user is Err ==> db.users =~= Map::<Seq<char>, UserRow>::empty()
    &&& forall|i: int|
        0 <= i < rows.organizations@.len() ==> db.organizations.dom().contains(
            (#[trigger] rows.organizations@[i]).id@,
        ) && db.organizations[rows.organizations@[i].id@] == rows.organizations@[i]
    &&& forall|id: Seq<char>| #[trigger]
        db.organizations.dom().contains(id) ==> exists|i: int|
            0 <= i < rows.organizations@.len() && (#[trigger] rows.organizations@[i]).id@ == id
    &&& forall|i: int|
        0 <= i < rows.folders@.len() ==> db.folders.dom().contains(
            (#[trigger] rows.folders@[i]).id@,
        ) && db.folders[rows.folders@[i].id@] == rows.folders@[i]
    &&& forall|id: Seq<char>| #[trigger]
        db.folders.dom().contains(id) ==> exists|i: int|
            0 <= i < rows.folders@.len() && (#[trigger] rows.folders@[i]).id@ == id
    &&& forall|i: int|
        0 <= i < rows.items.ciphers@.len() ==> db.ciphers.dom().contains(
            (#[trigger] rows.items.ciphers@[i]).id@,
        ) && db.ciphers[rows.items.ciphers@[i].id@] == rows.items.ciphers@[i]
    &&& lists_items(rows.items, db)
    &&& rows.metadata == db.metadata
}

/// `read` is what is left of a profile after it was stored, but for its organizations.
pub open spec fn profile_survives(sync: SyncResponse, read: SyncResponse) -> bool {
    let a = sync.profile;
    let b = read.profile;
    &&& b.id == a.id
    &&& b.email == a.email
    &&& b.email_verified == a.email_verified
    &&& b.name == a.name
    &&& b.premium == a.premium
    &&& b.premium_from_organization == a.premium_from_organization
    &&& b.private_key == a.private_key
    &&& b.public_key == a.public_key
    &&& b.security_stamp == a.security_stamp
    &&& b.two_factor_enabled == a.two_factor_enabled
    &&& b.uses_key_connector == a.uses_key_connector
    &&& b.culture == a.culture
    &&& b.creation_date == a.creation_date
    &&& b.avatar_color == a.avatar_color
    &&& b.force_password_reset == a.force_password_reset
    &&& b.key == a.key
    &&& b._status == a._status
    &&& b.extra@ == super::repository::object_text(a.extra@)
}

/// Every organization of one list is read in another, and the other way round.
pub open spec fn same_organizations(orgs: Seq<OrganizationSync>, read: Seq<OrganizationSync>) -> bool {
    &&& forall|i: int|
        0 <= i < orgs.len() ==> exists|j: int|
            0 <= j < read.len() && super::repository::is_organization(
                #[trigger] read[j],
                super::repository::organization_row(#[trigger] orgs[i]),
            )
    &&& forall|j: int|
        0 <= j < read.len() ==> exists|i: int|
            0 <= i < orgs.len() && super::repository::is_organization(
                #[trigger] read[j],
                super::repository::organization_row(#[trigger] orgs[i]),
            )
}

/// Every folder of one list is in another, and the other way round.
pub open spec fn same_folders(folders: Seq<FolderSync>, read: Seq<FolderSync>) -> bool {
    &&& forall|i: int|
        0 <= i < folders.len() ==> exists|j: int|
            0 <= j < read.len() && #[trigger] read[j] == #[trigger] folders[i]
    &&& forall|j: int|
        0 <= j < read.len() ==> exists|i: int|
            0 <= i < folders.len() && #[trigger] read[j] == #[trigger] folders[i]
}

/// `read` is what is left of a vault after it was stored: the profile, what the vault says of
/// itself, and every organization, folder and item, in whatever order.
pub open spec fn vault_survives(sync: SyncResponse, read: SyncResponse) -> bool {
    &&& profile_survives(sync, read)
    &&& super::repository::has_metadata(read, Some(super::repository::metadata_row(sync)))
    &&& same_organizations(
        super::repository::organizations_of(sync),
        super::repository::organizations_of(read),
    )
    &&& same_folders(super::repository::folders_of(sync), super::repository::folders_of(read))
    &&& forall|i: int|
        0 <= i < sync.ciphers@.len() ==> is_kept(#[trigger] sync.ciphers@[i], read.ciphers@)
    &&& forall|j: int|
        0 <= j < read.ciphers@.len() ==> stems_from(#[trigger] read.ciphers@[j], sync.ciphers@)
}

/// What is left of an item is among those that were read.
pub open spec fn is_kept(cipher: CipherSync, read: Seq<CipherSync>) -> bool {
    exists|j: int| 0 <= j < read.len() && survives(cipher, #[trigger] read[j])
}

/// What was read is left of one of the items.
pub open spec fn stems_from(read: CipherSync, ciphers: Seq<CipherSync>) -> bool {
    exists|i: int| 0 <= i < ciphers.len() && survives(#[trigger] ciphers[i], read)
}

pub(crate) proof fn lemma_first_row(rows: Seq<CipherRow>, id: Seq<char>)
    requires
        super::repository::first_row(rows, id) is Some,
    ensures
        exists|i: int|
            0 <= i < rows.len() && #[trigger] rows[i] == super::repository::first_row(
                rows,
                id,
            ).unwrap(),
    decreases rows.len(),
{
    if rows[0].id@ != id {
        lemma_first_row(rows.drop_first(), id);
        let i = choose|i: int|
            0 <= i < rows.drop_first().len() && #[trigger] rows.drop_first()[i]
                == super::repository::first_row(rows.drop_first(), id).unwrap();
        assert(rows[i + 1] == rows.drop_first()[i]);
    } else {
        assert(rows[0] == super::repository::first_row(rows, id).unwrap());
    }
}

proof fn lemma_items_read_back(
    db: Database,
    sync: SyncResponse,
    rows: CipherRows,
    ciphers: Seq<CipherSync>,
)
    requires
        forall|i: int|
            0 <= i < sync.ciphers@.len() ==> holds_item(
                db,
                #[trigger] sync.ciphers@[i],
                sync.profile.id,
            ),
        forall|id: Seq<char>| #[trigger]
            db.ciphers.dom().contains(id) ==> exists|i: int|
                0 <= i < sync.ciphers@.len() && (#[trigger] sync.ciphers@[i]).id@ == id,
        forall|i: int|
            0 <= i < rows.ciphers@.len() ==> db.ciphers.dom().contains(
                (#[trigger] rows.ciphers@[i]).id@,
            ) && db.ciphers[rows.ciphers@[i].id@] == rows.ciphers@[i],
        lists_items(rows, db),
        super::repository::are_ciphers(ciphers, rows),
    ensures
        forall|i: int|
            0 <= i < sync.ciphers@.len() ==> is_kept(#[trigger] sync.ciphers@[i], ciphers),
        forall|j: int|
            0 <= j < ciphers.len() ==> stems_from(#[trigger] ciphers[j], sync.ciphers@),
{
    let user_id = sync.profile.id;
    assert forall|i: int| 0 <= i < sync.ciphers@.len() implies is_kept(
        #[trigger] sync.ciphers@[i],
        ciphers,
    ) by {
        let cipher = sync.ciphers@[i];
        assert(holds_item(db, cipher, user_id));
        assert(after_save(db, cipher, user_id).ciphers.dom().contains(cipher.id@));
        assert(super::repository::first_row(rows.ciphers@, cipher.id@) is Some);
        lemma_first_row(rows.ciphers@, cipher.id@);
        let j = choose|j: int|
            0 <= j < rows.ciphers@.len() && #[trigger] rows.ciphers@[j]
                == super::repository::first_row(rows.ciphers@, cipher.id@).unwrap();
        assert(super::repository::is_assembled_from(ciphers[j], rows.ciphers@[j], rows));
        stored_items_are_read_back(db, cipher, user_id, rows, ciphers[j]);
        assert(survives(cipher, ciphers[j]));
    }
    assert forall|j: int| 0 <= j < ciphers.len() implies stems_from(
        #[trigger] ciphers[j],
        sync.ciphers@,
    ) by {
        let row = rows.ciphers@[j];
        assert(super::repository::is_assembled_from(ciphers[j], row, rows));
        assert(db.ciphers.dom().contains(row.id@));
        let i = choose|i: int|
            0 <= i < sync.ciphers@.len() && (#[trigger] sync.ciphers@[i]).id@ == row.id@;
        let cipher = sync.ciphers@[i];
        assert(holds_item(db, cipher, user_id));
        assert(super::repository::first_row(rows.ciphers@, cipher.id@) == Some(row));
        stored_items_are_read_back(db, cipher, user_id, rows, ciphers[j]);
        assert(survives(sync.ciphers@[i], ciphers[j]));
    }
}

proof fn lemma_organizations_read_back(
    table: Map<Seq<char>, OrganizationRow>,
    orgs: Seq<OrganizationSync>,
    rows: Seq<OrganizationRow>,
    read: Seq<OrganizationSync>,
)
    requires
        distinct_organizations(orgs),
        table == organization_table(orgs),
        forall|i: int|
            0 <= i < rows.len() ==> table.dom().contains((#[trigger] rows[i]).id@)
                && table[rows[i].id@] == rows[i],
        forall|id: Seq<char>| #[trigger]
            table.dom().contains(id) ==> exists|i: int|
                0 <= i < rows.len() && (#[trigger] rows[i]).id@ == id,
        read.len() == rows.len(),
        forall|j: int|
            0 <= j < read.len() ==> super::repository::is_organization(
                #[trigger] read[j],
                rows[j],
            ),
    ensures
        same_organizations(orgs, read),
{
    assert forall|i: int| 0 <= i < orgs.len() implies exists|j: int|
        0 <= j < read.len() && super::repository::is_organization(
            #[trigger] read[j],
            super::repository::organization_row(#[trigger] orgs[i]),
        ) by {
        lemma_organization_entry(orgs, i);
        assert(table.dom().contains(orgs[i].id@));
        let j = choose|j: int| 0 <= j < rows.len() && (#[trigger] rows[j]).id@ == orgs[i].id@;
        assert(super::repository::is_organization(read[j], rows[j]));
    }
    assert forall|j: int| 0 <= j < read.len() implies exists|i: int|
        0 <= i < orgs.len() && super::repository::is_organization(
            #[trigger] read[j],
            super::repository::organization_row(#[trigger] orgs[i]),
        ) by {
        let row = rows[j];
        assert(super::repository::is_organization(read[j], row));
        lemma_organization_table(orgs, row.id@);
        let i = choose|i: int| 0 <= i < orgs.len() && (#[trigger] orgs[i]).id@ == row.id@;
        lemma_organization_entry(orgs, i);
    }
}

proof fn lemma_folders_read_back(
    table: Map<Seq<char>, FolderRow>,
    folders: Seq<FolderSync>,
    user_id: String,
    rows: Seq<FolderRow>,
    read: Seq<FolderSync>,
)
    requires
        distinct_folders(folders),
        table == folder_table(folders, user_id),
        forall|i: int|
            0 <= i < rows.len() ==> table.dom().contains((#[trigger] rows[i]).id@)
                && table[rows[i].id@] == rows[i],
        forall|id: Seq<char>| #[trigger]
            table.dom().contains(id) ==> exists|i: int|
                0 <= i < rows.len() && (#[trigger] rows[i]).id@ == id,
        read == super::repository::folders_of_rows(rows),
    ensures
        same_folders(folders, read),
{
    assert forall|i: int| 0 <= i < folders.len() implies exists|j: int|
        0 <= j < read.len() && #[trigger] read[j] == #[trigger] folders[i] by {
        lemma_folder_entry(folders, user_id, i);
        assert(table.dom().contains(folders[i].id@));
        let j = choose|j: int| 0 <= j < rows.len() && (#[trigger] rows[j]).id@ == folders[i].id@;
        assert(read[j] == super::repository::folder_of_row(rows[j]));
        assert(read[j] == folders[i]);
    }
    assert forall|j: int| 0 <= j < read.len() implies exists|i: int|
        0 <= i < folders.len() && #[trigger] read[j] == #[trigger] folders[i] by {
        let row = rows[j];
        lemma_folder_table(folders, user_id, row.id@);
        let i = choose|i: int| 0 <= i < folders.len() && (#[trigger] folders[i]).id@ == row.id@;
        lemma_folder_entry(folders, user_id, i);
        assert(read[j] == super::repository::folder_of_row(row));
        assert(read[j] == folders[i]);
    }
}

/// What is read of the vault after it was saved is what was saved, where no two of its items
/// share an id. What was absent is absent.
#[verifier::rlimit(50)]
#[verifier::spinoff_prover]
pub proof fn reading_gives_back_the_vault(
    db: Database,
    sync: SyncResponse,
    rows: VaultRows,
    user: UserRow,
    read: SyncResponse,
)
    requires
        super::tables::sound(db),
        distinct_items(sync.ciphers@),
        super::tables::apply_all(db, super::repository::sync_plan(sync)) matches Some(after)
            && lists_vault(rows, after),
        rows.user == Ok::<UserRow, String>(user),
        super::repository::is_vault(read, user, rows),
    ensures
        vault_survives(sync, read),
        sync.domains is None ==> read.domains is None,
        sync.policies is None ==> read.policies is None,
        sync.sends is None ==> read.sends is None,
{
    a_sync_replaces_the_cache(db, sync);
    let start = before_items(sync, db.session);
    saved_items_are_held(start, sync.ciphers@, sync.profile.id);
    let after = super::tables::apply_all(db, super::repository::sync_plan(sync)).unwrap();
    assert(same_rest(start, after));
    assert(user == super::repository::user_row(sync.profile));
    let orgs = super::repository::organizations_of(sync);
    let folders = super::repository::folders_of(sync);
    let read_orgs = super::repository::organizations_of(read);
    let read_folders = super::repository::folders_of(read);
    assert(same_organizations(orgs, read_orgs)) by {
        lemma_organizations_read_back(
            after.organizations,
            orgs,
            rows.organizations@,
            read_orgs,
        );
    }
    assert(same_folders(folders, read_folders)) by {
        assert(read_folders =~= super::repository::folders_of_rows(rows.folders@));
        lemma_folders_read_back(
            after.folders,
            folders,
            sync.profile.id,
            rows.folders@,
            read_folders,
        );
    }
    lemma_items_read_back(after, sync, rows.items, read.ciphers@);
}

// ---------------------------------------------------------------------------
// Refusals
// ---------------------------------------------------------------------------
/// An item that cannot be saved leaves every table as it was, and so does one whose save fails for
/// a reason outside; otherwise the tables are those with the item in place.
pub proof fn a_refused_save_changes_nothing(
    db: Database,
    cipher: CipherSync,
    user_id: String,
    works: spec_fn(Action) -> bool,
)
    requires
        super::repository::cipher_plan(cipher, user_id).len() <= usize::MAX,
    ensures
        ({
            let (after, done) = super::transaction::carried_out(
                db,
                super::repository::cipher_plan(cipher, user_id),
                works,
            );
            &&& done ==> saveable(db, cipher, user_id) && after == after_save(db, cipher, user_id)
            &&& !done ==> after == db
        }),
{
    let plan = super::repository::cipher_plan(cipher, user_id);
    super::transaction::plans_are_carried_out_whole(db, plan, works);
    saving_an_item(db, cipher, user_id);
}

proof fn lemma_items_keep_the_session(db: Database, ciphers: Seq<CipherSync>, user_id: String)
    ensures
        after_items(db, ciphers, user_id) matches Some(after) ==> after.session == db.session,
    decreases ciphers.len(),
{
    if ciphers.len() > 0 {
        lemma_items_keep_the_session(db, ciphers.drop_last(), user_id);
    }
}

/// A vault that cannot be saved leaves the database as it was, and so does one whose save fails
/// for a reason outside; otherwise the tables hold that vault alone. The session stays either way.
pub proof fn a_refused_sync_changes_nothing(
    db: Database,
    sync: SyncResponse,
    works: spec_fn(Action) -> bool,
)
    requires
        super::tables::sound(db),
        super::repository::sync_plan(sync).len() <= usize::MAX,
    ensures
        ({
            let (after, done) = super::transaction::carried_out(
                db,
                super::repository::sync_plan(sync),
                works,
            );
            &&& done ==> after_items(
                before_items(sync, db.session),
                sync.ciphers@,
                sync.profile.id,
            ) == Some(after)
            &&& !done ==> after == db
            &&& after.session == db.session
        }),
{
    super::transaction::plans_are_carried_out_whole(
        db,
        super::repository::sync_plan(sync),
        works,
    );
    a_sync_replaces_the_cache(db, sync);
    lemma_items_keep_the_session(
        before_items(sync, db.session),
        sync.ciphers@,
        sync.profile.id,
    );
}

// ---------------------------------------------------------------------------
// Session and keys
// ---------------------------------------------------------------------------
/// Keys that were saved are loaded back.
pub proof fn saved_keys_are_loaded_back(enc: Seq<u8>, mac: Seq<u8>)
    requires
        enc.len() == 32,
        mac.len() == 32,
    ensures
        super::repository::saved_keys(
            Some(primitives::hex_encoded(enc)),
            Some(primitives::hex_encoded(mac)),
        ) == Ok::<Option<(Seq<u8>, Seq<u8>)>, Seq<char>>(Some((enc, mac))),
{
    primitives::hex_round_trip(enc);
    primitives::hex_round_trip(mac);
}

/// Keys that are cleared are gone, and nothing else is.
pub proof fn cleared_keys_are_gone(db: Database)
    ensures
        super::tables::apply(db, Statement::ClearKeys) matches Some(after) && (
        after.session matches Some(row) ==> super::repository::saved_keys(
            text::option_view(row.enc_key),
            text::option_view(row.mac_key),
        ) == Ok::<Option<(Seq<u8>, Seq<u8>)>, Seq<char>>(None)) && after == (Database {
            session: after.session,
            ..db
        }),
{
}

/// A session that was saved is loaded back, with the user and the timeout from elsewhere.
/// Saving it forgets the saved keys.
pub proof fn saved_session_is_loaded_back(db: Database, session: Session, config: Config)
    ensures
        super::tables::apply(
            db,
            Statement::ReplaceSession(super::repository::session_row(session)),
        ) matches Some(after) && (after.session matches Some(row)
            && super::repository::session_of(row, session.user_id, config) == (Session {
            timeout: config.timeout,
            timeout_action: config.timeout_action,
            ..session
        }) && row.enc_key is None && row.mac_key is None),
{
}

} // verus!
