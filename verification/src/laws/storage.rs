//! Laws of the cache database: what rows hold, and what is read from them.
use vstd::prelude::*;
use vstd::string::*;

use crate::api::{
    AttachmentSync, CipherSync, FieldSync, FolderSync, LoginSync, MasterPasswordUnlockSync,
    OrganizationSync, ProfileSync, SshKeySync, SyncResponse, UserDecryptionSync,
};
use crate::config::{Config, Session};
use crate::json;
use crate::primitives;
use crate::storage::laws;
use crate::storage::repository;
use crate::storage::repository::Owned;
use crate::storage::sql;
use crate::storage::sql::Cell;
use crate::storage::tables;
use crate::storage::tables::{
    AttachmentRow, CipherRow, Database, FieldRow, FolderRow, LinkRow, LoginRow, MetadataRow,
    OrganizationRow, SessionRow, SshKeyRow, Statement, UserRow,
};
use crate::storage::transaction;
use crate::storage::transaction::Action;
use crate::text;

verus! {

// ---------------------------------------------------------------------------
// What rows hold
// ---------------------------------------------------------------------------
/// The core row of an item holds each of its members in the column of that name, and the user; what
/// is true is one, what is false is nought.
pub proof fn the_core_row_holds_the_item(cipher: CipherSync, user_id: String)
    ensures
        ({
            let row = repository::cipher_row(cipher, user_id);
            &&& row.id == cipher.id
            &&& row.user_id == user_id
            &&& row.organization_id == cipher.organization_id
            &&& row.kind == cipher.kind
            &&& row.name == cipher.name
            &&& row.notes == cipher.notes
            &&& row.favorite == (if cipher.favorite {
                1i32
            } else {
                0i32
            })
            &&& row.reprompt == cipher.reprompt
            &&& row.organization_use_totp == (if cipher.organization_use_totp {
                1i32
            } else {
                0i32
            })
            &&& row.edit == (if cipher.edit {
                1i32
            } else {
                0i32
            })
            &&& row.view_password == (if cipher.view_password {
                1i32
            } else {
                0i32
            })
            &&& row.creation_date == cipher.creation_date
            &&& row.revision_date == cipher.revision_date
            &&& row.deleted_date == cipher.deleted_date
            &&& row.archived_date == cipher.archived_date
            &&& row.key == cipher.key
            &&& row.object == cipher.object
            &&& row.extra == cipher.extra
        }),
{
}

/// The rows of what belongs to an item name the item, and hold each member in its column.
pub proof fn the_rows_of_parts_hold_the_parts(
    id: String,
    login: LoginSync,
    key: SshKeySync,
    field: FieldSync,
    attachment: AttachmentSync,
)
    ensures
        ({
            let row = repository::login_row(id, login);
            row.cipher_id == id && row.username == login.username && row.password == login.password
                && row.uri == login.uri
        }),
        ({
            let row = repository::ssh_key_row(id, key);
            row.cipher_id == id && row.private_key == key.private_key && row.public_key
                == key.public_key
        }),
        ({
            let row = repository::field_row(id, field);
            row.cipher_id == id && row.name == field.name && row.value == field.value && row.kind
                == field.kind
        }),
        ({
            let row = repository::attachment_row(id, attachment);
            row.cipher_id == id && row.id == attachment.id && row.file_name == attachment.file_name
                && row.size == attachment.size
        }),
{
}

/// The row of the user holds each member of the profile in its column.
pub proof fn the_row_of_the_user_holds_the_profile(profile: ProfileSync)
    ensures
        ({
            let row = repository::user_row(profile);
            &&& row.id == profile.id
            &&& row.email == profile.email
            &&& row.email_verified == (if profile.email_verified {
                1i32
            } else {
                0i32
            })
            &&& row.name == profile.name
            &&& row.premium == (if profile.premium {
                1i32
            } else {
                0i32
            })
            &&& row.premium_from_organization == (if profile.premium_from_organization {
                1i32
            } else {
                0i32
            })
            &&& row.private_key == profile.private_key
            &&& row.public_key == profile.public_key
            &&& row.security_stamp == profile.security_stamp
            &&& row.two_factor_enabled == (if profile.two_factor_enabled {
                1i32
            } else {
                0i32
            })
            &&& row.uses_key_connector == (if profile.uses_key_connector {
                1i32
            } else {
                0i32
            })
            &&& row.culture == profile.culture
            &&& row.creation_date == profile.creation_date
            &&& row.avatar_color == profile.avatar_color
            &&& row.force_password_reset == (if profile.force_password_reset {
                1i32
            } else {
                0i32
            })
            &&& row.key == profile.key
            &&& row.status == profile._status
            &&& row.extra == profile.extra
        }),
{
}

/// The rows of organizations and folders hold each member in its column; that of a folder names the
/// user.
pub proof fn the_rows_of_organizations_and_folders_hold_them(
    org: OrganizationSync,
    folder: FolderSync,
    user_id: String,
)
    ensures
        ({
            let row = repository::organization_row(org);
            row.id == org.id && row.name == org.name && row.key == org.key && row.object
                == org.object
        }),
        ({
            let row = repository::folder_row(folder, user_id);
            row.id == folder.id && row.user_id == user_id && row.name == folder.name && row.object
                == folder.object && row.revision_date == folder.revision_date
        }),
{
}

/// The row of the vault as a whole holds what the vault says of itself.
pub proof fn the_row_of_the_vault_holds_its_metadata(sync: SyncResponse)
    ensures
        ({
            let row = repository::metadata_row(sync);
            &&& row.domains == sync.domains
            &&& row.policies == sync.policies
            &&& row.sends == sync.sends
            &&& row.object == sync.object
            &&& row.extra == sync.extra
            &&& sync.user_decryption is None ==> row.unlock is None
            &&& sync.user_decryption matches Some(options) ==> row.unlock == Some(
                options.master_password_unlock,
            )
        }),
{
}

/// The row of the session holds what the session says, and no keys.
pub proof fn the_row_of_the_session_holds_no_keys(session: Session)
    ensures
        ({
            let row = repository::session_row(session);
            &&& row.email == session.email
            &&& row.device_id == session.device_id
            &&& row.access_token == session.access_token
            &&& row.refresh_token == session.refresh_token
            &&& row.last_sync_time == session.last_sync_time
            &&& row.server_url == session.server_url
            &&& row.enc_key is None
            &&& row.mac_key is None
        }),
{
}

// ---------------------------------------------------------------------------
// What is read from rows
// ---------------------------------------------------------------------------
/// A row that belongs to an item is the last of its rows so far, and stands behind the others; a
/// row of another item changes nothing.
pub proof fn rows_belong_to_the_item_they_name<R: Owned>(rows: Seq<R>, row: R, id: Seq<char>)
    ensures
        row.owner() == id ==> repository::last_owned(rows.push(row), id) == Some(row)
            && repository::all_owned(rows.push(row), id) == repository::all_owned(rows, id).push(row),
        row.owner() != id ==> repository::last_owned(rows.push(row), id) == repository::last_owned(
            rows,
            id,
        ) && repository::all_owned(rows.push(row), id) == repository::all_owned(rows, id),
        repository::last_owned(Seq::<R>::empty(), id) is None,
        repository::all_owned(Seq::<R>::empty(), id).len() == 0,
{
    assert(rows.push(row).drop_last() =~= rows);
}

/// Each row of a part belongs to the item whose id it holds.
pub proof fn parts_belong_to_the_item_they_name(
    login: LoginRow,
    key: SshKeyRow,
    field: FieldRow,
    attachment: AttachmentRow,
    link: LinkRow,
)
    ensures
        login.owner() == login.cipher_id@,
        key.owner() == key.cipher_id@,
        field.owner() == field.cipher_id@,
        attachment.owner() == attachment.cipher_id@,
        link.owner() == link.cipher_id@,
{
}

/// What is read from the row of a part is what the row holds.
pub proof fn parts_are_read_from_their_rows(
    login: LoginRow,
    key: SshKeyRow,
    field: FieldRow,
    attachment: AttachmentRow,
    link: LinkRow,
    folder: FolderRow,
)
    ensures
        repository::login_of(Some(login)) == Some(
            LoginSync { username: login.username, password: login.password, uri: login.uri },
        ),
        repository::login_of(None) is None,
        repository::ssh_key_of(Some(key)) == Some(
            SshKeySync { private_key: key.private_key, public_key: key.public_key },
        ),
        repository::ssh_key_of(None) is None,
        repository::field_of(field) == (FieldSync {
            name: field.name,
            value: field.value,
            kind: field.kind,
        }),
        repository::attachment_of(attachment) == (AttachmentSync {
            id: attachment.id,
            file_name: attachment.file_name,
            size: attachment.size,
        }),
        repository::folder_of(Some(link)) == Some(link.folder_id),
        repository::folder_of(None) is None,
        repository::folder_of_row(folder) == (FolderSync {
            id: folder.id,
            name: folder.name,
            object: folder.object,
            revision_date: folder.revision_date,
        }),
{
}

/// Fields, attachments and folders are read in the order of their rows, one for each.
pub proof fn lists_are_read_in_order(
    fields: Seq<FieldRow>,
    attachments: Seq<AttachmentRow>,
    folders: Seq<FolderRow>,
    i: int,
)
    ensures
        repository::fields_of_rows(fields).len() == fields.len(),
        repository::attachments_of_rows(attachments).len() == attachments.len(),
        repository::folders_of_rows(folders).len() == folders.len(),
        0 <= i < fields.len() ==> repository::fields_of_rows(fields)[i].name == fields[i].name
            && repository::fields_of_rows(fields)[i].value == fields[i].value
            && repository::fields_of_rows(fields)[i].kind == fields[i].kind,
        0 <= i < attachments.len() ==> repository::attachments_of_rows(attachments)[i].id
            == attachments[i].id && repository::attachments_of_rows(attachments)[i].file_name
            == attachments[i].file_name && repository::attachments_of_rows(attachments)[i].size
            == attachments[i].size,
        0 <= i < folders.len() ==> repository::folders_of_rows(folders)[i].id == folders[i].id
            && repository::folders_of_rows(folders)[i].name == folders[i].name,
{
}

/// A list without items is not kept, and one with items is kept as it is.
pub proof fn empty_lists_are_not_kept(list: Vec<FieldSync>, items: Seq<FieldSync>)
    ensures
        repository::is_list(Some(list), items) <==> (items.len() > 0 && list@ == items),
        repository::is_list::<FieldSync>(None, items) <==> items.len() == 0,
{
}

/// An item is read from its core row and from the rows that belong to it.
pub proof fn items_are_read_from_their_rows(
    cipher: CipherSync,
    row: CipherRow,
    rows: repository::CipherRows,
)
    requires
        repository::is_assembled_from(cipher, row, rows),
    ensures
        cipher.id == row.id,
        cipher.organization_id == row.organization_id,
        cipher.kind == row.kind,
        cipher.name == row.name,
        cipher.notes == row.notes,
        cipher.favorite == (row.favorite != 0),
        cipher.reprompt == row.reprompt,
        cipher.organization_use_totp == (row.organization_use_totp != 0),
        cipher.edit == (row.edit != 0),
        cipher.view_password == (row.view_password != 0),
        cipher.creation_date == row.creation_date,
        cipher.revision_date == row.revision_date,
        cipher.deleted_date == row.deleted_date,
        cipher.archived_date == row.archived_date,
        cipher.key == row.key,
        cipher.object == row.object,
        cipher.extra@ == repository::object_text(row.extra@),
        repository::last_owned(rows.logins@, row.id@) matches Some(login) ==> (cipher.login matches Some(
            read,
        ) && read.username == login.username && read.password == login.password && read.uri
            == login.uri),
        repository::last_owned(rows.logins@, row.id@) is None ==> cipher.login is None,
        repository::last_owned(rows.ssh_keys@, row.id@) matches Some(key) ==> (cipher.ssh_key matches Some(
            read,
        ) && read.private_key == key.private_key && read.public_key == key.public_key),
        repository::last_owned(rows.ssh_keys@, row.id@) is None ==> cipher.ssh_key is None,
        repository::last_owned(rows.links@, row.id@) matches Some(link) ==> cipher.folder_id == Some(
            link.folder_id,
        ),
        repository::last_owned(rows.links@, row.id@) is None ==> cipher.folder_id is None,
        repository::fields_of(cipher) == repository::fields_of_rows(
            repository::all_owned(rows.fields@, row.id@),
        ),
        repository::attachments_of(cipher) == repository::attachments_of_rows(
            repository::all_owned(rows.attachments@, row.id@),
        ),
{
    assert(repository::fields_of(cipher) =~= repository::fields_of_rows(
        repository::all_owned(rows.fields@, row.id@),
    ));
    assert(repository::attachments_of(cipher) =~= repository::attachments_of_rows(
        repository::all_owned(rows.attachments@, row.id@),
    ));
}

/// The parts of an item and of a vault are what stands under their names; where nothing does there
/// are none.
pub proof fn missing_lists_are_empty(cipher: CipherSync, sync: SyncResponse)
    ensures
        cipher.fields matches Some(fields) ==> repository::fields_of(cipher) == fields@,
        cipher.fields is None ==> repository::fields_of(cipher).len() == 0,
        cipher.attachments matches Some(list) ==> repository::attachments_of(cipher) == list@,
        cipher.attachments is None ==> repository::attachments_of(cipher).len() == 0,
        sync.folders matches Some(folders) ==> repository::folders_of(sync) == folders@,
        sync.folders is None ==> repository::folders_of(sync).len() == 0,
        sync.profile.organizations matches Some(orgs) ==> repository::organizations_of(sync) == orgs@,
        sync.profile.organizations is None ==> repository::organizations_of(sync).len() == 0,
{
}

/// The item with an id is the first core row that has it.
pub proof fn an_item_is_found_by_its_id(rows: Seq<CipherRow>, i: int, id: Seq<char>)
    requires
        0 <= i < rows.len(),
        rows[i].id@ == id,
        forall|j: int| 0 <= j < i ==> (#[trigger] rows[j]).id@ != id,
    ensures
        repository::first_row(rows, id) == Some(rows[i]),
    decreases i,
{
    if i > 0 {
        let rest = rows.drop_first();
        assert(rows[0].id@ != id);
        assert(rest[i - 1] == rows[i]);
        assert forall|j: int| 0 <= j < i - 1 implies (#[trigger] rest[j]).id@ != id by {
            assert(rest[j] == rows[j + 1]);
        }
        an_item_is_found_by_its_id(rest, i - 1, id);
    }
}

/// An id that no core row has is not found.
pub proof fn unknown_ids_are_not_found(rows: Seq<CipherRow>, id: Seq<char>)
    requires
        forall|j: int| 0 <= j < rows.len() ==> (#[trigger] rows[j]).id@ != id,
    ensures
        repository::first_row(rows, id) is None,
    decreases rows.len(),
{
    if rows.len() > 0 {
        let rest = rows.drop_first();
        assert(rows[0].id@ != id);
        assert forall|j: int| 0 <= j < rest.len() implies (#[trigger] rest[j]).id@ != id by {
            assert(rest[j] == rows[j + 1]);
        }
        unknown_ids_are_not_found(rest, id);
    }
}

/// An item counts for its user unless it was deleted; that of another user does not count.
pub proof fn living_items_of_the_user_are_counted(
    rows: Seq<CipherRow>,
    row: CipherRow,
    user_id: Seq<char>,
)
    ensures
        row.user_id@ == user_id && row.deleted_date is None ==> repository::live_count(
            rows.push(row),
            user_id,
        ) == repository::live_count(rows, user_id) + 1,
        row.user_id@ != user_id || row.deleted_date is Some ==> repository::live_count(
            rows.push(row),
            user_id,
        ) == repository::live_count(rows, user_id),
        repository::live_count(Seq::empty(), user_id) == 0,
{
    assert(rows.push(row).drop_last() =~= rows);
}

/// The profile is read from the row of the user and from those of the organizations.
pub proof fn the_profile_is_read_from_its_rows(
    profile: ProfileSync,
    row: UserRow,
    orgs: Seq<OrganizationRow>,
    i: int,
)
    requires
        repository::is_profile(profile, row, orgs),
    ensures
        profile.id == row.id,
        profile.email == row.email,
        profile.email_verified == (row.email_verified != 0),
        profile.name == row.name,
        profile.premium == (row.premium != 0),
        profile.premium_from_organization == (row.premium_from_organization != 0),
        profile.private_key == row.private_key,
        profile.public_key == row.public_key,
        profile.security_stamp == row.security_stamp,
        profile.two_factor_enabled == (row.two_factor_enabled != 0),
        profile.uses_key_connector == (row.uses_key_connector != 0),
        profile.culture == row.culture,
        profile.creation_date == row.creation_date,
        profile.avatar_color == row.avatar_color,
        profile.force_password_reset == (row.force_password_reset != 0),
        profile.key == row.key,
        profile._status == row.status,
        profile.object@ == "profile"@,
        profile.extra@ == repository::object_text(row.extra@),
        profile.provider_organizations is None && profile.providers is None,
        orgs.len() == 0 ==> profile.organizations is None,
        orgs.len() > 0 ==> profile.organizations is Some && profile.organizations->0@.len()
            == orgs.len(),
        0 <= i < orgs.len() ==> {
            let org = profile.organizations->0@[i];
            &&& org.id == orgs[i].id && org.name == orgs[i].name
            &&& org.key == orgs[i].key && org.object == orgs[i].object
            &&& org.extra@ == "{}"@
        },
{
}

/// What the vault says of itself is read from its row; what is no JSON there is missing, and
/// without a row everything is.
pub proof fn the_metadata_are_read_from_their_row(
    sync: SyncResponse,
    row: MetadataRow,
    unlock: MasterPasswordUnlockSync,
)
    ensures
        repository::has_metadata(sync, Some(row)) ==> {
            &&& text::option_view(sync.domains) == repository::value_of(row.domains)
            &&& text::option_view(sync.policies) == repository::array_of(row.policies)
            &&& text::option_view(sync.sends) == repository::array_of(row.sends)
            &&& sync.object == row.object
            &&& sync.extra@ == repository::object_text(row.extra@)
            &&& row.unlock == Some(Some(unlock)) ==> sync.user_decryption == Some(
                UserDecryptionSync { master_password_unlock: Some(unlock) },
            )
            &&& row.unlock is None ==> sync.user_decryption is None
            &&& row.unlock == Some(None::<MasterPasswordUnlockSync>) ==> sync.user_decryption is None
        },
        repository::has_metadata(sync, None) ==> {
            &&& sync.domains is None && sync.policies is None && sync.sends is None
            &&& sync.object@ == "sync"@
            &&& sync.user_decryption is None
            &&& sync.extra@ == "{}"@
        },
{
}

/// A stored JSON text is read where it is one of the kind that is wanted.
pub proof fn json_is_read_where_it_is_json(s: String)
    ensures
        json::json_value_ok(s@) ==> repository::value_of(Some(s)) == Some(s@),
        !json::json_value_ok(s@) ==> repository::value_of(Some(s)) is None,
        repository::value_of(None) is None,
        json::json_array_ok(s@) ==> repository::array_of(Some(s)) == Some(s@),
        !json::json_array_ok(s@) ==> repository::array_of(Some(s)) is None,
        repository::array_of(None) is None,
        json::json_object_ok(s@) ==> repository::object_text(s@) == s@,
        !json::json_object_ok(s@) ==> repository::object_text(s@) == "{}"@,
        json::json_value_ok(s@) <==> crate::tree::json_shape(s@) is Some,
{
}

/// A vault is read with its profile, its folders, one item for each core row, and its metadata.
pub proof fn a_vault_is_read_from_its_rows(
    sync: SyncResponse,
    user: UserRow,
    rows: repository::VaultRows,
    i: int,
)
    requires
        repository::is_vault(sync, user, rows),
    ensures
        sync.profile.id == user.id && sync.profile.key == user.key,
        sync.ciphers@.len() == rows.items.ciphers@.len(),
        0 <= i < sync.ciphers@.len() ==> repository::is_assembled_from(
            sync.ciphers@[i],
            rows.items.ciphers@[i],
            rows.items,
        ),
        repository::folders_of(sync) == repository::folders_of_rows(rows.folders@),
        repository::has_metadata(sync, rows.metadata),
        repository::is_profile(sync.profile, user, rows.organizations@),
{
    assert(repository::folders_of(sync) =~= repository::folders_of_rows(rows.folders@));
}

/// The session is read from its row, for the user of the vault, with the timeout of the settings.
pub proof fn the_session_is_read_from_its_row(
    row: SessionRow,
    user_id: Option<String>,
    config: Config,
)
    ensures
        ({
            let session = repository::session_of(row, user_id, config);
            &&& session.user_id == user_id
            &&& session.email == row.email
            &&& session.device_id == row.device_id
            &&& session.access_token == row.access_token
            &&& session.refresh_token == row.refresh_token
            &&& session.last_sync_time == row.last_sync_time
            &&& session.server_url == row.server_url
            &&& session.timeout == config.timeout
            &&& session.timeout_action == config.timeout_action
        }),
{
}

/// Keys are a pair exactly where both have 32 bytes; the first is the one for encryption.
pub proof fn keys_come_in_pairs(enc: Seq<u8>, mac: Seq<u8>)
    ensures
        enc.len() == 32 && mac.len() == 32 ==> repository::key_pair(enc, mac) == Some((enc, mac)),
        enc.len() != 32 || mac.len() != 32 ==> repository::key_pair(enc, mac) is None,
{
}

/// Keys that were saved in hexadecimal are loaded; where one is missing, or has another length,
/// there are none, and what is no hexadecimal is a fault.
pub proof fn saved_keys_are_loaded(enc: Seq<u8>, mac: Seq<u8>, a: Seq<char>, b: Seq<char>)
    ensures
        enc.len() == 32 && mac.len() == 32 ==> repository::saved_keys(
            Some(primitives::hex_encoded(enc)),
            Some(primitives::hex_encoded(mac)),
        ) == Ok::<Option<(Seq<u8>, Seq<u8>)>, Seq<char>>(Some((enc, mac))),
        enc.len() != 32 || mac.len() != 32 ==> repository::saved_keys(
            Some(primitives::hex_encoded(enc)),
            Some(primitives::hex_encoded(mac)),
        ) == Ok::<Option<(Seq<u8>, Seq<u8>)>, Seq<char>>(None),
        repository::saved_keys(None, Some(b)) == Ok::<Option<(Seq<u8>, Seq<u8>)>, Seq<char>>(None),
        repository::saved_keys(Some(a), None) == Ok::<Option<(Seq<u8>, Seq<u8>)>, Seq<char>>(None),
        repository::saved_keys(None, None) == Ok::<Option<(Seq<u8>, Seq<u8>)>, Seq<char>>(None),
        !primitives::is_hex(a) ==> repository::saved_keys(Some(a), Some(b)) == Err::<
            Option<(Seq<u8>, Seq<u8>)>,
            Seq<char>,
        >(primitives::hex_fault(a)),
        primitives::is_hex(a) && !primitives::is_hex(b) ==> repository::saved_keys(Some(a), Some(b))
            == Err::<Option<(Seq<u8>, Seq<u8>)>, Seq<char>>(primitives::hex_fault(b)),
{
    primitives::hex_round_trip(enc);
    primitives::hex_round_trip(mac);
}

// ---------------------------------------------------------------------------
// Plans
// ---------------------------------------------------------------------------
/// Tables that hold an item have its members in the core row, under its id and for its user, and
/// its parts in theirs: a login, an SSH key, the fields and the attachments in order, the folder.
/// What the item does not have, the tables do not hold for it.
pub proof fn held_items_stand_in_the_tables(
    db: Database,
    cipher: CipherSync,
    user_id: String,
    i: int,
    folder: Seq<char>,
)
    requires
        laws::holds_item(db, cipher, user_id),
    ensures
        ({
            let id = cipher.id@;
            let row = db.ciphers[id];
            &&& db.ciphers.dom().contains(id)
            &&& row.id == cipher.id && row.user_id == user_id
            &&& row.organization_id == cipher.organization_id && row.kind == cipher.kind
            &&& row.name == cipher.name && row.notes == cipher.notes && row.key == cipher.key
            &&& row.deleted_date == cipher.deleted_date && row.extra == cipher.extra
            &&& (row.favorite != 0) == cipher.favorite
            &&& cipher.login matches Some(login) ==> db.logins.dom().contains(id)
                && db.logins[id].username == login.username && db.logins[id].password
                == login.password && db.logins[id].uri == login.uri
            &&& cipher.login is None ==> !db.logins.dom().contains(id)
            &&& cipher.ssh_key matches Some(key) ==> db.ssh_keys.dom().contains(id)
                && db.ssh_keys[id].private_key == key.private_key && db.ssh_keys[id].public_key
                == key.public_key
            &&& cipher.ssh_key is None ==> !db.ssh_keys.dom().contains(id)
            &&& tables::rows_of(db.fields, id).len() == repository::fields_of(cipher).len()
            &&& 0 <= i < repository::fields_of(cipher).len() ==> {
                let held = tables::rows_of(db.fields, id)[i];
                let field = repository::fields_of(cipher)[i];
                held.name == field.name && held.value == field.value && held.kind == field.kind
            }
            &&& tables::rows_of(db.attachments, id).len() == repository::attachments_of(
                cipher,
            ).len()
            &&& 0 <= i < repository::attachments_of(cipher).len() ==> {
                let held = tables::rows_of(db.attachments, id)[i];
                let attachment = repository::attachments_of(cipher)[i];
                held.id == attachment.id && held.file_name == attachment.file_name && held.size
                    == attachment.size
            }
            &&& db.links.contains((id, folder)) <==> (cipher.folder_id is Some
                && cipher.folder_id->0@ == folder)
        }),
{
    let id = cipher.id@;
    let saved = laws::after_save(db, cipher, user_id);
    let link = (id, folder);
    assert(saved.links.contains(link) == db.links.contains(link));
}

/// Saving an item first puts in its core row and takes everything that belonged to it out, then
/// puts in what belongs to it now.
pub proof fn saving_begins_with_the_core_row(cipher: CipherSync, user_id: String)
    ensures
        ({
            let plan = repository::cipher_plan(cipher, user_id);
            &&& plan.len() >= 6
            &&& plan[0] == Statement::ReplaceCipher(repository::cipher_row(cipher, user_id))
            &&& plan[1] == Statement::DeleteLogins(cipher.id)
            &&& plan[2] == Statement::DeleteSshKeys(cipher.id)
            &&& plan[3] == Statement::DeleteFields(cipher.id)
            &&& plan[4] == Statement::DeleteAttachments(cipher.id)
            &&& plan[5] == Statement::DeleteLinks(cipher.id)
        }),
{
}

/// Items are saved one behind the other.
pub proof fn items_are_saved_in_order(ciphers: Seq<CipherSync>, cipher: CipherSync, user_id: String)
    ensures
        repository::ciphers_plan(ciphers.push(cipher), user_id) == repository::ciphers_plan(
            ciphers,
            user_id,
        ) + repository::cipher_plan(cipher, user_id),
        repository::ciphers_plan(Seq::empty(), user_id).len() == 0,
{
    assert(ciphers.push(cipher).drop_last() =~= ciphers);
}

// ---------------------------------------------------------------------------
// Statements
// ---------------------------------------------------------------------------
/// Each statement has its text: the columns that it writes and the row that it is about.
pub proof fn statements_have_their_texts(
    user: UserRow,
    org: OrganizationRow,
    folder: FolderRow,
    cipher: CipherRow,
    login: LoginRow,
    ssh_key: SshKeyRow,
    field: FieldRow,
    attachment: AttachmentRow,
    link: LinkRow,
    metadata: MetadataRow,
    session: SessionRow,
    id: String,
    other: String,
)
    ensures
        sql::statement_sql(Statement::ClearUsers) == "DELETE FROM users"@,
        sql::statement_sql(Statement::ClearOrganizations) == "DELETE FROM organizations"@,
        sql::statement_sql(Statement::ClearFolders) == "DELETE FROM folders"@,
        sql::statement_sql(Statement::ClearCiphers) == "DELETE FROM ciphers"@,
        sql::statement_sql(Statement::ClearMetadata) == "DELETE FROM sync_metadata"@,
        sql::statement_sql(Statement::ForgetSession) == "UPDATE session_metadata SET email = NULL, access_token = NULL, refresh_token = NULL, last_sync_time = NULL, enc_key = NULL, mac_key = NULL WHERE id = 1"@,
        sql::statement_sql(Statement::InsertUser(user)) == "INSERT INTO users (id, email, email_verified, name, premium, premium_from_organization, private_key, public_key, security_stamp, two_factor_enabled, uses_key_connector, culture, creation_date, avatar_color, force_password_reset, key, _status, extra) VALUES (?1, ?2, ?3, ?4, ?5, ?6, ?7, ?8, ?9, ?10, ?11, ?12, ?13, ?14, ?15, ?16, ?17, ?18)"@,
        sql::statement_sql(Statement::InsertOrganization(org)) == "INSERT INTO organizations (id, name, key, object) VALUES (?1, ?2, ?3, ?4)"@,
        sql::statement_sql(Statement::ReplaceOrganization(org)) == "INSERT OR REPLACE INTO organizations (id, name, key, object) VALUES (?1, ?2, ?3, ?4)"@,
        sql::statement_sql(Statement::InsertFolder(folder)) == "INSERT INTO folders (id, user_id, name, object, revision_date) VALUES (?1, ?2, ?3, ?4, ?5)"@,
        sql::statement_sql(Statement::ReplaceFolder(folder)) == "INSERT OR REPLACE INTO folders (id, user_id, name, object, revision_date) VALUES (?1, ?2, ?3, ?4, ?5)"@,
        sql::statement_sql(Statement::DeleteFolder(id)) == "DELETE FROM folders WHERE id = ?1"@,
        sql::statement_sql(Statement::ReplaceCipher(cipher)) == "INSERT OR REPLACE INTO ciphers (id, user_id, organization_id, type, name, notes, favorite, reprompt, organization_use_totp, edit, view_password, creation_date, revision_date, deleted_date, archived_date, key, object, extra) VALUES (?1, ?2, ?3, ?4, ?5, ?6, ?7, ?8, ?9, ?10, ?11, ?12, ?13, ?14, ?15, ?16, ?17, ?18)"@,
        sql::statement_sql(Statement::DeleteCipher(id)) == "DELETE FROM ciphers WHERE id = ?1"@,
        sql::statement_sql(Statement::DeleteLogins(id)) == "DELETE FROM cipher_logins WHERE cipher_id = ?1"@,
        sql::statement_sql(Statement::DeleteSshKeys(id)) == "DELETE FROM cipher_ssh_keys WHERE cipher_id = ?1"@,
        sql::statement_sql(Statement::DeleteFields(id)) == "DELETE FROM cipher_fields WHERE cipher_id = ?1"@,
        sql::statement_sql(Statement::DeleteAttachments(id)) == "DELETE FROM attachments WHERE cipher_id = ?1"@,
        sql::statement_sql(Statement::DeleteLinks(id)) == "DELETE FROM folders_ciphers WHERE cipher_id = ?1"@,
        sql::statement_sql(Statement::InsertLogin(login)) == "INSERT INTO cipher_logins (cipher_id, username, password, uri) VALUES (?1, ?2, ?3, ?4)"@,
        sql::statement_sql(Statement::InsertSshKey(ssh_key)) == "INSERT INTO cipher_ssh_keys (cipher_id, private_key, public_key) VALUES (?1, ?2, ?3)"@,
        sql::statement_sql(Statement::InsertField(field)) == "INSERT INTO cipher_fields (cipher_id, name, value, type) VALUES (?1, ?2, ?3, ?4)"@,
        sql::statement_sql(Statement::InsertAttachment(attachment)) == "INSERT INTO attachments (id, cipher_id, file_name, size) VALUES (?1, ?2, ?3, ?4)"@,
        sql::statement_sql(Statement::ReplaceLink(link)) == "INSERT OR REPLACE INTO folders_ciphers (cipher_id, folder_id) VALUES (?1, ?2)"@,
        sql::statement_sql(Statement::ReplaceMetadata(metadata)) == "INSERT OR REPLACE INTO sync_metadata (id, domains, policies, sends, object, masterPasswordUnlock, extra) VALUES (1, ?1, ?2, ?3, ?4, ?5, ?6)"@,
        sql::statement_sql(Statement::InitSession(id)) == "INSERT OR IGNORE INTO session_metadata (id, device_id) VALUES (1, ?1)"@,
        sql::statement_sql(Statement::ReplaceSession(session)) == "INSERT OR REPLACE INTO session_metadata (id, email, device_id, access_token, refresh_token, last_sync_time, server_url) VALUES (1, ?1, ?2, ?3, ?4, ?5, ?6)"@,
        sql::statement_sql(Statement::SaveKeys(id, other)) == "UPDATE session_metadata SET enc_key = ?1, mac_key = ?2 WHERE id = 1"@,
        sql::statement_sql(Statement::ClearKeys) == "UPDATE session_metadata SET enc_key = NULL, mac_key = NULL WHERE id = 1"@,
{
}

/// Each query reads the columns of its table, in the order in which rows hold them.
pub proof fn queries_have_their_texts()
    ensures
        sql::SELECT_USER@ == "SELECT id, email, email_verified, name, premium, premium_from_organization, private_key, public_key, security_stamp, two_factor_enabled, uses_key_connector, culture, creation_date, avatar_color, force_password_reset, key, _status, extra FROM users LIMIT 1"@,
        sql::SELECT_ORGANIZATIONS@ == "SELECT id, name, key, object FROM organizations"@,
        sql::SELECT_FOLDERS@ == "SELECT id, user_id, name, object, revision_date FROM folders"@,
        sql::SELECT_CIPHERS@ == "SELECT id, user_id, organization_id, type, name, notes, favorite, reprompt, organization_use_totp, edit, view_password, creation_date, revision_date, deleted_date, archived_date, key, object, extra FROM ciphers"@,
        sql::SELECT_LOGINS@ == "SELECT cipher_id, username, password, uri FROM cipher_logins"@,
        sql::SELECT_SSH_KEYS@ == "SELECT cipher_id, private_key, public_key FROM cipher_ssh_keys"@,
        sql::SELECT_FIELDS@ == "SELECT cipher_id, name, value, type FROM cipher_fields ORDER BY id"@,
        sql::SELECT_ATTACHMENTS@ == "SELECT id, cipher_id, file_name, size FROM attachments"@,
        sql::SELECT_LINKS@ == "SELECT cipher_id, folder_id FROM folders_ciphers"@,
        sql::SELECT_METADATA@ == "SELECT domains, policies, sends, object, masterPasswordUnlock, extra FROM sync_metadata LIMIT 1"@,
        sql::SELECT_SESSION@ == "SELECT email, device_id, access_token, refresh_token, last_sync_time, server_url, enc_key, mac_key FROM session_metadata WHERE id = 1"@,
        sql::FOREIGN_KEYS@ == "PRAGMA foreign_keys = ON;"@,
{
}

/// The values of a row are bound in the order of the columns that its statement names.
pub proof fn values_are_bound_in_the_order_of_columns(
    org: OrganizationRow,
    folder: FolderRow,
    login: LoginRow,
    ssh_key: SshKeyRow,
    field: FieldRow,
    attachment: AttachmentRow,
    link: LinkRow,
    metadata: MetadataRow,
    session: SessionRow,
    id: String,
    other: String,
)
    ensures
        sql::statement_cells(Statement::InsertOrganization(org)) == seq![
            Cell::Text(org.id),
            Cell::Text(org.name),
            Cell::Text(org.key),
            Cell::Text(org.object),
        ],
        sql::statement_cells(Statement::ReplaceOrganization(org)) == sql::statement_cells(
            Statement::InsertOrganization(org),
        ),
        sql::statement_cells(Statement::InsertFolder(folder)) == seq![
            Cell::Text(folder.id),
            Cell::Text(folder.user_id),
            Cell::Text(folder.name),
            Cell::Text(folder.object),
            Cell::Text(folder.revision_date),
        ],
        sql::statement_cells(Statement::ReplaceFolder(folder)) == sql::statement_cells(
            Statement::InsertFolder(folder),
        ),
        sql::statement_cells(Statement::InsertLogin(login)) == seq![
            Cell::Text(login.cipher_id),
            sql::optional_text(login.username),
            sql::optional_text(login.password),
            sql::optional_text(login.uri),
        ],
        sql::statement_cells(Statement::InsertSshKey(ssh_key)) == seq![
            Cell::Text(ssh_key.cipher_id),
            sql::optional_text(ssh_key.private_key),
            sql::optional_text(ssh_key.public_key),
        ],
        sql::statement_cells(Statement::InsertField(field)) == seq![
            Cell::Text(field.cipher_id),
            Cell::Text(field.name),
            sql::optional_text(field.value),
            Cell::Integer(field.kind as i64),
        ],
        sql::statement_cells(Statement::InsertAttachment(attachment)) == seq![
            Cell::Text(attachment.id),
            Cell::Text(attachment.cipher_id),
            sql::optional_text(attachment.file_name),
            sql::optional_long(attachment.size),
        ],
        sql::statement_cells(Statement::ReplaceLink(link)) == seq![
            Cell::Text(link.cipher_id),
            Cell::Text(link.folder_id),
        ],
        sql::statement_cells(Statement::ReplaceMetadata(metadata)) == seq![
            Cell::Json(metadata.domains),
            Cell::Json(metadata.policies),
            Cell::Json(metadata.sends),
            Cell::Text(metadata.object),
            Cell::Unlock(metadata.unlock),
            Cell::Text(metadata.extra),
        ],
        sql::statement_cells(Statement::ReplaceSession(session)) == seq![
            sql::optional_text(session.email),
            Cell::Text(session.device_id),
            sql::optional_text(session.access_token),
            sql::optional_text(session.refresh_token),
            sql::optional_text(session.last_sync_time),
            sql::optional_text(session.server_url),
        ],
        sql::statement_cells(Statement::SaveKeys(id, other)) == seq![
            Cell::Text(id),
            Cell::Text(other),
        ],
{
}

/// The values of the row of the user are bound in the order of its columns.
pub proof fn the_values_of_the_user_are_bound(row: UserRow)
    ensures
        ({
            let cells = sql::statement_cells(Statement::InsertUser(row));
            &&& cells.len() == 18
            &&& cells[0] == Cell::Text(row.id)
            &&& cells[1] == Cell::Text(row.email)
            &&& cells[2] == Cell::Integer(row.email_verified as i64)
            &&& cells[3] == sql::optional_text(row.name)
            &&& cells[4] == Cell::Integer(row.premium as i64)
            &&& cells[5] == Cell::Integer(row.premium_from_organization as i64)
            &&& cells[6] == sql::optional_text(row.private_key)
            &&& cells[7] == sql::optional_text(row.public_key)
            &&& cells[8] == sql::optional_text(row.security_stamp)
            &&& cells[9] == Cell::Integer(row.two_factor_enabled as i64)
            &&& cells[10] == Cell::Integer(row.uses_key_connector as i64)
            &&& cells[11] == Cell::Text(row.culture)
            &&& cells[12] == Cell::Text(row.creation_date)
            &&& cells[13] == sql::optional_text(row.avatar_color)
            &&& cells[14] == Cell::Integer(row.force_password_reset as i64)
            &&& cells[15] == Cell::Text(row.key)
            &&& cells[16] == sql::optional_int(row.status)
            &&& cells[17] == Cell::Text(row.extra)
        }),
{
}

/// The values of the core row of an item are bound in the order of its columns.
pub proof fn the_values_of_an_item_are_bound(row: CipherRow)
    ensures
        ({
            let cells = sql::statement_cells(Statement::ReplaceCipher(row));
            &&& cells.len() == 18
            &&& cells[0] == Cell::Text(row.id)
            &&& cells[1] == Cell::Text(row.user_id)
            &&& cells[2] == sql::optional_text(row.organization_id)
            &&& cells[3] == Cell::Integer(row.kind as i64)
            &&& cells[4] == sql::optional_text(row.name)
            &&& cells[5] == sql::optional_text(row.notes)
            &&& cells[6] == Cell::Integer(row.favorite as i64)
            &&& cells[7] == Cell::Integer(row.reprompt as i64)
            &&& cells[8] == Cell::Integer(row.organization_use_totp as i64)
            &&& cells[9] == Cell::Integer(row.edit as i64)
            &&& cells[10] == Cell::Integer(row.view_password as i64)
            &&& cells[11] == Cell::Text(row.creation_date)
            &&& cells[12] == Cell::Text(row.revision_date)
            &&& cells[13] == sql::optional_text(row.deleted_date)
            &&& cells[14] == sql::optional_text(row.archived_date)
            &&& cells[15] == sql::optional_text(row.key)
            &&& cells[16] == Cell::Text(row.object)
            &&& cells[17] == Cell::Text(row.extra)
        }),
{
}

/// A statement on one row is bound to the id of that row, and one on a whole table to nothing.
pub proof fn statements_on_a_row_are_bound_to_its_id(id: String)
    ensures
        sql::statement_cells(Statement::DeleteFolder(id)) == seq![Cell::Text(id)],
        sql::statement_cells(Statement::DeleteCipher(id)) == seq![Cell::Text(id)],
        sql::statement_cells(Statement::DeleteLogins(id)) == seq![Cell::Text(id)],
        sql::statement_cells(Statement::DeleteSshKeys(id)) == seq![Cell::Text(id)],
        sql::statement_cells(Statement::DeleteFields(id)) == seq![Cell::Text(id)],
        sql::statement_cells(Statement::DeleteAttachments(id)) == seq![Cell::Text(id)],
        sql::statement_cells(Statement::DeleteLinks(id)) == seq![Cell::Text(id)],
        sql::statement_cells(Statement::InitSession(id)) == seq![Cell::Text(id)],
        sql::statement_cells(Statement::ClearUsers).len() == 0,
        sql::statement_cells(Statement::ClearOrganizations).len() == 0,
        sql::statement_cells(Statement::ClearFolders).len() == 0,
        sql::statement_cells(Statement::ClearCiphers).len() == 0,
        sql::statement_cells(Statement::ClearMetadata).len() == 0,
        sql::statement_cells(Statement::ForgetSession).len() == 0,
        sql::statement_cells(Statement::ClearKeys).len() == 0,
{
}

/// What is missing is bound as nothing, and what is there as it is.
pub proof fn missing_values_are_bound_as_nothing(s: String, n: i32, m: i64)
    ensures
        sql::optional_text(Some(s)) == Cell::Text(s),
        sql::optional_text(None) is Null,
        sql::optional_int(Some(n)) == Cell::Integer(n as i64),
        sql::optional_int(None) is Null,
        sql::optional_long(Some(m)) == Cell::Integer(m),
        sql::optional_long(None) is Null,
{
}

/// A statement that fails is named in the message.
pub proof fn failed_statements_are_named(
    user: UserRow,
    org: OrganizationRow,
    folder: FolderRow,
    cipher: CipherRow,
    login: LoginRow,
    ssh_key: SshKeyRow,
    field: FieldRow,
    attachment: AttachmentRow,
    link: LinkRow,
    metadata: MetadataRow,
    session: SessionRow,
    id: String,
    other: String,
)
    ensures
        tables::failure_prefix(Statement::InsertUser(user)) == "Failed to save user profile: "@,
        tables::failure_prefix(Statement::InsertOrganization(org))
            == "Failed to save organization: "@,
        tables::failure_prefix(Statement::ReplaceOrganization(org))
            == "Failed to save organization: "@,
        tables::failure_prefix(Statement::InsertFolder(folder)) == "Failed to save folder: "@,
        tables::failure_prefix(Statement::ReplaceFolder(folder)) == "Failed to save folder: "@,
        tables::failure_prefix(Statement::DeleteFolder(id)) == "Failed to delete folder: "@,
        tables::failure_prefix(Statement::ReplaceCipher(cipher)) == "Failed to save core cipher: "@,
        tables::failure_prefix(Statement::DeleteCipher(id)) == "Failed to delete cipher: "@,
        tables::failure_prefix(Statement::InsertLogin(login)) == "Failed to save cipher login: "@,
        tables::failure_prefix(Statement::InsertSshKey(ssh_key))
            == "Failed to save cipher SSH key: "@,
        tables::failure_prefix(Statement::InsertField(field)) == "Failed to save cipher field: "@,
        tables::failure_prefix(Statement::InsertAttachment(attachment))
            == "Failed to save cipher attachment: "@,
        tables::failure_prefix(Statement::ReplaceLink(link))
            == "Failed to save folder cipher relationship: "@,
        tables::failure_prefix(Statement::ReplaceMetadata(metadata))
            == "Failed to save sync metadata: "@,
        tables::failure_prefix(Statement::InitSession(id))
            == "Failed to initialize session_metadata default row: "@,
        tables::failure_prefix(Statement::ReplaceSession(session)) == "Failed to save session: "@,
        tables::failure_prefix(Statement::SaveKeys(id, other)) == "Failed to save keys: "@,
        tables::failure_prefix(Statement::ClearKeys) == "Failed to clear keys: "@,
        tables::failure_prefix(Statement::ClearUsers).len() == 0,
        tables::failure_prefix(Statement::ForgetSession).len() == 0,
        tables::failure_prefix(Statement::DeleteLogins(id)).len() == 0,
{
}

/// The statements of a plan are carried out in order and then committed; a failure is rolled back.
pub proof fn a_transaction_goes_from_statement_to_statement(i: usize, total: nat)
    requires
        total <= usize::MAX,
    ensures
        transaction::next_action(Action::Begin, true, 0) == Some(Action::Commit),
        total > 0 ==> transaction::next_action(Action::Begin, true, total) == Some(
            Action::Execute(0),
        ),
        transaction::next_action(Action::Begin, false, total) is None,
        i + 1 < total ==> transaction::next_action(Action::Execute(i), true, total) == Some(
            Action::Execute((i + 1) as usize),
        ),
        i + 1 == total ==> transaction::next_action(Action::Execute(i), true, total) == Some(
            Action::Commit,
        ),
        transaction::next_action(Action::Execute(i), false, total) == Some(Action::RollBack),
        transaction::next_action(Action::Commit, true, total) is None,
        transaction::next_action(Action::Commit, false, total) == Some(Action::RollBack),
        transaction::next_action(Action::RollBack, true, total) is None,
        transaction::next_action(Action::RollBack, false, total) is None,
{
}

/// A failure is reported with what failed: the statement, or the commit.
pub proof fn failures_say_what_failed(plan: Seq<Statement>, i: usize, e: Seq<char>)
    ensures
        i < plan.len() ==> transaction::action_fault(Action::Execute(i), plan, e)
            == tables::failure_prefix(plan[i as int]) + e,
        transaction::action_fault(Action::Commit, plan, e) == "Failed to commit transaction: "@ + e,
        transaction::action_fault(Action::Begin, plan, e) == e,
        transaction::action_fault(Action::RollBack, plan, e) == e,
{
}

} // verus!
