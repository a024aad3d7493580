//! What holds of the registry's rules, proved from their definitions.

use crate::auth_accounts::{
    activated, both_equal, belongs_to, emails_agree, merged, owner_of, removed_from, touched,
    upserted, upserted_and_activated, with_id, AccountsFileView, StoredAccountView,
};
use crate::search::{
    first_where, lemma_position, lemma_position_agrees, lemma_position_is, lemma_position_none,
    position,
};
use crate::token_data::{AuthMode, Timestamp, TokenDataView};
use vstd::prelude::*;

verus! {

/// The record of a sign-in with an API key: a new name, the key, and the
/// label if one was given.
pub open spec fn api_key_record(
    id: Seq<char>,
    api_key: Seq<char>,
    label: Option<Seq<char>>,
) -> StoredAccountView {
    StoredAccountView {
        id,
        mode: AuthMode::ApiKey,
        label,
        openai_api_key: Some(api_key),
        tokens: None,
        last_refresh: None,
        created_at: None,
        last_used_at: None,
    }
}

/// The record of a ChatGPT sign-in: a new name, the tokens, the time at
/// which they were obtained, and the label if one was given.
pub open spec fn chatgpt_record(
    id: Seq<char>,
    tokens: TokenDataView,
    last_refresh: Timestamp,
    label: Option<Seq<char>>,
) -> StoredAccountView {
    StoredAccountView {
        id,
        mode: AuthMode::ChatGPT,
        label,
        openai_api_key: None,
        tokens: Some(tokens),
        last_refresh: Some(last_refresh),
        created_at: None,
        last_used_at: None,
    }
}

/// Whether two records belong to the same accounts, and an account that
/// took the first belongs to the second.
pub open spec fn same_identity(first: StoredAccountView, second: StoredAccountView) -> bool {
    &&& forall|e: StoredAccountView| #[trigger] belongs_to(e, first) == belongs_to(e, second)
    &&& forall|e: StoredAccountView|
        belongs_to(e, first) ==> belongs_to(#[trigger] merged(e, first), second)
    &&& forall|now: Timestamp| belongs_to(#[trigger] touched(first, false, now), second)
}

/// Whether no account that took the first record, and no account made of
/// it, belongs to the second.
pub open spec fn other_identity(first: StoredAccountView, second: StoredAccountView) -> bool {
    &&& forall|e: StoredAccountView| !belongs_to(#[trigger] merged(e, first), second)
    &&& forall|now: Timestamp| !belongs_to(#[trigger] touched(first, false, now), second)
}

/// An upsert changes one account or adds one, and leaves every other
/// account and the order of the accounts as they were. An account that is
/// merged into keeps its name and its time of creation.
pub proof fn lemma_upsert_changes_one(
    data: AccountsFileView,
    incoming: StoredAccountView,
    now: Timestamp,
)
    ensures
        match position(data.accounts, owner_of(incoming)) {
            Some(i) => {
                &&& 0 <= i < data.accounts.len()
                &&& upserted(data, incoming, now).0.accounts.len() == data.accounts.len()
                &&& upserted(data, incoming, now).0.accounts[i] == upserted(data, incoming, now).1
                &&& upserted(data, incoming, now).1.id == data.accounts[i].id
                &&& upserted(data, incoming, now).1.created_at == data.accounts[i].created_at
                &&& forall|j: int|
                    0 <= j < data.accounts.len() && j != i ==> #[trigger] upserted(
                        data,
                        incoming,
                        now,
                    ).0.accounts[j] == data.accounts[j]
            },
            None => {
                &&& upserted(data, incoming, now).0.accounts == data.accounts.push(
                    upserted(data, incoming, now).1,
                )
                &&& upserted(data, incoming, now).1.id == incoming.id
            },
        },
        upserted(data, incoming, now).0.active_account_id == data.active_account_id,
        upserted(data, incoming, now).0.version == data.version,
{
    lemma_position(data.accounts, owner_of(incoming));
}

/// An activation changes no account but the one it stamps, and it changes
/// neither the name of that account nor what it signs in with.
pub proof fn lemma_activation_stamps_only(
    data: AccountsFileView,
    id: Option<Seq<char>>,
    now: Timestamp,
)
    ensures
        activated(data, id, now).0.accounts.len() == data.accounts.len(),
        activated(data, id, now).0.active_account_id == id,
        forall|j: int|
            0 <= j < data.accounts.len() ==> {
                ||| #[trigger] activated(data, id, now).0.accounts[j] == data.accounts[j]
                ||| activated(data, id, now).0.accounts[j] == touched(data.accounts[j], true, now)
            },
        match activated(data, id, now).1 {
            Some(account) => id == Some(account.id) && account.last_used_at == Some(now),
            None => true,
        },
{
    match id {
        Some(name) => {
            lemma_position(data.accounts, with_id(name));
        },
        None => {},
    }
}

/// After a record was upserted, with or without activation, the first
/// account that a record of the same identity belongs to is the account that
/// the upsert returned, by its name.
pub proof fn lemma_upsert_settles_owner(
    data: AccountsFileView,
    first: StoredAccountView,
    make_active: bool,
    now: Timestamp,
    second: StoredAccountView,
)
    requires
        same_identity(first, second),
    ensures
        match position(
            upserted_and_activated(data, first, make_active, now).0.accounts,
            owner_of(second),
        ) {
            Some(i) => upserted_and_activated(data, first, make_active, now).0.accounts[i].id
                == upserted_and_activated(data, first, make_active, now).1.id,
            None => false,
        },
{
    let (next, stored) = upserted(data, first, now);
    lemma_position(data.accounts, owner_of(first));
    let place = match position(data.accounts, owner_of(first)) {
        Some(i) => i,
        None => data.accounts.len() as int,
    };
    assert(first_where(next.accounts, owner_of(second), place)) by {
        assert forall|j: int| 0 <= j < place implies !owner_of(second)(
            #[trigger] next.accounts[j],
        ) by {
            assert(next.accounts[j] == data.accounts[j]);
            assert(!owner_of(first)(data.accounts[j]));
            assert(belongs_to(data.accounts[j], first) == belongs_to(data.accounts[j], second));
        }
        if position(data.accounts, owner_of(first)) is Some {
            assert(belongs_to(data.accounts[place], first));
            assert(next.accounts[place] == merged(data.accounts[place], first));
        } else {
            assert(next.accounts[place] == touched(first, false, now));
        }
    }
    assert(next.accounts[place].id == stored.id);
    let (last, account) = upserted_and_activated(data, first, make_active, now);
    if make_active {
        lemma_activation_stamps_only(next, Some(stored.id), now);
        assert(account.id == stored.id);
        assert forall|j: int| 0 <= j < next.accounts.len() implies owner_of(second)(
            #[trigger] last.accounts[j],
        ) == owner_of(second)(next.accounts[j]) by {}
        lemma_position_agrees(last.accounts, owner_of(second), next.accounts, owner_of(second));
        lemma_position_is(next.accounts, owner_of(second), place);
        assert(last.accounts[place].id == next.accounts[place].id);
    } else {
        lemma_position_is(next.accounts, owner_of(second), place);
    }
}

/// Two sign-ins of one identity give one account: the second upsert
/// returns an account of the same name as the first, and adds no account.
pub proof fn lemma_same_identity_gives_one_account(
    data: AccountsFileView,
    first: StoredAccountView,
    first_active: bool,
    first_now: Timestamp,
    second: StoredAccountView,
    second_active: bool,
    second_now: Timestamp,
)
    requires
        same_identity(first, second),
    ensures
        ({
            let (between, stored) = upserted_and_activated(data, first, first_active, first_now);
            let (after, again) = upserted_and_activated(
                between,
                second,
                second_active,
                second_now,
            );
            again.id == stored.id && after.accounts.len() == between.accounts.len()
        }),
{
    let (between, stored) = upserted_and_activated(data, first, first_active, first_now);
    lemma_upsert_settles_owner(data, first, first_active, first_now, second);
    lemma_upsert_changes_one(between, second, second_now);
    let (next, merged_account) = upserted(between, second, second_now);
    if second_active {
        lemma_activation_stamps_only(next, Some(merged_account.id), second_now);
    }
}

/// A sign-in of another identity than the one before, which belongs to no
/// account that was there, gives an account of its own: the second upsert
/// adds one account, and returns an account with the name that the second
/// record brought.
pub proof fn lemma_other_identity_gives_another_account(
    data: AccountsFileView,
    first: StoredAccountView,
    first_active: bool,
    first_now: Timestamp,
    second: StoredAccountView,
    second_active: bool,
    second_now: Timestamp,
)
    requires
        other_identity(first, second),
        position(data.accounts, owner_of(second)) is None,
    ensures
        ({
            let (between, stored) = upserted_and_activated(data, first, first_active, first_now);
            let (after, again) = upserted_and_activated(
                between,
                second,
                second_active,
                second_now,
            );
            &&& again.id == second.id
            &&& after.accounts.len() == between.accounts.len() + 1
            &&& second.id != stored.id ==> again.id != stored.id
        }),
{
    let (next, stored) = upserted(data, first, first_now);
    let (between, _) = upserted_and_activated(data, first, first_active, first_now);
    lemma_position(data.accounts, owner_of(first));
    lemma_position(data.accounts, owner_of(second));
    assert forall|j: int| 0 <= j < next.accounts.len() implies !owner_of(second)(
        #[trigger] next.accounts[j],
    ) by {
        match position(data.accounts, owner_of(first)) {
            Some(i) => {
                if j == i {
                    assert(next.accounts[j] == merged(data.accounts[i], first));
                } else {
                    assert(next.accounts[j] == data.accounts[j]);
                }
            },
            None => {
                if j == data.accounts.len() {
                    assert(next.accounts[j] == touched(first, false, first_now));
                } else {
                    assert(next.accounts[j] == data.accounts[j]);
                }
            },
        }
    }
    if first_active {
        lemma_activation_stamps_only(next, Some(stored.id), first_now);
    }
    assert forall|j: int| 0 <= j < between.accounts.len() implies !owner_of(second)(
        #[trigger] between.accounts[j],
    ) by {
        assert(!owner_of(second)(next.accounts[j]));
    }
    lemma_position_none(between.accounts, owner_of(second));
    let (appended, added) = upserted(between, second, second_now);
    if second_active {
        lemma_activation_stamps_only(appended, Some(added.id), second_now);
    }
}

/// Two sign-ins with the same API key are of one identity.
pub proof fn lemma_same_api_key(
    first_id: Seq<char>,
    first_label: Option<Seq<char>>,
    second_id: Seq<char>,
    second_label: Option<Seq<char>>,
    api_key: Seq<char>,
)
    ensures
        same_identity(
            api_key_record(first_id, api_key, first_label),
            api_key_record(second_id, api_key, second_label),
        ),
{
}

/// Two sign-ins with different API keys are of different identities.
pub proof fn lemma_different_api_keys(
    first_id: Seq<char>,
    first_label: Option<Seq<char>>,
    first_key: Seq<char>,
    second_id: Seq<char>,
    second_label: Option<Seq<char>>,
    second_key: Seq<char>,
)
    requires
        first_key != second_key,
    ensures
        other_identity(
            api_key_record(first_id, first_key, first_label),
            api_key_record(second_id, second_key, second_label),
        ),
{
}

/// Two ChatGPT sign-ins whose tokens have the same account id and e-mail
/// addresses that agree but for case and surrounding white space are of one
/// identity.
pub proof fn lemma_same_chatgpt_identity(
    first_id: Seq<char>,
    first_tokens: TokenDataView,
    first_refresh: Timestamp,
    first_label: Option<Seq<char>>,
    second_id: Seq<char>,
    second_tokens: TokenDataView,
    second_refresh: Timestamp,
    second_label: Option<Seq<char>>,
)
    requires
        both_equal(first_tokens.account_id, second_tokens.account_id),
        emails_agree(first_tokens.id_token.email, second_tokens.id_token.email),
    ensures
        same_identity(
            chatgpt_record(first_id, first_tokens, first_refresh, first_label),
            chatgpt_record(second_id, second_tokens, second_refresh, second_label),
        ),
{
}

/// Two ChatGPT sign-ins whose account ids or e-mail addresses do not agree,
/// or lack one of them, are of different identities: a sign-in is never
/// merged on a part of its identity.
pub proof fn lemma_different_chatgpt_identity(
    first_id: Seq<char>,
    first_tokens: TokenDataView,
    first_refresh: Timestamp,
    first_label: Option<Seq<char>>,
    second_id: Seq<char>,
    second_tokens: TokenDataView,
    second_refresh: Timestamp,
    second_label: Option<Seq<char>>,
)
    requires
        !both_equal(first_tokens.account_id, second_tokens.account_id) || !emails_agree(
            first_tokens.id_token.email,
            second_tokens.id_token.email,
        ),
    ensures
        other_identity(
            chatgpt_record(first_id, first_tokens, first_refresh, first_label),
            chatgpt_record(second_id, second_tokens, second_refresh, second_label),
        ),
{
}

/// An upsert that makes the account active stores its name as the active
/// one and stamps it with the time of use; the account that it returns is
/// then the active account.
pub proof fn lemma_make_active_stamps(
    data: AccountsFileView,
    incoming: StoredAccountView,
    now: Timestamp,
)
    ensures
        ({
            let (after, stored) = upserted_and_activated(data, incoming, true, now);
            &&& after.active_account_id == Some(stored.id)
            &&& stored.last_used_at == Some(now)
            &&& after.active_account() == Some(stored)
        }),
{
    let (next, upserted_account) = upserted(data, incoming, now);
    let (after, stored) = upserted_and_activated(data, incoming, true, now);
    let id = upserted_account.id;
    lemma_upsert_changes_one(data, incoming, now);
    lemma_position(data.accounts, owner_of(incoming));
    let place = match position(data.accounts, owner_of(incoming)) {
        Some(i) => i,
        None => data.accounts.len() as int,
    };
    assert(next.accounts[place] == upserted_account);
    assert(with_id(id)(next.accounts[place]));
    lemma_position(next.accounts, with_id(id));
    let k = position(next.accounts, with_id(id))->0;
    assert(after.accounts == next.accounts.update(k, stored));
    assert forall|j: int| 0 <= j < next.accounts.len() implies with_id(id)(
        #[trigger] after.accounts[j],
    ) == with_id(id)(next.accounts[j]) by {}
    lemma_position_agrees(after.accounts, with_id(id), next.accounts, with_id(id));
}

/// For an account that is new to the registry and made active at once, the
/// time of creation and the time of last use are the same.
pub proof fn lemma_first_use_is_creation(
    data: AccountsFileView,
    incoming: StoredAccountView,
    now: Timestamp,
)
    requires
        position(data.accounts, owner_of(incoming)) is None,
        !data.has_id(incoming.id),
        incoming.created_at is None,
    ensures
        ({
            let (after, stored) = upserted_and_activated(data, incoming, true, now);
            &&& stored.created_at == Some(now)
            &&& stored.created_at == stored.last_used_at
            &&& stored.id == incoming.id
            &&& after.accounts == data.accounts.push(stored)
        }),
{
    let (next, upserted_account) = upserted(data, incoming, now);
    let n = data.accounts.len() as int;
    assert(first_where(next.accounts, with_id(incoming.id), n)) by {
        assert forall|j: int| 0 <= j < n implies !with_id(incoming.id)(
            #[trigger] next.accounts[j],
        ) by {
            assert(next.accounts[j] == data.accounts[j]);
        }
    }
    lemma_position_is(next.accounts, with_id(incoming.id), n);
    let (after, stored) = upserted_and_activated(data, incoming, true, now);
    assert(after.accounts =~= data.accounts.push(stored));
}

/// Removing an account clears the active name if and only if it is the
/// name that was removed, and otherwise leaves it as it is. An account is
/// returned if and only if one had the name; removing is no error where
/// none had it.
pub proof fn lemma_remove_clears_active(data: AccountsFileView, id: Seq<char>)
    ensures
        removed_from(data, id).0.active_account_id == (if data.active_account_id == Some(id) {
            None
        } else {
            data.active_account_id
        }),
        removed_from(data, id).1 is Some <==> data.has_id(id),
        removed_from(data, id).1 matches Some(account) ==> account.id == id,
        removed_from(data, id).0.accounts.len() == data.accounts.len() - (if data.has_id(id) {
            1int
        } else {
            0int
        }),
{
    lemma_position(data.accounts, with_id(id));
    if data.has_id(id) {
        let i = choose|i: int| 0 <= i < data.accounts.len() && (#[trigger] data.accounts[i]).id
            == id;
        assert(with_id(id)(data.accounts[i]));
    }
}

/// In a registry whose names are unique, a removed name is gone, the names
/// stay unique, and removing it once more changes nothing.
pub proof fn lemma_remove_is_idempotent(data: AccountsFileView, id: Seq<char>)
    requires
        data.ids_unique(),
    ensures
        !removed_from(data, id).0.has_id(id),
        removed_from(data, id).0.ids_unique(),
        removed_from(removed_from(data, id).0, id) == (removed_from(data, id).0, None::<StoredAccountView>),
{
    lemma_position(data.accounts, with_id(id));
    let after = removed_from(data, id).0;
    match position(data.accounts, with_id(id)) {
        Some(i) => {
            assert forall|j: int| 0 <= j < after.accounts.len() implies !with_id(id)(
                #[trigger] after.accounts[j],
            ) by {
                if j < i {
                    assert(after.accounts[j] == data.accounts[j]);
                } else {
                    assert(after.accounts[j] == data.accounts[j + 1]);
                    assert(data.accounts[i].id != data.accounts[j + 1].id);
                }
            }
            assert forall|a: int, b: int| 0 <= a < b < after.accounts.len() implies (
            #[trigger] after.accounts[a]).id != (#[trigger] after.accounts[b]).id by {
                let a0 = if a < i { a } else { a + 1 };
                let b0 = if b < i { b } else { b + 1 };
                assert(after.accounts[a] == data.accounts[a0]);
                assert(after.accounts[b] == data.accounts[b0]);
                assert(data.accounts[a0].id != data.accounts[b0].id);
            }
        },
        None => {
            assert(after.accounts == data.accounts);
        },
    }
    lemma_position_none(after.accounts, with_id(id));
    assert(removed_from(after, id).0 == after);
}

/// An upsert keeps the names of the registry unique, where the record that
/// becomes a new account brings a name that no account has.
pub proof fn lemma_upsert_keeps_ids_unique(
    data: AccountsFileView,
    incoming: StoredAccountView,
    make_active: bool,
    now: Timestamp,
)
    requires
        data.ids_unique(),
        position(data.accounts, owner_of(incoming)) is None ==> !data.has_id(incoming.id),
    ensures
        upserted(data, incoming, now).0.ids_unique(),
        upserted_and_activated(data, incoming, make_active, now).0.ids_unique(),
{
    let (next, stored) = upserted(data, incoming, now);
    lemma_upsert_changes_one(data, incoming, now);
    lemma_position(data.accounts, owner_of(incoming));
    assert(next.ids_unique()) by {
        assert forall|a: int, b: int| 0 <= a < b < next.accounts.len() implies (
        #[trigger] next.accounts[a]).id != (#[trigger] next.accounts[b]).id by {
            match position(data.accounts, owner_of(incoming)) {
                Some(i) => {
                    assert(next.accounts[a].id == data.accounts[a].id);
                    assert(next.accounts[b].id == data.accounts[b].id);
                    assert(data.accounts[a].id != data.accounts[b].id);
                },
                None => {
                    assert(next.accounts[a] == data.accounts[a]);
                    if b < data.accounts.len() {
                        assert(next.accounts[b] == data.accounts[b]);
                        assert(data.accounts[a].id != data.accounts[b].id);
                    } else {
                        assert(next.accounts[b].id == incoming.id);
                    }
                },
            }
        }
    }
    if make_active {
        let (last, _) = activated(next, Some(stored.id), now);
        lemma_activation_stamps_only(next, Some(stored.id), now);
        assert forall|a: int, b: int| 0 <= a < b < last.accounts.len() implies (
        #[trigger] last.accounts[a]).id != (#[trigger] last.accounts[b]).id by {
            assert(last.accounts[a].id == next.accounts[a].id);
            assert(last.accounts[b].id == next.accounts[b].id);
            assert(next.accounts[a].id != next.accounts[b].id);
        }
    }
}

/// An active name that refers to no account means that no account is
/// active; it is no error.
pub proof fn lemma_stale_active_name(data: AccountsFileView)
    requires
        data.active_account_id matches Some(id) && !data.has_id(id),
    ensures
        data.active_account() is None,
{
    let id = data.active_account_id->0;
    lemma_position(data.accounts, with_id(id));
    if position(data.accounts, with_id(id)) is Some {
        let i = position(data.accounts, with_id(id))->0;
        assert(data.accounts[i].id == id);
    }
}

/// The empty registry has unique names, and an activation keeps the names
/// of a registry unique.
pub proof fn lemma_activation_keeps_ids_unique(
    data: AccountsFileView,
    id: Option<Seq<char>>,
    now: Timestamp,
)
    requires
        data.ids_unique(),
    ensures
        crate::auth_accounts::empty_accounts_file().ids_unique(),
        activated(data, id, now).0.ids_unique(),
{
    let after = activated(data, id, now).0;
    lemma_activation_stamps_only(data, id, now);
    assert forall|a: int, b: int| 0 <= a < b < after.accounts.len() implies (
    #[trigger] after.accounts[a]).id != (#[trigger] after.accounts[b]).id by {
        assert(after.accounts[a].id == data.accounts[a].id);
        assert(after.accounts[b].id == data.accounts[b].id);
        assert(data.accounts[a].id != data.accounts[b].id);
    }
}

} // verus!
