//! Which files the registry reads and writes, from what the configuration
//! names and what holds without it.

use crate::auth_accounts::storage::{paths_view, AccountStorePaths, AccountStorePathsView};
use vstd::string::StrSliceExecFns;
use crate::text::{contains_text, trim, trim_spec};
use vstd::prelude::*;

verus! {

/// The texts without those that occurred before, in their order.
pub open spec fn keep_first(texts: Seq<Seq<char>>) -> Seq<Seq<char>>
    decreases texts.len(),
{
    if texts.len() == 0 {
        Seq::empty()
    } else {
        let before = keep_first(texts.drop_last());
        if before.contains(texts.last()) {
            before
        } else {
            before.push(texts.last())
        }
    }
}

/// The values of a setting as they are used: each without the white space
/// at its ends, and none that is empty then.
pub open spec fn clean_values(raw: Seq<Seq<char>>) -> Seq<Seq<char>>
    decreases raw.len(),
{
    if raw.len() == 0 {
        Seq::empty()
    } else {
        let before = clean_values(raw.drop_last());
        if trim_spec(raw.last()).len() == 0 {
            before
        } else {
            before.push(trim_spec(raw.last()))
        }
    }
}

/// The paths that the configuration asks for: none where it names neither a
/// file to read nor the file to write; else the files to read as named, and
/// the file to write as named or, where it is not named, the default one.
pub open spec fn configured_paths(
    read_paths: Seq<Seq<char>>,
    write_path: Option<Seq<char>>,
    default_write_path: Seq<char>,
) -> Option<AccountStorePathsView> {
    if read_paths.len() == 0 && write_path is None {
        None
    } else {
        Some(
            AccountStorePathsView {
                read_paths,
                write_path: match write_path {
                    Some(path) => path,
                    None => default_write_path,
                },
            },
        )
    }
}

/// The paths in force. Without a configuration the file to write is the
/// default one and the files to read are the default one to read. Where no
/// file to read is named the default one is read; the file to write is read
/// first unless it is among the files to read already; and no file is read
/// twice.
pub open spec fn store_paths(
    default_write_path: Seq<char>,
    default_read_path: Seq<char>,
    configured: Option<AccountStorePathsView>,
) -> AccountStorePathsView {
    let base = match configured {
        Some(paths) => paths,
        None => AccountStorePathsView {
            read_paths: seq![default_read_path],
            write_path: default_write_path,
        },
    };
    let named = if base.read_paths.len() == 0 {
        seq![default_read_path]
    } else {
        base.read_paths
    };
    let with_write = if named.contains(base.write_path) {
        named
    } else {
        seq![base.write_path] + named
    };
    AccountStorePathsView { read_paths: keep_first(with_write), write_path: base.write_path }
}

/// The values of a setting as they are used: trimmed, and without the
/// empty ones.
pub fn clean_config_values(raw: &Vec<String>) -> (cleaned: Vec<String>)
    ensures
        cleaned.deep_view() == clean_values(raw.deep_view()),
{
    let mut cleaned: Vec<String> = Vec::new();
    let mut i: usize = 0;
    assert(raw.deep_view().subrange(0, 0) =~= Seq::empty());
    while i < raw.len()
        invariant
            i <= raw@.len(),
            cleaned.deep_view() == clean_values(raw.deep_view().subrange(0, i as int)),
        decreases raw@.len() - i,
    {
        let value = trim(raw[i].as_str());
        proof {
            let next = raw.deep_view().subrange(0, i + 1);
            assert(next.drop_last() =~= raw.deep_view().subrange(0, i as int));
            assert(next.last() == raw@[i as int]@);
        }
        let ghost before = cleaned.deep_view();
        if value.as_str().unicode_len() > 0 {
            cleaned.push(value);
            assert(cleaned.deep_view() =~= before.push(value@));
        }
        i = i + 1;
    }
    assert(raw.deep_view().subrange(0, raw@.len() as int) =~= raw.deep_view());
    cleaned
}

/// The paths that the configuration asks for, if it names any. The paths
/// are given as they were resolved against the root directory.
pub fn configured_account_store_paths(
    read_paths: Vec<String>,
    write_path: Option<String>,
    default_write_path: String,
) -> (paths: Option<AccountStorePaths>)
    ensures
        paths_view(paths) == configured_paths(
            read_paths.deep_view(),
            write_path.deep_view(),
            default_write_path@,
        ),
{
    if read_paths.len() == 0 && write_path.is_none() {
        return None;
    }
    let write_path = match write_path {
        Some(path) => path,
        None => default_write_path,
    };
    Some(AccountStorePaths { read_paths, write_path })
}

/// The texts without those that occurred before.
pub fn dedup_texts(texts: &Vec<String>) -> (kept: Vec<String>)
    ensures
        kept.deep_view() == keep_first(texts.deep_view()),
{
    let mut kept: Vec<String> = Vec::new();
    let mut i: usize = 0;
    assert(texts.deep_view().subrange(0, 0) =~= Seq::empty());
    while i < texts.len()
        invariant
            i <= texts@.len(),
            kept.deep_view() == keep_first(texts.deep_view().subrange(0, i as int)),
        decreases texts@.len() - i,
    {
        proof {
            let next = texts.deep_view().subrange(0, i + 1);
            assert(next.drop_last() =~= texts.deep_view().subrange(0, i as int));
            assert(next.last() == texts@[i as int]@);
        }
        let ghost before = kept.deep_view();
        if !contains_text(&kept, texts[i].as_str()) {
            kept.push(texts[i].clone());
            assert(kept.deep_view() =~= before.push(texts@[i as int]@));
        }
        i = i + 1;
    }
    assert(texts.deep_view().subrange(0, texts@.len() as int) =~= texts.deep_view());
    kept
}

/// The paths in force, from the defaults and from what the configuration
/// asks for.
pub fn account_store_paths(
    default_write_path: String,
    default_read_path: String,
    configured: Option<AccountStorePaths>,
) -> (paths: AccountStorePaths)
    ensures
        paths@ == store_paths(default_write_path@, default_read_path@, paths_view(configured)),
{
    let mut paths = match configured {
        Some(paths) => paths,
        None => {
            let mut read_paths: Vec<String> = Vec::new();
            read_paths.push(default_read_path.clone());
            assert(read_paths.deep_view() =~= seq![default_read_path@]);
            AccountStorePaths { read_paths, write_path: default_write_path }
        },
    };
    if paths.read_paths.len() == 0 {
        paths.read_paths.push(default_read_path);
        assert(paths.read_paths.deep_view() =~= seq![default_read_path@]);
    }
    if !contains_text(&paths.read_paths, paths.write_path.as_str()) {
        let ghost named = paths.read_paths.deep_view();
        paths.read_paths.insert(0, paths.write_path.clone());
        assert(paths.read_paths.deep_view() =~= seq![paths.write_path@] + named);
    }
    let read_paths = dedup_texts(&paths.read_paths);
    AccountStorePaths { read_paths, write_path: paths.write_path }
}

/// Nothing occurs twice among the kept texts, and a text is kept if and
/// only if it occurred.
pub proof fn lemma_keep_first(texts: Seq<Seq<char>>)
    ensures
        keep_first(texts).no_duplicates(),
        forall|t: Seq<char>| #[trigger] keep_first(texts).contains(t) <==> texts.contains(t),
        texts.len() > 0 ==> keep_first(texts).len() > 0 && keep_first(texts)[0] == texts[0],
    decreases texts.len(),
{
    if texts.len() > 0 {
        let rest = texts.drop_last();
        lemma_keep_first(rest);
        let before = keep_first(rest);
        assert forall|t: Seq<char>| #[trigger] keep_first(texts).contains(t) <==> texts.contains(
            t,
        ) by {
            if texts.contains(t) {
                let i = choose|i: int| 0 <= i < texts.len() && texts[i] == t;
                if i < rest.len() {
                    assert(rest[i] == t);
                    assert(rest.contains(t));
                    assert(before.contains(t));
                    let k = choose|k: int| 0 <= k < before.len() && before[k] == t;
                    assert(keep_first(texts)[k] == t);
                } else {
                    if before.contains(texts.last()) {
                    } else {
                        assert(keep_first(texts)[before.len() as int] == t);
                    }
                }
            }
            if keep_first(texts).contains(t) {
                let k = choose|k: int| 0 <= k < keep_first(texts).len() && keep_first(texts)[k]
                    == t;
                if k < before.len() {
                    assert(before[k] == t);
                    assert(before.contains(t));
                    assert(rest.contains(t));
                    let i = choose|i: int| 0 <= i < rest.len() && rest[i] == t;
                    assert(texts[i] == t);
                } else {
                    assert(t == texts.last());
                    assert(texts[texts.len() - 1] == t);
                }
            }
        }
        if rest.len() > 0 {
            assert(rest[0] == texts[0]);
        }
    }
}

/// No file is read twice, and the file to write is among the files to
/// read. Without a configuration the file to write is read first, and after
/// it the default file to read where that is another one.
pub proof fn lemma_store_paths(
    default_write_path: Seq<char>,
    default_read_path: Seq<char>,
    configured: Option<AccountStorePathsView>,
)
    ensures
        store_paths(default_write_path, default_read_path, configured).read_paths.no_duplicates(),
        store_paths(default_write_path, default_read_path, configured).read_paths.contains(
            store_paths(default_write_path, default_read_path, configured).write_path,
        ),
        configured is None ==> store_paths(default_write_path, default_read_path, configured)
            == (AccountStorePathsView {
            read_paths: if default_read_path == default_write_path {
                seq![default_write_path]
            } else {
                seq![default_write_path, default_read_path]
            },
            write_path: default_write_path,
        }),
{
    let base = match configured {
        Some(paths) => paths,
        None => AccountStorePathsView {
            read_paths: seq![default_read_path],
            write_path: default_write_path,
        },
    };
    let named = if base.read_paths.len() == 0 {
        seq![default_read_path]
    } else {
        base.read_paths
    };
    let with_write = if named.contains(base.write_path) {
        named
    } else {
        seq![base.write_path] + named
    };
    lemma_keep_first(with_write);
    if !named.contains(base.write_path) {
        assert(with_write[0] == base.write_path);
    }
    assert(with_write.contains(base.write_path));
    if configured is None {
        let one = seq![default_read_path];
        assert(one.drop_last() =~= Seq::<Seq<char>>::empty());
        assert(keep_first(one) =~= one) by {
            reveal_with_fuel(keep_first, 2);
        }
        if default_read_path == default_write_path {
            assert(one[0] == default_write_path);
            assert(named.contains(base.write_path));
        } else {
            assert(!named.contains(base.write_path));
            let two = seq![default_write_path, default_read_path];
            assert(with_write =~= two);
            assert(two.drop_last() =~= seq![default_write_path]);
            assert(seq![default_write_path].drop_last() =~= Seq::<Seq<char>>::empty());
            assert(keep_first(two) =~= two) by {
                reveal_with_fuel(keep_first, 3);
            }
        }
    }
}

} // verus!
