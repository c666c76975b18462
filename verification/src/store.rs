//! What the commands do to a database that runs them as they are documented, and what
//! therefore holds of the files kept in it.
use vstd::prelude::*;
use crate::db::{
    CommandView, FileInfoView, LAST_LISTED, add_file_commands, files_key, get_file_command,
    get_uploads_command, public_files_key,
};

verus! {

/// The content of a database: its hashes and its lists by key. What is not there counts
/// as empty.
#[verifier::ext_equal]
pub struct Store {
    pub hashes: Map<Seq<char>, Map<Seq<char>, FileInfoView>>,
    pub lists: Map<Seq<char>, Seq<Seq<char>>>,
}

/// A database without content.
pub open spec fn empty_store() -> Store {
    Store { hashes: Map::empty(), lists: Map::empty() }
}

/// The hash at `key`.
pub open spec fn hash_at(store: Store, key: Seq<char>) -> Map<Seq<char>, FileInfoView> {
    if store.hashes.contains_key(key) {
        store.hashes[key]
    } else {
        Map::empty()
    }
}

/// The list at `key`.
pub open spec fn list_at(store: Store, key: Seq<char>) -> Seq<Seq<char>> {
    if store.lists.contains_key(key) {
        store.lists[key]
    } else {
        Seq::empty()
    }
}

/// The database after a command. Only `HSet` and `LPush` change it.
pub open spec fn after(store: Store, command: CommandView) -> Store {
    match command {
        CommandView::HSet { key, field, value } => Store {
            hashes: store.hashes.insert(key, hash_at(store, key).insert(field, value)),
            lists: store.lists,
        },
        CommandView::LPush { key, item } => Store {
            hashes: store.hashes,
            lists: store.lists.insert(key, seq![item] + list_at(store, key)),
        },
        _ => store,
    }
}

/// The database after `commands`, in order.
pub open spec fn after_all(store: Store, commands: Seq<CommandView>) -> Store
    decreases commands.len(),
{
    if commands.len() == 0 {
        store
    } else {
        after(after_all(store, commands.drop_last()), commands.last())
    }
}

/// The reply to `HGet`.
pub open spec fn info_reply(store: Store, command: CommandView) -> Option<FileInfoView> {
    match command {
        CommandView::HGet { key, field } => if hash_at(store, key).contains_key(field) {
            Some(hash_at(store, key)[field])
        } else {
            None
        },
        _ => None,
    }
}

/// The reply to `LRange`, for indices that count from the front.
pub open spec fn ids_reply(store: Store, command: CommandView) -> Seq<Seq<char>> {
    match command {
        CommandView::LRange { key, start, stop } => {
            let list = list_at(store, key);
            let end = if stop + 1 < list.len() {
                stop + 1
            } else {
                list.len() as int
            };
            if 0 <= start < end {
                list.subrange(start, end)
            } else {
                Seq::empty()
            }
        },
        _ => Seq::empty(),
    }
}

/// The reply to `HLen` and `LLen`.
pub open spec fn count_reply(store: Store, command: CommandView) -> nat {
    match command {
        CommandView::HLen { key } => hash_at(store, key).len(),
        CommandView::LLen { key } => list_at(store, key).len(),
        _ => 0,
    }
}

/// The database after a file was added.
pub open spec fn with_file(
    store: Store,
    prefix: Seq<char>,
    file_id: Seq<char>,
    file: FileInfoView,
    public: bool,
) -> Store {
    after_all(store, add_file_commands(prefix, file_id, file, public))
}

/// What is known of a file.
pub open spec fn info_of(store: Store, prefix: Seq<char>, file_id: Seq<char>) -> Option<FileInfoView> {
    info_reply(store, get_file_command(prefix, file_id))
}

/// The ids that a listing of public files shows.
pub open spec fn listed(store: Store, prefix: Seq<char>) -> Seq<Seq<char>> {
    ids_reply(store, get_uploads_command(prefix))
}

/// Every public file is known.
pub open spec fn public_files_are_known(store: Store, prefix: Seq<char>) -> bool {
    forall|i: int|
        0 <= i < list_at(store, public_files_key(prefix)).len() ==> hash_at(
            store,
            files_key(prefix),
        ).contains_key(#[trigger] list_at(store, public_files_key(prefix))[i])
}

/// Every public file is known, and none is listed twice.
pub open spec fn public_files_are_single(store: Store, prefix: Seq<char>) -> bool {
    &&& hash_at(store, files_key(prefix)).dom().finite()
    &&& public_files_are_known(store, prefix)
    &&& list_at(store, public_files_key(prefix)).no_duplicates()
}

/// The two keys under a prefix differ, and keys under two prefixes do.
proof fn lemma_keys_differ(one: Seq<char>, other: Seq<char>)
    ensures
        files_key(one) != public_files_key(other),
        one != other ==> files_key(one) != files_key(other),
        one != other ==> public_files_key(one) != public_files_key(other),
{
    reveal_strlit("::files");
    reveal_strlit("::publicfiles");
    let files = files_key(one);
    let public = public_files_key(other);
    if files == public {
        assert(files[files.len() - 6] == ':');
    }
    if files_key(one) == files_key(other) {
        assert(files_key(one).take(files_key(one).len() - 7) =~= one);
    }
    if public_files_key(one) == public_files_key(other) {
        assert(public_files_key(one).take(public_files_key(one).len() - 13) =~= one);
        assert(public_files_key(other).take(public_files_key(other).len() - 13) =~= other);
    }
}

/// The database after a file was added, written out.
proof fn lemma_with_file(
    store: Store,
    prefix: Seq<char>,
    file_id: Seq<char>,
    file: FileInfoView,
    public: bool,
)
    ensures
        ({
            let set = after(
                store,
                CommandView::HSet { key: files_key(prefix), field: file_id, value: file },
            );
            with_file(store, prefix, file_id, file, public) == if public {
                after(set, CommandView::LPush { key: public_files_key(prefix), item: file_id })
            } else {
                set
            }
        }),
{
    reveal_with_fuel(after_all, 3);
}

/// A file that was added is found under its id, with the info it was added with.
pub proof fn law_added_file_is_found(
    store: Store,
    prefix: Seq<char>,
    file_id: Seq<char>,
    file: FileInfoView,
    public: bool,
)
    ensures
        info_of(with_file(store, prefix, file_id, file, public), prefix, file_id) == Some(file),
{
    lemma_with_file(store, prefix, file_id, file, public);
}

/// Adding a file leaves what is known of every other file as it was.
pub proof fn law_other_files_stay(
    store: Store,
    prefix: Seq<char>,
    file_id: Seq<char>,
    file: FileInfoView,
    public: bool,
    other: Seq<char>,
)
    requires
        other != file_id,
    ensures
        info_of(with_file(store, prefix, file_id, file, public), prefix, other) == info_of(
            store,
            prefix,
            other,
        ),
{
    lemma_with_file(store, prefix, file_id, file, public);
}

/// A public file comes first in the listing, in front of what was listed before; a file
/// that is not public leaves the listing as it was.
pub proof fn law_listing_shows_the_latest_first(
    store: Store,
    prefix: Seq<char>,
    file_id: Seq<char>,
    file: FileInfoView,
    public: bool,
)
    ensures
        ({
            let before = listed(store, prefix);
            let now = listed(with_file(store, prefix, file_id, file, public), prefix);
            if !public {
                now == before
            } else if before.len() <= LAST_LISTED {
                now == seq![file_id] + before
            } else {
                now == seq![file_id] + before.drop_last()
            }
        }),
{
    lemma_with_file(store, prefix, file_id, file, public);
}

/// A listing has a limit, and shows all public files until it is reached.
pub proof fn law_listing_is_bounded(store: Store, prefix: Seq<char>)
    ensures
        listed(store, prefix).len() <= LAST_LISTED + 1,
        list_at(store, public_files_key(prefix)).len() <= LAST_LISTED + 1 ==> listed(
            store,
            prefix,
        ) == list_at(store, public_files_key(prefix)),
{
}

/// A new file adds one to the count of files, and one that was known adds nothing; a
/// public file adds one to the count of public files.
pub proof fn law_counts_follow_the_files(
    store: Store,
    prefix: Seq<char>,
    file_id: Seq<char>,
    file: FileInfoView,
    public: bool,
)
    requires
        hash_at(store, files_key(prefix)).dom().finite(),
    ensures
        ({
            let now = with_file(store, prefix, file_id, file, public);
            let all = CommandView::HLen { key: files_key(prefix) };
            let shown = CommandView::LLen { key: public_files_key(prefix) };
            &&& count_reply(now, all) == count_reply(store, all) + if info_of(
                store,
                prefix,
                file_id,
            ) is Some {
                0int
            } else {
                1
            }
            &&& count_reply(now, shown) == count_reply(store, shown) + if public {
                1int
            } else {
                0
            }
        }),
{
    lemma_with_file(store, prefix, file_id, file, public);
}

/// Instances of the service with different key prefixes see nothing of each other's files.
pub proof fn law_prefixes_keep_files_apart(
    store: Store,
    prefix: Seq<char>,
    file_id: Seq<char>,
    file: FileInfoView,
    public: bool,
    other: Seq<char>,
    id: Seq<char>,
)
    requires
        other != prefix,
    ensures
        ({
            let now = with_file(store, prefix, file_id, file, public);
            let all = CommandView::HLen { key: files_key(other) };
            let shown = CommandView::LLen { key: public_files_key(other) };
            &&& info_of(now, other, id) == info_of(store, other, id)
            &&& listed(now, other) == listed(store, other)
            &&& count_reply(now, all) == count_reply(store, all)
            &&& count_reply(now, shown) == count_reply(store, shown)
        }),
{
    lemma_with_file(store, prefix, file_id, file, public);
    lemma_keys_differ(prefix, other);
}

/// In a database without content every public file is known.
pub proof fn law_no_public_file_is_unknown_at_first(prefix: Seq<char>)
    ensures
        public_files_are_known(empty_store(), prefix),
{
}

/// Where every public file is known, it stays so, however far the commands that add a
/// file were run.
pub proof fn law_public_files_stay_known(
    store: Store,
    prefix: Seq<char>,
    file_id: Seq<char>,
    file: FileInfoView,
    public: bool,
    run: int,
)
    requires
        public_files_are_known(store, prefix),
        0 <= run <= add_file_commands(prefix, file_id, file, public).len(),
    ensures
        public_files_are_known(
            after_all(store, add_file_commands(prefix, file_id, file, public).take(run)),
            prefix,
        ),
{
    let commands = add_file_commands(prefix, file_id, file, public);
    let partly = after_all(store, commands.take(run));
    lemma_with_file(store, prefix, file_id, file, public);
    lemma_with_file(store, prefix, file_id, file, false);
    if run == commands.len() {
        assert(commands.take(run) =~= commands);
    } else if run > 0 {
        assert(commands.take(run) =~= add_file_commands(prefix, file_id, file, false));
    }
    let was = list_at(store, public_files_key(prefix));
    let now = list_at(partly, public_files_key(prefix));
    assert forall|i: int| 0 <= i < now.len() implies hash_at(
        partly,
        files_key(prefix),
    ).contains_key(#[trigger] now[i]) by {
        if now.len() == was.len() {
            assert(hash_at(store, files_key(prefix)).contains_key(was[i]));
        } else if i > 0 {
            assert(hash_at(store, files_key(prefix)).contains_key(was[i - 1]));
        }
    }
}

/// In a database without content no public file is listed twice.
pub proof fn law_no_public_file_is_double_at_first(prefix: Seq<char>)
    ensures
        public_files_are_single(empty_store(), prefix),
{
}

/// Where no public file is listed twice, it stays so when a file is added that was not known.
pub proof fn law_public_files_stay_single(
    store: Store,
    prefix: Seq<char>,
    file_id: Seq<char>,
    file: FileInfoView,
    public: bool,
)
    requires
        public_files_are_single(store, prefix),
        info_of(store, prefix, file_id) is None,
    ensures
        public_files_are_single(with_file(store, prefix, file_id, file, public), prefix),
{
    let now = with_file(store, prefix, file_id, file, public);
    let commands = add_file_commands(prefix, file_id, file, public);
    lemma_with_file(store, prefix, file_id, file, public);
    law_public_files_stay_known(store, prefix, file_id, file, public, commands.len() as int);
    assert(commands.take(commands.len() as int) =~= commands);
    let was = list_at(store, public_files_key(prefix));
    if public {
        assert forall|i: int| 0 <= i < was.len() implies #[trigger] was[i] != file_id by {
            assert(hash_at(store, files_key(prefix)).contains_key(was[i]));
        }
        assert(list_at(now, public_files_key(prefix)) =~= seq![file_id] + was);
    }
}

/// Where no public file is listed twice, the count of public files is at most the count of
/// all files.
pub proof fn law_no_more_public_files_than_files(store: Store, prefix: Seq<char>)
    requires
        public_files_are_single(store, prefix),
    ensures
        count_reply(store, CommandView::LLen { key: public_files_key(prefix) }) <= count_reply(
            store,
            CommandView::HLen { key: files_key(prefix) },
        ),
{
    let list = list_at(store, public_files_key(prefix));
    let files = hash_at(store, files_key(prefix)).dom();
    list.unique_seq_to_set();
    assert(list.to_set().subset_of(files)) by {
        assert forall|id: Seq<char>| list.to_set().contains(id) implies files.contains(id) by {
            let i = choose|i: int| 0 <= i < list.len() && list[i] == id;
            assert(files.contains(list[i]));
        }
    }
    vstd::set_lib::lemma_len_subset(list.to_set(), files);
}

/// Where every public file is known, every id that a listing shows has its info.
pub proof fn law_listed_files_have_info(store: Store, prefix: Seq<char>, i: int)
    requires
        public_files_are_known(store, prefix),
        0 <= i < listed(store, prefix).len(),
    ensures
        info_of(store, prefix, listed(store, prefix)[i]) is Some,
{
}

} // verus!
